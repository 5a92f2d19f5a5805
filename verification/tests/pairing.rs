use std::collections::HashMap;

use mde_kdc_host::identity::generate_pkcs8_of_size;
use mde_kdc_host::opening::{OpenReply, OpenStep};
use mde_kdc_host::pairing::{DevicesFile, PRIVATE_KEY_MODE};
use mde_kdc_host::saving::{SaveReply, SaveStep};
use mde_kdc_host::signing::SignStep;
use mde_kdc_host::{DeviceRecord, HostError, PairingStore};
use rsa::pkcs1::DecodeRsaPublicKey;
use rsa::pkcs8::DecodePrivateKey;
use rsa::sha2::{Digest, Sha256};
use rsa::traits::PublicKeyParts;

/// Files in memory, and the key pair that was loaded last.
#[derive(Default)]
struct Host {
    files: HashMap<Vec<u8>, Vec<u8>>,
    modes: HashMap<Vec<u8>, u32>,
    key_pair: Option<rsa::RsaPrivateKey>,
    /// Whether writing the list of trusted peers fails.
    full: bool,
}

const DIR: &str = "/store";

fn path(name: &str) -> Vec<u8> {
    format!("{DIR}/{name}").into_bytes()
}

fn parse(text: &str) -> DevicesFile {
    let Ok(table) = text.parse::<toml::Table>() else {
        return DevicesFile::Malformed;
    };
    let mut records = Vec::new();
    if let Some(toml::Value::Array(devices)) = table.get("device") {
        for device in devices {
            records.push(DeviceRecord {
                device_id: device["device_id"].as_str().unwrap().to_string(),
                device_name: device["device_name"].as_str().unwrap().to_string(),
                paired_at_ms: device["paired_at_ms"].as_integer().unwrap(),
            });
        }
    }
    DevicesFile::Parsed(records)
}

fn print(records: &[DeviceRecord]) -> String {
    let mut devices = Vec::new();
    for record in records {
        let mut table = toml::Table::new();
        table.insert("device_id".into(), record.device_id.clone().into());
        table.insert("device_name".into(), record.device_name.clone().into());
        table.insert("paired_at_ms".into(), record.paired_at_ms.into());
        devices.push(toml::Value::Table(table));
    }
    let mut file = toml::Table::new();
    file.insert("device".into(), toml::Value::Array(devices));
    toml::to_string_pretty(&file).unwrap()
}

impl Host {
    fn open(&mut self) -> Result<PairingStore, HostError> {
        let mut step = PairingStore::open(DIR.as_bytes().to_vec());
        loop {
            let reply = match &step {
                OpenStep::CreateDir { dir } => {
                    assert_eq!(dir, DIR.as_bytes());
                    OpenReply::Done(Ok(()))
                }
                OpenStep::CheckKey { path, .. } => OpenReply::Exists(self.files.contains_key(path)),
                OpenStep::ReadKey { path, .. } => OpenReply::Bytes(Ok(self.files[path].clone())),
                // A key of the full size takes too long for every test.
                OpenStep::GenerateKey { .. } => OpenReply::Generated(generate_pkcs8_of_size(512)),
                OpenStep::WriteKey { path, pkcs8, .. } => {
                    self.files.insert(path.clone(), pkcs8.clone());
                    OpenReply::Done(Ok(()))
                }
                OpenStep::RestrictKey { path, mode, .. } => {
                    self.modes.insert(path.clone(), *mode);
                    OpenReply::Done(Ok(()))
                }
                OpenStep::LoadKeyPair { pkcs8, .. } => {
                    match rsa::RsaPrivateKey::from_pkcs8_der(pkcs8) {
                        Ok(key) => {
                            self.key_pair = Some(key);
                            OpenReply::Done(Ok(()))
                        }
                        Err(error) => OpenReply::Done(Err(error.to_string())),
                    }
                }
                OpenStep::ReadDevices { path, .. } => OpenReply::Devices(match self.files.get(path) {
                    Some(bytes) => parse(std::str::from_utf8(bytes).unwrap()),
                    None => DevicesFile::Unreadable,
                }),
                OpenStep::Opened { .. } | OpenStep::Failed { .. } => break,
            };
            step = step.step(reply);
        }
        match step {
            OpenStep::Opened { store } => Ok(store),
            OpenStep::Failed { error } => Err(error),
            _ => unreachable!(),
        }
    }

    fn save(&mut self, mut step: SaveStep) -> SaveStep {
        loop {
            let reply = match &step {
                SaveStep::Serialize { records, .. } => SaveReply::Text(Ok(print(records))),
                SaveStep::WriteTemp { .. } if self.full => {
                    SaveReply::Done(Err("disk full".into()))
                }
                SaveStep::WriteTemp { path, text, .. } => {
                    self.files.insert(path.clone(), text.clone().into_bytes());
                    SaveReply::Done(Ok(()))
                }
                SaveStep::Rename { from, to } => {
                    let file = self.files.remove(from).unwrap();
                    self.files.insert(to.clone(), file);
                    SaveReply::Done(Ok(()))
                }
                SaveStep::Saved | SaveStep::Failed { .. } => return step,
            };
            step = step.next(reply);
        }
    }

    fn pair(&mut self, store: &mut PairingStore, record: DeviceRecord) -> Result<(), HostError> {
        let end = self.save(store.pair(&record));
        store.pair_ended(record, &end);
        result(end)
    }

    fn unpair(&mut self, store: &mut PairingStore, device_id: &str) -> Result<(), HostError> {
        result(self.save(store.unpair(device_id)))
    }
}

fn result(end: SaveStep) -> Result<(), HostError> {
    match end {
        SaveStep::Saved => Ok(()),
        SaveStep::Failed { error } => Err(error),
        _ => unreachable!(),
    }
}

fn rec(id: &str) -> DeviceRecord {
    DeviceRecord {
        device_id: id.into(),
        device_name: "Phone".into(),
        paired_at_ms: 1,
    }
}

#[test]
fn open_creates_then_reloads_identity_key() {
    let mut host = Host::default();
    assert!(!host.files.contains_key(&path("identity.pkcs8")));
    let s1 = host.open().unwrap();
    assert!(host.files.contains_key(&path("identity.pkcs8")));
    let pub1 = s1.public_key_der();
    assert!(!pub1.is_empty());
    // The key file is the owner's alone.
    assert_eq!(host.modes[&path("identity.pkcs8")], 0o600);
    assert_eq!(PRIVATE_KEY_MODE, 0o600);
    // Opening again loads the same key and writes nothing.
    let files = host.files.clone();
    let s2 = host.open().unwrap();
    assert_eq!(s2.public_key_der(), pub1);
    assert_eq!(host.files, files);
}

#[test]
fn sign_then_verify_round_trips() {
    let mut host = Host::default();
    let s = host.open().unwrap();
    let msg = b"handshake-challenge";
    let step = s.sign_challenge(msg);
    let SignStep::Sign { message } = &step else {
        panic!("expected a request to sign");
    };
    assert_eq!(message, msg);
    let padding = rsa::Pkcs1v15Sign::new::<Sha256>();
    let key = host.key_pair.as_ref().unwrap();
    let signed = key.sign(padding, &Sha256::digest(message)).unwrap();
    let SignStep::Signed { signature } = step.next(Ok(signed)) else {
        panic!("expected a signature");
    };
    let public = rsa::RsaPublicKey::from_pkcs1_der(&s.public_key_der()).unwrap();
    let padding = rsa::Pkcs1v15Sign::new::<Sha256>();
    public.verify(padding, &Sha256::digest(msg), &signature).unwrap();
}

#[test]
fn reopened_store_signs_alike() {
    let mut host = Host::default();
    let sign = |host: &Host| {
        let key = host.key_pair.as_ref().unwrap();
        key.sign(rsa::Pkcs1v15Sign::new::<Sha256>(), &Sha256::digest(b"m")).unwrap()
    };
    let s1 = host.open().unwrap();
    let first = sign(&host);
    let s2 = host.open().unwrap();
    assert_eq!(sign(&host), first);
    assert!(matches!(s1.sign_challenge(b"m"), SignStep::Sign { message } if message == b"m"));
    assert!(matches!(s2.sign_challenge(b"m"), SignStep::Sign { message } if message == b"m"));
}

#[test]
fn sign_failure_is_a_crypto_error() {
    let step = SignStep::Sign { message: vec![1] }.next(Err("no key".into()));
    assert!(matches!(step, SignStep::Failed { error: HostError::Crypto(text) } if text == "no key"));
}

#[test]
fn pair_persists_across_reopen() {
    let mut host = Host::default();
    {
        let mut s = host.open().unwrap();
        host.pair(&mut s, rec("dev-1")).unwrap();
        assert!(s.is_paired("dev-1"));
        assert_eq!(s.len(), 1);
    }
    assert!(!host.files.contains_key(&path("devices.toml.tmp")));
    let s2 = host.open().unwrap();
    assert!(s2.is_paired("dev-1"));
    assert_eq!(s2.get("dev-1").unwrap().device_name, "Phone");
    assert_eq!(s2.get("dev-1").unwrap().paired_at_ms, 1);
    assert!(s2.get("dev-2").is_none());
}

#[test]
fn unpair_persists_removal() {
    let mut host = Host::default();
    {
        let mut s = host.open().unwrap();
        host.pair(&mut s, rec("dev-1")).unwrap();
        host.unpair(&mut s, "dev-1").unwrap();
    }
    assert!(!host.open().unwrap().is_paired("dev-1"));
}

#[test]
fn garbage_devices_file_loads_empty() {
    let mut host = Host::default();
    host.files.insert(path("devices.toml"), b"not valid toml { [[[".to_vec());
    let s = host.open().unwrap();
    assert!(s.is_empty());
}

#[test]
fn missing_devices_file_loads_empty() {
    let s = Host::default().open().unwrap();
    assert!(s.is_empty());
    assert_eq!(s.len(), 0);
}

#[test]
fn pairing_again_replaces() {
    let mut host = Host::default();
    let mut s = host.open().unwrap();
    host.pair(&mut s, rec("dev-1")).unwrap();
    host.pair(&mut s, rec("dev-2")).unwrap();
    let renamed = DeviceRecord { device_name: "Tablet".into(), ..rec("dev-1") };
    host.pair(&mut s, renamed).unwrap();
    assert_eq!(s.len(), 2);
    assert_eq!(s.get("dev-1").unwrap().device_name, "Tablet");
    assert_eq!(s.get("dev-2").unwrap().device_name, "Phone");
    assert!(!s.is_empty());
}

#[test]
fn unpairing_an_unknown_id_is_a_no_op() {
    let mut host = Host::default();
    host.files.insert(path("devices.toml"), b"not valid toml { [[[".to_vec());
    let mut s = host.open().unwrap();
    let files = host.files.clone();
    assert!(matches!(s.unpair("ghost"), SaveStep::Saved));
    host.unpair(&mut s, "ghost").unwrap();
    assert!(s.is_empty());
    assert_eq!(host.files, files);

    host.pair(&mut s, rec("dev-1")).unwrap();
    let files = host.files.clone();
    host.unpair(&mut s, "ghost").unwrap();
    assert_eq!(s.len(), 1);
    assert_eq!(host.files, files);
}

#[test]
fn peer_that_was_not_persisted_is_not_paired() {
    let mut host = Host::default();
    let mut s = host.open().unwrap();
    host.full = true;
    let failed = host.pair(&mut s, rec("dev-1"));
    assert!(matches!(failed, Err(HostError::Io(text)) if text == "disk full"));
    assert!(!s.is_paired("dev-1"));
    assert!(s.is_empty());
    assert!(!host.open().unwrap().is_paired("dev-1"));

    host.full = false;
    host.pair(&mut s, rec("dev-1")).unwrap();
    assert!(s.is_paired("dev-1"));
    // A failed change of a record keeps the one that was persisted.
    host.full = true;
    let renamed = DeviceRecord { device_name: "Tablet".into(), ..rec("dev-1") };
    assert!(host.pair(&mut s, renamed).is_err());
    assert_eq!(s.get("dev-1").unwrap().device_name, "Phone");
}

#[test]
fn reopening_gives_the_store_back() {
    let mut host = Host::default();
    let mut s = host.open().unwrap();
    host.pair(&mut s, rec("dev-1")).unwrap();
    host.pair(&mut s, rec("dev-2")).unwrap();
    host.unpair(&mut s, "dev-1").unwrap();
    host.unpair(&mut s, "dev-9").unwrap();
    host.full = true;
    assert!(host.pair(&mut s, rec("dev-3")).is_err());
    host.full = false;
    let renamed = DeviceRecord { device_name: "Tablet".into(), ..rec("dev-2") };
    host.pair(&mut s, renamed).unwrap();
    host.pair(&mut s, rec("dev-4")).unwrap();
    let files = host.files.clone();
    let reopened = host.open().unwrap();
    assert_eq!(host.files, files);
    assert_eq!(reopened.public_key_der(), s.public_key_der());
    for store in [&s, &reopened] {
        assert_eq!(store.len(), 2);
        assert_eq!(store.get("dev-2").unwrap().device_name, "Tablet");
        assert_eq!(store.get("dev-4").unwrap().device_name, "Phone");
        assert!(!store.is_paired("dev-1"));
        assert!(!store.is_paired("dev-3"));
    }
}

#[test]
fn failed_open_spoils_nothing() {
    // The key that is there cannot be read: nothing is asked for but to read it.
    let step = open_step(DIR).step(OpenReply::Done(Ok(())));
    let step = step.step(OpenReply::Exists(true));
    let OpenStep::ReadKey { path: read, .. } = &step else {
        panic!("expected a request to read the key");
    };
    assert_eq!(*read, path("identity.pkcs8"));
    let step = step.step(OpenReply::Bytes(Err("denied".into())));
    assert!(matches!(step, OpenStep::Failed { error: HostError::Io(text) } if text == "denied"));
    // A new key cannot be written: only its own path is asked for.
    let step = open_step(DIR).step(OpenReply::Done(Ok(()))).step(OpenReply::Exists(false));
    let step = step.step(OpenReply::Generated(generate_pkcs8_of_size(512)));
    let OpenStep::WriteKey { path: written, .. } = &step else {
        panic!("expected a request to write the key");
    };
    assert_eq!(*written, path("identity.pkcs8"));
    let step = step.step(OpenReply::Done(Err("disk full".into())));
    assert!(matches!(step, OpenStep::Failed { error: HostError::Io(text) } if text == "disk full"));
}

#[test]
fn peer_is_untrusted_even_if_the_removal_was_not_persisted() {
    let mut host = Host::default();
    let mut s = host.open().unwrap();
    host.pair(&mut s, rec("dev-1")).unwrap();
    host.full = true;
    assert!(host.unpair(&mut s, "dev-1").is_err());
    assert!(!s.is_paired("dev-1"));
    assert!(host.open().unwrap().is_paired("dev-1"));
}

#[test]
fn pairing_starts_to_save_before_the_peer_is_trusted() {
    let s = Host::default().open().unwrap();
    let step = s.pair(&rec("dev-1"));
    assert!(matches!(&step, SaveStep::Serialize { dir, records }
        if dir == DIR.as_bytes() && records.len() == 1 && records[0].device_id == "dev-1"));
    assert!(!s.is_paired("dev-1"));
}

#[test]
fn first_open_generates_a_key_of_the_full_size() {
    // How long the search for primes takes is chance: the first of three draws will do.
    let runtime = tokio::runtime::Builder::new_current_thread().build().unwrap();
    let (sender, receiver) = std::sync::mpsc::channel();
    for _ in 0..3 {
        let sender = sender.clone();
        runtime.spawn_blocking(move || {
            let missing = open_step("/s").next(OpenReply::Done(Ok(())));
            let _ = sender.send(missing.next(OpenReply::Exists(false)));
        });
    }
    let step = receiver.recv().unwrap();
    runtime.shutdown_background();
    let OpenStep::WriteKey { path, pkcs8, .. } = step else {
        panic!("expected a request to write the key");
    };
    assert_eq!(path, b"/s/identity.pkcs8");
    let key = rsa::RsaPrivateKey::from_pkcs8_der(&pkcs8).unwrap();
    assert_eq!(key.n().bits(), 2048);
}

#[test]
fn garbage_key_is_not_replaced() {
    let mut host = Host::default();
    host.files.insert(path("identity.pkcs8"), b"garbage".to_vec());
    assert!(matches!(host.open(), Err(HostError::Crypto(_))));
    assert_eq!(host.files[&path("identity.pkcs8")], b"garbage");
}

fn open_step(dir: &str) -> OpenStep {
    PairingStore::open(dir.as_bytes().to_vec())
}

#[test]
fn open_reports_each_failure() {
    let failed = open_step("/s").next(OpenReply::Done(Err("denied".into())));
    assert!(matches!(failed, OpenStep::Failed { error: HostError::Io(t) } if t == "denied"));

    let found = || open_step("/s").next(OpenReply::Done(Ok(()))).next(OpenReply::Exists(true));
    assert!(matches!(found(), OpenStep::ReadKey { path, .. } if path == b"/s/identity.pkcs8"));
    let failed = found().next(OpenReply::Bytes(Err("gone".into())));
    assert!(matches!(failed, OpenStep::Failed { error: HostError::Io(t) } if t == "gone"));

    let loaded = || found().next(OpenReply::Bytes(Ok(b"garbage".to_vec())));
    let failed = loaded().next(OpenReply::Done(Err("bad key".into())));
    assert!(matches!(failed, OpenStep::Failed { error: HostError::Crypto(t) } if t == "bad key"));
    // A key that loads but has no public half is a key-generation error.
    let failed = loaded().next(OpenReply::Done(Ok(())));
    assert!(matches!(failed, OpenStep::Failed { error: HostError::Keygen(t) }
        if t.starts_with("PKCS#8 ASN.1 error")));

    let missing = || open_step("/s").next(OpenReply::Done(Ok(()))).step(OpenReply::Exists(false));
    let failed = missing().step(OpenReply::Generated(Err(HostError::Keygen("no luck".into()))));
    assert!(matches!(failed, OpenStep::Failed { error: HostError::Keygen(t) } if t == "no luck"));
    let generated = || missing().step(OpenReply::Generated(Ok(vec![7])));
    let failed = generated().next(OpenReply::Done(Err("full".into())));
    assert!(matches!(failed, OpenStep::Failed { error: HostError::Io(t) } if t == "full"));
    let written = generated().next(OpenReply::Done(Ok(())));
    assert!(matches!(&written, OpenStep::RestrictKey { path, mode: 0o600, pkcs8, .. }
        if path == b"/s/identity.pkcs8" && pkcs8 == &[7]));
    let failed = written.next(OpenReply::Done(Err("not yours".into())));
    assert!(matches!(failed, OpenStep::Failed { error: HostError::Io(t) } if t == "not yours"));
}

#[test]
fn unrelated_reply_changes_nothing() {
    let step = open_step("/s").next(OpenReply::Exists(true));
    assert!(matches!(step, OpenStep::CreateDir { dir } if dir == b"/s"));
    let step = SaveStep::Saved.next(SaveReply::Done(Err("late".into())));
    assert!(matches!(step, SaveStep::Saved));
}

#[test]
fn save_reports_each_failure() {
    let first = || SaveStep::Serialize { dir: b"/s/".to_vec(), records: vec![rec("dev-1")] };
    let failed = first().next(SaveReply::Text(Err("no text".into())));
    assert!(matches!(failed, SaveStep::Failed { error: HostError::Serialize(t) } if t == "no text"));
    let write = || first().next(SaveReply::Text(Ok("x".into())));
    assert!(matches!(write(), SaveStep::WriteTemp { path, text, .. }
        if path == b"/s/devices.toml.tmp" && text == "x"));
    let failed = write().next(SaveReply::Done(Err("full".into())));
    assert!(matches!(failed, SaveStep::Failed { error: HostError::Io(t) } if t == "full"));
    let rename = || write().next(SaveReply::Done(Ok(())));
    assert!(matches!(rename(), SaveStep::Rename { from, to }
        if from == b"/s/devices.toml.tmp" && to == b"/s/devices.toml"));
    let failed = rename().next(SaveReply::Done(Err("busy".into())));
    assert!(matches!(failed, SaveStep::Failed { error: HostError::Io(t) } if t == "busy"));
    assert!(matches!(rename().next(SaveReply::Done(Ok(()))), SaveStep::Saved));
}

fn default_dir(xdg: Option<&str>, home: Option<&str>) -> Result<String, HostError> {
    let bytes = |text: &str| text.as_bytes().to_vec();
    PairingStore::default_dir(xdg.map(bytes), home.map(bytes))
        .map(|dir| String::from_utf8(dir).unwrap())
}

#[test]
fn default_dir_prefers_xdg_config_home() {
    assert_eq!(default_dir(Some("/x"), Some("/h")).unwrap(), "/x/mde/connect");
    assert_eq!(default_dir(Some("/x/"), None).unwrap(), "/x/mde/connect");
    assert_eq!(default_dir(Some(""), Some("/h")).unwrap(), "mde/connect");
    assert_eq!(default_dir(None, Some("/h")).unwrap(), "/h/.config/mde/connect");
    assert!(matches!(default_dir(None, None), Err(HostError::NoConfigDir)));
}
