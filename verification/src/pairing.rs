//! The pairing store: this host's public key and the trusted peers, kept in one
//! directory.
//!
//! The directory holds two files. `identity.pkcs8` is the host's private key; it is
//! generated once and readable by its owner alone. `devices.toml` lists the trusted
//! peers; a new list is written beside it and renamed over it, so that a reader
//! finds the old list or the new one and never a part.
use vstd::prelude::*;
#[allow(unused_imports)]
use vstd::utf8::encode_utf8;

use crate::device::{DeviceRecord, DeviceTable};
#[allow(unused_imports)]
use crate::device::{collect_devices, record_views, DeviceRecordView};
#[allow(unused_imports)]
use crate::error::{result_view, HostError, HostErrorView};
use crate::opening::OpenStep;
#[allow(unused_imports)]
use crate::opening::OpenStepView;
#[allow(unused_imports)]
use crate::path::join_spec;
use crate::path::{copy_bytes, join};
use crate::saving::SaveStep;
#[allow(unused_imports)]
use crate::saving::SaveStepView;
use crate::signing::SignStep;
#[allow(unused_imports)]
use crate::signing::SignStepView;

verus! {

/// Permission bits of the private-key file: read and write for its owner alone.
pub const PRIVATE_KEY_MODE: u32 = 0o600;

/// Where a store in `dir` keeps the host's private key.
pub open spec fn identity_path(dir: Seq<u8>) -> Seq<u8> {
    join_spec(dir, encode_utf8("identity.pkcs8"@))
}

/// Where a store in `dir` keeps the trusted peers.
pub open spec fn devices_path(dir: Seq<u8>) -> Seq<u8> {
    join_spec(dir, encode_utf8("devices.toml"@))
}

/// Where a store in `dir` writes a new list of trusted peers before it takes the
/// place of the old one.
pub open spec fn devices_temp_path(dir: Seq<u8>) -> Seq<u8> {
    join_spec(dir, encode_utf8("devices.toml.tmp"@))
}

/// The conventional store directory for the values of `XDG_CONFIG_HOME` and
/// `HOME`.
pub open spec fn default_dir_spec(
    xdg_config_home: Option<Seq<u8>>,
    home: Option<Seq<u8>>,
) -> Result<Seq<u8>, HostErrorView> {
    match (xdg_config_home, home) {
        (Some(base), _) => Ok(store_dir(base)),
        (None, Some(home)) => Ok(store_dir(join_spec(home, encode_utf8(".config"@)))),
        (None, None) => Err(HostErrorView::NoConfigDir),
    }
}

/// The store directory in the configuration directory `base`.
pub open spec fn store_dir(base: Seq<u8>) -> Seq<u8> {
    join_spec(join_spec(base, encode_utf8("mde"@)), encode_utf8("connect"@))
}

/// The model of an optional byte string.
pub open spec fn bytes_view(bytes: Option<Vec<u8>>) -> Option<Seq<u8>> {
    match bytes {
        Some(bytes) => Some(bytes@),
        None => None,
    }
}

/// What reading and parsing `devices.toml` gave.
#[derive(Debug)]
pub enum DevicesFile {
    /// The file is missing or cannot be read as text.
    Unreadable,
    /// The text is not a list of trusted peers.
    Malformed,
    /// The records of the list, in the order of the file.
    Parsed(Vec<DeviceRecord>),
}

/// The mathematical model of a [`DevicesFile`].
#[verifier::ext_equal]
pub enum DevicesFileView {
    Unreadable,
    Malformed,
    Parsed(Seq<DeviceRecordView>),
}

impl View for DevicesFile {
    type V = DevicesFileView;

    open spec fn view(&self) -> DevicesFileView {
        match self {
            DevicesFile::Unreadable => DevicesFileView::Unreadable,
            DevicesFile::Malformed => DevicesFileView::Malformed,
            DevicesFile::Parsed(records) => DevicesFileView::Parsed(record_views(records@)),
        }
    }
}

impl DevicesFileView {
    /// The trusted peers: those that the list describes, and none where there is
    /// no list.
    pub open spec fn devices(self) -> Map<Seq<char>, DeviceRecordView> {
        match self {
            DevicesFileView::Parsed(records) => collect_devices(records),
            _ => Map::empty(),
        }
    }
}

/// The trusted peers of a list that was read. A missing or unusable file yields
/// none, and never an error: the daemon must always start.
pub fn read_devices(file: DevicesFile) -> (devices: DeviceTable)
    ensures
        devices@ == file@.devices(),
{
    match file {
        DevicesFile::Parsed(records) => DeviceTable::from_records(&records),
        _ => DeviceTable::new(),
    }
}

/// The host pairing store: its directory, this host's public key and the trusted
/// peers.
pub struct PairingStore {
    dir: Vec<u8>,
    public_key_der: Vec<u8>,
    devices: DeviceTable,
}

/// The mathematical model of a [`PairingStore`].
#[verifier::ext_equal]
pub struct PairingStoreView {
    /// The directory, as the bytes of its path.
    pub dir: Seq<u8>,
    /// This host's RSA public key, as a PKCS#1 document.
    pub public_key_der: Seq<u8>,
    /// The trusted peers, by device id.
    pub devices: Map<Seq<char>, DeviceRecordView>,
}

impl View for PairingStore {
    type V = PairingStoreView;

    closed spec fn view(&self) -> PairingStoreView {
        PairingStoreView {
            dir: self.dir@,
            public_key_der: self.public_key_der@,
            devices: self.devices@,
        }
    }
}

impl PairingStoreView {
    /// The store with `record` trusted.
    pub open spec fn paired(self, record: DeviceRecordView) -> PairingStoreView {
        PairingStoreView { devices: self.devices.insert(record.device_id, record), ..self }
    }

    /// The store after a pairing whose save ended in `end`.
    pub open spec fn pair_ended(
        self,
        record: DeviceRecordView,
        end: SaveStepView,
    ) -> PairingStoreView {
        if end is Saved {
            self.paired(record)
        } else {
            self
        }
    }

    /// The store with `device_id` not trusted.
    pub open spec fn unpaired(self, device_id: Seq<char>) -> PairingStoreView {
        PairingStoreView { devices: self.devices.remove(device_id), ..self }
    }
}

impl PairingStore {
    /// The conventional store directory: `mde/connect` in the directory that
    /// `XDG_CONFIG_HOME` names, or else in `.config` of the one that `HOME` names.
    ///
    /// The arguments are the values of the two variables, where they are set.
    pub fn default_dir(xdg_config_home: Option<Vec<u8>>, home: Option<Vec<u8>>) -> (dir: Result<
        Vec<u8>,
        HostError,
    >)
        ensures
            result_view(dir) == default_dir_spec(bytes_view(xdg_config_home), bytes_view(home)),
    {
        let base = match xdg_config_home {
            Some(base) => base,
            None => match home {
                Some(home) => join(&home, ".config".as_bytes()),
                None => {
                    return Err(HostError::NoConfigDir);
                },
            },
        };
        Ok(join(&join(&base, "mde".as_bytes()), "connect".as_bytes()))
    }

    /// Starts to open the store in `dir`, or to create it the first time.
    pub fn open(dir: Vec<u8>) -> (step: OpenStep)
        ensures
            step@ == (OpenStepView::CreateDir { dir: dir@ }),
    {
        OpenStep::CreateDir { dir }
    }

    /// The store in `dir` with the given public key and trusted peers.
    pub(crate) fn from_parts(dir: Vec<u8>, public_key_der: Vec<u8>, devices: DeviceTable) -> (store:
        Self)
        ensures
            store@ == (PairingStoreView {
                dir: dir@,
                public_key_der: public_key_der@,
                devices: devices@,
            }),
    {
        PairingStore { dir, public_key_der, devices }
    }

    /// Starts to sign a handshake challenge with this host's identity key
    /// (RSA-PKCS1-v1_5 / SHA-256).
    pub fn sign_challenge(&self, message: &[u8]) -> (step: SignStep)
        ensures
            step@ == (SignStepView::Sign { message: message@ }),
    {
        SignStep::Sign { message: copy_bytes(message) }
    }

    /// This host's RSA public key (PKCS#1 `RSAPublicKey` DER), to advertise during
    /// pairing and to check signatures against.
    #[must_use]
    pub fn public_key_der(&self) -> (der: Vec<u8>)
        ensures
            der@ == self@.public_key_der,
    {
        copy_bytes(self.public_key_der.as_slice())
    }

    /// Whether `device_id` is a trusted, persisted peer.
    #[must_use]
    pub fn is_paired(&self, device_id: &str) -> (paired: bool)
        ensures
            paired == self@.devices.contains_key(device_id@),
    {
        self.devices.contains(device_id)
    }

    /// Looks up a trusted peer's record.
    #[must_use]
    pub fn get(&self, device_id: &str) -> (record: Option<&DeviceRecord>)
        ensures
            match record {
                Some(found) => self@.devices.contains_pair(device_id@, found@) && found@.device_id
                    == device_id@,
                None => !self@.devices.contains_key(device_id@),
            },
    {
        self.devices.get(device_id)
    }

    /// The number of trusted peers.
    #[must_use]
    pub fn len(&self) -> (count: usize)
        ensures
            count == self@.devices.len(),
            self@.devices.dom().finite(),
    {
        self.devices.len()
    }

    /// Whether the store has no trusted peers.
    #[must_use]
    pub fn is_empty(&self) -> (empty: bool)
        ensures
            empty == (self@.devices == Map::<Seq<char>, DeviceRecordView>::empty()),
    {
        let count: usize = self.devices.len();
        proof {
            if count == 0 {
                assert(self@.devices.dom() =~= Set::empty());
                assert(self@.devices =~= Map::<Seq<char>, DeviceRecordView>::empty());
            }
        }
        count == 0
    }

    /// Starts to trust a peer, in place of an earlier record for the same device: to
    /// write the list of trusted peers with `record` in it.
    ///
    /// The peer is not trusted yet. Once the writing has come to its end,
    /// [`PairingStore::pair_ended`] takes note of it. A save replaces the whole list, so
    /// nothing else should be paired or unpaired in between.
    pub fn pair(&self, record: &DeviceRecord) -> (save: SaveStep)
        ensures
            save@.starts(self@.paired(record@)),
    {
        let mut devices = DeviceTable::from_records(&self.devices.records());
        devices.insert(record.clone());
        self.persist(&devices)
    }

    /// Ends the pairing that began with `record`: the peer is trusted if the list of
    /// trusted peers was saved, and otherwise the store stays as it is.
    pub fn pair_ended(&mut self, record: DeviceRecord, end: &SaveStep)
        ensures
            final(self)@ == old(self)@.pair_ended(record@, end@),
    {
        if let SaveStep::Saved = end {
            self.devices.insert(record);
        }
    }

    /// Untrusts a peer and starts to write the new list of trusted peers. The peer is
    /// untrusted from here on, whatever comes of the writing.
    ///
    /// An unknown id is a no-op: the store stays as it is, and nothing is written.
    pub fn unpair(&mut self, device_id: &str) -> (save: SaveStep)
        ensures
            final(self)@ == old(self)@.unpaired(device_id@),
            old(self)@.devices.contains_key(device_id@) ==> save@.starts(final(self)@),
            !old(self)@.devices.contains_key(device_id@) ==> save@ is Saved && final(self)@
                == old(self)@,
    {
        if !self.devices.contains(device_id) {
            assert(self@.unpaired(device_id@).devices =~= self@.devices);
            return SaveStep::Saved;
        }
        self.devices.remove(device_id);
        self.persist(&self.devices)
    }

    /// Starts to write `devices` as the list of trusted peers.
    fn persist(&self, devices: &DeviceTable) -> (save: SaveStep)
        ensures
            save@.starts((PairingStoreView { devices: devices@, ..self@ })),
    {
        let dir = copy_bytes(self.dir.as_slice());
        SaveStep::Serialize { dir, records: devices.records() }
    }
}

} // verus!
