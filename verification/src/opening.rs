//! Opening a pairing store, or creating it the first time.
use vstd::prelude::*;

#[allow(unused_imports)]
use crate::error::{result_view, HostError, HostErrorView};
use crate::identity::{generate_pkcs8, public_key_pkcs1_from_pkcs8};
#[allow(unused_imports)]
use crate::identity::{identity_document_spec, is_identity_document, public_key_spec};
use crate::pairing::{read_devices, DevicesFile, PairingStore, PRIVATE_KEY_MODE};
#[allow(unused_imports)]
use crate::pairing::{devices_path, identity_path, DevicesFileView, PairingStoreView};
use crate::path::join;
#[allow(unused_imports)]
use crate::saving::outcome_view;

verus! {

/// One step of opening a store: a request to perform, or the end.
pub enum OpenStep {
    /// Create the directory at `dir` and those above it, where they are missing.
    CreateDir { dir: Vec<u8> },
    /// Find out whether there is a file at `path`.
    CheckKey { dir: Vec<u8>, path: Vec<u8> },
    /// Read the file at `path`.
    ReadKey { dir: Vec<u8>, path: Vec<u8> },
    /// Generate an identity key.
    GenerateKey { dir: Vec<u8>, path: Vec<u8> },
    /// Write `pkcs8` to the file at `path`.
    WriteKey { dir: Vec<u8>, path: Vec<u8>, pkcs8: Vec<u8> },
    /// Set the permission bits of the file at `path` to `mode`.
    RestrictKey { dir: Vec<u8>, path: Vec<u8>, mode: u32, pkcs8: Vec<u8> },
    /// Load `pkcs8` as the key that challenges are signed with.
    LoadKeyPair { dir: Vec<u8>, pkcs8: Vec<u8> },
    /// Read the file at `path` and parse it as a list of trusted peers.
    ReadDevices { dir: Vec<u8>, path: Vec<u8>, public_key_der: Vec<u8> },
    /// The store is open.
    Opened { store: PairingStore },
    /// The store could not be opened.
    Failed { error: HostError },
}

/// The reply to the request of an [`OpenStep`].
pub enum OpenReply {
    /// What came of the request, with a message on failure.
    Done(Result<(), String>),
    /// Whether the file is there.
    Exists(bool),
    /// The bytes of the file, or the system's message.
    Bytes(Result<Vec<u8>, String>),
    /// The PKCS#8 document of a new key, or why there is none.
    Generated(Result<Vec<u8>, HostError>),
    /// What reading and parsing the list of trusted peers gave.
    Devices(DevicesFile),
}

/// The mathematical model of an [`OpenStep`].
#[verifier::ext_equal]
pub enum OpenStepView {
    CreateDir { dir: Seq<u8> },
    CheckKey { dir: Seq<u8>, path: Seq<u8> },
    ReadKey { dir: Seq<u8>, path: Seq<u8> },
    GenerateKey { dir: Seq<u8>, path: Seq<u8> },
    WriteKey { dir: Seq<u8>, path: Seq<u8>, pkcs8: Seq<u8> },
    RestrictKey { dir: Seq<u8>, path: Seq<u8>, mode: u32, pkcs8: Seq<u8> },
    LoadKeyPair { dir: Seq<u8>, pkcs8: Seq<u8> },
    ReadDevices { dir: Seq<u8>, path: Seq<u8>, public_key_der: Seq<u8> },
    Opened { store: PairingStoreView },
    Failed { error: HostErrorView },
}

/// The mathematical model of an [`OpenReply`].
#[verifier::ext_equal]
pub enum OpenReplyView {
    Done(Result<(), Seq<char>>),
    Exists(bool),
    Bytes(Result<Seq<u8>, Seq<char>>),
    Generated(Result<Seq<u8>, HostErrorView>),
    Devices(DevicesFileView),
}

impl View for OpenStep {
    type V = OpenStepView;

    open spec fn view(&self) -> OpenStepView {
        match self {
            OpenStep::CreateDir { dir } => OpenStepView::CreateDir { dir: dir@ },
            OpenStep::CheckKey { dir, path } => OpenStepView::CheckKey { dir: dir@, path: path@ },
            OpenStep::ReadKey { dir, path } => OpenStepView::ReadKey { dir: dir@, path: path@ },
            OpenStep::GenerateKey { dir, path } => OpenStepView::GenerateKey {
                dir: dir@,
                path: path@,
            },
            OpenStep::WriteKey { dir, path, pkcs8 } => OpenStepView::WriteKey {
                dir: dir@,
                path: path@,
                pkcs8: pkcs8@,
            },
            OpenStep::RestrictKey { dir, path, mode, pkcs8 } => OpenStepView::RestrictKey {
                dir: dir@,
                path: path@,
                mode: *mode,
                pkcs8: pkcs8@,
            },
            OpenStep::LoadKeyPair { dir, pkcs8 } => OpenStepView::LoadKeyPair {
                dir: dir@,
                pkcs8: pkcs8@,
            },
            OpenStep::ReadDevices { dir, path, public_key_der } => OpenStepView::ReadDevices {
                dir: dir@,
                path: path@,
                public_key_der: public_key_der@,
            },
            OpenStep::Opened { store } => OpenStepView::Opened { store: store@ },
            OpenStep::Failed { error } => OpenStepView::Failed { error: error@ },
        }
    }
}

impl View for OpenReply {
    type V = OpenReplyView;

    open spec fn view(&self) -> OpenReplyView {
        match self {
            OpenReply::Done(outcome) => OpenReplyView::Done(outcome_view(*outcome)),
            OpenReply::Exists(there) => OpenReplyView::Exists(*there),
            OpenReply::Bytes(Ok(bytes)) => OpenReplyView::Bytes(Ok(bytes@)),
            OpenReply::Bytes(Err(text)) => OpenReplyView::Bytes(Err(text@)),
            OpenReply::Generated(generated) => OpenReplyView::Generated(result_view(*generated)),
            OpenReply::Devices(file) => OpenReplyView::Devices(file@),
        }
    }
}

impl OpenStepView {
    /// The step that follows once `reply` has come. A failure ends the sequence; a
    /// reply that does not answer the request changes nothing.
    pub open spec fn step(self, reply: OpenReplyView) -> OpenStepView {
        match (self, reply) {
            (OpenStepView::CreateDir { dir }, OpenReplyView::Done(Ok(()))) =>
                OpenStepView::CheckKey { dir, path: identity_path(dir) },
            (OpenStepView::CheckKey { dir, path }, OpenReplyView::Exists(true)) =>
                OpenStepView::ReadKey { dir, path },
            (OpenStepView::CheckKey { dir, path }, OpenReplyView::Exists(false)) =>
                OpenStepView::GenerateKey { dir, path },
            (OpenStepView::ReadKey { dir, .. }, OpenReplyView::Bytes(Ok(pkcs8))) =>
                OpenStepView::LoadKeyPair { dir, pkcs8 },
            (OpenStepView::GenerateKey { dir, path }, OpenReplyView::Generated(Ok(pkcs8))) =>
                OpenStepView::WriteKey { dir, path, pkcs8 },
            (OpenStepView::WriteKey { dir, path, pkcs8 }, OpenReplyView::Done(Ok(()))) =>
                OpenStepView::RestrictKey { dir, path, mode: PRIVATE_KEY_MODE, pkcs8 },
            (OpenStepView::RestrictKey { dir, pkcs8, .. }, OpenReplyView::Done(Ok(()))) =>
                OpenStepView::LoadKeyPair { dir, pkcs8 },
            (OpenStepView::LoadKeyPair { dir, pkcs8 }, OpenReplyView::Done(Ok(()))) => match public_key_spec(
                pkcs8,
            ) {
                Ok(public_key_der) => OpenStepView::ReadDevices {
                    dir,
                    path: devices_path(dir),
                    public_key_der,
                },
                Err(error) => OpenStepView::Failed { error },
            },
            (
                OpenStepView::ReadDevices { dir, public_key_der, .. },
                OpenReplyView::Devices(file),
            ) => OpenStepView::Opened {
                store: PairingStoreView { dir, public_key_der, devices: file.devices() },
            },
            (OpenStepView::CreateDir { .. }, OpenReplyView::Done(Err(text))) =>
                OpenStepView::Failed { error: HostErrorView::Io(text) },
            (OpenStepView::ReadKey { .. }, OpenReplyView::Bytes(Err(text))) =>
                OpenStepView::Failed { error: HostErrorView::Io(text) },
            (OpenStepView::GenerateKey { .. }, OpenReplyView::Generated(Err(error))) =>
                OpenStepView::Failed { error },
            (OpenStepView::WriteKey { .. }, OpenReplyView::Done(Err(text))) =>
                OpenStepView::Failed { error: HostErrorView::Io(text) },
            (OpenStepView::RestrictKey { .. }, OpenReplyView::Done(Err(text))) =>
                OpenStepView::Failed { error: HostErrorView::Io(text) },
            (OpenStepView::LoadKeyPair { .. }, OpenReplyView::Done(Err(text))) =>
                OpenStepView::Failed { error: HostErrorView::Crypto(text) },
            _ => self,
        }
    }
}

/// `document` is what generating an identity key can give: the document of a key of the
/// identity size, or the error of whichever step failed.
pub open spec fn is_generation_outcome(document: Result<Seq<u8>, HostErrorView>) -> bool {
    &&& match document {
        Ok(pkcs8) => is_identity_document(pkcs8),
        Err(error) => error is Keygen,
    }
    &&& exists|generated: Result<rsa::RsaPrivateKey, rsa::Error>|
        document == #[trigger] identity_document_spec(generated)
}

impl OpenStep {
    /// The step that follows once `reply` has come.
    pub fn step(self, reply: OpenReply) -> (step: OpenStep)
        ensures
            step@ == self@.step(reply@),
    {
        match (self, reply) {
            (OpenStep::CreateDir { dir }, OpenReply::Done(Ok(()))) => {
                let path = join(&dir, "identity.pkcs8".as_bytes());
                OpenStep::CheckKey { dir, path }
            },
            (OpenStep::CheckKey { dir, path }, OpenReply::Exists(there)) => if there {
                OpenStep::ReadKey { dir, path }
            } else {
                OpenStep::GenerateKey { dir, path }
            },
            (OpenStep::ReadKey { dir, path: _ }, OpenReply::Bytes(Ok(pkcs8))) =>
                OpenStep::LoadKeyPair { dir, pkcs8 },
            (OpenStep::GenerateKey { dir, path }, OpenReply::Generated(Ok(pkcs8))) =>
                OpenStep::WriteKey { dir, path, pkcs8 },
            (OpenStep::WriteKey { dir, path, pkcs8 }, OpenReply::Done(Ok(()))) =>
                OpenStep::RestrictKey { dir, path, mode: PRIVATE_KEY_MODE, pkcs8 },
            (OpenStep::RestrictKey { dir, path: _, mode: _, pkcs8 }, OpenReply::Done(Ok(()))) =>
                OpenStep::LoadKeyPair { dir, pkcs8 },
            (OpenStep::LoadKeyPair { dir, pkcs8 }, OpenReply::Done(Ok(()))) =>
                match public_key_pkcs1_from_pkcs8(pkcs8.as_slice()) {
                    Ok(public_key_der) => {
                        let path = join(&dir, "devices.toml".as_bytes());
                        OpenStep::ReadDevices { dir, path, public_key_der }
                    },
                    Err(error) => OpenStep::Failed { error },
                },
            (
                OpenStep::ReadDevices { dir, path: _, public_key_der },
                OpenReply::Devices(file),
            ) => OpenStep::Opened {
                store: PairingStore::from_parts(dir, public_key_der, read_devices(file)),
            },
            (OpenStep::CreateDir { dir: _ }, OpenReply::Done(Err(text))) =>
                OpenStep::Failed { error: HostError::Io(text) },
            (OpenStep::ReadKey { dir: _, path: _ }, OpenReply::Bytes(Err(text))) =>
                OpenStep::Failed { error: HostError::Io(text) },
            (OpenStep::GenerateKey { dir: _, path: _ }, OpenReply::Generated(Err(error))) =>
                OpenStep::Failed { error },
            (OpenStep::WriteKey { dir: _, path: _, pkcs8: _ }, OpenReply::Done(Err(text))) =>
                OpenStep::Failed { error: HostError::Io(text) },
            (
                OpenStep::RestrictKey { dir: _, path: _, mode: _, pkcs8: _ },
                OpenReply::Done(Err(text)),
            ) => OpenStep::Failed { error: HostError::Io(text) },
            (OpenStep::LoadKeyPair { dir: _, pkcs8: _ }, OpenReply::Done(Err(text))) =>
                OpenStep::Failed { error: HostError::Crypto(text) },
            (step, _) => step,
        }
    }

    /// The next step that the caller has to take part in: where a key is to be
    /// generated, it is generated here, and the step after that is returned.
    pub fn next(self, reply: OpenReply) -> (step: OpenStep)
        ensures
            match self@.step(reply@) {
                OpenStepView::GenerateKey { dir, path } => exists|
                    generated: Result<Seq<u8>, HostErrorView>,
                | #[trigger]
                    is_generation_outcome(generated) && step@ == (OpenStepView::GenerateKey {
                        dir,
                        path,
                    }).step(OpenReplyView::Generated(generated)),
                other => step@ == other,
            },
    {
        match self.step(reply) {
            OpenStep::GenerateKey { dir, path } => {
                let generated = generate_pkcs8();
                assert(is_generation_outcome(result_view(generated)));
                OpenStep::GenerateKey { dir, path }.step(OpenReply::Generated(generated))
            },
            step => step,
        }
    }
}

} // verus!
