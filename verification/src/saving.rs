//! Writing the list of trusted peers.
use vstd::prelude::*;

#[allow(unused_imports)]
use crate::device::{collect_devices, record_views, unique_ids, DeviceRecordView};
use crate::device::DeviceRecord;
#[allow(unused_imports)]
use crate::error::{HostError, HostErrorView};
#[allow(unused_imports)]
use crate::pairing::{devices_path, devices_temp_path, PairingStoreView};
use crate::path::join;

verus! {

/// The model of the outcome of a request that returns nothing.
pub open spec fn outcome_view(outcome: Result<(), String>) -> Result<(), Seq<char>> {
    match outcome {
        Ok(()) => Ok(()),
        Err(text) => Err(text@),
    }
}

/// One step of writing the list of trusted peers: a request to perform, or the end.
#[derive(Debug)]
pub enum SaveStep {
    /// Serialise `records` as the text of a `devices.toml`.
    Serialize { dir: Vec<u8>, records: Vec<DeviceRecord> },
    /// Write `text` to the file at `path`.
    WriteTemp { dir: Vec<u8>, path: Vec<u8>, text: String },
    /// Rename the file at `from` to `to`, in place of any file there.
    Rename { from: Vec<u8>, to: Vec<u8> },
    /// The list is written.
    Saved,
    /// The list could not be written.
    Failed { error: HostError },
}

/// The reply to the request of a [`SaveStep`].
#[derive(Debug)]
pub enum SaveReply {
    /// The text that was asked for, or why there is none.
    Text(Result<String, String>),
    /// What came of a file-system request, with the system's message on failure.
    Done(Result<(), String>),
}

/// The mathematical model of a [`SaveStep`].
#[verifier::ext_equal]
pub enum SaveStepView {
    Serialize { dir: Seq<u8>, records: Seq<DeviceRecordView> },
    WriteTemp { dir: Seq<u8>, path: Seq<u8>, text: Seq<char> },
    Rename { from: Seq<u8>, to: Seq<u8> },
    Saved,
    Failed { error: HostErrorView },
}

/// The mathematical model of a [`SaveReply`].
#[verifier::ext_equal]
pub enum SaveReplyView {
    Text(Result<Seq<char>, Seq<char>>),
    Done(Result<(), Seq<char>>),
}

impl View for SaveStep {
    type V = SaveStepView;

    open spec fn view(&self) -> SaveStepView {
        match self {
            SaveStep::Serialize { dir, records } => SaveStepView::Serialize {
                dir: dir@,
                records: record_views(records@),
            },
            SaveStep::WriteTemp { dir, path, text } => SaveStepView::WriteTemp {
                dir: dir@,
                path: path@,
                text: text@,
            },
            SaveStep::Rename { from, to } => SaveStepView::Rename { from: from@, to: to@ },
            SaveStep::Saved => SaveStepView::Saved,
            SaveStep::Failed { error } => SaveStepView::Failed { error: error@ },
        }
    }
}

impl View for SaveReply {
    type V = SaveReplyView;

    open spec fn view(&self) -> SaveReplyView {
        match self {
            SaveReply::Text(Ok(text)) => SaveReplyView::Text(Ok(text@)),
            SaveReply::Text(Err(text)) => SaveReplyView::Text(Err(text@)),
            SaveReply::Done(outcome) => SaveReplyView::Done(outcome_view(*outcome)),
        }
    }
}

impl SaveStepView {
    /// This step starts to write the trusted peers of `store`: every peer's record
    /// is handed over, and each once.
    pub open spec fn starts(self, store: PairingStoreView) -> bool {
        match self {
            SaveStepView::Serialize { dir, records } => {
                &&& dir == store.dir
                &&& unique_ids(records)
                &&& collect_devices(records) == store.devices
            },
            _ => false,
        }
    }

    /// The step that follows once `reply` has come. A failure ends the sequence; a
    /// reply that does not answer the request changes nothing.
    pub open spec fn next(self, reply: SaveReplyView) -> SaveStepView {
        match (self, reply) {
            (SaveStepView::Serialize { dir, .. }, SaveReplyView::Text(Ok(text))) =>
                SaveStepView::WriteTemp { dir, path: devices_temp_path(dir), text },
            (SaveStepView::Serialize { .. }, SaveReplyView::Text(Err(text))) =>
                SaveStepView::Failed { error: HostErrorView::Serialize(text) },
            (SaveStepView::WriteTemp { dir, path, .. }, SaveReplyView::Done(Ok(()))) =>
                SaveStepView::Rename { from: path, to: devices_path(dir) },
            (SaveStepView::WriteTemp { .. }, SaveReplyView::Done(Err(text))) =>
                SaveStepView::Failed { error: HostErrorView::Io(text) },
            (SaveStepView::Rename { .. }, SaveReplyView::Done(Ok(()))) => SaveStepView::Saved,
            (SaveStepView::Rename { .. }, SaveReplyView::Done(Err(text))) =>
                SaveStepView::Failed { error: HostErrorView::Io(text) },
            _ => self,
        }
    }
}

impl SaveStep {
    /// The step that follows once `reply` has come.
    pub fn next(self, reply: SaveReply) -> (step: SaveStep)
        ensures
            step@ == self@.next(reply@),
    {
        match (self, reply) {
            (SaveStep::Serialize { dir, records: _ }, SaveReply::Text(Ok(text))) => {
                let path = join(&dir, "devices.toml.tmp".as_bytes());
                SaveStep::WriteTemp { dir, path, text }
            },
            (SaveStep::Serialize { dir: _, records: _ }, SaveReply::Text(Err(text))) =>
                SaveStep::Failed { error: HostError::Serialize(text) },
            (SaveStep::WriteTemp { dir, path, text: _ }, SaveReply::Done(Ok(()))) => {
                let to = join(&dir, "devices.toml".as_bytes());
                SaveStep::Rename { from: path, to }
            },
            (SaveStep::WriteTemp { dir: _, path: _, text: _ }, SaveReply::Done(Err(text))) =>
                SaveStep::Failed { error: HostError::Io(text) },
            (SaveStep::Rename { from: _, to: _ }, SaveReply::Done(Ok(()))) => SaveStep::Saved,
            (SaveStep::Rename { from: _, to: _ }, SaveReply::Done(Err(text))) =>
                SaveStep::Failed { error: HostError::Io(text) },
            (step, _) => step,
        }
    }
}

} // verus!
