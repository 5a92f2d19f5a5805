//! What holds of writing the list of trusted peers, over the calls that it takes.
use vstd::prelude::*;
#[allow(unused_imports)]
use vstd::utf8::encode_utf8;

#[allow(unused_imports)]
use crate::device::{record_views, DeviceRecord};
#[allow(unused_imports)]
use crate::dir_laws::{is_entry, store_files_are_entries};
#[allow(unused_imports)]
use crate::error::HostError;
#[allow(unused_imports)]
use crate::saving::{SaveReply, SaveStep};

verus! {

/// The text that the list was serialised to is written, whole, beside the list.
pub proof fn text_is_written_whole(
    dir: Vec<u8>,
    records: Vec<DeviceRecord>,
    text: String,
    step: SaveStep,
)
    requires
        call_ensures(
            SaveStep::next,
            (SaveStep::Serialize { dir, records }, SaveReply::Text(Ok(text))),
            step,
        ),
    ensures
        step matches SaveStep::WriteTemp { dir: same, path, text: written } && same@ == dir@
            && written@ == text@ && is_entry(path@, dir@, encode_utf8("devices.toml.tmp"@)),
{
    store_files_are_entries(dir@);
}

/// The file that was written takes the place of the list.
pub proof fn written_file_is_renamed(
    dir: Vec<u8>,
    path: Vec<u8>,
    text: String,
    step: SaveStep,
)
    requires
        call_ensures(
            SaveStep::next,
            (SaveStep::WriteTemp { dir, path, text }, SaveReply::Done(Ok(()))),
            step,
        ),
    ensures
        step matches SaveStep::Rename { from, to } && from@ == path@ && is_entry(
            to@,
            dir@,
            encode_utf8("devices.toml"@),
        ),
{
    store_files_are_entries(dir@);
}

/// Once the file is renamed, the list is saved.
pub proof fn rename_ends_the_saving(from: Vec<u8>, to: Vec<u8>, step: SaveStep)
    requires
        call_ensures(
            SaveStep::next,
            (SaveStep::Rename { from, to }, SaveReply::Done(Ok(()))),
            step,
        ),
    ensures
        step is Saved,
{
}

/// A list that cannot be serialised is not saved, and the error has the message.
pub proof fn serialisation_failure_is_returned(
    dir: Vec<u8>,
    records: Vec<DeviceRecord>,
    text: String,
    step: SaveStep,
)
    requires
        call_ensures(
            SaveStep::next,
            (SaveStep::Serialize { dir, records }, SaveReply::Text(Err(text))),
            step,
        ),
    ensures
        step matches SaveStep::Failed { error: HostError::Serialize(told) } && told@ == text@,
{
}

/// A list that cannot be written or renamed is not saved, and the error has the system's
/// message.
pub proof fn file_failure_is_returned(asked: SaveStep, text: String, step: SaveStep)
    requires
        asked is WriteTemp || asked is Rename,
        call_ensures(SaveStep::next, (asked, SaveReply::Done(Err(text))), step),
    ensures
        step matches SaveStep::Failed { error: HostError::Io(told) } && told@ == text@,
{
}

/// A reply that does not answer the request of the step, and any reply at the end, changes
/// nothing.
pub proof fn unasked_reply_changes_nothing(step: SaveStep, reply: SaveReply, after: SaveStep)
    requires
        match step {
            SaveStep::Serialize { .. } => reply is Done,
            SaveStep::WriteTemp { .. } => reply is Text,
            SaveStep::Rename { .. } => reply is Text,
            SaveStep::Saved => true,
            SaveStep::Failed { .. } => true,
        },
        call_ensures(SaveStep::next, (step, reply), after),
    ensures
        match step {
            SaveStep::Serialize { dir, records } => {
                &&& after matches SaveStep::Serialize { dir: same_dir, records: same }
                &&& same_dir@ == dir@
                &&& same@.len() == records@.len()
                &&& forall|i: int| 0 <= i < same@.len() ==> (#[trigger] same@[i])@ == records@[i]@
            },
            SaveStep::WriteTemp { dir, path, text } => {
                &&& after matches SaveStep::WriteTemp { dir: same_dir, path: same_path, text: same }
                &&& same_dir@ == dir@
                &&& same_path@ == path@
                &&& same@ == text@
            },
            SaveStep::Rename { from, to } => {
                &&& after matches SaveStep::Rename { from: same_from, to: same_to }
                &&& same_from@ == from@
                &&& same_to@ == to@
            },
            SaveStep::Saved => after is Saved,
            SaveStep::Failed { error } => after matches SaveStep::Failed { error: same } && same@
                == error@,
        },
{
    match (step, after) {
        (SaveStep::Serialize { records, .. }, SaveStep::Serialize { records: same, .. }) => {
            assert(record_views(same@) == record_views(records@));
            assert(record_views(same@).len() == record_views(records@).len());
            assert forall|i: int| 0 <= i < same@.len() implies (#[trigger] same@[i])@
                == records@[i]@ by {
                assert(record_views(same@)[i] == record_views(records@)[i]);
            }
        },
        _ => {},
    }
}

} // verus!
