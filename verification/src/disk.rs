//! A model of the files that a store keeps, and of what its requests do to them.
//!
//! Directories are not modelled; a file is known by the bytes of its path.
use vstd::prelude::*;
#[allow(unused_imports)]
use vstd::utf8::encode_utf8;

#[allow(unused_imports)]
use crate::error::HostErrorView;
#[allow(unused_imports)]
use crate::opening::{OpenReplyView, OpenStepView};
#[allow(unused_imports)]
use crate::pairing::DevicesFileView;
#[allow(unused_imports)]
use crate::saving::{SaveReplyView, SaveStepView};

verus! {

/// A file: its bytes and its permission bits.
#[verifier::ext_equal]
pub struct DiskFile {
    pub bytes: Seq<u8>,
    pub mode: u32,
}

/// The files of a disk by path, and the permission bits that a new file gets.
#[verifier::ext_equal]
pub struct Disk {
    pub files: Map<Seq<u8>, DiskFile>,
    pub new_mode: u32,
}

impl Disk {
    /// `bytes` written to the file at `path`, which keeps its permission bits if it
    /// was there.
    pub open spec fn write(self, path: Seq<u8>, bytes: Seq<u8>) -> Disk {
        let mode = if self.files.contains_key(path) {
            self.files[path].mode
        } else {
            self.new_mode
        };
        Disk { files: self.files.insert(path, DiskFile { bytes, mode }), ..self }
    }

    /// The permission bits of the file at `path` set to `mode`.
    pub open spec fn set_mode(self, path: Seq<u8>, mode: u32) -> Disk {
        Disk {
            files: self.files.insert(path, DiskFile { bytes: self.files[path].bytes, mode }),
            ..self
        }
    }

    /// The file at `from` moved to `to`, in place of any file there.
    pub open spec fn rename(self, from: Seq<u8>, to: Seq<u8>) -> Disk {
        Disk { files: self.files.remove(from).insert(to, self.files[from]), ..self }
    }

    /// Both disks have the same file at `path`, or none.
    pub open spec fn agrees_at(self, other: Disk, path: Seq<u8>) -> bool {
        &&& self.files.contains_key(path) == other.files.contains_key(path)
        &&& self.files.contains_key(path) ==> self.files[path] == other.files[path]
    }
}

/// The request of `step`, which got `reply`, can have turned `before` into `after`.
/// A write that failed may have left anything in its file, or have done nothing; a
/// rename happens as a whole or not at all.
pub open spec fn save_performed(
    before: Disk,
    step: SaveStepView,
    reply: SaveReplyView,
    after: Disk,
) -> bool {
    match (step, reply) {
        (SaveStepView::WriteTemp { path, text, .. }, SaveReplyView::Done(Ok(()))) => after
            == before.write(path, encode_utf8(text)),
        (SaveStepView::WriteTemp { path, .. }, SaveReplyView::Done(Err(_))) => after == before
            || exists|left: Seq<u8>| after == #[trigger] before.write(path, left),
        (SaveStepView::Rename { from, to }, SaveReplyView::Done(Ok(()))) =>
            before.files.contains_key(from) && after == before.rename(from, to),
        _ => after == before,
    }
}

/// The step after `first` and `replies`.
pub open spec fn save_after(first: SaveStepView, replies: Seq<SaveReplyView>) -> SaveStepView
    decreases replies.len(),
{
    if replies.len() == 0 {
        first
    } else {
        save_after(first, replies.drop_last()).next(replies.last())
    }
}

/// The text that the list of trusted peers was serialised to, once it was.
pub open spec fn saved_text(first: SaveStepView, replies: Seq<SaveReplyView>) -> Option<Seq<char>>
    decreases replies.len(),
{
    if replies.len() == 0 {
        None
    } else {
        match (save_after(first, replies.drop_last()), replies.last()) {
            (SaveStepView::Serialize { .. }, SaveReplyView::Text(Ok(text))) => Some(text),
            _ => saved_text(first, replies.drop_last()),
        }
    }
}

/// `disks` are the states that a disk can have gone through while a list was written:
/// one before each of `replies`, and one after the last.
pub open spec fn save_run(
    first: SaveStepView,
    replies: Seq<SaveReplyView>,
    disks: Seq<Disk>,
) -> bool
    decreases replies.len(),
{
    &&& disks.len() == replies.len() + 1
    &&& replies.len() > 0 ==> {
        &&& save_run(first, replies.drop_last(), disks.drop_last())
        &&& save_performed(
            disks.drop_last().last(),
            save_after(first, replies.drop_last()),
            replies.last(),
            disks.last(),
        )
    }
}

/// What a store that is being opened meets besides the disk: the key that would be
/// generated, whether a key pair can be loaded, and what a file reads as.
pub struct OpenWorld {
    pub generated: Result<Seq<u8>, HostErrorView>,
    pub load: spec_fn(Seq<u8>) -> Result<(), Seq<char>>,
    pub parse: spec_fn(Seq<u8>) -> DevicesFileView,
}

impl OpenWorld {
    /// What the list of trusted peers at `path` reads as.
    pub open spec fn devices_file(self, disk: Disk, path: Seq<u8>) -> DevicesFileView {
        if disk.files.contains_key(path) {
            (self.parse)(disk.files[path].bytes)
        } else {
            DevicesFileView::Unreadable
        }
    }
}

/// The reply to the request of `step` on a disk where no request fails.
pub open spec fn open_reply(disk: Disk, world: OpenWorld, step: OpenStepView) -> OpenReplyView {
    match step {
        OpenStepView::CheckKey { path, .. } => OpenReplyView::Exists(disk.files.contains_key(path)),
        OpenStepView::ReadKey { path, .. } => OpenReplyView::Bytes(Ok(disk.files[path].bytes)),
        OpenStepView::GenerateKey { .. } => OpenReplyView::Generated(world.generated),
        OpenStepView::LoadKeyPair { pkcs8, .. } => OpenReplyView::Done((world.load)(pkcs8)),
        OpenStepView::ReadDevices { path, .. } => OpenReplyView::Devices(
            world.devices_file(disk, path),
        ),
        _ => OpenReplyView::Done(Ok(())),
    }
}

/// What the request of `step` does to a disk where no request fails.
pub open spec fn open_effect(disk: Disk, step: OpenStepView) -> Disk {
    match step {
        OpenStepView::WriteKey { path, pkcs8, .. } => disk.write(path, pkcs8),
        OpenStepView::RestrictKey { path, mode, .. } => disk.set_mode(path, mode),
        _ => disk,
    }
}

/// The disk and the step after `count` requests, from `step` on.
pub open spec fn open_on(
    disk: Disk,
    world: OpenWorld,
    step: OpenStepView,
    count: nat,
) -> (Disk, OpenStepView)
    decreases count,
{
    if count == 0 {
        (disk, step)
    } else {
        open_on(
            open_effect(disk, step),
            world,
            step.step(open_reply(disk, world, step)),
            (count - 1) as nat,
        )
    }
}

/// The disk and the step at the end of opening the store in `dir`, which takes at
/// most seven requests.
pub open spec fn open_store(disk: Disk, world: OpenWorld, dir: Seq<u8>) -> (Disk, OpenStepView) {
    open_on(disk, world, OpenStepView::CreateDir { dir }, 7)
}

/// The request of `step`, which got `reply`, can have turned `before` into `after`, and
/// the reply tells the truth about the disk. A write that failed may have left anything
/// in its file, or have done nothing.
pub open spec fn open_performed(
    before: Disk,
    step: OpenStepView,
    reply: OpenReplyView,
    after: Disk,
) -> bool {
    match (step, reply) {
        (OpenStepView::CheckKey { path, .. }, OpenReplyView::Exists(there)) => after == before
            && there == before.files.contains_key(path),
        (OpenStepView::ReadKey { path, .. }, OpenReplyView::Bytes(Ok(bytes))) => after == before
            && before.files.contains_key(path) && bytes == before.files[path].bytes,
        (OpenStepView::WriteKey { path, pkcs8, .. }, OpenReplyView::Done(Ok(()))) => after
            == before.write(path, pkcs8),
        (OpenStepView::WriteKey { path, .. }, OpenReplyView::Done(Err(_))) => after == before
            || exists|left: Seq<u8>| after == #[trigger] before.write(path, left),
        (OpenStepView::RestrictKey { path, mode, .. }, OpenReplyView::Done(Ok(()))) =>
            before.files.contains_key(path) && after == before.set_mode(path, mode),
        _ => after == before,
    }
}

/// `disks` are the states that a disk can have gone through while a store was opened:
/// one before each of `replies`, and one after the last.
pub open spec fn open_run(
    first: OpenStepView,
    replies: Seq<OpenReplyView>,
    disks: Seq<Disk>,
) -> bool
    decreases replies.len(),
{
    &&& disks.len() == replies.len() + 1
    &&& replies.len() > 0 ==> {
        &&& open_run(first, replies.drop_last(), disks.drop_last())
        &&& open_performed(
            disks.drop_last().last(),
            open_after(first, replies.drop_last()),
            replies.last(),
            disks.last(),
        )
    }
}

/// The step after `first` and `replies`.
pub open spec fn open_after(first: OpenStepView, replies: Seq<OpenReplyView>) -> OpenStepView
    decreases replies.len(),
{
    if replies.len() == 0 {
        first
    } else {
        open_after(first, replies.drop_last()).step(replies.last())
    }
}

} // verus!
