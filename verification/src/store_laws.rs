//! What holds of the trusted peers, in the store and on the disk.
use vstd::prelude::*;
#[allow(unused_imports)]
use vstd::utf8::{encode_utf8, is_ascii_chars, is_ascii_chars_encode_utf8};

#[allow(unused_imports)]
use crate::device::{unique_ids, DeviceRecordView};
#[allow(unused_imports)]
use crate::disk::{save_after, save_performed, save_run, saved_text, Disk, OpenWorld};
#[allow(unused_imports)]
use crate::error::HostErrorView;
#[allow(unused_imports)]
use crate::opening::{OpenReplyView, OpenStepView};
#[allow(unused_imports)]
use crate::pairing::{
    devices_path, devices_temp_path, identity_path, DevicesFileView, PairingStoreView,
};
#[allow(unused_imports)]
use crate::saving::{SaveReplyView, SaveStepView};

verus! {

/// A peer that was paired is trusted, with the record it was paired with. Every
/// other peer, the directory and the public key stay as they were.
pub proof fn pair_trusts_the_peer(
    store: PairingStoreView,
    record: DeviceRecordView,
    other: Seq<char>,
)
    requires
        other != record.device_id,
    ensures
        store.paired(record).devices.contains_pair(record.device_id, record),
        store.paired(record).devices.contains_key(other) == store.devices.contains_key(other),
        store.devices.contains_key(other) ==> store.paired(record).devices[other]
            == store.devices[other],
        store.paired(record).dir == store.dir,
        store.paired(record).public_key_der == store.public_key_der,
{
}

/// A peer that was unpaired is not trusted. Every other peer, the directory and the
/// public key stay as they were.
pub proof fn unpair_untrusts_the_peer(
    store: PairingStoreView,
    device_id: Seq<char>,
    other: Seq<char>,
)
    requires
        other != device_id,
    ensures
        !store.unpaired(device_id).devices.contains_key(device_id),
        store.unpaired(device_id).devices.contains_key(other) == store.devices.contains_key(other),
        store.devices.contains_key(other) ==> store.unpaired(device_id).devices[other]
            == store.devices[other],
        store.unpaired(device_id).dir == store.dir,
        store.unpaired(device_id).public_key_der == store.public_key_der,
{
}

/// Pairing a device again replaces its record.
pub proof fn pair_again_replaces(
    store: PairingStoreView,
    earlier: DeviceRecordView,
    later: DeviceRecordView,
)
    requires
        earlier.device_id == later.device_id,
    ensures
        store.paired(earlier).paired(later) == store.paired(later),
{
    assert(store.paired(earlier).paired(later).devices =~= store.paired(later).devices);
}

/// Unpairing undoes the pairing of a peer that was not trusted before.
pub proof fn unpair_undoes_pair(store: PairingStoreView, record: DeviceRecordView)
    requires
        !store.devices.contains_key(record.device_id),
    ensures
        store.paired(record).unpaired(record.device_id) == store,
{
    assert(store.paired(record).unpaired(record.device_id).devices =~= store.devices);
}

/// Unpairing an unknown id is a no-op: the store is the same, there is nothing to wait
/// for, and no file is touched, whatever the list of trusted peers holds.
///
/// `save` is what `PairingStore::unpair` returns.
pub proof fn unpair_unknown_is_a_no_op(
    store: PairingStoreView,
    device_id: Seq<char>,
    save: SaveStepView,
    replies: Seq<SaveReplyView>,
    disks: Seq<Disk>,
)
    requires
        !store.devices.contains_key(device_id),
        !store.devices.contains_key(device_id) ==> save is Saved,
        save_run(save, replies, disks),
    ensures
        store.unpaired(device_id) == store,
        save_after(save, replies) is Saved,
        disks.last() == disks[0],
    decreases replies.len(),
{
    assert(store.unpaired(device_id).devices =~= store.devices);
    if replies.len() > 0 {
        unpair_unknown_is_a_no_op(
            store,
            device_id,
            save,
            replies.drop_last(),
            disks.drop_last(),
        );
        assert(disks.drop_last()[0] == disks[0]);
    }
}

/// A pairing whose list was not saved leaves every peer as trusted as it was: one that
/// was not trusted before is not trusted now.
pub proof fn failed_pair_trusts_nobody(
    store: PairingStoreView,
    record: DeviceRecordView,
    end: SaveStepView,
    device_id: Seq<char>,
)
    requires
        !(end is Saved),
    ensures
        store.pair_ended(record, end) == store,
        store.pair_ended(record, end).devices.contains_key(device_id)
            == store.devices.contains_key(device_id),
{
}

/// Every trusted peer of `store` is persisted: the list on `disk` reads as one that has
/// the same record for it.
pub open spec fn trusted_are_persisted(
    store: PairingStoreView,
    disk: Disk,
    world: OpenWorld,
) -> bool {
    forall|id: Seq<char>| #[trigger]
        store.devices.contains_key(id) ==> world.devices_file(
            disk,
            devices_path(store.dir),
        ).devices().contains_pair(id, store.devices[id])
}

/// In a store that was just opened every trusted peer is persisted.
pub proof fn opened_peers_are_persisted(
    disk: Disk,
    world: OpenWorld,
    dir: Seq<u8>,
    public_key_der: Seq<u8>,
)
    ensures
        ({
            let file = world.devices_file(disk, devices_path(dir));
            let opened = (OpenStepView::ReadDevices {
                dir,
                path: devices_path(dir),
                public_key_der,
            }).step(OpenReplyView::Devices(file));
            opened is Opened && trusted_are_persisted(opened->store, disk, world)
        }),
{
}

/// Pairing keeps every trusted peer persisted, at whatever point its save ends, if a
/// list that was saved reads back as the records it was written from.
///
/// `first` is what `PairingStore::pair` returns.
pub proof fn paired_peers_are_persisted(
    store: PairingStoreView,
    record: DeviceRecordView,
    first: SaveStepView,
    replies: Seq<SaveReplyView>,
    disks: Seq<Disk>,
    world: OpenWorld,
)
    requires
        first.starts(store.paired(record)),
        save_run(first, replies, disks),
        trusted_are_persisted(store, disks[0], world),
        save_after(first, replies) is Saved ==> (world.parse)(
            encode_utf8(saved_text(first, replies).unwrap()),
        ) == DevicesFileView::Parsed(first->records),
    ensures
        trusted_are_persisted(
            store.pair_ended(record, save_after(first, replies)),
            disks.last(),
            world,
        ),
{
    save_is_atomic(store.paired(record), first, replies, disks);
}

/// Unpairing keeps every trusted peer persisted, at whatever point its save ends, if a
/// list that was saved reads back as the records it was written from.
///
/// `first` is what `PairingStore::unpair` returns.
pub proof fn unpaired_peers_are_persisted(
    store: PairingStoreView,
    device_id: Seq<char>,
    first: SaveStepView,
    replies: Seq<SaveReplyView>,
    disks: Seq<Disk>,
    world: OpenWorld,
)
    requires
        store.devices.contains_key(device_id) ==> first.starts(store.unpaired(device_id)),
        !store.devices.contains_key(device_id) ==> first is Saved,
        save_run(first, replies, disks),
        trusted_are_persisted(store, disks[0], world),
        store.devices.contains_key(device_id) && save_after(first, replies) is Saved ==> (
        world.parse)(encode_utf8(saved_text(first, replies).unwrap())) == DevicesFileView::Parsed(
            first->records,
        ),
    ensures
        trusted_are_persisted(store.unpaired(device_id), disks.last(), world),
{
    if store.devices.contains_key(device_id) {
        save_is_atomic(store.unpaired(device_id), first, replies, disks);
    } else {
        unpair_unknown_is_a_no_op(store, device_id, first, replies, disks);
    }
    assert forall|id: Seq<char>| #[trigger]
        store.unpaired(device_id).devices.contains_key(id) implies world.devices_file(
        disks.last(),
        devices_path(store.dir),
    ).devices().contains_pair(id, store.unpaired(device_id).devices[id]) by {
        assert(store.devices.contains_key(id));
    }
}

/// Pairing adds one to the number of peers if the peer is new, and nothing
/// otherwise; unpairing takes one away if the peer was trusted, and nothing
/// otherwise.
pub proof fn peers_are_counted(store: PairingStoreView, record: DeviceRecordView)
    requires
        store.devices.dom().finite(),
    ensures
        store.paired(record).devices.len() == store.devices.len() + if store.devices.contains_key(
            record.device_id,
        ) {
            0int
        } else {
            1int
        },
        store.unpaired(record.device_id).devices.len() == store.devices.len()
            - if store.devices.contains_key(record.device_id) {
            1int
        } else {
            0int
        },
{
}

/// The three files of a store are different files.
pub proof fn store_files_differ(dir: Seq<u8>)
    ensures
        identity_path(dir) != devices_path(dir),
        identity_path(dir) != devices_temp_path(dir),
        devices_path(dir) != devices_temp_path(dir),
{
    reveal_strlit("identity.pkcs8");
    reveal_strlit("devices.toml");
    reveal_strlit("devices.toml.tmp");
    assert(is_ascii_chars("identity.pkcs8"@));
    assert(is_ascii_chars("devices.toml"@));
    assert(is_ascii_chars("devices.toml.tmp"@));
    is_ascii_chars_encode_utf8("identity.pkcs8"@);
    is_ascii_chars_encode_utf8("devices.toml"@);
    is_ascii_chars_encode_utf8("devices.toml.tmp"@);
    assert("identity.pkcs8"@[0] as u8 == encode_utf8("identity.pkcs8"@)[0]);
    assert("devices.toml"@[0] as u8 == encode_utf8("devices.toml"@)[0]);
    assert("devices.toml.tmp"@[0] as u8 == encode_utf8("devices.toml.tmp"@)[0]);
    assert(identity_path(dir).len() == devices_path(dir).len() + 2);
    assert(devices_temp_path(dir).len() == devices_path(dir).len() + 4);
}

/// What is on the disk while a list is written, by the step that has been reached.
spec fn save_progress(
    dir: Seq<u8>,
    before: Disk,
    step: SaveStepView,
    text: Option<Seq<char>>,
    now: Disk,
) -> bool {
    &&& forall|path: Seq<u8>|
        path != devices_path(dir) && path != devices_temp_path(dir) ==> #[trigger] now.agrees_at(
            before,
            path,
        )
    &&& !(step is Saved) ==> now.agrees_at(before, devices_path(dir))
    &&& match step {
        SaveStepView::Serialize { dir: d, .. } => d == dir,
        SaveStepView::WriteTemp { dir: d, path, text: t } => d == dir && path == devices_temp_path(
            dir,
        ) && text == Some(t),
        SaveStepView::Rename { from, to } => {
            &&& from == devices_temp_path(dir)
            &&& to == devices_path(dir)
            &&& text is Some
            &&& now.files.contains_key(from)
            &&& now.files[from].bytes == encode_utf8(text.unwrap())
        },
        SaveStepView::Saved => {
            &&& text is Some
            &&& now.files.contains_key(devices_path(dir))
            &&& now.files[devices_path(dir)].bytes == encode_utf8(text.unwrap())
            &&& !now.files.contains_key(devices_temp_path(dir))
        },
        SaveStepView::Failed { .. } => true,
    }
}

proof fn save_makes_progress(
    dir: Seq<u8>,
    first: SaveStepView,
    replies: Seq<SaveReplyView>,
    disks: Seq<Disk>,
)
    requires
        first matches SaveStepView::Serialize { dir: d, .. } && d == dir,
        save_run(first, replies, disks),
    ensures
        save_progress(
            dir,
            disks[0],
            save_after(first, replies),
            saved_text(first, replies),
            disks.last(),
        ),
    decreases replies.len(),
{
    store_files_differ(dir);
    if replies.len() > 0 {
        save_makes_progress(dir, first, replies.drop_last(), disks.drop_last());
        assert(disks.drop_last()[0] == disks[0]);
        let step = save_after(first, replies.drop_last());
        let earlier = disks.drop_last().last();
        assert(save_performed(earlier, step, replies.last(), disks.last()));
        assert forall|path: Seq<u8>|
            path != devices_path(dir) && path != devices_temp_path(
                dir,
            ) implies #[trigger] disks.last().agrees_at(disks[0], path) by {
            assert(earlier.agrees_at(disks[0], path));
        }
    }
}

/// The list of trusted peers is replaced as a whole or not at all: whatever fails on
/// the way, its file is untouched until the list is saved, and then holds exactly the
/// text that the peers were serialised to, and the file it was first written to is gone.
/// The private key, and every other file but the two of the list, are never touched.
pub proof fn save_is_atomic(
    store: PairingStoreView,
    first: SaveStepView,
    replies: Seq<SaveReplyView>,
    disks: Seq<Disk>,
)
    requires
        first.starts(store),
        save_run(first, replies, disks),
    ensures
        save_after(first, replies) is Saved ==> {
            &&& saved_text(first, replies) matches Some(text)
            &&& disks.last().files.contains_key(devices_path(store.dir))
            &&& disks.last().files[devices_path(store.dir)].bytes == encode_utf8(text)
        },
        save_after(first, replies) is Saved ==> !disks.last().files.contains_key(
            devices_temp_path(store.dir),
        ),
        !(save_after(first, replies) is Saved) ==> disks.last().agrees_at(
            disks[0],
            devices_path(store.dir),
        ),
        forall|path: Seq<u8>|
            path != devices_path(store.dir) && path != devices_temp_path(store.dir)
                ==> #[trigger] disks.last().agrees_at(disks[0], path),
        disks.last().agrees_at(disks[0], identity_path(store.dir)),
{
    save_makes_progress(store.dir, first, replies, disks);
    store_files_differ(store.dir);
}

/// Writing the list ends in success exactly if serialising, writing and renaming all
/// succeed; the first failure is the one reported.
pub proof fn save_reports_first_failure(
    store: PairingStoreView,
    first: SaveStepView,
    text: Result<Seq<char>, Seq<char>>,
    written: Result<(), Seq<char>>,
    renamed: Result<(), Seq<char>>,
)
    requires
        first.starts(store),
    ensures
        first.next(SaveReplyView::Text(text)).next(SaveReplyView::Done(written)).next(
            SaveReplyView::Done(renamed),
        ) == match (text, written, renamed) {
            (Err(message), _, _) => SaveStepView::Failed {
                error: HostErrorView::Serialize(message),
            },
            (Ok(_), Err(message), _) => SaveStepView::Failed { error: HostErrorView::Io(message) },
            (Ok(_), Ok(()), Err(message)) => SaveStepView::Failed {
                error: HostErrorView::Io(message),
            },
            (Ok(_), Ok(()), Ok(())) => SaveStepView::Saved,
        },
{
}

/// A list that was saved reads as exactly the store it was saved from, with each peer in
/// it once, if the text reads back as the records it was written from. The temporary file
/// is gone, and no other file has changed.
pub proof fn saved_list_reads_as_the_store(
    store: PairingStoreView,
    first: SaveStepView,
    replies: Seq<SaveReplyView>,
    disks: Seq<Disk>,
    world: OpenWorld,
)
    requires
        first.starts(store),
        save_run(first, replies, disks),
        save_after(first, replies) is Saved,
        (world.parse)(encode_utf8(saved_text(first, replies).unwrap())) == DevicesFileView::Parsed(
            first->records,
        ),
    ensures
        world.devices_file(disks.last(), devices_path(store.dir)) == DevicesFileView::Parsed(
            first->records,
        ),
        unique_ids(first->records),
        lists_agree(store, disks.last(), world),
        !disks.last().files.contains_key(devices_temp_path(store.dir)),
        forall|path: Seq<u8>|
            path != devices_path(store.dir) && path != devices_temp_path(store.dir)
                ==> #[trigger] disks.last().agrees_at(disks[0], path),
{
    save_is_atomic(store, first, replies, disks);
}

/// A store whose list could not be saved is opened again with the peers that the file
/// described before.
pub proof fn failed_save_keeps_the_old_peers(
    store: PairingStoreView,
    first: SaveStepView,
    replies: Seq<SaveReplyView>,
    disks: Seq<Disk>,
    world: OpenWorld,
)
    requires
        first.starts(store),
        save_run(first, replies, disks),
        !(save_after(first, replies) is Saved),
    ensures
        world.devices_file(disks.last(), devices_path(store.dir)) == world.devices_file(
            disks[0],
            devices_path(store.dir),
        ),
{
    save_is_atomic(store, first, replies, disks);
}

/// The list on `disk` reads as exactly the trusted peers of `store`.
pub open spec fn lists_agree(store: PairingStoreView, disk: Disk, world: OpenWorld) -> bool {
    world.devices_file(disk, devices_path(store.dir)).devices() == store.devices
}

/// A call that changes the trusted peers.
pub enum StoreOp {
    Pair { record: DeviceRecordView },
    Unpair { device_id: Seq<char> },
}

/// One such call: the step that it returned, the replies to the save from there on, and
/// the disk before each of them and after the last.
pub struct StoreCall {
    pub op: StoreOp,
    pub first: SaveStepView,
    pub replies: Seq<SaveReplyView>,
    pub disks: Seq<Disk>,
}

impl StoreCall {
    /// How the save of the call ended.
    pub open spec fn end(self) -> SaveStepView {
        save_after(self.first, self.replies)
    }

    /// What the call makes of `store`.
    pub open spec fn applied(self, store: PairingStoreView) -> PairingStoreView {
        match self.op {
            StoreOp::Pair { record } => store.pair_ended(record, self.end()),
            StoreOp::Unpair { device_id } => store.unpaired(device_id),
        }
    }

    /// The call can be made on `store` and `disk`: the step is one that
    /// `PairingStore::pair` or `PairingStore::unpair` returns, and a list that was saved
    /// reads back as the records it was written from. A removal has been saved; a pairing
    /// may have failed.
    pub open spec fn is_possible(
        self,
        store: PairingStoreView,
        disk: Disk,
        world: OpenWorld,
    ) -> bool {
        &&& match self.op {
            StoreOp::Pair { record } => self.first.starts(store.paired(record)),
            StoreOp::Unpair { device_id } => {
                &&& store.devices.contains_key(device_id) ==> self.first.starts(
                    store.unpaired(device_id),
                )
                &&& !store.devices.contains_key(device_id) ==> self.first is Saved
                &&& self.end() is Saved
            },
        }
        &&& save_run(self.first, self.replies, self.disks)
        &&& self.disks[0] == disk
        &&& self.first is Serialize && self.end() is Saved ==> (world.parse)(
            encode_utf8(saved_text(self.first, self.replies).unwrap()),
        ) == DevicesFileView::Parsed(self.first->records)
    }
}

/// The store after `calls`.
pub open spec fn store_after(store: PairingStoreView, calls: Seq<StoreCall>) -> PairingStoreView
    decreases calls.len(),
{
    if calls.len() == 0 {
        store
    } else {
        calls.last().applied(store_after(store, calls.drop_last()))
    }
}

/// The disk after `calls`.
pub open spec fn disk_after(disk: Disk, calls: Seq<StoreCall>) -> Disk {
    if calls.len() == 0 {
        disk
    } else {
        calls.last().disks.last()
    }
}

/// `calls` can be made one after the other, from `store` and `disk` on.
pub open spec fn is_history(
    store: PairingStoreView,
    disk: Disk,
    world: OpenWorld,
    calls: Seq<StoreCall>,
) -> bool
    decreases calls.len(),
{
    calls.len() > 0 ==> {
        &&& is_history(store, disk, world, calls.drop_last())
        &&& calls.last().is_possible(
            store_after(store, calls.drop_last()),
            disk_after(disk, calls.drop_last()),
            world,
        )
    }
}

proof fn call_keeps_lists_in_agreement(
    store: PairingStoreView,
    disk: Disk,
    world: OpenWorld,
    call: StoreCall,
)
    requires
        lists_agree(store, disk, world),
        call.is_possible(store, disk, world),
    ensures
        lists_agree(call.applied(store), call.disks.last(), world),
        call.disks.last().agrees_at(disk, identity_path(store.dir)),
{
    match call.op {
        StoreOp::Pair { record } => {
            save_is_atomic(store.paired(record), call.first, call.replies, call.disks);
        },
        StoreOp::Unpair { device_id } => {
            if store.devices.contains_key(device_id) {
                save_is_atomic(store.unpaired(device_id), call.first, call.replies, call.disks);
            } else {
                unpair_unknown_is_a_no_op(
                    store,
                    device_id,
                    call.first,
                    call.replies,
                    call.disks,
                );
            }
        },
    }
}

/// After any sequence of pairings, whatever came of each, and of removals that were
/// saved, the list on the disk reads as exactly the trusted peers of the store, if it did
/// at the start. The directory, the public key and the private-key file are the same.
pub proof fn lists_stay_in_agreement(
    store: PairingStoreView,
    disk: Disk,
    world: OpenWorld,
    calls: Seq<StoreCall>,
)
    requires
        lists_agree(store, disk, world),
        is_history(store, disk, world, calls),
    ensures
        lists_agree(store_after(store, calls), disk_after(disk, calls), world),
        store_after(store, calls).dir == store.dir,
        store_after(store, calls).public_key_der == store.public_key_der,
        disk_after(disk, calls).agrees_at(disk, identity_path(store.dir)),
    decreases calls.len(),
{
    if calls.len() > 0 {
        let front = calls.drop_last();
        lists_stay_in_agreement(store, disk, world, front);
        call_keeps_lists_in_agreement(
            store_after(store, front),
            disk_after(disk, front),
            world,
            calls.last(),
        );
    }
}

} // verus!
