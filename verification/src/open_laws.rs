//! What holds of opening a store, and of closing and reopening it.
use vstd::prelude::*;
#[allow(unused_imports)]
use vstd::utf8::encode_utf8;

#[allow(unused_imports)]
use crate::device::DeviceRecordView;
#[allow(unused_imports)]
use crate::disk::{
    open_after, open_on, open_performed, open_run, open_store, save_after, save_run, saved_text,
    Disk, DiskFile, OpenWorld,
};
#[allow(unused_imports)]
use crate::error::HostErrorView;
#[allow(unused_imports)]
use crate::identity::{
    generated_document_has_a_public_key, is_identity_document, key_of_pkcs8, pkcs1_of, public_half,
    public_key_spec, IDENTITY_KEY_BITS,
};
#[allow(unused_imports)]
use crate::opening::{OpenReplyView, OpenStepView};
#[allow(unused_imports)]
use crate::pairing::{
    devices_path, identity_path, DevicesFileView, PairingStoreView, PRIVATE_KEY_MODE,
};
#[allow(unused_imports)]
use crate::saving::{SaveReplyView, SaveStepView};
#[allow(unused_imports)]
use crate::signing::SignStepView;
#[allow(unused_imports)]
use crate::store_laws::{
    disk_after, is_history, lists_agree, lists_stay_in_agreement, save_is_atomic, store_after,
    store_files_differ, StoreCall,
};

verus! {

/// `public_key_der` is the PKCS#1 document of the public half of the key that `pkcs8`
/// decodes to.
pub open spec fn is_public_key_of(public_key_der: Seq<u8>, pkcs8: Seq<u8>) -> bool {
    &&& key_of_pkcs8(pkcs8) matches Ok(key)
    &&& pkcs1_of(public_half(key)) == Ok::<Seq<u8>, rsa::pkcs1::Error>(public_key_der)
}

/// The first opening of a store, on a disk where no request fails: the key that was
/// generated is kept, readable by its owner alone, and the store has its public half,
/// which is not empty. No other file is touched.
pub proof fn first_open_creates_the_key(
    disk: Disk,
    world: OpenWorld,
    dir: Seq<u8>,
    pkcs8: Seq<u8>,
)
    requires
        !disk.files.contains_key(identity_path(dir)),
        world.generated == Ok::<Seq<u8>, HostErrorView>(pkcs8),
        is_identity_document(pkcs8),
        (world.load)(pkcs8) is Ok,
    ensures
        open_store(disk, world, dir) == (
            Disk {
                files: disk.files.insert(
                    identity_path(dir),
                    DiskFile { bytes: pkcs8, mode: PRIVATE_KEY_MODE },
                ),
                ..disk
            },
            OpenStepView::Opened {
                store: PairingStoreView {
                    dir,
                    public_key_der: public_key_spec(pkcs8)->Ok_0,
                    devices: world.devices_file(disk, devices_path(dir)).devices(),
                },
            },
        ),
        public_key_spec(pkcs8)->Ok_0.len() > 0,
        is_public_key_of(public_key_spec(pkcs8)->Ok_0, pkcs8),
{
    generated_document_has_a_public_key(pkcs8, IDENTITY_KEY_BITS as nat);
    store_files_differ(dir);
    reveal_with_fuel(open_on, 8);
    let kept = disk.write(identity_path(dir), pkcs8).set_mode(identity_path(dir), PRIVATE_KEY_MODE);
    assert(kept.files =~= disk.files.insert(
        identity_path(dir),
        DiskFile { bytes: pkcs8, mode: PRIVATE_KEY_MODE },
    ));
    assert(world.devices_file(kept, devices_path(dir)) == world.devices_file(
        disk,
        devices_path(dir),
    ));
}

/// A later opening of a store: the key that is there is loaded, none is generated,
/// and nothing on the disk changes.
pub proof fn reopen_loads_the_key(
    disk: Disk,
    world: OpenWorld,
    dir: Seq<u8>,
    public_key_der: Seq<u8>,
)
    requires
        disk.files.contains_key(identity_path(dir)),
        (world.load)(disk.files[identity_path(dir)].bytes) is Ok,
        public_key_spec(disk.files[identity_path(dir)].bytes) == Ok::<Seq<u8>, HostErrorView>(
            public_key_der,
        ),
    ensures
        open_store(disk, world, dir) == (
            disk,
            OpenStepView::Opened {
                store: PairingStoreView {
                    dir,
                    public_key_der,
                    devices: world.devices_file(disk, devices_path(dir)).devices(),
                },
            },
        ),
{
    reveal_with_fuel(open_on, 8);
}

/// An opening that succeeds, whether the key was there or not: the key on the disk can
/// be loaded and has the store's public key, the list reads as the store's trusted peers,
/// no other file has changed, and a key that was there has not changed either.
pub proof fn opened_store_matches_the_disk(disk: Disk, world: OpenWorld, dir: Seq<u8>)
    requires
        open_store(disk, world, dir).1 is Opened,
    ensures
        ({
            let after = open_store(disk, world, dir).0;
            let store = open_store(disk, world, dir).1->store;
            let key = after.files[identity_path(dir)].bytes;
            &&& after.files.contains_key(identity_path(dir))
            &&& (world.load)(key) is Ok
            &&& public_key_spec(key) == Ok::<Seq<u8>, HostErrorView>(store.public_key_der)
            &&& is_public_key_of(store.public_key_der, key)
            &&& store.dir == dir
            &&& lists_agree(store, after, world)
            &&& world.devices_file(after, devices_path(dir)) == world.devices_file(
                disk,
                devices_path(dir),
            )
            &&& disk.files.contains_key(identity_path(dir)) ==> after == disk
            &&& forall|path: Seq<u8>|
                path != identity_path(dir) ==> #[trigger] after.agrees_at(disk, path)
        }),
{
    store_files_differ(dir);
    reveal_with_fuel(open_on, 8);
}

/// Opening a store twice gives the same store twice, whether the key was there before or
/// not, and the second opening changes nothing on the disk, whatever key it would have
/// generated.
pub proof fn open_twice_is_open_once(
    disk: Disk,
    world: OpenWorld,
    dir: Seq<u8>,
    other_key: Result<Seq<u8>, HostErrorView>,
)
    requires
        open_store(disk, world, dir).1 is Opened,
    ensures
        open_store(
            open_store(disk, world, dir).0,
            OpenWorld { generated: other_key, ..world },
            dir,
        ) == open_store(disk, world, dir),
{
    opened_store_matches_the_disk(disk, world, dir);
    let store = open_store(disk, world, dir).1->store;
    reopen_loads_the_key(
        open_store(disk, world, dir).0,
        OpenWorld { generated: other_key, ..world },
        dir,
        store.public_key_der,
    );
}

/// The step at which an opening loads the key pair: the fourth request if the key is
/// there, and the sixth if it has to be generated.
pub open spec fn loading_step(disk: Disk, world: OpenWorld, dir: Seq<u8>) -> OpenStepView {
    open_on(
        disk,
        world,
        OpenStepView::CreateDir { dir },
        if disk.files.contains_key(identity_path(dir)) {
            3
        } else {
            5
        },
    ).1
}

/// Two openings of a store, one after the other, load the document of the same key,
/// whether the key was there before or not. So a signer that goes by the document and the
/// message alone gives both the same answer to a challenge, and what it gives is what each
/// returns.
pub proof fn reopened_store_signs_alike(
    disk: Disk,
    world: OpenWorld,
    dir: Seq<u8>,
    other_key: Result<Seq<u8>, HostErrorView>,
    sign: spec_fn(Seq<u8>, Seq<u8>) -> Result<Seq<u8>, Seq<char>>,
    message: Seq<u8>,
)
    requires
        open_store(disk, world, dir).1 is Opened,
    ensures
        ({
            let after = open_store(disk, world, dir).0;
            let first = loading_step(disk, world, dir);
            let second = loading_step(after, OpenWorld { generated: other_key, ..world }, dir);
            let asked = SignStepView::Sign { message };
            &&& first == (OpenStepView::LoadKeyPair {
                dir,
                pkcs8: after.files[identity_path(dir)].bytes,
            })
            &&& second == first
            &&& asked.next(sign(second->LoadKeyPair_pkcs8, message)) == asked.next(
                sign(first->LoadKeyPair_pkcs8, message),
            )
            &&& match sign(first->LoadKeyPair_pkcs8, message) {
                Ok(signature) => asked.next(sign(first->LoadKeyPair_pkcs8, message)) == (
                SignStepView::Signed { signature }),
                Err(text) => asked.next(sign(first->LoadKeyPair_pkcs8, message)) == (
                SignStepView::Failed { error: HostErrorView::Crypto(text) }),
            }
        }),
{
    opened_store_matches_the_disk(disk, world, dir);
    reveal_with_fuel(open_on, 8);
}

/// A store that was saved and is opened again is the same store, if the text reads
/// back as the records it was written from.
pub proof fn store_survives_reopening(
    store: PairingStoreView,
    first: SaveStepView,
    replies: Seq<SaveReplyView>,
    disks: Seq<Disk>,
    world: OpenWorld,
)
    requires
        first.starts(store),
        save_run(first, replies, disks),
        save_after(first, replies) is Saved,
        (world.parse)(encode_utf8(saved_text(first, replies).unwrap())) == DevicesFileView::Parsed(
            first->records,
        ),
        disks[0].files.contains_key(identity_path(store.dir)),
        (world.load)(disks[0].files[identity_path(store.dir)].bytes) is Ok,
        public_key_spec(disks[0].files[identity_path(store.dir)].bytes) == Ok::<
            Seq<u8>,
            HostErrorView,
        >(store.public_key_der),
    ensures
        open_store(disks.last(), world, store.dir) == (
            disks.last(),
            OpenStepView::Opened { store },
        ),
{
    save_is_atomic(store, first, replies, disks);
    reopen_loads_the_key(disks.last(), world, store.dir, store.public_key_der);
}

/// A store that is opened, goes through any sequence of pairings and of removals that were
/// saved, and is opened again, is exactly the store that was left in memory, and opening it
/// again changes nothing on the disk.
pub proof fn reopening_gives_the_store_back(
    disk: Disk,
    world: OpenWorld,
    dir: Seq<u8>,
    calls: Seq<StoreCall>,
    other_key: Result<Seq<u8>, HostErrorView>,
)
    requires
        open_store(disk, world, dir).1 is Opened,
        is_history(
            open_store(disk, world, dir).1->store,
            open_store(disk, world, dir).0,
            world,
            calls,
        ),
    ensures
        ({
            let left = disk_after(open_store(disk, world, dir).0, calls);
            open_store(left, OpenWorld { generated: other_key, ..world }, dir) == (
                left,
                OpenStepView::Opened {
                    store: store_after(open_store(disk, world, dir).1->store, calls),
                },
            )
        }),
{
    let (opened, step) = open_store(disk, world, dir);
    let left = disk_after(opened, calls);
    opened_store_matches_the_disk(disk, world, dir);
    lists_stay_in_agreement(step->store, opened, world, calls);
    reopen_loads_the_key(
        left,
        OpenWorld { generated: other_key, ..world },
        dir,
        step->store.public_key_der,
    );
}

/// What is on the disk while a store is opened, by the step that has been reached.
spec fn open_progress(dir: Seq<u8>, before: Disk, step: OpenStepView, now: Disk) -> bool {
    let key_path = identity_path(dir);
    let had_key = before.files.contains_key(key_path);
    let restricted = now.files.contains_key(key_path) && (!had_key ==> now.files[key_path].mode
        == PRIVATE_KEY_MODE);
    &&& forall|path: Seq<u8>| path != key_path || had_key ==> #[trigger] now.agrees_at(before, path)
    &&& match step {
        OpenStepView::CreateDir { dir: d } => d == dir && now == before,
        OpenStepView::CheckKey { dir: d, path } => d == dir && path == key_path && now == before,
        OpenStepView::ReadKey { dir: d, path } => d == dir && path == key_path && had_key,
        OpenStepView::GenerateKey { dir: d, path } => d == dir && path == key_path && !had_key,
        OpenStepView::WriteKey { dir: d, path, .. } => d == dir && path == key_path && !had_key,
        OpenStepView::RestrictKey { dir: d, path, mode, pkcs8 } => {
            &&& d == dir
            &&& path == key_path
            &&& !had_key
            &&& mode == PRIVATE_KEY_MODE
            &&& now.files.contains_key(key_path)
            &&& now.files[key_path].bytes == pkcs8
        },
        OpenStepView::LoadKeyPair { dir: d, pkcs8 } => d == dir && restricted
            && now.files[key_path].bytes == pkcs8,
        OpenStepView::ReadDevices { dir: d, public_key_der, .. } => d == dir && restricted
            && public_key_spec(now.files[key_path].bytes) == Ok::<Seq<u8>, HostErrorView>(
            public_key_der,
        ),
        OpenStepView::Opened { store } => store.dir == dir && restricted && public_key_spec(
            now.files[key_path].bytes,
        ) == Ok::<Seq<u8>, HostErrorView>(store.public_key_der),
        OpenStepView::Failed { .. } => true,
    }
}

proof fn open_makes_progress(dir: Seq<u8>, replies: Seq<OpenReplyView>, disks: Seq<Disk>)
    requires
        open_run(OpenStepView::CreateDir { dir }, replies, disks),
    ensures
        open_progress(
            dir,
            disks[0],
            open_after(OpenStepView::CreateDir { dir }, replies),
            disks.last(),
        ),
    decreases replies.len(),
{
    let first = OpenStepView::CreateDir { dir };
    if replies.len() > 0 {
        open_makes_progress(dir, replies.drop_last(), disks.drop_last());
        assert(disks.drop_last()[0] == disks[0]);
        let step = open_after(first, replies.drop_last());
        let earlier = disks.drop_last().last();
        assert(open_performed(earlier, step, replies.last(), disks.last()));
        assert forall|path: Seq<u8>|
            path != identity_path(dir) || disks[0].files.contains_key(
                identity_path(dir),
            ) implies #[trigger] disks.last().agrees_at(disks[0], path) by {
            assert(earlier.agrees_at(disks[0], path));
        }
    }
}

/// Whatever fails while a store is opened, as long as it is told truly whether a private
/// key is there: the list of trusted peers and every other file but the private key keep
/// their bytes and permissions, and so does a private key that was there. If the store
/// opens, the key on the disk is the one that its public key belongs to, and a key that
/// was not there before is readable by its owner alone.
pub proof fn failed_open_spoils_nothing(
    dir: Seq<u8>,
    replies: Seq<OpenReplyView>,
    disks: Seq<Disk>,
)
    requires
        open_run((OpenStepView::CreateDir { dir }), replies, disks),
    ensures
        disks.last().agrees_at(disks[0], devices_path(dir)),
        disks[0].files.contains_key(identity_path(dir)) ==> disks.last().agrees_at(
            disks[0],
            identity_path(dir),
        ),
        forall|path: Seq<u8>|
            path != identity_path(dir) ==> #[trigger] disks.last().agrees_at(disks[0], path),
        open_after((OpenStepView::CreateDir { dir }), replies) matches OpenStepView::Opened {
            store,
        } ==> {
            &&& disks.last().files.contains_key(identity_path(dir))
            &&& public_key_spec(disks.last().files[identity_path(dir)].bytes) == Ok::<
                Seq<u8>,
                HostErrorView,
            >(store.public_key_der)
            &&& is_public_key_of(
                store.public_key_der,
                disks.last().files[identity_path(dir)].bytes,
            )
            &&& !disks[0].files.contains_key(identity_path(dir))
                ==> disks.last().files[identity_path(dir)].mode == PRIVATE_KEY_MODE
        },
{
    open_makes_progress(dir, replies, disks);
    store_files_differ(dir);
}

/// No list of trusted peers keeps a store from opening: a missing or malformed one
/// opens it without any peer.
pub proof fn devices_file_never_fails(
    dir: Seq<u8>,
    path: Seq<u8>,
    public_key_der: Seq<u8>,
    file: DevicesFileView,
)
    ensures
        (OpenStepView::ReadDevices { dir, path, public_key_der }).step(OpenReplyView::Devices(file))
            == (OpenStepView::Opened {
            store: PairingStoreView { dir, public_key_der, devices: file.devices() },
        }),
        !(file is Parsed) ==> file.devices() == Map::<Seq<char>, DeviceRecordView>::empty(),
{
}

/// Once a key has been found, no reply whatever leads to one being generated, written
/// or given other permissions.
pub proof fn existing_key_is_kept(dir: Seq<u8>, path: Seq<u8>, replies: Seq<OpenReplyView>)
    ensures
        match open_after((OpenStepView::ReadKey { dir, path }), replies) {
            OpenStepView::GenerateKey { .. } => false,
            OpenStepView::WriteKey { .. } => false,
            OpenStepView::RestrictKey { .. } => false,
            OpenStepView::CreateDir { .. } => false,
            OpenStepView::CheckKey { .. } => false,
            _ => true,
        },
    decreases replies.len(),
{
    if replies.len() > 0 {
        existing_key_is_kept(dir, path, replies.drop_last());
    }
}

/// Whatever is replied, opening the store in `dir` looks for, writes and restricts the
/// private key at its own path only, with the owner's permissions; reads the list of
/// trusted peers at its own path only; and opens a store in `dir`.
pub proof fn open_stays_in_its_files(dir: Seq<u8>, replies: Seq<OpenReplyView>)
    ensures
        match open_after((OpenStepView::CreateDir { dir }), replies) {
            OpenStepView::CreateDir { dir: d } => d == dir,
            OpenStepView::CheckKey { dir: d, path } => d == dir && path == identity_path(dir),
            OpenStepView::ReadKey { dir: d, path } => d == dir && path == identity_path(dir),
            OpenStepView::GenerateKey { dir: d, path } => d == dir && path == identity_path(dir),
            OpenStepView::WriteKey { dir: d, path, .. } => d == dir && path == identity_path(dir),
            OpenStepView::RestrictKey { dir: d, path, mode, .. } => d == dir && path
                == identity_path(dir) && mode == PRIVATE_KEY_MODE,
            OpenStepView::LoadKeyPair { dir: d, .. } => d == dir,
            OpenStepView::ReadDevices { dir: d, path, .. } => d == dir && path == devices_path(dir),
            OpenStepView::Opened { store } => store.dir == dir,
            OpenStepView::Failed { .. } => true,
        },
    decreases replies.len(),
{
    if replies.len() > 0 {
        open_stays_in_its_files(dir, replies.drop_last());
    }
}

} // verus!
