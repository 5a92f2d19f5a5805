//! What holds of opening a store, over the calls that it takes.
use vstd::prelude::*;
#[allow(unused_imports)]
use vstd::utf8::encode_utf8;

#[allow(unused_imports)]
use crate::device::{last_record_counts, record_views, DeviceRecord};
#[allow(unused_imports)]
use crate::dir_laws::{is_entry, store_files_are_entries};
#[allow(unused_imports)]
use crate::error::HostError;
#[allow(unused_imports)]
use crate::identity::{
    key_of_pkcs8, modulus_bits, pkcs1_message, pkcs1_of, pkcs8_message, pkcs8_of, public_half,
};
#[allow(unused_imports)]
use crate::identity_laws::is_generation_failure;
#[allow(unused_imports)]
use crate::opening::{OpenReply, OpenStep};
#[allow(unused_imports)]
use crate::pairing::{DevicesFile, PairingStore};

verus! {

/// Opening begins with the directory of the store.
pub proof fn opening_begins_with_the_directory(dir: Vec<u8>, step: OpenStep)
    requires
        call_ensures(PairingStore::open, (dir,), step),
    ensures
        step matches OpenStep::CreateDir { dir: same } && same@ == dir@,
{
}

/// Once the directory is there, its entry `identity.pkcs8` is looked for.
pub proof fn key_is_looked_for(dir: Vec<u8>, step: OpenStep)
    requires
        call_ensures(OpenStep::step, (OpenStep::CreateDir { dir }, OpenReply::Done(Ok(()))), step),
    ensures
        step matches OpenStep::CheckKey { dir: same, path } && same@ == dir@ && is_entry(
            path@,
            dir@,
            encode_utf8("identity.pkcs8"@),
        ),
{
    store_files_are_entries(dir@);
}

/// A key that is there is read, and one is generated exactly if there is none.
pub proof fn key_is_generated_only_if_missing(
    dir: Vec<u8>,
    path: Vec<u8>,
    there: bool,
    step: OpenStep,
)
    requires
        call_ensures(
            OpenStep::step,
            (OpenStep::CheckKey { dir, path }, OpenReply::Exists(there)),
            step,
        ),
    ensures
        there ==> (step matches OpenStep::ReadKey { dir: same, path: same_path } && same@ == dir@
            && same_path@ == path@),
        !there ==> (step matches OpenStep::GenerateKey { dir: same, path: same_path } && same@
            == dir@ && same_path@ == path@),
{
}

/// What was read is loaded as the key pair, byte for byte.
pub proof fn key_that_was_read_is_loaded(
    dir: Vec<u8>,
    path: Vec<u8>,
    bytes: Vec<u8>,
    step: OpenStep,
)
    requires
        call_ensures(
            OpenStep::step,
            (OpenStep::ReadKey { dir, path }, OpenReply::Bytes(Ok(bytes))),
            step,
        ),
    ensures
        step matches OpenStep::LoadKeyPair { dir: same, pkcs8 } && same@ == dir@ && pkcs8@ == bytes@,
{
}

/// The document that was generated is written, byte for byte, where the key was missing.
pub proof fn new_key_is_written_whole(
    dir: Vec<u8>,
    path: Vec<u8>,
    document: Vec<u8>,
    step: OpenStep,
)
    requires
        call_ensures(
            OpenStep::step,
            (OpenStep::GenerateKey { dir, path }, OpenReply::Generated(Ok(document))),
            step,
        ),
    ensures
        step matches OpenStep::WriteKey { dir: same, path: same_path, pkcs8 } && same@ == dir@
            && same_path@ == path@ && pkcs8@ == document@,
{
}

/// A key that was written is made readable and writable for its owner, and nothing else for
/// anybody.
pub proof fn new_key_is_restricted(
    dir: Vec<u8>,
    path: Vec<u8>,
    pkcs8: Vec<u8>,
    step: OpenStep,
)
    requires
        call_ensures(
            OpenStep::step,
            (OpenStep::WriteKey { dir, path, pkcs8 }, OpenReply::Done(Ok(()))),
            step,
        ),
    ensures
        step matches OpenStep::RestrictKey { dir: same, path: same_path, mode, pkcs8: same_key }
            && same@ == dir@ && same_path@ == path@ && mode == 0o600 && same_key@ == pkcs8@,
{
}

/// The key that was written is loaded as the key pair, byte for byte.
pub proof fn new_key_is_loaded(
    dir: Vec<u8>,
    path: Vec<u8>,
    mode: u32,
    pkcs8: Vec<u8>,
    step: OpenStep,
)
    requires
        call_ensures(
            OpenStep::step,
            (OpenStep::RestrictKey { dir, path, mode, pkcs8 }, OpenReply::Done(Ok(()))),
            step,
        ),
    ensures
        step matches OpenStep::LoadKeyPair { dir: same, pkcs8: same_key } && same@ == dir@
            && same_key@ == pkcs8@,
{
}

/// The public key of the store is the PKCS#1 document of the public half of the key that
/// was loaded, byte for byte. Once it is known, the entry `devices.toml` of the directory is
/// read. A document without a public key fails, with the message of whichever step failed.
pub proof fn public_key_is_that_of_the_loaded_key(dir: Vec<u8>, pkcs8: Vec<u8>, step: OpenStep)
    requires
        call_ensures(
            OpenStep::step,
            (OpenStep::LoadKeyPair { dir, pkcs8 }, OpenReply::Done(Ok(()))),
            step,
        ),
    ensures
        match key_of_pkcs8(pkcs8@) {
            Ok(key) => match pkcs1_of(public_half(key)) {
                Ok(document) => step matches OpenStep::ReadDevices {
                    dir: same,
                    path,
                    public_key_der,
                } && same@ == dir@ && is_entry(path@, dir@, encode_utf8("devices.toml"@))
                    && public_key_der@ == document,
                Err(error) => step matches OpenStep::Failed { error: HostError::Keygen(text) }
                    && text@ == pkcs1_message(error),
            },
            Err(error) => step matches OpenStep::Failed { error: HostError::Keygen(text) } && text@
                == pkcs8_message(error),
        },
{
    store_files_are_entries(dir@);
}

/// A store that is opened has the directory and the public key that it was opened with.
pub proof fn opened_store_advertises_its_key(
    dir: Vec<u8>,
    path: Vec<u8>,
    public_key_der: Vec<u8>,
    file: DevicesFile,
    step: OpenStep,
    advertised: Vec<u8>,
)
    requires
        call_ensures(
            OpenStep::step,
            (OpenStep::ReadDevices { dir, path, public_key_der }, OpenReply::Devices(file)),
            step,
        ),
        step matches OpenStep::Opened { store } ==> call_ensures(
            PairingStore::public_key_der,
            (&store,),
            advertised,
        ),
    ensures
        step matches OpenStep::Opened { store } && store@.dir == dir@,
        advertised@ == public_key_der@,
{
}

/// A store that is opened trusts exactly the peers of the list: where the list has records
/// of a device, the last of them counts, and where it has none, or where there is no list,
/// the device is not trusted.
pub proof fn opened_store_trusts_the_list(
    dir: Vec<u8>,
    path: Vec<u8>,
    public_key_der: Vec<u8>,
    file: DevicesFile,
    step: OpenStep,
    device_id: &str,
    found: Option<&DeviceRecord>,
)
    requires
        call_ensures(
            OpenStep::step,
            (OpenStep::ReadDevices { dir, path, public_key_der }, OpenReply::Devices(file)),
            step,
        ),
        step matches OpenStep::Opened { store } ==> call_ensures(
            PairingStore::get,
            (&store, device_id),
            found,
        ),
    ensures
        match (file, found) {
            (DevicesFile::Parsed(records), Some(record)) => exists|i: int|
                {
                    &&& 0 <= i < records@.len()
                    &&& (#[trigger] records@[i])@ == record@
                    &&& record@.device_id == device_id@
                    &&& forall|j: int|
                        i < j < records@.len() ==> (#[trigger] records@[j])@.device_id != device_id@
                },
            (DevicesFile::Parsed(records), None) => forall|i: int|
                0 <= i < records@.len() ==> (#[trigger] records@[i])@.device_id != device_id@,
            (_, found) => found is None,
        },
{
    match (file, found) {
        (DevicesFile::Parsed(records), Some(record)) => {
            let views = record_views(records@);
            last_record_counts(views, device_id@);
            let i = choose|i: int|
                {
                    &&& 0 <= i < views.len()
                    &&& #[trigger] views[i] == record@
                    &&& views[i].device_id == device_id@
                    &&& forall|j: int|
                        i < j < views.len() ==> (#[trigger] views[j]).device_id != device_id@
                };
            assert(records@[i]@ == record@);
            assert forall|j: int| i < j < records@.len() implies (
            #[trigger] records@[j])@.device_id != device_id@ by {
                assert(views[j] == records@[j]@);
            }
        },
        (DevicesFile::Parsed(records), None) => {
            let views = record_views(records@);
            last_record_counts(views, device_id@);
            assert forall|i: int| 0 <= i < records@.len() implies (
            #[trigger] records@[i])@.device_id != device_id@ by {
                assert(views[i] == records@[i]@);
            }
        },
        _ => {},
    }
}

/// A file that could not be made, read, written or restricted fails the opening, with the
/// system's message.
pub proof fn file_failure_is_returned(
    asked: OpenStep,
    text: String,
    reply: OpenReply,
    step: OpenStep,
)
    requires
        match asked {
            OpenStep::CreateDir { .. } => reply == OpenReply::Done(Err(text)),
            OpenStep::ReadKey { .. } => reply == OpenReply::Bytes(Err(text)),
            OpenStep::WriteKey { .. } => reply == OpenReply::Done(Err(text)),
            OpenStep::RestrictKey { .. } => reply == OpenReply::Done(Err(text)),
            _ => false,
        },
        call_ensures(OpenStep::step, (asked, reply), step),
    ensures
        step matches OpenStep::Failed { error: HostError::Io(told) } && told@ == text@,
{
}

/// A key pair that could not be loaded fails the opening, with the message that was given.
pub proof fn loading_failure_is_returned(
    dir: Vec<u8>,
    pkcs8: Vec<u8>,
    text: String,
    step: OpenStep,
)
    requires
        call_ensures(
            OpenStep::step,
            (OpenStep::LoadKeyPair { dir, pkcs8 }, OpenReply::Done(Err(text))),
            step,
        ),
    ensures
        step matches OpenStep::Failed { error: HostError::Crypto(told) } && told@ == text@,
{
}

/// A key that could not be generated fails the opening, with the error that was given.
pub proof fn generation_failure_is_returned(
    dir: Vec<u8>,
    path: Vec<u8>,
    error: HostError,
    step: OpenStep,
)
    requires
        call_ensures(
            OpenStep::step,
            (OpenStep::GenerateKey { dir, path }, OpenReply::Generated(Err(error))),
            step,
        ),
    ensures
        step matches OpenStep::Failed { error: told } && told@ == error@,
{
}

/// Both are the same step, with the same values.
pub open spec fn same_step(one: OpenStep, other: OpenStep) -> bool {
    match (one, other) {
        (OpenStep::CreateDir { dir }, OpenStep::CreateDir { dir: d }) => dir@ == d@,
        (OpenStep::CheckKey { dir, path }, OpenStep::CheckKey { dir: d, path: p }) => dir@ == d@
            && path@ == p@,
        (OpenStep::ReadKey { dir, path }, OpenStep::ReadKey { dir: d, path: p }) => dir@ == d@
            && path@ == p@,
        (OpenStep::GenerateKey { dir, path }, OpenStep::GenerateKey { dir: d, path: p }) => dir@
            == d@ && path@ == p@,
        (
            OpenStep::WriteKey { dir, path, pkcs8 },
            OpenStep::WriteKey { dir: d, path: p, pkcs8: k },
        ) => dir@ == d@ && path@ == p@ && pkcs8@ == k@,
        (
            OpenStep::RestrictKey { dir, path, mode, pkcs8 },
            OpenStep::RestrictKey { dir: d, path: p, mode: m, pkcs8: k },
        ) => dir@ == d@ && path@ == p@ && mode == m && pkcs8@ == k@,
        (
            OpenStep::LoadKeyPair { dir, pkcs8 },
            OpenStep::LoadKeyPair { dir: d, pkcs8: k },
        ) => dir@ == d@ && pkcs8@ == k@,
        (
            OpenStep::ReadDevices { dir, path, public_key_der },
            OpenStep::ReadDevices { dir: d, path: p, public_key_der: k },
        ) => dir@ == d@ && path@ == p@ && public_key_der@ == k@,
        (OpenStep::Opened { store }, OpenStep::Opened { store: s }) => store@ == s@,
        (OpenStep::Failed { error }, OpenStep::Failed { error: e }) => error@ == e@,
        _ => false,
    }
}

/// A reply that does not answer the request of the step, and any reply at the end, changes
/// nothing.
pub proof fn unasked_reply_changes_nothing(step: OpenStep, reply: OpenReply, after: OpenStep)
    requires
        match step {
            OpenStep::CreateDir { .. } => !(reply is Done),
            OpenStep::CheckKey { .. } => !(reply is Exists),
            OpenStep::ReadKey { .. } => !(reply is Bytes),
            OpenStep::GenerateKey { .. } => !(reply is Generated),
            OpenStep::WriteKey { .. } => !(reply is Done),
            OpenStep::RestrictKey { .. } => !(reply is Done),
            OpenStep::LoadKeyPair { .. } => !(reply is Done),
            OpenStep::ReadDevices { .. } => !(reply is Devices),
            OpenStep::Opened { .. } => true,
            OpenStep::Failed { .. } => true,
        },
        call_ensures(OpenStep::step, (step, reply), after),
    ensures
        same_step(step, after),
{
}

/// Going on with the caller alone is the same as going on, unless a key is to be generated.
/// It is then generated: the next request is to write the document of a key of 2048 bits,
/// whole, where the key was missing, or generating one has failed.
pub proof fn missing_key_is_generated(
    step: OpenStep,
    reply: OpenReply,
    after: OpenStep,
    next: OpenStep,
)
    requires
        call_ensures(OpenStep::step, (step, reply), after),
        call_ensures(OpenStep::next, (step, reply), next),
    ensures
        match after {
            OpenStep::GenerateKey { dir, path } => match next {
                OpenStep::WriteKey { dir: same, path: same_path, pkcs8 } => {
                    &&& same@ == dir@
                    &&& same_path@ == path@
                    &&& key_of_pkcs8(pkcs8@) matches Ok(key)
                    &&& modulus_bits(key) == 2048
                    &&& pkcs8_of(key) == Ok::<Seq<u8>, rsa::pkcs8::Error>(pkcs8@)
                    &&& pkcs1_of(public_half(key)) matches Ok(public) && public.len() > 0
                },
                OpenStep::Failed { error } => is_generation_failure(error),
                _ => false,
            },
            _ => same_step(after, next),
        },
{
}

} // verus!
