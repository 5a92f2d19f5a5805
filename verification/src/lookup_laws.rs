//! What holds of the trusted peers and of their identities, over the calls that change them
//! and look them up.
use vstd::prelude::*;

#[allow(unused_imports)]
use crate::device::{
    collect_devices, collect_devices_domain, collect_devices_unique, last_record_counts,
    record_views, unique_ids, DeviceRecord, DeviceRecordView, DeviceTable,
};
#[allow(unused_imports)]
use crate::pairing::{read_devices, DevicesFile, PairingStore};
#[allow(unused_imports)]
use crate::peer::PeerId;
#[allow(unused_imports)]
use crate::saving::SaveStep;

verus! {

/// The ways to look at the trusted peers agree: a peer is paired exactly if it has a
/// record, the record is for that peer, and there are no peers exactly if their number is
/// nought, in which case none is paired.
pub proof fn lookups_agree(
    store: PairingStore,
    device_id: &str,
    paired: bool,
    found: Option<&DeviceRecord>,
    count: usize,
    empty: bool,
)
    requires
        call_ensures(PairingStore::is_paired, (&store, device_id), paired),
        call_ensures(PairingStore::get, (&store, device_id), found),
        call_ensures(PairingStore::len, (&store,), count),
        call_ensures(PairingStore::is_empty, (&store,), empty),
    ensures
        paired == found is Some,
        paired == store@.devices.contains_key(device_id@),
        found matches Some(record) ==> record@.device_id == device_id@ && record@
            == store@.devices[device_id@],
        count == store@.devices.dom().len(),
        empty == (count == 0),
        empty ==> !paired,
{
    if count == 0 {
        assert(store@.devices.dom() =~= Set::<Seq<char>>::empty());
        assert(store@.devices =~= Map::<Seq<char>, DeviceRecordView>::empty());
    }
}

/// The public key is always the same, whole.
pub proof fn public_key_is_returned_whole(store: PairingStore, der: Vec<u8>)
    requires
        call_ensures(PairingStore::public_key_der, (&store,), der),
    ensures
        der@ == store@.public_key_der,
{
}

/// To pair a peer is to write a list of exactly the peers that are trusted and of the new
/// one, each once: the record of the new one is `record`, in place of an earlier one, and
/// those of the others are as they were.
pub proof fn pairing_writes_every_peer(
    store: PairingStore,
    record: DeviceRecord,
    save: SaveStep,
    id: Seq<char>,
)
    requires
        call_ensures(PairingStore::pair, (&store, &record), save),
    ensures
        save matches SaveStep::Serialize { dir, records } && {
            let listed = |i: int| 0 <= i < records@.len() && records@[i]@.device_id == id;
            &&& dir@ == store@.dir
            &&& (exists|i: int| #[trigger] listed(i)) <==> id == record@.device_id
                || store@.devices.contains_key(id)
            &&& forall|i: int, j: int| #[trigger] listed(i) && #[trigger] listed(j) ==> i == j
            &&& forall|i: int| #[trigger]
                listed(i) ==> records@[i]@ == if id == record@.device_id {
                    record@
                } else {
                    store@.devices[id]
                }
        },
{
    match save {
        SaveStep::Serialize { dir, records } => {
            records_are_the_map(records@, id);
        },
        _ => {},
    }
}

proof fn records_are_the_map(records: Seq<DeviceRecord>, id: Seq<char>)
    requires
        unique_ids(record_views(records)),
    ensures
        ({
            let listed = |i: int| 0 <= i < records.len() && records[i]@.device_id == id;
            let devices = collect_devices(record_views(records));
            &&& (exists|i: int| #[trigger] listed(i)) <==> devices.contains_key(id)
            &&& forall|i: int, j: int| #[trigger] listed(i) && #[trigger] listed(j) ==> i == j
            &&& forall|i: int| #[trigger] listed(i) ==> records[i]@ == devices[id]
        }),
{
    let views = record_views(records);
    let devices = collect_devices(views);
    let listed = |i: int| 0 <= i < records.len() && records[i]@.device_id == id;
    collect_devices_domain(views, id);
    collect_devices_unique(views);
    assert forall|i: int| #[trigger] listed(i) implies records[i]@ == devices[id]
        && devices.contains_key(id) by {
        assert(views[i].device_id == id);
    }
    assert forall|i: int, j: int| #[trigger] listed(i) && #[trigger] listed(j) implies i == j by {
        assert(views[i].device_id == views[j].device_id);
    }
    if devices.contains_key(id) {
        let i = choose|i: int| 0 <= i < views.len() && #[trigger] views[i].device_id == id;
        assert(listed(i));
    }
}

/// Once the list is saved the peer is trusted, with its record, and every other peer as it
/// was. If the list was not saved, every peer is as it was. The directory and the public key
/// stay the same.
pub proof fn pairing_trusts_once_saved(
    store: &mut PairingStore,
    record: DeviceRecord,
    end: SaveStep,
    id: Seq<char>,
)
    requires
        call_ensures(PairingStore::pair_ended, (store, record, &end), ()),
    ensures
        end is Saved && id == record@.device_id ==> final(store)@.devices.contains_key(id) && final(store)@.devices[id] == record@,
        !(end is Saved && id == record@.device_id) ==> final(store)@.devices.contains_key(id)
            == old(store)@.devices.contains_key(id) && (old(store)@.devices.contains_key(id)
            ==> final(store)@.devices[id] == old(store)@.devices[id]),
        final(store)@.dir == old(store)@.dir,
        final(store)@.public_key_der == old(store)@.public_key_der,
{
}

/// A peer is not trusted once it is unpaired, and every other peer is as it was. If it was
/// trusted, a list of exactly the others is to be written, each once and as it was; if not,
/// nothing is. The directory and the public key stay the same.
pub proof fn unpairing_writes_the_others(
    store: &mut PairingStore,
    device_id: &str,
    save: SaveStep,
    id: Seq<char>,
)
    requires
        call_ensures(PairingStore::unpair, (store, device_id), save),
    ensures
        id == device_id@ ==> !final(store)@.devices.contains_key(id),
        id != device_id@ ==> final(store)@.devices.contains_key(id)
            == old(store)@.devices.contains_key(id) && (old(store)@.devices.contains_key(id)
            ==> final(store)@.devices[id] == old(store)@.devices[id]),
        final(store)@.dir == old(store)@.dir,
        final(store)@.public_key_der == old(store)@.public_key_der,
        !old(store)@.devices.contains_key(device_id@) ==> save is Saved,
        old(store)@.devices.contains_key(device_id@) ==> (save matches SaveStep::Serialize {
            dir,
            records,
        } && {
            let listed = |i: int| 0 <= i < records@.len() && records@[i]@.device_id == id;
            &&& dir@ == old(store)@.dir
            &&& (exists|i: int| #[trigger] listed(i)) <==> id != device_id@ && old(store)@.devices.contains_key(id)
            &&& forall|i: int, j: int| #[trigger] listed(i) && #[trigger] listed(j) ==> i == j
            &&& forall|i: int| #[trigger] listed(i) ==> records@[i]@ == old(store)@.devices[id]
        }),
{
    match save {
        SaveStep::Serialize { dir, records } => {
            if old(store)@.devices.contains_key(device_id@) {
                records_are_the_map(records@, id);
            }
        },
        _ => {},
    }
}

/// The table that is read from a list has, of each device, the last record of the list, and
/// no device that the list has no record of. Where there is no list it is empty.
pub proof fn read_table_has_the_list(
    file: DevicesFile,
    table: DeviceTable,
    device_id: &str,
    known: bool,
    found: Option<&DeviceRecord>,
)
    requires
        call_ensures(read_devices, (file,), table),
        call_ensures(DeviceTable::contains, (&table, device_id), known),
        call_ensures(DeviceTable::get, (&table, device_id), found),
    ensures
        known == found is Some,
        found matches Some(record) ==> record@.device_id == device_id@,
        match (file, found) {
            (DevicesFile::Parsed(records), Some(record)) => exists|i: int|
                {
                    &&& 0 <= i < records@.len()
                    &&& (#[trigger] records@[i])@ == record@
                    &&& forall|j: int|
                        i < j < records@.len() ==> (#[trigger] records@[j])@.device_id != device_id@
                },
            (DevicesFile::Parsed(records), None) => forall|i: int|
                0 <= i < records@.len() ==> (#[trigger] records@[i])@.device_id != device_id@,
            (_, found) => found is None,
        },
{
    match file {
        DevicesFile::Parsed(records) => {
            table_has_the_last_records(records, table, device_id, found);
        },
        _ => {},
    }
}

proof fn table_has_the_last_records(
    records: Vec<DeviceRecord>,
    table: DeviceTable,
    device_id: &str,
    found: Option<&DeviceRecord>,
)
    requires
        table@ == collect_devices(record_views(records@)),
        call_ensures(DeviceTable::get, (&table, device_id), found),
    ensures
        match found {
            Some(record) => exists|i: int|
                {
                    &&& 0 <= i < records@.len()
                    &&& (#[trigger] records@[i])@ == record@
                    &&& forall|j: int|
                        i < j < records@.len() ==> (#[trigger] records@[j])@.device_id != device_id@
                },
            None => forall|i: int|
                0 <= i < records@.len() ==> (#[trigger] records@[i])@.device_id != device_id@,
        },
{
    let views = record_views(records@);
    last_record_counts(views, device_id@);
    match found {
        Some(record) => {
            let i = choose|i: int|
                {
                    &&& 0 <= i < views.len()
                    &&& #[trigger] views[i] == table@[device_id@]
                    &&& views[i].device_id == device_id@
                    &&& forall|j: int|
                        i < j < views.len() ==> (#[trigger] views[j]).device_id != device_id@
                };
            assert(records@[i]@ == record@);
            assert forall|j: int| i < j < records@.len() implies (
            #[trigger] records@[j])@.device_id != device_id@ by {
                assert(views[j] == records@[j]@);
            }
        },
        None => {
            assert forall|i: int| 0 <= i < records@.len() implies (
            #[trigger] records@[i])@.device_id != device_id@ by {
                assert(views[i] == records@[i]@);
            }
        },
    }
}

/// A table made of records has, of each device, the last of its records.
pub proof fn table_has_the_records(
    records: Vec<DeviceRecord>,
    table: DeviceTable,
    device_id: &str,
    found: Option<&DeviceRecord>,
)
    requires
        call_ensures(DeviceTable::from_records, (&records,), table),
        call_ensures(DeviceTable::get, (&table, device_id), found),
    ensures
        match found {
            Some(record) => exists|i: int|
                {
                    &&& 0 <= i < records@.len()
                    &&& (#[trigger] records@[i])@ == record@
                    &&& forall|j: int|
                        i < j < records@.len() ==> (#[trigger] records@[j])@.device_id != device_id@
                },
            None => forall|i: int|
                0 <= i < records@.len() ==> (#[trigger] records@[i])@.device_id != device_id@,
        },
{
    table_has_the_last_records(records, table, device_id, found);
}

/// A table without any peer has no records and counts none.
pub proof fn new_table_is_empty(
    table: DeviceTable,
    device_id: &str,
    found: Option<&DeviceRecord>,
    count: usize,
    records: Vec<DeviceRecord>,
)
    requires
        call_ensures(DeviceTable::new, (), table),
        call_ensures(DeviceTable::get, (&table, device_id), found),
        call_ensures(DeviceTable::len, (&table,), count),
        call_ensures(DeviceTable::records, (&table,), records),
    ensures
        found is None,
        count == 0,
        records@.len() == 0,
{
    collect_devices_unique(record_views(records@));
}

/// A table gives out as many records as it counts, one for each device that it knows, and
/// each is the one that looking the device up gives.
pub proof fn table_gives_out_every_record(
    table: DeviceTable,
    device_id: &str,
    found: Option<&DeviceRecord>,
    count: usize,
    records: Vec<DeviceRecord>,
)
    requires
        call_ensures(DeviceTable::get, (&table, device_id), found),
        call_ensures(DeviceTable::len, (&table,), count),
        call_ensures(DeviceTable::records, (&table,), records),
    ensures
        records@.len() == count,
        count == table@.dom().len(),
        ({
            let listed = |i: int|
                0 <= i < records@.len() && records@[i]@.device_id == device_id@;
            &&& (exists|i: int| #[trigger] listed(i)) <==> found is Some
            &&& forall|i: int, j: int| #[trigger] listed(i) && #[trigger] listed(j) ==> i == j
            &&& forall|i: int| #[trigger] listed(i) ==> records@[i]@ == found->0@
        }),
{
    collect_devices_unique(record_views(records@));
    records_are_the_map(records@, device_id@);
}

/// Entering a record changes what the table has of its device, and nothing else.
pub proof fn entered_record_is_kept(table: &mut DeviceTable, record: DeviceRecord, id: Seq<char>)
    requires
        call_ensures(DeviceTable::insert, (table, record), ()),
    ensures
        id == record@.device_id ==> final(table)@.contains_key(id) && final(table)@[id] == record@,
        id != record@.device_id ==> final(table)@.contains_key(id) == old(table)@.contains_key(id)
            && (old(table)@.contains_key(id) ==> final(table)@[id] == old(table)@[id]),
{
}

/// Taking a record out changes what the table has of its device, and nothing else.
pub proof fn removed_record_is_gone(table: &mut DeviceTable, device_id: &str, id: Seq<char>)
    requires
        call_ensures(DeviceTable::remove, (table, device_id), ()),
    ensures
        id == device_id@ ==> !final(table)@.contains_key(id),
        id != device_id@ ==> final(table)@.contains_key(id) == old(table)@.contains_key(id) && (old(table)@.contains_key(id) ==> final(table)@[id] == old(table)@[id]),
{
}

/// A copy of a record is the same record.
pub proof fn record_copy_is_whole(record: DeviceRecord, copy: DeviceRecord)
    requires
        call_ensures(<DeviceRecord as Clone>::clone, (&record,), copy),
    ensures
        copy.device_id@ == record.device_id@,
        copy.device_name@ == record.device_name@,
        copy.paired_at_ms == record.paired_at_ms,
{
}

/// A record is known by all of its fields.
pub proof fn record_is_its_fields(one: DeviceRecord, other: DeviceRecord)
    ensures
        one@ == other@ <==> one.device_id@ == other.device_id@ && one.device_name@
            == other.device_name@ && one.paired_at_ms == other.paired_at_ms,
{
}

/// An identity made of a text gives the text back, whole, and so does a copy of it.
pub proof fn peer_id_keeps_its_text(
    text: String,
    peer: PeerId,
    copy: PeerId,
    borrowed: &str,
    printed: String,
)
    requires
        call_ensures(<PeerId as From<String>>::from, (text,), peer),
        call_ensures(<PeerId as Clone>::clone, (&peer,), copy),
        call_ensures(PeerId::as_str, (&copy,), borrowed),
        call_ensures(PeerId::to_string, (&copy,), printed),
    ensures
        borrowed@ == text@,
        printed@ == text@,
{
}

/// The same of an identity made of a borrowed text.
pub proof fn peer_id_keeps_its_borrowed_text(
    text: &str,
    peer: PeerId,
    borrowed: &str,
    printed: String,
)
    requires
        call_ensures(<PeerId as From<&str>>::from, (text,), peer),
        call_ensures(PeerId::as_str, (&peer,), borrowed),
        call_ensures(PeerId::to_string, (&peer,), printed),
    ensures
        borrowed@ == text@,
        printed@ == text@,
{
}

} // verus!
