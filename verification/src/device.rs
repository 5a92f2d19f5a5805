//! Trusted peers, and the table that holds at most one record for each.
use vstd::prelude::*;

verus! {

/// One trusted peer, as it is persisted.
#[derive(Debug)]
pub struct DeviceRecord {
    /// The device id that the peer announces.
    pub device_id: String,
    /// The peer's last-seen friendly name.
    pub device_name: String,
    /// When the peer was first paired, in milliseconds of Unix time.
    pub paired_at_ms: i64,
}

/// The mathematical model of a [`DeviceRecord`].
#[verifier::ext_equal]
pub struct DeviceRecordView {
    pub device_id: Seq<char>,
    pub device_name: Seq<char>,
    pub paired_at_ms: i64,
}

impl View for DeviceRecord {
    type V = DeviceRecordView;

    open spec fn view(&self) -> DeviceRecordView {
        DeviceRecordView {
            device_id: self.device_id@,
            device_name: self.device_name@,
            paired_at_ms: self.paired_at_ms,
        }
    }
}

impl Clone for DeviceRecord {
    fn clone(&self) -> (copy: Self)
        ensures
            copy == *self,
    {
        DeviceRecord {
            device_id: self.device_id.clone(),
            device_name: self.device_name.clone(),
            paired_at_ms: self.paired_at_ms,
        }
    }
}

/// The models of a list of records.
pub open spec fn record_views(records: Seq<DeviceRecord>) -> Seq<DeviceRecordView> {
    records.map_values(|record: DeviceRecord| record@)
}

/// No two records are for the same device.
pub open spec fn unique_ids(records: Seq<DeviceRecordView>) -> bool {
    forall|i: int, j: int|
        0 <= i < j < records.len() ==> #[trigger] records[i].device_id
            != #[trigger] records[j].device_id
}

/// The peers that a list of records describes: a later record for a device takes
/// the place of an earlier one.
pub open spec fn collect_devices(records: Seq<DeviceRecordView>) -> Map<
    Seq<char>,
    DeviceRecordView,
>
    decreases records.len(),
{
    if records.len() == 0 {
        Map::empty()
    } else {
        collect_devices(records.drop_last()).insert(records.last().device_id, records.last())
    }
}

/// A device is among the collected peers exactly if some record is for it, and the
/// collected record of a device is for that device.
pub proof fn collect_devices_domain(records: Seq<DeviceRecordView>, id: Seq<char>)
    ensures
        collect_devices(records).contains_key(id) <==> exists|i: int|
            0 <= i < records.len() && #[trigger] records[i].device_id == id,
        collect_devices(records).contains_key(id) ==> collect_devices(records)[id].device_id == id,
    decreases records.len(),
{
    if records.len() > 0 {
        let front = records.drop_last();
        collect_devices_domain(front, id);
        if exists|i: int| 0 <= i < front.len() && #[trigger] front[i].device_id == id {
            let i = choose|i: int| 0 <= i < front.len() && #[trigger] front[i].device_id == id;
            assert(records[i].device_id == id);
        }
        if records.last().device_id == id {
            assert(records[records.len() - 1].device_id == id);
        }
        if exists|i: int| 0 <= i < records.len() && #[trigger] records[i].device_id == id {
            let i = choose|i: int| 0 <= i < records.len() && #[trigger] records[i].device_id == id;
            if i < front.len() {
                assert(front[i].device_id == id);
            }
        }
    }
}

/// A later record of a device takes the place of an earlier one: where there are records
/// of a device, the last of them is the collected one, and where there are none, the device
/// is not collected.
pub proof fn last_record_counts(records: Seq<DeviceRecordView>, id: Seq<char>)
    ensures
        collect_devices(records).contains_key(id) ==> exists|i: int|
            {
                &&& 0 <= i < records.len()
                &&& #[trigger] records[i] == collect_devices(records)[id]
                &&& records[i].device_id == id
                &&& forall|j: int|
                    i < j < records.len() ==> (#[trigger] records[j]).device_id != id
            },
        !collect_devices(records).contains_key(id) ==> forall|i: int|
            0 <= i < records.len() ==> (#[trigger] records[i]).device_id != id,
    decreases records.len(),
{
    if records.len() > 0 {
        let front = records.drop_last();
        last_record_counts(front, id);
        if records.last().device_id == id {
            assert(records[records.len() - 1] == collect_devices(records)[id]);
        } else if collect_devices(front).contains_key(id) {
            let i = choose|i: int|
                {
                    &&& 0 <= i < front.len()
                    &&& #[trigger] front[i] == collect_devices(front)[id]
                    &&& front[i].device_id == id
                    &&& forall|j: int|
                        i < j < front.len() ==> (#[trigger] front[j]).device_id != id
                };
            assert(records[i] == collect_devices(records)[id]);
            assert forall|j: int| i < j < records.len() implies (
            #[trigger] records[j]).device_id != id by {
                if j < front.len() {
                    assert(front[j] == records[j]);
                }
            }
        } else {
            assert forall|i: int| 0 <= i < records.len() implies (
            #[trigger] records[i]).device_id != id by {
                if i < front.len() {
                    assert(front[i] == records[i]);
                }
            }
        }
    }
}

/// Where no device occurs twice, each record is the collected record of its
/// device, and there are as many peers as records.
pub proof fn collect_devices_unique(records: Seq<DeviceRecordView>)
    requires
        unique_ids(records),
    ensures
        forall|i: int|
            0 <= i < records.len() ==> collect_devices(records).contains_pair(
                #[trigger] records[i].device_id,
                records[i],
            ),
        collect_devices(records).dom().finite(),
        collect_devices(records).len() == records.len(),
    decreases records.len(),
{
    if records.len() > 0 {
        let front = records.drop_last();
        let last = records.last();
        assert forall|i: int, j: int| 0 <= i < j < front.len() implies #[trigger] front[i].device_id
            != #[trigger] front[j].device_id by {
            assert(records[i].device_id != records[j].device_id);
        }
        collect_devices_unique(front);
        collect_devices_domain(front, last.device_id);
        assert(!collect_devices(front).contains_key(last.device_id)) by {
            assert forall|i: int| 0 <= i < front.len() implies #[trigger] front[i].device_id
                != last.device_id by {
                assert(records[i].device_id != records[records.len() - 1].device_id);
            }
        }
        assert forall|i: int| 0 <= i < records.len() implies collect_devices(records).contains_pair(
            #[trigger] records[i].device_id,
            records[i],
        ) by {
            if i < front.len() {
                assert(front[i] == records[i]);
                assert(collect_devices(front).contains_pair(front[i].device_id, front[i]));
                assert(records[i].device_id != records[records.len() - 1].device_id);
            }
        }
    }
}

/// Replacing the record of a device in a list without repetitions replaces it
/// among the collected peers.
proof fn collect_devices_update(records: Seq<DeviceRecordView>, at: int, record: DeviceRecordView)
    requires
        unique_ids(records),
        0 <= at < records.len(),
        records[at].device_id == record.device_id,
    ensures
        unique_ids(records.update(at, record)),
        collect_devices(records.update(at, record)) == collect_devices(records).insert(
            record.device_id,
            record,
        ),
{
    let updated = records.update(at, record);
    assert forall|i: int, j: int| 0 <= i < j < updated.len() implies #[trigger] updated[i].device_id
        != #[trigger] updated[j].device_id by {
        assert(records[i].device_id != records[j].device_id);
    }
    collect_devices_unique(records);
    collect_devices_unique(updated);
    let left = collect_devices(updated);
    let right = collect_devices(records).insert(record.device_id, record);
    assert forall|id: Seq<char>| #[trigger]
        left.dom().contains(id) == right.dom().contains(id) && (left.dom().contains(id) ==> left[id]
            == right[id]) by {
        collect_devices_domain(records, id);
        collect_devices_domain(updated, id);
        if left.contains_key(id) {
            let i = choose|i: int| 0 <= i < updated.len() && #[trigger] updated[i].device_id == id;
            assert(records[i].device_id == id);
            assert(left.contains_pair(updated[i].device_id, updated[i]));
            assert(collect_devices(records).contains_pair(records[i].device_id, records[i]));
            if id == record.device_id && i != at {
                if i < at {
                    assert(records[i].device_id != records[at].device_id);
                } else {
                    assert(records[at].device_id != records[i].device_id);
                }
            }
        }
        if right.contains_key(id) {
            if id == record.device_id {
                assert(updated[at].device_id == id);
            } else {
                let i = choose|i: int|
                    0 <= i < records.len() && #[trigger] records[i].device_id == id;
                assert(updated[i].device_id == id);
            }
        }
    }
    assert(left.dom() =~= right.dom());
    assert(left =~= right);
}

/// Taking a record out of a list without repetitions takes its device out of the
/// collected peers.
proof fn collect_devices_remove(records: Seq<DeviceRecordView>, at: int)
    requires
        unique_ids(records),
        0 <= at < records.len(),
    ensures
        unique_ids(records.remove(at)),
        collect_devices(records.remove(at)) == collect_devices(records).remove(
            records[at].device_id,
        ),
{
    let removed = records.remove(at);
    let gone = records[at].device_id;
    assert forall|i: int, j: int| 0 <= i < j < removed.len() implies #[trigger] removed[i].device_id
        != #[trigger] removed[j].device_id by {
        let k = if i < at { i } else { i + 1 };
        let l = if j < at { j } else { j + 1 };
        assert(records[k].device_id != records[l].device_id);
    }
    collect_devices_unique(records);
    collect_devices_unique(removed);
    let left = collect_devices(removed);
    let right = collect_devices(records).remove(gone);
    assert forall|id: Seq<char>| #[trigger]
        left.dom().contains(id) == right.dom().contains(id) && (left.dom().contains(id) ==> left[id]
            == right[id]) by {
        collect_devices_domain(records, id);
        collect_devices_domain(removed, id);
        if left.contains_key(id) {
            let i = choose|i: int| 0 <= i < removed.len() && #[trigger] removed[i].device_id == id;
            let k = if i < at { i } else { i + 1 };
            assert(records[k] == removed[i]);
            assert(records[k].device_id == id);
            assert(left.contains_pair(removed[i].device_id, removed[i]));
            assert(collect_devices(records).contains_pair(records[k].device_id, records[k]));
            if k < at {
                assert(records[k].device_id != records[at].device_id);
            } else {
                assert(records[at].device_id != records[k].device_id);
            }
        }
        if right.contains_key(id) {
            let k = choose|k: int| 0 <= k < records.len() && #[trigger] records[k].device_id == id;
            let i = if k < at { k } else { k - 1 };
            assert(removed[i] == records[k]);
            assert(removed[i].device_id == id);
        }
    }
    assert(left.dom() =~= right.dom());
    assert(left =~= right);
}

/// The trusted peers, by device id.
pub struct DeviceTable {
    records: Vec<DeviceRecord>,
}

impl View for DeviceTable {
    type V = Map<Seq<char>, DeviceRecordView>;

    closed spec fn view(&self) -> Map<Seq<char>, DeviceRecordView> {
        collect_devices(record_views(self.records@))
    }
}

impl DeviceTable {
    /// Every device has at most one record.
    #[verifier::type_invariant]
    spec fn one_record_per_device(self) -> bool {
        unique_ids(record_views(self.records@))
    }

    /// The table without any peer.
    pub fn new() -> (table: Self)
        ensures
            table@ == Map::<Seq<char>, DeviceRecordView>::empty(),
    {
        DeviceTable { records: Vec::new() }
    }

    /// The peers that `records` describes. A later record for a device takes the
    /// place of an earlier one.
    pub fn from_records(records: &Vec<DeviceRecord>) -> (table: Self)
        ensures
            table@ == collect_devices(record_views(records@)),
    {
        let mut table = DeviceTable::new();
        let mut next: usize = 0;
        assert(record_views(records@.take(0)) =~= Seq::<DeviceRecordView>::empty());
        while next < records.len()
            invariant
                next <= records.len(),
                table@ == collect_devices(record_views(records@.take(next as int))),
            decreases records.len() - next,
        {
            table.insert(records[next].clone());
            proof {
                let longer = record_views(records@.take(next + 1));
                assert(longer.drop_last() =~= record_views(records@.take(next as int)));
                assert(longer.last() == records@[next as int]@);
            }
            next = next + 1;
        }
        assert(records@.take(next as int) =~= records@);
        table
    }

    /// Where the record of `device_id` stands.
    fn position(&self, device_id: &str) -> (at: Option<usize>)
        ensures
            match at {
                Some(i) => i < self.records.len() && self.records[i as int].device_id@
                    == device_id@,
                None => forall|i: int|
                    0 <= i < self.records.len() ==> #[trigger] self.records[i].device_id@
                        != device_id@,
            },
    {
        let wanted = device_id.to_owned();
        let mut i: usize = 0;
        while i < self.records.len()
            invariant
                i <= self.records.len(),
                wanted@ == device_id@,
                forall|j: int| 0 <= j < i ==> #[trigger] self.records[j].device_id@ != device_id@,
            decreases self.records.len() - i,
        {
            if self.records[i].device_id == wanted {
                return Some(i);
            }
            i = i + 1;
        }
        None
    }

    /// Enters `record`, in place of an earlier record for the same device.
    pub fn insert(&mut self, record: DeviceRecord)
        ensures
            final(self)@ == old(self)@.insert(record@.device_id, record@),
    {
        proof {
            use_type_invariant(&*self);
        }
        let found = self.position(record.device_id.as_str());
        let mut records: Vec<DeviceRecord> = Vec::new();
        std::mem::swap(&mut records, &mut self.records);
        let ghost before = record_views(records@);
        match found {
            Some(at) => {
                proof {
                    collect_devices_update(before, at as int, record@);
                }
                let ghost after = before.update(at as int, record@);
                records[at] = record;
                assert(record_views(records@) =~= after);
            },
            None => {
                let ghost added = record@;
                assert forall|i: int| 0 <= i < before.len() implies #[trigger] before[i].device_id
                    != added.device_id by {
                    assert(before[i].device_id == records[i].device_id@);
                }
                let ghost after = before.push(record@);
                records.push(record);
                assert(record_views(records@) =~= after);
                assert(after.drop_last() =~= before);
            },
        }
        self.records = records;
    }

    /// Takes out the record of `device_id`, if there is one.
    pub fn remove(&mut self, device_id: &str)
        ensures
            final(self)@ == old(self)@.remove(device_id@),
    {
        proof {
            use_type_invariant(&*self);
        }
        let found = self.position(device_id);
        let ghost before = record_views(self.records@);
        match found {
            Some(at) => {
                let mut records: Vec<DeviceRecord> = Vec::new();
                std::mem::swap(&mut records, &mut self.records);
                proof {
                    collect_devices_remove(before, at as int);
                }
                records.remove(at);
                assert(record_views(records@) =~= before.remove(at as int));
                self.records = records;
            },
            None => {
                proof {
                    collect_devices_domain(before, device_id@);
                }
                assert(collect_devices(before).remove(device_id@) =~= collect_devices(before));
            },
        }
    }

    /// Whether there is a record of `device_id`.
    pub fn contains(&self, device_id: &str) -> (known: bool)
        ensures
            known == self@.contains_key(device_id@),
    {
        self.get(device_id).is_some()
    }

    /// The record of `device_id`, if there is one.
    pub fn get(&self, device_id: &str) -> (record: Option<&DeviceRecord>)
        ensures
            match record {
                Some(found) => self@.contains_pair(device_id@, found@) && found@.device_id
                    == device_id@,
                None => !self@.contains_key(device_id@),
            },
    {
        proof {
            use_type_invariant(self);
            collect_devices_unique(record_views(self.records@));
            collect_devices_domain(record_views(self.records@), device_id@);
        }
        match self.position(device_id) {
            Some(at) => {
                assert(record_views(self.records@)[at as int].device_id == device_id@);
                Some(&self.records[at])
            },
            None => {
                assert forall|i: int| 0 <= i < record_views(self.records@).len() implies (
                #[trigger] record_views(self.records@)[i]).device_id != device_id@ by {
                    assert(self.records[i].device_id@ != device_id@);
                }
                None
            },
        }
    }

    /// The number of peers.
    pub fn len(&self) -> (count: usize)
        ensures
            count == self@.len(),
            self@.dom().finite(),
    {
        proof {
            use_type_invariant(self);
            collect_devices_unique(record_views(self.records@));
        }
        self.records.len()
    }

    /// The records of all peers, one each, in no particular order.
    pub fn records(&self) -> (records: Vec<DeviceRecord>)
        ensures
            unique_ids(record_views(records@)),
            collect_devices(record_views(records@)) == self@,
    {
        proof {
            use_type_invariant(self);
        }
        let mut records: Vec<DeviceRecord> = Vec::new();
        let mut next: usize = 0;
        while next < self.records.len()
            invariant
                next <= self.records.len(),
                records@ =~= self.records@.take(next as int),
            decreases self.records.len() - next,
        {
            records.push(self.records[next].clone());
            next = next + 1;
        }
        assert(records@ =~= self.records@);
        records
    }
}

} // verus!
