//! The time-bounded store: a map from request id to encrypted record in which
//! every record carries its own expiry.
//!
//! A read never returns a record that has outlived its time to live, whether
//! or not a sweep has removed it yet.

use vstd::prelude::*;
use dashmap::DashMap;
use crate::vault::clock::{is_live, is_overdue, lease_live, Timestamp};
use crate::vault::record::{EncryptedData, EncryptedDataView};

verus! {

#[verifier::external_type_specification]
#[verifier::external_body]
#[verifier::reject_recursive_types(K)]
#[verifier::reject_recursive_types(V)]
#[verifier::reject_recursive_types(S)]
pub struct ExDashMap<K, V, S>(DashMap<K, V, S>);

/// What a store holds, as a mathematical map from request id to record.
pub type Records = Map<Seq<char>, EncryptedDataView>;

/// The records that a concurrent map holds, by request id.
pub uninterp spec fn map_records(m: DashMap<String, EncryptedData>) -> Records;

/// The id of a record together with the two values that decide its expiry.
struct Lease {
    id: String,
    created_at: Timestamp,
    ttl_seconds: u64,
}

/// `leases` lists every record of `records` exactly once, with the creation
/// time and time to live that the record has.
spec fn is_snapshot(leases: Seq<Lease>, records: Records) -> bool {
    &&& forall|i: int, j: int|
        0 <= i < j < leases.len() ==> (#[trigger] leases[i]).id@ != (#[trigger] leases[j]).id@
    &&& forall|i: int|
        0 <= i < leases.len() ==> {
            &&& records.dom().contains((#[trigger] leases[i]).id@)
            &&& records[leases[i].id@].created_at == leases[i].created_at
            &&& records[leases[i].id@].ttl_seconds == leases[i].ttl_seconds
        }
    &&& forall|id: Seq<char>| #[trigger]
        records.dom().contains(id) ==> exists|i: int|
            0 <= i < leases.len() && (#[trigger] leases[i]).id@ == id
}

/// `DashMap::new`. Trusted: the new map holds nothing.
#[verifier::external_body]
fn map_new() -> (m: DashMap<String, EncryptedData>)
    ensures
        map_records(m) == Records::empty(),
{
    DashMap::new()
}

/// `DashMap::insert`. Trusted: afterwards the key maps to the value and every
/// other key maps to what it did before.
#[verifier::external_body]
fn map_insert(m: &mut DashMap<String, EncryptedData>, key: String, value: EncryptedData)
    ensures
        map_records(*final(m)) == map_records(*old(m)).insert(key@, value@),
{
    m.insert(key, value);
}

/// `DashMap::get`, handing out a copy of the value. Trusted: the result is
/// the record held under the key, and `None` exactly when there is none.
#[verifier::external_body]
fn map_get(m: &DashMap<String, EncryptedData>, key: &str) -> (r: Option<EncryptedData>)
    ensures
        r is Some <==> map_records(*m).dom().contains(key@),
        r matches Some(record) ==> record@ == map_records(*m)[key@],
{
    m.get(key).map(|entry| entry.value().clone())
}

/// `DashMap::remove`. Trusted: afterwards the key is absent and every other
/// key maps to what it did before.
#[verifier::external_body]
fn map_remove(m: &mut DashMap<String, EncryptedData>, key: &str)
    ensures
        map_records(*final(m)) == map_records(*old(m)).remove(key@),
{
    m.remove(key);
}

/// `DashMap::iter`, copying from each entry its key, creation time and time
/// to live. Trusted: every record is listed exactly once; nothing is
/// promised about the order.
#[verifier::external_body]
fn map_leases(m: &DashMap<String, EncryptedData>) -> (leases: Vec<Lease>)
    ensures
        is_snapshot(leases@, map_records(*m)),
{
    m.iter().map(|entry| Lease {
        id: entry.key().clone(),
        created_at: entry.value().created_at,
        ttl_seconds: entry.value().ttl_seconds,
    }).collect()
}

/// What a lookup of `id` at time `now` yields: the record stored under `id`
/// if there is one and it is live, and nothing otherwise. A lookup does not
/// tell an id that was never stored from one whose record has expired.
pub open spec fn lookup(records: Records, id: Seq<char>, now: Timestamp) -> Option<EncryptedDataView> {
    if records.dom().contains(id) && records[id].is_live(now) {
        Some(records[id])
    } else {
        None
    }
}

/// The ids whose records are overdue at `now`.
pub open spec fn overdue_ids(records: Records, now: Timestamp) -> Set<Seq<char>> {
    Set::new(|id: Seq<char>| records.dom().contains(id) && records[id].is_overdue(now))
}

/// The ids whose records are live at `now`.
pub open spec fn live_ids(records: Records, now: Timestamp) -> Set<Seq<char>> {
    Set::new(|id: Seq<char>| records.dom().contains(id) && records[id].is_live(now))
}

/// What a sweep at `now` leaves: every record but the overdue ones.
pub open spec fn swept(records: Records, now: Timestamp) -> Records {
    records.remove_keys(overdue_ids(records, now))
}

/// The store. Its value is the map from request id to record.
pub struct TtlStore {
    map: DashMap<String, EncryptedData>,
}

impl View for TtlStore {
    type V = Records;

    closed spec fn view(&self) -> Records {
        map_records(self.map)
    }
}

impl TtlStore {
    /// An empty store.
    pub fn new() -> (store: TtlStore)
        ensures
            store@ == Records::empty(),
    {
        TtlStore { map: map_new() }
    }

    /// Stores `record` under `id`, replacing whatever was stored under it.
    pub fn put(&mut self, id: String, record: EncryptedData)
        ensures
            final(self)@ == old(self)@.insert(id@, record@),
    {
        map_insert(&mut self.map, id, record);
    }

    /// The live record stored under `id`, if any.
    pub fn get(&self, id: &str, now: Timestamp) -> (r: Option<EncryptedData>)
        ensures
            r is Some <==> lookup(self@, id@, now) is Some,
            r matches Some(record) ==> lookup(self@, id@, now) == Some(record@),
    {
        match map_get(&self.map, id) {
            Some(record) => {
                if record.is_live(now) {
                    Some(record)
                } else {
                    None
                }
            },
            None => None,
        }
    }

    /// The number of records that are live at `now`.
    pub fn live_count(&self, now: Timestamp) -> (n: usize)
        ensures
            live_ids(self@, now).finite(),
            n == live_ids(self@, now).len(),
    {
        let leases = map_leases(&self.map);
        let ghost mut source: Seq<int> = Seq::empty();
        let mut n: usize = 0;
        let mut i: usize = 0;
        while i < leases.len()
            invariant
                i <= leases.len(),
                n == source.len(),
                n <= i,
                forall|k: int|
                    0 <= k < source.len() ==> 0 <= #[trigger] source[k] < i && lease_live(
                        leases[source[k]].created_at,
                        leases[source[k]].ttl_seconds,
                        now,
                    ),
                forall|k: int, l: int|
                    0 <= k < l < source.len() ==> #[trigger] source[k] < #[trigger] source[l],
                forall|j: int|
                    0 <= j < i && lease_live(
                        (#[trigger] leases[j]).created_at,
                        leases[j].ttl_seconds,
                        now,
                    ) ==> exists|k: int| 0 <= k < source.len() && #[trigger] source[k] == j,
            decreases leases.len() - i,
        {
            let lease = &leases[i];
            if is_live(lease.created_at, lease.ttl_seconds, now) {
                n += 1;
                proof {
                    let ghost grown = source.push(i as int);
                    assert forall|j: int|
                        0 <= j < i + 1 && lease_live(
                            (#[trigger] leases[j]).created_at,
                            leases[j].ttl_seconds,
                            now,
                        ) implies exists|k: int| 0 <= k < grown.len() && #[trigger] grown[k] == j by {
                        if j < i {
                            let k = choose|k: int| 0 <= k < source.len() && #[trigger] source[k] == j;
                            assert(grown[k] == j);
                        } else {
                            assert(grown[source.len() as int] == j);
                        }
                    }
                    source = grown;
                }
            }
            i += 1;
        }
        proof {
            let ids = Seq::new(source.len(), |k: int| leases[source[k]].id@);
            assert forall|k: int, l: int| 0 <= k < ids.len() && 0 <= l < ids.len() && k != l implies ids[k]
                != ids[l] by {
                if k < l {
                    assert(source[k] < source[l]);
                } else {
                    assert(source[l] < source[k]);
                }
            }
            assert forall|id: Seq<char>| live_ids(self@, now).contains(id) implies ids.to_set().contains(
                id,
            ) by {
                let j = choose|j: int| 0 <= j < leases.len() && (#[trigger] leases[j]).id@ == id;
                let k = choose|k: int| 0 <= k < source.len() && #[trigger] source[k] == j;
                assert(ids[k] == id);
            }
            assert forall|id: Seq<char>| ids.to_set().contains(id) implies live_ids(self@, now).contains(
                id,
            ) by {
                let k = choose|k: int| 0 <= k < ids.len() && ids[k] == id;
                assert(self@.dom().contains(leases[source[k]].id@));
            }
            assert(ids.to_set() =~= live_ids(self@, now));
            ids.unique_seq_to_set();
            vstd::seq_lib::seq_to_set_is_finite(ids);
        }
        n
    }
}

/// One sweep of the reaper: removes every record that is overdue at `now`,
/// leaves every other record as it is, and returns the ids it removed, each
/// once.
pub fn cleanup_expired(storage: &mut TtlStore, now: Timestamp) -> (purged: Vec<String>)
    ensures
        final(storage)@ == swept(old(storage)@, now),
        forall|k: int|
            0 <= k < purged.len() ==> overdue_ids(old(storage)@, now).contains(#[trigger] purged[k]@),
        forall|id: Seq<char>| #[trigger]
            overdue_ids(old(storage)@, now).contains(id) ==> exists|k: int|
                0 <= k < purged.len() && (#[trigger] purged[k])@ == id,
        forall|k: int, l: int|
            0 <= k < l < purged.len() ==> (#[trigger] purged[k])@ != (#[trigger] purged[l])@,
{
    let ghost before = storage@;
    let leases = map_leases(&storage.map);
    let mut purged: Vec<String> = Vec::new();
    let ghost mut source: Seq<int> = Seq::empty();
    let mut i: usize = 0;
    while i < leases.len()
        invariant
            i <= leases.len(),
            is_snapshot(leases@, before),
            forall|id: Seq<char>| #[trigger]
                storage@.dom().contains(id) ==> before.dom().contains(id) && storage@[id]
                    == before[id],
            forall|id: Seq<char>|
                before.dom().contains(id) && !before[id].is_overdue(now)
                    ==> #[trigger] storage@.dom().contains(id),
            forall|j: int|
                i <= j < leases.len() ==> storage@.dom().contains((#[trigger] leases[j]).id@),
            forall|j: int|
                0 <= j < i && before[(#[trigger] leases[j]).id@].is_overdue(now)
                    ==> !storage@.dom().contains(leases[j].id@),
            source.len() == purged.len(),
            forall|k: int|
                0 <= k < source.len() ==> 0 <= #[trigger] source[k] < i && purged[k]@
                    == leases[source[k]].id@ && before[purged[k]@].is_overdue(now),
            forall|k: int, l: int|
                0 <= k < l < source.len() ==> #[trigger] source[k] < #[trigger] source[l],
            forall|j: int|
                0 <= j < i && before[(#[trigger] leases[j]).id@].is_overdue(now) ==> exists|k: int|
                    0 <= k < source.len() && #[trigger] source[k] == j,
        decreases leases.len() - i,
    {
        let lease = &leases[i];
        if is_overdue(lease.created_at, lease.ttl_seconds, now) {
            map_remove(&mut storage.map, lease.id.as_str());
            purged.push(lease.id.clone());
            proof {
                let ghost grown = source.push(i as int);
                assert forall|j: int|
                    0 <= j < i + 1 && before[(#[trigger] leases[j]).id@].is_overdue(now) implies exists|
                    k: int,
                | 0 <= k < grown.len() && #[trigger] grown[k] == j by {
                    if j < i {
                        let k = choose|k: int| 0 <= k < source.len() && #[trigger] source[k] == j;
                        assert(grown[k] == j);
                    } else {
                        assert(grown[source.len() as int] == j);
                    }
                }
                source = grown;
            }
        }
        i += 1;
    }
    proof {
        assert(storage@ =~= swept(before, now));
        assert forall|k: int| 0 <= k < purged.len() implies overdue_ids(before, now).contains(
            #[trigger] purged[k]@,
        ) by {
            assert(before.dom().contains(leases[source[k]].id@));
        }
        assert forall|id: Seq<char>| #[trigger]
            overdue_ids(before, now).contains(id) implies exists|k: int|
            0 <= k < purged.len() && (#[trigger] purged[k])@ == id by {
            let j = choose|j: int| 0 <= j < leases.len() && (#[trigger] leases[j]).id@ == id;
            let k = choose|k: int| 0 <= k < source.len() && #[trigger] source[k] == j;
            assert(purged[k]@ == id);
        }
        assert forall|k: int, l: int| 0 <= k < l < purged.len() implies (#[trigger] purged[k])@ != (
        #[trigger] purged[l])@ by {
            assert(source[k] < source[l]);
        }
    }
    purged
}

} // verus!
