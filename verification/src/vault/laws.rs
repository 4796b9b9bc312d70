//! What holds of the vault as a whole, stated over the models that the
//! contracts of its operations use and proved from them.

use vstd::prelude::*;
use crate::vault::clock::{lease_live, Timestamp};
use crate::vault::codec::{encode_spec, lemma_decode_encode, lemma_encode_decode, lemma_encoding_length};
use crate::vault::crypto::{open_spec, KEY_LEN, NONCE_LEN, TAG_LEN};
use crate::vault::entity::EntityView;
use crate::vault::error::VaultError;
use crate::vault::record::EncryptedDataView;
use crate::vault::service::{holds_batch, retrieve_spec, seals, stores_batch};
use crate::vault::store::{lookup, overdue_ids, swept, Records};

verus! {

/// Round trip: a ciphertext and nonce that seal a payload under a key open,
/// under that key, to that payload. Sealing establishes `seals` and opening
/// computes `open_spec`, so opening what was sealed gives the payload back.
pub proof fn lemma_round_trip(key: Seq<u8>, payload: Seq<u8>, ciphertext: Seq<u8>, nonce: Seq<u8>)
    requires
        seals(key, payload, ciphertext, nonce),
    ensures
        open_spec(key, ciphertext, nonce) == Ok::<Seq<u8>, VaultError>(payload),
{
}

/// A nonce of the wrong length, a key of the wrong length and an input
/// shorter than the tag are always refused, whatever the other values are.
pub proof fn lemma_malformed_never_opens(key: Seq<u8>, ciphertext: Seq<u8>, nonce: Seq<u8>)
    requires
        key.len() != KEY_LEN || nonce.len() != NONCE_LEN || ciphertext.len() < TAG_LEN,
    ensures
        open_spec(key, ciphertext, nonce) == Err::<Seq<u8>, VaultError>(VaultError::Decryption),
{
}

/// Expiry: a batch stored at `stored_at` with a time to live is retrieved,
/// as the very entities that were stored, at every moment before the time to
/// live has passed, and is not found from then on.
pub proof fn lemma_expiry(
    records: Records,
    key: Seq<u8>,
    id: Seq<char>,
    entities: Seq<EntityView>,
    record: EncryptedDataView,
    stored_at: Timestamp,
    ttl_seconds: u64,
    now: Timestamp,
)
    requires
        holds_batch(record, key, entities, stored_at, ttl_seconds),
    ensures
        now.total_nanos() - stored_at.total_nanos() < ttl_seconds * 1_000_000_000 ==> retrieve_spec(
            records.insert(id, record),
            key,
            id,
            now,
        ) == Ok::<Seq<EntityView>, VaultError>(entities),
        now.total_nanos() - stored_at.total_nanos() >= ttl_seconds * 1_000_000_000 ==> retrieve_spec(
            records.insert(id, record),
            key,
            id,
            now,
        ) == Err::<Seq<EntityView>, VaultError>(VaultError::NotFound),
{
    lemma_decode_encode(entities);
}

/// An id under which nothing was stored is not found.
pub proof fn lemma_never_stored(records: Records, key: Seq<u8>, id: Seq<char>, now: Timestamp)
    requires
        !records.dom().contains(id),
    ensures
        retrieve_spec(records, key, id, now) == Err::<Seq<EntityView>, VaultError>(
            VaultError::NotFound,
        ),
{
}

/// A sweep is invisible to later reads: it removes only records that no read
/// at or after the time of the sweep would have returned, so whether and
/// when the reaper runs changes no answer.
pub proof fn lemma_sweep_keeps_answers(
    records: Records,
    key: Seq<u8>,
    id: Seq<char>,
    swept_at: Timestamp,
    now: Timestamp,
)
    requires
        swept_at.total_nanos() <= now.total_nanos(),
    ensures
        retrieve_spec(swept(records, swept_at), key, id, now) == retrieve_spec(records, key, id, now),
{
}

/// After a sweep no overdue record is left, and every record that was live
/// is still there, unchanged.
pub proof fn lemma_sweep_result(records: Records, id: Seq<char>, swept_at: Timestamp)
    ensures
        swept(records, swept_at).dom().contains(id) ==> !swept(records, swept_at)[id].is_overdue(
            swept_at,
        ),
        lookup(records, id, swept_at) is Some ==> swept(records, swept_at).dom().contains(id)
            && swept(records, swept_at)[id] == records[id],
{
}

/// Key isolation: storing under one id changes no answer for another id.
pub proof fn lemma_key_isolation(
    records: Records,
    key: Seq<u8>,
    id: Seq<char>,
    other: Seq<char>,
    record: EncryptedDataView,
    now: Timestamp,
)
    requires
        id != other,
    ensures
        retrieve_spec(records.insert(other, record), key, id, now) == retrieve_spec(
            records,
            key,
            id,
            now,
        ),
{
}

/// Overwrite: storing twice under one id leaves the store as if only the
/// second batch had been stored, so a read returns the second batch and the
/// expiry is counted from the second call.
pub proof fn lemma_overwrite(
    records: Records,
    key: Seq<u8>,
    id: Seq<char>,
    first: EncryptedDataView,
    second: EncryptedDataView,
    entities: Seq<EntityView>,
    stored_at: Timestamp,
    ttl_seconds: u64,
    now: Timestamp,
)
    requires
        holds_batch(second, key, entities, stored_at, ttl_seconds),
    ensures
        records.insert(id, first).insert(id, second) == records.insert(id, second),
        retrieve_spec(records.insert(id, first).insert(id, second), key, id, now) == (if lease_live(
            stored_at,
            ttl_seconds,
            now,
        ) {
            Ok::<Seq<EntityView>, VaultError>(entities)
        } else {
            Err::<Seq<EntityView>, VaultError>(VaultError::NotFound)
        }),
{
    assert(records.insert(id, first).insert(id, second) =~= records.insert(id, second));
    lemma_decode_encode(entities);
}

/// Repeated reads agree: while a record is live, every read of its id gives
/// the same answer, whatever the moment.
pub proof fn lemma_reads_agree(
    records: Records,
    key: Seq<u8>,
    id: Seq<char>,
    earlier: Timestamp,
    later: Timestamp,
)
    requires
        lookup(records, id, earlier) is Some,
        lookup(records, id, later) is Some,
    ensures
        retrieve_spec(records, key, id, earlier) == retrieve_spec(records, key, id, later),
{
}

/// A sweep removes every record whose age exceeds its time to live, each
/// judged by its own time to live, and no other record.
pub proof fn lemma_sweep_removes_the_aged(records: Records, id: Seq<char>, swept_at: Timestamp)
    requires
        records.dom().contains(id),
    ensures
        swept(records, swept_at).dom().contains(id) <==> swept_at.total_nanos()
            - records[id].created_at.total_nanos() <= records[id].ttl_seconds * 1_000_000_000,
        overdue_ids(records, swept_at).contains(id) <==> swept_at.total_nanos()
            - records[id].created_at.total_nanos() > records[id].ttl_seconds * 1_000_000_000,
{
}

/// A retrieval succeeds only on a live record whose ciphertext is as long as
/// the encoding of the entities and the tag. A live record that is shorter
/// than a tag and the eight bytes of a length is therefore an internal
/// failure: neither found nor reported as missing.
pub proof fn lemma_retrieved_length(records: Records, key: Seq<u8>, id: Seq<char>, now: Timestamp)
    ensures
        retrieve_spec(records, key, id, now) matches Ok(entities) ==> (lookup(records, id, now)
            matches Some(record) && encode_spec(entities).len() + TAG_LEN
            == record.ciphertext.len()),
        lookup(records, id, now) matches Some(record) && record.ciphertext.len() < TAG_LEN + 8
            ==> (retrieve_spec(records, key, id, now) matches Err(e) && e.status() == 500),
{
    if let Ok(entities) = retrieve_spec(records, key, id, now) {
        let record = lookup(records, id, now)->Some_0;
        let payload = open_spec(key, record.ciphertext, record.nonce)->Ok_0;
        lemma_encode_decode(payload);
        lemma_encoding_length(entities);
    }
}

/// Storing replaces: after a batch was stored under an id, the record under
/// that id was created at the moment of the call, has the configured time to
/// live, and owes nothing to what was stored there before.
pub proof fn lemma_store_replaces(
    before: Records,
    earlier: EncryptedDataView,
    after: Records,
    key: Seq<u8>,
    id: Seq<char>,
    entities: Seq<EntityView>,
    now: Timestamp,
    ttl_seconds: u64,
)
    requires
        stores_batch(before.insert(id, earlier), after, key, id, entities, now, ttl_seconds),
    ensures
        after[id].created_at == now,
        after[id].ttl_seconds == ttl_seconds,
        stores_batch(before, after, key, id, entities, now, ttl_seconds),
        stores_batch(before.remove(id), after, key, id, entities, now, ttl_seconds),
{
    assert(before.insert(id, earlier).insert(id, after[id]) =~= before.insert(id, after[id]));
    assert(before.remove(id).insert(id, after[id]) =~= before.insert(id, after[id]));
}

/// Storing isolates: after a batch was stored under an id, every other id
/// has the record it had, or none if it had none, and gets the answer it
/// got.
pub proof fn lemma_store_isolates(
    before: Records,
    after: Records,
    key: Seq<u8>,
    id: Seq<char>,
    entities: Seq<EntityView>,
    now: Timestamp,
    ttl_seconds: u64,
    other: Seq<char>,
    later: Timestamp,
)
    requires
        stores_batch(before, after, key, id, entities, now, ttl_seconds),
        other != id,
    ensures
        after.dom().contains(other) == before.dom().contains(other),
        after.dom().contains(other) ==> after[other] == before[other],
        retrieve_spec(after, key, other, later) == retrieve_spec(before, key, other, later),
{
}

/// Storing then retrieving: after a batch was stored under an id, a
/// retrieval of that id returns the very entities that were stored at every
/// moment before the time to live has passed since the call, and reports
/// the id as not found from then on.
pub proof fn lemma_store_then_retrieve(
    before: Records,
    after: Records,
    key: Seq<u8>,
    id: Seq<char>,
    entities: Seq<EntityView>,
    now: Timestamp,
    ttl_seconds: u64,
    later: Timestamp,
)
    requires
        stores_batch(before, after, key, id, entities, now, ttl_seconds),
    ensures
        later.total_nanos() - now.total_nanos() < ttl_seconds * 1_000_000_000 ==> retrieve_spec(
            after,
            key,
            id,
            later,
        ) == Ok::<Seq<EntityView>, VaultError>(entities),
        later.total_nanos() - now.total_nanos() >= ttl_seconds * 1_000_000_000 ==> retrieve_spec(
            after,
            key,
            id,
            later,
        ) == Err::<Seq<EntityView>, VaultError>(VaultError::NotFound),
{
    lemma_decode_encode(entities);
}

} // verus!
