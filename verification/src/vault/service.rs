//! The vault: entities are encoded, sealed under the master key and kept in
//! the store for a bounded time; a lookup opens and decodes what is still
//! live.

use vstd::prelude::*;
use ring::rand::SystemRandom;
use crate::vault::clock::Timestamp;
use crate::vault::codec::{
    decode_entities, decode_spec, encodable, encode_entities, encode_spec, lemma_encode_decode,
    lemma_encoding_length,
};
use crate::vault::crypto::{
    fill_random, open_spec, open_with_nonce, seal_spec, seal_with_nonce, system_random, KEY_LEN,
    NONCE_LEN, TAG_LEN,
};
use crate::vault::entity::{EntityView, RetrieveResponse, StoreRequest, StoreResponse};
use crate::vault::error::VaultError;
use crate::vault::record::{EncryptedData, EncryptedDataView};
use crate::vault::store::{live_ids, lookup, Records, TtlStore};

verus! {

/// The state of a vault: the store, the master key, the source of nonces and
/// the time that a stored batch may live.
pub struct VaultState {
    pub storage: TtlStore,
    pub master_key: Vec<u8>,
    pub rng: SystemRandom,
    pub ttl_seconds: u64,
}

/// `ciphertext` and `nonce` hold `payload` sealed under `key`: the key is 32
/// and the nonce 12 bytes long, the ciphertext is what sealing the payload
/// under that nonce gives, and opening the ciphertext gives the payload back.
pub open spec fn seals(key: Seq<u8>, payload: Seq<u8>, ciphertext: Seq<u8>, nonce: Seq<u8>) -> bool {
    &&& key.len() == KEY_LEN
    &&& nonce.len() == NONCE_LEN
    &&& ciphertext.len() == payload.len() + TAG_LEN
    &&& seal_spec(key, nonce, payload) == Ok::<Seq<u8>, VaultError>(ciphertext)
    &&& open_spec(key, ciphertext, nonce) == Ok::<Seq<u8>, VaultError>(payload)
}

/// What a retrieval of `id` at `now` yields from `records` under `key`: not
/// found where nothing live is stored under `id`; else a decryption error
/// where the record does not open; else a decoding error where the payload
/// is no entity sequence; else the entities.
pub open spec fn retrieve_spec(records: Records, key: Seq<u8>, id: Seq<char>, now: Timestamp) -> Result<
    Seq<EntityView>,
    VaultError,
> {
    match lookup(records, id, now) {
        None => Err(VaultError::NotFound),
        Some(record) => match open_spec(key, record.ciphertext, record.nonce) {
            Err(_) => Err(VaultError::Decryption),
            Ok(payload) => match decode_spec(payload) {
                None => Err(VaultError::Deserialization),
                Some(entities) => Ok(entities),
            },
        },
    }
}

impl VaultState {
    /// A vault with an empty store.
    pub fn new(master_key: Vec<u8>, ttl_seconds: u64) -> (state: VaultState)
        ensures
            state.master_key == master_key,
            state.ttl_seconds == ttl_seconds,
            state.storage@ == Records::empty(),
    {
        VaultState { storage: TtlStore::new(), master_key, rng: system_random(), ttl_seconds }
    }

    /// Seals `data` under the master key and a fresh random nonce, and
    /// returns the sealed bytes and the nonce.
    ///
    /// Fails with a key error exactly when the master key is not 32 bytes
    /// long, and with an encryption error when the random source or the
    /// cipher fails. What it returns opens to `data` again.
    pub fn encrypt(&self, data: &[u8]) -> (r: Result<(Vec<u8>, Vec<u8>), VaultError>)
        ensures
            match r {
                Ok((ciphertext, nonce)) => seals(self.master_key@, data@, ciphertext@, nonce@),
                Err(e) => if self.master_key@.len() != KEY_LEN {
                    e == VaultError::Key
                } else {
                    e == VaultError::Encryption
                },
            },
            self.master_key@.len() != KEY_LEN ==> r is Err,
    {
        if self.master_key.len() != KEY_LEN {
            return Err(VaultError::Key);
        }
        let mut nonce: Vec<u8> = vec![0u8; NONCE_LEN];
        match fill_random(&self.rng, &mut nonce) {
            Ok(()) => {},
            Err(_) => {
                return Err(VaultError::Encryption);
            },
        }
        match seal_with_nonce(self.master_key.as_slice(), nonce.as_slice(), data) {
            Ok(ciphertext) => Ok((ciphertext, nonce)),
            Err(_) => Err(VaultError::Encryption),
        }
    }

    /// Opens `ciphertext` under the master key and `nonce`.
    ///
    /// Fails with a decryption error where the nonce is not 12 bytes long,
    /// the key is not 32 bytes long or the cipher rejects the input. A
    /// plaintext is 16 bytes shorter than the ciphertext it came from.
    pub fn decrypt(&self, ciphertext: &[u8], nonce: &[u8]) -> (r: Result<Vec<u8>, VaultError>)
        ensures
            match r {
                Ok(plaintext) => open_spec(self.master_key@, ciphertext@, nonce@) == Ok::<
                    Seq<u8>,
                    VaultError,
                >(plaintext@) && plaintext@.len() + TAG_LEN == ciphertext@.len(),
                Err(e) => e == VaultError::Decryption && open_spec(
                    self.master_key@,
                    ciphertext@,
                    nonce@,
                ) is Err,
            },
    {
        open_with_nonce(self.master_key.as_slice(), ciphertext, nonce)
    }
}

/// `record` is the batch `entities`, stored at `now` to live for
/// `ttl_seconds` and sealed under `key`.
pub open spec fn holds_batch(
    record: EncryptedDataView,
    key: Seq<u8>,
    entities: Seq<EntityView>,
    now: Timestamp,
    ttl_seconds: u64,
) -> bool {
    &&& record.created_at == now
    &&& record.ttl_seconds == ttl_seconds
    &&& encodable(entities)
    &&& seals(key, encode_spec(entities), record.ciphertext, record.nonce)
}

/// Storing the batch `entities` under `id` at `now` leads from the store
/// `before` to the store `after`: `after` holds under `id` a record that is
/// this batch, and is `before` in everything else.
pub open spec fn stores_batch(
    before: Records,
    after: Records,
    key: Seq<u8>,
    id: Seq<char>,
    entities: Seq<EntityView>,
    now: Timestamp,
    ttl_seconds: u64,
) -> bool {
    &&& after.dom().contains(id)
    &&& after == before.insert(id, after[id])
    &&& holds_batch(after[id], key, entities, now, ttl_seconds)
}

/// Puts a sealed payload into the store under `request_id`, as created at
/// `now` with the configured time to live, and answers with the second at
/// which it expires. Whatever was stored under that id is replaced; every
/// other id is left alone.
pub fn store_sealed(
    state: &mut VaultState,
    request_id: &str,
    ciphertext: Vec<u8>,
    nonce: Vec<u8>,
    now: Timestamp,
) -> (response: StoreResponse)
    requires
        now.secs + old(state).ttl_seconds <= u64::MAX,
    ensures
        final(state).master_key == old(state).master_key,
        final(state).ttl_seconds == old(state).ttl_seconds,
        final(state).storage@ == old(state).storage@.insert(
            request_id@,
            (EncryptedDataView {
                ciphertext: ciphertext@,
                nonce: nonce@,
                created_at: now,
                ttl_seconds: old(state).ttl_seconds,
            }),
        ),
        response.success,
        response.request_id@ == request_id@,
        response.expires_at == now.secs + old(state).ttl_seconds,
{
    let record = EncryptedData { ciphertext, nonce, created_at: now, ttl_seconds: state.ttl_seconds };
    state.storage.put(request_id.to_owned(), record);
    StoreResponse {
        success: true,
        request_id: request_id.to_owned(),
        expires_at: now.secs + state.ttl_seconds,
    }
}

/// Handles a store request at time `now`: encodes the entities, seals them
/// under a fresh nonce and puts the record into the store under the request
/// id, replacing whatever was stored under that id and leaving every other id
/// alone. The answer names the second at which the record expires.
///
/// Fails, with an encryption error and an unchanged store, where sealing
/// fails; it always does with a master key that is not 32 bytes long.
pub fn store_entities(state: &mut VaultState, req: &StoreRequest, now: Timestamp) -> (r: Result<
    StoreResponse,
    VaultError,
>)
    requires
        now.secs + old(state).ttl_seconds <= u64::MAX,
    ensures
        final(state).master_key == old(state).master_key,
        final(state).ttl_seconds == old(state).ttl_seconds,
        match r {
            Ok(response) => {
                &&& response.success
                &&& response.request_id@ == req.request_id@
                &&& response.expires_at == now.secs + old(state).ttl_seconds
                &&& stores_batch(
                    old(state).storage@,
                    final(state).storage@,
                    old(state).master_key@,
                    req.request_id@,
                    req.entities.deep_view(),
                    now,
                    old(state).ttl_seconds,
                )
            },
            Err(e) => e == VaultError::Encryption && final(state).storage@ == old(state).storage@,
        },
        old(state).master_key@.len() != KEY_LEN ==> r is Err,
{
    let payload = encode_entities(&req.entities);
    match state.encrypt(payload.as_slice()) {
        Ok((ciphertext, nonce)) => Ok(
            store_sealed(state, req.request_id.as_str(), ciphertext, nonce, now),
        ),
        Err(_) => Err(VaultError::Encryption),
    }
}

/// Handles a retrieve request at time `now`. The result is
/// [`retrieve_spec`]; the store is not changed. A request succeeds only on a
/// live record whose ciphertext is the encoding of the entities and the tag,
/// so never on one shorter than a tag and the eight bytes of a length.
pub fn retrieve_entities(state: &VaultState, request_id: &str, now: Timestamp) -> (r: Result<
    RetrieveResponse,
    VaultError,
>)
    ensures
        match r {
            Ok(response) => retrieve_spec(state.storage@, state.master_key@, request_id@, now)
                == Ok::<Seq<EntityView>, VaultError>(response.entities.deep_view()),
            Err(e) => retrieve_spec(state.storage@, state.master_key@, request_id@, now) == Err::<
                Seq<EntityView>,
                VaultError,
            >(e),
        },
        r matches Ok(response) ==> (lookup(state.storage@, request_id@, now) matches Some(record)
            && encode_spec(response.entities.deep_view()).len() + TAG_LEN
            == record.ciphertext.len() && record.ciphertext.len() >= TAG_LEN + 8),
{
    let record = match state.storage.get(request_id, now) {
        Some(record) => record,
        None => {
            return Err(VaultError::NotFound);
        },
    };
    let payload = match state.decrypt(record.ciphertext.as_slice(), record.nonce.as_slice()) {
        Ok(payload) => payload,
        Err(_) => {
            return Err(VaultError::Decryption);
        },
    };
    match decode_entities(payload.as_slice()) {
        Some(entities) => {
            proof {
                lemma_encode_decode(payload@);
                lemma_encoding_length(entities.deep_view());
            }
            Ok(RetrieveResponse { entities })
        },
        None => Err(VaultError::Deserialization),
    }
}

/// What the liveness probe reports.
#[derive(Debug, Clone, PartialEq, Eq)]
pub struct HealthStatus {
    pub status: String,
    pub service: String,
    pub version: String,
}

/// The liveness probe. It does not look at the store.
pub fn health() -> (h: HealthStatus)
    ensures
        h.status@ == "healthy"@,
        h.service@ == "vault"@,
        h.version@ == "1.0.0"@,
{
    HealthStatus {
        status: "healthy".to_owned(),
        service: "vault".to_owned(),
        version: "1.0.0".to_owned(),
    }
}

/// What the metrics probe reports.
#[derive(Debug, Clone, Copy, PartialEq, Eq)]
pub struct Metrics {
    pub entries_stored: usize,
    pub ttl_seconds: u64,
}

/// The number of records that are live at `now` and the configured time to
/// live.
pub fn metrics(state: &VaultState, now: Timestamp) -> (m: Metrics)
    ensures
        live_ids(state.storage@, now).finite(),
        m.entries_stored == live_ids(state.storage@, now).len(),
        m.ttl_seconds == state.ttl_seconds,
{
    Metrics { entries_stored: state.storage.live_count(now), ttl_seconds: state.ttl_seconds }
}

} // verus!
