//! The encrypted record that the store holds for one request id.

use vstd::prelude::*;
use crate::vault::clock::{is_live, is_overdue, lease_live, lease_overdue, Timestamp};

verus! {

/// One stored batch: the sealed payload, the nonce it was sealed under,
/// the moment it was stored and the seconds it may live.
#[derive(Debug, Clone)]
pub struct EncryptedData {
    pub ciphertext: Vec<u8>,
    pub nonce: Vec<u8>,
    pub created_at: Timestamp,
    pub ttl_seconds: u64,
}

/// The mathematical value of an [`EncryptedData`].
pub struct EncryptedDataView {
    pub ciphertext: Seq<u8>,
    pub nonce: Seq<u8>,
    pub created_at: Timestamp,
    pub ttl_seconds: u64,
}

impl EncryptedDataView {
    /// A record is live while less than its time to live has passed since it
    /// was created.
    pub open spec fn is_live(self, now: Timestamp) -> bool {
        lease_live(self.created_at, self.ttl_seconds, now)
    }

    /// A record is overdue, and due to be purged, once its age exceeds its
    /// time to live.
    pub open spec fn is_overdue(self, now: Timestamp) -> bool {
        lease_overdue(self.created_at, self.ttl_seconds, now)
    }
}

impl View for EncryptedData {
    type V = EncryptedDataView;

    open spec fn view(&self) -> EncryptedDataView {
        EncryptedDataView {
            ciphertext: self.ciphertext@,
            nonce: self.nonce@,
            created_at: self.created_at,
            ttl_seconds: self.ttl_seconds,
        }
    }
}

impl EncryptedData {
    /// Whether the record is live at `now`.
    pub fn is_live(&self, now: Timestamp) -> (live: bool)
        ensures
            live == self@.is_live(now),
    {
        is_live(self.created_at, self.ttl_seconds, now)
    }

    /// Whether the record is overdue at `now`.
    pub fn is_overdue(&self, now: Timestamp) -> (overdue: bool)
        ensures
            overdue == self@.is_overdue(now),
    {
        is_overdue(self.created_at, self.ttl_seconds, now)
    }
}

} // verus!
