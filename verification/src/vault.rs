//! The vault: an authenticated-encryption engine, a store whose records
//! expire, and the store/retrieve protocol built on the two.

pub mod clock;
pub mod codec;
pub mod crypto;
pub mod entity;
pub mod laws;
pub mod error;
pub mod record;
pub mod service;
pub mod settings;
pub mod store;

pub use self::clock::Timestamp;
pub use self::entity::{Entity, RetrieveResponse, StoreRequest, StoreResponse};
pub use self::error::VaultError;
pub use self::record::EncryptedData;
pub use self::service::{
    health, metrics, retrieve_entities, store_entities, store_sealed, HealthStatus, Metrics,
    VaultState,
};
pub use self::store::{cleanup_expired, TtlStore};
