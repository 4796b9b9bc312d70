//! The failures of the vault and how each is reported to a caller.

use vstd::prelude::*;

verus! {

/// Why a vault operation failed.
#[derive(Debug, Clone, Copy, PartialEq, Eq, Structural)]
pub enum VaultError {
    /// The master key is not exactly 32 bytes long.
    Key,
    /// The cipher or the random source failed while sealing.
    Encryption,
    /// The nonce has the wrong length, the key is malformed or the integrity
    /// tag does not verify.
    Decryption,
    /// The entities handed in could not be encoded.
    Serialization,
    /// A stored payload opened but does not decode to an entity sequence.
    Deserialization,
    /// Nothing live is stored under the request id.
    NotFound,
}

/// The status of a request that succeeded.
pub const STATUS_OK: u16 = 200;

impl VaultError {
    /// The status that reports this failure: a request for an id that is
    /// unknown or expired is answered with 404, input that cannot be encoded
    /// with 400, and every internal failure with 500.
    pub open spec fn status(self) -> u16 {
        match self {
            VaultError::NotFound => 404,
            VaultError::Serialization => 400,
            VaultError::Key => 500,
            VaultError::Encryption => 500,
            VaultError::Decryption => 500,
            VaultError::Deserialization => 500,
        }
    }

    /// Computes [`VaultError::status`].
    pub fn status_code(&self) -> (code: u16)
        ensures
            code == self.status(),
    {
        match self {
            VaultError::NotFound => 404,
            VaultError::Serialization => 400,
            VaultError::Key => 500,
            VaultError::Encryption => 500,
            VaultError::Decryption => 500,
            VaultError::Deserialization => 500,
        }
    }

    /// Not finding a record is the one routine outcome among the failures;
    /// every other one is worth an error entry in a log.
    pub fn is_routine(&self) -> (routine: bool)
        ensures
            routine == (*self == VaultError::NotFound),
    {
        match self {
            VaultError::NotFound => true,
            _ => false,
        }
    }

    /// The text that reports this failure.
    pub open spec fn text(self) -> Seq<char> {
        match self {
            VaultError::Key => "Key creation failed"@,
            VaultError::Encryption => "Encryption failed"@,
            VaultError::Decryption => "Decryption failed"@,
            VaultError::Serialization => "Serialization failed"@,
            VaultError::Deserialization => "Deserialization failed"@,
            VaultError::NotFound => "Request ID not found"@,
        }
    }

    /// Computes [`VaultError::text`].
    pub fn message(&self) -> (message: String)
        ensures
            message@ == self.text(),
    {
        match self {
            VaultError::Key => "Key creation failed".to_owned(),
            VaultError::Encryption => "Encryption failed".to_owned(),
            VaultError::Decryption => "Decryption failed".to_owned(),
            VaultError::Serialization => "Serialization failed".to_owned(),
            VaultError::Deserialization => "Deserialization failed".to_owned(),
            VaultError::NotFound => "Request ID not found".to_owned(),
        }
    }
}

} // verus!
