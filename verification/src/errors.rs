//! Error taxonomy of the gateway, with the mapping from each kind to the
//! HTTP status, the user-visible message, and the server-side log detail.
//!
//! The user-visible text for the configuration-class kinds is a generic
//! "Internal Server Error", so that trust-material state is never leaked to
//! a caller; the precise reason is available separately for logging.

use vstd::prelude::*;

verus! {

/// Why a request was refused by the authentication or authorization layer.
#[derive(Clone, Copy, Debug, PartialEq, Eq, Structural)]
pub enum AuthError {
    /// The required credential header is absent from the request.
    MissingAuthHeader,
    /// A verified identity lacks the required permission, or the token's
    /// embedded secret does not match the store's current secret.
    Unauthorized,
    /// Structure or signature verification of a credential failed, or the
    /// credential is expired.
    InvalidToken,
    /// The server-side decoding key for end-user tokens is not configured.
    MissingDecodingKey,
    /// The credential is present but malformed, or the secret store binding
    /// is unavailable.
    MissingTokens,
    /// The queue-callback signing key is not configured, or the secret store
    /// holds no record for the client.
    MissingQStashKey,
}

impl AuthError {
    /// The user-visible reason string for this error kind.
    pub open spec fn message_spec(self) -> Seq<char> {
        match self {
            AuthError::MissingAuthHeader => "Missing Authorization Header"@,
            AuthError::Unauthorized => "Unauthorized"@,
            AuthError::InvalidToken => "Invalid Token"@,
            AuthError::MissingQStashKey => "Internal Server Error"@,
            AuthError::MissingDecodingKey => "Internal Server Error"@,
            AuthError::MissingTokens => "Internal Server Error"@,
        }
    }

    /// The text sent to the caller alongside the HTTP status.
    pub fn message(&self) -> (r: String)
        ensures
            r@ == self.message_spec(),
    {
        match self {
            AuthError::MissingAuthHeader => "Missing Authorization Header".to_owned(),
            AuthError::Unauthorized => "Unauthorized".to_owned(),
            AuthError::InvalidToken => "Invalid Token".to_owned(),
            AuthError::MissingQStashKey => "Internal Server Error".to_owned(),
            AuthError::MissingDecodingKey => "Internal Server Error".to_owned(),
            AuthError::MissingTokens => "Internal Server Error".to_owned(),
        }
    }

    /// The HTTP status this error kind maps to: 401 for authentication
    /// failures, 403 for authorization failures, 500 for server-side
    /// misconfiguration.
    pub open spec fn http_status_spec(self) -> u16 {
        match self {
            AuthError::MissingAuthHeader => 401u16,
            AuthError::Unauthorized => 403u16,
            AuthError::InvalidToken => 401u16,
            AuthError::MissingQStashKey => 500u16,
            AuthError::MissingDecodingKey => 500u16,
            AuthError::MissingTokens => 500u16,
        }
    }

    /// The HTTP status for this error kind.
    pub fn http_status(&self) -> (r: u16)
        ensures
            r == self.http_status_spec(),
    {
        match self {
            AuthError::MissingAuthHeader => 401,
            AuthError::Unauthorized => 403,
            AuthError::InvalidToken => 401,
            AuthError::MissingQStashKey => 500,
            AuthError::MissingDecodingKey => 500,
            AuthError::MissingTokens => 500,
        }
    }

    /// The precise reason, kept out of responses and meant for server-side
    /// logs only.
    pub open spec fn log_detail_spec(self) -> Seq<char> {
        match self {
            AuthError::MissingAuthHeader => "Missing Authorization Header"@,
            AuthError::Unauthorized => "Unauthorized"@,
            AuthError::InvalidToken => "Invalid Token"@,
            AuthError::MissingQStashKey => "Missing QStash Signing key"@,
            AuthError::MissingDecodingKey => "Missing Decoding Key"@,
            AuthError::MissingTokens => "Missing Tokens"@,
        }
    }

    /// The server-side log detail for this error kind.
    pub fn log_detail(&self) -> (r: String)
        ensures
            r@ == self.log_detail_spec(),
    {
        match self {
            AuthError::MissingAuthHeader => "Missing Authorization Header".to_owned(),
            AuthError::Unauthorized => "Unauthorized".to_owned(),
            AuthError::InvalidToken => "Invalid Token".to_owned(),
            AuthError::MissingQStashKey => "Missing QStash Signing key".to_owned(),
            AuthError::MissingDecodingKey => "Missing Decoding Key".to_owned(),
            AuthError::MissingTokens => "Missing Tokens".to_owned(),
        }
    }
}

/// Failures of the key-value storage layer that backs the read path.
#[derive(Clone, Copy, Debug, PartialEq, Eq, Structural)]
pub enum StorageError {
    /// The key-value store binding could not be resolved.
    KvStorageNotFound,
    /// A key-value operation failed.
    KvOperationFailed,
    /// Connecting to the backing database failed.
    DbConnectionFailed,
    /// Writing to the backing database failed.
    DbInsertFailed,
}

impl StorageError {
    /// The reason string for this storage failure.
    pub open spec fn message_spec(self) -> Seq<char> {
        match self {
            StorageError::KvStorageNotFound => "Kv Storage Not Found"@,
            StorageError::KvOperationFailed => "Kv Operation Failed"@,
            StorageError::DbConnectionFailed => "Db Connection Failed"@,
            StorageError::DbInsertFailed => "Db Insert Failed"@,
        }
    }

    /// The reason string for this storage failure.
    pub fn message(&self) -> (r: String)
        ensures
            r@ == self.message_spec(),
    {
        match self {
            StorageError::KvStorageNotFound => "Kv Storage Not Found".to_owned(),
            StorageError::KvOperationFailed => "Kv Operation Failed".to_owned(),
            StorageError::DbConnectionFailed => "Db Connection Failed".to_owned(),
            StorageError::DbInsertFailed => "Db Insert Failed".to_owned(),
        }
    }
}

} // verus!
