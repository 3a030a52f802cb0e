//! The error taxonomy of the vault: every failure of a retrieval call is
//! surfaced as one of these kinds, with enough structure to tell
//! configuration problems from transport problems from data problems.

use vstd::prelude::*;

verus! {

/// The status a remote call failed with: the numeric gRPC status code and
/// the message the service attached to it.
#[derive(Debug, Clone)]
pub struct GrpcStatus {
    /// The numeric gRPC status code (for example 5 for NOT_FOUND).
    pub code: u32,
    /// The diagnostic message carried by the status.
    pub message: String,
}

/// Every way a vault operation can fail.
#[derive(Debug)]
pub enum GoogleError {
    /// Channel construction, TLS negotiation, or the connection handshake
    /// failed; the transport's own description is kept for diagnostics.
    TonicError(String),
    /// The credential source was malformed, missing required fields, or
    /// inaccessible; the resolver's own description is kept.
    ConfigurationError(String),
    /// The secret-storage service answered the call with a non-success
    /// status; that status is carried unchanged.
    SecretManagerError(GrpcStatus),
    /// The call succeeded but the response carried no usable payload.
    EmptySecret,
    /// The payload was not valid JSON, or did not match the decoding
    /// contract for environment entries.
    DecodeError(String),
    /// The requested capability is not implemented by this backend.
    Unimplemented,
}

impl GoogleError {
    /// A short description of the error kind, for diagnostics.
    pub fn describe(&self) -> (r: String)
        ensures
            r@ == self.describe_spec(),
    {
        let text: &str = match self {
            GoogleError::TonicError(_) => "Tonic configuration error",
            GoogleError::ConfigurationError(_) => "Google SA configuration is invalid",
            GoogleError::SecretManagerError(_) => "cannot load secret from Secret Manager",
            GoogleError::EmptySecret => "the secret is empty",
            GoogleError::DecodeError(_) => "cannot decode the secret payload",
            GoogleError::Unimplemented => "not implemented",
        };
        String::from_str(text)
    }

    /// What `describe` returns for each error kind.
    pub open spec fn describe_spec(&self) -> Seq<char> {
        match self {
            GoogleError::TonicError(_) => "Tonic configuration error"@,
            GoogleError::ConfigurationError(_) => "Google SA configuration is invalid"@,
            GoogleError::SecretManagerError(_) => "cannot load secret from Secret Manager"@,
            GoogleError::EmptySecret => "the secret is empty"@,
            GoogleError::DecodeError(_) => "cannot decode the secret payload"@,
            GoogleError::Unimplemented => "not implemented"@,
        }
    }
}

} // verus!
