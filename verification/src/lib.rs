//! A vault library for retrieving application configuration secrets from
//! Google Secret Manager and decoding them into key/value environment
//! entries.
//!
//! The verified core models the whole retrieval flow: credential-source
//! selection, the fixed secure-channel target, the resource name of the
//! addressed secret version, the linear state machine that orders those
//! steps, and the decoding of a secret payload into environment pairs.
//! The network itself (TLS channel, token resolution, the one gRPC call)
//! is driven by unverified glue that executes the actions this library
//! emits and feeds the outcomes back as events.

pub mod config;
pub mod errors;
pub mod json;
pub mod laws;
pub mod machine;
pub mod vault;

pub use config::DataConfig;
pub use config::GoogleConfig;
pub use errors::GoogleError;
pub use errors::GrpcStatus;
pub use vault::GoogleVault;
