//! Inert configuration: what the command-line layer hands over, and the
//! conversion that consumes it to yield a vault plus the shared data
//! configuration.

use vstd::prelude::*;
use crate::errors::GoogleError;
use crate::vault::GoogleVault;

verus! {

/// Shared data configuration, opaque to this core: it is produced by the
/// command-line layer and passed through `into_vault` untouched.
pub struct DataConfig {
}

/// Configuration of the Google Secret Manager backend.
pub struct GoogleConfig {
    /// Shared data configuration, passed through untouched.
    pub data: DataConfig,
    /// The path to a credentials file. Leave blank to use the default
    /// credentials resolution.
    pub credentials_file: Option<String>,
    /// The Google project to use.
    pub project: String,
}

impl GoogleConfig {
    /// Consumes the configuration and builds the vault; this never fails,
    /// and the vault keeps the credential path and project exactly as
    /// configured.
    pub fn into_vault(self) -> (r: Result<(GoogleVault, DataConfig), GoogleError>)
        ensures
            r matches Ok(p) && p.0.credentials_file == self.credentials_file
                && p.0.project == self.project && p.1 == self.data,
    {
        let vault = GoogleVault {
            credentials_file: self.credentials_file,
            project: self.project,
        };
        Ok((vault, self.data))
    }
}

} // verus!
