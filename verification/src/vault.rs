//! The Google Secret Manager backend: the vault's identity (credential
//! source and project), the fixed secure-channel target, the resource name
//! of the addressed secret version, and the capabilities whose outcome is
//! decided locally.

use vstd::prelude::*;
use crate::errors::{GoogleError, GrpcStatus};

verus! {

/// The Google Secret Manager vault backend. Each retrieval call is
/// self-contained: it re-resolves credentials and re-establishes the
/// channel; nothing is cached across calls.
pub struct GoogleVault {
    /// The path to a credentials file, when one was configured.
    pub credentials_file: Option<String>,
    /// The Google project whose secrets are addressed.
    pub project: String,
}

/// Where the bearer credential is to be resolved from.
pub enum CredentialSource {
    /// Build the credential from this file's contents.
    File(String),
    /// Resolve credentials via the ambient default discovery chain
    /// (environment variables, local metadata service, or the platform
    /// default credential chain).
    Ambient,
}

impl CredentialSource {
    /// The credential-file path this source reads, if any.
    pub open spec fn path(&self) -> Option<Seq<char>> {
        match self {
            CredentialSource::File(p) => Some(p@),
            CredentialSource::Ambient => None,
        }
    }
}

/// The fixed endpoint URL of the secret-storage service.
pub open spec fn endpoint_spec() -> Seq<char> {
    "https://secretmanager.googleapis.com"@
}

/// The domain name the server's certificate is validated against.
pub open spec fn domain_name_spec() -> Seq<char> {
    "secretmanager.googleapis.com"@
}

/// The fixed endpoint URL of the secret-storage service.
pub fn secret_manager_endpoint() -> (r: &'static str)
    ensures
        r@ == endpoint_spec(),
{
    "https://secretmanager.googleapis.com"
}

/// The domain name the server's certificate is validated against.
pub fn secret_manager_domain_name() -> (r: &'static str)
    ensures
        r@ == domain_name_spec(),
{
    "secretmanager.googleapis.com"
}

/// The resource name that addresses the latest version of one secret of
/// one project.
pub open spec fn secret_version_path_spec(project: Seq<char>, secret_name: Seq<char>) -> Seq<char> {
    "projects/"@ + project + "/secrets/"@ + secret_name + "/versions/latest"@
}

impl GoogleVault {
    /// The credential source of this vault: the configured file when one
    /// is present, the ambient default chain otherwise.
    pub fn credential_source(&self) -> (r: CredentialSource)
        ensures
            r.path() == match self.credentials_file {
                Some(p) => Some::<Seq<char>>(p@),
                None => None::<Seq<char>>,
            },
    {
        match &self.credentials_file {
            Some(p) => CredentialSource::File(p.clone()),
            None => CredentialSource::Ambient,
        }
    }

    /// The resource name of the latest version of `secret_name` in this
    /// vault's project.
    pub fn secret_version_path(&self, secret_name: &str) -> (r: String)
        ensures
            r@ =~= secret_version_path_spec(self.project@, secret_name@),
    {
        let mut out = String::from_str("projects/");
        out.append(self.project.as_str());
        out.append("/secrets/");
        out.append(secret_name);
        out.append("/versions/latest");
        out
    }

    /// Retrieval of all secrets sharing a name prefix: an explicitly
    /// unimplemented capability of this backend. It fails for every input,
    /// including the empty prefix.
    pub fn download_prefixed(&self, prefix: &str) -> (r: Result<Vec<(String, String)>, GoogleError>)
        ensures
            r matches Err(e) && e is Unimplemented,
    {
        let _ = prefix;
        Err(GoogleError::Unimplemented)
    }
}

/// The per-request authentication decision of the interceptor: given the
/// outcome of rendering the credential to its header string, either the
/// value to insert under the `authorization` header, or the unknown-status
/// failure of that one request (the client itself is not failed).
pub fn authorization_header(rendered: Result<String, String>) -> (r: Result<String, GrpcStatus>)
    ensures
        rendered matches Ok(h) ==> r matches Ok(v) && v == h,
        rendered matches Err(m) ==> r matches Err(s) && s.code == grpc_unknown_code()
            && s.message == m,
{
    match rendered {
        Ok(h) => Ok(h),
        Err(m) => Err(GrpcStatus { code: 2, message: m }),
    }
}

/// The numeric gRPC status code for `unknown`.
pub open spec fn grpc_unknown_code() -> u32 {
    2
}

} // verus!
