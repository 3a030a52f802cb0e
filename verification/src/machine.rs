//! The retrieval flow of one `download_json` call, as a linear state
//! machine: the vault decides each next step and emits an action; the
//! unverified driver performs the action (credential resolution, channel
//! handshake, the one remote call) and feeds the outcome back as an event.
//! The machine orders credentials before the channel, builds the channel
//! exactly once per call, and maps every failure to its error kind.

use vstd::prelude::*;
use crate::errors::{GoogleError, GrpcStatus};
use crate::json::{all_string_values, decode_env_from_json, env_pairs, json_object_entries, pairs_view};
use crate::vault::{CredentialSource, GoogleVault, secret_version_path_spec};

verus! {

/// Where one retrieval call stands.
pub enum VaultState {
    /// Nothing has happened yet.
    Start,
    /// The driver was asked to resolve the credential.
    AwaitingCredentials,
    /// The driver was asked to connect the secure channel.
    AwaitingChannel,
    /// The driver was asked to issue the one remote call.
    AwaitingCall,
    /// The call is over, with its result.
    Finished(Result<Vec<(String, String)>, GoogleError>),
}

/// What the driver reports back to the machine.
pub enum VaultEvent {
    /// The call begins.
    Begin,
    /// Credential resolution finished: `Ok` when a bearer credential is at
    /// hand, `Err` with the resolver's description otherwise.
    CredentialsResolved(Result<(), String>),
    /// The channel handshake finished: `Ok` when the encrypted channel
    /// stands, `Err` with the transport's description otherwise.
    ChannelConnected(Result<(), String>),
    /// The remote call finished: `Ok` with the payload bytes (absent when
    /// the response carried none), `Err` with the non-success status.
    CallCompleted(Result<Option<Vec<u8>>, GrpcStatus>),
}

/// What the machine asks the driver to do next.
pub enum VaultAction {
    /// Resolve a bearer credential from this source.
    ResolveCredentials(CredentialSource),
    /// Connect the encrypted, certificate-validated channel to the fixed
    /// secret-storage endpoint.
    ConnectChannel,
    /// Issue one access call for this secret version resource name, with
    /// the credential attached per request.
    AccessSecretVersion { resource: String },
    /// Nothing is left to do: the state carries the result.
    Finish,
}

/// Which events the machine takes in which state: the flow is linear, and
/// each state answers exactly one kind of event.
pub open spec fn state_accepts(state: VaultState, event: VaultEvent) -> bool {
    match (state, event) {
        (VaultState::Start, VaultEvent::Begin) => true,
        (VaultState::AwaitingCredentials, VaultEvent::CredentialsResolved(_)) => true,
        (VaultState::AwaitingChannel, VaultEvent::ChannelConnected(_)) => true,
        (VaultState::AwaitingCall, VaultEvent::CallCompleted(_)) => true,
        _ => false,
    }
}

/// How a decoded result relates to the payload bytes it came from: `Ok`
/// exactly when the bytes are a JSON object all of whose values are
/// strings, and then the object's `(key, value)` entries in order; a
/// decode error otherwise.
pub open spec fn decode_result_matches(bytes: Seq<u8>, r: Result<Vec<(String, String)>, GoogleError>) -> bool {
    &&& (r matches Ok(v) ==> json_object_entries(bytes) matches Some(entries)
        && all_string_values(entries) && pairs_view(v@) == env_pairs(entries))
    &&& (r matches Err(e) ==> e is DecodeError && (json_object_entries(bytes) matches Some(entries)
        ==> !all_string_values(entries)))
    &&& (r is Ok <==> (json_object_entries(bytes) matches Some(entries) && all_string_values(entries)))
}

/// How a finished result relates to the outcome of the remote call: a
/// non-success status is carried unchanged as `SecretManagerError`; an
/// absent or empty payload is the terminal `EmptySecret`, never an empty
/// mapping; a non-empty payload decodes as `decode_result_matches` says.
pub open spec fn call_outcome_matches(
    outcome: Result<Option<Vec<u8>>, GrpcStatus>,
    r: Result<Vec<(String, String)>, GoogleError>,
) -> bool {
    match outcome {
        Err(status) => r matches Err(e) && e matches GoogleError::SecretManagerError(s) && s == status,
        Ok(None) => r matches Err(e) && e is EmptySecret,
        Ok(Some(bytes)) => if bytes@.len() == 0 {
            r matches Err(e) && e is EmptySecret
        } else {
            decode_result_matches(bytes@, r)
        },
    }
}

/// The transition relation of one retrieval call: what the next state and
/// action are for each state and event the machine accepts.
pub open spec fn step_rel(
    v: GoogleVault,
    secret_name: Seq<char>,
    state: VaultState,
    event: VaultEvent,
    next: VaultState,
    action: VaultAction,
) -> bool {
    match (state, event) {
        (VaultState::Start, VaultEvent::Begin) => {
            &&& next is AwaitingCredentials
            &&& action matches VaultAction::ResolveCredentials(src)
            &&& src.path() == match v.credentials_file {
                Some(p) => Some::<Seq<char>>(p@),
                None => None::<Seq<char>>,
            }
        },
        (VaultState::AwaitingCredentials, VaultEvent::CredentialsResolved(outcome)) => {
            match outcome {
                Ok(_) => next is AwaitingChannel && action is ConnectChannel,
                Err(m) => {
                    &&& next matches VaultState::Finished(Err(e))
                    &&& e matches GoogleError::ConfigurationError(m2) && m2 == m
                    &&& action is Finish
                },
            }
        },
        (VaultState::AwaitingChannel, VaultEvent::ChannelConnected(outcome)) => {
            match outcome {
                Ok(_) => {
                    &&& next is AwaitingCall
                    &&& action matches VaultAction::AccessSecretVersion { resource }
                    &&& resource@ =~= secret_version_path_spec(v.project@, secret_name)
                },
                Err(m) => {
                    &&& next matches VaultState::Finished(Err(e))
                    &&& e matches GoogleError::TonicError(m2) && m2 == m
                    &&& action is Finish
                },
            }
        },
        (VaultState::AwaitingCall, VaultEvent::CallCompleted(outcome)) => {
            &&& next matches VaultState::Finished(r) && call_outcome_matches(outcome, r)
            &&& action is Finish
        },
        _ => false,
    }
}

impl GoogleVault {
    /// One step of the retrieval flow for `secret_name`: takes the current
    /// state and the driver's event, and returns the next state and the
    /// action the driver is to perform, exactly as `step_rel` says.
    pub fn download_step(&self, secret_name: &str, state: VaultState, event: VaultEvent) -> (r: (VaultState, VaultAction))
        requires
            state_accepts(state, event),
        ensures
            step_rel(*self, secret_name@, state, event, r.0, r.1),
    {
        match (state, event) {
            (VaultState::Start, VaultEvent::Begin) => (
                VaultState::AwaitingCredentials,
                VaultAction::ResolveCredentials(self.credential_source()),
            ),
            (VaultState::AwaitingCredentials, VaultEvent::CredentialsResolved(outcome)) => match outcome {
                Ok(_) => (VaultState::AwaitingChannel, VaultAction::ConnectChannel),
                Err(m) => (
                    VaultState::Finished(Err(GoogleError::ConfigurationError(m))),
                    VaultAction::Finish,
                ),
            },
            (VaultState::AwaitingChannel, VaultEvent::ChannelConnected(outcome)) => match outcome {
                Ok(_) => (
                    VaultState::AwaitingCall,
                    VaultAction::AccessSecretVersion { resource: self.secret_version_path(secret_name) },
                ),
                Err(m) => (
                    VaultState::Finished(Err(GoogleError::TonicError(m))),
                    VaultAction::Finish,
                ),
            },
            (VaultState::AwaitingCall, VaultEvent::CallCompleted(outcome)) => match outcome {
                Err(status) => (
                    VaultState::Finished(Err(GoogleError::SecretManagerError(status))),
                    VaultAction::Finish,
                ),
                Ok(None) => (
                    VaultState::Finished(Err(GoogleError::EmptySecret)),
                    VaultAction::Finish,
                ),
                Ok(Some(bytes)) => {
                    if bytes.len() == 0 {
                        (VaultState::Finished(Err(GoogleError::EmptySecret)), VaultAction::Finish)
                    } else {
                        (
                            VaultState::Finished(decode_env_from_json(secret_name, &bytes)),
                            VaultAction::Finish,
                        )
                    }
                },
            },
            _ => {
                proof {
                    assert(false);
                }
                (VaultState::Start, VaultAction::Finish)
            },
        }
    }
}

} // verus!
