use secret_env::config::{DataConfig, GoogleConfig};
use secret_env::errors::{GoogleError, GrpcStatus};
use secret_env::json::decode_env_from_json;
use secret_env::machine::{VaultAction, VaultEvent, VaultState};
use secret_env::vault::{
    secret_manager_domain_name, secret_manager_endpoint, CredentialSource, GoogleVault,
};

fn test_vault() -> GoogleVault {
    let config = GoogleConfig {
        data: DataConfig {},
        credentials_file: None,
        project: "proj-1".to_string(),
    };
    let (vault, _data) = config.into_vault().unwrap();
    vault
}

/// Drives one whole download_json call against a mocked remote outcome and
/// returns the result together with how often each action was requested.
fn drive_call(
    vault: &GoogleVault,
    secret_name: &str,
    credential_outcome: Result<(), String>,
    channel_outcome: Result<(), String>,
    call_outcome: Result<Option<Vec<u8>>, GrpcStatus>,
) -> (Result<Vec<(String, String)>, GoogleError>, usize, usize) {
    let mut resolves: usize = 0;
    let mut connects: usize = 0;
    let mut state = VaultState::Start;
    let mut event = VaultEvent::Begin;
    loop {
        let (next, action) = vault.download_step(secret_name, state, event);
        state = next;
        match action {
            VaultAction::ResolveCredentials(_source) => {
                resolves += 1;
                event = VaultEvent::CredentialsResolved(credential_outcome.clone());
            }
            VaultAction::ConnectChannel => {
                connects += 1;
                event = VaultEvent::ChannelConnected(channel_outcome.clone());
            }
            VaultAction::AccessSecretVersion { resource: _ } => {
                event = VaultEvent::CallCompleted(call_outcome.clone());
            }
            VaultAction::Finish => {
                match state {
                    VaultState::Finished(result) => return (result, resolves, connects),
                    _ => panic!("the machine finished outside the finished state"),
                }
            }
        }
    }
}

fn mocked_success(payload: Option<Vec<u8>>) -> (Result<Vec<(String, String)>, GoogleError>, usize, usize) {
    let vault = test_vault();
    drive_call(&vault, "db-password", Ok(()), Ok(()), Ok(payload))
}

#[test]
fn scenario_db_password_payload_decodes() {
    let payload = b"{\"DB_PASS\":\"secret123\"}".to_vec();
    let (result, _, _) = mocked_success(Some(payload));
    let pairs = result.unwrap();
    assert_eq!(
        pairs,
        vec![("DB_PASS".to_string(), "secret123".to_string())]
    );
}

#[test]
fn scenario_absent_payload_is_empty_secret() {
    let (result, _, _) = mocked_success(None);
    assert!(matches!(result, Err(GoogleError::EmptySecret)));
}

#[test]
fn empty_payload_bytes_are_empty_secret_not_empty_mapping() {
    let (result, _, _) = mocked_success(Some(Vec::new()));
    assert!(matches!(result, Err(GoogleError::EmptySecret)));
}

#[test]
fn non_success_status_is_remote_call_error_with_that_status() {
    let vault = test_vault();
    let status = GrpcStatus {
        code: 5,
        message: "secret not found".to_string(),
    };
    let (result, _, _) = drive_call(&vault, "db-password", Ok(()), Ok(()), Err(status));
    match result {
        Err(GoogleError::SecretManagerError(s)) => {
            assert_eq!(s.code, 5);
            assert_eq!(s.message, "secret not found");
        }
        other => panic!("expected the remote status to be carried, got {:?}", describe_outcome(&other)),
    }
}

#[test]
fn credential_failure_is_configuration_error_and_builds_no_channel() {
    let vault = test_vault();
    let (result, resolves, connects) = drive_call(
        &vault,
        "db-password",
        Err("credentials file is malformed".to_string()),
        Ok(()),
        Ok(None),
    );
    match result {
        Err(GoogleError::ConfigurationError(m)) => {
            assert_eq!(m, "credentials file is malformed");
        }
        other => panic!("expected a configuration error, got {:?}", describe_outcome(&other)),
    }
    assert_eq!(resolves, 1);
    assert_eq!(connects, 0);
}

#[test]
fn transport_failure_is_tonic_error() {
    let vault = test_vault();
    let (result, _, _) = drive_call(
        &vault,
        "db-password",
        Ok(()),
        Err("handshake failed".to_string()),
        Ok(None),
    );
    match result {
        Err(GoogleError::TonicError(m)) => assert_eq!(m, "handshake failed"),
        other => panic!("expected a transport error, got {:?}", describe_outcome(&other)),
    }
}

#[test]
fn each_call_builds_a_fresh_channel_and_token() {
    let vault = test_vault();
    let payload = b"{\"DB_PASS\":\"secret123\"}".to_vec();
    let (first, resolves1, connects1) =
        drive_call(&vault, "db-password", Ok(()), Ok(()), Ok(Some(payload.clone())));
    let (second, resolves2, connects2) =
        drive_call(&vault, "db-password", Ok(()), Ok(()), Ok(Some(payload)));
    assert!(first.is_ok());
    assert!(second.is_ok());
    assert_eq!((resolves1, connects1), (1, 1));
    assert_eq!((resolves2, connects2), (1, 1));
}

#[test]
fn download_prefixed_is_unimplemented_for_every_input() {
    let vault = test_vault();
    assert!(matches!(
        vault.download_prefixed(""),
        Err(GoogleError::Unimplemented)
    ));
    assert!(matches!(
        vault.download_prefixed("db-"),
        Err(GoogleError::Unimplemented)
    ));
}

#[test]
fn secret_version_path_addresses_the_latest_version() {
    let vault = test_vault();
    assert_eq!(
        vault.secret_version_path("db-password"),
        "projects/proj-1/secrets/db-password/versions/latest"
    );
}

#[test]
fn access_action_carries_the_resource_name() {
    let vault = test_vault();
    let (state, _action) = vault.download_step("db-password", VaultState::Start, VaultEvent::Begin);
    let (state, _action) = vault.download_step(
        "db-password",
        state,
        VaultEvent::CredentialsResolved(Ok(())),
    );
    let (_state, action) = vault.download_step(
        "db-password",
        state,
        VaultEvent::ChannelConnected(Ok(())),
    );
    match action {
        VaultAction::AccessSecretVersion { resource } => {
            assert_eq!(resource, "projects/proj-1/secrets/db-password/versions/latest");
        }
        _ => panic!("expected the access action"),
    }
}

#[test]
fn channel_target_is_the_fixed_endpoint() {
    assert_eq!(
        secret_manager_endpoint(),
        "https://secretmanager.googleapis.com"
    );
    assert_eq!(secret_manager_domain_name(), "secretmanager.googleapis.com");
}

#[test]
fn credential_source_prefers_the_configured_file() {
    let with_file = GoogleVault {
        credentials_file: Some("/tmp/creds.json".to_string()),
        project: "proj-1".to_string(),
    };
    match with_file.credential_source() {
        CredentialSource::File(p) => assert_eq!(p, "/tmp/creds.json"),
        CredentialSource::Ambient => panic!("expected the configured file"),
    }
    let without_file = GoogleVault {
        credentials_file: None,
        project: "proj-1".to_string(),
    };
    assert!(matches!(
        without_file.credential_source(),
        CredentialSource::Ambient
    ));
}

#[test]
fn into_vault_keeps_path_and_project() {
    let config = GoogleConfig {
        data: DataConfig {},
        credentials_file: Some("/etc/sa.json".to_string()),
        project: "proj-2".to_string(),
    };
    let (vault, _data) = config.into_vault().unwrap();
    assert_eq!(vault.credentials_file, Some("/etc/sa.json".to_string()));
    assert_eq!(vault.project, "proj-2");
}

#[test]
fn decode_reads_the_object_entries_in_key_order() {
    let bytes = b"{\"B_KEY\":\"two\",\"A_KEY\":\"one\"}".to_vec();
    let pairs = decode_env_from_json("cfg", &bytes).unwrap();
    assert_eq!(
        pairs,
        vec![
            ("A_KEY".to_string(), "one".to_string()),
            ("B_KEY".to_string(), "two".to_string()),
        ]
    );
}

#[test]
fn decode_rejects_bytes_that_are_not_json() {
    let bytes = b"not json at all".to_vec();
    assert!(matches!(
        decode_env_from_json("cfg", &bytes),
        Err(GoogleError::DecodeError(_))
    ));
}

#[test]
fn decode_rejects_a_non_object_document() {
    let bytes = b"[\"DB_PASS\"]".to_vec();
    assert!(matches!(
        decode_env_from_json("cfg", &bytes),
        Err(GoogleError::DecodeError(_))
    ));
}

#[test]
fn decode_rejects_a_non_string_value() {
    let bytes = b"{\"DB_PASS\":5}".to_vec();
    match decode_env_from_json("cfg", &bytes) {
        Err(GoogleError::DecodeError(m)) => {
            assert!(m.contains("cfg"));
        }
        _ => panic!("expected a decode error"),
    }
}

#[test]
fn empty_object_decodes_to_no_entries() {
    let bytes = b"{}".to_vec();
    let pairs = decode_env_from_json("cfg", &bytes).unwrap();
    assert!(pairs.is_empty());
}

#[test]
fn errors_describe_their_kind() {
    assert_eq!(
        GoogleError::EmptySecret.describe(),
        "the secret is empty"
    );
    assert_eq!(
        GoogleError::ConfigurationError("x".to_string()).describe(),
        "Google SA configuration is invalid"
    );
    assert_eq!(
        GoogleError::TonicError("x".to_string()).describe(),
        "Tonic configuration error"
    );
    assert_eq!(
        GoogleError::SecretManagerError(GrpcStatus {
            code: 5,
            message: "x".to_string()
        })
        .describe(),
        "cannot load secret from Secret Manager"
    );
    assert_eq!(
        GoogleError::Unimplemented.describe(),
        "not implemented"
    );
}

fn describe_outcome(outcome: &Result<Vec<(String, String)>, GoogleError>) -> String {
    match outcome {
        Ok(pairs) => format!("ok with {} pairs", pairs.len()),
        Err(e) => e.describe(),
    }
}
