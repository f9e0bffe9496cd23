use holo_auth::config::AdminSettings;
use holo_auth::config::Configuration;
use holo_auth::registration::RegisterOutcome;
use holo_auth::registration::RegisterStart;
use holo_auth::registration::RegistrationError;
use holo_auth::registration::RegistrationResponse;
use holo_auth::registration::register_begin;
use holo_auth::registration::register_conclude;
use holo_auth::AuthError;

fn v2_config() -> Configuration {
    Configuration::V2 {
        registration_code: "code-123".to_owned(),
        settings: AdminSettings { email: "admin@example.com".to_owned() },
    }
}

fn v1_config() -> Configuration {
    Configuration::V1 { settings: AdminSettings { email: "admin@example.com".to_owned() } }
}

#[test]
fn v2_config_yields_registration_request() {
    let key = vec![7u8; 32];
    match register_begin(&v2_config(), &key) {
        RegisterStart::Send { request } => {
            assert_eq!(request.registration_code, "code-123");
            assert_eq!(request.email, "admin@example.com");
            assert_eq!(request.payload.role, "host");
            // The encoded key is the agent form of the device key,
            // rendered the way the authority expects it.
            let expected = holo_hash::AgentPubKey::from_raw_32(key.clone()).to_string();
            assert_eq!(request.agent_pub_key, expected);
            assert!(request.agent_pub_key.starts_with('u'));
        }
        RegisterStart::Reject { .. } => panic!("a V2 record must register"),
    }
}

#[test]
fn v1_config_is_rejected_with_notification() {
    let key = vec![7u8; 32];
    match register_begin(&v1_config(), &key) {
        RegisterStart::Reject { notification, error } => {
            assert_eq!(notification.email, "admin@example.com");
            assert!(!notification.success);
            assert_eq!(
                notification.data,
                "Error: Invalid config version used. please upgrade to hpos-config v2"
            );
            assert!(matches!(error, AuthError::ConfigVersionError));
        }
        RegisterStart::Send { .. } => panic!("a V1 record cannot register"),
    }
}

#[test]
fn accepted_response_writes_proof_to_marker() {
    let email = "admin@example.com".to_owned();
    let response = RegistrationResponse::Accepted { mem_proof: "abc123".to_owned() };
    match register_conclude(&email, response) {
        RegisterOutcome::Complete { marker_content } => {
            assert_eq!(marker_content, "abc123");
        }
        RegisterOutcome::Failed { .. } => panic!("an accepted response completes"),
    }
}

#[test]
fn rejected_response_notifies_and_fails() {
    let email = "admin@example.com".to_owned();
    let body = RegistrationError {
        error: "bad_code".to_owned(),
        is_displayed_to_user: true,
        info: "expired".to_owned(),
    };
    let response = RegistrationResponse::Rejected { error: body };
    match register_conclude(&email, response) {
        RegisterOutcome::Failed { notification, error } => {
            assert_eq!(notification.email, "admin@example.com");
            assert!(!notification.success);
            match error {
                AuthError::RegistrationError(m) => {
                    assert_eq!(m, "Error: bad_code, More Info: expired");
                    assert!(m.contains("bad_code"));
                    assert!(m.contains("expired"));
                    assert_eq!(notification.data, m);
                }
                _ => panic!("expected RegistrationError"),
            }
        }
        RegisterOutcome::Complete { .. } => panic!("a rejected response fails"),
    }
}

#[test]
fn rejection_body_message_names_error_and_info() {
    let body = RegistrationError {
        error: "E42".to_owned(),
        is_displayed_to_user: false,
        info: "try later".to_owned(),
    };
    assert_eq!(body.message(), "Error: E42, More Info: try later");
}

#[test]
fn auth_error_messages() {
    assert_eq!(
        AuthError::ConfigVersionError.message(),
        "Error: Invalid config version used. please upgrade to hpos-config v2"
    );
    assert_eq!(
        AuthError::RegistrationError("no".to_owned()).message(),
        "Registration Error: no"
    );
    assert_eq!(
        AuthError::ZtRegistrationError("down".to_owned()).message(),
        "ZtRegistration Error: down"
    );
    assert_eq!(
        AuthError::InitializationError("bad".to_owned()).message(),
        "InitializationError Error: bad"
    );
}

#[test]
fn capability_query_follows_version() {
    assert!(v2_config().supports_registration_authority());
    assert!(!v1_config().supports_registration_authority());
    assert_eq!(v2_config().email(), "admin@example.com");
    assert_eq!(v1_config().email(), "admin@example.com");
}
