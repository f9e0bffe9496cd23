use holo_auth::options::is_dev_network;
use holo_auth::options::mem_proof_path;
use holo_auth::options::mem_proof_server_url;
use holo_auth::options::notify_endpoint;
use holo_auth::options::register_user_endpoint;
use holo_auth::options::zt_auth_done_notification_path;
use holo_auth::options::zt_registration_endpoint;
use holo_auth::options::zt_should_exec;

#[test]
fn server_url_defaults_to_test_service() {
    assert_eq!(
        mem_proof_server_url(None),
        "https://test-membrane-proof-service.holo.host"
    );
    assert_eq!(
        mem_proof_server_url(Some("https://proof.example".to_owned())),
        "https://proof.example"
    );
}

#[test]
fn marker_paths_have_defaults() {
    assert_eq!(mem_proof_path(None), "/var/lib/configure-holochain/mem-proof");
    assert_eq!(mem_proof_path(Some("/tmp/proof".to_owned())), "/tmp/proof");
    assert_eq!(
        zt_auth_done_notification_path(None),
        "/var/lib/holo-auth/zt-auth-done-notification"
    );
    assert_eq!(
        zt_auth_done_notification_path(Some("/tmp/zt-done".to_owned())),
        "/tmp/zt-done"
    );
}

#[test]
fn dev_network_flag_reads_dev_net() {
    assert!(is_dev_network(Some(&"devNet".to_owned())));
    assert!(!is_dev_network(Some(&"mainNet".to_owned())));
    assert!(!is_dev_network(Some(&"".to_owned())));
    assert!(!is_dev_network(None));
}

#[test]
fn overlay_phase_runs_only_on_access_denied() {
    assert!(zt_should_exec(Some(&"ACCESS_DENIED".to_owned())));
    assert!(!zt_should_exec(Some(&"OK".to_owned())));
    assert!(!zt_should_exec(Some(&"".to_owned())));
    assert!(!zt_should_exec(None));
}

#[test]
fn endpoints_extend_their_base_url() {
    let base = "https://auth.example".to_owned();
    assert_eq!(register_user_endpoint(&base), "https://auth.example/register-user/");
    assert_eq!(zt_registration_endpoint(&base), "https://auth.example/v1/zt_registration");
    assert_eq!(notify_endpoint(&base), "https://auth.example/v1/notify");
}
