//! Resolution of the environment-sourced options.
//!
//! The caller reads each recognized environment variable once at
//! startup and hands the raw values in; these functions decide the
//! effective value of each option, including its default.

use vstd::prelude::*;
use vstd::string::*;

verus! {

/// The membrane-proof service used when none is configured.
pub open spec fn default_mem_proof_server_url() -> Seq<char> {
    "https://test-membrane-proof-service.holo.host"@
}

/// The registration marker path used when none is configured.
pub open spec fn default_mem_proof_path() -> Seq<char> {
    "/var/lib/configure-holochain/mem-proof"@
}

/// The overlay-auth marker path used when none is configured.
pub open spec fn default_zt_auth_done_notification_path() -> Seq<char> {
    "/var/lib/holo-auth/zt-auth-done-notification"@
}

/// The base URL of the membrane-proof service: the configured value,
/// or the test service when none is set.
pub fn mem_proof_server_url(configured: Option<String>) -> (r: String)
    ensures
        configured matches Some(url) ==> r@ == url@,
        configured is None ==> r@ == default_mem_proof_server_url(),
{
    match configured {
        Some(url) => url,
        None => "https://test-membrane-proof-service.holo.host".to_owned(),
    }
}

/// The path of the registration marker file: the configured value, or
/// the default location.
pub fn mem_proof_path(configured: Option<String>) -> (r: String)
    ensures
        configured matches Some(path) ==> r@ == path@,
        configured is None ==> r@ == default_mem_proof_path(),
{
    match configured {
        Some(path) => path,
        None => "/var/lib/configure-holochain/mem-proof".to_owned(),
    }
}

/// The path of the overlay-auth marker file: the configured value, or
/// the default location.
pub fn zt_auth_done_notification_path(configured: Option<String>) -> (r: String)
    ensures
        configured matches Some(path) ==> r@ == path@,
        configured is None ==> r@ == default_zt_auth_done_notification_path(),
{
    match configured {
        Some(path) => path,
        None => "/var/lib/holo-auth/zt-auth-done-notification".to_owned(),
    }
}

/// Whether the development-network escape hatch is active: the
/// network name is set and reads `devNet`.
pub fn is_dev_network(holo_network: Option<&String>) -> (r: bool)
    ensures
        r == (holo_network matches Some(n) && n@ == "devNet"@),
{
    match holo_network {
        Some(network) => *network == "devNet".to_owned(),
        None => false,
    }
}

/// Whether the overlay-registration phase should run at all: the
/// reported overlay status reads `ACCESS_DENIED`.
pub fn zt_should_exec(zt_status: Option<&String>) -> (r: bool)
    ensures
        r == (zt_status matches Some(s) && s@ == "ACCESS_DENIED"@),
{
    match zt_status {
        Some(status) => *status == "ACCESS_DENIED".to_owned(),
        None => false,
    }
}

/// The registration authority's register-user endpoint under the
/// given service base URL.
pub fn register_user_endpoint(base: &String) -> (r: String)
    ensures
        r@ == base@ + "/register-user/"@,
{
    let mut url = base.clone();
    url.append("/register-user/");
    url
}

/// The overlay-registration endpoint under the given auth-server base
/// URL.
pub fn zt_registration_endpoint(base: &String) -> (r: String)
    ensures
        r@ == base@ + "/v1/zt_registration"@,
{
    let mut url = base.clone();
    url.append("/v1/zt_registration");
    url
}

/// The notification endpoint under the given auth-server base URL.
pub fn notify_endpoint(base: &String) -> (r: String)
    ensures
        r@ == base@ + "/v1/notify"@,
{
    let mut url = base.clone();
    url.append("/v1/notify");
    url
}

} // verus!
