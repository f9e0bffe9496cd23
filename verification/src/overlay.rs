//! The overlay-network registration protocol.
//!
//! One attempt is a single signed request to the authority's
//! overlay-registration endpoint.  The caller reads the local overlay
//! identity fresh for each attempt, serializes and signs the data,
//! and performs the HTTP exchange; these functions decide what the
//! data says, how the signature travels, and what the response means.
//! A confirmed success owes the overlay-auth marker file; a failure
//! is retryable and surfaces as the overlay registration error.

use vstd::prelude::*;
use vstd::string::*;
use crate::AuthError;
use crate::config::Configuration;
use crate::keys;

verus! {

/// The overlay network's node address, as the overlay crate
/// represents it.
#[verifier::external_type_specification]
#[verifier::external_body]
pub struct ExAddress(zerotier_api::Address);

/// The standard base-64 encoding, with padding, of a byte string.
pub uninterp spec fn base64_of(bytes: Seq<u8>) -> Seq<char>;

/// Relies on base64::encode: the standard base-64 rendering of the
/// bytes, a function of the bytes alone.
#[verifier::external_body]
fn base64_encode(bytes: &Vec<u8>) -> (r: String)
    ensures
        r@ == base64_of(bytes@),
{
    base64::encode(bytes)
}

/// The public URL the device is reachable under: its base-36 identity
/// below the development or production host suffix.
pub open spec fn holoport_url_of(identity_key: Seq<u8>, dev_network: bool) -> Seq<char> {
    "https://"@ + keys::base36_of(identity_key) + if dev_network {
        ".holohost.dev"@
    } else {
        ".holohost.net"@
    }
}

/// Build the device's public URL from its identity key.
pub fn get_holoport_url(identity_key: &Vec<u8>, dev_network: bool) -> (r: String)
    ensures
        r@ == holoport_url_of(identity_key@, dev_network),
{
    let mut url = "https://".to_owned();
    let id = keys::base36_encode(identity_key);
    url.append(id.as_str());
    if dev_network {
        url.append(".holohost.dev");
    } else {
        url.append(".holohost.net");
    }
    url
}

/// The data an overlay-registration request carries; its serialized
/// bytes are what the overlay identity signs.
#[derive(Debug)]
pub struct ZtData {
    /// The admin email the registration is filed under.
    pub email: String,
    /// The device identity key, in its base-36 form.
    pub holochain_agent_id: String,
    /// The local overlay network address.
    pub zerotier_address: zerotier_api::Address,
    /// The device's public URL.
    pub holoport_url: String,
}

/// The body of an overlay-registration request: the data and the
/// signature over its serialized bytes.
#[derive(Debug)]
pub struct ZtPayload {
    /// The signed data.
    pub data: ZtData,
    /// The signature, in standard base-64.
    pub signature: String,
}

/// Open an overlay-registration attempt.
///
/// A `V2` record yields the data to sign: the admin email, the
/// base-36 identity of the device key, the overlay address read for
/// this attempt, and the device's public URL.  A `V1` record cannot
/// register on the overlay and fails with the version error at once.
pub fn overlay_begin(
    config: &Configuration,
    identity_key: &Vec<u8>,
    zerotier_address: zerotier_api::Address,
    dev_network: bool,
) -> (r: Result<ZtData, AuthError>)
    ensures
        r is Ok == config.spec_supports_registration_authority(),
        r matches Ok(data) ==> data.email@ == config.spec_email() && data.holochain_agent_id@
            == keys::base36_of(identity_key@) && data.zerotier_address == zerotier_address
            && data.holoport_url@ == holoport_url_of(identity_key@, dev_network),
        r matches Err(e) ==> e is ConfigVersionError,
{
    match config {
        Configuration::V2 { settings, .. } => {
            Ok(
                ZtData {
                    email: settings.email.clone(),
                    holochain_agent_id: keys::base36_encode(identity_key),
                    zerotier_address,
                    holoport_url: get_holoport_url(identity_key, dev_network),
                },
            )
        },
        Configuration::V1 { .. } => Err(AuthError::ConfigVersionError),
    }
}

/// Attach a signature to the data it signs: the request body carries
/// the signature bytes in standard base-64.
pub fn zt_payload(data: ZtData, signature_bytes: &Vec<u8>) -> (r: ZtPayload)
    ensures
        r.data == data,
        r.signature@ == base64_of(signature_bytes@),
{
    ZtPayload { data, signature: base64_encode(signature_bytes) }
}

/// The authority's answer to an overlay-registration request, as
/// plain values.
pub enum OverlayResponse {
    /// An HTTP success status; the acknowledgement body is not read.
    Accepted,
    /// An HTTP error status, with its error text.
    Rejected { error: String },
}

/// How an overlay-registration attempt ends: with the marker write
/// that records the acknowledgement, or with the retryable error.
pub enum OverlayOutcome {
    /// Create the overlay-auth marker file.
    Complete,
    /// Fail this attempt with the error; the caller may retry.
    Failed { error: AuthError },
}

/// Close an overlay-registration attempt on the authority's answer.
pub fn overlay_conclude(response: OverlayResponse) -> (r: OverlayOutcome)
    ensures
        response is Accepted <==> r is Complete,
        response matches OverlayResponse::Rejected { error: text } ==> (r
            matches OverlayOutcome::Failed { error } && (error
            matches AuthError::ZtRegistrationError(m) && m@ == text@)),
{
    match response {
        OverlayResponse::Accepted => OverlayOutcome::Complete,
        OverlayResponse::Rejected { error } => {
            OverlayOutcome::Failed { error: AuthError::ZtRegistrationError(error) }
        },
    }
}

} // verus!
