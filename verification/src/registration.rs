//! The membrane-proof registration protocol.
//!
//! One run of the protocol is a single request to the registration
//! authority's register-user endpoint.  The caller performs the HTTP
//! exchange and the file writes; these functions decide what is sent,
//! what the response means, and which side effects are owed: on
//! success the returned membrane proof is written verbatim to the
//! registration marker file, whose presence makes the whole phase
//! idempotent; on rejection a failure notification to the admin email
//! is owed before the error is surfaced.

use vstd::prelude::*;
use vstd::string::*;
use crate::AuthError;
use crate::auth_error_message;
use crate::config::Configuration;
use crate::keys;

verus! {

/// The role tag every registration request carries.
pub open spec fn host_role() -> Seq<char> {
    "host"@
}

/// The inner payload of a registration request.
pub struct RegistrationPayload {
    /// The role the device registers under; always the host role.
    pub role: String,
}

/// The body of a register-user request.
pub struct Registration {
    /// The registration code the administrator was issued.
    pub registration_code: String,
    /// The device identity key, in its encoded agent form.
    pub agent_pub_key: String,
    /// The admin email the registration is filed under.
    pub email: String,
    /// The inner payload.
    pub payload: RegistrationPayload,
}

/// A notification to the device administrator, sent through the
/// authority's notify endpoint.
pub struct NotifyPayload {
    /// The admin email the notification goes to.
    pub email: String,
    /// Whether the notified event is a success.
    pub success: bool,
    /// The human-readable report.
    pub data: String,
}

/// The structured body of a rejection response.
pub struct RegistrationError {
    /// The authority's error code.
    pub error: String,
    /// Whether the authority intends the message for the end user.
    pub is_displayed_to_user: bool,
    /// The authority's human-readable detail.
    pub info: String,
}

/// The message a rejection body is reported with.
pub open spec fn registration_error_message_of(error: Seq<char>, info: Seq<char>) -> Seq<char> {
    "Error: "@ + error + ", More Info: "@ + info
}

impl RegistrationError {
    /// The message this rejection is reported with: the error code
    /// and the detail, in one line.
    pub fn message(&self) -> (r: String)
        ensures
            r@ == registration_error_message_of(self.error@, self.info@),
    {
        let mut message = "Error: ".to_owned();
        message.append(self.error.as_str());
        message.append(", More Info: ");
        message.append(self.info.as_str());
        message
    }
}

/// How a registration run opens: with a request to the authority, or,
/// for a record that cannot register, with an owed failure
/// notification and the error the run ends in.
pub enum RegisterStart {
    /// The record supports registration: send this request.
    Send { request: Registration },
    /// The record cannot register: send the notification, then fail
    /// with the error.
    Reject { notification: NotifyPayload, error: AuthError },
}

/// Open a registration run.
///
/// A `V2` record yields the register-user request: its registration
/// code, the encoded agent key of the device, the admin email and the
/// host role.  A `V1` record cannot register: the caller owes the
/// admin a failure notification and fails with the version error.
pub fn register_begin(config: &Configuration, identity_key: &Vec<u8>) -> (r: RegisterStart)
    requires
        identity_key@.len() == keys::IDENTITY_KEY_LEN,
    ensures
        config.spec_supports_registration_authority() ==> (r matches RegisterStart::Send {
            request,
        } && request.registration_code@ == config.spec_registration_code()
            && request.agent_pub_key@ == keys::encoded_agent_key_of(identity_key@)
            && request.email@ == config.spec_email() && request.payload.role@ == host_role()),
        !config.spec_supports_registration_authority() ==> (r matches RegisterStart::Reject {
            notification,
            error,
        } && notification.email@ == config.spec_email() && notification.success == false
            && notification.data@ == auth_error_message(AuthError::ConfigVersionError)
            && error is ConfigVersionError),
{
    match config {
        Configuration::V2 { registration_code, settings } => {
            let request = Registration {
                registration_code: registration_code.clone(),
                agent_pub_key: keys::holochain_encoded_agent_key(identity_key),
                email: settings.email.clone(),
                payload: RegistrationPayload { role: "host".to_owned() },
            };
            RegisterStart::Send { request }
        },
        Configuration::V1 { settings } => {
            let error = AuthError::ConfigVersionError;
            let notification = NotifyPayload {
                email: settings.email.clone(),
                success: false,
                data: error.message(),
            };
            RegisterStart::Reject { notification, error }
        },
    }
}

/// The authority's answer to a register-user request, as plain
/// values: the membrane proof of a success response, or the parsed
/// error body of a rejection.
pub enum RegistrationResponse {
    /// An HTTP success status, with the returned membrane proof.
    Accepted { mem_proof: String },
    /// An HTTP error status, with the parsed rejection body.
    Rejected { error: RegistrationError },
}

/// How a registration run ends: with the marker write that makes the
/// phase idempotent, or with an owed failure notification and the
/// error the run surfaces.
pub enum RegisterOutcome {
    /// Write exactly these bytes to the registration marker file.
    Complete { marker_content: String },
    /// Send the notification, then fail with the error.
    Failed { notification: NotifyPayload, error: AuthError },
}

/// Close a registration run on the authority's answer.
///
/// Acceptance yields the marker write: the membrane proof, verbatim.
/// Rejection yields the owed failure notification to the admin email
/// and the registration error, both carrying the authority's message.
pub fn register_conclude(email: &String, response: RegistrationResponse) -> (r: RegisterOutcome)
    ensures
        response matches RegistrationResponse::Accepted { mem_proof } ==> (r
            matches RegisterOutcome::Complete { marker_content } && marker_content@
            == mem_proof@),
        response matches RegistrationResponse::Rejected { error: body } ==> (r
            matches RegisterOutcome::Failed { notification, error } && notification.email@
            == email@ && notification.success == false && notification.data@
            == registration_error_message_of(body.error@, body.info@)
            && (error matches AuthError::RegistrationError(m) && m@
            == registration_error_message_of(body.error@, body.info@))),
{
    match response {
        RegistrationResponse::Accepted { mem_proof } => {
            RegisterOutcome::Complete { marker_content: mem_proof }
        },
        RegistrationResponse::Rejected { error: body } => {
            let message = body.message();
            let notification = NotifyPayload {
                email: email.clone(),
                success: false,
                data: message.clone(),
            };
            RegisterOutcome::Failed {
                notification,
                error: AuthError::RegistrationError(message),
            }
        },
    }
}

} // verus!
