//! Which requests are let through, and to whom they go.

use vstd::prelude::*;
use vstd::string::*;
use crate::onvif::services::device::FaultBody;
use crate::onvif::snapshot;
use crate::onvif::soap;
use crate::onvif::soap::{EnvelopeError, FaultCode, UserTable, UsernameToken};
use crate::onvif::state;
use crate::onvif::state::OnvifState;
use crate::text;
use crate::time::Timestamp;
use crate::xml;

verus! {

/// Cap on incoming SOAP envelopes, in bytes.
pub const SOAP_BODY_LIMIT: usize = 65_536;

/// How long a connection may sit without sending the start of a request before
/// it is closed, in milliseconds.
pub const IDLE_TIMEOUT: u64 = 15_000;

/// Ceiling on simultaneously served connections.
pub const MAX_CONNECTIONS: usize = 256;

/// Pause after a failed `accept()` before trying again, in milliseconds.
pub const ACCEPT_ERROR_BACKOFF: u64 = 100;

/// How long to let in-flight requests finish after a shutdown is requested, in
/// milliseconds.
pub const SHUTDOWN_GRACE: u64 = 5_000;

/// The services of a device.
#[derive(Clone, Copy, PartialEq, Eq, Structural, Debug)]
pub enum ServiceKind {
    Device,
    Media,
    Ptz,
    Events,
    Imaging,
}

/// Why a request is not let through. The reason is what makes client
/// troubleshooting tractable.
#[derive(Clone, Copy, PartialEq, Eq, Structural, Debug)]
pub enum AuthError {
    MissingToken,
    BadCredentials,
    UserNotPermitted,
}

/// What each refusal says.
pub open spec fn auth_reason(e: AuthError) -> Seq<char> {
    match e {
        AuthError::MissingToken => "WS-UsernameToken required"@,
        AuthError::BadCredentials => "Bad credentials"@,
        AuthError::UserNotPermitted => "User not permitted"@,
    }
}

impl AuthError {
    /// What the refusal says.
    pub fn reason(&self) -> (said: &'static str)
        ensures
            said@ == auth_reason(*self),
    {
        match self {
            AuthError::MissingToken => "WS-UsernameToken required",
            AuthError::BadCredentials => "Bad credentials",
            AuthError::UserNotPermitted => "User not permitted",
        }
    }
}

/// Whether a request is let through.
///
/// Anonymous access is allowed for the small ONVIF discovery whitelist, and for
/// everything when no users and no camera ACLs are configured. Otherwise a token
/// must prove who asks, and the camera must permit them.
pub open spec fn admission(
    users: UserTable,
    permitted: Option<Seq<Seq<char>>>,
    token: Option<soap::TokenView>,
    action: Seq<char>,
    now: Timestamp,
) -> Result<(), AuthError> {
    if soap::open_to_all(action) || snapshot::open_house(users, permitted) {
        Ok(())
    } else {
        match token {
            None => Err(AuthError::MissingToken),
            Some(t) => match users.password(t.username) {
                Some(password) if soap::token_proves(t, password, now) => if snapshot::permits(
                    permitted,
                    t.username,
                ) {
                    Ok(())
                } else {
                    Err(AuthError::UserNotPermitted)
                },
                _ => Err(AuthError::BadCredentials),
            },
        }
    }
}

/// Whether a request is let through.
pub fn auth_check(
    users: &UserTable,
    permitted: &Option<Vec<String>>,
    auth: &Option<UsernameToken>,
    action: &str,
    now: Timestamp,
) -> (result: Result<(), AuthError>)
    ensures
        result == admission(
            *users,
            state::users_view(*permitted),
            soap::token_view(*auth),
            action@,
            now,
        ),
{
    if soap::is_unauth_allowed(action) {
        return Ok(());
    }
    if snapshot::is_open(users, permitted) {
        return Ok(());
    }
    let token = match auth {
        Some(token) => token,
        None => {
            return Err(AuthError::MissingToken);
        },
    };
    if !soap::verify_token(token, users, now) {
        return Err(AuthError::BadCredentials);
    }
    if !snapshot::is_permitted(permitted, token.username.as_str()) {
        return Err(AuthError::UserNotPermitted);
    }
    Ok(())
}

/// Nobody gets past a camera's own list, or past a table of users, without a
/// token that proves a permitted user, unless the operation is open to all.
pub proof fn law_admission_needs_proof(
    users: UserTable,
    permitted: Option<Seq<Seq<char>>>,
    token: Option<soap::TokenView>,
    action: Seq<char>,
    now: Timestamp,
)
    requires
        admission(users, permitted, token, action, now) is Ok,
        !soap::open_to_all(action),
        !snapshot::open_house(users, permitted),
    ensures
        token matches Some(t) && (users.password(t.username) matches Some(password)
            && soap::token_proves(t, password, now)) && snapshot::permits(permitted, t.username),
{
}

/// Operations open to all are answered without a token, whatever is configured.
pub proof fn law_discovery_is_open(
    users: UserTable,
    permitted: Option<Seq<Seq<char>>>,
    action: Seq<char>,
    now: Timestamp,
)
    requires
        soap::open_to_all(action),
    ensures
        admission(users, permitted, None, action, now) is Ok,
{
}

/// A request that was let through.
#[derive(Debug)]
pub struct Admitted<'a> {
    /// The position of the camera.
    pub camera: usize,
    pub action: String,
    pub body_xml: &'a str,
}

/// Whether a request was let through, or refused, as it should be, given what
/// its envelope was parsed to.
pub open spec fn admitted(
    onvif: OnvifState,
    camera: Seq<char>,
    parsed: Result<soap::ParsedRequest<'_>, EnvelopeError>,
    now: Timestamp,
    result: Result<Admitted<'_>, FaultBody>,
) -> bool {
    let devices = state::entries_view(onvif.cameras@);
    let at = state::position(devices, camera);
    if at >= devices.len() {
        result matches Err(f) && f.code == FaultCode::Other && f.reason@ == "Unknown camera '"@
            + camera + "'"@
    } else {
        match parsed {
            Err(e) => result matches Err(f) && f.code == FaultCode::InvalidArgs && f.reason@
                == "Bad SOAP envelope: "@ + soap::envelope_error_text(e),
            Ok(p) => match admission(
                onvif.users,
                devices[at].permitted_users,
                soap::token_view(p.auth),
                p.action@,
                now,
            ) {
                Err(e) => result matches Err(f) && f.code == FaultCode::NotAuthorized && f.reason@
                    == auth_reason(e),
                Ok(_) => result matches Ok(a) && a.camera == at && a.action@ == p.action@
                    && a.body_xml@ == p.body_xml@,
            },
        }
    }
}

/// Let a request through, or refuse it, once its envelope has been parsed.
pub fn admit_parsed<'a>(
    onvif: &OnvifState,
    camera: &str,
    parsed: Result<soap::ParsedRequest<'a>, EnvelopeError>,
    now: Timestamp,
) -> (result: Result<Admitted<'a>, FaultBody>)
    ensures
        admitted(*onvif, camera@, parsed, now, result),
{
    let at: usize = onvif.camera_position(camera);
    if at >= onvif.cameras.len() {
        let mut reason = "Unknown camera '".to_owned();
        reason.append(camera);
        reason.append("'");
        return Err(FaultBody { code: FaultCode::Other, reason });
    }
    match parsed {
        Err(e) => {
            let mut reason = "Bad SOAP envelope: ".to_owned();
            reason.append(e.message().as_str());
            Err(FaultBody { code: FaultCode::InvalidArgs, reason })
        },
        Ok(p) => {
            match auth_check(
                &onvif.users,
                &onvif.cameras[at].permitted_users,
                &p.auth,
                p.action.as_str(),
                now,
            ) {
                Err(e) => Err(
                    FaultBody { code: FaultCode::NotAuthorized, reason: e.reason().to_owned() },
                ),
                Ok(()) => Ok(Admitted { camera: at, action: p.action, body_xml: p.body_xml }),
            }
        },
    }
}

/// Let a request to a camera's service through, or refuse it.
pub fn dispatch_service<'a>(onvif: &OnvifState, camera: &str, body: &'a str, now: Timestamp) -> (result:
    Result<Admitted<'a>, FaultBody>)
    ensures
        exists|parsed: Result<soap::ParsedRequest<'_>, EnvelopeError>|
            soap::request_of(xml::xml_events(body@), body@, parsed) && #[trigger] admitted(
                *onvif,
                camera@,
                parsed,
                now,
                result,
            ),
{
    let parsed = soap::parse_envelope(body);
    admit_parsed(onvif, camera, parsed, now)
}

/// The answer to a request: what the service said, or a fault. Either goes out
/// as a success of the transport.
pub fn soap_reply(result: Result<String, FaultBody>) -> (xml: String)
    ensures
        match result {
            Ok(said) => xml == said,
            Err(f) => xml@ == soap::envelope(
                soap::fault_body(f.code, f.reason@, None),
                soap::NS_ALL@ + " xmlns:ter=\"http://www.onvif.org/ver10/error\""@,
            ),
        },
{
    match result {
        Ok(said) => said,
        Err(f) => soap::fault_envelope(f.code, f.reason.as_str(), None),
    }
}

/// What a browser sees at the root of a camera.
pub fn camera_index(cam: &str) -> (page: String)
    ensures
        page@ == "neolink ONVIF device for camera '"@ + cam@ + "'"@,
{
    let mut page = "neolink ONVIF device for camera '".to_owned();
    page.append(cam);
    page.append("'");
    page
}

/// What a browser sees at the root.
pub fn root_index() -> (page: &'static str)
    ensures
        page@ == "neolink ONVIF bridge"@,
{
    "neolink ONVIF bridge"
}

/// Where there are users, four operations and no others are open to requests
/// without credentials, and every other such request is told that a token is
/// needed.
pub proof fn law_four_operations_are_open(
    users: UserTable,
    permitted: Option<Seq<Seq<char>>>,
    action: Seq<char>,
    now: Timestamp,
)
    requires
        users.entries@.len() > 0 || (permitted is Some && permitted->0.len() > 0),
    ensures
        admission(users, permitted, None, action, now) == (if action == "GetSystemDateAndTime"@
            || action == "GetCapabilities"@ || action == "GetServices"@ || action
            == "GetServiceCapabilities"@ {
            Ok(())
        } else {
            Err(AuthError::MissingToken)
        }),
        auth_reason(AuthError::MissingToken) == "WS-UsernameToken required"@,
        auth_reason(AuthError::BadCredentials) == "Bad credentials"@,
        auth_reason(AuthError::UserNotPermitted) == "User not permitted"@,
{
}

/// Where nobody is configured and nobody singled out, every operation is open.
pub proof fn law_without_users_all_is_open(
    users: UserTable,
    permitted: Option<Seq<Seq<char>>>,
    token: Option<soap::TokenView>,
    action: Seq<char>,
    now: Timestamp,
)
    requires
        users.entries@.len() == 0,
        permitted is None || permitted->0.len() == 0,
    ensures
        admission(users, permitted, token, action, now) is Ok,
{
}

/// A request with a plain password goes by the table of users: a wrong password,
/// or a name that is not in it, is bad credentials; the right one lets the user
/// in unless a list of permitted users leaves them out.
pub proof fn law_passwords_let_users_in(
    users: UserTable,
    permitted: Option<Seq<Seq<char>>>,
    token: soap::TokenView,
    action: Seq<char>,
    now: Timestamp,
)
    requires
        users.entries@.len() > 0,
        !token.credential.1,
        action != "GetSystemDateAndTime"@,
        action != "GetCapabilities"@,
        action != "GetServices"@,
        action != "GetServiceCapabilities"@,
    ensures
        users.password(token.username) != Some(token.credential.0) ==> admission(
            users,
            permitted,
            Some(token),
            action,
            now,
        ) == Err::<(), AuthError>(AuthError::BadCredentials),
        users.password(token.username) == Some(token.credential.0) ==> admission(
            users,
            permitted,
            Some(token),
            action,
            now,
        ) == (if permitted is None || permitted->0.len() == 0 || permitted->0.contains(
            token.username,
        ) {
            Ok(())
        } else {
            Err(AuthError::UserNotPermitted)
        }),
{
}

/// What a request comes to: for a camera that is not served, a fault that names
/// it; for a broken envelope, a fault that says so; for one that is not admitted,
/// the fault for that; and else the operation and its text, for the camera that
/// was asked for.
pub proof fn law_requests_reach_their_camera(
    onvif: OnvifState,
    camera: Seq<char>,
    parsed: Result<soap::ParsedRequest<'_>, EnvelopeError>,
    now: Timestamp,
    result: Result<Admitted<'_>, FaultBody>,
    i: int,
)
    requires
        admitted(onvif, camera, parsed, now, result),
    ensures
        (forall|j: int| 0 <= j < onvif.cameras@.len() ==> (#[trigger] onvif.cameras@[j]).name@
            != camera) ==> (result matches Err(f) && f.code == FaultCode::Other && f.reason@
            == "Unknown camera '"@ + camera + "'"@),
        0 <= i < onvif.cameras@.len() && onvif.cameras@[i].name@ == camera && parsed is Err ==> (
        result matches Err(f) && f.code == FaultCode::InvalidArgs),
        result matches Ok(a) ==> a.camera < onvif.cameras@.len()
            && onvif.cameras@[a.camera as int].name@ == camera && (parsed matches Ok(p) && a.action@
            == p.action@ && a.body_xml@ == p.body_xml@ && admission(
            onvif.users,
            state::users_view(onvif.cameras@[a.camera as int].permitted_users),
            soap::token_view(p.auth),
            p.action@,
            now,
        ) is Ok),
{
    let devices = state::entries_view(onvif.cameras@);
    state::lemma_position(devices, camera);
    let at = state::position(devices, camera);
    if at < devices.len() {
        assert(devices[at] == onvif.cameras@[at]@);
        assert(onvif.cameras@[at].name@ == camera);
    } else if 0 <= i < onvif.cameras@.len() {
        assert(devices[i].name == onvif.cameras@[i].name@);
    }
}

} // verus!
