//! Session refresh: recognising an expired session and rebuilding the
//! session record from what `/api/auth/session` answers.

use vstd::prelude::*;

use crate::client::{is_success, is_success_status};
use crate::json::Json;
use crate::schema::opt_string_view;
use crate::store::SessionData;
use crate::text::push_str;

verus! {

/// Decisions about expired sessions.
pub struct AuthRetryManager;

impl AuthRetryManager {
    /// Whether a status means the session is no longer authorised.
    pub fn is_unauthorized_status(status_code: u16) -> (b: bool)
        ensures
            b == (status_code == 401),
    {
        status_code == 401
    }
}

/// The error for a refresh request that could not be made.
pub fn refresh_request_failed(detail: &str) -> (m: String)
    ensures
        m@ == "Refresh request failed: "@ + detail@,
{
    let mut m = "Refresh request failed: ".to_owned();
    push_str(&mut m, detail);
    m
}

/// The error for a refresh answered with a failure status, if it was.
pub fn refresh_status_error(status: u16, status_text: &str) -> (r: Option<String>)
    ensures
        is_success_status(status) ==> r is None,
        !is_success_status(status) ==> (r matches Some(m) && m@ == "Refresh endpoint returned HTTP "@
            + status_text@),
{
    if is_success(status) {
        None
    } else {
        let mut m = "Refresh endpoint returned HTTP ".to_owned();
        push_str(&mut m, status_text);
        Some(m)
    }
}

/// The error for a refresh answer that is not JSON.
pub fn refresh_bad_json(detail: &str) -> (m: String)
    ensures
        m@ == "Bad JSON response from session endpoint: "@ + detail@,
{
    let mut m = "Bad JSON response from session endpoint: ".to_owned();
    push_str(&mut m, detail);
    m
}

/// The session rebuilt from the refresh answer: it must carry a string
/// `accessToken`, else the session has expired.
pub fn session_from_refresh(body: Json, now_ms: u64, cookies: Option<&str>) -> (r: Result<
    SessionData,
    String,
>)
    ensures
        match body@.get_str("accessToken"@) {
            None => (r matches Err(m) && m@ == "AUTH_EXPIRED"@),
            Some(t) => (r matches Ok(s) && s.stored_at == now_ms && s.auth_session@ == body@
                && s.device_id is None && opt_string_view(s.access_token) == Some(t)
                && opt_string_view(s.cookies) == match cookies {
                Some(c) => Some(c@),
                None => None::<Seq<char>>,
            }),
        },
{
    let token = match body.get("accessToken") {
        Some(v) => match v.as_str() {
            Some(t) => t.to_owned(),
            None => return Err("AUTH_EXPIRED".to_owned()),
        },
        None => return Err("AUTH_EXPIRED".to_owned()),
    };
    let cookies = match cookies {
        Some(c) => Some(c.to_owned()),
        None => None,
    };
    Ok(
        SessionData {
            stored_at: now_ms,
            auth_session: body,
            device_id: None,
            access_token: Some(token),
            cookies,
        },
    )
}

} // verus!
