//! The desktop application's decisions: its authentication states, which
//! addresses belong to ChatGPT, the web-view bridge script and the answers
//! that come back through it, and how socket requests are dispatched.

use vstd::prelude::*;
use vstd::utf8::encode_utf8;

use crate::json::{json_parse, obj1, parse_json, Json, JsonV};
use crate::protocol::{Response, ERR_PROVIDER_UNAVAILABLE};
use crate::schema::opt_string_view;
use crate::store::{base64_decode, b64_decode, SessionData};
use crate::client::utf8_decode;
use crate::text::{chars_equal, chars_of, has_prefix_at, is_prefix, push_str, string_from_chars};
use vstd::utf8::{decode_utf8, valid_utf8};

verus! {

/// Where the application's authentication stands.
#[derive(Debug, Clone, Copy, PartialEq, Eq, Structural)]
pub enum AuthState {
    Starting,
    InitializingWebview,
    CheckingSession,
    Authenticated,
    Unauthenticated,
    LoginRequired,
    UserLogin,
    Ready,
    Background,
}

impl AuthState {
    /// The name of the state on the wire.
    pub open spec fn spec_name(self) -> Seq<char> {
        match self {
            AuthState::Starting => "STARTING"@,
            AuthState::InitializingWebview => "INITIALIZING_WEBVIEW"@,
            AuthState::CheckingSession => "CHECKING_SESSION"@,
            AuthState::Authenticated => "AUTHENTICATED"@,
            AuthState::Unauthenticated => "UNAUTHENTICATED"@,
            AuthState::LoginRequired => "LOGIN_REQUIRED"@,
            AuthState::UserLogin => "USER_LOGIN"@,
            AuthState::Ready => "READY"@,
            AuthState::Background => "BACKGROUND"@,
        }
    }

    /// The name of the state on the wire.
    pub fn name(&self) -> (s: &'static str)
        ensures
            s@ == self.spec_name(),
    {
        match self {
            AuthState::Starting => "STARTING",
            AuthState::InitializingWebview => "INITIALIZING_WEBVIEW",
            AuthState::CheckingSession => "CHECKING_SESSION",
            AuthState::Authenticated => "AUTHENTICATED",
            AuthState::Unauthenticated => "UNAUTHENTICATED",
            AuthState::LoginRequired => "LOGIN_REQUIRED",
            AuthState::UserLogin => "USER_LOGIN",
            AuthState::Ready => "READY",
            AuthState::Background => "BACKGROUND",
        }
    }
}

impl Default for AuthState {
    fn default() -> (s: AuthState)
        ensures
            s == AuthState::Starting,
    {
        AuthState::Starting
    }
}

/// The parts of a URL that the application reads.
#[derive(Debug)]
pub struct UrlParts {
    pub scheme: String,
    pub host: Option<String>,
    pub path: String,
    pub query: Vec<(String, String)>,
}

pub struct UrlPartsV {
    pub scheme: Seq<char>,
    pub host: Option<Seq<char>>,
    pub path: Seq<char>,
    pub query: Seq<(Seq<char>, Seq<char>)>,
}

impl View for UrlParts {
    type V = UrlPartsV;

    open spec fn view(&self) -> UrlPartsV {
        UrlPartsV {
            scheme: self.scheme@,
            host: opt_string_view(self.host),
            path: self.path@,
            query: Seq::new(self.query@.len(), |i: int| (self.query@[i].0@, self.query@[i].1@)),
        }
    }
}

/// What `url::Url::parse` makes of a text: its scheme, host, path and
/// decoded query pairs, or `None` when it is not a URL.
pub uninterp spec fn url_parse(s: Seq<char>) -> Option<UrlPartsV>;

/// Parses with `url::Url::parse` and reads `scheme()`, `host_str()`,
/// `path()` and `query_pairs()`. Claimed: the outcome is `url_parse` of the
/// text.
#[verifier::external_body]
fn parse_url(s: &str) -> (r: Option<UrlParts>)
    ensures
        url_parse(s@) == match r {
            Some(u) => Some(u@),
            None => None::<UrlPartsV>,
        },
{
    match url::Url::parse(s) {
        Ok(u) => Some(UrlParts {
            scheme: u.scheme().to_owned(),
            host: u.host_str().map(|h| h.to_owned()),
            path: u.path().to_owned(),
            query: u.query_pairs().map(|(k, v)| (k.into_owned(), v.into_owned())).collect(),
        }),
        Err(_) => None,
    }
}

/// Whether `s` ends with `suffix`.
pub open spec fn is_suffix(suffix: Seq<char>, s: Seq<char>) -> bool {
    suffix.len() <= s.len() && s.subrange(s.len() - suffix.len(), s.len() as int) == suffix
}

/// Whether a URL is an `https` address on `chatgpt.com` or one of its
/// subdomains.
pub open spec fn spec_is_chatgpt_host(url: Seq<char>) -> bool {
    match url_parse(url) {
        Some(u) => {
            let host = match u.host {
                Some(h) => h,
                None => Seq::empty(),
            };
            u.scheme == "https"@ && (host == "chatgpt.com"@ || is_suffix(".chatgpt.com"@, host))
        },
        None => false,
    }
}

/// Whether a URL is the root page of ChatGPT over `https`.
pub open spec fn spec_is_chatgpt_root(url: Seq<char>) -> bool {
    match url_parse(url) {
        Some(u) => {
            let host = match u.host {
                Some(h) => h,
                None => Seq::empty(),
            };
            &&& u.scheme == "https"@
            &&& host == "chatgpt.com"@ || host == "www.chatgpt.com"@
            &&& u.path.len() == 0 || u.path == "/"@
        },
        None => false,
    }
}

/// Whether `s` is the text `lit`.
fn text_is(s: &str, lit: &str) -> (b: bool)
    ensures
        b == (s@ == lit@),
{
    let a = chars_of(s);
    let l = chars_of(lit);
    chars_equal(&a, &l)
}

/// Whether `s` ends with `suffix`.
fn ends_with(s: &str, suffix: &str) -> (b: bool)
    ensures
        b == is_suffix(suffix@, s@),
{
    let a = chars_of(s);
    let l = chars_of(suffix);
    if l.len() > a.len() {
        return false;
    }
    let from = a.len() - l.len();
    let r = has_prefix_at(&a, from, a.len(), &l);
    assert(a@.subrange(from as int, a@.len() as int).subrange(0, l@.len() as int) =~= a@.subrange(
        from as int,
        a@.len() as int,
    ));
    r
}

/// Whether a URL is an `https` address on `chatgpt.com` or one of its
/// subdomains.
pub fn is_chatgpt_host(url_str: &str) -> (b: bool)
    ensures
        b == spec_is_chatgpt_host(url_str@),
{
    let u = match parse_url(url_str) {
        Some(u) => u,
        None => return false,
    };
    if !text_is(u.scheme.as_str(), "https") {
        return false;
    }
    let host: &str = match &u.host {
        Some(h) => h.as_str(),
        None => "",
    };
    proof {
        reveal_strlit("");
    }
    assert(host@ == match u@.host {
        Some(h) => h,
        None => Seq::<char>::empty(),
    });
    text_is(host, "chatgpt.com") || ends_with(host, ".chatgpt.com")
}

/// Whether a URL is the root page of ChatGPT over `https`.
pub fn is_chatgpt_root(url_str: &str) -> (b: bool)
    ensures
        b == spec_is_chatgpt_root(url_str@),
{
    let u = match parse_url(url_str) {
        Some(u) => u,
        None => return false,
    };
    if !text_is(u.scheme.as_str(), "https") {
        return false;
    }
    let host: &str = match &u.host {
        Some(h) => h.as_str(),
        None => "",
    };
    proof {
        reveal_strlit("");
    }
    assert(host@ == match u@.host {
        Some(h) => h,
        None => Seq::<char>::empty(),
    });
    if !(text_is(host, "chatgpt.com") || text_is(host, "www.chatgpt.com")) {
        return false;
    }
    u.path.unicode_len() == 0 || text_is(u.path.as_str(), "/")
}


/// The bridge script injected into the ChatGPT web view: it answers calls
/// from the application by navigating to an `aicores://r/<nonce>` address
/// whose `payload` carries the base64 of the JSON answer.
pub const INJECTED_JS: &'static str = r#"
(function () {
  if (window.__aiCoreBridgeInstalled) return;
  window.__aiCoreBridgeInstalled = true;

  window.__aiCoreSendResponse = function (nonce, responseJsonString) {
    try {
      const b64 = btoa(unescape(encodeURIComponent(responseJsonString)));
      window.location.href = "aicores://r/" + encodeURIComponent(nonce) + "?payload=" + encodeURIComponent(b64);
    } catch (e) {
      try {
        const b64 = btoa(unescape(encodeURIComponent(responseJsonString)));
        document.title = "ac:" + nonce + ":" + b64;
      } catch (_) {}
    }
  };

  async function __aiCoreCall(method, params) {
    const P = params || {};
    try {
      let r;
      switch (method) {
        case "auth_status":
          r = { loggedIn: !!window.__aiCoreSession, session: window.__aiCoreSession || null };
          break;
        case "raw_auth_session": {
          const res = await fetch("https://chatgpt.com/api/auth/session", { credentials: "include" });
          if (!res.ok) throw new Error("session fetch HTTP " + res.status);
          const data = await res.json();
          window.__aiCoreSession = data;
          let did = null;
          try {
            const cs = document.cookie.split(";").map(c => c.trim());
            for (const c of cs) if (c.startsWith("oai-did=")) did = c.slice(8);
          } catch (_) {}
          r = { auth_session: data, device_id: did };
          break;
        }
        default:
          throw new Error("unknown bridge method: " + method);
      }
      return JSON.stringify({ ok: true, result: r === undefined ? null : r });
    } catch (err) {
      return JSON.stringify({ ok: false, error: String(err && err.message || err) });
    }
  }
  window.__aiCoreCall = __aiCoreCall;

  window.__aiCoreRpc = async function (nonce, method, paramsJson) {
    try {
      const params = paramsJson ? JSON.parse(paramsJson) : {};
      const result = await __aiCoreCall(method, params);
      window.__aiCoreSendResponse(nonce, result);
    } catch (e) {
      const msg = JSON.stringify({ ok: false, error: String(e && e.message || e) });
      window.__aiCoreSendResponse(nonce, msg);
    }
  };
})();
"#;

/// The bridge script.
pub fn build_injected_js() -> (s: String)
    ensures
        s@ == INJECTED_JS@,
{
    INJECTED_JS.to_owned()
}

/// `s` without its leading `/` characters.
pub open spec fn trim_leading_slashes(s: Seq<char>) -> Seq<char>
    decreases s.len(),
{
    if s.len() > 0 && s[0] == '/' {
        trim_leading_slashes(s.drop_first())
    } else {
        s
    }
}

/// The value of the first query pair named `key`.
pub open spec fn first_query_value(q: Seq<(Seq<char>, Seq<char>)>, key: Seq<char>) -> Option<Seq<char>>
    decreases q.len(),
{
    if q.len() == 0 {
        None
    } else if q[0].0 == key {
        Some(q[0].1)
    } else {
        first_query_value(q.drop_first(), key)
    }
}

/// The answer reported when a bridge payload cannot be decoded.
pub const BAD_PAYLOAD: &'static str = "{\"ok\":false,\"error\":\"bad payload encoding\"}";

/// The text carried by a bridge payload: the UTF-8 text of its base64
/// decoding, else `BAD_PAYLOAD`.
pub open spec fn decoded_payload(payload: Seq<char>) -> Seq<char> {
    match base64_decode(encode_utf8(payload)) {
        Ok(bytes) => if valid_utf8(bytes) {
            decode_utf8(bytes)
        } else {
            BAD_PAYLOAD@
        },
        Err(_) => BAD_PAYLOAD@,
    }
}

/// What the web view should do on navigating to an address.
#[derive(Debug)]
pub struct NavigationDecision {
    /// The address is ChatGPT's root page: a pending login has completed.
    pub login_detected: bool,
    /// A bridge answer to deliver: the call's nonce and the answer's text.
    pub delivery: Option<(String, String)>,
    /// Whether the navigation goes ahead (bridge addresses are intercepted).
    pub allow: bool,
}

/// The bridge answer an intercepted address carries, if any.
pub open spec fn bridge_delivery(url: Seq<char>) -> Option<(Seq<char>, Seq<char>)> {
    match url_parse(url) {
        Some(u) => if u.host == Some("r"@) {
            let nonce = trim_leading_slashes(u.path);
            if nonce.len() > 0 {
                let payload = match first_query_value(u.query, "payload"@) {
                    Some(p) => p,
                    None => Seq::empty(),
                };
                Some((nonce, decoded_payload(payload)))
            } else {
                None
            }
        } else {
            None
        },
        None => None,
    }
}

/// The value of the first query pair named `key`.
fn query_value(q: &Vec<(String, String)>, key: &str) -> (r: Option<String>)
    ensures
        opt_string_view(r) == first_query_value(
            Seq::new(q@.len(), |i: int| (q@[i].0@, q@[i].1@)),
            key@,
        ),
{
    let ghost qv = Seq::new(q@.len(), |i: int| (q@[i].0@, q@[i].1@));
    let mut i: usize = 0;
    assert(qv.skip(0) =~= qv);
    while i < q.len()
        invariant
            i <= q@.len(),
            qv == Seq::new(q@.len(), |i: int| (q@[i].0@, q@[i].1@)),
            first_query_value(qv, key@) == first_query_value(qv.skip(i as int), key@),
        decreases q@.len() - i,
    {
        assert(qv.skip(i as int)[0] == qv[i as int]);
        if text_is(q[i].0.as_str(), key) {
            return Some(q[i].1.clone());
        }
        assert(qv.skip(i as int).drop_first() =~= qv.skip(i + 1));
        i = i + 1;
    }
    None
}

/// `s` without its leading `/` characters.
fn strip_leading_slashes(s: &str) -> (r: String)
    ensures
        r@ == trim_leading_slashes(s@),
{
    let cs = chars_of(s);
    let mut a: usize = 0;
    assert(cs@.subrange(0, cs@.len() as int) =~= cs@);
    while a < cs.len() && cs[a] == '/'
        invariant
            a <= cs@.len(),
            cs@ == s@,
            trim_leading_slashes(cs@.subrange(a as int, cs@.len() as int)) == trim_leading_slashes(
                s@,
            ),
        decreases cs@.len() - a,
    {
        assert(cs@.subrange(a as int, cs@.len() as int).drop_first() =~= cs@.subrange(
            a + 1,
            cs@.len() as int,
        ));
        a = a + 1;
    }
    string_from_chars(&cs, a, cs.len())
}

/// Decodes a bridge payload.
fn decode_payload(payload: &str) -> (r: String)
    ensures
        r@ == decoded_payload(payload@),
{
    match b64_decode(payload.as_bytes()) {
        Ok(bytes) => match utf8_decode(bytes.as_slice()) {
            Some(t) => t,
            None => BAD_PAYLOAD.to_owned(),
        },
        Err(_) => BAD_PAYLOAD.to_owned(),
    }
}

/// Decides what the web view does on navigating to `url`: ChatGPT's root
/// page completes a pending login; `aicores://` addresses are intercepted
/// and, when addressed to `r` with a nonce, deliver the bridge answer they
/// carry.
pub fn decide_navigation(url: &str) -> (d: NavigationDecision)
    ensures
        d.login_detected == spec_is_chatgpt_root(url@),
        d.allow == !is_prefix("aicores://"@, url@),
        match (d.delivery, if is_prefix("aicores://"@, url@) {
            bridge_delivery(url@)
        } else {
            None
        }) {
            (Some((n, t)), Some((nv, tv))) => n@ == nv && t@ == tv,
            (None, None) => true,
            _ => false,
        },
{
    let login_detected = is_chatgpt_root(url);
    let cs = chars_of(url);
    let scheme = chars_of("aicores://");
    assert(cs@.subrange(0, cs@.len() as int) =~= cs@);
    let intercepted = has_prefix_at(&cs, 0, cs.len(), &scheme);
    if !intercepted {
        return NavigationDecision { login_detected, delivery: None, allow: true };
    }
    let delivery = match parse_url(url) {
        Some(u) => {
            let to_r = match &u.host {
                Some(h) => text_is(h.as_str(), "r"),
                None => false,
            };
            if to_r {
                let nonce = strip_leading_slashes(u.path.as_str());
                if nonce.unicode_len() > 0 {
                    let payload = match query_value(&u.query, "payload") {
                        Some(p) => p,
                        None => String::new(),
                    };
                    let text = decode_payload(payload.as_str());
                    Some((nonce, text))
                } else {
                    None
                }
            } else {
                None
            }
        },
        None => None,
    };
    NavigationDecision { login_detected, delivery, allow: false }
}


/// A member of an object, or `null` when absent.
pub open spec fn member_or_null(v: JsonV, key: Seq<char>) -> JsonV {
    match v.get(key) {
        Some(x) => x,
        None => JsonV::Null,
    }
}

/// Why a bridge answer to `raw_auth_session` yields no session, if it does
/// not: the answer must be JSON with `ok: true`, and its `auth_session`
/// must hold a string `accessToken` and a non-null `user`.
pub open spec fn bridge_reply_error(raw: Seq<char>) -> Option<Seq<char>> {
    match json_parse(raw) {
        Err(e) => Some("bad session json: "@ + e),
        Ok(p) => if p.get("ok"@) != Some(JsonV::Bool(true)) {
            Some(
                match p.get_str("error"@) {
                    Some(m) => m,
                    None => "unauthenticated session response"@,
                },
            )
        } else {
            let auth = member_or_null(member_or_null(p, "result"@), "auth_session"@);
            if auth.get_str("accessToken"@) is None || auth.get("user"@) is None || auth.get(
                "user"@,
            ) == Some(JsonV::Null) {
                Some("session does not contain valid user/accessToken"@)
            } else {
                None
            }
        },
    }
}

/// A member of an object, copied, or `null`.
fn member_copy(j: &Json, key: &str) -> (r: Json)
    ensures
        r@ == member_or_null(j@, key@),
{
    match j.get(key) {
        Some(x) => x.deep_clone(),
        None => Json::Null,
    }
}

/// A string member of an object, copied.
fn member_string(j: &Json, key: &str) -> (r: Option<String>)
    ensures
        opt_string_view(r) == j@.get_str(key@),
{
    match j.get(key) {
        Some(v) => match v.as_str() {
            Some(t) => Some(t.to_owned()),
            None => None,
        },
        None => None,
    }
}

/// The session that the web view's bridge answer to `raw_auth_session`
/// carries, captured at `now_ms`.
pub fn session_from_bridge_reply(raw: &str, now_ms: u64) -> (r: Result<SessionData, String>)
    ensures
        match bridge_reply_error(raw@) {
            Some(m) => (r matches Err(e) && e@ == m),
            None => {
                let p = json_parse(raw@)->Ok_0;
                let result = member_or_null(p, "result"@);
                let auth = member_or_null(result, "auth_session"@);
                r matches Ok(s) && s.stored_at == now_ms && s.auth_session@ == auth
                    && opt_string_view(s.access_token) == auth.get_str("accessToken"@)
                    && opt_string_view(s.device_id) == result.get_str("device_id"@) && s.cookies is None
            },
        },
{
    let parsed = match parse_json(raw) {
        Ok(p) => p,
        Err(e) => {
            let mut m = "bad session json: ".to_owned();
            push_str(&mut m, e.as_str());
            return Err(m);
        },
    };
    let ok = match parsed.get("ok") {
        Some(v) => match v.as_bool() {
            Some(b) => b,
            None => false,
        },
        None => false,
    };
    if !ok {
        let m = match parsed.get("error") {
            Some(v) => match v.as_str() {
                Some(t) => t.to_owned(),
                None => "unauthenticated session response".to_owned(),
            },
            None => "unauthenticated session response".to_owned(),
        };
        return Err(m);
    }
    let result = member_copy(&parsed, "result");
    let auth_session = member_copy(&result, "auth_session");
    let access_token = member_string(&auth_session, "accessToken");
    let user_ok = match auth_session.get("user") {
        Some(u) => !u.is_null(),
        None => false,
    };
    if access_token.is_none() || !user_ok {
        return Err("session does not contain valid user/accessToken".to_owned());
    }
    let device_id = member_string(&result, "device_id");
    Ok(
        SessionData {
            stored_at: now_ms,
            auth_session,
            device_id,
            access_token,
            cookies: None,
        },
    )
}

/// How a socket request is served.
#[derive(Debug, PartialEq, Eq, Structural)]
pub enum SocketPlan {
    /// Answer with the application's status.
    Status,
    /// Start a login and answer at once.
    Login,
    /// Log out and answer at once.
    Logout,
    /// Stream a chat through the router.
    Stream,
    /// Route the request.
    Route,
}

/// How a socket request for `method` is served.
pub open spec fn spec_socket_plan(method: Seq<char>) -> SocketPlan {
    if method == "auth.status"@ || method == "auth_status"@ {
        SocketPlan::Status
    } else if method == "auth.login"@ || method == "auth_login"@ {
        SocketPlan::Login
    } else if method == "auth.logout"@ || method == "auth_logout"@ {
        SocketPlan::Logout
    } else if method == "chat.stream"@ {
        SocketPlan::Stream
    } else {
        SocketPlan::Route
    }
}

/// How a socket request for `method` is served.
pub fn plan_socket_request(method: &str) -> (p: SocketPlan)
    ensures
        p == spec_socket_plan(method@),
{
    if text_is(method, "auth.status") || text_is(method, "auth_status") {
        SocketPlan::Status
    } else if text_is(method, "auth.login") || text_is(method, "auth_login") {
        SocketPlan::Login
    } else if text_is(method, "auth.logout") || text_is(method, "auth_logout") {
        SocketPlan::Logout
    } else if text_is(method, "chat.stream") {
        SocketPlan::Stream
    } else {
        SocketPlan::Route
    }
}

/// The id of a socket request: its `id` when that is a string, else `req_1`.
pub fn socket_request_id(id: Option<&Json>) -> (r: String)
    ensures
        r@ == match id {
            Some(j) => match j@.as_str() {
                Some(s) => s,
                None => "req_1"@,
            },
            None => "req_1"@,
        },
{
    match id {
        Some(j) => match j.as_str() {
            Some(s) => s.to_owned(),
            None => "req_1".to_owned(),
        },
        None => "req_1".to_owned(),
    }
}

/// Whether the application counts as authenticated: it holds a session and
/// is ready.
pub open spec fn is_authenticated(has_session: bool, state: AuthState) -> bool {
    has_session && state == AuthState::Ready
}

/// The status the application reports over the socket.
pub open spec fn status_json(has_session: bool, state: AuthState, user: JsonV) -> JsonV {
    let authenticated = is_authenticated(has_session, state);
    JsonV::Object(
        seq![
            ("running"@, JsonV::Bool(true)),
            ("authenticated"@, JsonV::Bool(authenticated)),
            ("user"@, user),
            ("authState"@, JsonV::Str(state.spec_name())),
        ],
    )
}

/// The status reply: `user` is the session's user summary, or `null`
/// without a session.
pub fn status_reply(req_id: &str, has_session: bool, state: AuthState, user: Json) -> (r: Response)
    ensures
        r.is_result_with(req_id@, status_json(has_session, state, user@)),
{
    let ghost uv = user@;
    let authenticated = has_session && state == AuthState::Ready;
    let mut es: Vec<(String, Json)> = Vec::new();
    es.push(("running".to_owned(), Json::Bool(true)));
    es.push(("authenticated".to_owned(), Json::Bool(authenticated)));
    es.push(("user".to_owned(), user));
    es.push(("authState".to_owned(), Json::string(state.name())));
    proof {
        crate::json::lemma_object_view(es);
        assert(crate::json::entries_view(es@) =~= status_json(has_session, state, uv)->Object_0);
    }
    Response::result(req_id, Json::Object(es))
}

/// The status the application reports to its own window.
pub open spec fn command_status_json(
    has_session: bool,
    state: AuthState,
    user: JsonV,
    socket_path: Seq<char>,
) -> JsonV {
    let authenticated = is_authenticated(has_session, state);
    JsonV::Object(
        seq![
            ("running"@, JsonV::Bool(true)),
            ("authenticated"@, JsonV::Bool(authenticated)),
            ("authState"@, JsonV::Str(state.spec_name())),
            ("user"@, user),
            ("socketPath"@, JsonV::Str(socket_path)),
        ],
    )
}

/// The status the application reports to its own window.
pub fn command_status(has_session: bool, state: AuthState, user: Json, socket_path: &str) -> (j: Json)
    ensures
        j@ == command_status_json(has_session, state, user@, socket_path@),
{
    let ghost uv = user@;
    let authenticated = has_session && state == AuthState::Ready;
    let mut es: Vec<(String, Json)> = Vec::new();
    es.push(("running".to_owned(), Json::Bool(true)));
    es.push(("authenticated".to_owned(), Json::Bool(authenticated)));
    es.push(("authState".to_owned(), Json::string(state.name())));
    es.push(("user".to_owned(), user));
    es.push(("socketPath".to_owned(), Json::string(socket_path)));
    proof {
        crate::json::lemma_object_view(es);
        assert(crate::json::entries_view(es@) =~= command_status_json(
            has_session,
            state,
            uv,
            socket_path@,
        )->Object_0);
    }
    Json::Object(es)
}

/// The reply to a login or logout request, given before the work is done.
pub fn accepted_reply(req_id: &str) -> (r: Response)
    ensures
        r.is_result_with(req_id@, JsonV::Object(seq![("ok"@, JsonV::Bool(true))])),
{
    Response::result(req_id, obj1("ok", Json::Bool(true)))
}

/// The reply when the router is not yet running.
pub fn router_unavailable(req_id: &str) -> (r: Response)
    ensures
        r.is_error_with(req_id@, ERR_PROVIDER_UNAVAILABLE@, "Router not initialized"@),
{
    Response::error(req_id, ERR_PROVIDER_UNAVAILABLE, "Router not initialized")
}


/// Where a login, logout or startup procedure of the application stands.
#[derive(Debug, PartialEq, Eq, Structural)]
pub enum LifecycleStep {
    Idle,
    LoginNeedsWindow,
    LoginAwaitingUser,
    LoginCapturing,
    LogoutNeedsWindow,
    StartupNeedsWindow,
    StartupAwaitingPage,
    StartupCapturing,
}

/// The outcome of the last piece of lifecycle work, or a request to start one.
#[derive(Debug)]
pub enum LifecycleEvent {
    LoginRequested,
    LogoutRequested,
    StartupRequested,
    /// Whether the main window exists.
    Window(bool),
    /// The wait for the user's login ended (signalled or timed out) and the
    /// settling pause passed.
    LoginSignalled,
    /// The pause after opening ChatGPT at startup passed.
    PageSettled,
    /// The session read through the web view's bridge.
    Captured(Result<SessionData, String>),
}

/// The next piece of lifecycle work.
#[derive(Debug)]
pub enum LifecycleAction {
    FindWindow,
    /// Delete the stored session, then look for the main window.
    ClearSessionAndFindWindow,
    /// Show the window on the login page, arm the login signal and wait for it.
    ShowLoginPage,
    /// Open ChatGPT's root page and pause.
    NavigateRootAndPause,
    CaptureSession,
    /// Store and hold this session and hide the window; the procedure succeeded.
    AdoptSession(SessionData),
    /// Show the window on the login page and drop the held session; the logout succeeded.
    ForgetSession,
    /// The procedure failed with this message.
    Fail(String),
    /// Startup found no valid session: delete the stored one and start a login.
    StartLogin,
    /// Nothing more to do.
    Nothing,
}

/// Whether `e` is what step `s` waits for.
pub open spec fn lifecycle_accepts(s: LifecycleStep, e: LifecycleEvent) -> bool {
    match s {
        LifecycleStep::Idle => e is LoginRequested || e is LogoutRequested || e is StartupRequested,
        LifecycleStep::LoginNeedsWindow => e is Window,
        LifecycleStep::LoginAwaitingUser => e is LoginSignalled,
        LifecycleStep::LoginCapturing => e is Captured,
        LifecycleStep::LogoutNeedsWindow => e is Window,
        LifecycleStep::StartupNeedsWindow => e is Window,
        LifecycleStep::StartupAwaitingPage => e is PageSettled,
        LifecycleStep::StartupCapturing => e is Captured,
    }
}

/// The lifecycle's step from step `s` and state `a` on event `e`, to step
/// `s2`, state `a2` and work `w`.
pub open spec fn lifecycle_step(
    s: LifecycleStep,
    a: AuthState,
    e: LifecycleEvent,
    s2: LifecycleStep,
    a2: AuthState,
    w: LifecycleAction,
) -> bool {
    match (s, e) {
        (LifecycleStep::Idle, LifecycleEvent::LoginRequested) => s2 == LifecycleStep::LoginNeedsWindow
            && a2 == AuthState::LoginRequired && w is FindWindow,
        (LifecycleStep::Idle, LifecycleEvent::LogoutRequested) => s2 == LifecycleStep::LogoutNeedsWindow
            && a2 == a && w is ClearSessionAndFindWindow,
        (LifecycleStep::Idle, LifecycleEvent::StartupRequested) => s2
            == LifecycleStep::StartupNeedsWindow && a2 == AuthState::InitializingWebview
            && w is FindWindow,
        (LifecycleStep::LoginNeedsWindow, LifecycleEvent::Window(found)) => if found {
            s2 == LifecycleStep::LoginAwaitingUser && a2 == AuthState::UserLogin && w is ShowLoginPage
        } else {
            s2 == LifecycleStep::Idle && a2 == a && (w matches LifecycleAction::Fail(m) && m@
                == "main window not found"@)
        },
        (LifecycleStep::LoginAwaitingUser, _) => s2 == LifecycleStep::LoginCapturing && a2
            == AuthState::CheckingSession && w is CaptureSession,
        (LifecycleStep::LoginCapturing, LifecycleEvent::Captured(Ok(sess))) => s2 == LifecycleStep::Idle
            && a2 == AuthState::Ready && (w matches LifecycleAction::AdoptSession(x) && x == sess),
        (LifecycleStep::LoginCapturing, LifecycleEvent::Captured(Err(m))) => s2 == LifecycleStep::Idle
            && a2 == AuthState::LoginRequired && (w matches LifecycleAction::Fail(x) && x@ == m@),
        (LifecycleStep::LogoutNeedsWindow, LifecycleEvent::Window(found)) => if found {
            s2 == LifecycleStep::Idle && a2 == AuthState::LoginRequired && w is ForgetSession
        } else {
            s2 == LifecycleStep::Idle && a2 == a && (w matches LifecycleAction::Fail(m) && m@
                == "main window not found"@)
        },
        (LifecycleStep::StartupNeedsWindow, LifecycleEvent::Window(found)) => if found {
            s2 == LifecycleStep::StartupAwaitingPage && a2 == a && w is NavigateRootAndPause
        } else {
            s2 == LifecycleStep::Idle && a2 == a && w is Nothing
        },
        (LifecycleStep::StartupAwaitingPage, _) => s2 == LifecycleStep::StartupCapturing && a2
            == AuthState::CheckingSession && w is CaptureSession,
        (LifecycleStep::StartupCapturing, LifecycleEvent::Captured(Ok(sess))) => s2
            == LifecycleStep::Idle && a2 == AuthState::Ready && (
        w matches LifecycleAction::AdoptSession(x) && x == sess),
        (LifecycleStep::StartupCapturing, LifecycleEvent::Captured(Err(_))) => s2
            == LifecycleStep::Idle && a2 == a && w is StartLogin,
        _ => false,
    }
}

impl LifecycleStep {
    /// Whether `e` is what this step waits for.
    pub fn accepts(&self, e: &LifecycleEvent) -> (b: bool)
        ensures
            b == lifecycle_accepts(*self, *e),
    {
        match self {
            LifecycleStep::Idle => matches!(e, LifecycleEvent::LoginRequested)
                || matches!(e, LifecycleEvent::LogoutRequested)
                || matches!(e, LifecycleEvent::StartupRequested),
            LifecycleStep::LoginNeedsWindow => matches!(e, LifecycleEvent::Window(_)),
            LifecycleStep::LoginAwaitingUser => matches!(e, LifecycleEvent::LoginSignalled),
            LifecycleStep::LoginCapturing => matches!(e, LifecycleEvent::Captured(_)),
            LifecycleStep::LogoutNeedsWindow => matches!(e, LifecycleEvent::Window(_)),
            LifecycleStep::StartupNeedsWindow => matches!(e, LifecycleEvent::Window(_)),
            LifecycleStep::StartupAwaitingPage => matches!(e, LifecycleEvent::PageSettled),
            LifecycleStep::StartupCapturing => matches!(e, LifecycleEvent::Captured(_)),
        }
    }
}

/// The lifecycle's step: from where a procedure stands, the application's
/// state and an event, to where it stands next, the next state and the
/// next piece of work.
pub fn advance_lifecycle(step: LifecycleStep, state: AuthState, event: LifecycleEvent) -> (r: (
    LifecycleStep,
    AuthState,
    LifecycleAction,
))
    requires
        lifecycle_accepts(step, event),
    ensures
        lifecycle_step(step, state, event, r.0, r.1, r.2),
{
    match step {
        LifecycleStep::Idle => match event {
            LifecycleEvent::LoginRequested => (
                LifecycleStep::LoginNeedsWindow,
                AuthState::LoginRequired,
                LifecycleAction::FindWindow,
            ),
            LifecycleEvent::LogoutRequested => (
                LifecycleStep::LogoutNeedsWindow,
                state,
                LifecycleAction::ClearSessionAndFindWindow,
            ),
            _ => (
                LifecycleStep::StartupNeedsWindow,
                AuthState::InitializingWebview,
                LifecycleAction::FindWindow,
            ),
        },
        LifecycleStep::LoginNeedsWindow => match event {
            LifecycleEvent::Window(true) => (
                LifecycleStep::LoginAwaitingUser,
                AuthState::UserLogin,
                LifecycleAction::ShowLoginPage,
            ),
            _ => (
                LifecycleStep::Idle,
                state,
                LifecycleAction::Fail("main window not found".to_owned()),
            ),
        },
        LifecycleStep::LoginAwaitingUser => (
            LifecycleStep::LoginCapturing,
            AuthState::CheckingSession,
            LifecycleAction::CaptureSession,
        ),
        LifecycleStep::LoginCapturing => match event {
            LifecycleEvent::Captured(Ok(sess)) => (
                LifecycleStep::Idle,
                AuthState::Ready,
                LifecycleAction::AdoptSession(sess),
            ),
            LifecycleEvent::Captured(Err(m)) => (
                LifecycleStep::Idle,
                AuthState::LoginRequired,
                LifecycleAction::Fail(m),
            ),
            _ => (LifecycleStep::Idle, state, LifecycleAction::Nothing),
        },
        LifecycleStep::LogoutNeedsWindow => match event {
            LifecycleEvent::Window(true) => (
                LifecycleStep::Idle,
                AuthState::LoginRequired,
                LifecycleAction::ForgetSession,
            ),
            _ => (
                LifecycleStep::Idle,
                state,
                LifecycleAction::Fail("main window not found".to_owned()),
            ),
        },
        LifecycleStep::StartupNeedsWindow => match event {
            LifecycleEvent::Window(true) => (
                LifecycleStep::StartupAwaitingPage,
                state,
                LifecycleAction::NavigateRootAndPause,
            ),
            _ => (LifecycleStep::Idle, state, LifecycleAction::Nothing),
        },
        LifecycleStep::StartupAwaitingPage => (
            LifecycleStep::StartupCapturing,
            AuthState::CheckingSession,
            LifecycleAction::CaptureSession,
        ),
        LifecycleStep::StartupCapturing => match event {
            LifecycleEvent::Captured(Ok(sess)) => (
                LifecycleStep::Idle,
                AuthState::Ready,
                LifecycleAction::AdoptSession(sess),
            ),
            _ => (LifecycleStep::Idle, state, LifecycleAction::StartLogin),
        },
    }
}

/// The application becomes ready only by adopting a session that it has
/// just captured: no step makes it ready otherwise.
pub proof fn lemma_ready_only_by_capture(
    s: LifecycleStep,
    a: AuthState,
    e: LifecycleEvent,
    s2: LifecycleStep,
    a2: AuthState,
    w: LifecycleAction,
)
    requires
        lifecycle_step(s, a, e, s2, a2, w),
        a2 == AuthState::Ready,
        a != AuthState::Ready,
    ensures
        w is AdoptSession,
        e matches LifecycleEvent::Captured(Ok(sess)) && w == LifecycleAction::AdoptSession(sess),
{
}

/// A failed login always leaves the application requiring a login.
pub proof fn lemma_failed_login_requires_login(
    a: AuthState,
    m: String,
    s2: LifecycleStep,
    a2: AuthState,
    w: LifecycleAction,
)
    requires
        lifecycle_step(
            LifecycleStep::LoginCapturing,
            a,
            LifecycleEvent::Captured(Err(m)),
            s2,
            a2,
            w,
        ),
    ensures
        a2 == AuthState::LoginRequired,
        s2 == LifecycleStep::Idle,
{
}

/// A completed logout, the step that forgets the session, always leaves the
/// application idle and asking for a login, whatever its state before; and
/// a procedure that adopts a session always leaves it ready.
pub proof fn lemma_logout_requires_login(
    s: LifecycleStep,
    a: AuthState,
    e: LifecycleEvent,
    s2: LifecycleStep,
    a2: AuthState,
    w: LifecycleAction,
)
    requires
        lifecycle_step(s, a, e, s2, a2, w),
    ensures
        w is ForgetSession ==> s2 == LifecycleStep::Idle && a2 == AuthState::LoginRequired,
        w is AdoptSession ==> s2 == LifecycleStep::Idle && a2 == AuthState::Ready,
        w is ForgetSession ==> s == LifecycleStep::LogoutNeedsWindow && e
            == LifecycleEvent::Window(true),
        (w is Fail || w is StartLogin || w is Nothing) ==> s2 == LifecycleStep::Idle,
{
}

} // verus!
