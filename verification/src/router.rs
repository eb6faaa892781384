//! The request router's decisions. Routing a request alternates work on
//! storage, the stored credentials and the provider with decisions; the
//! decisions are a step function from the routing state and the outcome of
//! the last piece of work to the next state and the next piece of work, the
//! last of which is always the reply.

use vstd::prelude::*;

use crate::json::{obj1, obj2, obj3, Json, JsonV};
use crate::protocol::{
    Request, Response, ERR_INVALID_REQUEST, ERR_PERMISSION_DENIED, ERR_AUTH_REQUIRED,
    ERR_DOWNLOAD_FAILED, ERR_PROVIDER_ERROR, ERR_UPLOAD_FAILED, PROTOCOL_VERSION,
};
use crate::files::{download_plan, query_view, ChatGPTFileClient};
use crate::schema::opt_string_view;
use crate::text::{
    chars_equal, chars_of, decimal, push_decimal, push_str, string_from_chars, trim, trim_range,
};

verus! {

/// The code of a reply that reports a storage failure.
pub const ERR_STORAGE: &'static str = "STORAGE_ERROR";

/// What the permission table said for a client and method.
#[derive(Debug)]
pub enum PermissionLookup {
    /// No connection to the database could be opened; the message says why.
    NoConnection(String),
    /// The table holds an entry.
    Found(bool),
    /// The table holds no entry (or could not be read).
    Missing,
}

/// What the stored credentials say.
#[derive(Debug)]
pub struct SessionSummary {
    pub stored_at: u64,
    pub has_access_token: bool,
}

/// The conversation ids stored for a session.
#[derive(Debug)]
pub struct StoredIds {
    pub conversation_id: Option<String>,
    pub parent_message_id: Option<String>,
}

/// Where the routing of one request stands.
#[derive(Debug)]
pub enum RouteState {
    Start,
    AwaitPermission,
    AwaitAuthStatus,
    AwaitLogout,
    AwaitChatAuth,
    AwaitChatSession { session_id: String, message: String },
    AwaitChatReply { session_id: String },
    AwaitChatSaved { result: Json },
    AwaitNewSessionId,
    AwaitSessionCreated { session_id: String },
    AwaitConversation,
    AwaitReset,
    AwaitUpload,
    AwaitDownload,
    Finished,
}

/// The outcome of the last piece of work.
#[derive(Debug)]
pub enum RouteEvent {
    Begin,
    Permission(PermissionLookup),
    SessionStatus(Option<SessionSummary>),
    Cleared,
    Authenticated(bool),
    /// The stored ids of a session; `Err` when no connection could be opened.
    StoredSession(Result<Option<StoredIds>, String>),
    ProviderReply(Result<Json, String>),
    Saved,
    NewSessionId(String),
    SessionCreated,
    /// The stored session record, as JSON, if there is one.
    Conversation(Option<Json>),
    ResetDone,
    Uploaded(Result<String, String>),
    /// The address the download answer gave, or why there is none.
    Downloaded(Result<String, String>),
}

/// The next piece of work.
#[derive(Debug)]
pub enum RouteAction {
    /// Send this reply; routing is over.
    Reply(Response),
    LookupPermission { client_id: String, method: String },
    LoadSessionStatus,
    ClearSession,
    CheckAuthentication,
    LookupStoredSession { session_id: String },
    SendChat {
        session_id: String,
        message: String,
        conversation_id: Option<String>,
        parent_message_id: Option<String>,
    },
    /// Record the session (creating it when new) with these ids.
    SaveChat { session_id: String, conversation_id: Option<String>, message_id: Option<String> },
    NewSessionId,
    CreateSession { session_id: String },
    GetConversation { session_id: String },
    ResetConversation { session_id: String },
    Upload { path: String },
    /// Ask for the address of a download, with these query parameters.
    Download { url: String, query: Vec<(String, String)> },
}

/// Whether `e` is an outcome of the work that state `s` waits for.
pub open spec fn accepts(s: RouteState, e: RouteEvent) -> bool {
    match s {
        RouteState::Start => e is Begin,
        RouteState::AwaitPermission => e is Permission,
        RouteState::AwaitAuthStatus => e is SessionStatus,
        RouteState::AwaitLogout => e is Cleared,
        RouteState::AwaitChatAuth => e is Authenticated,
        RouteState::AwaitChatSession { .. } => e is StoredSession,
        RouteState::AwaitChatReply { .. } => e is ProviderReply,
        RouteState::AwaitChatSaved { .. } => e is Saved,
        RouteState::AwaitNewSessionId => e is NewSessionId,
        RouteState::AwaitSessionCreated { .. } => e is SessionCreated,
        RouteState::AwaitConversation => e is Conversation,
        RouteState::AwaitReset => e is ResetDone,
        RouteState::AwaitUpload => e is Uploaded,
        RouteState::AwaitDownload => e is Downloaded,
        RouteState::Finished => false,
    }
}

impl RouteState {
    /// Whether `e` is an outcome of the work this state waits for.
    pub fn accepts(&self, e: &RouteEvent) -> (b: bool)
        ensures
            b == accepts(*self, *e),
    {
        match self {
            RouteState::Start => matches!(e, RouteEvent::Begin),
            RouteState::AwaitPermission => matches!(e, RouteEvent::Permission(_)),
            RouteState::AwaitAuthStatus => matches!(e, RouteEvent::SessionStatus(_)),
            RouteState::AwaitLogout => matches!(e, RouteEvent::Cleared),
            RouteState::AwaitChatAuth => matches!(e, RouteEvent::Authenticated(_)),
            RouteState::AwaitChatSession { .. } => matches!(e, RouteEvent::StoredSession(_)),
            RouteState::AwaitChatReply { .. } => matches!(e, RouteEvent::ProviderReply(_)),
            RouteState::AwaitChatSaved { .. } => matches!(e, RouteEvent::Saved),
            RouteState::AwaitNewSessionId => matches!(e, RouteEvent::NewSessionId(_)),
            RouteState::AwaitSessionCreated { .. } => matches!(e, RouteEvent::SessionCreated),
            RouteState::AwaitConversation => matches!(e, RouteEvent::Conversation(_)),
            RouteState::AwaitReset => matches!(e, RouteEvent::ResetDone),
            RouteState::AwaitUpload => matches!(e, RouteEvent::Uploaded(_)),
            RouteState::AwaitDownload => matches!(e, RouteEvent::Downloaded(_)),
            RouteState::Finished => false,
        }
    }
}

/// A string parameter of the request, or a default.
pub open spec fn param_str(params: JsonV, key: Seq<char>, default: Seq<char>) -> Seq<char> {
    match params.get_str(key) {
        Some(s) => s,
        None => default,
    }
}

/// The result of `system.ping`.
pub open spec fn pong_json() -> JsonV {
    JsonV::Object(seq![("pong"@, JsonV::Bool(true))])
}

/// The result of `core.info`.
pub open spec fn info_json() -> JsonV {
    JsonV::Object(
        seq![
            ("name"@, JsonV::Str("AICore"@)),
            ("version"@, JsonV::Int(PROTOCOL_VERSION as int)),
            ("status"@, JsonV::Str("running"@)),
        ],
    )
}

/// The result of `auth.login`.
pub open spec fn login_json() -> JsonV {
    JsonV::Object(
        seq![
            ("loginUrl"@, JsonV::Str("https://chatgpt.com/auth/login"@)),
            ("instructions"@, JsonV::Str("Open browser to login and complete authentication"@)),
        ],
    )
}

/// `{"success": true}`.
pub open spec fn success_json() -> JsonV {
    JsonV::Object(seq![("success"@, JsonV::Bool(true))])
}

/// The result of `auth.status`.
pub open spec fn auth_status_json(s: Option<SessionSummary>) -> JsonV {
    let logged_in = s is Some;
    let stored_at = match s {
        Some(x) => JsonV::Int(x.stored_at as int),
        None => JsonV::Null,
    };
    let has_token = match s {
        Some(x) => x.has_access_token,
        None => false,
    };
    JsonV::Object(
        seq![
            ("loggedIn"@, JsonV::Bool(logged_in)),
            ("storedAt"@, stored_at),
            ("hasAccessToken"@, JsonV::Bool(has_token)),
        ],
    )
}

/// Whether `a` replies to `req` with a result frame carrying `result`.
pub open spec fn replies_result(req: Request, a: RouteAction, result: JsonV) -> bool {
    a matches RouteAction::Reply(r) && r.is_result_with(req.id@, result)
}

/// Whether `a` replies to `req` with an error frame.
pub open spec fn replies_error(req: Request, a: RouteAction, code: Seq<char>, message: Seq<char>) -> bool {
    a matches RouteAction::Reply(r) && r.is_error_with(req.id@, code, message)
}

/// The step into the method's own work, once the request is admitted.
pub open spec fn dispatched(req: Request, s: RouteState, a: RouteAction) -> bool {
    let m = req.method@;
    if m == "system.ping"@ {
        s is Finished && replies_result(req, a, pong_json())
    } else if m == "core.info"@ {
        s is Finished && replies_result(req, a, info_json())
    } else if m == "auth.status"@ {
        s is AwaitAuthStatus && a is LoadSessionStatus
    } else if m == "auth.login"@ {
        s is Finished && replies_result(req, a, login_json())
    } else if m == "auth.logout"@ {
        s is AwaitLogout && a is ClearSession
    } else if m == "chat.send"@ {
        s is AwaitChatAuth && a is CheckAuthentication
    } else if m == "conversation.create"@ {
        s is AwaitNewSessionId && a is NewSessionId
    } else if m == "conversation.get"@ {
        &&& s is AwaitConversation
        &&& a matches RouteAction::GetConversation { session_id } && session_id@ == param_str(
            req.params@,
            "sessionId"@,
            ""@,
        )
    } else if m == "conversation.reset"@ {
        &&& s is AwaitReset
        &&& a matches RouteAction::ResetConversation { session_id } && session_id@ == param_str(
            req.params@,
            "sessionId"@,
            ""@,
        )
    } else if m == "file.upload"@ {
        &&& s is AwaitUpload
        &&& a matches RouteAction::Upload { path } && path@ == param_str(
            req.params@,
            "path"@,
            ""@,
        )
    } else if m == "file.download"@ || m == "image.download"@ {
        match download_plan(m == "image.download"@, req.params@) {
            Ok((u, q)) => {
                &&& s is AwaitDownload
                &&& a matches RouteAction::Download { url, query } && url@ == u && query_view(
                    query@,
                ) == q
            },
            Err(msg) => s is Finished && replies_error(req, a, ERR_INVALID_REQUEST@, msg),
        }
    } else {
        s is Finished && replies_error(req, a, ERR_INVALID_REQUEST@, "Unknown method: "@ + m)
    }
}

/// The stored conversation id, if any.
pub open spec fn stored_conversation(ids: Option<StoredIds>) -> Option<Seq<char>> {
    match ids {
        Some(x) => opt_string_view(x.conversation_id),
        None => None,
    }
}

/// The stored parent message id, if any.
pub open spec fn stored_parent(ids: Option<StoredIds>) -> Option<Seq<char>> {
    match ids {
        Some(x) => opt_string_view(x.parent_message_id),
        None => None,
    }
}

/// The message of a permission refusal.
pub open spec fn denial_message(client_id: Seq<char>, method: Seq<char>) -> Seq<char> {
    "Client '"@ + client_id + "' is denied permission for method '"@ + method + "'"@
}

/// The step of the router from state `s` on outcome `e`, to state `s2` and
/// work `a`.
pub open spec fn route_step(
    req: Request,
    s: RouteState,
    e: RouteEvent,
    s2: RouteState,
    a: RouteAction,
) -> bool {
    match s {
        RouteState::Start => if req.version != PROTOCOL_VERSION {
            s2 is Finished && replies_error(
                req,
                a,
                ERR_INVALID_REQUEST@,
                "Unsupported protocol version: "@ + decimal(req.version as nat),
            )
        } else {
            match req.client {
                Some(c) => {
                    &&& s2 is AwaitPermission
                    &&& a matches RouteAction::LookupPermission { client_id, method } && client_id@
                        == c.id@ && method@ == req.method@
                },
                None => dispatched(req, s2, a),
            }
        },
        RouteState::AwaitPermission => match e {
            RouteEvent::Permission(PermissionLookup::NoConnection(msg)) => s2 is Finished
                && replies_error(req, a, ERR_STORAGE@, msg@),
            RouteEvent::Permission(PermissionLookup::Found(false)) => s2 is Finished
                && replies_error(
                req,
                a,
                ERR_PERMISSION_DENIED@,
                denial_message(
                    match req.client {
                        Some(c) => c.id@,
                        None => Seq::empty(),
                    },
                    req.method@,
                ),
            ),
            _ => dispatched(req, s2, a),
        },
        RouteState::AwaitAuthStatus => match e {
            RouteEvent::SessionStatus(st) => s2 is Finished && replies_result(
                req,
                a,
                auth_status_json(st),
            ),
            _ => false,
        },
        RouteState::AwaitLogout => s2 is Finished && replies_result(req, a, success_json()),
        RouteState::AwaitChatAuth => match e {
            RouteEvent::Authenticated(false) => s2 is Finished && replies_error(
                req,
                a,
                ERR_AUTH_REQUIRED@,
                "AICore is not authenticated with ChatGPT"@,
            ),
            _ => {
                let sid = param_str(req.params@, "sessionId"@, "default_session"@);
                let msg = param_str(req.params@, "message"@, ""@);
                &&& s2 matches RouteState::AwaitChatSession { session_id, message } && session_id@
                    == sid && message@ == msg
                &&& a matches RouteAction::LookupStoredSession { session_id } && session_id@ == sid
            },
        },
        RouteState::AwaitChatSession { session_id, message } => match e {
            RouteEvent::StoredSession(Err(msg)) => s2 is Finished && replies_error(
                req,
                a,
                ERR_STORAGE@,
                msg@,
            ),
            RouteEvent::StoredSession(Ok(ids)) => {
                &&& s2 matches RouteState::AwaitChatReply { session_id: sid2 } && sid2@
                    == session_id@
                &&& a matches RouteAction::SendChat {
                    session_id: sid3,
                    message: m3,
                    conversation_id,
                    parent_message_id,
                } && sid3@ == session_id@ && m3@ == message@ && opt_string_view(conversation_id)
                    == stored_conversation(ids) && opt_string_view(parent_message_id)
                    == stored_parent(ids)
            },
            _ => false,
        },
        RouteState::AwaitChatReply { session_id } => match e {
            RouteEvent::ProviderReply(Err(msg)) => s2 is Finished && replies_error(
                req,
                a,
                ERR_PROVIDER_ERROR@,
                msg@,
            ),
            RouteEvent::ProviderReply(Ok(result)) => {
                &&& s2 matches RouteState::AwaitChatSaved { result: r2 } && r2@ == result@
                &&& a matches RouteAction::SaveChat { session_id: sid2, conversation_id, message_id }
                    && sid2@ == session_id@ && opt_string_view(conversation_id) == result@.get_str(
                    "conversationId"@,
                ) && opt_string_view(message_id) == result@.get_str("messageId"@)
            },
            _ => false,
        },
        RouteState::AwaitChatSaved { result } => s2 is Finished && replies_result(
            req,
            a,
            result@,
        ),
        RouteState::AwaitNewSessionId => match e {
            RouteEvent::NewSessionId(u) => {
                &&& s2 matches RouteState::AwaitSessionCreated { session_id } && session_id@
                    == "session_"@ + u@
                &&& a matches RouteAction::CreateSession { session_id: sid2 } && sid2@ == "session_"@
                    + u@
            },
            _ => false,
        },
        RouteState::AwaitSessionCreated { session_id } => s2 is Finished && replies_result(
            req,
            a,
            JsonV::Object(seq![("sessionId"@, JsonV::Str(session_id@))]),
        ),
        RouteState::AwaitConversation => match e {
            RouteEvent::Conversation(Some(rec)) => s2 is Finished && replies_result(
                req,
                a,
                rec@,
            ),
            RouteEvent::Conversation(None) => s2 is Finished && replies_result(
                req,
                a,
                JsonV::Object(seq![("found"@, JsonV::Bool(false))]),
            ),
            _ => false,
        },
        RouteState::AwaitReset => s2 is Finished && replies_result(req, a, success_json()),
        RouteState::AwaitUpload => match e {
            RouteEvent::Uploaded(Ok(id)) => s2 is Finished && replies_result(
                req,
                a,
                JsonV::Object(seq![("fileId"@, JsonV::Str(id@))]),
            ),
            RouteEvent::Uploaded(Err(msg)) => s2 is Finished && replies_error(
                req,
                a,
                ERR_UPLOAD_FAILED@,
                msg@,
            ),
            _ => false,
        },
        RouteState::AwaitDownload => match e {
            RouteEvent::Downloaded(Ok(u)) => s2 is Finished && replies_result(
                req,
                a,
                JsonV::Object(seq![("url"@, JsonV::Str(u@))]),
            ),
            RouteEvent::Downloaded(Err(msg)) => s2 is Finished && replies_error(
                req,
                a,
                ERR_DOWNLOAD_FAILED@,
                msg@,
            ),
            _ => false,
        },
        RouteState::Finished => false,
    }
}


/// How many more steps routing can take from a state at most.
pub open spec fn steps_left(s: RouteState) -> nat {
    match s {
        RouteState::Start => 6,
        RouteState::AwaitPermission => 5,
        RouteState::AwaitChatAuth => 4,
        RouteState::AwaitChatSession { .. } => 3,
        RouteState::AwaitChatReply { .. } => 2,
        RouteState::AwaitNewSessionId => 2,
        RouteState::Finished => 0,
        _ => 1,
    }
}

/// Every reply the router gives is a current-version frame answering the
/// request's id, and it is given exactly when routing is over.
pub proof fn lemma_reply_answers_request(
    req: Request,
    s: RouteState,
    e: RouteEvent,
    s2: RouteState,
    a: RouteAction,
)
    requires
        route_step(req, s, e, s2, a),
    ensures
        (a is Reply) == (s2 is Finished),
        a matches RouteAction::Reply(r) ==> r.spec_id() == req.id@ && r.spec_version()
            == PROTOCOL_VERSION,
{
}

/// Each step brings routing closer to its end: a request is answered within
/// six steps.
pub proof fn lemma_routing_progresses(
    req: Request,
    s: RouteState,
    e: RouteEvent,
    s2: RouteState,
    a: RouteAction,
)
    requires
        route_step(req, s, e, s2, a),
    ensures
        steps_left(s2) < steps_left(s),
{
}

/// A request of another protocol version is refused at once, whatever it asks.
pub proof fn lemma_wrong_version_refused(
    req: Request,
    e: RouteEvent,
    s2: RouteState,
    a: RouteAction,
)
    requires
        req.version != PROTOCOL_VERSION,
        route_step(req, RouteState::Start, e, s2, a),
    ensures
        s2 is Finished,
        a matches RouteAction::Reply(r) && r->Error_error.code@ == ERR_INVALID_REQUEST@,
{
}

/// A client refused a method gets a permission error and nothing of the
/// method is done.
pub proof fn lemma_denied_client_refused(
    req: Request,
    s2: RouteState,
    a: RouteAction,
)
    requires
        route_step(
            req,
            RouteState::AwaitPermission,
            RouteEvent::Permission(PermissionLookup::Found(false)),
            s2,
            a,
        ),
    ensures
        s2 is Finished,
        a matches RouteAction::Reply(r) && r is Error && r->Error_error.code@
            == ERR_PERMISSION_DENIED@ && r.spec_id() == req.id@,
        req.client matches Some(c) ==> (a matches RouteAction::Reply(r)
            && r->Error_error.message@ == "Client '"@ + c.id@ + "' is denied permission for method '"@
            + req.method@ + "'"@),
{
}

/// A request that names its client is dispatched only after the permission
/// table is asked about exactly that client and method.
pub proof fn lemma_client_checked_first(req: Request, e: RouteEvent, s2: RouteState, a: RouteAction)
    requires
        req.version == PROTOCOL_VERSION,
        req.client is Some,
        route_step(req, RouteState::Start, e, s2, a),
    ensures
        s2 is AwaitPermission,
        a matches RouteAction::LookupPermission { client_id, method } && client_id@
            == req.client.unwrap().id@ && method@ == req.method@,
{
}

/// Only an explicit refusal in the permission table keeps a client from a
/// method: when the table holds no entry, or an entry that allows it, the
/// step is exactly the one the same request would take without any client
/// information (the method is dispatched).
pub proof fn lemma_permission_only_refused_explicitly(
    req: Request,
    lookup: PermissionLookup,
    s2: RouteState,
    a: RouteAction,
)
    requires
        req.version == PROTOCOL_VERSION,
        lookup is Missing || lookup == PermissionLookup::Found(true),
    ensures
        route_step(req, RouteState::AwaitPermission, RouteEvent::Permission(lookup), s2, a)
            <==> route_step(
            Request {
                version: req.version,
                id: req.id,
                method: req.method,
                params: req.params,
                client: None,
            },
            RouteState::Start,
            RouteEvent::Begin,
            s2,
            a,
        ),
{
}

/// A chat message is never sent to the provider without stored credentials.
pub proof fn lemma_chat_requires_credentials(req: Request, s2: RouteState, a: RouteAction)
    requires
        route_step(req, RouteState::AwaitChatAuth, RouteEvent::Authenticated(false), s2, a),
    ensures
        s2 is Finished,
        a matches RouteAction::Reply(r) && r is Error && r->Error_error.code@
            == ERR_AUTH_REQUIRED@,
{
}

/// Whether `s` is the text `lit`.
fn str_is(s: &str, lit: &str) -> (b: bool)
    ensures
        b == (s@ == lit@),
{
    let a = chars_of(s);
    let l = chars_of(lit);
    chars_equal(&a, &l)
}

/// A string parameter of the request, or a default.
fn param_string(params: &Json, key: &str, default: &str) -> (s: String)
    ensures
        s@ == param_str(params@, key@, default@),
{
    match params.get(key) {
        Some(v) => match v.as_str() {
            Some(t) => t.to_owned(),
            None => default.to_owned(),
        },
        None => default.to_owned(),
    }
}

/// A result reply.
fn reply_result(req: &Request, result: Json) -> (a: RouteAction)
    ensures
        replies_result(*req, a, result@),
{
    RouteAction::Reply(Response::result(req.id.as_str(), result))
}

/// An error reply.
fn reply_error(req: &Request, code: &str, message: &str) -> (a: RouteAction)
    ensures
        replies_error(*req, a, code@, message@),
{
    RouteAction::Reply(Response::error(req.id.as_str(), code, message))
}

/// The step into the method's own work.
fn dispatch(req: &Request) -> (r: (RouteState, RouteAction))
    ensures
        dispatched(*req, r.0, r.1),
{
    let m = req.method.as_str();
    if str_is(m, "system.ping") {
        (RouteState::Finished, reply_result(req, obj1("pong", Json::Bool(true))))
    } else if str_is(m, "core.info") {
        let j = obj3(
            "name",
            Json::string("AICore"),
            "version",
            Json::Int(PROTOCOL_VERSION as i128),
            "status",
            Json::string("running"),
        );
        (RouteState::Finished, reply_result(req, j))
    } else if str_is(m, "auth.status") {
        (RouteState::AwaitAuthStatus, RouteAction::LoadSessionStatus)
    } else if str_is(m, "auth.login") {
        let j = obj2(
            "loginUrl",
            Json::string("https://chatgpt.com/auth/login"),
            "instructions",
            Json::string("Open browser to login and complete authentication"),
        );
        (RouteState::Finished, reply_result(req, j))
    } else if str_is(m, "auth.logout") {
        (RouteState::AwaitLogout, RouteAction::ClearSession)
    } else if str_is(m, "chat.send") {
        (RouteState::AwaitChatAuth, RouteAction::CheckAuthentication)
    } else if str_is(m, "conversation.create") {
        (RouteState::AwaitNewSessionId, RouteAction::NewSessionId)
    } else if str_is(m, "conversation.get") {
        let sid = param_string(&req.params, "sessionId", "");
        (RouteState::AwaitConversation, RouteAction::GetConversation { session_id: sid })
    } else if str_is(m, "conversation.reset") {
        let sid = param_string(&req.params, "sessionId", "");
        (RouteState::AwaitReset, RouteAction::ResetConversation { session_id: sid })
    } else if str_is(m, "file.upload") {
        let path = param_string(&req.params, "path", "");
        (RouteState::AwaitUpload, RouteAction::Upload { path })
    } else if str_is(m, "file.download") || str_is(m, "image.download") {
        let image = str_is(m, "image.download");
        match ChatGPTFileClient::download_sandbox_file(image, &req.params) {
            Ok(d) => (RouteState::AwaitDownload, RouteAction::Download { url: d.url, query: d.query }),
            Err(msg) => (RouteState::Finished, reply_error(req, ERR_INVALID_REQUEST, msg.as_str())),
        }
    } else {
        let mut msg = "Unknown method: ".to_owned();
        push_str(&mut msg, m);
        (RouteState::Finished, reply_error(req, ERR_INVALID_REQUEST, msg.as_str()))
    }
}

/// How a request read from a connection is served.
#[derive(Debug)]
pub enum StreamPlan {
    /// Refuse it with this frame.
    Refuse(Response),
    /// Stream a chat message in this session.
    Stream { session_id: String, message: String },
    /// Route it and send the one reply.
    Route,
}

/// Plans a request on a streaming connection: another protocol version is
/// refused; `chat.stream` is streamed with its `sessionId` (default
/// `default_session`) and `message` (default empty); the rest is routed.
pub fn plan_stream(req: &Request) -> (p: StreamPlan)
    ensures
        req.version != PROTOCOL_VERSION ==> (p matches StreamPlan::Refuse(r) && r.is_error_with(
            req.id@,
            ERR_INVALID_REQUEST@,
            "Unsupported protocol version: "@ + decimal(req.version as nat),
        )),
        req.version == PROTOCOL_VERSION && req.method@ == "chat.stream"@ ==> (p matches StreamPlan::Stream {
            session_id,
            message,
        } && session_id@ == param_str(req.params@, "sessionId"@, "default_session"@) && message@
            == param_str(req.params@, "message"@, ""@)),
        req.version == PROTOCOL_VERSION && req.method@ != "chat.stream"@ ==> p is Route,
{
    if req.version != PROTOCOL_VERSION {
        let mut msg = "Unsupported protocol version: ".to_owned();
        push_decimal(&mut msg, req.version as u64);
        return StreamPlan::Refuse(Response::error(req.id.as_str(), ERR_INVALID_REQUEST, msg.as_str()));
    }
    if str_is(req.method.as_str(), "chat.stream") {
        let session_id = param_string(&req.params, "sessionId", "default_session");
        let message = param_string(&req.params, "message", "");
        StreamPlan::Stream { session_id, message }
    } else {
        StreamPlan::Route
    }
}

/// The request id given to frames that answer an unreadable request.
pub const UNKNOWN_REQUEST_ID: &'static str = "req_unknown";

/// The frame that answers a line that is not a request.
pub fn unreadable_request(message: &str) -> (r: Response)
    ensures
        r.is_error_with(UNKNOWN_REQUEST_ID@, ERR_INVALID_REQUEST@, message@),
{
    Response::error(UNKNOWN_REQUEST_ID, ERR_INVALID_REQUEST, message)
}

/// The request text of a line read from a connection: the trimmed line,
/// or `None` for a blank line.
pub fn request_text(line: &str) -> (r: Option<String>)
    ensures
        trim(line@).len() == 0 ==> r is None,
        trim(line@).len() > 0 ==> (r matches Some(t) && t@ == trim(line@)),
{
    let cs = chars_of(line);
    let (a, b) = trim_range(&cs, 0, cs.len());
    assert(cs@.subrange(0, cs@.len() as int) =~= cs@);
    if a == b {
        None
    } else {
        Some(string_from_chars(&cs, a, b))
    }
}

/// A copy of an optional string.
fn clone_opt(s: &Option<String>) -> (r: Option<String>)
    ensures
        opt_string_view(r) == opt_string_view(*s),
{
    match s {
        Some(t) => Some(t.clone()),
        None => None,
    }
}

/// An optional string member of a JSON object, copied.
fn member_opt(j: &Json, key: &str) -> (r: Option<String>)
    ensures
        opt_string_view(r) == j@.get_str(key@),
{
    match j.get(key) {
        Some(v) => match v.as_str() {
            Some(t) => Some(t.to_owned()),
            None => None,
        },
        None => None,
    }
}

/// The router's step: from where routing stands and the outcome of the
/// last piece of work, to where it stands next and the next piece of work.
pub fn step(req: &Request, state: RouteState, event: RouteEvent) -> (r: (RouteState, RouteAction))
    requires
        accepts(state, event),
    ensures
        route_step(*req, state, event, r.0, r.1),
{
    match state {
        RouteState::Start => {
            if req.version != PROTOCOL_VERSION {
                let mut msg = "Unsupported protocol version: ".to_owned();
                push_decimal(&mut msg, req.version as u64);
                return (
                    RouteState::Finished,
                    reply_error(req, ERR_INVALID_REQUEST, msg.as_str()),
                );
            }
            match &req.client {
                Some(c) => (
                    RouteState::AwaitPermission,
                    RouteAction::LookupPermission {
                        client_id: c.id.clone(),
                        method: req.method.clone(),
                    },
                ),
                None => dispatch(req),
            }
        },
        RouteState::AwaitPermission => match event {
            RouteEvent::Permission(PermissionLookup::NoConnection(msg)) => (
                RouteState::Finished,
                reply_error(req, ERR_STORAGE, msg.as_str()),
            ),
            RouteEvent::Permission(PermissionLookup::Found(false)) => {
                let mut msg = "Client '".to_owned();
                match &req.client {
                    Some(c) => push_str(&mut msg, c.id.as_str()),
                    None => {},
                }
                push_str(&mut msg, "' is denied permission for method '");
                push_str(&mut msg, req.method.as_str());
                push_str(&mut msg, "'");
                (RouteState::Finished, reply_error(req, ERR_PERMISSION_DENIED, msg.as_str()))
            },
            _ => dispatch(req),
        },
        RouteState::AwaitAuthStatus => match event {
            RouteEvent::SessionStatus(st) => {
                let stored = match &st {
                    Some(x) => Json::Int(x.stored_at as i128),
                    None => Json::Null,
                };
                let has = match &st {
                    Some(x) => x.has_access_token,
                    None => false,
                };
                let j = obj3(
                    "loggedIn",
                    Json::Bool(st.is_some()),
                    "storedAt",
                    stored,
                    "hasAccessToken",
                    Json::Bool(has),
                );
                (RouteState::Finished, reply_result(req, j))
            },
            _ => (RouteState::Finished, reply_error(req, ERR_INVALID_REQUEST, "")),
        },
        RouteState::AwaitLogout => (
            RouteState::Finished,
            reply_result(req, obj1("success", Json::Bool(true))),
        ),
        RouteState::AwaitChatAuth => match event {
            RouteEvent::Authenticated(false) => (
                RouteState::Finished,
                reply_error(req, ERR_AUTH_REQUIRED, "AICore is not authenticated with ChatGPT"),
            ),
            _ => {
                let sid = param_string(&req.params, "sessionId", "default_session");
                let msg = param_string(&req.params, "message", "");
                let sid2 = sid.clone();
                (
                    RouteState::AwaitChatSession { session_id: sid, message: msg },
                    RouteAction::LookupStoredSession { session_id: sid2 },
                )
            },
        },
        RouteState::AwaitChatSession { session_id, message } => match event {
            RouteEvent::StoredSession(Err(msg)) => (
                RouteState::Finished,
                reply_error(req, ERR_STORAGE, msg.as_str()),
            ),
            RouteEvent::StoredSession(Ok(ids)) => {
                let (conversation_id, parent_message_id) = match &ids {
                    Some(x) => (clone_opt(&x.conversation_id), clone_opt(&x.parent_message_id)),
                    None => (None, None),
                };
                let sid2 = session_id.clone();
                (
                    RouteState::AwaitChatReply { session_id: sid2 },
                    RouteAction::SendChat {
                        session_id,
                        message,
                        conversation_id,
                        parent_message_id,
                    },
                )
            },
            _ => (RouteState::Finished, reply_error(req, ERR_INVALID_REQUEST, "")),
        },
        RouteState::AwaitChatReply { session_id } => match event {
            RouteEvent::ProviderReply(Err(msg)) => (
                RouteState::Finished,
                reply_error(req, ERR_PROVIDER_ERROR, msg.as_str()),
            ),
            RouteEvent::ProviderReply(Ok(result)) => {
                let conversation_id = member_opt(&result, "conversationId");
                let message_id = member_opt(&result, "messageId");
                (
                    RouteState::AwaitChatSaved { result },
                    RouteAction::SaveChat { session_id, conversation_id, message_id },
                )
            },
            _ => (RouteState::Finished, reply_error(req, ERR_INVALID_REQUEST, "")),
        },
        RouteState::AwaitChatSaved { result } => (RouteState::Finished, reply_result(req, result)),
        RouteState::AwaitNewSessionId => match event {
            RouteEvent::NewSessionId(u) => {
                let mut sid = "session_".to_owned();
                push_str(&mut sid, u.as_str());
                let sid2 = sid.clone();
                (
                    RouteState::AwaitSessionCreated { session_id: sid },
                    RouteAction::CreateSession { session_id: sid2 },
                )
            },
            _ => (RouteState::Finished, reply_error(req, ERR_INVALID_REQUEST, "")),
        },
        RouteState::AwaitSessionCreated { session_id } => {
            let j = obj1("sessionId", Json::Str(session_id));
            (RouteState::Finished, reply_result(req, j))
        },
        RouteState::AwaitConversation => match event {
            RouteEvent::Conversation(Some(rec)) => (RouteState::Finished, reply_result(req, rec)),
            RouteEvent::Conversation(None) => (
                RouteState::Finished,
                reply_result(req, obj1("found", Json::Bool(false))),
            ),
            _ => (RouteState::Finished, reply_error(req, ERR_INVALID_REQUEST, "")),
        },
        RouteState::AwaitReset => (
            RouteState::Finished,
            reply_result(req, obj1("success", Json::Bool(true))),
        ),
        RouteState::AwaitUpload => match event {
            RouteEvent::Uploaded(Ok(id)) => (
                RouteState::Finished,
                reply_result(req, obj1("fileId", Json::Str(id))),
            ),
            RouteEvent::Uploaded(Err(msg)) => (
                RouteState::Finished,
                reply_error(req, ERR_UPLOAD_FAILED, msg.as_str()),
            ),
            _ => (RouteState::Finished, reply_error(req, ERR_INVALID_REQUEST, "")),
        },
        RouteState::AwaitDownload => match event {
            RouteEvent::Downloaded(Ok(u)) => (
                RouteState::Finished,
                reply_result(req, obj1("url", Json::Str(u))),
            ),
            RouteEvent::Downloaded(Err(msg)) => (
                RouteState::Finished,
                reply_error(req, ERR_DOWNLOAD_FAILED, msg.as_str()),
            ),
            _ => (RouteState::Finished, reply_error(req, ERR_INVALID_REQUEST, "")),
        },
        RouteState::Finished => (RouteState::Finished, reply_error(req, ERR_INVALID_REQUEST, "")),
    }
}

} // verus!
