use aicore::desktop::{
    accepted_reply, advance_lifecycle, command_status, plan_socket_request, router_unavailable, socket_request_id,
    status_reply, AuthState, LifecycleAction, LifecycleEvent, LifecycleStep, SocketPlan,
};
use aicore::files::{
    advance_upload, CreateFileResponse, FileError, UploadAction, UploadEvent, UploadLimits, UploadState,
    DEFAULT_MAX_UPLOAD_BYTES,
};
use aicore::json::Json;
use aicore::protocol::{Request, Response};
use aicore::router::{plan_stream, request_text, unreadable_request, StreamPlan};
use aicore::store::SessionData;

fn text_of(data: &Json, key: &str) -> Option<String> {
    data.get(key).and_then(|v| v.as_str()).map(|s| s.to_string())
}

fn limits() -> UploadLimits {
    UploadLimits::standard("/home/user")
}

fn session() -> SessionData {
    SessionData { stored_at: 3, auth_session: Json::Null, device_id: None, access_token: Some("t".to_string()), cookies: None }
}

#[test]
fn upload_flow_with_blob() {
    let path = "/tmp/a.png";
    let l = limits();
    let (s, a) = advance_upload(path, &l, UploadState::Start, UploadEvent::Begin);
    assert!(matches!(a, UploadAction::StatFile { ref path } if path == "/tmp/a.png"));
    let (s, a) = advance_upload(path, &l, s, UploadEvent::FileSize(Ok(10)));
    assert!(matches!(a, UploadAction::ReadFile { ref path } if path == "/tmp/a.png"));
    let (s, a) = advance_upload(path, &l, s, UploadEvent::FileRead(Ok(10)));
    assert!(matches!(a, UploadAction::LoadCredentials));
    let (s, a) = advance_upload(path, &l, s, UploadEvent::Credentials(Some("tok".to_string())));
    match &a {
        UploadAction::PostCreate { authorization, request } => {
            assert_eq!(authorization, "Bearer tok");
            assert_eq!(request.file_name, "a.png");
            assert_eq!(request.file_size, 10);
            assert_eq!(request.use_case, "multimodal");
        }
        other => panic!("unexpected {:?}", other),
    }
    let (s, a) = advance_upload(path, &l, s, UploadEvent::Sent(Ok((201, "201 Created".to_string()))));
    assert!(matches!(a, UploadAction::ReadCreateBody));
    let body = CreateFileResponse { file_id: "f1".to_string(), upload_url: Some("https://blob/x".to_string()) };
    let (s, a) = advance_upload(path, &l, s, UploadEvent::CreateBody(Ok(body)));
    assert!(matches!(a, UploadAction::PutBlob { ref url } if url == "https://blob/x"));
    let (s, a) = advance_upload(path, &l, s, UploadEvent::Sent(Ok((201, "201 Created".to_string()))));
    match &a {
        UploadAction::PostConfirm { url, authorization } => {
            assert_eq!(url, "https://chatgpt.com/backend-api/files/f1/uploaded");
            assert_eq!(authorization, "Bearer tok");
        }
        other => panic!("unexpected {:?}", other),
    }
    let (s, a) = advance_upload(path, &l, s, UploadEvent::Confirmed);
    assert!(matches!(s, UploadState::Done));
    assert!(matches!(a, UploadAction::Finish(Ok(ref id)) if id == "f1"));
}

#[test]
fn upload_flow_failures() {
    let l = limits();
    let (_, a) = advance_upload("../x", &l, UploadState::Start, UploadEvent::Begin);
    assert!(matches!(a, UploadAction::Finish(Err(FileError::InvalidPath(_)))));

    let (_, a) = advance_upload("x", &l, UploadState::AwaitCredentials { file_name: "x".to_string(), size: 1 }, UploadEvent::Credentials(None));
    match a {
        UploadAction::Finish(Err(FileError::Network(m))) => assert_eq!(m, "AUTH_REQUIRED"),
        other => panic!("unexpected {:?}", other),
    }
    let (_, a) = advance_upload(
        "x",
        &l,
        UploadState::AwaitCreated { authorization: "Bearer t".to_string() },
        UploadEvent::Sent(Ok((500, "500 Internal Server Error".to_string()))),
    );
    match a {
        UploadAction::Finish(Err(FileError::Network(m))) => {
            assert_eq!(m, "File creation API returned HTTP 500 Internal Server Error")
        }
        other => panic!("unexpected {:?}", other),
    }
    let (_, a) = advance_upload(
        "x",
        &l,
        UploadState::AwaitBlob { file_id: "f".to_string(), authorization: "Bearer t".to_string() },
        UploadEvent::Sent(Ok((403, "403 Forbidden".to_string()))),
    );
    match a {
        UploadAction::Finish(Err(FileError::Network(m))) => assert_eq!(m, "Azure Blob upload returned HTTP 403 Forbidden"),
        other => panic!("unexpected {:?}", other),
    }
    let io = std::io::Error::new(std::io::ErrorKind::NotFound, "gone");
    let (_, a) = advance_upload("x", &l, UploadState::AwaitFile, UploadEvent::FileRead(Err(io)));
    assert!(matches!(a, UploadAction::Finish(Err(FileError::Io(_)))));
    let body = CreateFileResponse { file_id: "f2".to_string(), upload_url: None };
    let (_, a) = advance_upload("x", &l, UploadState::AwaitCreateBody { authorization: "a".to_string() }, UploadEvent::CreateBody(Ok(body)));
    assert!(matches!(a, UploadAction::Finish(Ok(ref id)) if id == "f2"));
}

#[test]
fn upload_limits_refuse_before_reading() {
    let l = limits();
    let (s, a) = advance_upload("/etc/passwd", &l, UploadState::Start, UploadEvent::Begin);
    assert!(matches!(s, UploadState::Done));
    match a {
        UploadAction::Finish(Err(FileError::InvalidPath(m))) => {
            assert_eq!(m, "Path outside allowed directories: /etc/passwd")
        }
        other => panic!("unexpected {:?}", other),
    }
    let (_, a) = advance_upload("/home/username/x", &l, UploadState::Start, UploadEvent::Begin);
    assert!(matches!(a, UploadAction::Finish(Err(FileError::InvalidPath(_)))));
    let (_, a) = advance_upload("relative.txt", &l, UploadState::Start, UploadEvent::Begin);
    assert!(matches!(a, UploadAction::Finish(Err(FileError::InvalidPath(_)))));
    let (_, a) = advance_upload("/home/user/docs/a.pdf", &l, UploadState::Start, UploadEvent::Begin);
    assert!(matches!(a, UploadAction::StatFile { ref path } if path == "/home/user/docs/a.pdf"));
    let (_, a) = advance_upload("/home/user/../../etc/passwd", &l, UploadState::Start, UploadEvent::Begin);
    match a {
        UploadAction::Finish(Err(FileError::InvalidPath(m))) => assert!(m.starts_with("Path traversal rejected")),
        other => panic!("unexpected {:?}", other),
    }

    let big = DEFAULT_MAX_UPLOAD_BYTES + 1;
    let (s, a) = advance_upload("/tmp/big.bin", &l, UploadState::AwaitSize, UploadEvent::FileSize(Ok(big)));
    assert!(matches!(s, UploadState::Done));
    match a {
        UploadAction::Finish(Err(e @ FileError::TooLarge { .. })) => {
            assert_eq!(
                e.message().unwrap(),
                "File too large: 536870913 bytes exceeds the limit of 536870912 bytes"
            );
        }
        other => panic!("unexpected {:?}", other),
    }
    let (_, a) = advance_upload("/tmp/x", &l, UploadState::AwaitSize, UploadEvent::FileSize(Ok(u64::MAX)));
    assert!(matches!(a, UploadAction::Finish(Err(FileError::TooLarge { size: u64::MAX, limit: DEFAULT_MAX_UPLOAD_BYTES }))));
    let (_, a) = advance_upload("/tmp/x", &l, UploadState::AwaitFile, UploadEvent::FileRead(Ok(big)));
    assert!(matches!(a, UploadAction::Finish(Err(FileError::TooLarge { .. }))));
    let (_, a) = advance_upload(
        "/tmp/x",
        &l,
        UploadState::AwaitSize,
        UploadEvent::FileSize(Ok(DEFAULT_MAX_UPLOAD_BYTES)),
    );
    assert!(matches!(a, UploadAction::ReadFile { .. }));
    let io = std::io::Error::new(std::io::ErrorKind::NotFound, "gone");
    let (_, a) = advance_upload("/tmp/x", &l, UploadState::AwaitSize, UploadEvent::FileSize(Err(io)));
    assert!(matches!(a, UploadAction::Finish(Err(FileError::Io(_)))));
    let custom = UploadLimits { roots: vec!["/data/".to_string()], max_bytes: 5 };
    let (_, a) = advance_upload("/data/f", &custom, UploadState::Start, UploadEvent::Begin);
    assert!(matches!(a, UploadAction::StatFile { .. }));
    let (_, a) = advance_upload("/data", &custom, UploadState::Start, UploadEvent::Begin);
    assert!(matches!(a, UploadAction::Finish(Err(FileError::InvalidPath(_)))));
}

#[test]
fn stream_plans() {
    let params = Json::Object(vec![("sessionId".to_string(), Json::Str("s".to_string()))]);
    match plan_stream(&Request::new("r", "chat.stream", params)) {
        StreamPlan::Stream { session_id, message } => {
            assert_eq!(session_id, "s");
            assert_eq!(message, "");
        }
        other => panic!("unexpected {:?}", other),
    }
    assert!(matches!(plan_stream(&Request::new("r", "system.ping", Json::Null)), StreamPlan::Route));
    let mut old = Request::new("r", "chat.stream", Json::Null);
    old.version = 0;
    assert!(matches!(plan_stream(&old), StreamPlan::Refuse(Response::Error { .. })));
    assert_eq!(request_text("  {\"a\":1}\n"), Some("{\"a\":1}".to_string()));
    assert_eq!(request_text(" \r\n"), None);
    match unreadable_request("bad") {
        Response::Error { id, error, .. } => {
            assert_eq!(id, "req_unknown");
            assert_eq!(error.code, "INVALID_REQUEST");
        }
        other => panic!("unexpected {:?}", other),
    }
}

#[test]
fn socket_dispatch_decisions() {
    assert_eq!(plan_socket_request("auth_status"), SocketPlan::Status);
    assert_eq!(plan_socket_request("auth.login"), SocketPlan::Login);
    assert_eq!(plan_socket_request("auth_logout"), SocketPlan::Logout);
    assert_eq!(plan_socket_request("chat.stream"), SocketPlan::Stream);
    assert_eq!(plan_socket_request("chat.send"), SocketPlan::Route);
    assert_eq!(socket_request_id(Some(&Json::Str("x".to_string()))), "x");
    assert_eq!(socket_request_id(Some(&Json::Int(4))), "req_1");
    assert_eq!(socket_request_id(None), "req_1");
    match status_reply("r", true, AuthState::Ready, Json::Null) {
        Response::Result { result, .. } => {
            assert_eq!(result.get("authenticated").and_then(|v| v.as_bool()), Some(true));
            assert_eq!(text_of(&result, "authState").as_deref(), Some("READY"));
        }
        other => panic!("unexpected {:?}", other),
    }
    match status_reply("r", true, AuthState::CheckingSession, Json::Null) {
        Response::Result { result, .. } => assert_eq!(result.get("authenticated").and_then(|v| v.as_bool()), Some(false)),
        other => panic!("unexpected {:?}", other),
    }
    assert!(matches!(accepted_reply("r"), Response::Result { .. }));
    match router_unavailable("r") {
        Response::Error { error, .. } => assert_eq!(error.code, "PROVIDER_UNAVAILABLE"),
        other => panic!("unexpected {:?}", other),
    }
    let c = command_status(false, AuthState::LoginRequired, Json::Null, "/s.sock");
    assert_eq!(text_of(&c, "socketPath").as_deref(), Some("/s.sock"));
    assert_eq!(text_of(&c, "authState").as_deref(), Some("LOGIN_REQUIRED"));
}

#[test]
fn login_lifecycle() {
    let (s, a, w) = advance_lifecycle(LifecycleStep::Idle, AuthState::Starting, LifecycleEvent::LoginRequested);
    assert_eq!(a, AuthState::LoginRequired);
    assert!(matches!(w, LifecycleAction::FindWindow));
    let (s, a, w) = advance_lifecycle(s, a, LifecycleEvent::Window(true));
    assert_eq!(a, AuthState::UserLogin);
    assert!(matches!(w, LifecycleAction::ShowLoginPage));
    let (s, a, w) = advance_lifecycle(s, a, LifecycleEvent::LoginSignalled);
    assert_eq!(a, AuthState::CheckingSession);
    assert!(matches!(w, LifecycleAction::CaptureSession));
    let (s, a, w) = advance_lifecycle(s, a, LifecycleEvent::Captured(Ok(session())));
    assert_eq!(s, LifecycleStep::Idle);
    assert_eq!(a, AuthState::Ready);
    assert!(matches!(w, LifecycleAction::AdoptSession(_)));

    let (_, a, w) = advance_lifecycle(LifecycleStep::LoginCapturing, AuthState::CheckingSession, LifecycleEvent::Captured(Err("no".to_string())));
    assert_eq!(a, AuthState::LoginRequired);
    assert!(matches!(w, LifecycleAction::Fail(ref m) if m == "no"));

    let (s, a, _) = advance_lifecycle(LifecycleStep::Idle, AuthState::Ready, LifecycleEvent::LogoutRequested);
    let (_, a2, w) = advance_lifecycle(s, a, LifecycleEvent::Window(false));
    assert_eq!(a2, AuthState::Ready);
    assert!(matches!(w, LifecycleAction::Fail(ref m) if m == "main window not found"));

    let (s, a, _) = advance_lifecycle(LifecycleStep::Idle, AuthState::Starting, LifecycleEvent::StartupRequested);
    assert_eq!(a, AuthState::InitializingWebview);
    let (s, a, _) = advance_lifecycle(s, a, LifecycleEvent::Window(true));
    let (s, a, _) = advance_lifecycle(s, a, LifecycleEvent::PageSettled);
    let (_, _, w) = advance_lifecycle(s, a, LifecycleEvent::Captured(Err("x".to_string())));
    assert!(matches!(w, LifecycleAction::StartLogin));
}
