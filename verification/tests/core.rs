use sha2::Digest;
use aicore::crypto::{derive_key_from_seed, Crypto, CryptoError};
use aicore::desktop::{decide_navigation, is_chatgpt_host, is_chatgpt_root, session_from_bridge_reply, AuthState};
use aicore::files::{download_status_error, download_url_from};
use aicore::json::Json;
use aicore::paths::{determine_socket_path, key_file, session_file};
use aicore::protocol::{Request, Response};
use aicore::router::{step, PermissionLookup, RouteAction, RouteEvent, RouteState};
use aicore::store::{key_from_sources, open_session_payload, seal_session_payload, AuthError, SessionData};

fn text_of(data: &Json, key: &str) -> Option<String> {
    data.get(key).and_then(|v| v.as_str()).map(|s| s.to_string())
}

#[test]
fn test_encryption_decryption() {
    let key = [42u8; 32];
    let crypto = Crypto::new(&key);
    let plaintext = b"Hello, secret AICore credentials!";

    let encrypted = crypto.encrypt(plaintext).unwrap();
    assert_ne!(encrypted, plaintext);

    let decrypted = crypto.decrypt(&encrypted).unwrap();
    assert_eq!(decrypted, plaintext);
}

#[test]
fn test_key_derivation() {
    let k1 = derive_key_from_seed("machine_id_1");
    let k2 = derive_key_from_seed("machine_id_1");
    let k3 = derive_key_from_seed("machine_id_2");

    assert_eq!(k1, k2);
    assert_ne!(k1, k3);
}

#[test]
fn key_derivation_is_double_sha256() {
    let salt = b"ai-core-chatgpt-session-v1";
    let mut h = sha2::Sha256::new();
    h.update(b"seed");
    h.update(salt);
    let d1 = h.finalize();
    let mut h2 = sha2::Sha256::new();
    h2.update(d1);
    h2.update(salt);
    let expected: [u8; 32] = h2.finalize().into();
    assert_eq!(derive_key_from_seed("seed"), expected);
}

#[test]
fn decrypt_refuses_short_and_tampered() {
    let c = Crypto::new(&[1u8; 32]);
    assert!(matches!(c.decrypt(&[0u8; 27]), Err(CryptoError::TooShort)));
    let mut e = c.encrypt(b"x").unwrap();
    assert_eq!(e.len(), 12 + 1 + 16);
    let last = e.len() - 1;
    e[last] ^= 1;
    match c.decrypt(&e) {
        Err(CryptoError::Decrypt(m)) => assert_eq!(m, "aead::Error"),
        other => panic!("unexpected {:?}", other),
    }
    let other = Crypto::new(&[2u8; 32]);
    assert!(other.decrypt(&c.encrypt(b"y").unwrap()).is_err());
}

#[test]
fn session_payload_round_trip() {
    let key = [7u8; 32];
    let plain = br#"{"stored_at":1000}"#;
    let payload = seal_session_payload(&key, plain).unwrap();
    assert_ne!(payload.as_bytes(), plain);
    assert_eq!(open_session_payload(&key, &payload).unwrap(), plain);
    match open_session_payload(&key, "***") {
        Err(AuthError::Crypto(CryptoError::Decrypt(_))) => {}
        other => panic!("unexpected {:?}", other),
    }
    match open_session_payload(&key, "AAAA") {
        Err(AuthError::Crypto(CryptoError::TooShort)) => {}
        other => panic!("unexpected {:?}", other),
    }
}

#[test]
fn key_choice() {
    let stored = [9u8; 32];
    assert_eq!(key_from_sources(Some(&stored), Some("m")), stored);
    assert_eq!(key_from_sources(Some(&[1u8; 5]), Some(" m1\n")), derive_key_from_seed("m1"));
    assert_eq!(key_from_sources(None, None), derive_key_from_seed("default-ai-core-machine-seed-id"));
}

#[test]
fn test_cli_socket_path() {
    let path = determine_socket_path(None, Some("/home/u"));
    assert!(path.contains("aicore.sock"));
}

#[test]
fn test_socket_path_determination() {
    let path = determine_socket_path(Some("/run/user/1000"), Some("/home/u"));
    assert!(path.contains("aicore.sock"));
}

#[test]
fn file_locations() {
    assert_eq!(determine_socket_path(Some("/run/user/1000"), None), "/run/user/1000/aicore.sock");
    assert_eq!(determine_socket_path(None, Some("/home/u/")), "/home/u/.ai-core/aicore.sock");
    assert_eq!(determine_socket_path(None, None), "/tmp/.ai-core/aicore.sock");
    assert_eq!(session_file("/d"), "/d/session.enc.json");
    assert_eq!(key_file("/d"), "/d/key.bin");
}

fn run(req: &Request, events: Vec<RouteEvent>) -> (Vec<RouteAction>, RouteState) {
    let mut state = RouteState::Start;
    let mut actions = Vec::new();
    let mut evs = events.into_iter();
    let mut ev = RouteEvent::Begin;
    loop {
        let (s2, a) = step(req, state, ev);
        let done = matches!(a, RouteAction::Reply(_));
        actions.push(a);
        state = s2;
        if done {
            return (actions, state);
        }
        ev = evs.next().expect("more events");
    }
}

#[test]
fn test_ping_and_info() {
    let ping_req = Request::new("req_1", "system.ping", Json::Object(vec![]));
    let (actions, _) = run(&ping_req, vec![]);
    if let Some(RouteAction::Reply(Response::Result { result, .. })) = actions.last() {
        assert_eq!(result.get("pong").and_then(|v| v.as_bool()), Some(true));
    } else {
        panic!("Expected Result for system.ping");
    }
}

#[test]
fn router_refuses_wrong_version() {
    let mut req = Request::new("r9", "system.ping", Json::Null);
    req.version = 2;
    let (actions, _) = run(&req, vec![]);
    match actions.last() {
        Some(RouteAction::Reply(Response::Error { id, error, .. })) => {
            assert_eq!(id, "r9");
            assert_eq!(error.code, "INVALID_REQUEST");
            assert_eq!(error.message, "Unsupported protocol version: 2");
        }
        other => panic!("unexpected {:?}", other),
    }
}

#[test]
fn router_denies_client() {
    let mut req = Request::new("r", "chat.send", Json::Null);
    req.client = Some(aicore::protocol::ClientInfo {
        id: "fluxnotes".to_string(),
        name: "FluxNotes".to_string(),
        version: "1".to_string(),
    });
    let (actions, _) = run(&req, vec![RouteEvent::Permission(PermissionLookup::Found(false))]);
    assert!(matches!(actions[0], RouteAction::LookupPermission { .. }));
    match actions.last() {
        Some(RouteAction::Reply(Response::Error { error, .. })) => {
            assert_eq!(error.code, "PERMISSION_DENIED");
            assert_eq!(error.message, "Client 'fluxnotes' is denied permission for method 'chat.send'");
        }
        other => panic!("unexpected {:?}", other),
    }
}

#[test]
fn router_chat_send_flow() {
    let params = Json::Object(vec![("message".to_string(), Json::Str("hi".to_string()))]);
    let req = Request::new("r", "chat.send", params);
    let result = aicore::client::send_conversation_result(200, "200 OK", "m", Some("c"), "Hi there").unwrap();
    let (actions, _) = run(
        &req,
        vec![
            RouteEvent::Authenticated(true),
            RouteEvent::StoredSession(Ok(None)),
            RouteEvent::ProviderReply(Ok(result)),
            RouteEvent::Saved,
        ],
    );
    match &actions[1] {
        RouteAction::LookupStoredSession { session_id } => assert_eq!(session_id, "default_session"),
        other => panic!("unexpected {:?}", other),
    }
    match &actions[2] {
        RouteAction::SendChat { message, conversation_id, .. } => {
            assert_eq!(message, "hi");
            assert!(conversation_id.is_none());
        }
        other => panic!("unexpected {:?}", other),
    }
    match &actions[3] {
        RouteAction::SaveChat { conversation_id, message_id, .. } => {
            assert_eq!(conversation_id.as_deref(), Some("c"));
            assert_eq!(message_id.as_deref(), Some("m"));
        }
        other => panic!("unexpected {:?}", other),
    }
    match actions.last() {
        Some(RouteAction::Reply(Response::Result { result, .. })) => {
            assert_eq!(text_of(result, "text").as_deref(), Some("Hi there"));
            assert_eq!(text_of(result, "messageId").as_deref(), Some("m"));
        }
        other => panic!("unexpected {:?}", other),
    }

    let (unauth, _) = run(&req, vec![RouteEvent::Authenticated(false)]);
    match unauth.last() {
        Some(RouteAction::Reply(Response::Error { error, .. })) => assert_eq!(error.code, "AUTH_REQUIRED"),
        other => panic!("unexpected {:?}", other),
    }
}

#[test]
fn router_unknown_method_and_create() {
    let req = Request::new("r", "nope", Json::Null);
    let (actions, _) = run(&req, vec![]);
    match actions.last() {
        Some(RouteAction::Reply(Response::Error { error, .. })) => assert_eq!(error.message, "Unknown method: nope"),
        other => panic!("unexpected {:?}", other),
    }
    let create = Request::new("r", "conversation.create", Json::Null);
    let (actions, _) = run(&create, vec![RouteEvent::NewSessionId("u1".to_string()), RouteEvent::SessionCreated]);
    match actions.last() {
        Some(RouteAction::Reply(Response::Result { result, .. })) => {
            assert_eq!(text_of(result, "sessionId").as_deref(), Some("session_u1"))
        }
        other => panic!("unexpected {:?}", other),
    }
}

fn obj(entries: &[(&str, &str)]) -> Json {
    Json::Object(entries.iter().map(|(k, v)| (k.to_string(), Json::Str(v.to_string()))).collect())
}

#[test]
fn router_downloads() {
    let req = Request::new(
        "d",
        "file.download",
        obj(&[("conversationId", "c1"), ("messageId", "m1"), ("sandboxPath", "/mnt/data/out.csv")]),
    );
    let (actions, _) = run(&req, vec![RouteEvent::Downloaded(Ok("https://files/x".to_string()))]);
    match &actions[0] {
        RouteAction::Download { url, query } => {
            assert_eq!(url, "https://chatgpt.com/backend-api/conversation/c1/interpreter/download");
            assert_eq!(
                query,
                &vec![
                    ("message_id".to_string(), "m1".to_string()),
                    ("sandbox_path".to_string(), "/mnt/data/out.csv".to_string())
                ]
            );
        }
        other => panic!("unexpected {:?}", other),
    }
    match actions.last() {
        Some(RouteAction::Reply(Response::Result { result, .. })) => {
            assert_eq!(text_of(result, "url").as_deref(), Some("https://files/x"))
        }
        other => panic!("unexpected {:?}", other),
    }

    let img = Request::new("i", "image.download", obj(&[("assetPointer", "sediment://file_abc"), ("conversationId", "c2")]));
    let (actions, _) = run(&img, vec![RouteEvent::Downloaded(Err("gone".to_string()))]);
    match &actions[0] {
        RouteAction::Download { url, query } => {
            assert_eq!(url, "https://chatgpt.com/backend-api/files/download/file_abc");
            assert_eq!(query, &vec![("conversation_id".to_string(), "c2".to_string())]);
        }
        other => panic!("unexpected {:?}", other),
    }
    match actions.last() {
        Some(RouteAction::Reply(Response::Error { error, .. })) => {
            assert_eq!(error.code, "DOWNLOAD_FAILED");
            assert_eq!(error.message, "gone");
        }
        other => panic!("unexpected {:?}", other),
    }

    let fs = Request::new("i", "image.download", obj(&[("assetPointer", "file-service://file-XYZ")]));
    let (actions, _) = run(&fs, vec![RouteEvent::Downloaded(Ok("u".to_string()))]);
    match &actions[0] {
        RouteAction::Download { url, query } => {
            assert_eq!(url, "https://chatgpt.com/backend-api/files/file-XYZ/download");
            assert!(query.is_empty());
        }
        other => panic!("unexpected {:?}", other),
    }

    let bad = Request::new("i", "image.download", obj(&[("assetPointer", "https://x")]));
    let (actions, _) = run(&bad, vec![]);
    match actions.last() {
        Some(RouteAction::Reply(Response::Error { error, .. })) => {
            assert_eq!(error.code, "INVALID_REQUEST");
            assert_eq!(error.message, "Unsupported asset pointer: https://x");
        }
        other => panic!("unexpected {:?}", other),
    }
    let missing = Request::new("f", "file.download", obj(&[("conversationId", "c")]));
    let (actions, _) = run(&missing, vec![]);
    match actions.last() {
        Some(RouteAction::Reply(Response::Error { error, .. })) => {
            assert_eq!(error.message, "file.download requires conversationId, messageId and sandboxPath")
        }
        other => panic!("unexpected {:?}", other),
    }
    let no_ptr = Request::new("f", "image.download", Json::Null);
    let (actions, _) = run(&no_ptr, vec![]);
    match actions.last() {
        Some(RouteAction::Reply(Response::Error { error, .. })) => {
            assert_eq!(error.message, "image.download requires assetPointer")
        }
        other => panic!("unexpected {:?}", other),
    }
}

#[test]
fn download_answers() {
    assert_eq!(download_url_from(&obj(&[("download_url", "https://blob/y")])).unwrap(), "https://blob/y");
    assert_eq!(download_url_from(&Json::Null).unwrap_err(), "Download answer carries no download_url");
    assert_eq!(download_status_error(200, "200 OK"), None);
    assert_eq!(
        download_status_error(404, "404 Not Found").as_deref(),
        Some("Download endpoint returned HTTP 404 Not Found")
    );
}

#[test]
fn user_info_summary() {
    let user = Json::Object(vec![
        ("id".to_string(), Json::Str("u1".to_string())),
        ("name".to_string(), Json::Str("Ann".to_string())),
    ]);
    let s = SessionData {
        stored_at: 1,
        auth_session: Json::Object(vec![("user".to_string(), user)]),
        device_id: None,
        access_token: None,
        cookies: None,
    };
    let info = s.get_user_info();
    assert_eq!(text_of(&info, "id").as_deref(), Some("u1"));
    assert_eq!(text_of(&info, "email").as_deref(), Some(""));
    let none = SessionData { stored_at: 1, auth_session: Json::Null, device_id: None, access_token: None, cookies: None };
    assert!(none.get_user_info().is_null());
}

#[test]
fn chatgpt_addresses() {
    assert!(is_chatgpt_host("https://chatgpt.com/c/1"));
    assert!(is_chatgpt_host("https://cdn.chatgpt.com/x"));
    assert!(!is_chatgpt_host("http://chatgpt.com/"));
    assert!(!is_chatgpt_host("https://evilchatgpt.com/"));
    assert!(!is_chatgpt_host("not a url"));
    assert!(is_chatgpt_root("https://chatgpt.com/"));
    assert!(is_chatgpt_root("https://www.chatgpt.com"));
    assert!(!is_chatgpt_root("https://chatgpt.com/auth/login"));
}

#[test]
fn bridge_navigation() {
    // base64 of {"ok":true}
    let d = decide_navigation("aicores://r/123?payload=eyJvayI6dHJ1ZX0%3D");
    assert!(!d.allow);
    let (nonce, text) = d.delivery.unwrap();
    assert_eq!(nonce, "123");
    assert_eq!(text, r#"{"ok":true}"#);
    let bad = decide_navigation("aicores://r/9?payload=@@");
    assert_eq!(bad.delivery.unwrap().1, r#"{"ok":false,"error":"bad payload encoding"}"#);
    let other = decide_navigation("https://chatgpt.com/");
    assert!(other.allow && other.login_detected && other.delivery.is_none());
    assert!(decide_navigation("aicores://x/1").delivery.is_none());
}

#[test]
fn bridge_session_capture() {
    let raw = r#"{"ok":true,"result":{"auth_session":{"accessToken":"t","user":{"id":"u"}},"device_id":"d"}}"#;
    let s = session_from_bridge_reply(raw, 77).unwrap();
    assert_eq!(s.access_token.as_deref(), Some("t"));
    assert_eq!(s.device_id.as_deref(), Some("d"));
    assert_eq!(s.stored_at, 77);
    assert_eq!(session_from_bridge_reply(r#"{"ok":false,"error":"nope"}"#, 1).unwrap_err(), "nope");
    assert_eq!(
        session_from_bridge_reply(r#"{"ok":true,"result":{"auth_session":{"accessToken":"t","user":null}}}"#, 1).unwrap_err(),
        "session does not contain valid user/accessToken"
    );
    assert!(session_from_bridge_reply("{", 1).unwrap_err().starts_with("bad session json: "));
    assert_eq!(AuthState::default().name(), "STARTING");
}

#[test]
fn error_messages() {
    assert_eq!(CryptoError::TooShort.message(), "Data too short");
    assert_eq!(CryptoError::Decrypt("x".to_string()).message(), "Decryption error: x");
    assert_eq!(CryptoError::Encrypt("y".to_string()).message(), "Encryption error: y");
    assert_eq!(AuthError::NoSession.message().as_deref(), Some("No session found"));
    assert_eq!(
        AuthError::Crypto(CryptoError::TooShort).message().as_deref(),
        Some("Crypto error: Data too short")
    );
    assert_eq!(
        aicore::files::FileError::Network("n".to_string()).message().as_deref(),
        Some("Network error: n")
    );
    assert_eq!(
        aicore::files::FileError::InvalidPath("p".to_string()).message().as_deref(),
        Some("Invalid path or path traversal detected: p")
    );
}

#[test]
fn protocol_frames() {
    let r = Response::error("r1", "AUTH_REQUIRED", "Authentication required");
    assert_eq!(r.id(), "r1");
    match &r {
        Response::Error { version, error, .. } => {
            assert_eq!(*version, 1);
            assert_eq!(error.code, "AUTH_REQUIRED");
            assert!(error.details.is_none());
        }
        other => panic!("unexpected {:?}", other),
    }
    assert_eq!(Response::done("d").id(), "d");
    let e = aicore::protocol::ProtocolError::new("C", "M").with_details(Json::Bool(true));
    assert_eq!(e.details, Some(Json::Bool(true)));
    let req = Request::new("req_123", "chat.send", Json::Null);
    assert_eq!(req.version, 1);
    assert!(req.client.is_none());
}

