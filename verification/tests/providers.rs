use sha3::Digest;
use aicore::auth_retry::{session_from_refresh, AuthRetryManager};
use aicore::client::{
    build_conversation_payload, conversation_request_failed, reply_text_from_body, send_auth_failure,
    send_conversation_result, StreamDecoder,
};
use aicore::pow::{requirements_bad_json, requirements_request_failed, requirements_status_error};
use aicore::files::{upload_file_name, ChatGPTFileClient, FileError};
use aicore::json::Json;
use aicore::pow::{requirement_tokens, ChatRequirements, PowSolver, ProofOfWorkConfig};
use aicore::protocol::Response;
use aicore::sse::SseParser;

fn text_of(data: &Json, key: &str) -> Option<String> {
    data.get(key).and_then(|v| v.as_str()).map(|s| s.to_string())
}

#[test]
fn test_is_unauthorized_status() {
    assert!(AuthRetryManager::is_unauthorized_status(401));
    assert!(!AuthRetryManager::is_unauthorized_status(200));
    assert!(!AuthRetryManager::is_unauthorized_status(403));
    assert!(!AuthRetryManager::is_unauthorized_status(500));
}

#[test]
fn test_file_path_validation() {
    assert!(ChatGPTFileClient::validate_file_path("/tmp/safe.png").is_ok());
    assert!(ChatGPTFileClient::validate_file_path("../secret.txt").is_err());
    assert!(ChatGPTFileClient::validate_file_path("/home/user/../../etc/passwd").is_err());
}

#[test]
fn test_pow_solver() {
    let seed = "test_seed_123";
    let difficulty = "0";
    let user_agent = "Mozilla/5.0";

    let solution = PowSolver::solve(seed, difficulty, user_agent);
    assert!(solution.is_some());
    let proof = solution.unwrap();
    assert!(proof.contains("gAAAAAB_test_seed_123_"));
}

#[test]
fn test_sse_parser() {
    let mut parser = SseParser::new();

    let line1 = r#"data: {"conversation_id":"conv_1","message":{"id":"msg_1","author":{"role":"assistant"},"content":{"parts":["Hello"]}}}"#;
    let res1 = parser.parse_line("req_1", line1).unwrap();
    if let Response::Delta { data, .. } = res1 {
        assert_eq!(text_of(&data, "text").as_deref(), Some("Hello"));
    } else {
        panic!("Expected Delta");
    }

    let line2 = r#"data: {"conversation_id":"conv_1","message":{"id":"msg_1","author":{"role":"assistant"},"content":{"parts":["Hello world"]}}}"#;
    let res2 = parser.parse_line("req_1", line2).unwrap();
    if let Response::Delta { data, .. } = res2 {
        assert_eq!(text_of(&data, "text").as_deref(), Some(" world"));
    } else {
        panic!("Expected Delta");
    }

    let line_done = "data: [DONE]";
    let res_done = parser.parse_line("req_1", line_done).unwrap();
    assert!(matches!(res_done, Response::Done { .. }));
}

#[test]
fn sse_delta_carries_ids() {
    let mut parser = SseParser::new();
    let line = r#"  data:  {"conversation_id":"c9","message":{"id":"m9","author":{"role":"assistant"},"content":{"parts":["Hi",7," there"]}}}  "#;
    match parser.parse_line("r", line) {
        Some(Response::Delta { id, data, version }) => {
            assert_eq!(id, "r");
            assert_eq!(version, 1);
            assert_eq!(text_of(&data, "text").as_deref(), Some("Hi there"));
            assert_eq!(text_of(&data, "conversationId").as_deref(), Some("c9"));
            assert_eq!(text_of(&data, "messageId").as_deref(), Some("m9"));
        }
        other => panic!("unexpected {:?}", other),
    }
}

#[test]
fn sse_ignores_other_lines() {
    let mut parser = SseParser::new();
    assert!(parser.parse_line("r", "event: ping").is_none());
    assert!(parser.parse_line("r", "").is_none());
    assert!(parser.parse_line("r", "data: {not json").is_none());
    assert!(parser.parse_line("r", r#"data: {"message":{"author":{"role":"user"},"content":{"parts":["x"]}}}"#).is_none());
    assert!(parser.parse_line("r", r#"data: {"conversation_id":5}"#).is_none());
    assert!(parser.parse_line("r", "data: 42").is_none());
}

#[test]
fn sse_error_event() {
    let mut parser = SseParser::new();
    match parser.parse_line("r", r#"data: {"error":{"message":"rate limited"}}"#) {
        Some(Response::Error { error, .. }) => {
            assert_eq!(error.code, "PROVIDER_ERROR");
            assert_eq!(error.message, "rate limited");
        }
        other => panic!("unexpected {:?}", other),
    }
    match parser.parse_line("r", r#"data: {"error":"boom"}"#) {
        Some(Response::Error { error, .. }) => assert_eq!(error.message, "ChatGPT streaming error"),
        other => panic!("unexpected {:?}", other),
    }
}

#[test]
fn sse_rewritten_text_resends_whole() {
    let mut parser = SseParser::new();
    let a = r#"data: {"message":{"author":{"role":"assistant"},"content":{"parts":["abc"]}}}"#;
    let b = r#"data: {"message":{"author":{"role":"assistant"},"content":{"parts":["xyz"]}}}"#;
    assert!(parser.parse_line("r", a).is_some());
    match parser.parse_line("r", b) {
        Some(Response::Delta { data, .. }) => assert_eq!(text_of(&data, "text").as_deref(), Some("xyz")),
        other => panic!("unexpected {:?}", other),
    }
    // The same text again adds nothing.
    assert!(parser.parse_line("r", b).is_none());
}

#[test]
fn sse_deltas_reassemble_the_message() {
    let mut parser = SseParser::new();
    let snaps = ["Th", "The q", "The quick", "The quick fox"];
    let mut whole = String::new();
    for s in snaps.iter() {
        let line = format!(
            r#"data: {{"message":{{"author":{{"role":"assistant"}},"content":{{"parts":["{}"]}}}}}}"#,
            s
        );
        if let Some(Response::Delta { data, .. }) = parser.parse_line("r", &line) {
            whole.push_str(&text_of(&data, "text").unwrap());
        }
    }
    assert_eq!(whole, "The quick fox");
}

#[test]
fn stream_decoder_splits_lines_across_chunks() {
    let mut d = StreamDecoder::new();
    let part1 = b"data: {\"message\":{\"author\":{\"role\":\"assistant\"},\"content\":{\"parts\":[\"He";
    let part2 = b"llo\"]}}}\ndata: [DONE]\n";
    assert!(d.feed("r", part1).is_empty());
    let frames = d.feed("r", part2);
    assert_eq!(frames.len(), 2);
    match &frames[0] {
        Response::Delta { data, .. } => assert_eq!(text_of(data, "text").as_deref(), Some("Hello")),
        other => panic!("unexpected {:?}", other),
    }
    assert!(matches!(frames[1], Response::Done { .. }));
    assert!(matches!(d.finish("r"), Response::Done { .. }));
}

#[test]
fn stream_decoder_drops_invalid_utf8_chunks() {
    let mut d = StreamDecoder::new();
    assert!(d.feed("r", &[0xff, 0xfe, b'\n']).is_empty());
    let frames = d.feed("r", b"data: [DONE]\n");
    assert_eq!(frames.len(), 1);
}

#[test]
fn requirement_tokens_solve_required_challenge() {
    let reqs = ChatRequirements {
        persona: None,
        arkose: None,
        turnstile: None,
        proofofwork: Some(ProofOfWorkConfig {
            required: true,
            seed: "abc".to_string(),
            difficulty: None,
        }),
        token: Some("tok".to_string()),
    };
    let (t, p) = requirement_tokens(&reqs, "UA");
    assert_eq!(t.as_deref(), Some("tok"));
    let p = p.unwrap();
    assert!(p.starts_with("gAAAAAB_abc_"));
    // Difficulty "0": the token ends with the single digit "0".
    assert!(p.ends_with("_0"));

    let not_required = ChatRequirements {
        persona: None,
        arkose: None,
        turnstile: None,
        proofofwork: Some(ProofOfWorkConfig { required: false, seed: "abc".to_string(), difficulty: None }),
        token: None,
    };
    assert_eq!(requirement_tokens(&not_required, "UA"), (None, None));
}

#[test]
fn pow_token_uses_digest_prefix() {
    let token = PowSolver::solve("s", "", "ua").unwrap();
    // Empty difficulty: nonce 0 is accepted and no digest digits are kept.
    assert_eq!(token, "gAAAAAB_s_0_");
    let t2 = PowSolver::solve("s", "0", "ua").unwrap();
    let parts: Vec<&str> = t2.rsplitn(2, '_').collect();
    let nonce: u64 = t2.trim_start_matches("gAAAAAB_s_").split('_').next().unwrap().parse().unwrap();
    let digest = hex::encode(sha3::Sha3_512::digest(format!("s:{}:ua", nonce).as_bytes()));
    assert!(digest.starts_with('0'));
    assert_eq!(parts[0], &digest[..1]);
}

#[test]
fn requirements_decode_from_json() {
    let mut pow = Vec::new();
    pow.push(("required".to_string(), Json::Bool(true)));
    pow.push(("seed".to_string(), Json::Str("x".to_string())));
    let mut top = Vec::new();
    top.push(("token".to_string(), Json::Str("t".to_string())));
    top.push(("proofofwork".to_string(), Json::Object(pow)));
    let reqs = ChatRequirements::from_json(&Json::Object(top)).unwrap();
    assert_eq!(reqs.token.as_deref(), Some("t"));
    let p = reqs.proofofwork.unwrap();
    assert!(p.required);
    assert_eq!(p.seed, "x");
    assert_eq!(p.difficulty, None);

    let mut bad = Vec::new();
    bad.push(("proofofwork".to_string(), Json::Object(vec![("seed".to_string(), Json::Str("x".to_string()))])));
    assert!(ChatRequirements::from_json(&Json::Object(bad)).is_none());
}

#[test]
fn upload_names() {
    assert_eq!(upload_file_name("/tmp/safe.png"), "safe.png");
    assert_eq!(upload_file_name("dir/sub/"), "sub");
    assert_eq!(upload_file_name("a/."), "a");
    assert_eq!(upload_file_name("/"), "uploaded_file");
    assert_eq!(upload_file_name(""), "uploaded_file");
}

#[test]
fn path_validation_messages() {
    match ChatGPTFileClient::validate_file_path("a/..") {
        Err(FileError::InvalidPath(m)) => assert_eq!(m, "Path traversal rejected: a/.."),
        other => panic!("unexpected {:?}", other),
    }
    assert_eq!(ChatGPTFileClient::validate_file_path("a/..b/c").unwrap(), "a/..b/c");
    assert!(ChatGPTFileClient::validate_file_path("..").is_err());
}

#[test]
fn conversation_results() {
    let ok = send_conversation_result(200, "200 OK", "m1", None, "Hello there").unwrap();
    assert_eq!(text_of(&ok, "conversationId").as_deref(), Some("conv_new"));
    assert_eq!(text_of(&ok, "messageId").as_deref(), Some("m1"));
    assert_eq!(text_of(&ok, "text").as_deref(), Some("Hello there"));
    assert_eq!(text_of(&ok, "status").as_deref(), Some("success"));
    assert_eq!(send_conversation_result(401, "401 Unauthorized", "m1", None, "").unwrap_err(), "AUTH_EXPIRED");
    assert_eq!(
        send_conversation_result(500, "500 Internal Server Error", "m1", Some("c"), "").unwrap_err(),
        "Conversation endpoint returned HTTP 500 Internal Server Error"
    );
}

#[test]
fn conversation_payload_shape() {
    let p = build_conversation_payload("hi", "m1", None, "fresh", Some("c1"), true);
    assert_eq!(text_of(&p, "parent_message_id").as_deref(), Some("fresh"));
    assert_eq!(text_of(&p, "conversation_id").as_deref(), Some("c1"));
    assert_eq!(p.get("history_and_training_disabled").and_then(|v| v.as_bool()), Some(false));
    let s = build_conversation_payload("hi", "m1", Some("p"), "fresh", None, false);
    assert_eq!(text_of(&s, "parent_message_id").as_deref(), Some("p"));
    assert!(s.get("conversation_id").unwrap().is_null());
    assert!(s.get("history_and_training_disabled").is_none());
}

#[test]
fn refresh_needs_access_token() {
    let body = Json::Object(vec![("accessToken".to_string(), Json::Str("at".to_string()))]);
    let s = session_from_refresh(body, 5, Some("c=1")).unwrap();
    assert_eq!(s.stored_at, 5);
    assert_eq!(s.access_token.as_deref(), Some("at"));
    assert_eq!(s.cookies.as_deref(), Some("c=1"));
    let none = Json::Object(vec![]);
    assert_eq!(session_from_refresh(none, 5, None).unwrap_err(), "AUTH_EXPIRED");
}

#[test]
fn reply_text_from_answer_body() {
    let body = [
        r#"data: {"message": {"id": "m", "author": {"role": "assistant"}, "content": {"parts": ["Hel"]}}}"#,
        "",
        r#"data: {"message": {"id": "u", "author": {"role": "user"}, "content": {"parts": ["ignored"]}}}"#,
        r#"data: {"message": {"id": "m", "author": {"role": "assistant"}, "content": {"parts": ["Hello"]}}}"#,
        "data: [DONE]",
    ]
    .join("\n");
    assert_eq!(reply_text_from_body(body.as_bytes()), "Hello");
    assert_eq!(reply_text_from_body(b""), "");
    assert_eq!(reply_text_from_body(&[0xff, 0xfe]), "");
}

#[test]
fn send_preconditions() {
    assert_eq!(send_auth_failure(false, false).as_deref(), Some("AUTH_REQUIRED"));
    assert_eq!(send_auth_failure(true, false).as_deref(), Some("AUTH_REQUIRED"));
    assert_eq!(send_auth_failure(true, true), None);
    assert_eq!(conversation_request_failed("timed out"), "Conversation request failed: timed out");
}

#[test]
fn requirements_errors() {
    assert_eq!(requirements_status_error(200, "200 OK"), None);
    assert_eq!(
        requirements_status_error(403, "403 Forbidden").as_deref(),
        Some("Requirements endpoint returned status 403 Forbidden")
    );
    assert_eq!(requirements_request_failed("dns"), "Failed to fetch chat requirements: dns");
    assert_eq!(requirements_bad_json("eof"), "Bad requirements JSON: eof");
}
