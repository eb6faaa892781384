//! The ChatGPT conversation client's decisions: the conversation request
//! it sends, how it reads the answer's status, and the stream decoder that
//! cuts the answer's bytes into lines and lines into frames.

use vstd::prelude::*;
use vstd::utf8::{decode_utf8, valid_utf8};

use crate::json::{obj1, obj2, obj3, Json, JsonV};
use crate::protocol::{Response, ERR_AUTH_EXPIRED, ERR_AUTH_REQUIRED, ERR_PROVIDER_ERROR};
use crate::sse::{answers, emitted_text, lemma_line_effect, line_text, sse_step, SseOutcome, SseParser};
use crate::text::{chars_of, is_prefix, push_str, string_from_chars};

verus! {

/// The browser identity the client presents.
pub const DEFAULT_USER_AGENT: &'static str =
    "Mozilla/5.0 (X11; Linux x86_64) AppleWebKit/537.36 (KHTML, like Gecko) Chrome/122.0.0.0 Safari/537.36";

/// The `Authorization` header value for a token.
pub fn bearer(token: &str) -> (h: String)
    ensures
        h@ == "Bearer "@ + token@,
{
    let mut h = "Bearer ".to_owned();
    push_str(&mut h, token);
    h
}

/// Whether an HTTP status is a success (200 to 299).
pub open spec fn is_success_status(code: u16) -> bool {
    200 <= code <= 299
}

/// Whether an HTTP status is a success.
pub fn is_success(code: u16) -> (b: bool)
    ensures
        b == is_success_status(code),
{
    200 <= code && code <= 299
}

/// A string or `null`.
pub open spec fn str_or_null_v(s: Option<Seq<char>>) -> JsonV {
    match s {
        Some(t) => JsonV::Str(t),
        None => JsonV::Null,
    }
}

/// The user message of a conversation request.
pub open spec fn user_message_json(message_id: Seq<char>, message: Seq<char>) -> JsonV {
    JsonV::Object(
        seq![
            ("id"@, JsonV::Str(message_id)),
            ("author"@, JsonV::Object(seq![("role"@, JsonV::Str("user"@))])),
            (
                "content"@,
                JsonV::Object(
                    seq![
                        ("content_type"@, JsonV::Str("text"@)),
                        ("parts"@, JsonV::Array(seq![JsonV::Str(message)])),
                    ],
                ),
            ),
        ],
    )
}

/// The body of a conversation request: one user message, answering
/// `parent_id` in the conversation (a new one when `None`). A sent (not
/// streamed) request also asks to keep history and training enabled.
pub open spec fn conversation_payload(
    message: Seq<char>,
    message_id: Seq<char>,
    parent_id: Seq<char>,
    conversation_id: Option<Seq<char>>,
    for_send: bool,
) -> JsonV {
    let base = seq![
        ("action"@, JsonV::Str("next"@)),
        ("messages"@, JsonV::Array(seq![user_message_json(message_id, message)])),
        ("parent_message_id"@, JsonV::Str(parent_id)),
        ("conversation_id"@, str_or_null_v(conversation_id)),
        ("model"@, JsonV::Str("auto"@)),
        ("timezone_offset_min"@, JsonV::Int(-300)),
    ];
    JsonV::Object(
        if for_send {
            base.push(("history_and_training_disabled"@, JsonV::Bool(false)))
        } else {
            base
        },
    )
}

/// The conversation request carries what the user typed: its `messages`
/// are exactly one message, with id `message_id`, authored by the user,
/// whose content is the text `message` as its only part; it answers
/// `parent_id`, names the conversation (`null` for a new one) and asks for
/// the next turn.
pub proof fn lemma_payload_carries_user_message(
    message: Seq<char>,
    message_id: Seq<char>,
    parent_id: Seq<char>,
    conversation_id: Option<Seq<char>>,
    for_send: bool,
)
    ensures
        ({
            let p = conversation_payload(message, message_id, parent_id, conversation_id, for_send);
            &&& p.get("action"@) == Some(JsonV::Str("next"@))
            &&& p.get("model"@) == Some(JsonV::Str("auto"@))
            &&& p.get("timezone_offset_min"@) == Some(JsonV::Int(-300))
            &&& p.get("history_and_training_disabled"@) == if for_send {
                Some(JsonV::Bool(false))
            } else {
                None
            }
            &&& p.get("parent_message_id"@) == Some(JsonV::Str(parent_id))
            &&& p.get("conversation_id"@) == Some(
                match conversation_id {
                    Some(c) => JsonV::Str(c),
                    None => JsonV::Null,
                },
            )
            &&& p.get("messages"@) matches Some(JsonV::Array(ms)) && ms.len() == 1 && {
                let u = ms[0];
                &&& u.get("id"@) == Some(JsonV::Str(message_id))
                &&& u.get("author"@) matches Some(au) && au.get("role"@) == Some(
                    JsonV::Str("user"@),
                )
                &&& u.get("content"@) matches Some(ct) && ct.get("content_type"@) == Some(
                    JsonV::Str("text"@),
                ) && ct.get("parts"@) == Some(JsonV::Array(seq![JsonV::Str(message)]))
            }
        }),
{
    reveal_strlit("action");
    reveal_strlit("messages");
    reveal_strlit("parent_message_id");
    reveal_strlit("conversation_id");
    reveal_strlit("id");
    reveal_strlit("author");
    reveal_strlit("content");
    reveal_strlit("content_type");
    reveal_strlit("parts");
    reveal_strlit("model");
    reveal_strlit("timezone_offset_min");
    reveal_strlit("history_and_training_disabled");
    assert("model"@.len() == 5);
    assert("timezone_offset_min"@.len() == 19);
    assert("history_and_training_disabled"@.len() == 29);
    assert("action"@.len() == 6);
    assert("messages"@.len() == 8);
    assert("parent_message_id"@.len() == 17);
    assert("conversation_id"@.len() == 15);
    assert("id"@.len() == 2);
    assert("author"@.len() == 6);
    assert("content"@.len() == 7);
    assert("content_type"@.len() == 12);
    assert("parts"@.len() == 5);
    reveal_with_fuel(crate::json::lookup, 8);
}

/// The parent message id: the stored one, else the fresh one.
pub open spec fn parent_or(parent: Option<Seq<char>>, fresh: Seq<char>) -> Seq<char> {
    match parent {
        Some(p) => p,
        None => fresh,
    }
}

/// The view of an optional text.
pub open spec fn opt_str_ref_view(s: Option<&str>) -> Option<Seq<char>> {
    match s {
        Some(t) => Some(t@),
        None => None,
    }
}

/// A string or `null`.
fn str_or_null(s: Option<&str>) -> (j: Json)
    ensures
        j@ == str_or_null_v(opt_str_ref_view(s)),
{
    match s {
        Some(t) => Json::string(t),
        None => Json::Null,
    }
}

/// The body of a conversation request. `fresh_parent` is used when no
/// parent message id is stored.
pub fn build_conversation_payload(
    message: &str,
    message_id: &str,
    parent_message_id: Option<&str>,
    fresh_parent: &str,
    conversation_id: Option<&str>,
    for_send: bool,
) -> (j: Json)
    ensures
        j@ == conversation_payload(
            message@,
            message_id@,
            parent_or(opt_str_ref_view(parent_message_id), fresh_parent@),
            opt_str_ref_view(conversation_id),
            for_send,
        ),
{
    let parent: &str = match parent_message_id {
        Some(p) => p,
        None => fresh_parent,
    };
    let user = obj3(
        "id",
        Json::string(message_id),
        "author",
        obj1("role", Json::string("user")),
        "content",
        obj2("content_type", Json::string("text"), "parts", crate::json::arr1(Json::string(message))),
    );
    let ghost uv = user@;
    let msgs = crate::json::arr1(user);
    let ghost mv = msgs@;
    let conv = str_or_null(conversation_id);
    let ghost cv = conv@;
    let mut es: Vec<(String, Json)> = Vec::new();
    es.push(("action".to_owned(), Json::string("next")));
    es.push(("messages".to_owned(), msgs));
    es.push(("parent_message_id".to_owned(), Json::string(parent)));
    es.push(("conversation_id".to_owned(), conv));
    es.push(("model".to_owned(), Json::string("auto")));
    es.push(("timezone_offset_min".to_owned(), Json::Int(-300)));
    if for_send {
        es.push(("history_and_training_disabled".to_owned(), Json::Bool(false)));
    }
    proof {
        crate::json::lemma_object_view(es);
        assert(crate::json::entries_view(es@) =~= conversation_payload(
            message@,
            message_id@,
            parent_or(opt_str_ref_view(parent_message_id), fresh_parent@),
            opt_str_ref_view(conversation_id),
            for_send,
        )->Object_0);
    }
    Json::Object(es)
}

/// The result of a sent conversation message.
pub open spec fn send_result_json(
    message_id: Seq<char>,
    conversation_id: Option<Seq<char>>,
    text: Seq<char>,
) -> JsonV {
    let conv = match conversation_id {
        Some(c) => c,
        None => "conv_new"@,
    };
    JsonV::Object(
        seq![
            ("messageId"@, JsonV::Str(message_id)),
            ("conversationId"@, JsonV::Str(conv)),
            ("text"@, JsonV::Str(text)),
            ("status"@, JsonV::Str("success"@)),
        ],
    )
}

/// What the provider answers for a sent message, from the conversation
/// endpoint's status: `AUTH_EXPIRED` on 401, an HTTP error on any other
/// failure, else the result naming the message and conversation and
/// carrying the assistant's reply.
pub open spec fn send_outcome(
    status: u16,
    status_text: Seq<char>,
    message_id: Seq<char>,
    conversation_id: Option<Seq<char>>,
    reply: Seq<char>,
) -> Result<JsonV, Seq<char>> {
    if status == 401 {
        Err("AUTH_EXPIRED"@)
    } else if !is_success_status(status) {
        Err("Conversation endpoint returned HTTP "@ + status_text)
    } else {
        Ok(send_result_json(message_id, conversation_id, reply))
    }
}

/// The provider's answer for a sent message, given the endpoint's status and
/// the assistant's reply read from the answer.
pub fn send_conversation_result(
    status: u16,
    status_text: &str,
    message_id: &str,
    conversation_id: Option<&str>,
    reply: &str,
) -> (r: Result<Json, String>)
    ensures
        match (r, send_outcome(status, status_text@, message_id@, opt_str_ref_view(conversation_id), reply@)) {
            (Ok(j), Ok(v)) => j@ == v,
            (Err(e), Err(m)) => e@ == m,
            _ => false,
        },
{
    if status == 401 {
        return Err("AUTH_EXPIRED".to_owned());
    }
    if !is_success(status) {
        let mut m = "Conversation endpoint returned HTTP ".to_owned();
        push_str(&mut m, status_text);
        return Err(m);
    }
    let conv: &str = match conversation_id {
        Some(c) => c,
        None => "conv_new",
    };
    let mut es: Vec<(String, Json)> = Vec::new();
    es.push(("messageId".to_owned(), Json::string(message_id)));
    es.push(("conversationId".to_owned(), Json::string(conv)));
    es.push(("text".to_owned(), Json::string(reply)));
    es.push(("status".to_owned(), Json::string("success")));
    proof {
        crate::json::lemma_object_view(es);
        assert(crate::json::entries_view(es@) =~= send_result_json(
            message_id@,
            opt_str_ref_view(conversation_id),
            reply@,
        )->Object_0);
    }
    Ok(Json::Object(es))
}

/// Why a message cannot be sent: no stored session, or a session without
/// an access token. Nothing is sent then.
pub fn send_auth_failure(session_loaded: bool, has_token: bool) -> (r: Option<String>)
    ensures
        (!session_loaded || !has_token) ==> (r matches Some(e) && e@ == "AUTH_REQUIRED"@),
        session_loaded && has_token ==> r is None,
{
    if !session_loaded || !has_token {
        Some("AUTH_REQUIRED".to_owned())
    } else {
        None
    }
}

/// The error for a conversation request that could not be sent.
pub fn conversation_request_failed(detail: &str) -> (r: String)
    ensures
        r@ == "Conversation request failed: "@ + detail@,
{
    let mut m = "Conversation request failed: ".to_owned();
    push_str(&mut m, detail);
    m
}

/// Lines, each ended by a newline, one after another.
pub open spec fn join_lines(ls: Seq<Seq<char>>) -> Seq<char>
    decreases ls.len(),
{
    if ls.len() == 0 {
        Seq::empty()
    } else {
        join_lines(ls.drop_last()) + ls.last() + seq!['\n']
    }
}

/// Whether a text holds no newline.
pub open spec fn no_newline(s: Seq<char>) -> bool {
    forall|i: int| 0 <= i < s.len() ==> s[i] != '\n'
}

/// Whether none of the lines holds a newline.
pub open spec fn all_no_newline(ls: Seq<Seq<char>>) -> bool {
    forall|k: int| 0 <= k < ls.len() ==> no_newline(#[trigger] ls[k])
}

/// The parser's text after a run of lines, and what the lines that yield a
/// frame amount to, in order.
pub open spec fn sse_run(last: Seq<char>, lines: Seq<Seq<char>>) -> (Seq<char>, Seq<SseOutcome>)
    decreases lines.len(),
{
    if lines.len() == 0 {
        (last, Seq::empty())
    } else {
        let prev = sse_run(last, lines.drop_last());
        let st = sse_step(prev.0, lines.last());
        (
            st.0,
            if st.1 is Nothing {
                prev.1
            } else {
                prev.1.push(st.1)
            },
        )
    }
}

/// The text of the latest line in a run that carries assistant text, or
/// `last` when none does.
pub open spec fn latest_text(last: Seq<char>, lines: Seq<Seq<char>>) -> Seq<char>
    decreases lines.len(),
{
    if lines.len() == 0 {
        last
    } else {
        match line_text(lines.last()) {
            Some(t) => t,
            None => latest_text(last, lines.drop_last()),
        }
    }
}

/// Whether each line's assistant text extends the latest text before it
/// (starting from `last`); lines without assistant text may stand anywhere.
pub open spec fn texts_chain(last: Seq<char>, lines: Seq<Seq<char>>) -> bool
    decreases lines.len(),
{
    if lines.len() == 0 {
        true
    } else {
        &&& texts_chain(last, lines.drop_last())
        &&& line_text(lines.last()) matches Some(t) ==> is_prefix(
            latest_text(last, lines.drop_last()),
            t,
        )
    }
}

/// The text the outcomes add to the stream, in order.
pub open spec fn concat_emitted(outs: Seq<SseOutcome>) -> Seq<char>
    decreases outs.len(),
{
    if outs.len() == 0 {
        Seq::empty()
    } else {
        concat_emitted(outs.drop_last()) + emitted_text(outs.last())
    }
}

/// Whether no outcome is a delta with empty text.
pub open spec fn no_empty_delta(outs: Seq<SseOutcome>) -> bool {
    forall|i: int|
        0 <= i < outs.len() ==> (#[trigger] outs[i] matches SseOutcome::Delta { text, .. }
            ==> text.len() > 0)
}

/// Deltas reassemble the assistant's message: over a run of lines whose
/// assistant texts each extend the one before, with any other lines (not
/// `data:`, `[DONE]`, undecodable, errors, other roles) between them, the
/// text remembered before the run followed by the text of every delta, in
/// order, is the latest assistant text, which the parser then remembers;
/// and no delta is empty.
pub proof fn lemma_deltas_reassemble_lines(last: Seq<char>, lines: Seq<Seq<char>>)
    requires
        texts_chain(last, lines),
    ensures
        sse_run(last, lines).0 == latest_text(last, lines),
        last + concat_emitted(sse_run(last, lines).1) == latest_text(last, lines),
        no_empty_delta(sse_run(last, lines).1),
    decreases lines.len(),
{
    if lines.len() == 0 {
        assert(last + concat_emitted(Seq::<SseOutcome>::empty()) =~= last);
    } else {
        let init = lines.drop_last();
        let l = lines.last();
        lemma_deltas_reassemble_lines(last, init);
        let prev = sse_run(last, init);
        let st = sse_step(prev.0, l);
        lemma_line_effect(prev.0, l);
        let outs = sse_run(last, lines).1;
        if st.1 is Nothing {
            assert(outs == prev.1);
            assert(emitted_text(st.1) == Seq::<char>::empty());
            match line_text(l) {
                Some(t) => {
                    assert(prev.0 + emitted_text(st.1) == t);
                    assert(prev.0 + Seq::<char>::empty() =~= prev.0);
                },
                None => {},
            }
        } else {
            assert(outs == prev.1.push(st.1));
            assert(outs.drop_last() =~= prev.1);
            assert(concat_emitted(outs) == concat_emitted(prev.1) + emitted_text(st.1));
            assert(last + (concat_emitted(prev.1) + emitted_text(st.1)) =~= (last
                + concat_emitted(prev.1)) + emitted_text(st.1));
            match line_text(l) {
                Some(t) => {},
                None => {
                    assert(prev.0 + Seq::<char>::empty() =~= prev.0);
                },
            }
            assert forall|i: int| 0 <= i < outs.len() implies (#[trigger] outs[i] matches SseOutcome::Delta {
                text,
                ..
            } ==> text.len() > 0) by {
                if i < prev.1.len() {
                    assert(outs[i] == prev.1[i]);
                }
            }
        }
    }
}

/// Whether the frames are, one for one, what the outcomes call for.
pub open spec fn frames_answer(rs: Seq<Response>, id: Seq<char>, outs: Seq<SseOutcome>) -> bool {
    &&& rs.len() == outs.len()
    &&& forall|i: int| 0 <= i < rs.len() ==> answers(Some(#[trigger] rs[i]), id, outs[i])
}

/// Decodes bytes as UTF-8 (`std::str::from_utf8`). Claimed: `Some` exactly
/// for valid UTF-8, holding the decoded characters.
#[verifier::external_body]
pub(crate) fn utf8_decode(bytes: &[u8]) -> (r: Option<String>)
    ensures
        match r {
            Some(s) => valid_utf8(bytes@) && s@ == decode_utf8(bytes@),
            None => !valid_utf8(bytes@),
        },
{
    match std::str::from_utf8(bytes) {
        Ok(s) => Some(s.to_owned()),
        Err(_) => None,
    }
}

/// The text that a chunk of the answer adds: its characters when it is
/// valid UTF-8; a chunk that is not is dropped.
pub open spec fn chunk_text(chunk: Seq<u8>) -> Seq<char> {
    if valid_utf8(chunk) {
        decode_utf8(chunk)
    } else {
        Seq::empty()
    }
}

/// Cuts the streamed answer into lines and the lines into frames.
pub struct StreamDecoder {
    buffer: String,
    parser: SseParser,
}

impl StreamDecoder {
    /// The text received after the last newline.
    pub closed spec fn pending(&self) -> Seq<char> {
        self.buffer@
    }

    /// The assistant text that the parser remembers.
    pub closed spec fn last_text(&self) -> Seq<char> {
        self.parser@
    }

    /// The pending text never holds a newline.
    pub open spec fn wf(&self) -> bool {
        no_newline(self.pending())
    }

    /// A decoder that has received nothing.
    pub fn new() -> (d: StreamDecoder)
        ensures
            d.wf(),
            d.pending() == Seq::<char>::empty(),
            d.last_text() == Seq::<char>::empty(),
    {
        StreamDecoder { buffer: String::new(), parser: SseParser::new() }
    }

    /// Takes a chunk of the answer: every line it completes is parsed, in
    /// order, and the frames they yield are returned.
    pub fn feed(&mut self, req_id: &str, chunk: &[u8]) -> (rs: Vec<Response>)
        requires
            old(self).wf(),
        ensures
            final(self).wf(),
            exists|lines: Seq<Seq<char>>|
                #![trigger join_lines(lines)]
                {
                    &&& old(self).pending() + chunk_text(chunk@) == join_lines(lines)
                        + final(self).pending()
                    &&& all_no_newline(lines)
                    &&& final(self).last_text() == sse_run(old(self).last_text(), lines).0
                    &&& frames_answer(rs@, req_id@, sse_run(old(self).last_text(), lines).1)
                },
    {
        let ghost old_last = self.parser@;
        let ghost old_buf = self.buffer@;
        let text = match utf8_decode(chunk) {
            Some(t) => t,
            None => {
                let out: Vec<Response> = Vec::new();
                assert(old_buf + chunk_text(chunk@) =~= join_lines(Seq::<Seq<char>>::empty())
                    + old_buf);
                assert(frames_answer(out@, req_id@, sse_run(old_last, Seq::empty()).1));
                return out;
            },
        };
        let mut all = chars_of(self.buffer.as_str());
        let more = chars_of(text.as_str());
        let mut j: usize = 0;
        while j < more.len()
            invariant
                j <= more@.len(),
                all@ == old_buf + more@.take(j as int),
            decreases more@.len() - j,
        {
            all.push(more[j]);
            j = j + 1;
            assert(all@ =~= old_buf + more@.take(j as int));
        }
        assert(more@.take(more@.len() as int) =~= more@);
        let ghost mut lines: Seq<Seq<char>> = Seq::empty();
        let mut out: Vec<Response> = Vec::new();
        let mut start: usize = 0;
        let mut i: usize = 0;
        assert(all@.subrange(0, 0) =~= join_lines(lines));
        while i < all.len()
            invariant
                start <= i <= all@.len(),
                all@ == old_buf + chunk_text(chunk@),
                all@.subrange(0, start as int) == join_lines(lines),
                all_no_newline(lines),
                no_newline(all@.subrange(start as int, i as int)),
                self.parser@ == sse_run(old_last, lines).0,
                frames_answer(out@, req_id@, sse_run(old_last, lines).1),
            decreases all@.len() - i,
        {
            if all[i] == '\n' {
                let line = string_from_chars(&all, start, i);
                let ghost l = all@.subrange(start as int, i as int);
                let ghost prev_lines = lines;
                let r = self.parser.parse_line(req_id, line.as_str());
                proof {
                    lines = lines.push(l);
                    assert(lines.drop_last() =~= prev_lines);
                    assert(lines.last() == l);
                    assert(all@.subrange(0, i + 1) =~= join_lines(prev_lines) + l + seq!['\n']);
                    assert forall|k: int| 0 <= k < lines.len() implies no_newline(
                        #[trigger] lines[k],
                    ) by {
                        if k < prev_lines.len() {
                            assert(lines[k] == prev_lines[k]);
                        }
                    }
                }
                match r {
                    Some(x) => {
                        out.push(x);
                    },
                    None => {},
                }
                start = i + 1;
                assert(all@.subrange(start as int, i + 1) =~= Seq::<char>::empty());
            } else {
                assert(all@.subrange(start as int, i + 1) =~= all@.subrange(start as int, i as int)
                    .push(all@[i as int]));
            }
            i = i + 1;
        }
        self.buffer = string_from_chars(&all, start, all.len());
        assert(all@ =~= all@.subrange(0, start as int) + all@.subrange(
            start as int,
            all@.len() as int,
        ));
        out
    }

    /// The full assistant text remembered so far.
    pub fn reply_text(&self) -> (t: String)
        ensures
            t@ == self.last_text(),
    {
        self.parser.text()
    }

    /// The frame that ends the stream once the answer is over.
    pub fn finish(&self, req_id: &str) -> (r: Response)
        ensures
            r.is_done_for(req_id@),
    {
        Response::done(req_id)
    }
}


/// The assistant's reply in a whole answer body: the body, closed by a
/// newline, is cut into lines, the lines are parsed in order from a fresh
/// parser, and the text the parser then remembers is the reply.
pub fn reply_text_from_body(body: &[u8]) -> (r: String)
    ensures
        exists|lines: Seq<Seq<char>>, rest: Seq<char>|
            #![trigger join_lines(lines), no_newline(rest)]
            {
                &&& chunk_text(body@.push(10u8)) == join_lines(lines) + rest
                &&& all_no_newline(lines)
                &&& no_newline(rest)
                &&& r@ == sse_run(Seq::empty(), lines).0
            },
{
    let mut bytes: Vec<u8> = Vec::new();
    let mut i: usize = 0;
    while i < body.len()
        invariant
            i <= body@.len(),
            bytes@ == body@.take(i as int),
        decreases body@.len() - i,
    {
        bytes.push(body[i]);
        i = i + 1;
        assert(bytes@ =~= body@.take(i as int));
    }
    bytes.push(10u8);
    assert(bytes@ =~= body@.push(10u8));
    let mut decoder = StreamDecoder::new();
    let _frames = decoder.feed("", bytes.as_slice());
    assert(Seq::<char>::empty() + chunk_text(body@.push(10u8)) =~= chunk_text(body@.push(10u8)));
    decoder.reply_text()
}

/// Why streaming cannot start: no stored session, or a session without an
/// access token.
pub fn stream_auth_failure(req_id: &str, session_loaded: bool, has_token: bool) -> (r: Option<Response>)
    ensures
        !session_loaded ==> (r matches Some(x) && x.is_error_with(
            req_id@,
            ERR_AUTH_REQUIRED@,
            "Authentication required"@,
        )),
        session_loaded && !has_token ==> (r matches Some(x) && x.is_error_with(
            req_id@,
            ERR_AUTH_REQUIRED@,
            "Access token missing"@,
        )),
        session_loaded && has_token ==> r is None,
{
    if !session_loaded {
        Some(Response::error(req_id, ERR_AUTH_REQUIRED, "Authentication required"))
    } else if !has_token {
        Some(Response::error(req_id, ERR_AUTH_REQUIRED, "Access token missing"))
    } else {
        None
    }
}

/// The frame for a conversation request that could not be sent.
pub fn stream_send_failure(req_id: &str, message: &str) -> (r: Response)
    ensures
        r.is_error_with(req_id@, ERR_PROVIDER_ERROR@, message@),
{
    Response::error(req_id, ERR_PROVIDER_ERROR, message)
}

/// The frame that ends a stream before it starts, from the answer's status:
/// only 401 does; any other status is streamed.
pub fn stream_status_failure(req_id: &str, status: u16) -> (r: Option<Response>)
    ensures
        status == 401 ==> (r matches Some(x) && x.is_error_with(
            req_id@,
            ERR_AUTH_EXPIRED@,
            "ChatGPT session expired"@,
        )),
        status != 401 ==> r is None,
{
    if status == 401 {
        Some(Response::error(req_id, ERR_AUTH_EXPIRED, "ChatGPT session expired"))
    } else {
        None
    }
}

} // verus!
