//! The parser of ChatGPT's server-sent event stream: it turns each `data:`
//! line into at most one protocol frame, and turns the growing assistant
//! message of successive events into text deltas.

use vstd::prelude::*;

use crate::json::{json_parse, parse_json, values_view, Json, JsonV};
use crate::protocol::{Response, ERR_PROVIDER_ERROR};
use crate::schema::{
    field, get_field, opt_array, opt_bool, opt_json_ref_view, opt_json_view, opt_str,
    opt_string_view, opt_value, read_opt_array, read_opt_bool, read_opt_str, read_opt_value,
};
use crate::text::{
    chars_equal, chars_of, has_prefix_at, is_prefix, range_equals, string_from_chars, trim, trim_range,
};

verus! {

/// The content of a message.
#[derive(Debug)]
pub struct ChatGPTMessageContent {
    pub content_type: Option<String>,
    pub parts: Option<Vec<Json>>,
}

/// The author of a message.
#[derive(Debug)]
pub struct ChatGPTAuthor {
    pub role: Option<String>,
}

/// A message of the stream.
#[derive(Debug)]
pub struct ChatGPTMessage {
    pub id: Option<String>,
    pub author: Option<ChatGPTAuthor>,
    pub content: Option<ChatGPTMessageContent>,
    pub status: Option<String>,
    pub end_turn: Option<bool>,
    pub metadata: Option<Json>,
}

/// One event of the stream.
#[derive(Debug)]
pub struct ChatGPTStreamChunk {
    pub conversation_id: Option<String>,
    pub message: Option<ChatGPTMessage>,
    pub error: Option<Json>,
}

pub struct ContentV {
    pub content_type: Option<Seq<char>>,
    pub parts: Option<Seq<JsonV>>,
}

pub struct AuthorV {
    pub role: Option<Seq<char>>,
}

pub struct MessageV {
    pub id: Option<Seq<char>>,
    pub author: Option<AuthorV>,
    pub content: Option<ContentV>,
    pub status: Option<Seq<char>>,
    pub end_turn: Option<bool>,
    pub metadata: Option<JsonV>,
}

pub struct ChunkV {
    pub conversation_id: Option<Seq<char>>,
    pub message: Option<MessageV>,
    pub error: Option<JsonV>,
}

impl View for ChatGPTMessageContent {
    type V = ContentV;

    open spec fn view(&self) -> ContentV {
        ContentV {
            content_type: opt_string_view(self.content_type),
            parts: match self.parts {
                Some(ps) => Some(values_view(ps@)),
                None => None,
            },
        }
    }
}

impl View for ChatGPTAuthor {
    type V = AuthorV;

    open spec fn view(&self) -> AuthorV {
        AuthorV { role: opt_string_view(self.role) }
    }
}

impl View for ChatGPTMessage {
    type V = MessageV;

    open spec fn view(&self) -> MessageV {
        MessageV {
            id: opt_string_view(self.id),
            author: match self.author {
                Some(a) => Some(a@),
                None => None,
            },
            content: match self.content {
                Some(c) => Some(c@),
                None => None,
            },
            status: opt_string_view(self.status),
            end_turn: self.end_turn,
            metadata: opt_json_view(self.metadata),
        }
    }
}

impl View for ChatGPTStreamChunk {
    type V = ChunkV;

    open spec fn view(&self) -> ChunkV {
        ChunkV {
            conversation_id: opt_string_view(self.conversation_id),
            message: match self.message {
                Some(m) => Some(m@),
                None => None,
            },
            error: opt_json_view(self.error),
        }
    }
}

pub open spec fn decode_author(v: JsonV) -> Option<AuthorV> {
    match field(v, "role"@, 0, 1) {
        None => None,
        Some(f) => match opt_str(f) {
            None => None,
            Some(role) => Some(AuthorV { role }),
        },
    }
}

pub open spec fn decode_content(v: JsonV) -> Option<ContentV> {
    match (field(v, "content_type"@, 0, 2), field(v, "parts"@, 1, 2)) {
        (Some(f0), Some(f1)) => match (opt_str(f0), opt_array(f1)) {
            (Some(content_type), Some(parts)) => Some(ContentV { content_type, parts }),
            _ => None,
        },
        _ => None,
    }
}

/// An optional record field: absent or `null` is `None`; otherwise the
/// value must decode.
pub open spec fn opt_author(f: Option<JsonV>) -> Option<Option<AuthorV>> {
    match f {
        None => Some(None),
        Some(JsonV::Null) => Some(None),
        Some(x) => match decode_author(x) {
            Some(a) => Some(Some(a)),
            None => None,
        },
    }
}

pub open spec fn opt_content(f: Option<JsonV>) -> Option<Option<ContentV>> {
    match f {
        None => Some(None),
        Some(JsonV::Null) => Some(None),
        Some(x) => match decode_content(x) {
            Some(c) => Some(Some(c)),
            None => None,
        },
    }
}

pub open spec fn decode_message(v: JsonV) -> Option<MessageV> {
    let f0 = field(v, "id"@, 0, 6);
    let f1 = field(v, "author"@, 1, 6);
    let f2 = field(v, "content"@, 2, 6);
    let f3 = field(v, "status"@, 3, 6);
    let f4 = field(v, "end_turn"@, 4, 6);
    let f5 = field(v, "metadata"@, 5, 6);
    if f0 is None || f1 is None || f2 is None || f3 is None || f4 is None || f5 is None {
        None
    } else {
        let id = opt_str(f0.unwrap());
        let author = opt_author(f1.unwrap());
        let content = opt_content(f2.unwrap());
        let status = opt_str(f3.unwrap());
        let end_turn = opt_bool(f4.unwrap());
        let metadata = opt_value(f5.unwrap());
        if id is None || author is None || content is None || status is None || end_turn is None
            || metadata is None {
            None
        } else {
            Some(
                MessageV {
                    id: id.unwrap(),
                    author: author.unwrap(),
                    content: content.unwrap(),
                    status: status.unwrap(),
                    end_turn: end_turn.unwrap(),
                    metadata: metadata.unwrap(),
                },
            )
        }
    }
}

pub open spec fn opt_message(f: Option<JsonV>) -> Option<Option<MessageV>> {
    match f {
        None => Some(None),
        Some(JsonV::Null) => Some(None),
        Some(x) => match decode_message(x) {
            Some(m) => Some(Some(m)),
            None => None,
        },
    }
}

/// The event that a JSON document decodes to, if it decodes.
pub open spec fn decode_chunk(v: JsonV) -> Option<ChunkV> {
    let f0 = field(v, "conversation_id"@, 0, 3);
    let f1 = field(v, "message"@, 1, 3);
    let f2 = field(v, "error"@, 2, 3);
    if f0 is None || f1 is None || f2 is None {
        None
    } else {
        let conversation_id = opt_str(f0.unwrap());
        let message = opt_message(f1.unwrap());
        let error = opt_value(f2.unwrap());
        if conversation_id is None || message is None || error is None {
            None
        } else {
            Some(
                ChunkV {
                    conversation_id: conversation_id.unwrap(),
                    message: message.unwrap(),
                    error: error.unwrap(),
                },
            )
        }
    }
}

impl ChatGPTAuthor {
    /// Decodes an author record.
    pub fn from_json(j: &Json) -> (r: Option<ChatGPTAuthor>)
        ensures
            match r {
                Some(a) => decode_author(j@) == Some(a@),
                None => decode_author(j@) is None,
            },
    {
        let f = match get_field(j, "role", 0, 1) {
            Ok(f) => f,
            Err(_) => return None,
        };
        let role = match read_opt_str(f) {
            Ok(r) => r,
            Err(_) => return None,
        };
        Some(ChatGPTAuthor { role })
    }
}


impl ChatGPTMessageContent {
    /// Decodes a message-content record.
    pub fn from_json(j: &Json) -> (r: Option<ChatGPTMessageContent>)
        ensures
            match r {
                Some(c) => decode_content(j@) == Some(c@),
                None => decode_content(j@) is None,
            },
    {
        let f0 = match get_field(j, "content_type", 0, 2) {
            Ok(f) => f,
            Err(_) => return None,
        };
        let f1 = match get_field(j, "parts", 1, 2) {
            Ok(f) => f,
            Err(_) => return None,
        };
        let content_type = match read_opt_str(f0) {
            Ok(x) => x,
            Err(_) => return None,
        };
        let parts = match read_opt_array(f1) {
            Ok(x) => x,
            Err(_) => return None,
        };
        Some(ChatGPTMessageContent { content_type, parts })
    }
}

/// Decodes an optional author field.
fn read_opt_author(f: Option<&Json>) -> (r: Result<Option<ChatGPTAuthor>, ()>)
    ensures
        match r {
            Ok(Some(a)) => opt_author(opt_json_ref_view(f)) == Some(Some(a@)),
            Ok(None) => opt_author(opt_json_ref_view(f)) == Some(None::<AuthorV>),
            Err(_) => opt_author(opt_json_ref_view(f)) is None,
        },
{
    match f {
        None => Ok(None),
        Some(Json::Null) => Ok(None),
        Some(x) => match ChatGPTAuthor::from_json(x) {
            Some(a) => Ok(Some(a)),
            None => Err(()),
        },
    }
}

/// Decodes an optional content field.
fn read_opt_content(f: Option<&Json>) -> (r: Result<Option<ChatGPTMessageContent>, ()>)
    ensures
        match r {
            Ok(Some(c)) => opt_content(opt_json_ref_view(f)) == Some(Some(c@)),
            Ok(None) => opt_content(opt_json_ref_view(f)) == Some(None::<ContentV>),
            Err(_) => opt_content(opt_json_ref_view(f)) is None,
        },
{
    match f {
        None => Ok(None),
        Some(Json::Null) => Ok(None),
        Some(x) => match ChatGPTMessageContent::from_json(x) {
            Some(c) => Ok(Some(c)),
            None => Err(()),
        },
    }
}

impl ChatGPTMessage {
    /// Decodes a message record.
    pub fn from_json(j: &Json) -> (r: Option<ChatGPTMessage>)
        ensures
            match r {
                Some(m) => decode_message(j@) == Some(m@),
                None => decode_message(j@) is None,
            },
    {
        let f0 = match get_field(j, "id", 0, 6) {
            Ok(f) => f,
            Err(_) => return None,
        };
        let f1 = match get_field(j, "author", 1, 6) {
            Ok(f) => f,
            Err(_) => return None,
        };
        let f2 = match get_field(j, "content", 2, 6) {
            Ok(f) => f,
            Err(_) => return None,
        };
        let f3 = match get_field(j, "status", 3, 6) {
            Ok(f) => f,
            Err(_) => return None,
        };
        let f4 = match get_field(j, "end_turn", 4, 6) {
            Ok(f) => f,
            Err(_) => return None,
        };
        let f5 = match get_field(j, "metadata", 5, 6) {
            Ok(f) => f,
            Err(_) => return None,
        };
        let id = match read_opt_str(f0) {
            Ok(x) => x,
            Err(_) => return None,
        };
        let author = match read_opt_author(f1) {
            Ok(x) => x,
            Err(_) => return None,
        };
        let content = match read_opt_content(f2) {
            Ok(x) => x,
            Err(_) => return None,
        };
        let status = match read_opt_str(f3) {
            Ok(x) => x,
            Err(_) => return None,
        };
        let end_turn = match read_opt_bool(f4) {
            Ok(x) => x,
            Err(_) => return None,
        };
        let metadata = read_opt_value(f5);
        Some(ChatGPTMessage { id, author, content, status, end_turn, metadata })
    }
}

/// Decodes an optional message field.
fn read_opt_message(f: Option<&Json>) -> (r: Result<Option<ChatGPTMessage>, ()>)
    ensures
        match r {
            Ok(Some(m)) => opt_message(opt_json_ref_view(f)) == Some(Some(m@)),
            Ok(None) => opt_message(opt_json_ref_view(f)) == Some(None::<MessageV>),
            Err(_) => opt_message(opt_json_ref_view(f)) is None,
        },
{
    match f {
        None => Ok(None),
        Some(Json::Null) => Ok(None),
        Some(x) => match ChatGPTMessage::from_json(x) {
            Some(m) => Ok(Some(m)),
            None => Err(()),
        },
    }
}

impl ChatGPTStreamChunk {
    /// Decodes an event of the stream.
    pub fn from_json(j: &Json) -> (r: Option<ChatGPTStreamChunk>)
        ensures
            match r {
                Some(c) => decode_chunk(j@) == Some(c@),
                None => decode_chunk(j@) is None,
            },
    {
        let f0 = match get_field(j, "conversation_id", 0, 3) {
            Ok(f) => f,
            Err(_) => return None,
        };
        let f1 = match get_field(j, "message", 1, 3) {
            Ok(f) => f,
            Err(_) => return None,
        };
        let f2 = match get_field(j, "error", 2, 3) {
            Ok(f) => f,
            Err(_) => return None,
        };
        let conversation_id = match read_opt_str(f0) {
            Ok(x) => x,
            Err(_) => return None,
        };
        let message = match read_opt_message(f1) {
            Ok(x) => x,
            Err(_) => return None,
        };
        let error = read_opt_value(f2);
        Some(ChatGPTStreamChunk { conversation_id, message, error })
    }
}


/// What one line of the stream amounts to.
pub enum SseOutcome {
    /// No frame.
    Nothing,
    /// The end of the stream.
    Done,
    /// The stream reported an error with this message.
    Failure(Seq<char>),
    /// New assistant text.
    Delta { text: Seq<char>, conversation_id: Option<Seq<char>>, message_id: Option<Seq<char>> },
}

/// The concatenation of the string parts of a message; other parts count
/// for nothing.
pub open spec fn parts_text(ps: Seq<JsonV>) -> Seq<char>
    decreases ps.len(),
{
    if ps.len() == 0 {
        Seq::empty()
    } else {
        parts_text(ps.drop_last()) + match ps.last() {
            JsonV::Str(t) => t,
            _ => Seq::empty(),
        }
    }
}

/// The full text of an event's message when the event carries an
/// assistant message with parts.
pub open spec fn assistant_text(c: ChunkV) -> Option<Seq<char>> {
    match c.message {
        Some(m) => match m.author {
            Some(a) => if a.role == Some("assistant"@) {
                match m.content {
                    Some(ct) => match ct.parts {
                        Some(ps) => Some(parts_text(ps)),
                        None => None,
                    },
                    None => None,
                }
            } else {
                None
            },
            None => None,
        },
        None => None,
    }
}

/// The id of an event's message.
pub open spec fn chunk_message_id(c: ChunkV) -> Option<Seq<char>> {
    match c.message {
        Some(m) => m.id,
        None => None,
    }
}

/// The message reported for a stream error.
pub open spec fn error_message(e: JsonV) -> Seq<char> {
    match e.get_str("message"@) {
        Some(m) => m,
        None => "ChatGPT streaming error"@,
    }
}

/// The text remembered after an event and what the event amounts to, from
/// the text remembered before it.
pub open spec fn chunk_step(last: Seq<char>, c: ChunkV) -> (Seq<char>, SseOutcome) {
    match c.error {
        Some(e) => (last, SseOutcome::Failure(error_message(e))),
        None => match assistant_text(c) {
            None => (last, SseOutcome::Nothing),
            Some(full) => if is_prefix(last, full) {
                let d = full.skip(last.len() as int);
                (
                    full,
                    if d.len() > 0 {
                        SseOutcome::Delta {
                            text: d,
                            conversation_id: c.conversation_id,
                            message_id: chunk_message_id(c),
                        }
                    } else {
                        SseOutcome::Nothing
                    },
                )
            } else {
                (
                    full,
                    SseOutcome::Delta {
                        text: full,
                        conversation_id: c.conversation_id,
                        message_id: chunk_message_id(c),
                    },
                )
            },
        },
    }
}

/// The payload of a `data:` line: the trimmed line must start with
/// `data: `, and the rest is trimmed again.
pub open spec fn line_payload(line: Seq<char>) -> Option<Seq<char>> {
    let t = trim(line);
    if is_prefix("data: "@, t) {
        Some(trim(t.skip(6)))
    } else {
        None
    }
}

/// The text remembered after a line and what the line amounts to.
pub open spec fn sse_step(last: Seq<char>, line: Seq<char>) -> (Seq<char>, SseOutcome) {
    match line_payload(line) {
        None => (last, SseOutcome::Nothing),
        Some(p) => if p == "[DONE]"@ {
            (last, SseOutcome::Done)
        } else {
            match json_parse(p) {
                Err(_) => (last, SseOutcome::Nothing),
                Ok(v) => match decode_chunk(v) {
                    None => (last, SseOutcome::Nothing),
                    Some(c) => chunk_step(last, c),
                },
            }
        },
    }
}

/// The assistant text a line carries: that of a `data:` line whose payload
/// decodes to an event with assistant text and no error. Every other line
/// (not `data:`, `[DONE]`, undecodable, an error, no assistant text) carries
/// none.
pub open spec fn line_text(line: Seq<char>) -> Option<Seq<char>> {
    match line_payload(line) {
        None => None,
        Some(p) => if p == "[DONE]"@ {
            None
        } else {
            match json_parse(p) {
                Err(_) => None,
                Ok(v) => match decode_chunk(v) {
                    None => None,
                    Some(c) => if is_text_event(c) {
                        assistant_text(c)
                    } else {
                        None
                    },
                },
            }
        },
    }
}

/// What one line does to the remembered text and the stream's text: a line
/// without assistant text changes neither; a line with text `t` makes `t`
/// the remembered text, and adds exactly the part of `t` after the
/// remembered text when `t` extends it (nothing when `t` is the same text,
/// and never an empty delta), else the whole of `t`.
pub proof fn lemma_line_effect(last: Seq<char>, line: Seq<char>)
    ensures
        line_text(line) is None ==> sse_step(last, line).0 == last && emitted_text(
            sse_step(last, line).1,
        ) == Seq::<char>::empty(),
        line_text(line) matches Some(t) ==> {
            &&& sse_step(last, line).0 == t
            &&& is_prefix(last, t) ==> last + emitted_text(sse_step(last, line).1) == t
            &&& is_prefix(last, t) ==> (sse_step(last, line).1 matches SseOutcome::Delta {
                text,
                ..
            } ==> text.len() > 0)
            &&& !is_prefix(last, t) ==> sse_step(last, line).1 is Delta && emitted_text(
                sse_step(last, line).1,
            ) == t
        },
{
    match line_payload(line) {
        None => {},
        Some(p) => if p != "[DONE]"@ {
            match json_parse(p) {
                Err(_) => {},
                Ok(v) => match decode_chunk(v) {
                    None => {},
                    Some(c) => if is_text_event(c) {
                        lemma_delta_extends_or_restarts(last, c);
                    },
                },
            }
        },
    }
}

/// An event with assistant text `t`: `t` is remembered; when `t` extends the
/// remembered text the delta is the new part, never empty; else it is `t`.
proof fn lemma_delta_extends_or_restarts(last: Seq<char>, c: ChunkV)
    requires
        is_text_event(c),
    ensures
        chunk_step(last, c).0 == assistant_text(c).unwrap(),
        is_prefix(last, assistant_text(c).unwrap()) ==> last + emitted_text(chunk_step(last, c).1)
            == assistant_text(c).unwrap(),
        is_prefix(last, assistant_text(c).unwrap()) ==> (chunk_step(last, c).1 matches SseOutcome::Delta {
            text,
            ..
        } ==> text.len() > 0),
        !is_prefix(last, assistant_text(c).unwrap()) ==> chunk_step(last, c).1 is Delta
            && emitted_text(chunk_step(last, c).1) == assistant_text(c).unwrap(),
{
    if is_prefix(last, assistant_text(c).unwrap()) {
        lemma_delta_extends(last, c);
    }
}

/// Every delta frame names the event it comes from: for any remembered text
/// and any event with assistant text and no error, a delta frame answering
/// it carries the event's own conversation id and message id (`null` where
/// the event has none), whether its text extends the remembered text or
/// restarts it, and its text is what the event adds.
pub proof fn lemma_delta_names_its_event(
    last: Seq<char>,
    c: ChunkV,
    id: Seq<char>,
    r: Option<Response>,
)
    requires
        is_text_event(c),
        answers(r, id, chunk_step(last, c).1),
        r matches Some(x) && x is Delta,
    ensures
        r.unwrap()->Delta_data@.get("conversationId"@) == Some(
            match c.conversation_id {
                Some(t) => JsonV::Str(t),
                None => JsonV::Null,
            },
        ),
        r.unwrap()->Delta_data@.get("messageId"@) == Some(
            match c.message.unwrap().id {
                Some(t) => JsonV::Str(t),
                None => JsonV::Null,
            },
        ),
        r.unwrap()->Delta_data@.get("text"@) == Some(
            JsonV::Str(emitted_text(chunk_step(last, c).1)),
        ),
        r.unwrap().spec_id() == id,
{
    reveal_strlit("text");
    reveal_strlit("conversationId");
    reveal_strlit("messageId");
    reveal_with_fuel(crate::json::lookup, 4);
    let o = chunk_step(last, c).1;
    if let SseOutcome::Delta { text, conversation_id, message_id } = o {
        let es = seq![
            ("text"@, JsonV::Str(text)),
            ("conversationId"@, str_or_null(conversation_id)),
            ("messageId"@, str_or_null(message_id)),
        ];
        assert("text"@.len() == 4);
        assert("messageId"@.len() == 9);
        assert("conversationId"@.len() == 14);
        assert("text"@ != "conversationId"@);
        assert("text"@ != "messageId"@);
        assert("conversationId"@ != "messageId"@);
        assert(es.drop_first()[0].0 == "conversationId"@);
        assert(crate::json::lookup(es, "conversationId"@) == Some(str_or_null(conversation_id)));
        assert(es.drop_first().drop_first()[0].0 == "messageId"@);
        assert(crate::json::lookup(es, "messageId"@) == Some(str_or_null(message_id)));
    }
}

/// A string or `null`.
pub open spec fn str_or_null(s: Option<Seq<char>>) -> JsonV {
    match s {
        Some(t) => JsonV::Str(t),
        None => JsonV::Null,
    }
}

/// The data of a delta frame.
pub open spec fn delta_data(
    text: Seq<char>,
    conversation_id: Option<Seq<char>>,
    message_id: Option<Seq<char>>,
) -> JsonV {
    JsonV::Object(
        seq![
            ("text"@, JsonV::Str(text)),
            ("conversationId"@, str_or_null(conversation_id)),
            ("messageId"@, str_or_null(message_id)),
        ],
    )
}

/// Whether `r` is the frame, answering request `id`, that an outcome calls for.
pub open spec fn answers(r: Option<Response>, id: Seq<char>, o: SseOutcome) -> bool {
    match o {
        SseOutcome::Nothing => r is None,
        SseOutcome::Done => r matches Some(x) && x.is_done_for(id),
        SseOutcome::Failure(m) => r matches Some(x) && x.is_error_with(
            id,
            ERR_PROVIDER_ERROR@,
            m,
        ),
        SseOutcome::Delta { text, conversation_id, message_id } => r matches Some(x)
            && x.is_delta_with(id, delta_data(text, conversation_id, message_id)),
    }
}

/// The text that an outcome adds to the stream: a delta's text, else nothing.
pub open spec fn emitted_text(o: SseOutcome) -> Seq<char> {
    match o {
        SseOutcome::Delta { text, .. } => text,
        _ => Seq::empty(),
    }
}

/// Whether an event carries assistant text and no error.
pub open spec fn is_text_event(c: ChunkV) -> bool {
    c.error is None && assistant_text(c) is Some
}

/// The remembered text after a run of events, and the text their frames
/// carry, in order.
pub open spec fn run_chunks(last: Seq<char>, cs: Seq<ChunkV>) -> (Seq<char>, Seq<char>)
    decreases cs.len(),
{
    if cs.len() == 0 {
        (last, Seq::empty())
    } else {
        let step = chunk_step(last, cs[0]);
        let rest = run_chunks(step.0, cs.drop_first());
        (rest.0, emitted_text(step.1) + rest.1)
    }
}

/// Whether each event's assistant text extends the one before it.
pub open spec fn texts_extend(last: Seq<char>, cs: Seq<ChunkV>) -> bool {
    &&& forall|i: int| 0 <= i < cs.len() ==> is_text_event(#[trigger] cs[i])
    &&& cs.len() > 0 ==> is_prefix(last, assistant_text(cs[0]).unwrap())
    &&& forall|i: int|
        0 <= i < cs.len() - 1 ==> is_prefix(
            assistant_text(#[trigger] cs[i]).unwrap(),
            assistant_text(cs[i + 1]).unwrap(),
        )
}

/// An event whose assistant text extends the remembered text yields exactly
/// the new part: the remembered text followed by the delta is the event's
/// full text, and the full text is remembered.
pub proof fn lemma_delta_extends(last: Seq<char>, c: ChunkV)
    requires
        is_text_event(c),
        is_prefix(last, assistant_text(c).unwrap()),
    ensures
        chunk_step(last, c).0 == assistant_text(c).unwrap(),
        last + emitted_text(chunk_step(last, c).1) == assistant_text(c).unwrap(),
{
    let full = assistant_text(c).unwrap();
    assert(last + full.skip(last.len() as int) =~= full);
    if full.skip(last.len() as int).len() == 0 {
        assert(last =~= full);
    }
}

/// Over a run of events whose texts each extend the one before, the text
/// remembered before the run followed by all the deltas is the last event's
/// full text, which is what the parser then remembers.
pub proof fn lemma_deltas_reassemble(last: Seq<char>, cs: Seq<ChunkV>)
    requires
        cs.len() > 0,
        texts_extend(last, cs),
    ensures
        run_chunks(last, cs).0 == assistant_text(cs.last()).unwrap(),
        last + run_chunks(last, cs).1 == assistant_text(cs.last()).unwrap(),
    decreases cs.len(),
{
    assert(is_text_event(cs[0]));
    lemma_delta_extends(last, cs[0]);
    let step = chunk_step(last, cs[0]);
    let rest = cs.drop_first();
    if rest.len() == 0 {
        assert(run_chunks(step.0, rest) == (step.0, Seq::<char>::empty()));
        assert(last + (emitted_text(step.1) + Seq::<char>::empty()) =~= last + emitted_text(
            step.1,
        ));
    } else {
        assert(is_text_event(cs[1]));
        assert(is_prefix(assistant_text(cs[0]).unwrap(), assistant_text(cs[1]).unwrap()));
        assert forall|i: int| 0 <= i < rest.len() implies is_text_event(#[trigger] rest[i]) by {
            assert(rest[i] == cs[i + 1]);
        }
        assert forall|i: int| 0 <= i < rest.len() - 1 implies is_prefix(
            assistant_text(#[trigger] rest[i]).unwrap(),
            assistant_text(rest[i + 1]).unwrap(),
        ) by {
            assert(rest[i] == cs[i + 1]);
            assert(rest[i + 1] == cs[i + 2]);
        }
        lemma_deltas_reassemble(step.0, rest);
        assert(rest.last() == cs.last());
        let r = run_chunks(step.0, rest);
        assert(last + (emitted_text(step.1) + r.1) =~= (last + emitted_text(step.1)) + r.1);
    }
}

/// A string or `null`.
fn json_str_or_null(s: &Option<String>) -> (j: Json)
    ensures
        j@ == str_or_null(opt_string_view(*s)),
{
    match s {
        Some(t) => Json::Str(t.clone()),
        None => Json::Null,
    }
}

/// The parser's state: the assistant text seen so far in the stream.
pub struct SseParser {
    last_text: String,
}

impl View for SseParser {
    type V = Seq<char>;

    /// The full assistant text of the latest event that carried one.
    closed spec fn view(&self) -> Seq<char> {
        self.last_text@
    }
}

impl SseParser {
    /// A parser that has seen no text.
    pub fn new() -> (p: SseParser)
        ensures
            p@ == Seq::<char>::empty(),
    {
        SseParser { last_text: String::new() }
    }

    /// The full assistant text remembered.
    pub fn text(&self) -> (t: String)
        ensures
            t@ == self@,
    {
        self.last_text.clone()
    }

    /// Handles one line of the stream: `data: [DONE]` ends the stream; a
    /// `data:` line whose payload decodes to an event is handled as that
    /// event; every other line yields no frame and leaves the state as it was.
    /// The payload is read as a JSON value before it is decoded, so of a key
    /// that an object repeats only the last value is seen.
    pub fn parse_line(&mut self, req_id: &str, line: &str) -> (r: Option<Response>)
        ensures
            final(self)@ == sse_step(old(self)@, line@).0,
            answers(r, req_id@, sse_step(old(self)@, line@).1),
    {
        let cs = chars_of(line);
        let (a, b) = trim_range(&cs, 0, cs.len());
        proof {
            assert(cs@.subrange(0, cs@.len() as int) =~= line@);
            reveal_strlit("data: ");
            reveal_strlit("[DONE]");
        }
        let prefix = chars_of("data: ");
        if !has_prefix_at(&cs, a, b, &prefix) {
            return None;
        }
        assert(cs@.subrange(a as int, b as int).skip(6) =~= cs@.subrange(a + 6, b as int));
        let (c, d) = trim_range(&cs, a + 6, b);
        let done = chars_of("[DONE]");
        if range_equals(&cs, c, d, &done) {
            return Some(Response::done(req_id));
        }
        let payload = string_from_chars(&cs, c, d);
        let j = match parse_json(payload.as_str()) {
            Ok(j) => j,
            Err(_) => return None,
        };
        let chunk = match ChatGPTStreamChunk::from_json(&j) {
            Some(ch) => ch,
            None => return None,
        };
        self.apply_chunk(req_id, &chunk)
    }

    /// Handles one decoded event.
    pub fn apply_chunk(&mut self, req_id: &str, chunk: &ChatGPTStreamChunk) -> (r: Option<
        Response,
    >)
        ensures
            final(self)@ == chunk_step(old(self)@, chunk@).0,
            answers(r, req_id@, chunk_step(old(self)@, chunk@).1),
    {
        if let Some(err) = &chunk.error {
            let msg = match err.get("message") {
                Some(m) => match m.as_str() {
                    Some(t) => t,
                    None => "ChatGPT streaming error",
                },
                None => "ChatGPT streaming error",
            };
            return Some(Response::error(req_id, ERR_PROVIDER_ERROR, msg));
        }
        let msg = match &chunk.message {
            Some(m) => m,
            None => return None,
        };
        let is_assistant = match &msg.author {
            Some(a) => match &a.role {
                Some(role) => role_is_assistant(role.as_str()),
                None => false,
            },
            None => false,
        };
        if !is_assistant {
            return None;
        }
        let parts = match &msg.content {
            Some(c) => match &c.parts {
                Some(ps) => ps,
                None => return None,
            },
            None => return None,
        };
        let full = concat_parts(parts);
        let full_cs = chars_of(full.as_str());
        let last_cs = chars_of(self.last_text.as_str());
        let n = full_cs.len();
        proof {
            assert(full_cs@.subrange(0, n as int) =~= full_cs@);
        }
        if has_prefix_at(&full_cs, 0, n, &last_cs) {
            let delta = string_from_chars(&full_cs, last_cs.len(), n);
            assert(delta@ =~= full@.skip(last_cs@.len() as int));
            self.last_text = full;
            if delta.unicode_len() != 0 {
                let data = make_delta_data(delta, &chunk.conversation_id, &msg.id);
                return Some(Response::delta(req_id, data));
            }
            None
        } else {
            let text = full.clone();
            self.last_text = full;
            let data = make_delta_data(text, &chunk.conversation_id, &msg.id);
            Some(Response::delta(req_id, data))
        }
    }
}

/// Whether a role is the assistant's.
fn role_is_assistant(role: &str) -> (b: bool)
    ensures
        b == (role@ == "assistant"@),
{
    let cs = chars_of(role);
    let a = chars_of("assistant");
    chars_equal(&cs, &a)
}

/// The concatenation of the string parts.
fn concat_parts(parts: &Vec<Json>) -> (s: String)
    ensures
        s@ == parts_text(values_view(parts@)),
{
    let ghost vv = values_view(parts@);
    let mut s = String::new();
    let mut i: usize = 0;
    assert(vv.take(0) =~= Seq::<JsonV>::empty());
    while i < parts.len()
        invariant
            i <= parts@.len(),
            vv == values_view(parts@),
            s@ == parts_text(vv.take(i as int)),
        decreases parts@.len() - i,
    {
        assert(vv.take(i + 1).drop_last() =~= vv.take(i as int));
        assert(vv.take(i + 1).last() == parts@[i as int]@);
        match parts[i].as_str() {
            Some(t) => {
                s.append(t);
            },
            None => {},
        }
        i = i + 1;
    }
    assert(vv.take(parts@.len() as int) =~= vv);
    s
}

/// The data of a delta frame.
fn make_delta_data(text: String, conversation_id: &Option<String>, message_id: &Option<String>) -> (j: Json)
    ensures
        j@ == delta_data(text@, opt_string_view(*conversation_id), opt_string_view(*message_id)),
{
    let ghost t = text@;
    let mut es: Vec<(String, Json)> = Vec::new();
    es.push(("text".to_owned(), Json::Str(text)));
    es.push(("conversationId".to_owned(), json_str_or_null(conversation_id)));
    es.push(("messageId".to_owned(), json_str_or_null(message_id)));
    proof {
        crate::json::lemma_object_view(es);
        assert(crate::json::entries_view(es@) =~= delta_data(
            t,
            opt_string_view(*conversation_id),
            opt_string_view(*message_id),
        )->Object_0);
    }
    Json::Object(es)
}

} // verus!
