//! Protocol v1 messages: requests, the four kinds of response frame, and
//! the error codes.

use vstd::prelude::*;

use crate::json::{Json, JsonV};

verus! {

pub const PROTOCOL_VERSION: u32 = 1;

pub const ERR_AUTH_REQUIRED: &'static str = "AUTH_REQUIRED";
pub const ERR_AUTH_EXPIRED: &'static str = "AUTH_EXPIRED";
pub const ERR_AUTH_FAILED: &'static str = "AUTH_FAILED";
pub const ERR_PROVIDER_UNAVAILABLE: &'static str = "PROVIDER_UNAVAILABLE";
pub const ERR_PROVIDER_ERROR: &'static str = "PROVIDER_ERROR";
pub const ERR_INVALID_REQUEST: &'static str = "INVALID_REQUEST";
pub const ERR_INVALID_SESSION: &'static str = "INVALID_SESSION";
pub const ERR_INVALID_FILE: &'static str = "INVALID_FILE";
pub const ERR_UPLOAD_FAILED: &'static str = "UPLOAD_FAILED";
pub const ERR_DOWNLOAD_FAILED: &'static str = "DOWNLOAD_FAILED";
pub const ERR_STREAM_ERROR: &'static str = "STREAM_ERROR";
pub const ERR_TIMEOUT: &'static str = "TIMEOUT";
pub const ERR_PERMISSION_DENIED: &'static str = "PERMISSION_DENIED";
pub const ERR_NOT_FOUND: &'static str = "NOT_FOUND";

/// The application that sends a request.
#[derive(Debug, PartialEq)]
pub struct ClientInfo {
    pub id: String,
    pub name: String,
    pub version: String,
}

/// A request frame.
#[derive(Debug, PartialEq)]
pub struct Request {
    pub version: u32,
    pub id: String,
    pub method: String,
    pub params: Json,
    pub client: Option<ClientInfo>,
}

/// The error carried by an error frame.
#[derive(Debug, PartialEq)]
pub struct ProtocolError {
    pub code: String,
    pub message: String,
    pub details: Option<Json>,
}

/// A response frame.
#[derive(Debug, PartialEq)]
pub enum Response {
    Result { version: u32, id: String, result: Json },
    Delta { version: u32, id: String, data: Json },
    Done { version: u32, id: String },
    Error { version: u32, id: String, error: ProtocolError },
}

impl Request {
    /// A current-version request with no client information.
    pub fn new(id: &str, method: &str, params: Json) -> (r: Request)
        ensures
            r.version == PROTOCOL_VERSION,
            r.id@ == id@,
            r.method@ == method@,
            r.params@ == params@,
            r.client is None,
    {
        Request {
            version: PROTOCOL_VERSION,
            id: id.to_owned(),
            method: method.to_owned(),
            params,
            client: None,
        }
    }
}

impl ProtocolError {
    /// An error with no details.
    pub fn new(code: &str, message: &str) -> (e: ProtocolError)
        ensures
            e.code@ == code@,
            e.message@ == message@,
            e.details is None,
    {
        ProtocolError { code: code.to_owned(), message: message.to_owned(), details: None }
    }

    /// The same error, carrying `details`.
    pub fn with_details(self, details: Json) -> (e: ProtocolError)
        ensures
            e.code == self.code,
            e.message == self.message,
            e.details matches Some(d) && d@ == details@,
    {
        let mut e = self;
        e.details = Some(details);
        e
    }
}

impl Response {
    /// The request id that a frame answers.
    pub open spec fn spec_id(self) -> Seq<char> {
        match self {
            Response::Result { id, .. } => id@,
            Response::Delta { id, .. } => id@,
            Response::Done { id, .. } => id@,
            Response::Error { id, .. } => id@,
        }
    }

    /// The protocol version a frame carries.
    pub open spec fn spec_version(self) -> u32 {
        match self {
            Response::Result { version, .. } => version,
            Response::Delta { version, .. } => version,
            Response::Done { version, .. } => version,
            Response::Error { version, .. } => version,
        }
    }

    /// Whether this is an error frame with the given code and message.
    pub open spec fn is_error_with(self, id: Seq<char>, code: Seq<char>, message: Seq<char>) -> bool {
        &&& self is Error
        &&& self.spec_version() == PROTOCOL_VERSION
        &&& self.spec_id() == id
        &&& self->Error_error.code@ == code
        &&& self->Error_error.message@ == message
        &&& self->Error_error.details is None
    }

    /// Whether this is a result frame carrying `result`.
    pub open spec fn is_result_with(self, id: Seq<char>, result: JsonV) -> bool {
        &&& self is Result
        &&& self.spec_version() == PROTOCOL_VERSION
        &&& self.spec_id() == id
        &&& self->Result_result@ == result
    }

    /// Whether this is a delta frame carrying `data`.
    pub open spec fn is_delta_with(self, id: Seq<char>, data: JsonV) -> bool {
        &&& self is Delta
        &&& self.spec_version() == PROTOCOL_VERSION
        &&& self.spec_id() == id
        &&& self->Delta_data@ == data
    }

    /// Whether this is the done frame of a stream.
    pub open spec fn is_done_for(self, id: Seq<char>) -> bool {
        &&& self is Done
        &&& self.spec_version() == PROTOCOL_VERSION
        &&& self.spec_id() == id
    }

    /// A result frame.
    pub fn result(id: &str, result: Json) -> (r: Response)
        ensures
            r.is_result_with(id@, result@),
    {
        Response::Result { version: PROTOCOL_VERSION, id: id.to_owned(), result }
    }

    /// A streaming delta frame.
    pub fn delta(id: &str, data: Json) -> (r: Response)
        ensures
            r.is_delta_with(id@, data@),
    {
        Response::Delta { version: PROTOCOL_VERSION, id: id.to_owned(), data }
    }

    /// The frame that ends a stream.
    pub fn done(id: &str) -> (r: Response)
        ensures
            r.is_done_for(id@),
    {
        Response::Done { version: PROTOCOL_VERSION, id: id.to_owned() }
    }

    /// An error frame.
    pub fn error(id: &str, code: &str, message: &str) -> (r: Response)
        ensures
            r.is_error_with(id@, code@, message@),
    {
        Response::Error {
            version: PROTOCOL_VERSION,
            id: id.to_owned(),
            error: ProtocolError::new(code, message),
        }
    }

    /// The request id that this frame answers.
    pub fn id(&self) -> (r: &str)
        ensures
            r@ == self.spec_id(),
    {
        match self {
            Response::Result { id, .. } => id.as_str(),
            Response::Delta { id, .. } => id.as_str(),
            Response::Done { id, .. } => id.as_str(),
            Response::Error { id, .. } => id.as_str(),
        }
    }
}

} // verus!
