//! File uploads: the check that refuses paths climbing out of their
//! directory, the uploaded file's name, and the decisions of the upload
//! exchange (create the file, put the bytes in blob storage, confirm).

use vstd::prelude::*;

use crate::client::{bearer, is_success, is_success_status};
use crate::json::{Json, JsonV};
use crate::text::{chars_of, decimal, has_prefix_at, is_prefix, push_decimal, push_str, string_from_chars};

verus! {

/// Why an upload failed.
#[derive(Debug)]
pub enum FileError {
    InvalidPath(String),
    Io(std::io::Error),
    Network(String),
    /// The file holds `size` bytes, more than the `limit` allowed.
    TooLarge { size: u64, limit: u64 },
}

impl FileError {
    /// The human-readable message of the error, for the variants whose
    /// message the library composes.
    pub fn message(&self) -> (s: Option<String>)
        ensures
            match self {
                FileError::InvalidPath(p) => s matches Some(t) && t@
                    == "Invalid path or path traversal detected: "@ + p@,
                FileError::Network(m) => s matches Some(t) && t@ == "Network error: "@ + m@,
                FileError::TooLarge { size, limit } => s matches Some(t) && t@ == "File too large: "@
                    + decimal(*size as nat) + " bytes exceeds the limit of "@ + decimal(
                    *limit as nat,
                ) + " bytes"@,
                FileError::Io(_) => s is None,
            },
    {
        match self {
            FileError::InvalidPath(p) => {
                let mut s = "Invalid path or path traversal detected: ".to_owned();
                push_str(&mut s, p.as_str());
                Some(s)
            },
            FileError::Network(m) => {
                let mut s = "Network error: ".to_owned();
                push_str(&mut s, m.as_str());
                Some(s)
            },
            FileError::TooLarge { size, limit } => {
                let mut s = "File too large: ".to_owned();
                push_decimal(&mut s, *size);
                push_str(&mut s, " bytes exceeds the limit of ");
                push_decimal(&mut s, *limit);
                push_str(&mut s, " bytes");
                Some(s)
            },
            FileError::Io(_) => None,
        }
    }
}

/// The request that creates a file.
#[derive(Debug, PartialEq)]
pub struct CreateFileRequest {
    pub file_name: String,
    pub file_size: u64,
    pub use_case: String,
}

/// The answer to the file-creation request.
#[derive(Debug, PartialEq)]
pub struct CreateFileResponse {
    pub file_id: String,
    pub upload_url: Option<String>,
}

/// The file client.
pub struct ChatGPTFileClient;

/// Whether some component of a path is `..`: a `..` between separators or
/// the path's ends.
pub open spec fn has_parent_component(p: Seq<char>) -> bool {
    exists|i: int|
        0 <= i && i + 2 <= p.len() && #[trigger] p[i] == '.' && p[i + 1] == '.' && (i == 0 || p[i
            - 1] == '/') && (i + 2 == p.len() || p[i + 2] == '/')
}

/// Whether `p[i..]` starts a `..` component.
fn parent_component_at(p: &[char], i: usize) -> (b: bool)
    requires
        i < p@.len(),
    ensures
        b == (i + 2 <= p@.len() && p@[i as int] == '.' && p@[i + 1] == '.' && (i == 0 || p@[i
            - 1] == '/') && (i + 2 == p@.len() || p@[i + 2] == '/')),
{
    i < p.len() - 1 && p[i] == '.' && p[i + 1] == '.' && (i == 0 || p[i - 1] == '/') && (p.len()
        - i == 2 || p[i + 2] == '/')
}

impl ChatGPTFileClient {
    /// Accepts a path unless one of its components is `..`.
    pub fn validate_file_path(path_str: &str) -> (r: Result<String, FileError>)
        ensures
            !has_parent_component(path_str@) ==> (r matches Ok(p) && p@ == path_str@),
            has_parent_component(path_str@) ==> (r matches Err(FileError::InvalidPath(m)) && m@
                == "Path traversal rejected: "@ + path_str@),
    {
        let cs = chars_of(path_str);
        let mut i: usize = 0;
        while i < cs.len()
            invariant
                i <= cs@.len(),
                cs@ == path_str@,
                forall|k: int|
                    0 <= k < i ==> !(k + 2 <= cs@.len() && #[trigger] cs@[k] == '.' && cs@[k + 1]
                        == '.' && (k == 0 || cs@[k - 1] == '/') && (k + 2 == cs@.len() || cs@[k
                        + 2] == '/')),
            decreases cs@.len() - i,
        {
            if parent_component_at(&cs, i) {
                let mut m = "Path traversal rejected: ".to_owned();
                push_str(&mut m, path_str);
                return Err(FileError::InvalidPath(m));
            }
            i = i + 1;
        }
        Ok(path_str.to_owned())
    }
}

/// Whether the segment `p[a..b]` between separators names a file or
/// directory: it is neither empty nor `.`.
pub open spec fn is_named(p: Seq<char>, a: int, b: int) -> bool {
    a < b && !(b == a + 1 && p[a] == '.')
}

/// The segment of `p` that ends at `end`: from just after the last
/// separator before `end`.
pub open spec fn segment_start(p: Seq<char>, end: int) -> int
    decreases end,
{
    if end <= 0 {
        0
    } else if p[end - 1] == '/' {
        end
    } else {
        segment_start(p, end - 1)
    }
}

/// The last named segment of `p` among those ending at or before `end`
/// (each segment ends at a separator or at the end of `p`).
pub open spec fn last_named(p: Seq<char>, end: int) -> Option<Seq<char>>
    decreases end,
{
    if end < 0 {
        None
    } else {
        let a = segment_start(p, end);
        if is_named(p, a, end) {
            Some(p.subrange(a, end))
        } else if a == 0 || a > end {
            None
        } else {
            last_named(p, a - 1)
        }
    }
}

/// The name of a path's final file, as `Path::file_name` gives it for a
/// path with no `..` component: its last segment that is neither empty nor
/// `.`, if any.
pub open spec fn file_name_of(p: Seq<char>) -> Option<Seq<char>> {
    last_named(p, p.len() as int)
}

proof fn lemma_segment_start(p: Seq<char>, end: int)
    requires
        0 <= end <= p.len(),
    ensures
        0 <= segment_start(p, end) <= end,
        segment_start(p, end) > 0 ==> p[segment_start(p, end) - 1] == '/',
        forall|k: int| segment_start(p, end) <= k < end ==> p[k] != '/',
    decreases end,
{
    if end > 0 && p[end - 1] != '/' {
        lemma_segment_start(p, end - 1);
    }
}

/// The start of the segment that ends at `end`.
fn find_segment_start(p: &[char], end: usize) -> (a: usize)
    requires
        end <= p@.len(),
    ensures
        a as int == segment_start(p@, end as int),
{
    let mut a = end;
    while a > 0 && p[a - 1] != '/'
        invariant
            a <= end <= p@.len(),
            segment_start(p@, a as int) == segment_start(p@, end as int),
        decreases a,
    {
        a = a - 1;
    }
    a
}

/// The name under which a file is uploaded: its file name, else
/// `uploaded_file`.
pub fn upload_file_name(path: &str) -> (n: String)
    ensures
        n@ == match file_name_of(path@) {
            Some(f) => f,
            None => "uploaded_file"@,
        },
{
    let cs = chars_of(path);
    let mut end: usize = cs.len();
    loop
        invariant
            end <= cs@.len(),
            cs@ == path@,
            last_named(cs@, end as int) == file_name_of(cs@),
        decreases end,
    {
        let a = find_segment_start(&cs, end);
        proof {
            lemma_segment_start(cs@, end as int);
        }
        let named = a < end && !(end == a + 1 && cs[a] == '.');
        if named {
            return string_from_chars(&cs, a, end);
        }
        if a == 0 {
            return "uploaded_file".to_owned();
        }
        end = a - 1;
    }
}

/// The use case under which files are created.
pub const UPLOAD_USE_CASE: &'static str = "multimodal";

/// The request that creates a file of `size` bytes named `file_name`.
pub fn create_file_request(file_name: &str, size: u64) -> (r: CreateFileRequest)
    ensures
        r.file_name@ == file_name@,
        r.file_size == size,
        r.use_case@ == UPLOAD_USE_CASE@,
{
    CreateFileRequest {
        file_name: file_name.to_owned(),
        file_size: size,
        use_case: UPLOAD_USE_CASE.to_owned(),
    }
}

/// The address that confirms an upload.
pub fn complete_upload_url(file_id: &str) -> (u: String)
    ensures
        u@ == "https://chatgpt.com/backend-api/files/"@ + file_id@ + "/uploaded"@,
{
    let mut u = "https://chatgpt.com/backend-api/files/".to_owned();
    push_str(&mut u, file_id);
    push_str(&mut u, "/uploaded");
    u
}


/// The largest file that is uploaded by default, in bytes (512 MiB).
pub const DEFAULT_MAX_UPLOAD_BYTES: u64 = 536870912;

/// Where files may be uploaded from, and how large they may be.
pub struct UploadLimits {
    /// The directories under which an uploaded file must lie.
    pub roots: Vec<String>,
    /// The largest size, in bytes, of an uploaded file.
    pub max_bytes: u64,
}

impl UploadLimits {
    /// The standard limits: files under the home directory or `/tmp`, of at
    /// most `DEFAULT_MAX_UPLOAD_BYTES` bytes.
    pub fn standard(home: &str) -> (l: UploadLimits)
        ensures
            l.roots@.len() == 2,
            l.roots@[0]@ == home@,
            l.roots@[1]@ == "/tmp"@,
            l.max_bytes == DEFAULT_MAX_UPLOAD_BYTES,
    {
        let mut roots: Vec<String> = Vec::new();
        roots.push(home.to_owned());
        roots.push("/tmp".to_owned());
        UploadLimits { roots, max_bytes: DEFAULT_MAX_UPLOAD_BYTES }
    }
}

/// Whether `path` is the directory `root` or lies under it: `root` is not
/// empty, starts `path`, and is followed in `path` by nothing or a
/// separator (or itself ends with one).
pub open spec fn within_root(path: Seq<char>, root: Seq<char>) -> bool {
    &&& root.len() > 0
    &&& is_prefix(root, path)
    &&& (path.len() == root.len() || root.last() == '/' || path[root.len() as int] == '/')
}

/// Whether `path` lies within one of the directories `roots`.
pub open spec fn within_roots(path: Seq<char>, roots: Seq<String>) -> bool {
    exists|i: int| 0 <= i < roots.len() && within_root(path, #[trigger] roots[i]@)
}

/// Whether the path, as characters, lies within `root`.
fn path_within_root(path: &Vec<char>, root: &str) -> (b: bool)
    ensures
        b == within_root(path@, root@),
{
    let rs = chars_of(root);
    let n = rs.len();
    if n == 0 {
        return false;
    }
    proof {
        assert(path@.subrange(0, path@.len() as int) =~= path@);
    }
    if !has_prefix_at(path, 0, path.len(), &rs) {
        return false;
    }
    path.len() == n || rs[n - 1] == '/' || path[n] == '/'
}

/// Whether `path` lies within one of the directories `roots`.
pub fn path_within_roots(path: &str, roots: &Vec<String>) -> (b: bool)
    ensures
        b == within_roots(path@, roots@),
{
    let cs = chars_of(path);
    let mut i: usize = 0;
    while i < roots.len()
        invariant
            i <= roots@.len(),
            cs@ == path@,
            forall|k: int| 0 <= k < i ==> !within_root(path@, #[trigger] roots@[k]@),
        decreases roots@.len() - i,
    {
        if path_within_root(&cs, roots[i].as_str()) {
            return true;
        }
        i = i + 1;
    }
    false
}

/// A download to fetch: the address and its query parameters, in order.
#[derive(Debug)]
pub struct DownloadRequest {
    pub url: String,
    pub query: Vec<(String, String)>,
}

/// The query parameters of a download, as text.
pub open spec fn query_view(q: Seq<(String, String)>) -> Seq<(Seq<char>, Seq<char>)> {
    Seq::new(q.len(), |i: int| (q[i].0@, q[i].1@))
}

/// The download that a `file.download` or `image.download` request asks
/// for, or why it cannot be made. A sandbox file (`file.download`) is
/// fetched through the conversation's interpreter with its message id and
/// sandbox path; an image (`image.download`) through its asset pointer, a
/// `sediment://` pointer (with the conversation id, when given) or a
/// `file-service://` one.
pub open spec fn download_plan(image: bool, params: JsonV) -> Result<
    (Seq<char>, Seq<(Seq<char>, Seq<char>)>),
    Seq<char>,
> {
    if !image {
        match (
            params.get_str("conversationId"@),
            params.get_str("messageId"@),
            params.get_str("sandboxPath"@),
        ) {
            (Some(c), Some(m), Some(p)) => Ok(
                (
                    "https://chatgpt.com/backend-api/conversation/"@ + c + "/interpreter/download"@,
                    seq![("message_id"@, m), ("sandbox_path"@, p)],
                ),
            ),
            _ => Err("file.download requires conversationId, messageId and sandboxPath"@),
        }
    } else {
        match params.get_str("assetPointer"@) {
            None => Err("image.download requires assetPointer"@),
            Some(a) => if is_prefix("sediment://"@, a) {
                Ok(
                    (
                        "https://chatgpt.com/backend-api/files/download/"@ + a.skip(11),
                        match params.get_str("conversationId"@) {
                            Some(c) => seq![("conversation_id"@, c)],
                            None => Seq::empty(),
                        },
                    ),
                )
            } else if is_prefix("file-service://"@, a) {
                Ok(
                    (
                        "https://chatgpt.com/backend-api/files/"@ + a.skip(15) + "/download"@,
                        Seq::empty(),
                    ),
                )
            } else {
                Err("Unsupported asset pointer: "@ + a)
            },
        }
    }
}

/// The text after a prefix of `n` characters.
fn after_prefix(s: &str, n: usize) -> (r: String)
    requires
        n <= s@.len(),
    ensures
        r@ == s@.skip(n as int),
{
    let cs = chars_of(s);
    let r = string_from_chars(&cs, n, cs.len());
    assert(cs@.subrange(n as int, cs@.len() as int) =~= s@.skip(n as int));
    r
}

/// Whether `s` starts with `p`.
fn starts_with(s: &str, p: &str) -> (b: bool)
    ensures
        b == is_prefix(p@, s@),
{
    let cs = chars_of(s);
    let ps = chars_of(p);
    assert(cs@.subrange(0, cs@.len() as int) =~= cs@);
    has_prefix_at(&cs, 0, cs.len(), &ps)
}

impl ChatGPTFileClient {
    /// The download that a request asks for: `image` tells an
    /// `image.download` from a `file.download`.
    pub fn download_sandbox_file(image: bool, params: &Json) -> (r: Result<DownloadRequest, String>)
        ensures
            match (r, download_plan(image, params@)) {
                (Ok(d), Ok((u, q))) => d.url@ == u && query_view(d.query@) == q,
                (Err(e), Err(m)) => e@ == m,
                _ => false,
            },
    {
        proof {
            reveal_strlit("sediment://");
            reveal_strlit("file-service://");
        }
        if !image {
            let c = params.get_string("conversationId");
            let m = params.get_string("messageId");
            let p = params.get_string("sandboxPath");
            match (c, m, p) {
                (Some(c), Some(m), Some(p)) => {
                    let mut url = "https://chatgpt.com/backend-api/conversation/".to_owned();
                    push_str(&mut url, c.as_str());
                    push_str(&mut url, "/interpreter/download");
                    let mut query: Vec<(String, String)> = Vec::new();
                    query.push(("message_id".to_owned(), m));
                    query.push(("sandbox_path".to_owned(), p));
                    proof {
                        assert(query_view(query@) =~= download_plan(image, params@)->Ok_0.1);
                    }
                    Ok(DownloadRequest { url, query })
                },
                _ => Err(
                    "file.download requires conversationId, messageId and sandboxPath".to_owned(),
                ),
            }
        } else {
            let a = match params.get_string("assetPointer") {
                Some(a) => a,
                None => return Err("image.download requires assetPointer".to_owned()),
            };
            if starts_with(a.as_str(), "sediment://") {
                let mut url = "https://chatgpt.com/backend-api/files/download/".to_owned();
                let id = after_prefix(a.as_str(), 11);
                push_str(&mut url, id.as_str());
                let mut query: Vec<(String, String)> = Vec::new();
                match params.get_string("conversationId") {
                    Some(c) => query.push(("conversation_id".to_owned(), c)),
                    None => {},
                }
                proof {
                    assert(query_view(query@) =~= download_plan(image, params@)->Ok_0.1);
                }
                Ok(DownloadRequest { url, query })
            } else if starts_with(a.as_str(), "file-service://") {
                let mut url = "https://chatgpt.com/backend-api/files/".to_owned();
                let id = after_prefix(a.as_str(), 15);
                push_str(&mut url, id.as_str());
                push_str(&mut url, "/download");
                let query: Vec<(String, String)> = Vec::new();
                proof {
                    assert(query_view(query@) =~= download_plan(image, params@)->Ok_0.1);
                }
                Ok(DownloadRequest { url, query })
            } else {
                let mut m = "Unsupported asset pointer: ".to_owned();
                push_str(&mut m, a.as_str());
                Err(m)
            }
        }
    }
}

/// The error for a download request answered with a failure status, if it
/// was.
pub fn download_status_error(status: u16, status_text: &str) -> (r: Option<String>)
    ensures
        is_success_status(status) ==> r is None,
        !is_success_status(status) ==> (r matches Some(m) && m@ == "Download endpoint returned HTTP "@
            + status_text@),
{
    if is_success(status) {
        None
    } else {
        let mut m = "Download endpoint returned HTTP ".to_owned();
        push_str(&mut m, status_text);
        Some(m)
    }
}

/// The address a download answer gives: its string `download_url`.
pub fn download_url_from(body: &Json) -> (r: Result<String, String>)
    ensures
        match body@.get_str("download_url"@) {
            Some(u) => r matches Ok(x) && x@ == u,
            None => r matches Err(m) && m@ == "Download answer carries no download_url"@,
        },
{
    match body.get_string("download_url") {
        Some(u) => Ok(u),
        None => Err("Download answer carries no download_url".to_owned()),
    }
}

/// Where an upload stands.
#[derive(Debug)]
pub enum UploadState {
    Start,
    AwaitSize,
    AwaitFile,
    AwaitCredentials { file_name: String, size: u64 },
    AwaitCreated { authorization: String },
    AwaitCreateBody { authorization: String },
    AwaitBlob { file_id: String, authorization: String },
    AwaitConfirm { file_id: String },
    Done,
}

/// The outcome of the last piece of upload work.
#[derive(Debug)]
pub enum UploadEvent {
    Begin,
    /// The file's size in bytes, as its metadata gives it.
    FileSize(Result<u64, std::io::Error>),
    /// The file was read; its size in bytes.
    FileRead(Result<u64, std::io::Error>),
    /// The access token of the stored session, if there is one with a token.
    Credentials(Option<String>),
    /// An HTTP request was answered with a status code and its text, or
    /// could not be made.
    Sent(Result<(u16, String), String>),
    /// The decoded answer to the file-creation request.
    CreateBody(Result<CreateFileResponse, String>),
    Confirmed,
}

/// The next piece of upload work.
#[derive(Debug)]
pub enum UploadAction {
    /// The upload is over with this outcome (the file id on success).
    Finish(Result<String, FileError>),
    /// Look up the file's size without reading it.
    StatFile { path: String },
    ReadFile { path: String },
    LoadCredentials,
    PostCreate { authorization: String, request: CreateFileRequest },
    ReadCreateBody,
    /// Put the file's bytes at this address.
    PutBlob { url: String },
    /// Confirm the upload; the answer is not waited on for the outcome.
    PostConfirm { url: String, authorization: String },
}

/// Whether `e` is an outcome of the work that state `s` waits for.
pub open spec fn upload_accepts(s: UploadState, e: UploadEvent) -> bool {
    match s {
        UploadState::Start => e is Begin,
        UploadState::AwaitSize => e is FileSize,
        UploadState::AwaitFile => e is FileRead,
        UploadState::AwaitCredentials { .. } => e is Credentials,
        UploadState::AwaitCreated { .. } => e is Sent,
        UploadState::AwaitCreateBody { .. } => e is CreateBody,
        UploadState::AwaitBlob { .. } => e is Sent,
        UploadState::AwaitConfirm { .. } => e is Confirmed,
        UploadState::Done => false,
    }
}

impl UploadState {
    /// Whether `e` is an outcome of the work this state waits for.
    pub fn accepts(&self, e: &UploadEvent) -> (b: bool)
        ensures
            b == upload_accepts(*self, *e),
    {
        match self {
            UploadState::Start => matches!(e, UploadEvent::Begin),
            UploadState::AwaitSize => matches!(e, UploadEvent::FileSize(_)),
            UploadState::AwaitFile => matches!(e, UploadEvent::FileRead(_)),
            UploadState::AwaitCredentials { .. } => matches!(e, UploadEvent::Credentials(_)),
            UploadState::AwaitCreated { .. } => matches!(e, UploadEvent::Sent(_)),
            UploadState::AwaitCreateBody { .. } => matches!(e, UploadEvent::CreateBody(_)),
            UploadState::AwaitBlob { .. } => matches!(e, UploadEvent::Sent(_)),
            UploadState::AwaitConfirm { .. } => matches!(e, UploadEvent::Confirmed),
            UploadState::Done => false,
        }
    }
}

/// Whether `a` ends the upload with a network error carrying `m`.
pub open spec fn fails_network(a: UploadAction, m: Seq<char>) -> bool {
    a matches UploadAction::Finish(Err(FileError::Network(x))) && x@ == m
}

/// Whether `a` ends the upload refusing a file of `size` bytes over `limit`.
pub open spec fn fails_too_large(a: UploadAction, size: u64, limit: u64) -> bool {
    a matches UploadAction::Finish(Err(FileError::TooLarge { size: z, limit: l })) && z == size
        && l == limit
}

/// The upload's step from state `s` on outcome `e`, to state `s2` and work
/// `a`, for the file at `path` under the limits `roots` and `max_bytes`.
pub open spec fn upload_step(
    path: Seq<char>,
    roots: Seq<String>,
    max_bytes: u64,
    s: UploadState,
    e: UploadEvent,
    s2: UploadState,
    a: UploadAction,
) -> bool {
    match s {
        UploadState::Start => if has_parent_component(path) {
            &&& s2 is Done
            &&& a matches UploadAction::Finish(Err(FileError::InvalidPath(m))) && m@
                == "Path traversal rejected: "@ + path
        } else if !within_roots(path, roots) {
            &&& s2 is Done
            &&& a matches UploadAction::Finish(Err(FileError::InvalidPath(m))) && m@
                == "Path outside allowed directories: "@ + path
        } else {
            &&& s2 is AwaitSize
            &&& a matches UploadAction::StatFile { path: p } && p@ == path
        },
        UploadState::AwaitSize => match e {
            UploadEvent::FileSize(Err(err)) => {
                &&& s2 is Done
                &&& a matches UploadAction::Finish(Err(FileError::Io(x))) && x == err
            },
            UploadEvent::FileSize(Ok(size)) => if size > max_bytes {
                s2 is Done && fails_too_large(a, size, max_bytes)
            } else {
                &&& s2 is AwaitFile
                &&& a matches UploadAction::ReadFile { path: p } && p@ == path
            },
            _ => false,
        },
        UploadState::AwaitFile => match e {
            UploadEvent::FileRead(Err(err)) => {
                &&& s2 is Done
                &&& a matches UploadAction::Finish(Err(FileError::Io(x))) && x == err
            },
            UploadEvent::FileRead(Ok(size)) => if size > max_bytes {
                s2 is Done && fails_too_large(a, size, max_bytes)
            } else {
                let name = match file_name_of(path) {
                    Some(f) => f,
                    None => "uploaded_file"@,
                };
                &&& s2 matches UploadState::AwaitCredentials { file_name, size: z } && file_name@
                    == name && z == size
                &&& a is LoadCredentials
            },
            _ => false,
        },
        UploadState::AwaitCredentials { file_name, size } => match e {
            UploadEvent::Credentials(None) => s2 is Done && fails_network(a, "AUTH_REQUIRED"@),
            UploadEvent::Credentials(Some(token)) => {
                &&& s2 matches UploadState::AwaitCreated { authorization } && authorization@
                    == "Bearer "@ + token@
                &&& a matches UploadAction::PostCreate { authorization, request }
                    && authorization@ == "Bearer "@ + token@ && request.file_name@ == file_name@
                    && request.file_size == size && request.use_case@ == UPLOAD_USE_CASE@
            },
            _ => false,
        },
        UploadState::AwaitCreated { authorization } => match e {
            UploadEvent::Sent(Err(m)) => s2 is Done && fails_network(a, m@),
            UploadEvent::Sent(Ok((code, text))) => if !is_success_status(code) {
                s2 is Done && fails_network(a, "File creation API returned HTTP "@ + text@)
            } else {
                &&& s2 matches UploadState::AwaitCreateBody { authorization: au } && au@
                    == authorization@
                &&& a is ReadCreateBody
            },
            _ => false,
        },
        UploadState::AwaitCreateBody { authorization } => match e {
            UploadEvent::CreateBody(Err(m)) => s2 is Done && fails_network(a, m@),
            UploadEvent::CreateBody(Ok(resp)) => match resp.upload_url {
                Some(u) => {
                    &&& s2 matches UploadState::AwaitBlob { file_id, authorization: au } && file_id@
                        == resp.file_id@ && au@ == authorization@
                    &&& a matches UploadAction::PutBlob { url } && url@ == u@
                },
                None => {
                    &&& s2 is Done
                    &&& a matches UploadAction::Finish(Ok(id)) && id@ == resp.file_id@
                },
            },
            _ => false,
        },
        UploadState::AwaitBlob { file_id, authorization } => match e {
            UploadEvent::Sent(Err(m)) => s2 is Done && fails_network(a, m@),
            UploadEvent::Sent(Ok((code, text))) => if !is_success_status(code) {
                s2 is Done && fails_network(a, "Azure Blob upload returned HTTP "@ + text@)
            } else {
                &&& s2 matches UploadState::AwaitConfirm { file_id: f } && f@ == file_id@
                &&& a matches UploadAction::PostConfirm { url, authorization: au } && url@
                    == "https://chatgpt.com/backend-api/files/"@ + file_id@ + "/uploaded"@ && au@
                    == authorization@
            },
            _ => false,
        },
        UploadState::AwaitConfirm { file_id } => {
            &&& s2 is Done
            &&& a matches UploadAction::Finish(Ok(id)) && id@ == file_id@
        },
        UploadState::Done => false,
    }
}

/// A network failure.
fn network_failure(prefix: &str, text: &str) -> (a: UploadAction)
    ensures
        fails_network(a, prefix@ + text@),
{
    let mut m = prefix.to_owned();
    push_str(&mut m, text);
    UploadAction::Finish(Err(FileError::Network(m)))
}

/// The upload's step: from where the upload of `path` under `limits`
/// stands and the outcome of the last piece of work, to where it stands
/// next and the next piece of work.
pub fn advance_upload(path: &str, limits: &UploadLimits, state: UploadState, event: UploadEvent) -> (r: (
    UploadState,
    UploadAction,
))
    requires
        upload_accepts(state, event),
    ensures
        upload_step(path@, limits.roots@, limits.max_bytes, state, event, r.0, r.1),
{
    match state {
        UploadState::Start => match ChatGPTFileClient::validate_file_path(path) {
            Err(e) => (UploadState::Done, UploadAction::Finish(Err(e))),
            Ok(p) => if !path_within_roots(path, &limits.roots) {
                let mut m = "Path outside allowed directories: ".to_owned();
                push_str(&mut m, path);
                (UploadState::Done, UploadAction::Finish(Err(FileError::InvalidPath(m))))
            } else {
                (UploadState::AwaitSize, UploadAction::StatFile { path: p })
            },
        },
        UploadState::AwaitSize => match event {
            UploadEvent::FileSize(Err(err)) => (
                UploadState::Done,
                UploadAction::Finish(Err(FileError::Io(err))),
            ),
            UploadEvent::FileSize(Ok(size)) => if size > limits.max_bytes {
                (
                    UploadState::Done,
                    UploadAction::Finish(
                        Err(FileError::TooLarge { size, limit: limits.max_bytes }),
                    ),
                )
            } else {
                (UploadState::AwaitFile, UploadAction::ReadFile { path: path.to_owned() })
            },
            _ => (UploadState::Done, UploadAction::LoadCredentials),
        },
        UploadState::AwaitFile => match event {
            UploadEvent::FileRead(Err(err)) => (
                UploadState::Done,
                UploadAction::Finish(Err(FileError::Io(err))),
            ),
            UploadEvent::FileRead(Ok(size)) => if size > limits.max_bytes {
                (
                    UploadState::Done,
                    UploadAction::Finish(
                        Err(FileError::TooLarge { size, limit: limits.max_bytes }),
                    ),
                )
            } else {
                let file_name = upload_file_name(path);
                (UploadState::AwaitCredentials { file_name, size }, UploadAction::LoadCredentials)
            },
            _ => (UploadState::Done, UploadAction::LoadCredentials),
        },
        UploadState::AwaitCredentials { file_name, size } => match event {
            UploadEvent::Credentials(None) => (
                UploadState::Done,
                UploadAction::Finish(Err(FileError::Network("AUTH_REQUIRED".to_owned()))),
            ),
            UploadEvent::Credentials(Some(token)) => {
                let authorization = bearer(token.as_str());
                let request = create_file_request(file_name.as_str(), size);
                (
                    UploadState::AwaitCreated { authorization: authorization.clone() },
                    UploadAction::PostCreate { authorization, request },
                )
            },
            _ => (UploadState::Done, UploadAction::LoadCredentials),
        },
        UploadState::AwaitCreated { authorization } => match event {
            UploadEvent::Sent(Err(m)) => (
                UploadState::Done,
                UploadAction::Finish(Err(FileError::Network(m))),
            ),
            UploadEvent::Sent(Ok((code, text))) => if !is_success(code) {
                (
                    UploadState::Done,
                    network_failure("File creation API returned HTTP ", text.as_str()),
                )
            } else {
                (UploadState::AwaitCreateBody { authorization }, UploadAction::ReadCreateBody)
            },
            _ => (UploadState::Done, UploadAction::LoadCredentials),
        },
        UploadState::AwaitCreateBody { authorization } => match event {
            UploadEvent::CreateBody(Err(m)) => (
                UploadState::Done,
                UploadAction::Finish(Err(FileError::Network(m))),
            ),
            UploadEvent::CreateBody(Ok(resp)) => match resp.upload_url {
                Some(u) => (
                    UploadState::AwaitBlob { file_id: resp.file_id, authorization },
                    UploadAction::PutBlob { url: u },
                ),
                None => (UploadState::Done, UploadAction::Finish(Ok(resp.file_id))),
            },
            _ => (UploadState::Done, UploadAction::LoadCredentials),
        },
        UploadState::AwaitBlob { file_id, authorization } => match event {
            UploadEvent::Sent(Err(m)) => (
                UploadState::Done,
                UploadAction::Finish(Err(FileError::Network(m))),
            ),
            UploadEvent::Sent(Ok((code, text))) => if !is_success(code) {
                (
                    UploadState::Done,
                    network_failure("Azure Blob upload returned HTTP ", text.as_str()),
                )
            } else {
                let url = complete_upload_url(file_id.as_str());
                (UploadState::AwaitConfirm { file_id }, UploadAction::PostConfirm { url, authorization })
            },
            _ => (UploadState::Done, UploadAction::LoadCredentials),
        },
        UploadState::AwaitConfirm { file_id } => (
            UploadState::Done,
            UploadAction::Finish(Ok(file_id)),
        ),
        UploadState::Done => (UploadState::Done, UploadAction::LoadCredentials),
    }
}

/// How many more steps an upload can take from a state at most.
pub open spec fn upload_steps_left(s: UploadState) -> nat {
    match s {
        UploadState::Start => 8,
        UploadState::AwaitSize => 7,
        UploadState::AwaitFile => 6,
        UploadState::AwaitCredentials { .. } => 5,
        UploadState::AwaitCreated { .. } => 4,
        UploadState::AwaitCreateBody { .. } => 3,
        UploadState::AwaitBlob { .. } => 2,
        UploadState::AwaitConfirm { .. } => 1,
        UploadState::Done => 0,
    }
}

/// Each step brings the upload closer to its end, and the upload's outcome
/// is given exactly when it is over.
pub proof fn lemma_upload_progresses(
    path: Seq<char>,
    roots: Seq<String>,
    max_bytes: u64,
    s: UploadState,
    e: UploadEvent,
    s2: UploadState,
    a: UploadAction,
)
    requires
        upload_step(path, roots, max_bytes, s, e, s2, a),
    ensures
        upload_steps_left(s2) < upload_steps_left(s),
        (a is Finish) == (s2 is Done),
{
}

/// A path with a `..` component, or one outside every allowed directory, is
/// refused before anything is read or sent.
pub proof fn lemma_traversal_refused_first(
    path: Seq<char>,
    roots: Seq<String>,
    max_bytes: u64,
    e: UploadEvent,
    s2: UploadState,
    a: UploadAction,
)
    requires
        has_parent_component(path) || !within_roots(path, roots),
        upload_step(path, roots, max_bytes, UploadState::Start, e, s2, a),
    ensures
        s2 is Done,
        a matches UploadAction::Finish(Err(FileError::InvalidPath(_))),
{
}

/// A file larger than the limit, by its metadata or by what was read, is
/// refused before its bytes are sent anywhere: the upload ends there.
pub proof fn lemma_oversized_refused(
    path: Seq<char>,
    roots: Seq<String>,
    max_bytes: u64,
    s: UploadState,
    size: u64,
    e: UploadEvent,
    s2: UploadState,
    a: UploadAction,
)
    requires
        size > max_bytes,
        (s is AwaitSize && e == UploadEvent::FileSize(Ok(size))) || (s is AwaitFile && e
            == UploadEvent::FileRead(Ok(size))),
        upload_step(path, roots, max_bytes, s, e, s2, a),
    ensures
        s2 is Done,
        fails_too_large(a, size, max_bytes),
{
}

/// A path reaches the first read of the file only if it has no `..`
/// component and lies within an allowed directory.
pub proof fn lemma_stat_only_within_roots(
    path: Seq<char>,
    roots: Seq<String>,
    max_bytes: u64,
    e: UploadEvent,
    s2: UploadState,
    a: UploadAction,
)
    requires
        upload_step(path, roots, max_bytes, UploadState::Start, e, s2, a),
        !(a is Finish),
    ensures
        !has_parent_component(path),
        within_roots(path, roots),
        a matches UploadAction::StatFile { path: p } && p@ == path,
{
}

} // verus!
