//! The records that the session database holds, and the handle that names
//! the database.

use vstd::prelude::*;

use crate::json::{lemma_object_view, entries_view, Json, JsonV};
use crate::schema::opt_string_view;

verus! {

/// A conversation session as the database stores it.
#[derive(Debug, PartialEq)]
pub struct SessionRecord {
    pub session_id: String,
    pub provider: String,
    pub conversation_id: Option<String>,
    pub parent_message_id: Option<String>,
    pub created_at: u64,
    pub updated_at: u64,
    pub metadata: Option<String>,
}

/// A string or `null`.
pub open spec fn opt_str_json(s: Option<Seq<char>>) -> JsonV {
    match s {
        Some(t) => JsonV::Str(t),
        None => JsonV::Null,
    }
}

/// A string or `null`.
pub fn json_opt_string(s: &Option<String>) -> (j: Json)
    ensures
        j@ == opt_str_json(opt_string_view(*s)),
{
    match s {
        Some(t) => Json::Str(t.clone()),
        None => Json::Null,
    }
}

/// The JSON form of a session record: its fields under their own names.
pub open spec fn record_json(r: SessionRecord) -> JsonV {
    JsonV::Object(
        seq![
            ("session_id"@, JsonV::Str(r.session_id@)),
            ("provider"@, JsonV::Str(r.provider@)),
            ("conversation_id"@, opt_str_json(opt_string_view(r.conversation_id))),
            ("parent_message_id"@, opt_str_json(opt_string_view(r.parent_message_id))),
            ("created_at"@, JsonV::Int(r.created_at as int)),
            ("updated_at"@, JsonV::Int(r.updated_at as int)),
            ("metadata"@, opt_str_json(opt_string_view(r.metadata))),
        ],
    )
}

impl SessionRecord {
    /// The JSON form of this record.
    pub fn to_json(&self) -> (j: Json)
        ensures
            j@ == record_json(*self),
    {
        let mut es: Vec<(String, Json)> = Vec::new();
        es.push(("session_id".to_owned(), Json::Str(self.session_id.clone())));
        es.push(("provider".to_owned(), Json::Str(self.provider.clone())));
        es.push(("conversation_id".to_owned(), json_opt_string(&self.conversation_id)));
        es.push(("parent_message_id".to_owned(), json_opt_string(&self.parent_message_id)));
        es.push(("created_at".to_owned(), Json::Int(self.created_at as i128)));
        es.push(("updated_at".to_owned(), Json::Int(self.updated_at as i128)));
        es.push(("metadata".to_owned(), json_opt_string(&self.metadata)));
        proof {
            lemma_object_view(es);
            assert(entries_view(es@) =~= record_json(*self)->Object_0);
        }
        Json::Object(es)
    }
}

/// The marker path of a database that lives in memory.
pub const MEMORY_DB: &'static str = ":memory:";

/// The handle of the session database: the path it is opened from.
pub struct Storage {
    db_path: String,
}

impl Storage {
    /// A handle on the database file at `db_path`.
    pub fn at_path(db_path: &str) -> (s: Storage)
        ensures
            s.path() == db_path@,
    {
        Storage { db_path: db_path.to_owned() }
    }

    /// A handle on a database that lives in memory.
    pub fn in_memory() -> (s: Storage)
        ensures
            s.path() == MEMORY_DB@,
    {
        Storage { db_path: MEMORY_DB.to_owned() }
    }

    /// The path the database is opened from.
    pub closed spec fn path(&self) -> Seq<char> {
        self.db_path@
    }

    /// The path the database is opened from.
    pub fn db_path(&self) -> (p: &str)
        ensures
            p@ == self.path(),
    {
        self.db_path.as_str()
    }

    /// Whether each connection opens a fresh in-memory database rather than
    /// the file.
    pub fn is_in_memory(&self) -> (b: bool)
        ensures
            b == (self.path() == MEMORY_DB@),
    {
        let mine = crate::text::chars_of(self.db_path.as_str());
        let mem = crate::text::chars_of(MEMORY_DB);
        crate::text::chars_equal(&mine, &mem)
    }
}

/// The permission manager of the core.
pub struct PermissionManager {
    _storage: std::sync::Arc<Storage>,
}

impl PermissionManager {
    pub fn new(storage: std::sync::Arc<Storage>) -> (m: PermissionManager)
        ensures
            m.storage() == storage,
    {
        PermissionManager { _storage: storage }
    }

    /// The database it consults.
    pub closed spec fn storage(&self) -> std::sync::Arc<Storage> {
        self._storage
    }
}

/// The session manager of the core.
pub struct SessionManager {
    _storage: std::sync::Arc<Storage>,
}

impl SessionManager {
    pub fn new(storage: std::sync::Arc<Storage>) -> (m: SessionManager)
        ensures
            m.storage() == storage,
    {
        SessionManager { _storage: storage }
    }

    /// The database it consults.
    pub closed spec fn storage(&self) -> std::sync::Arc<Storage> {
        self._storage
    }
}

} // verus!
