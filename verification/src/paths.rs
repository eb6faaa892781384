//! Where the service keeps its files: path joining as `PathBuf::join` does
//! it on Unix, and the socket, data and session file locations computed
//! from the environment values that the caller read.

use vstd::prelude::*;

use crate::text::{push_str, string_push};

verus! {

/// `dir` joined with `name` as `PathBuf::join` does on Unix: an absolute
/// `name` replaces `dir`; otherwise a `/` separates them unless `dir` is
/// empty or already ends with one.
pub open spec fn join_path(dir: Seq<char>, name: Seq<char>) -> Seq<char> {
    if name.len() > 0 && name[0] == '/' {
        name
    } else if dir.len() == 0 || dir.last() == '/' {
        dir + name
    } else {
        dir + seq!['/'] + name
    }
}

/// Joins two paths.
pub fn path_join(dir: &str, name: &str) -> (p: String)
    ensures
        p@ == join_path(dir@, name@),
{
    let name_starts_root = name.unicode_len() > 0 && name.get_char(0) == '/';
    if name_starts_root {
        return name.to_owned();
    }
    let n = dir.unicode_len();
    let mut p = dir.to_owned();
    if n > 0 && dir.get_char(n - 1) != '/' {
        string_push(&mut p, '/');
    }
    push_str(&mut p, name);
    p
}

/// The socket's path: `aicore.sock` in the runtime directory when
/// `XDG_RUNTIME_DIR` is set, else in `.ai-core` under the home directory
/// (`/tmp` when `HOME` is unset).
pub open spec fn spec_socket_path(runtime_dir: Option<Seq<char>>, home: Option<Seq<char>>) -> Seq<char> {
    match runtime_dir {
        Some(r) => join_path(r, "aicore.sock"@),
        None => join_path(
            join_path(
                match home {
                    Some(h) => h,
                    None => "/tmp"@,
                },
                ".ai-core"@,
            ),
            "aicore.sock"@,
        ),
    }
}

/// The data directory used when the platform gives none: `.ai-core` under
/// the home directory (`/tmp` when `HOME` is unset).
pub open spec fn spec_fallback_data_dir(home: Option<Seq<char>>) -> Seq<char> {
    join_path(
        match home {
            Some(h) => h,
            None => "/tmp"@,
        },
        ".ai-core"@,
    )
}

/// Computes the socket's path from `XDG_RUNTIME_DIR` and `HOME`.
pub fn determine_socket_path(runtime_dir: Option<&str>, home: Option<&str>) -> (p: String)
    ensures
        p@ == spec_socket_path(
            match runtime_dir {
                Some(r) => Some(r@),
                None => None,
            },
            match home {
                Some(h) => Some(h@),
                None => None,
            },
        ),
{
    match runtime_dir {
        Some(r) => path_join(r, "aicore.sock"),
        None => {
            let dir = fallback_data_dir(home);
            path_join(dir.as_str(), "aicore.sock")
        },
    }
}

/// The data directory used when the platform gives none.
pub fn fallback_data_dir(home: Option<&str>) -> (p: String)
    ensures
        p@ == spec_fallback_data_dir(
            match home {
                Some(h) => Some(h@),
                None => None,
            },
        ),
{
    let h: &str = match home {
        Some(h) => h,
        None => "/tmp",
    };
    path_join(h, ".ai-core")
}

/// The encrypted session file in the data directory.
pub fn session_file(data_dir: &str) -> (p: String)
    ensures
        p@ == join_path(data_dir@, "session.enc.json"@),
{
    path_join(data_dir, "session.enc.json")
}

/// The key file in the data directory.
pub fn key_file(data_dir: &str) -> (p: String)
    ensures
        p@ == join_path(data_dir@, "key.bin"@),
{
    path_join(data_dir, "key.bin")
}

/// The database next to the socket: `aicore.db` in the socket's directory
/// (the current directory when the socket path has none).
pub open spec fn spec_db_path(socket_dir: Option<Seq<char>>) -> Seq<char> {
    join_path(
        match socket_dir {
            Some(d) => d,
            None => "."@,
        },
        "aicore.db"@,
    )
}

/// The database path from the socket's directory.
pub fn db_path(socket_dir: Option<&str>) -> (p: String)
    ensures
        p@ == spec_db_path(
            match socket_dir {
                Some(d) => Some(d@),
                None => None,
            },
        ),
{
    let d: &str = match socket_dir {
        Some(d) => d,
        None => ".",
    };
    path_join(d, "aicore.db")
}

} // verus!
