//! Where the service's SQLite database lives, and which failures of its
//! schema set-up are expected.
use vstd::prelude::*;
use vstd::string::*;

use crate::config::home_or_current;
use crate::paths::{path_joined, parent_of, path_join, path_parent};
use crate::text::{contains_spec, str_contains};

verus! {

/// The database file: `<home>/.agenthub/agenthub.db`, home being `.` when
/// unknown.
pub fn default_db_path(home: Option<&str>) -> (res: String)
    ensures
        res@ == path_joined(
            home_or_current(match home { Some(h) => Some(h@), None => None }),
            ".agenthub/agenthub.db"@,
        ),
{
    let base = match home {
        Some(h) => h,
        None => ".",
    };
    path_join(base, ".agenthub/agenthub.db")
}

/// The directory that must exist before a file can be created at a path:
/// the path's parent, unless it has none or it is empty (a bare file name
/// lives in the working directory).
pub open spec fn dir_to_create_spec(path: Seq<char>) -> Option<Seq<char>> {
    match path_parent(path) {
        Some(p) => if p.len() > 0 { Some(p) } else { None },
        None => None,
    }
}

/// The directory to create before a database file is opened at `path`.
pub fn parent_dir_to_create(path: &str) -> (res: Option<String>)
    ensures
        res.deep_view() == dir_to_create_spec(path@),
{
    match parent_of(path) {
        Some(p) => {
            if p.as_str().unicode_len() > 0 {
                Some(p)
            } else {
                None
            }
        },
        None => None,
    }
}

/// Whether adding a column failed only because an earlier start already
/// added it; any other failure is reported.
pub fn is_duplicate_column_error(message: &str) -> (res: bool)
    ensures
        res == contains_spec(message@, "duplicate column name"@),
{
    str_contains(message, "duplicate column name")
}

/// The directory created before the database is opened is the path's
/// parent, exactly when that parent exists and is not empty.
pub proof fn law_dir_to_create(path: Seq<char>)
    ensures
        forall|d: Seq<char>| dir_to_create_spec(path) == Some(d) <==> (path_parent(path) == Some(d) && d.len() > 0),
        dir_to_create_spec(path) is None <==> (path_parent(path) is None || path_parent(path)->0.len() == 0),
{
}

} // verus!
