//! Where the database lives and how it is opened.

use vstd::prelude::*;
use vstd::string::StringExecFns;
use crate::db::driver::{failure_of, open_database};
use crate::db::error::StoreError;
use crate::db::schema::init_schema;

verus! {

/// The directory under the home directory that holds configuration, where
/// the platform has no directory of its own for it.
pub const CONFIG_DIRECTORY: &'static str = ".config";

/// The directory of this application under the configuration directory.
pub const APP_DIRECTORY: &'static str = "tauri-react-videoplayer";

/// The name of the database file.
pub const DATABASE_FILE: &'static str = "videos.db";

/// The path of the database file, component by component: the base
/// directory, on other systems than Windows the configuration directory
/// under it, the application's directory and the file.
pub open spec fn db_path(base: Seq<char>, windows: bool) -> Seq<Seq<char>> {
    if windows {
        seq![base, APP_DIRECTORY@, DATABASE_FILE@]
    } else {
        seq![base, CONFIG_DIRECTORY@, APP_DIRECTORY@, DATABASE_FILE@]
    }
}

/// The texts of a list of strings.
pub open spec fn texts_of(parts: Seq<String>) -> Seq<Seq<char>> {
    parts.map_values(|part: String| part@)
}

/// The components of the path of the database file. `base` is the
/// platform's base directory: the application data directory on Windows,
/// the home directory elsewhere. All components but the last name the
/// directory that has to exist before the database is opened.
pub fn get_db_path(base: &str, windows: bool) -> (parts: Vec<String>)
    ensures
        texts_of(parts@) == db_path(base@, windows),
{
    let mut parts: Vec<String> = Vec::new();
    parts.push(String::from_str(base));
    if !windows {
        parts.push(String::from_str(CONFIG_DIRECTORY));
    }
    parts.push(String::from_str(APP_DIRECTORY));
    parts.push(String::from_str(DATABASE_FILE));
    assert(texts_of(parts@) =~= db_path(base@, windows));
    parts
}

/// Opens the database file at `path`, creating it if it is missing, and
/// makes sure that the schema is there. Any failure leaves the store
/// unavailable.
pub fn init_db(path: &str) -> (result: Result<rusqlite::Connection, StoreError>)
    ensures
        result matches Err(error) ==> error@ is StoreUnavailable,
{
    match open_database(path) {
        Err(error) => Err(StoreError::from_startup(failure_of(&error))),
        Ok(conn) => match init_schema(&conn) {
            Ok(()) => Ok(conn),
            Err(error) => Err(error),
        },
    }
}

} // verus!
