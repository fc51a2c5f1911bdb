//! The two relations and their indexes.

use vstd::prelude::*;
use vstd::string::StringExecFns;
use crate::db::answer::prepared;
use crate::db::error::StoreError;
use crate::db::exchange::perform_batch;

verus! {

pub const CREATE_SETTINGS_TABLE: &'static str = "
CREATE TABLE IF NOT EXISTS settings (
    key   TEXT PRIMARY KEY,
    value TEXT NOT NULL
);
";

pub const CREATE_VIDEOS_TABLE: &'static str = "
CREATE TABLE IF NOT EXISTS videos (
    id            INTEGER PRIMARY KEY AUTOINCREMENT,
    uuid          TEXT NOT NULL UNIQUE,
    path          TEXT NOT NULL UNIQUE,
    title         TEXT,
    duration      INTEGER,
    added_at      DATETIME DEFAULT (datetime('now')),
    last_watched  DATETIME,
    watch_count   INTEGER DEFAULT 0,
    rating        REAL,
    favorite      INTEGER DEFAULT 0
);

CREATE INDEX IF NOT EXISTS idx_path ON videos(path);
CREATE INDEX IF NOT EXISTS idx_title ON videos(title);
CREATE INDEX IF NOT EXISTS idx_rating ON videos(rating);
";

/// The text of the whole schema: the videos relation with its indexes, a
/// line break, the settings relation.
pub open spec fn schema_text() -> Seq<char> {
    CREATE_VIDEOS_TABLE@ + "\n"@ + CREATE_SETTINGS_TABLE@
}

/// The batch of statements that creates whatever part of the schema is
/// missing.
pub fn schema_sql() -> (sql: String)
    ensures
        sql@ == schema_text(),
{
    let mut sql = String::from_str(CREATE_VIDEOS_TABLE);
    sql.append("\n");
    sql.append(CREATE_SETTINGS_TABLE);
    sql
}

/// Creates the relations and indexes that are missing, and leaves alone what
/// is there. The only failure is that of the store, which is then
/// unavailable.
pub fn init_schema(conn: &rusqlite::Connection) -> (result: Result<(), StoreError>)
    ensures
        result matches Err(error) ==> error@ is StoreUnavailable,
{
    let sql = schema_sql();
    prepared(perform_batch(conn, sql.as_str()))
}

} // verus!
