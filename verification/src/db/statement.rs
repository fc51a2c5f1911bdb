//! The statements of the catalog: for each operation its SQL text and the
//! parameters it binds.

use vstd::prelude::*;
use vstd::string::StringExecFns;
use crate::db::value::{args_of, SqlArg, SqlParam};

verus! {

pub const SELECT_ALL_VIDEOS: &'static str =
    "SELECT id, uuid, path, title, duration, rating, watch_count, favorite FROM videos ORDER BY COALESCE(last_watched, added_at) DESC";

pub const SELECT_RECENT_VIDEOS: &'static str =
    "SELECT id, uuid, path, title, duration, rating, watch_count, favorite FROM videos WHERE last_watched IS NOT NULL ORDER BY last_watched DESC LIMIT ?1 OFFSET ?2";

pub const SELECT_FAVORITE_VIDEOS: &'static str =
    "SELECT id, uuid, path, title, duration, rating, watch_count, favorite FROM videos WHERE favorite = 1 ORDER BY COALESCE(last_watched, added_at) DESC LIMIT ?1 OFFSET ?2";

pub const SELECT_VIDEO_BY_ID: &'static str =
    "SELECT id, uuid, path, title, duration, rating, watch_count, favorite FROM videos WHERE id = ?1";

pub const SELECT_VIDEO_BY_PATH: &'static str =
    "SELECT id, uuid, path, title, duration, rating, watch_count, favorite FROM videos WHERE path = ?1";

pub const INSERT_VIDEO: &'static str =
    "INSERT INTO videos (uuid, path, title, duration) VALUES (?1, ?2, ?3, ?4)";

pub const RECORD_WATCH: &'static str =
    "UPDATE videos SET watch_count = watch_count + 1, last_watched = datetime('now') WHERE id = ?1";

/// Takes the rating as `?1` and the id as `?2`.
pub const UPDATE_RATING: &'static str = "UPDATE videos SET rating = ?1 WHERE id = ?2";

pub const UPDATE_DURATION_BY_PATH: &'static str = "UPDATE videos SET duration = ?1 WHERE path = ?2";

pub const DELETE_VIDEO: &'static str = "DELETE FROM videos WHERE id = ?1";

pub const UPDATE_FAVORITE: &'static str = "UPDATE videos SET favorite = ?1 WHERE id = ?2";

pub const SELECT_SETTING: &'static str = "SELECT value FROM settings WHERE key = ?1";

pub const UPSERT_SETTING: &'static str =
    "INSERT INTO settings (key, value) VALUES (?1, ?2) ON CONFLICT(key) DO UPDATE SET value = excluded.value";

pub const SELECT_ALL_SETTINGS: &'static str = "SELECT key, value FROM settings ORDER BY key ASC";

/// The row count that SQLite reads as "no limit".
pub const UNLIMITED: i64 = -1;

/// The number of rows that a page may hold: the caller's, or [`UNLIMITED`].
pub open spec fn row_cap(limit: Option<i64>) -> i64 {
    match limit {
        Some(n) => n,
        None => UNLIMITED,
    }
}

/// The number of rows that a page leaves out at its start: the caller's, or
/// none.
pub open spec fn rows_skipped(offset: Option<i64>) -> i64 {
    match offset {
        Some(n) => n,
        None => 0,
    }
}

/// The flag as the store holds it: 1 for a favorite, 0 otherwise.
pub open spec fn favorite_flag(favorite: bool) -> i64 {
    if favorite {
        1
    } else {
        0
    }
}

/// One SQL statement with its positional parameters, `?1` first.
#[derive(Debug, Clone, PartialEq, Eq)]
pub struct Statement {
    pub sql: String,
    pub params: Vec<SqlParam>,
}

/// What a [`Statement`] is: its text and the arguments it binds.
pub struct StatementData {
    pub sql: Seq<char>,
    pub args: Seq<SqlArg>,
}

impl View for Statement {
    type V = StatementData;

    open spec fn view(&self) -> StatementData {
        StatementData { sql: self.sql@, args: args_of(self.params@) }
    }
}

impl Statement {
    /// Every video, the most recently watched or, failing that, added first.
    pub fn all_videos() -> (statement: Statement)
        ensures
            statement@ == (StatementData { sql: SELECT_ALL_VIDEOS@, args: seq![] }),
    {
        let statement = Statement { sql: String::from_str(SELECT_ALL_VIDEOS), params: Vec::new() };
        assert(args_of(statement.params@) =~= seq![]);
        statement
    }

    /// The page of a listing: `sql` with the row cap as `?1` and the rows
    /// skipped as `?2`.
    fn page(sql: &'static str, limit: Option<i64>, offset: Option<i64>) -> (statement: Statement)
        ensures
            statement@ == (StatementData {
                sql: sql@,
                args: seq![
                    SqlArg::Integer(row_cap(limit)),
                    SqlArg::Integer(rows_skipped(offset)),
                ],
            }),
    {
        let cap: i64 = match limit {
            Some(n) => n,
            None => UNLIMITED,
        };
        let skipped: i64 = match offset {
            Some(n) => n,
            None => 0,
        };
        let mut params: Vec<SqlParam> = Vec::new();
        params.push(SqlParam::Integer(cap));
        params.push(SqlParam::Integer(skipped));
        assert(args_of(params@) =~= seq![SqlArg::Integer(cap), SqlArg::Integer(skipped)]);
        Statement { sql: String::from_str(sql), params }
    }

    /// The videos that were watched, the most recently watched first, cut to
    /// a page. An absent limit caps nothing, an absent offset skips nothing.
    pub fn recent_videos(limit: Option<i64>, offset: Option<i64>) -> (statement: Statement)
        ensures
            statement@ == (StatementData {
                sql: SELECT_RECENT_VIDEOS@,
                args: seq![
                    SqlArg::Integer(row_cap(limit)),
                    SqlArg::Integer(rows_skipped(offset)),
                ],
            }),
    {
        Statement::page(SELECT_RECENT_VIDEOS, limit, offset)
    }

    /// The favorites, the most recently watched or, failing that, added
    /// first, cut to a page as in [`Statement::recent_videos`].
    pub fn favorite_videos(limit: Option<i64>, offset: Option<i64>) -> (statement: Statement)
        ensures
            statement@ == (StatementData {
                sql: SELECT_FAVORITE_VIDEOS@,
                args: seq![
                    SqlArg::Integer(row_cap(limit)),
                    SqlArg::Integer(rows_skipped(offset)),
                ],
            }),
    {
        Statement::page(SELECT_FAVORITE_VIDEOS, limit, offset)
    }

    /// A statement whose one parameter is an integer.
    fn with_integer(sql: &'static str, value: i64) -> (statement: Statement)
        ensures
            statement@ == (StatementData { sql: sql@, args: seq![SqlArg::Integer(value)] }),
    {
        let mut params: Vec<SqlParam> = Vec::new();
        params.push(SqlParam::Integer(value));
        assert(args_of(params@) =~= seq![SqlArg::Integer(value)]);
        Statement { sql: String::from_str(sql), params }
    }

    /// A statement whose one parameter is a text.
    fn with_text(sql: &'static str, value: &str) -> (statement: Statement)
        ensures
            statement@ == (StatementData { sql: sql@, args: seq![SqlArg::Text(value@)] }),
    {
        let mut params: Vec<SqlParam> = Vec::new();
        params.push(SqlParam::Text(String::from_str(value)));
        assert(args_of(params@) =~= seq![SqlArg::Text(value@)]);
        Statement { sql: String::from_str(sql), params }
    }

    /// The video with the given id.
    pub fn video_by_id(id: i64) -> (statement: Statement)
        ensures
            statement@ == (StatementData { sql: SELECT_VIDEO_BY_ID@, args: seq![SqlArg::Integer(id)] }),
    {
        Statement::with_integer(SELECT_VIDEO_BY_ID, id)
    }

    /// The video with the given path.
    pub fn video_by_path(path: &str) -> (statement: Statement)
        ensures
            statement@ == (StatementData { sql: SELECT_VIDEO_BY_PATH@, args: seq![SqlArg::Text(path@)] }),
    {
        Statement::with_text(SELECT_VIDEO_BY_PATH, path)
    }

    /// A new row for the file at `path`. The counters and the flag take the
    /// defaults of the schema; an absent title or duration is stored as
    /// `NULL`.
    pub fn insert_video(uuid: &str, path: &str, title: &Option<String>, duration: Option<i64>) -> (statement: Statement)
        ensures
            statement@ == (StatementData {
                sql: INSERT_VIDEO@,
                args: seq![
                    SqlArg::Text(uuid@),
                    SqlArg::Text(path@),
                    SqlParam::optional_text_arg(*title),
                    SqlParam::optional_integer_arg(duration),
                ],
            }),
    {
        let mut params: Vec<SqlParam> = Vec::new();
        params.push(SqlParam::Text(String::from_str(uuid)));
        params.push(SqlParam::Text(String::from_str(path)));
        params.push(SqlParam::optional_text(title));
        params.push(SqlParam::optional_integer(duration));
        assert(args_of(params@) =~= seq![
            SqlArg::Text(uuid@),
            SqlArg::Text(path@),
            SqlParam::optional_text_arg(*title),
            SqlParam::optional_integer_arg(duration),
        ]);
        Statement { sql: String::from_str(INSERT_VIDEO), params }
    }

    /// One more watch of the video with the given id, at the store's present
    /// time.
    pub fn record_watch(id: i64) -> (statement: Statement)
        ensures
            statement@ == (StatementData { sql: RECORD_WATCH@, args: seq![SqlArg::Integer(id)] }),
    {
        Statement::with_integer(RECORD_WATCH, id)
    }

    /// A new duration for the video with the given path.
    pub fn update_duration_by_path(path: &str, duration: i64) -> (statement: Statement)
        ensures
            statement@ == (StatementData {
                sql: UPDATE_DURATION_BY_PATH@,
                args: seq![SqlArg::Integer(duration), SqlArg::Text(path@)],
            }),
    {
        let mut params: Vec<SqlParam> = Vec::new();
        params.push(SqlParam::Integer(duration));
        params.push(SqlParam::Text(String::from_str(path)));
        assert(args_of(params@) =~= seq![SqlArg::Integer(duration), SqlArg::Text(path@)]);
        Statement { sql: String::from_str(UPDATE_DURATION_BY_PATH), params }
    }

    /// The end of the video with the given id.
    pub fn delete_video(id: i64) -> (statement: Statement)
        ensures
            statement@ == (StatementData { sql: DELETE_VIDEO@, args: seq![SqlArg::Integer(id)] }),
    {
        Statement::with_integer(DELETE_VIDEO, id)
    }

    /// A new favorite flag for the video with the given id.
    pub fn update_favorite(id: i64, favorite: bool) -> (statement: Statement)
        ensures
            statement@ == (StatementData {
                sql: UPDATE_FAVORITE@,
                args: seq![SqlArg::Integer(favorite_flag(favorite)), SqlArg::Integer(id)],
            }),
    {
        let flag: i64 = if favorite { 1 } else { 0 };
        let mut params: Vec<SqlParam> = Vec::new();
        params.push(SqlParam::Integer(flag));
        params.push(SqlParam::Integer(id));
        assert(args_of(params@) =~= seq![SqlArg::Integer(flag), SqlArg::Integer(id)]);
        Statement { sql: String::from_str(UPDATE_FAVORITE), params }
    }

    /// The value of the setting with the given key.
    pub fn setting(key: &str) -> (statement: Statement)
        ensures
            statement@ == (StatementData { sql: SELECT_SETTING@, args: seq![SqlArg::Text(key@)] }),
    {
        Statement::with_text(SELECT_SETTING, key)
    }

    /// The setting `key` with the value `value`, whether or not the key was
    /// there before.
    pub fn upsert_setting(key: &str, value: &str) -> (statement: Statement)
        ensures
            statement@ == (StatementData {
                sql: UPSERT_SETTING@,
                args: seq![SqlArg::Text(key@), SqlArg::Text(value@)],
            }),
    {
        let mut params: Vec<SqlParam> = Vec::new();
        params.push(SqlParam::Text(String::from_str(key)));
        params.push(SqlParam::Text(String::from_str(value)));
        assert(args_of(params@) =~= seq![SqlArg::Text(key@), SqlArg::Text(value@)]);
        Statement { sql: String::from_str(UPSERT_SETTING), params }
    }

    /// Every setting, by ascending key.
    pub fn all_settings() -> (statement: Statement)
        ensures
            statement@ == (StatementData { sql: SELECT_ALL_SETTINGS@, args: seq![] }),
    {
        let statement = Statement { sql: String::from_str(SELECT_ALL_SETTINGS), params: Vec::new() };
        assert(args_of(statement.params@) =~= seq![]);
        statement
    }
}

} // verus!
