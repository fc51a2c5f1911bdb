//! The operations of the catalog. Each one sends a single statement over the
//! given connection and turns the answer into its result.

use vstd::prelude::*;
use vstd::string::StringExecFns;
use crate::db::answer::{
    acknowledged, answer_data, change_data, change_of, found_setting, found_video, listed_settings,
    listed_videos, listing_data, listing_of, lookup_data, lookup_of, outcome_data, setting_lookup_data,
    setting_of, settings_listing_data, settings_of,
};
use crate::db::driver::{failure_data, failure_of, fresh_uuid, last_insert_rowid};
use crate::db::error::{statement_fault, FailureData, StoreError};
use crate::db::exchange::{fetch, perform};
use crate::db::ident::is_random_uuid;
use crate::db::model::{created_video, text_of, Setting, Video};
use crate::db::statement::Statement;
use crate::db::value::SqlDatum;

verus! {

/// The greeting for `name`.
pub fn greet(name: String) -> (greeting: String)
    ensures
        greeting@ == "Hello, "@ + name@ + "!"@,
{
    let mut greeting = String::from_str("Hello, ");
    greeting.append(name.as_str());
    greeting.append("!");
    greeting
}

/// The error that a statement run outside this library ended in, classified
/// as the library classifies its own: a violated constraint where the code
/// that the error reports says so, a query failure otherwise, with the
/// message that the error displays.
pub fn statement_error(error: &rusqlite::Error) -> (classified: StoreError)
    ensures
        classified@ == statement_fault(failure_data(*error)),
{
    StoreError::from_statement(failure_of(error))
}

/// All videos, the most recently watched or, failing that, added first.
///
/// The result is what [`listing_of`] makes of the store's answer to
/// [`Statement::all_videos`].
pub fn list_videos(conn: &rusqlite::Connection) -> (result: Result<Vec<Video>, StoreError>)
    ensures
        exists|answer: Result<Seq<Seq<SqlDatum>>, FailureData>| listing_data(result) == #[trigger] listing_of(answer),
{
    let answer = fetch(conn, &Statement::all_videos());
    let ghost data = answer_data(answer);
    let result = listed_videos(answer);
    assert(listing_data(result) == listing_of(data));
    result
}

/// The videos that were watched, the most recently watched first. Of these,
/// `offset` are skipped, if given, and then at most `limit` returned, if
/// given.
///
/// The result is what [`listing_of`] makes of the store's answer to
/// [`Statement::recent_videos`].
pub fn list_recent(conn: &rusqlite::Connection, limit: Option<i64>, offset: Option<i64>) -> (result: Result<Vec<Video>, StoreError>)
    ensures
        exists|answer: Result<Seq<Seq<SqlDatum>>, FailureData>| listing_data(result) == #[trigger] listing_of(answer),
{
    let answer = fetch(conn, &Statement::recent_videos(limit, offset));
    let ghost data = answer_data(answer);
    let result = listed_videos(answer);
    assert(listing_data(result) == listing_of(data));
    result
}

/// The favorites, the most recently watched or, failing that, added first,
/// cut to a page as in [`list_recent`].
///
/// The result is what [`listing_of`] makes of the store's answer to
/// [`Statement::favorite_videos`].
pub fn list_favorites(conn: &rusqlite::Connection, limit: Option<i64>, offset: Option<i64>) -> (result: Result<Vec<Video>, StoreError>)
    ensures
        exists|answer: Result<Seq<Seq<SqlDatum>>, FailureData>| listing_data(result) == #[trigger] listing_of(answer),
{
    let answer = fetch(conn, &Statement::favorite_videos(limit, offset));
    let ghost data = answer_data(answer);
    let result = listed_videos(answer);
    assert(listing_data(result) == listing_of(data));
    result
}

/// The video with the given id, or `None` where there is none.
///
/// The result is what [`lookup_of`] makes of the store's answer to
/// [`Statement::video_by_id`].
pub fn get_video(conn: &rusqlite::Connection, id: i64) -> (result: Result<Option<Video>, StoreError>)
    ensures
        exists|answer: Result<Seq<Seq<SqlDatum>>, FailureData>| lookup_data(result) == #[trigger] lookup_of(answer),
{
    let answer = fetch(conn, &Statement::video_by_id(id));
    let ghost data = answer_data(answer);
    let result = found_video(answer);
    assert(lookup_data(result) == lookup_of(data));
    result
}

/// The video with the given path, or `None` where there is none.
///
/// The result is what [`lookup_of`] makes of the store's answer to
/// [`Statement::video_by_path`].
pub fn get_video_by_path(conn: &rusqlite::Connection, path: String) -> (result: Result<Option<Video>, StoreError>)
    ensures
        exists|answer: Result<Seq<Seq<SqlDatum>>, FailureData>| lookup_data(result) == #[trigger] lookup_of(answer),
{
    let answer = fetch(conn, &Statement::video_by_path(path.as_str()));
    let ghost data = answer_data(answer);
    let result = found_video(answer);
    assert(lookup_data(result) == lookup_of(data));
    result
}

/// Catalogs the file at `path` under a fresh random UUID and returns its
/// record: the id that the store assigned, the given path, title and
/// duration, no rating, no watch, no favorite. Where the store refuses the
/// row, as it does for a path that is cataloged already, nothing is
/// returned but the classified failure.
pub fn add_video(conn: &rusqlite::Connection, path: String, title: Option<String>, duration: Option<i64>) -> (result: Result<Video, StoreError>)
    ensures
        match result {
            Ok(video) => {
                &&& is_random_uuid(video@.uuid)
                &&& video@ == created_video(video.id, video@.uuid, path@, text_of(title), duration)
            },
            Err(error) => error@.of_statement(),
        },
{
    let uuid = fresh_uuid();
    let statement = Statement::insert_video(uuid.as_str(), path.as_str(), &title, duration);
    match perform(conn, &statement) {
        Err(failure) => Err(StoreError::from_statement(failure)),
        Ok(_) => Ok(Video::created(last_insert_rowid(conn), uuid, path, title, duration)),
    }
}

/// Counts one more watch of the video with the given id and sets its time
/// of last watch to now. Succeeds without effect where there is no such
/// video.
///
/// The result is what [`change_of`] makes of the store's answer to
/// [`Statement::record_watch`].
pub fn increment_view(conn: &rusqlite::Connection, id: i64) -> (result: Result<(), StoreError>)
    ensures
        exists|change: Result<usize, FailureData>| outcome_data(result) == #[trigger] change_of(change),
{
    let change = perform(conn, &Statement::record_watch(id));
    let ghost data = change_data(change);
    let result = acknowledged(change);
    assert(outcome_data(result) == change_of(data));
    result
}

/// The same as [`increment_view`].
pub fn add_like(conn: &rusqlite::Connection, id: i64) -> (result: Result<(), StoreError>)
    ensures
        exists|change: Result<usize, FailureData>| outcome_data(result) == #[trigger] change_of(change),
{
    increment_view(conn, id)
}

/// Gives the video with the given path a new duration. Succeeds without
/// effect where there is no such video.
///
/// The result is what [`change_of`] makes of the store's answer to
/// [`Statement::update_duration_by_path`].
pub fn update_video_duration_by_path(conn: &rusqlite::Connection, path: String, duration: i64) -> (result: Result<(), StoreError>)
    ensures
        exists|change: Result<usize, FailureData>| outcome_data(result) == #[trigger] change_of(change),
{
    let change = perform(conn, &Statement::update_duration_by_path(path.as_str(), duration));
    let ghost data = change_data(change);
    let result = acknowledged(change);
    assert(outcome_data(result) == change_of(data));
    result
}

/// Removes the video with the given id. Succeeds without effect where
/// there is no such video.
///
/// The result is what [`change_of`] makes of the store's answer to
/// [`Statement::delete_video`].
pub fn delete_video(conn: &rusqlite::Connection, id: i64) -> (result: Result<(), StoreError>)
    ensures
        exists|change: Result<usize, FailureData>| outcome_data(result) == #[trigger] change_of(change),
{
    let change = perform(conn, &Statement::delete_video(id));
    let ghost data = change_data(change);
    let result = acknowledged(change);
    assert(outcome_data(result) == change_of(data));
    result
}

/// Marks the video with the given id as a favorite, or as none. Succeeds
/// without effect where there is no such video.
///
/// The result is what [`change_of`] makes of the store's answer to
/// [`Statement::update_favorite`].
pub fn set_favorite(conn: &rusqlite::Connection, id: i64, favorite: bool) -> (result: Result<(), StoreError>)
    ensures
        exists|change: Result<usize, FailureData>| outcome_data(result) == #[trigger] change_of(change),
{
    let change = perform(conn, &Statement::update_favorite(id, favorite));
    let ghost data = change_data(change);
    let result = acknowledged(change);
    assert(outcome_data(result) == change_of(data));
    result
}

/// The value of the setting with the given key, or `None` where there is
/// none.
///
/// The result is what [`setting_of`] makes of the store's answer to
/// [`Statement::setting`].
pub fn get_setting(conn: &rusqlite::Connection, key: String) -> (result: Result<Option<String>, StoreError>)
    ensures
        exists|answer: Result<Seq<Seq<SqlDatum>>, FailureData>| setting_lookup_data(result) == #[trigger] setting_of(answer),
{
    let answer = fetch(conn, &Statement::setting(key.as_str()));
    let ghost data = answer_data(answer);
    let result = found_setting(answer);
    assert(setting_lookup_data(result) == setting_of(data));
    result
}

/// Gives the setting with the given key the given value, whether or not
/// the key was there before.
///
/// The result is what [`change_of`] makes of the store's answer to
/// [`Statement::upsert_setting`].
pub fn set_setting(conn: &rusqlite::Connection, key: String, value: String) -> (result: Result<(), StoreError>)
    ensures
        exists|change: Result<usize, FailureData>| outcome_data(result) == #[trigger] change_of(change),
{
    let change = perform(conn, &Statement::upsert_setting(key.as_str(), value.as_str()));
    let ghost data = change_data(change);
    let result = acknowledged(change);
    assert(outcome_data(result) == change_of(data));
    result
}

/// All settings, by ascending key.
///
/// The result is what [`settings_of`] makes of the store's answer to
/// [`Statement::all_settings`].
pub fn list_settings(conn: &rusqlite::Connection) -> (result: Result<Vec<Setting>, StoreError>)
    ensures
        exists|answer: Result<Seq<Seq<SqlDatum>>, FailureData>| settings_listing_data(result) == #[trigger] settings_of(answer),
{
    let answer = fetch(conn, &Statement::all_settings());
    let ghost data = answer_data(answer);
    let result = listed_settings(answer);
    assert(settings_listing_data(result) == settings_of(data));
    result
}

} // verus!
