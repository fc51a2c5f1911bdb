//! What an answer of the store means to the caller of an operation.
//!
//! Each function takes what the store gave for one statement and says, for
//! every possible answer, what the operation returns.

use vstd::prelude::*;
use crate::db::decode::{
    decoded_setting, decoded_setting_value, decoded_settings, decoded_video, decoded_videos,
    setting_value_from_row, settings_from_rows, video_from_row, videos_from_rows,
};
use crate::db::error::{statement_fault, startup_fault, FailureData, SqlFailure, StoreError, StoreFault};
use crate::db::model::{created_video, settings_data, text_of, videos_data, Setting, SettingData, Video, VideoData};
use crate::db::value::{table_data, SqlDatum, SqlValue};

verus! {

/// The rows or the failure that a question was answered with, as data.
pub open spec fn answer_data(answer: Result<Vec<Vec<SqlValue>>, SqlFailure>) -> Result<Seq<Seq<SqlDatum>>, FailureData> {
    match answer {
        Ok(rows) => Ok(table_data(rows@)),
        Err(failure) => Err(failure@),
    }
}

/// The count or the failure that a change was answered with, as data.
pub open spec fn change_data(change: Result<usize, SqlFailure>) -> Result<usize, FailureData> {
    match change {
        Ok(changed) => Ok(changed),
        Err(failure) => Err(failure@),
    }
}

/// The failure, if any, that a batch was answered with, as data.
pub open spec fn batch_data(done: Result<(), SqlFailure>) -> Result<(), FailureData> {
    match done {
        Ok(()) => Ok(()),
        Err(failure) => Err(failure@),
    }
}

/// A listing of videos as data.
pub open spec fn listing_data(result: Result<Vec<Video>, StoreError>) -> Result<Seq<VideoData>, StoreFault> {
    match result {
        Ok(videos) => Ok(videos_data(videos@)),
        Err(error) => Err(error@),
    }
}

/// A lookup of a video as data.
pub open spec fn lookup_data(result: Result<Option<Video>, StoreError>) -> Result<Option<VideoData>, StoreFault> {
    match result {
        Ok(Some(video)) => Ok(Some(video@)),
        Ok(None) => Ok(None),
        Err(error) => Err(error@),
    }
}

/// A listing of settings as data.
pub open spec fn settings_listing_data(result: Result<Vec<Setting>, StoreError>) -> Result<Seq<SettingData>, StoreFault> {
    match result {
        Ok(settings) => Ok(settings_data(settings@)),
        Err(error) => Err(error@),
    }
}

/// A lookup of a setting as data.
pub open spec fn setting_lookup_data(result: Result<Option<String>, StoreError>) -> Result<Option<Seq<char>>, StoreFault> {
    match result {
        Ok(value) => Ok(text_of(value)),
        Err(error) => Err(error@),
    }
}

/// The outcome of an operation that returns nothing, as data.
pub open spec fn outcome_data(result: Result<(), StoreError>) -> Result<(), StoreFault> {
    match result {
        Ok(()) => Ok(()),
        Err(error) => Err(error@),
    }
}

/// What a listing of videos returns: every row of the answer as a video, in
/// the order of the answer. A row that is no video is a query failure; a
/// failure of the store is classified.
pub open spec fn listing_of(answer: Result<Seq<Seq<SqlDatum>>, FailureData>) -> Result<Seq<VideoData>, StoreFault> {
    match answer {
        Err(failure) => Err(statement_fault(failure)),
        Ok(rows) => match decoded_videos(rows) {
            Ok(videos) => Ok(videos),
            Err(fault) => Err(StoreFault::QueryFailure(fault)),
        },
    }
}

/// What a lookup of a video returns: nothing where the answer has no row,
/// else its first row as a video.
pub open spec fn lookup_of(answer: Result<Seq<Seq<SqlDatum>>, FailureData>) -> Result<Option<VideoData>, StoreFault> {
    match answer {
        Err(failure) => Err(statement_fault(failure)),
        Ok(rows) => if rows.len() == 0 {
            Ok(None)
        } else {
            match decoded_video(rows[0]) {
                Ok(video) => Ok(Some(video)),
                Err(fault) => Err(StoreFault::QueryFailure(fault)),
            }
        },
    }
}

/// What a listing of settings returns: every row of the answer as a setting,
/// in the order of the answer.
pub open spec fn settings_of(answer: Result<Seq<Seq<SqlDatum>>, FailureData>) -> Result<Seq<SettingData>, StoreFault> {
    match answer {
        Err(failure) => Err(statement_fault(failure)),
        Ok(rows) => match decoded_settings(rows) {
            Ok(settings) => Ok(settings),
            Err(fault) => Err(StoreFault::QueryFailure(fault)),
        },
    }
}

/// What a lookup of a setting returns: nothing where the answer has no row,
/// else the text in the first column of its first row.
pub open spec fn setting_of(answer: Result<Seq<Seq<SqlDatum>>, FailureData>) -> Result<Option<Seq<char>>, StoreFault> {
    match answer {
        Err(failure) => Err(statement_fault(failure)),
        Ok(rows) => if rows.len() == 0 {
            Ok(None)
        } else {
            match decoded_setting_value(rows[0]) {
                Ok(value) => Ok(Some(value)),
                Err(fault) => Err(StoreFault::QueryFailure(fault)),
            }
        },
    }
}

/// What a change returns: success however many rows it touched, none
/// included, or the classified failure.
pub open spec fn change_of(change: Result<usize, FailureData>) -> Result<(), StoreFault> {
    match change {
        Ok(_) => Ok(()),
        Err(failure) => Err(statement_fault(failure)),
    }
}

/// What the preparation of the database returns: success, or the store as
/// unavailable.
pub open spec fn startup_of(done: Result<(), FailureData>) -> Result<(), StoreFault> {
    match done {
        Ok(()) => Ok(()),
        Err(failure) => Err(startup_fault(failure)),
    }
}

/// The value of an optional text column: the text, or `NULL`.
pub open spec fn text_or_null(text: Option<Seq<char>>) -> SqlDatum {
    match text {
        Some(s) => SqlDatum::Text(s),
        None => SqlDatum::Null,
    }
}

/// The value of an optional integer column: the integer, or `NULL`.
pub open spec fn integer_or_null(value: Option<i64>) -> SqlDatum {
    match value {
        Some(n) => SqlDatum::Integer(n),
        None => SqlDatum::Null,
    }
}

/// The row of a video as the schema keeps it right after it was added: the
/// inserted values, no rating, and the defaults for the watch count and the
/// favorite flag.
pub open spec fn new_video_row(
    id: i64,
    uuid: Seq<char>,
    path: Seq<char>,
    title: Option<Seq<char>>,
    duration: Option<i64>,
) -> Seq<SqlDatum> {
    seq![
        SqlDatum::Integer(id),
        SqlDatum::Text(uuid),
        SqlDatum::Text(path),
        text_or_null(title),
        integer_or_null(duration),
        SqlDatum::Null,
        SqlDatum::Integer(0),
        SqlDatum::Integer(0),
    ]
}

/// A lookup that the store answers with the row of a video just added
/// returns the very record that adding the video returned.
pub proof fn lemma_added_video_is_found(
    id: i64,
    uuid: Seq<char>,
    path: Seq<char>,
    title: Option<Seq<char>>,
    duration: Option<i64>,
)
    ensures
        lookup_of(Ok(seq![new_video_row(id, uuid, path, title, duration)])) == Ok::<Option<VideoData>, StoreFault>(
            Some(created_video(id, uuid, path, title, duration)),
        ),
{
}

/// A listing holds one record for each row of the answer, in the order of
/// the rows: none is dropped, none added, none moved.
pub proof fn lemma_listing_follows_rows(rows: Seq<Seq<SqlDatum>>)
    ensures
        listing_of(Ok(rows)) matches Ok(videos) ==> {
            &&& videos.len() == rows.len()
            &&& forall|i: int|
                0 <= i < rows.len() ==> decoded_video(#[trigger] rows[i]) == Ok::<VideoData, Seq<char>>(videos[i])
        },
        settings_of(Ok(rows)) matches Ok(settings) ==> {
            &&& settings.len() == rows.len()
            &&& forall|i: int|
                0 <= i < rows.len() ==> decoded_setting(#[trigger] rows[i]) == Ok::<SettingData, Seq<char>>(
                    settings[i],
                )
        },
{
    let videos = rows.map_values(|row: Seq<SqlDatum>| decoded_video(row));
    let settings = rows.map_values(|row: Seq<SqlDatum>| decoded_setting(row));
    assert forall|i: int| 0 <= i < rows.len() implies videos[i] == decoded_video(#[trigger] rows[i]) by {}
    assert forall|i: int| 0 <= i < rows.len() implies settings[i] == decoded_setting(#[trigger] rows[i]) by {}
}

/// Whatever the store answers, an operation fails in one of two ways only:
/// with a violated constraint or with a query failure. That the store is
/// unavailable or its lock poisoned is never the result of a statement.
pub proof fn lemma_statements_fail_as_statements(
    answer: Result<Seq<Seq<SqlDatum>>, FailureData>,
    change: Result<usize, FailureData>,
)
    ensures
        listing_of(answer) matches Err(fault) ==> fault.of_statement(),
        lookup_of(answer) matches Err(fault) ==> fault.of_statement(),
        settings_of(answer) matches Err(fault) ==> fault.of_statement(),
        setting_of(answer) matches Err(fault) ==> fault.of_statement(),
        change_of(change) matches Err(fault) ==> fault.of_statement(),
{
}

/// The videos that a listing returns for the given answer.
pub fn listed_videos(answer: Result<Vec<Vec<SqlValue>>, SqlFailure>) -> (result: Result<Vec<Video>, StoreError>)
    ensures
        listing_data(result) == listing_of(answer_data(answer)),
{
    match answer {
        Err(failure) => Err(StoreError::from_statement(failure)),
        Ok(rows) => match videos_from_rows(&rows) {
            Ok(videos) => Ok(videos),
            Err(fault) => Err(StoreError::QueryFailure(fault)),
        },
    }
}

/// The video, if any, that a lookup returns for the given answer.
pub fn found_video(answer: Result<Vec<Vec<SqlValue>>, SqlFailure>) -> (result: Result<Option<Video>, StoreError>)
    ensures
        lookup_data(result) == lookup_of(answer_data(answer)),
{
    match answer {
        Err(failure) => Err(StoreError::from_statement(failure)),
        Ok(rows) => {
            if rows.len() == 0 {
                Ok(None)
            } else {
                match video_from_row(&rows[0]) {
                    Ok(video) => Ok(Some(video)),
                    Err(fault) => Err(StoreError::QueryFailure(fault)),
                }
            }
        },
    }
}

/// The settings that a listing returns for the given answer.
pub fn listed_settings(answer: Result<Vec<Vec<SqlValue>>, SqlFailure>) -> (result: Result<Vec<Setting>, StoreError>)
    ensures
        settings_listing_data(result) == settings_of(answer_data(answer)),
{
    match answer {
        Err(failure) => Err(StoreError::from_statement(failure)),
        Ok(rows) => match settings_from_rows(&rows) {
            Ok(settings) => Ok(settings),
            Err(fault) => Err(StoreError::QueryFailure(fault)),
        },
    }
}

/// The value, if any, that a lookup of a setting returns for the given
/// answer.
pub fn found_setting(answer: Result<Vec<Vec<SqlValue>>, SqlFailure>) -> (result: Result<Option<String>, StoreError>)
    ensures
        setting_lookup_data(result) == setting_of(answer_data(answer)),
{
    match answer {
        Err(failure) => Err(StoreError::from_statement(failure)),
        Ok(rows) => {
            if rows.len() == 0 {
                Ok(None)
            } else {
                match setting_value_from_row(&rows[0]) {
                    Ok(value) => Ok(Some(value)),
                    Err(fault) => Err(StoreError::QueryFailure(fault)),
                }
            }
        },
    }
}

/// What a change returns for the given answer.
pub fn acknowledged(change: Result<usize, SqlFailure>) -> (result: Result<(), StoreError>)
    ensures
        outcome_data(result) == change_of(change_data(change)),
{
    match change {
        Ok(_) => Ok(()),
        Err(failure) => Err(StoreError::from_statement(failure)),
    }
}

/// What the preparation of the database returns for the given answer.
pub fn prepared(done: Result<(), SqlFailure>) -> (result: Result<(), StoreError>)
    ensures
        outcome_data(result) == startup_of(batch_data(done)),
{
    match done {
        Ok(()) => Ok(()),
        Err(failure) => Err(StoreError::from_startup(failure)),
    }
}

} // verus!
