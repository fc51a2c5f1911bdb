//! From the rows of a result set to the records of the catalog.
//!
//! A column is read as SQLite's dynamic typing allows: an integer column
//! takes an integer, a text column a text, an optional column also `NULL`,
//! the rating an integer or a real. Anything else is a fault, described as
//! rusqlite describes it.

use vstd::prelude::*;
use vstd::string::StringExecFns;
use crate::db::model::{Rating, Setting, SettingData, Video, VideoData, settings_data, videos_data};
use crate::db::value::{SqlDatum, SqlValue, row_data, table_data};

verus! {

/// The name of the storage class of a value.
pub open spec fn class_name(datum: SqlDatum) -> Seq<char> {
    match datum {
        SqlDatum::Null => "Null"@,
        SqlDatum::Integer(_) => "Integer"@,
        SqlDatum::Real(_) => "Real"@,
        SqlDatum::Text(_) => "Text"@,
        SqlDatum::Blob(_) => "Blob"@,
    }
}

/// The fault of a row that has no column at the index written as `label`.
pub open spec fn missing_column(label: Seq<char>) -> Seq<char> {
    "Invalid column index: "@ + label
}

/// The fault of a column that holds `found` where its type does not allow it.
pub open spec fn mistyped_column(found: SqlDatum, label: Seq<char>, name: Seq<char>) -> Seq<char> {
    "Invalid column type "@ + class_name(found) + " at index: "@ + label + ", name: "@ + name
}

/// The value in column `index`, or the fault of its absence.
pub open spec fn column(row: Seq<SqlDatum>, index: int, label: Seq<char>) -> Result<SqlDatum, Seq<char>> {
    if 0 <= index < row.len() {
        Ok(row[index])
    } else {
        Err(missing_column(label))
    }
}

/// Column `index` read as an integer.
pub open spec fn integer_column(row: Seq<SqlDatum>, index: int, label: Seq<char>, name: Seq<char>) -> Result<i64, Seq<char>> {
    match column(row, index, label) {
        Err(fault) => Err(fault),
        Ok(SqlDatum::Integer(n)) => Ok(n),
        Ok(other) => Err(mistyped_column(other, label, name)),
    }
}

/// Column `index` read as an integer or `NULL`.
pub open spec fn optional_integer_column(row: Seq<SqlDatum>, index: int, label: Seq<char>, name: Seq<char>) -> Result<Option<i64>, Seq<char>> {
    match column(row, index, label) {
        Err(fault) => Err(fault),
        Ok(SqlDatum::Null) => Ok(None),
        Ok(SqlDatum::Integer(n)) => Ok(Some(n)),
        Ok(other) => Err(mistyped_column(other, label, name)),
    }
}

/// Column `index` read as a text.
pub open spec fn text_column(row: Seq<SqlDatum>, index: int, label: Seq<char>, name: Seq<char>) -> Result<Seq<char>, Seq<char>> {
    match column(row, index, label) {
        Err(fault) => Err(fault),
        Ok(SqlDatum::Text(s)) => Ok(s),
        Ok(other) => Err(mistyped_column(other, label, name)),
    }
}

/// Column `index` read as a text or `NULL`.
pub open spec fn optional_text_column(row: Seq<SqlDatum>, index: int, label: Seq<char>, name: Seq<char>) -> Result<Option<Seq<char>>, Seq<char>> {
    match column(row, index, label) {
        Err(fault) => Err(fault),
        Ok(SqlDatum::Null) => Ok(None),
        Ok(SqlDatum::Text(s)) => Ok(Some(s)),
        Ok(other) => Err(mistyped_column(other, label, name)),
    }
}

/// Column `index` read as a rating or `NULL`.
pub open spec fn rating_column(row: Seq<SqlDatum>, index: int, label: Seq<char>, name: Seq<char>) -> Result<Option<Rating>, Seq<char>> {
    match column(row, index, label) {
        Err(fault) => Err(fault),
        Ok(SqlDatum::Null) => Ok(None),
        Ok(SqlDatum::Integer(n)) => Ok(Some(Rating::Whole(n))),
        Ok(SqlDatum::Real(bits)) => Ok(Some(Rating::Real(bits))),
        Ok(other) => Err(mistyped_column(other, label, name)),
    }
}

/// The video that a row of eight columns stands for (id, uuid, path, title,
/// duration, rating, watch count, favorite flag), or the fault of the first
/// column that cannot be read. Columns beyond the eighth are not looked at.
pub open spec fn decoded_video(row: Seq<SqlDatum>) -> Result<VideoData, Seq<char>> {
    let id = integer_column(row, 0, "0"@, "id"@);
    let uuid = text_column(row, 1, "1"@, "uuid"@);
    let path = text_column(row, 2, "2"@, "path"@);
    let title = optional_text_column(row, 3, "3"@, "title"@);
    let duration = optional_integer_column(row, 4, "4"@, "duration"@);
    let rating = rating_column(row, 5, "5"@, "rating"@);
    let watch_count = integer_column(row, 6, "6"@, "watch_count"@);
    let favorite = integer_column(row, 7, "7"@, "favorite"@);
    if id is Err {
        Err(id->Err_0)
    } else if uuid is Err {
        Err(uuid->Err_0)
    } else if path is Err {
        Err(path->Err_0)
    } else if title is Err {
        Err(title->Err_0)
    } else if duration is Err {
        Err(duration->Err_0)
    } else if rating is Err {
        Err(rating->Err_0)
    } else if watch_count is Err {
        Err(watch_count->Err_0)
    } else if favorite is Err {
        Err(favorite->Err_0)
    } else {
        Ok(
            VideoData {
                id: id->Ok_0,
                uuid: uuid->Ok_0,
                path: path->Ok_0,
                title: title->Ok_0,
                duration: duration->Ok_0,
                rating: rating->Ok_0,
                watch_count: watch_count->Ok_0,
                favorite: favorite->Ok_0,
            },
        )
    }
}

/// The setting that a row of two columns stands for (key, value), or the
/// fault of the first column that cannot be read.
pub open spec fn decoded_setting(row: Seq<SqlDatum>) -> Result<SettingData, Seq<char>> {
    let key = text_column(row, 0, "0"@, "key"@);
    let value = text_column(row, 1, "1"@, "value"@);
    if key is Err {
        Err(key->Err_0)
    } else if value is Err {
        Err(value->Err_0)
    } else {
        Ok(SettingData { key: key->Ok_0, value: value->Ok_0 })
    }
}

/// The value of a setting, from a row whose first column holds it.
pub open spec fn decoded_setting_value(row: Seq<SqlDatum>) -> Result<Seq<char>, Seq<char>> {
    text_column(row, 0, "0"@, "value"@)
}

/// Whether `k` is the place of the first fault among `results`.
pub open spec fn is_first_fault<T>(results: Seq<Result<T, Seq<char>>>, k: int) -> bool {
    &&& 0 <= k < results.len()
    &&& results[k] is Err
    &&& forall|j: int| 0 <= j < k ==> (#[trigger] results[j]) is Ok
}

/// All the values in order where every result is one, else the first fault.
pub open spec fn collected<T>(results: Seq<Result<T, Seq<char>>>) -> Result<Seq<T>, Seq<char>> {
    if forall|i: int| 0 <= i < results.len() ==> (#[trigger] results[i]) is Ok {
        Ok(Seq::new(results.len(), |i: int| results[i]->Ok_0))
    } else {
        Err(results[choose|k: int| is_first_fault(results, k)]->Err_0)
    }
}

/// The videos of a result set in its order, or the fault of the first row
/// that is none.
pub open spec fn decoded_videos(rows: Seq<Seq<SqlDatum>>) -> Result<Seq<VideoData>, Seq<char>> {
    collected(rows.map_values(|row: Seq<SqlDatum>| decoded_video(row)))
}

/// The settings of a result set in its order, or the fault of the first row
/// that is none.
pub open spec fn decoded_settings(rows: Seq<Seq<SqlDatum>>) -> Result<Seq<SettingData>, Seq<char>> {
    collected(rows.map_values(|row: Seq<SqlDatum>| decoded_setting(row)))
}

/// Results that are all values collect to those values.
pub proof fn lemma_collected_values<T>(results: Seq<Result<T, Seq<char>>>, values: Seq<T>)
    requires
        results.len() == values.len(),
        forall|i: int| 0 <= i < results.len() ==> (#[trigger] results[i]) == Ok::<T, Seq<char>>(values[i]),
    ensures
        collected(results) == Ok::<Seq<T>, Seq<char>>(values),
{
    assert(Seq::new(results.len(), |i: int| results[i]->Ok_0) =~= values);
}

/// Results with a fault at `k` and none before it collect to that fault.
pub proof fn lemma_collected_fault<T>(results: Seq<Result<T, Seq<char>>>, k: int)
    requires
        is_first_fault(results, k),
    ensures
        collected(results) == Err::<Seq<T>, Seq<char>>(results[k]->Err_0),
{
    let chosen = choose|c: int| is_first_fault(results, c);
    assert(is_first_fault(results, chosen));
    if chosen < k {
        assert(results[chosen] is Ok);
    } else if k < chosen {
        assert(results[k] is Ok);
    }
}

/// What a decoding gave, with the record and the fault as data.
pub open spec fn video_result(result: Result<Video, String>) -> Result<VideoData, Seq<char>> {
    match result {
        Ok(video) => Ok(video@),
        Err(fault) => Err(fault@),
    }
}

/// What a decoding gave, with the records and the fault as data.
pub open spec fn videos_result(result: Result<Vec<Video>, String>) -> Result<Seq<VideoData>, Seq<char>> {
    match result {
        Ok(videos) => Ok(videos_data(videos@)),
        Err(fault) => Err(fault@),
    }
}

/// What a decoding gave, with the pair and the fault as data.
pub open spec fn setting_result(result: Result<Setting, String>) -> Result<SettingData, Seq<char>> {
    match result {
        Ok(setting) => Ok(setting@),
        Err(fault) => Err(fault@),
    }
}

/// What a decoding gave, with the pairs and the fault as data.
pub open spec fn settings_result(result: Result<Vec<Setting>, String>) -> Result<Seq<SettingData>, Seq<char>> {
    match result {
        Ok(settings) => Ok(settings_data(settings@)),
        Err(fault) => Err(fault@),
    }
}

/// What a decoding gave, with the text and the fault as data.
pub open spec fn text_result(result: Result<String, String>) -> Result<Seq<char>, Seq<char>> {
    match result {
        Ok(text) => Ok(text@),
        Err(fault) => Err(fault@),
    }
}

/// What a decoding gave, with the text, if any, and the fault as data.
pub open spec fn optional_text_result(result: Result<Option<String>, String>) -> Result<Option<Seq<char>>, Seq<char>> {
    match result {
        Ok(Some(text)) => Ok(Some(text@)),
        Ok(None) => Ok(None),
        Err(fault) => Err(fault@),
    }
}

/// What a decoding gave, with the fault as data.
pub open spec fn plain_result<T>(result: Result<T, String>) -> Result<T, Seq<char>> {
    match result {
        Ok(value) => Ok(value),
        Err(fault) => Err(fault@),
    }
}

fn class_of(value: &SqlValue) -> (name: &'static str)
    ensures
        name@ == class_name(value@),
{
    match value {
        SqlValue::Null => "Null",
        SqlValue::Integer(_) => "Integer",
        SqlValue::Real(_) => "Real",
        SqlValue::Text(_) => "Text",
        SqlValue::Blob(_) => "Blob",
    }
}

fn missing(label: &str) -> (fault: String)
    ensures
        fault@ == missing_column(label@),
{
    let mut fault = String::from_str("Invalid column index: ");
    fault.append(label);
    fault
}

fn mistyped(found: &SqlValue, label: &str, name: &str) -> (fault: String)
    ensures
        fault@ == mistyped_column(found@, label@, name@),
{
    let mut fault = String::from_str("Invalid column type ");
    fault.append(class_of(found));
    fault.append(" at index: ");
    fault.append(label);
    fault.append(", name: ");
    fault.append(name);
    fault
}

fn integer_at(row: &Vec<SqlValue>, index: usize, label: &str, name: &str) -> (result: Result<i64, String>)
    ensures
        plain_result(result) == integer_column(row_data(row@), index as int, label@, name@),
{
    if index >= row.len() {
        return Err(missing(label));
    }
    match &row[index] {
        SqlValue::Integer(n) => Ok(*n),
        other => Err(mistyped(other, label, name)),
    }
}

fn optional_integer_at(row: &Vec<SqlValue>, index: usize, label: &str, name: &str) -> (result: Result<Option<i64>, String>)
    ensures
        plain_result(result) == optional_integer_column(row_data(row@), index as int, label@, name@),
{
    if index >= row.len() {
        return Err(missing(label));
    }
    match &row[index] {
        SqlValue::Null => Ok(None),
        SqlValue::Integer(n) => Ok(Some(*n)),
        other => Err(mistyped(other, label, name)),
    }
}

fn text_at(row: &Vec<SqlValue>, index: usize, label: &str, name: &str) -> (result: Result<String, String>)
    ensures
        text_result(result) == text_column(row_data(row@), index as int, label@, name@),
{
    if index >= row.len() {
        return Err(missing(label));
    }
    match &row[index] {
        SqlValue::Text(s) => Ok(s.clone()),
        other => Err(mistyped(other, label, name)),
    }
}

fn optional_text_at(row: &Vec<SqlValue>, index: usize, label: &str, name: &str) -> (result: Result<Option<String>, String>)
    ensures
        optional_text_result(result) == optional_text_column(row_data(row@), index as int, label@, name@),
{
    if index >= row.len() {
        return Err(missing(label));
    }
    match &row[index] {
        SqlValue::Null => Ok(None),
        SqlValue::Text(s) => Ok(Some(s.clone())),
        other => Err(mistyped(other, label, name)),
    }
}

fn rating_at(row: &Vec<SqlValue>, index: usize, label: &str, name: &str) -> (result: Result<Option<Rating>, String>)
    ensures
        plain_result(result) == rating_column(row_data(row@), index as int, label@, name@),
{
    if index >= row.len() {
        return Err(missing(label));
    }
    match &row[index] {
        SqlValue::Null => Ok(None),
        SqlValue::Integer(n) => Ok(Some(Rating::Whole(*n))),
        SqlValue::Real(bits) => Ok(Some(Rating::Real(*bits))),
        other => Err(mistyped(other, label, name)),
    }
}

/// Reads one row as a video.
pub fn video_from_row(row: &Vec<SqlValue>) -> (result: Result<Video, String>)
    ensures
        video_result(result) == decoded_video(row_data(row@)),
{
    let id = match integer_at(row, 0, "0", "id") {
        Ok(n) => n,
        Err(fault) => { return Err(fault); },
    };
    let uuid = match text_at(row, 1, "1", "uuid") {
        Ok(s) => s,
        Err(fault) => { return Err(fault); },
    };
    let path = match text_at(row, 2, "2", "path") {
        Ok(s) => s,
        Err(fault) => { return Err(fault); },
    };
    let title = match optional_text_at(row, 3, "3", "title") {
        Ok(s) => s,
        Err(fault) => { return Err(fault); },
    };
    let duration = match optional_integer_at(row, 4, "4", "duration") {
        Ok(n) => n,
        Err(fault) => { return Err(fault); },
    };
    let rating = match rating_at(row, 5, "5", "rating") {
        Ok(r) => r,
        Err(fault) => { return Err(fault); },
    };
    let watch_count = match integer_at(row, 6, "6", "watch_count") {
        Ok(n) => n,
        Err(fault) => { return Err(fault); },
    };
    let favorite = match integer_at(row, 7, "7", "favorite") {
        Ok(n) => n,
        Err(fault) => { return Err(fault); },
    };
    Ok(Video { id, uuid, path, title, duration, rating, watch_count, favorite })
}

/// Reads one row as a setting.
pub fn setting_from_row(row: &Vec<SqlValue>) -> (result: Result<Setting, String>)
    ensures
        setting_result(result) == decoded_setting(row_data(row@)),
{
    let key = match text_at(row, 0, "0", "key") {
        Ok(s) => s,
        Err(fault) => { return Err(fault); },
    };
    let value = match text_at(row, 1, "1", "value") {
        Ok(s) => s,
        Err(fault) => { return Err(fault); },
    };
    Ok(Setting { key, value })
}

/// Reads the first column of a row as the value of a setting.
pub fn setting_value_from_row(row: &Vec<SqlValue>) -> (result: Result<String, String>)
    ensures
        text_result(result) == decoded_setting_value(row_data(row@)),
{
    text_at(row, 0, "0", "value")
}

/// Reads a result set as videos, in its order, and stops at the first row
/// that is none.
pub fn videos_from_rows(rows: &Vec<Vec<SqlValue>>) -> (result: Result<Vec<Video>, String>)
    ensures
        videos_result(result) == decoded_videos(table_data(rows@)),
{
    let ghost results = table_data(rows@).map_values(|row: Seq<SqlDatum>| decoded_video(row));
    let mut videos: Vec<Video> = Vec::new();
    let mut i: usize = 0;
    while i < rows.len()
        invariant
            0 <= i <= rows.len(),
            videos.len() == i,
            results == table_data(rows@).map_values(|row: Seq<SqlDatum>| decoded_video(row)),
            forall|j: int| 0 <= j < i ==> (#[trigger] results[j]) == Ok::<VideoData, Seq<char>>(videos@[j]@),
        decreases rows.len() - i,
    {
        match video_from_row(&rows[i]) {
            Ok(video) => {
                videos.push(video);
            },
            Err(fault) => {
                proof {
                    assert(results[i as int] == decoded_video(row_data(rows@[i as int]@)));
                    lemma_collected_fault(results, i as int);
                }
                return Err(fault);
            },
        }
        proof {
            assert(results[i as int] == decoded_video(row_data(rows@[i as int]@)));
        }
        i += 1;
    }
    proof {
        lemma_collected_values(results, videos_data(videos@));
    }
    Ok(videos)
}

/// Reads a result set as settings, in its order, and stops at the first row
/// that is none.
pub fn settings_from_rows(rows: &Vec<Vec<SqlValue>>) -> (result: Result<Vec<Setting>, String>)
    ensures
        settings_result(result) == decoded_settings(table_data(rows@)),
{
    let ghost results = table_data(rows@).map_values(|row: Seq<SqlDatum>| decoded_setting(row));
    let mut settings: Vec<Setting> = Vec::new();
    let mut i: usize = 0;
    while i < rows.len()
        invariant
            0 <= i <= rows.len(),
            settings.len() == i,
            results == table_data(rows@).map_values(|row: Seq<SqlDatum>| decoded_setting(row)),
            forall|j: int| 0 <= j < i ==> (#[trigger] results[j]) == Ok::<SettingData, Seq<char>>(settings@[j]@),
        decreases rows.len() - i,
    {
        match setting_from_row(&rows[i]) {
            Ok(setting) => {
                settings.push(setting);
            },
            Err(fault) => {
                proof {
                    assert(results[i as int] == decoded_setting(row_data(rows@[i as int]@)));
                    lemma_collected_fault(results, i as int);
                }
                return Err(fault);
            },
        }
        proof {
            assert(results[i as int] == decoded_setting(row_data(rows@[i as int]@)));
        }
        i += 1;
    }
    proof {
        lemma_collected_values(results, settings_data(settings@));
    }
    Ok(settings)
}

} // verus!
