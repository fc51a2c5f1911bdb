//! The records of the catalog.

use vstd::prelude::*;

verus! {

/// A score as the store holds it: a whole number, or the bit pattern of an
/// IEEE-754 double. The library stores and returns it unread.
#[derive(Debug, Clone, Copy, PartialEq, Eq, Structural)]
pub enum Rating {
    Whole(i64),
    Real(u64),
}

/// One cataloged video file.
#[derive(Debug, Clone, PartialEq, Eq)]
pub struct Video {
    pub id: i64,
    pub uuid: String,
    pub path: String,
    pub title: Option<String>,
    pub duration: Option<i64>,
    pub rating: Option<Rating>,
    pub watch_count: i64,
    pub favorite: i64,
}

/// What a [`Video`] is, with its texts as sequences.
pub struct VideoData {
    pub id: i64,
    pub uuid: Seq<char>,
    pub path: Seq<char>,
    pub title: Option<Seq<char>>,
    pub duration: Option<i64>,
    pub rating: Option<Rating>,
    pub watch_count: i64,
    pub favorite: i64,
}

/// The text behind an optional string.
pub open spec fn text_of(value: Option<String>) -> Option<Seq<char>> {
    match value {
        Some(s) => Some(s@),
        None => None,
    }
}

impl View for Video {
    type V = VideoData;

    open spec fn view(&self) -> VideoData {
        VideoData {
            id: self.id,
            uuid: self.uuid@,
            path: self.path@,
            title: text_of(self.title),
            duration: self.duration,
            rating: self.rating,
            watch_count: self.watch_count,
            favorite: self.favorite,
        }
    }
}

/// The record of a video that was just added: never watched, not rated, no
/// favorite.
pub open spec fn created_video(
    id: i64,
    uuid: Seq<char>,
    path: Seq<char>,
    title: Option<Seq<char>>,
    duration: Option<i64>,
) -> VideoData {
    VideoData { id, uuid, path, title, duration, rating: None, watch_count: 0, favorite: 0 }
}

impl Video {
    /// The record of the video that the store has just taken under `id`.
    pub fn created(id: i64, uuid: String, path: String, title: Option<String>, duration: Option<i64>) -> (video: Video)
        ensures
            video@ == created_video(id, uuid@, path@, text_of(title), duration),
    {
        Video { id, uuid, path, title, duration, rating: None, watch_count: 0, favorite: 0 }
    }
}

/// The records of a listing, one by one.
pub open spec fn videos_data(videos: Seq<Video>) -> Seq<VideoData> {
    videos.map_values(|v: Video| v@)
}

/// One key/value pair of the settings.
#[derive(Debug, Clone, PartialEq, Eq)]
pub struct Setting {
    pub key: String,
    pub value: String,
}

/// What a [`Setting`] is, with its texts as sequences.
pub struct SettingData {
    pub key: Seq<char>,
    pub value: Seq<char>,
}

impl View for Setting {
    type V = SettingData;

    open spec fn view(&self) -> SettingData {
        SettingData { key: self.key@, value: self.value@ }
    }
}

/// The pairs of a listing, one by one.
pub open spec fn settings_data(settings: Seq<Setting>) -> Seq<SettingData> {
    settings.map_values(|s: Setting| s@)
}

} // verus!
