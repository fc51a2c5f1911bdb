use media_catalog::commands::{
    add_like, add_video, delete_video, get_setting, get_video, get_video_by_path, increment_view,
    list_favorites, list_recent, list_settings, list_videos, set_favorite, set_setting, statement_error,
    update_video_duration_by_path,
};
use media_catalog::db::database::init_db;
use media_catalog::db::error::StoreError;
use media_catalog::db::model::{Rating, Setting, Video};
use media_catalog::db::schema::init_schema;
use rusqlite::Connection;

fn store() -> Connection {
    let conn = Connection::open_in_memory().unwrap();
    init_schema(&conn).unwrap();
    conn
}

fn add(conn: &Connection, path: &str) -> Video {
    add_video(conn, path.to_string(), None, None).unwrap()
}

fn watched_at(conn: &Connection, id: i64, at: &str) {
    conn.execute("UPDATE videos SET last_watched = ?1 WHERE id = ?2", (at, id)).unwrap();
}

fn added_at(conn: &Connection, id: i64, at: &str) {
    conn.execute("UPDATE videos SET added_at = ?1 WHERE id = ?2", (at, id)).unwrap();
}

fn count(conn: &Connection, sql: &str) -> i64 {
    conn.query_row(sql, [], |row| row.get(0)).unwrap()
}

fn ids(videos: &Vec<Video>) -> Vec<i64> {
    videos.iter().map(|v| v.id).collect()
}

fn is_hex(c: char) -> bool {
    c.is_ascii_digit() || ('a'..='f').contains(&c)
}

#[test]
fn empty_store_lists_nothing() {
    let conn = store();
    assert_eq!(list_videos(&conn), Ok(vec![]));
    assert_eq!(list_recent(&conn, None, None), Ok(vec![]));
    assert_eq!(list_favorites(&conn, None, None), Ok(vec![]));
    assert_eq!(list_settings(&conn), Ok(vec![]));
}

#[test]
fn add_returns_the_created_record() {
    let conn = store();
    let video = add_video(&conn, "/movies/a.mp4".to_string(), Some("A".to_string()), Some(120)).unwrap();
    assert_eq!(video.id, 1);
    assert_eq!(video.path, "/movies/a.mp4");
    assert_eq!(video.title, Some("A".to_string()));
    assert_eq!(video.duration, Some(120));
    assert_eq!(video.rating, None);
    assert_eq!(video.watch_count, 0);
    assert_eq!(video.favorite, 0);
    let found = get_video_by_path(&conn, "/movies/a.mp4".to_string()).unwrap();
    assert_eq!(found, Some(video.clone()));
    assert_eq!(get_video(&conn, video.id).unwrap(), Some(video));
}

#[test]
fn add_gives_a_random_uuid_in_hyphenated_lower_case() {
    let conn = store();
    let first = add(&conn, "/movies/a.mp4");
    let second = add(&conn, "/movies/b.mp4");
    assert_ne!(first.uuid, second.uuid);
    let chars: Vec<char> = first.uuid.chars().collect();
    assert_eq!(chars.len(), 36);
    for (i, c) in chars.iter().enumerate() {
        if i == 8 || i == 13 || i == 18 || i == 23 {
            assert_eq!(*c, '-');
        } else {
            assert!(is_hex(*c));
        }
    }
    assert_eq!(chars[14], '4');
    assert!(matches!(chars[19], '8' | '9' | 'a' | 'b'));
}

#[test]
fn add_without_title_and_duration_stores_nulls() {
    let conn = store();
    let video = add(&conn, "/movies/plain.mkv");
    assert_eq!(video.title, None);
    assert_eq!(video.duration, None);
    assert_eq!(get_video(&conn, video.id).unwrap(), Some(video));
    assert_eq!(count(&conn, "SELECT COUNT(*) FROM videos WHERE title IS NULL AND duration IS NULL"), 1);
}

#[test]
fn add_assigns_ascending_ids() {
    let conn = store();
    assert_eq!(add(&conn, "/a").id, 1);
    assert_eq!(add(&conn, "/b").id, 2);
    assert_eq!(add(&conn, "/c").id, 3);
}

#[test]
fn adding_a_path_twice_is_a_constraint_violation() {
    let conn = store();
    add_video(&conn, "/movies/a.mp4".to_string(), Some("A".to_string()), Some(120)).unwrap();
    let second = add_video(&conn, "/movies/a.mp4".to_string(), Some("B".to_string()), None);
    assert!(matches!(second, Err(StoreError::ConstraintViolation(_))));
    assert_eq!(count(&conn, "SELECT COUNT(*) FROM videos WHERE path = '/movies/a.mp4'"), 1);
    assert_eq!(count(&conn, "SELECT COUNT(*) FROM videos"), 1);
    let kept = get_video_by_path(&conn, "/movies/a.mp4".to_string()).unwrap().unwrap();
    assert_eq!(kept.title, Some("A".to_string()));
}

#[test]
fn constraint_violation_carries_the_message_of_the_store() {
    let conn = store();
    add(&conn, "/movies/a.mp4");
    let error = add_video(&conn, "/movies/a.mp4".to_string(), None, None).unwrap_err();
    assert_eq!(error.message(), "UNIQUE constraint failed: videos.path");
}

#[test]
fn watching_counts_each_watch_and_moves_the_time_forward() {
    let conn = store();
    let video = add(&conn, "/movies/a.mp4");
    watched_at(&conn, video.id, "2001-01-01 00:00:00");
    let before: String =
        conn.query_row("SELECT last_watched FROM videos WHERE id = ?1", [video.id], |row| row.get(0)).unwrap();
    for _ in 0..5 {
        assert_eq!(increment_view(&conn, video.id), Ok(()));
    }
    let after = get_video(&conn, video.id).unwrap().unwrap();
    assert_eq!(after.watch_count, 5);
    let last: String =
        conn.query_row("SELECT last_watched FROM videos WHERE id = ?1", [video.id], |row| row.get(0)).unwrap();
    assert!(last >= before);
    assert_ne!(last, before);
}

#[test]
fn first_watch_sets_the_time() {
    let conn = store();
    let video = add(&conn, "/movies/a.mp4");
    assert_eq!(count(&conn, "SELECT COUNT(*) FROM videos WHERE last_watched IS NULL"), 1);
    increment_view(&conn, video.id).unwrap();
    assert_eq!(count(&conn, "SELECT COUNT(*) FROM videos WHERE last_watched IS NULL"), 0);
    assert_eq!(get_video(&conn, video.id).unwrap().unwrap().watch_count, 1);
}

#[test]
fn watching_an_unknown_id_succeeds_without_effect() {
    let conn = store();
    let video = add(&conn, "/movies/a.mp4");
    assert_eq!(increment_view(&conn, 999), Ok(()));
    assert_eq!(get_video(&conn, video.id).unwrap().unwrap().watch_count, 0);
    assert_eq!(count(&conn, "SELECT COUNT(*) FROM videos"), 1);
}

#[test]
fn a_like_counts_as_a_watch() {
    let conn = store();
    let video = add(&conn, "/movies/a.mp4");
    assert_eq!(add_like(&conn, video.id), Ok(()));
    assert_eq!(add_like(&conn, video.id), Ok(()));
    assert_eq!(get_video(&conn, video.id).unwrap().unwrap().watch_count, 2);
}

#[test]
fn favorites_are_exactly_the_flagged_rows_by_recency() {
    let conn = store();
    let a = add(&conn, "/a");
    let b = add(&conn, "/b");
    let c = add(&conn, "/c");
    let d = add(&conn, "/d");
    let e = add(&conn, "/e");
    added_at(&conn, a.id, "2020-01-01 00:00:00");
    added_at(&conn, b.id, "2020-01-02 00:00:00");
    added_at(&conn, c.id, "2020-01-03 00:00:00");
    added_at(&conn, d.id, "2020-01-04 00:00:00");
    added_at(&conn, e.id, "2020-01-05 00:00:00");
    watched_at(&conn, a.id, "2021-06-01 00:00:00");
    set_favorite(&conn, a.id, true).unwrap();
    set_favorite(&conn, c.id, true).unwrap();
    set_favorite(&conn, d.id, true).unwrap();
    let favorites = list_favorites(&conn, None, None).unwrap();
    assert_eq!(ids(&favorites), vec![a.id, d.id, c.id]);
    assert!(favorites.iter().all(|v| v.favorite == 1));
    for n in 0..20 {
        add(&conn, &format!("/other/{}", n));
    }
    assert_eq!(ids(&list_favorites(&conn, None, None).unwrap()), vec![a.id, d.id, c.id]);
    set_favorite(&conn, d.id, false).unwrap();
    assert_eq!(ids(&list_favorites(&conn, None, None).unwrap()), vec![a.id, c.id]);
    assert_eq!(get_video(&conn, d.id).unwrap().unwrap().favorite, 0);
    assert_eq!(b.favorite, 0);
    assert_eq!(e.favorite, 0);
}

#[test]
fn favorites_take_limit_and_offset_independently() {
    let conn = store();
    let mut all = Vec::new();
    for n in 1..=4 {
        let v = add(&conn, &format!("/f/{}", n));
        added_at(&conn, v.id, &format!("2020-01-0{} 00:00:00", n));
        set_favorite(&conn, v.id, true).unwrap();
        all.push(v.id);
    }
    assert_eq!(ids(&list_favorites(&conn, None, None).unwrap()), vec![4, 3, 2, 1]);
    assert_eq!(ids(&list_favorites(&conn, Some(2), None).unwrap()), vec![4, 3]);
    assert_eq!(ids(&list_favorites(&conn, None, Some(1)).unwrap()), vec![3, 2, 1]);
    assert_eq!(ids(&list_favorites(&conn, Some(2), Some(1)).unwrap()), vec![3, 2]);
    assert_eq!(ids(&list_favorites(&conn, Some(0), None).unwrap()), Vec::<i64>::new());
    assert_eq!(ids(&list_favorites(&conn, Some(10), Some(10)).unwrap()), Vec::<i64>::new());
    assert_eq!(all, vec![1, 2, 3, 4]);
}

#[test]
fn recent_page_of_two_after_one_is_second_and_third() {
    let conn = store();
    let mut videos = Vec::new();
    for n in 1..=5 {
        let v = add(&conn, &format!("/r/{}", n));
        watched_at(&conn, v.id, &format!("2022-03-0{} 12:00:00", n));
        videos.push(v);
    }
    let page = list_recent(&conn, Some(2), Some(1)).unwrap();
    assert_eq!(ids(&page), vec![4, 3]);
    assert_eq!(page[0].path, "/r/4");
    assert_eq!(page[1].path, "/r/3");
}

#[test]
fn recent_takes_limit_and_offset_independently() {
    let conn = store();
    for n in 1..=5 {
        let v = add(&conn, &format!("/r/{}", n));
        watched_at(&conn, v.id, &format!("2022-03-0{} 12:00:00", n));
    }
    assert_eq!(ids(&list_recent(&conn, None, None).unwrap()), vec![5, 4, 3, 2, 1]);
    assert_eq!(ids(&list_recent(&conn, Some(3), None).unwrap()), vec![5, 4, 3]);
    assert_eq!(ids(&list_recent(&conn, None, Some(2)).unwrap()), vec![3, 2, 1]);
    assert_eq!(ids(&list_recent(&conn, Some(2), Some(1)).unwrap()), vec![4, 3]);
    assert_eq!(ids(&list_recent(&conn, Some(-1), Some(0)).unwrap()), vec![5, 4, 3, 2, 1]);
    assert_eq!(ids(&list_recent(&conn, Some(0), Some(0)).unwrap()), Vec::<i64>::new());
    assert_eq!(ids(&list_recent(&conn, None, Some(5)).unwrap()), Vec::<i64>::new());
}

#[test]
fn recent_leaves_out_what_was_never_watched() {
    let conn = store();
    let a = add(&conn, "/a");
    let b = add(&conn, "/b");
    let c = add(&conn, "/c");
    watched_at(&conn, b.id, "2022-03-01 12:00:00");
    assert_eq!(ids(&list_recent(&conn, None, None).unwrap()), vec![b.id]);
    increment_view(&conn, c.id).unwrap();
    assert_eq!(ids(&list_recent(&conn, None, None).unwrap()), vec![c.id, b.id]);
    assert_eq!(ids(&list_recent(&conn, Some(1), None).unwrap()), vec![c.id]);
    assert_eq!(a.watch_count, 0);
}

#[test]
fn all_videos_come_by_last_watch_or_else_addition() {
    let conn = store();
    let a = add(&conn, "/a");
    let b = add(&conn, "/b");
    let c = add(&conn, "/c");
    added_at(&conn, a.id, "2020-01-01 00:00:00");
    added_at(&conn, b.id, "2020-01-02 00:00:00");
    added_at(&conn, c.id, "2020-01-03 00:00:00");
    assert_eq!(ids(&list_videos(&conn).unwrap()), vec![c.id, b.id, a.id]);
    watched_at(&conn, a.id, "2020-01-02 12:00:00");
    assert_eq!(ids(&list_videos(&conn).unwrap()), vec![c.id, a.id, b.id]);
    watched_at(&conn, b.id, "2020-02-01 00:00:00");
    assert_eq!(ids(&list_videos(&conn).unwrap()), vec![b.id, c.id, a.id]);
}

#[test]
fn a_deleted_id_is_not_found() {
    let conn = store();
    let video = add(&conn, "/movies/a.mp4");
    let other = add(&conn, "/movies/b.mp4");
    assert_eq!(delete_video(&conn, video.id), Ok(()));
    assert_eq!(get_video(&conn, video.id), Ok(None));
    assert_eq!(get_video_by_path(&conn, "/movies/a.mp4".to_string()), Ok(None));
    assert_eq!(get_video(&conn, other.id), Ok(Some(other)));
}

#[test]
fn deleting_an_unknown_id_succeeds_without_effect() {
    let conn = store();
    add(&conn, "/movies/a.mp4");
    assert_eq!(delete_video(&conn, 42), Ok(()));
    assert_eq!(count(&conn, "SELECT COUNT(*) FROM videos"), 1);
}

#[test]
fn a_deleted_path_can_be_added_again_under_a_new_id() {
    let conn = store();
    let first = add(&conn, "/movies/a.mp4");
    delete_video(&conn, first.id).unwrap();
    let second = add(&conn, "/movies/a.mp4");
    assert_ne!(second.id, first.id);
    assert_ne!(second.uuid, first.uuid);
}

#[test]
fn an_unknown_id_or_path_is_not_found() {
    let conn = store();
    assert_eq!(get_video(&conn, 1), Ok(None));
    assert_eq!(get_video_by_path(&conn, "/nowhere".to_string()), Ok(None));
}

#[test]
fn duration_is_overwritten_by_path() {
    let conn = store();
    let video = add_video(&conn, "/movies/a.mp4".to_string(), None, Some(10)).unwrap();
    let other = add_video(&conn, "/movies/b.mp4".to_string(), None, Some(20)).unwrap();
    assert_eq!(update_video_duration_by_path(&conn, "/movies/a.mp4".to_string(), 7200), Ok(()));
    assert_eq!(get_video(&conn, video.id).unwrap().unwrap().duration, Some(7200));
    assert_eq!(get_video(&conn, other.id).unwrap().unwrap().duration, Some(20));
    assert_eq!(update_video_duration_by_path(&conn, "/nowhere".to_string(), 1), Ok(()));
    assert_eq!(count(&conn, "SELECT COUNT(*) FROM videos WHERE duration = 1"), 0);
}

#[test]
fn favorite_flag_is_stored_as_one_or_zero() {
    let conn = store();
    let video = add(&conn, "/movies/a.mp4");
    set_favorite(&conn, video.id, true).unwrap();
    assert_eq!(get_video(&conn, video.id).unwrap().unwrap().favorite, 1);
    set_favorite(&conn, video.id, true).unwrap();
    assert_eq!(get_video(&conn, video.id).unwrap().unwrap().favorite, 1);
    set_favorite(&conn, video.id, false).unwrap();
    assert_eq!(get_video(&conn, video.id).unwrap().unwrap().favorite, 0);
    assert_eq!(set_favorite(&conn, 77, true), Ok(()));
}

#[test]
fn a_rating_comes_back_as_the_bits_of_its_double() {
    let conn = store();
    let video = add(&conn, "/movies/a.mp4");
    conn.execute("UPDATE videos SET rating = ?1 WHERE id = ?2", (4.5f64, video.id)).unwrap();
    let found = get_video(&conn, video.id).unwrap().unwrap();
    assert_eq!(found.rating, Some(Rating::Real(4.5f64.to_bits())));
    conn.execute("UPDATE videos SET rating = ?1 WHERE id = ?2", (3i64, video.id)).unwrap();
    let found = get_video(&conn, video.id).unwrap().unwrap();
    assert_eq!(found.rating, Some(Rating::Real(3.0f64.to_bits())));
    conn.execute("UPDATE videos SET rating = NULL WHERE id = ?1", [video.id]).unwrap();
    assert_eq!(get_video(&conn, video.id).unwrap().unwrap().rating, None);
}

#[test]
fn a_row_of_the_wrong_type_is_a_query_failure() {
    let conn = store();
    let video = add(&conn, "/movies/a.mp4");
    conn.execute("UPDATE videos SET duration = 'long' WHERE id = ?1", [video.id]).unwrap();
    let expected = conn
        .query_row("SELECT duration FROM videos WHERE id = ?1", [video.id], |row| row.get::<usize, Option<i64>>(0))
        .unwrap_err()
        .to_string()
        .replace("index: 0", "index: 4");
    assert_eq!(expected, "Invalid column type Text at index: 4, name: duration");
    assert_eq!(get_video(&conn, video.id), Err(StoreError::QueryFailure(expected.clone())));
    assert_eq!(list_videos(&conn), Err(StoreError::QueryFailure(expected)));
}

#[test]
fn a_missing_relation_is_a_query_failure() {
    let conn = Connection::open_in_memory().unwrap();
    assert_eq!(list_videos(&conn), Err(StoreError::QueryFailure("no such table: videos".to_string())));
    assert_eq!(get_setting(&conn, "k".to_string()), Err(StoreError::QueryFailure("no such table: settings".to_string())));
    assert_eq!(increment_view(&conn, 1), Err(StoreError::QueryFailure("no such table: videos".to_string())));
    assert!(matches!(add_video(&conn, "/a".to_string(), None, None), Err(StoreError::QueryFailure(_))));
}

#[test]
fn a_setting_is_absent_until_it_is_set() {
    let conn = store();
    assert_eq!(get_setting(&conn, "theme".to_string()), Ok(None));
    assert_eq!(set_setting(&conn, "theme".to_string(), "dark".to_string()), Ok(()));
    assert_eq!(get_setting(&conn, "theme".to_string()), Ok(Some("dark".to_string())));
    assert_eq!(get_setting(&conn, "Theme".to_string()), Ok(None));
}

#[test]
fn setting_a_key_twice_keeps_one_row_with_the_latest_value() {
    let conn = store();
    assert_eq!(set_setting(&conn, "volume".to_string(), "10".to_string()), Ok(()));
    assert_eq!(set_setting(&conn, "volume".to_string(), "80".to_string()), Ok(()));
    assert_eq!(count(&conn, "SELECT COUNT(*) FROM settings WHERE key = 'volume'"), 1);
    assert_eq!(count(&conn, "SELECT COUNT(*) FROM settings"), 1);
    assert_eq!(get_setting(&conn, "volume".to_string()), Ok(Some("80".to_string())));
    for n in 0..10 {
        set_setting(&conn, "volume".to_string(), format!("{}", n)).unwrap();
    }
    assert_eq!(count(&conn, "SELECT COUNT(*) FROM settings"), 1);
    assert_eq!(get_setting(&conn, "volume".to_string()), Ok(Some("9".to_string())));
}

#[test]
fn settings_come_by_ascending_key() {
    let conn = store();
    set_setting(&conn, "volume".to_string(), "80".to_string()).unwrap();
    set_setting(&conn, "autoplay".to_string(), "on".to_string()).unwrap();
    set_setting(&conn, "theme".to_string(), "dark".to_string()).unwrap();
    assert_eq!(
        list_settings(&conn),
        Ok(vec![
            Setting { key: "autoplay".to_string(), value: "on".to_string() },
            Setting { key: "theme".to_string(), value: "dark".to_string() },
            Setting { key: "volume".to_string(), value: "80".to_string() },
        ])
    );
}

#[test]
fn the_schema_can_be_applied_again_and_keeps_the_rows() {
    let conn = store();
    let video = add(&conn, "/movies/a.mp4");
    set_setting(&conn, "theme".to_string(), "dark".to_string()).unwrap();
    assert_eq!(init_schema(&conn), Ok(()));
    assert_eq!(init_schema(&conn), Ok(()));
    assert_eq!(list_videos(&conn), Ok(vec![video]));
    assert_eq!(get_setting(&conn, "theme".to_string()), Ok(Some("dark".to_string())));
}

#[test]
fn the_schema_has_both_relations_and_the_three_indexes() {
    let conn = store();
    assert_eq!(count(&conn, "SELECT COUNT(*) FROM sqlite_master WHERE type = 'table' AND name IN ('videos', 'settings')"), 2);
    assert_eq!(
        count(&conn, "SELECT COUNT(*) FROM sqlite_master WHERE type = 'index' AND name IN ('idx_path', 'idx_title', 'idx_rating')"),
        3
    );
}

#[test]
fn a_database_is_opened_with_its_schema() {
    let conn = init_db(":memory:").unwrap();
    assert_eq!(list_videos(&conn), Ok(vec![]));
    let video = add(&conn, "/movies/a.mp4");
    assert_eq!(list_videos(&conn), Ok(vec![video]));
}

#[test]
fn a_database_that_cannot_be_opened_is_unavailable() {
    let result = init_db("/no/such/directory/anywhere/videos.db");
    assert!(matches!(result, Err(StoreError::StoreUnavailable(_))));
}

#[test]
fn an_outside_error_is_classified_like_the_library_s_own() {
    let conn = store();
    add(&conn, "/movies/a.mp4");
    let duplicate = conn
        .execute("INSERT INTO videos (uuid, path) VALUES ('u', '/movies/a.mp4')", [])
        .unwrap_err();
    assert_eq!(
        statement_error(&duplicate),
        StoreError::ConstraintViolation("UNIQUE constraint failed: videos.path".to_string())
    );
    let malformed = conn.execute("UPDATE shelves SET x = 1", []).unwrap_err();
    assert_eq!(statement_error(&malformed), StoreError::QueryFailure("no such table: shelves".to_string()));
    let none = conn.query_row("SELECT 1 WHERE 0", [], |row| row.get::<usize, i64>(0)).unwrap_err();
    assert_eq!(statement_error(&none), StoreError::QueryFailure("Query returned no rows".to_string()));
}

#[test]
fn a_text_that_is_not_utf8_is_a_query_failure() {
    let conn = store();
    let video = add(&conn, "/movies/a.mp4");
    conn.execute("UPDATE videos SET title = CAST(x'ff' AS TEXT) WHERE id = ?1", [video.id]).unwrap();
    let expected = conn
        .query_row("SELECT id, uuid, path, title FROM videos WHERE id = ?1", [video.id], |row| {
            row.get::<usize, rusqlite::types::Value>(3)
        })
        .unwrap_err()
        .to_string();
    assert!(expected.ends_with("at index 3"));
    assert_eq!(get_video(&conn, video.id), Err(StoreError::QueryFailure(expected.clone())));
    assert_eq!(list_videos(&conn), Err(StoreError::QueryFailure(expected)));
}

#[test]
fn every_column_of_every_row_is_read_in_order() {
    let conn = store();
    let first = add_video(&conn, "/movies/a.mp4".to_string(), Some("A".to_string()), Some(1)).unwrap();
    let second = add_video(&conn, "/movies/b.mp4".to_string(), None, Some(2)).unwrap();
    added_at(&conn, first.id, "2020-01-01 00:00:00");
    added_at(&conn, second.id, "2020-01-02 00:00:00");
    set_favorite(&conn, first.id, true).unwrap();
    increment_view(&conn, second.id).unwrap();
    watched_at(&conn, second.id, "2020-01-03 00:00:00");
    let listed = list_videos(&conn).unwrap();
    assert_eq!(listed.len(), 2);
    assert_eq!(
        listed[0],
        Video {
            id: second.id,
            uuid: second.uuid.clone(),
            path: "/movies/b.mp4".to_string(),
            title: None,
            duration: Some(2),
            rating: None,
            watch_count: 1,
            favorite: 0,
        }
    );
    assert_eq!(
        listed[1],
        Video {
            id: first.id,
            uuid: first.uuid.clone(),
            path: "/movies/a.mp4".to_string(),
            title: Some("A".to_string()),
            duration: Some(1),
            rating: None,
            watch_count: 0,
            favorite: 1,
        }
    );
}
