use cinematic::database::catalogue::has_fitting_counts;
use cinematic::database::catalogue::Database;
use cinematic::database::catalogue::StatsStep;
use cinematic::database::cells::CellError;
use cinematic::database::cells::CellFault;
use cinematic::database::cells::SqlCell;
use cinematic::database::cells::SqlParam;
use cinematic::database::cells::Statement;
use cinematic::database::rows::read_collections;
use cinematic::database::rows::read_first_texts;
use cinematic::database::rows::read_found_collection;
use cinematic::database::rows::read_found_video;
use cinematic::database::rows::read_libraries;
use cinematic::database::rows::read_video;
use cinematic::database::rows::read_videos;
use cinematic::double::Double;
use cinematic::models::Collection;
use cinematic::models::Library;
use cinematic::models::LibraryStats;
use cinematic::models::VideoRecord;
use cinematic::progress::ProgressUpdate;
use rusqlite::types::Value;
use rusqlite::types::ValueRef;
use rusqlite::Connection;

fn d(x: f64) -> Double {
    Double { bits: x.to_bits() }
}

fn values(statement: &Statement) -> Vec<Value> {
    statement
        .params
        .iter()
        .map(|p| match p {
            SqlParam::Null => Value::Null,
            SqlParam::Integer(n) => Value::Integer(*n),
            SqlParam::Real(x) => Value::Real(f64::from_bits(x.bits)),
            SqlParam::Text(t) => Value::Text(t.clone()),
        })
        .collect()
}

fn execute(conn: &Connection, statement: &Statement) -> usize {
    conn.execute(&statement.sql, rusqlite::params_from_iter(values(statement))).unwrap()
}

fn execute_all(conn: &Connection, statements: &[Statement]) {
    for statement in statements {
        execute(conn, statement);
    }
}

fn cell(value: ValueRef<'_>) -> SqlCell {
    match value {
        ValueRef::Null => SqlCell::Null,
        ValueRef::Integer(n) => SqlCell::Integer(n, d(n as f64)),
        ValueRef::Real(x) => SqlCell::Real(d(x)),
        ValueRef::Text(t) => match std::str::from_utf8(t) {
            Ok(t) => SqlCell::Text(t.to_string()),
            Err(_) => SqlCell::BadText,
        },
        ValueRef::Blob(_) => SqlCell::Other,
    }
}

fn query(conn: &Connection, statement: &Statement) -> Vec<Vec<SqlCell>> {
    let mut prepared = conn.prepare(&statement.sql).unwrap();
    let count = prepared.column_count();
    let mut rows = prepared.query(rusqlite::params_from_iter(values(statement))).unwrap();
    let mut out = Vec::new();
    while let Some(row) = rows.next().unwrap() {
        out.push((0..count).map(|i| cell(row.get_ref(i).unwrap())).collect());
    }
    out
}

fn first(conn: &Connection, statement: &Statement) -> Option<Vec<SqlCell>> {
    query(conn, statement).into_iter().next()
}

fn fresh() -> Connection {
    let conn = Connection::open_in_memory().unwrap();
    let set_up = Database.initialize_tables();
    conn.execute_batch(&set_up.batch).unwrap();
    let failure = conn.execute(&set_up.upgrade.sql, []).err().map(|e| e.to_string());
    assert!(failure.is_some());
    Database.upgrade_outcome(failure).unwrap();
    conn
}

fn stocked() -> Connection {
    let conn = fresh();
    for id in ["l", "m", "other"] {
        let library = Library {
            id: id.to_string(),
            path: format!("/library/{id}"),
            name: id.to_string(),
            created_at: "2024-01-01".to_string(),
        };
        execute(&conn, &Database.insert_library(&library));
    }
    conn
}

fn video(id: &str, library: &str, path: &str) -> VideoRecord {
    VideoRecord {
        id: id.to_string(),
        library_id: library.to_string(),
        path: path.to_string(),
        title: format!("Title {id}"),
        file_name: format!("{id}.mkv"),
        file_size: 1000,
        duration_secs: None,
        width: None,
        height: None,
        thumbnail_path: None,
        watched: 0,
        watch_progress_secs: d(0.0),
        favorite: 0,
        date_added: format!("2024-01-0{}", id.len()),
        date_modified: "2024-01-01".to_string(),
    }
}

fn get(conn: &Connection, id: &str) -> VideoRecord {
    read_found_video(&first(conn, &Database.get_video_by_id(id))).unwrap().unwrap()
}

fn ids(videos: &[VideoRecord]) -> Vec<&str> {
    videos.iter().map(|v| v.id.as_str()).collect()
}

#[test]
fn tables_are_made_once_and_again() {
    let conn = fresh();
    let set_up = Database.initialize_tables();
    conn.execute_batch(&set_up.batch).unwrap();
}

#[test]
fn an_older_catalogue_is_brought_up_to_date() {
    let conn = Connection::open_in_memory().unwrap();
    conn.execute_batch(
        "CREATE TABLE collections (id TEXT PRIMARY KEY, name TEXT NOT NULL, description TEXT DEFAULT '', cover_video_id TEXT, created_at TEXT NOT NULL);",
    )
    .unwrap();
    let set_up = Database.initialize_tables();
    conn.execute_batch(&set_up.batch).unwrap();
    assert_eq!(execute(&conn, &set_up.upgrade), 0);
    assert_eq!(Database.upgrade_outcome(None), Ok(()));
    assert!(query(&conn, &Database.get_collections()).is_empty());
}

#[test]
fn another_failure_of_the_upgrade_is_told() {
    assert_eq!(
        Database.upgrade_outcome(Some("no such table: collections".to_string())),
        Err("no such table: collections".to_string())
    );
    assert_eq!(Database.upgrade_outcome(Some("duplicate column name: x".to_string())), Ok(()));
}

#[test]
fn a_written_library_is_read_back() {
    let conn = fresh();
    let (statement, library) = Database.add_library("/films", "Films");
    assert_eq!(library.id.len(), 36);
    assert!(library.created_at.ends_with("+00:00"));
    assert_eq!(execute(&conn, &statement), 1);
    let (other, _) = Database.add_library("/a", "Art");
    execute(&conn, &other);
    let found = read_libraries(&query(&conn, &Database.get_libraries()));
    assert_eq!(found.len(), 2);
    assert_eq!(found[0].name, "Art");
    assert_eq!(found[1].id, library.id);
    assert_eq!(found[1].path, "/films");
    assert_eq!(found[1].created_at, library.created_at);
}

#[test]
fn identifiers_are_new_each_time() {
    let (_, one) = Database.add_library("/a", "A");
    let (_, other) = Database.add_library("/a", "A");
    assert_ne!(one.id, other.id);
}

#[test]
fn a_written_video_is_read_back() {
    let conn = stocked();
    let mut written = video("v1", "l", "/films/a.mkv");
    written.duration_secs = Some(d(5400.25));
    written.width = Some(1920);
    written.height = Some(-1);
    written.thumbnail_path = Some("/t/v1.jpg".to_string());
    written.watched = 1;
    written.watch_progress_secs = d(12.5);
    written.favorite = 1;
    written.file_size = i64::MAX;
    execute(&conn, &Database.upsert_video(&written));
    let read = get(&conn, "v1");
    assert_eq!(read.id, written.id);
    assert_eq!(read.library_id, written.library_id);
    assert_eq!(read.path, written.path);
    assert_eq!(read.title, written.title);
    assert_eq!(read.file_name, written.file_name);
    assert_eq!(read.file_size, written.file_size);
    assert_eq!(read.duration_secs, written.duration_secs);
    assert_eq!(read.width, written.width);
    assert_eq!(read.height, written.height);
    assert_eq!(read.thumbnail_path, written.thumbnail_path);
    assert_eq!(read.watched, written.watched);
    assert_eq!(read.watch_progress_secs, written.watch_progress_secs);
    assert_eq!(read.favorite, written.favorite);
    assert_eq!(read.date_added, written.date_added);
    assert_eq!(read.date_modified, written.date_modified);
}

#[test]
fn a_video_at_a_known_path_keeps_what_the_user_made_of_it() {
    let conn = stocked();
    let mut old = video("v1", "l", "/films/a.mkv");
    old.watched = 1;
    old.favorite = 1;
    old.watch_progress_secs = d(9.0);
    old.duration_secs = Some(d(100.0));
    execute(&conn, &Database.upsert_video(&old));
    let mut new = video("v2", "l", "/films/a.mkv");
    new.file_size = 2000;
    new.date_modified = "2025-05-05".to_string();
    new.width = Some(640);
    execute(&conn, &Database.upsert_video(&new));
    let all = read_videos(&query(&conn, &Database.get_all_videos()));
    assert_eq!(ids(&all), vec!["v1"]);
    assert_eq!(all[0].title, "Title v1");
    assert_eq!(all[0].file_size, 2000);
    assert_eq!(all[0].date_modified, "2025-05-05");
    assert_eq!(all[0].duration_secs, Some(d(100.0)));
    assert_eq!(all[0].width, Some(640));
    assert_eq!((all[0].watched, all[0].favorite), (1, 1));
    assert_eq!(all[0].watch_progress_secs, d(9.0));
}

#[test]
fn a_video_that_is_not_there_is_not_found() {
    let conn = stocked();
    assert!(read_found_video(&first(&conn, &Database.get_video_by_id("none"))).unwrap().is_none());
}

#[test]
fn a_library_goes_with_its_videos() {
    let conn = stocked();
    let (statement, library) = Database.add_library("/films", "Films");
    execute(&conn, &statement);
    execute(&conn, &Database.upsert_video(&video("v1", &library.id, "/films/a.mkv")));
    execute(&conn, &Database.upsert_video(&video("v2", "other", "/b.mkv")));
    execute_all(&conn, &Database.remove_library(&library.id));
    assert_eq!(query(&conn, &Database.get_libraries()).len(), 3);
    assert_eq!(ids(&read_videos(&query(&conn, &Database.get_all_videos()))), vec!["v2"]);
}

#[test]
fn videos_are_listed_by_library_newest_first() {
    let conn = stocked();
    execute(&conn, &Database.upsert_video(&video("a", "l", "/1")));
    execute(&conn, &Database.upsert_video(&video("ccc", "l", "/2")));
    execute(&conn, &Database.upsert_video(&video("bb", "m", "/3")));
    let all = read_videos(&query(&conn, &Database.get_all_videos()));
    assert_eq!(ids(&all), vec!["ccc", "bb", "a"]);
    let some = read_videos(&query(&conn, &Database.get_videos_by_library("l")));
    assert_eq!(ids(&some), vec!["ccc", "a"]);
    let mut paths = read_first_texts(&query(&conn, &Database.get_existing_paths("l")));
    paths.sort();
    assert_eq!(paths, vec!["/1", "/2"]);
}

#[test]
fn what_a_user_notes_of_a_video_is_kept() {
    let conn = stocked();
    execute(&conn, &Database.upsert_video(&video("v", "l", "/1")));
    execute(&conn, &Database.set_watched("v", true));
    execute(&conn, &Database.set_favorite("v", true));
    execute(&conn, &Database.set_progress("v", d(33.5)));
    execute(&conn, &Database.update_thumbnail("v", "/t/v.jpg"));
    let seen = get(&conn, "v");
    assert_eq!((seen.watched, seen.favorite), (1, 1));
    assert_eq!(seen.watch_progress_secs, d(33.5));
    assert_eq!(seen.thumbnail_path.as_deref(), Some("/t/v.jpg"));
    execute(&conn, &Database.set_watched("v", false));
    execute(&conn, &Database.set_favorite("v", false));
    let seen = get(&conn, "v");
    assert_eq!((seen.watched, seen.favorite), (0, 0));
}

#[test]
fn metadata_that_is_not_known_changes_nothing() {
    let conn = stocked();
    execute(&conn, &Database.upsert_video(&video("v", "l", "/1")));
    execute(&conn, &Database.update_video_metadata("v", Some(d(60.0)), Some(10), None));
    execute(&conn, &Database.update_video_metadata("v", None, Some(20), Some(30)));
    let seen = get(&conn, "v");
    assert_eq!(seen.duration_secs, Some(d(60.0)));
    assert_eq!((seen.width, seen.height), (Some(20), Some(30)));
}

#[test]
fn playback_progress_is_applied() {
    let conn = stocked();
    execute(&conn, &Database.upsert_video(&video("v", "l", "/1")));
    let update = |progress: f64, watched: bool| ProgressUpdate {
        video_id: "v".to_string(),
        progress_secs: d(progress),
        mark_watched: watched,
    };
    execute(&conn, &Database.apply_playback_progress(&update(42.0, false)));
    assert_eq!(get(&conn, "v").watch_progress_secs, d(42.0));
    execute(&conn, &Database.apply_playback_progress(&update(-3.0, false)));
    assert_eq!(get(&conn, "v").watch_progress_secs, d(0.0));
    execute(&conn, &Database.apply_playback_progress(&update(f64::NAN, false)));
    assert_eq!(get(&conn, "v").watch_progress_secs, d(0.0));
    execute(&conn, &Database.apply_playback_progress(&update(42.0, false)));
    execute(&conn, &Database.apply_playback_progress(&update(50.0, true)));
    let seen = get(&conn, "v");
    assert_eq!(seen.watched, 1);
    assert_eq!(seen.watch_progress_secs, d(0.0));
}

#[test]
fn videos_that_are_gone_are_removed() {
    let conn = stocked();
    for (id, path) in [("a", "/1"), ("bb", "/2"), ("ccc", "/3")] {
        execute(&conn, &Database.upsert_video(&video(id, "l", path)));
    }
    execute(&conn, &Database.upsert_video(&video("x", "m", "/4")));
    let statement = Database.remove_videos_not_in_paths("l", &vec!["/2".to_string(), "/9".to_string()]);
    assert_eq!(statement.sql, "DELETE FROM videos WHERE library_id = ?1 AND path NOT IN (?2, ?3)");
    assert_eq!(execute(&conn, &statement), 2);
    assert_eq!(ids(&read_videos(&query(&conn, &Database.get_all_videos()))), vec!["bb", "x"]);
    assert_eq!(execute(&conn, &Database.remove_videos_not_in_paths("l", &Vec::new())), 1);
    assert_eq!(ids(&read_videos(&query(&conn, &Database.get_all_videos()))), vec!["x"]);
}

#[test]
fn many_paths_get_many_marks() {
    let paths: Vec<String> = (0..12).map(|i| format!("/{i}")).collect();
    let statement = Database.remove_videos_not_in_paths("l", &paths);
    assert!(statement.sql.ends_with("(?2, ?3, ?4, ?5, ?6, ?7, ?8, ?9, ?10, ?11, ?12, ?13)"));
    assert_eq!(statement.params.len(), 13);
}

#[test]
fn videos_without_a_thumbnail_are_found() {
    let conn = stocked();
    let mut has = video("a", "l", "/1");
    has.thumbnail_path = Some("/t".to_string());
    let mut blank = video("bb", "l", "/2");
    blank.thumbnail_path = Some(String::new());
    execute(&conn, &Database.upsert_video(&has));
    execute(&conn, &Database.upsert_video(&blank));
    execute(&conn, &Database.upsert_video(&video("ccc", "l", "/3")));
    let found = read_videos(&query(&conn, &Database.get_videos_without_thumbnails(10)));
    assert_eq!(found.len(), 2);
    assert_eq!(query(&conn, &Database.get_videos_without_thumbnails(1)).len(), 1);
    // A limit beyond the integers of SQL is none.
    assert_eq!(query(&conn, &Database.get_videos_without_thumbnails(usize::MAX)).len(), 2);
}

#[test]
fn a_deleted_video_leaves_its_collections() {
    let conn = stocked();
    execute(&conn, &Database.upsert_video(&video("v", "l", "/1")));
    let (statement, collection) = Database.create_collection("C", "");
    execute(&conn, &statement);
    add(&conn, &collection.id, "v");
    execute_all(&conn, &Database.delete_video_record("v"));
    assert!(query(&conn, &Database.get_all_videos()).is_empty());
    let seen = read_collections(&query(&conn, &Database.get_collections()));
    assert_eq!(seen[0].video_count, 0);
}

fn add(conn: &Connection, collection: &str, video: &str) {
    let position = first(conn, &Database.next_position(collection)).unwrap();
    let statement = Database.add_video_to_collection(collection, video, &position).unwrap();
    execute(conn, &statement);
}

#[test]
fn collections_hold_videos_in_order() {
    let conn = stocked();
    for (id, path) in [("a", "/1"), ("bb", "/2"), ("ccc", "/3")] {
        execute(&conn, &Database.upsert_video(&video(id, "l", path)));
    }
    let (statement, collection) = Database.create_collection("Night", "late films");
    assert_eq!(collection.video_count, 0);
    assert_eq!(collection.cover_video_id, None);
    execute(&conn, &statement);
    let (statement, _) = Database.create_collection("Early", "");
    execute(&conn, &statement);
    for id in ["bb", "a", "bb", "ccc"] {
        add(&conn, &collection.id, id);
    }
    let videos = read_videos(&query(&conn, &Database.get_collection_videos(&collection.id)));
    assert_eq!(ids(&videos), vec!["bb", "a", "ccc"]);
    let all = read_collections(&query(&conn, &Database.get_collections()));
    assert_eq!(all.iter().map(|c| c.name.as_str()).collect::<Vec<_>>(), vec!["Early", "Night"]);
    assert_eq!((all[0].video_count, all[1].video_count), (0, 3));
    assert_eq!(all[1].description, "late films");
    execute(&conn, &Database.remove_video_from_collection(&collection.id, "a"));
    let videos = read_videos(&query(&conn, &Database.get_collection_videos(&collection.id)));
    assert_eq!(ids(&videos), vec!["bb", "ccc"]);
    execute_all(&conn, &Database.delete_collection(&collection.id));
    assert_eq!(query(&conn, &Database.get_collections()).len(), 1);
    assert!(query(&conn, &Database.get_collection_videos(&collection.id)).is_empty());
}

fn collection(conn: &Connection, id: &str) -> Option<Collection> {
    read_found_collection(&first(conn, &Database.get_collection_by_id(id))).unwrap()
}

#[test]
fn a_collection_has_one_cover() {
    let conn = stocked();
    let (statement, made) = Database.create_collection("C", "");
    execute(&conn, &statement);
    execute(&conn, &Database.set_collection_cover(&made.id, Some("v")));
    let seen = collection(&conn, &made.id).unwrap();
    assert_eq!(seen.cover_video_id.as_deref(), Some("v"));
    assert_eq!(seen.cover_image_path, None);
    execute(&conn, &Database.set_collection_cover_image(&made.id, Some("/i.png")));
    let seen = collection(&conn, &made.id).unwrap();
    assert_eq!(seen.cover_video_id, None);
    assert_eq!(seen.cover_image_path.as_deref(), Some("/i.png"));
    execute(&conn, &Database.set_collection_cover(&made.id, None));
    let seen = collection(&conn, &made.id).unwrap();
    assert_eq!((seen.cover_video_id, seen.cover_image_path), (None, None));
    execute(&conn, &Database.set_collection_cover_image(&made.id, None));
    assert!(collection(&conn, "none").is_none());
}

fn stats(conn: &Connection) -> LibraryStats {
    let mut answers: Vec<Vec<SqlCell>> = Vec::new();
    loop {
        assert!(has_fitting_counts(&answers));
        match Database.get_stats(&answers) {
            StatsStep::Ask(statement) => answers.push(first(conn, &statement).unwrap()),
            StatsStep::Done(stats) => return stats,
            StatsStep::Fail(error) => panic!("{error:?}"),
        }
    }
}

#[test]
fn the_catalogue_is_counted() {
    let conn = fresh();
    assert_eq!(
        stats(&conn),
        LibraryStats {
            total_videos: 0,
            watched_videos: 0,
            unwatched_videos: 0,
            total_size_bytes: 0,
            total_duration_secs: d(0.0),
            total_libraries: 0,
        }
    );
    let (statement, library) = Database.add_library("/films", "Films");
    execute(&conn, &statement);
    for (id, path) in [("a", "/1"), ("bb", "/2"), ("ccc", "/3")] {
        let mut v = video(id, &library.id, path);
        v.duration_secs = Some(d(0.5));
        execute(&conn, &Database.upsert_video(&v));
    }
    execute(&conn, &Database.set_watched("a", true));
    let counted = stats(&conn);
    assert_eq!(
        counted,
        LibraryStats {
            total_videos: 3,
            watched_videos: 1,
            unwatched_videos: 2,
            total_size_bytes: 3000,
            total_duration_secs: d(1.5),
            total_libraries: 1,
        }
    );
}

#[test]
fn an_answer_that_cannot_be_read_ends_the_count() {
    let answers = vec![vec![SqlCell::Text("x".to_string())]];
    match Database.get_stats(&answers) {
        StatsStep::Fail(error) => {
            assert_eq!(error, CellError { column: 0, fault: CellFault::WrongType })
        }
        other => panic!("{other:?}"),
    }
    let count = |n: i64| vec![SqlCell::Integer(n, d(n as f64))];
    assert!(has_fitting_counts(&vec![count(-1)]));
    assert!(has_fitting_counts(&vec![count(i64::MIN), count(-1)]));
    assert!(!has_fitting_counts(&vec![count(i64::MIN), count(1)]));
    assert!(!has_fitting_counts(&vec![count(i64::MAX), count(-1)]));
}

#[test]
fn rows_that_cannot_be_read_are_passed_over() {
    let conn = stocked();
    execute(&conn, &Database.upsert_video(&video("v", "l", "/1")));
    execute(&conn, &Database.upsert_video(&video("ww", "l", "/2")));
    conn.execute("UPDATE videos SET watch_progress_secs = NULL WHERE id = 'v'", []).unwrap();
    assert_eq!(ids(&read_videos(&query(&conn, &Database.get_all_videos()))), vec!["ww"]);
    let row = first(&conn, &Database.get_video_by_id("v"));
    assert_eq!(
        read_found_video(&row).unwrap_err(),
        CellError { column: 11, fault: CellFault::WrongType }
    );
}

#[test]
fn a_row_tells_its_first_fault() {
    let conn = stocked();
    execute(&conn, &Database.upsert_video(&video("v", "l", "/1")));
    conn.execute("UPDATE videos SET width = 2147483648, height = 'x'", []).unwrap();
    let row = first(&conn, &Database.get_video_by_id("v")).unwrap();
    assert_eq!(
        read_video(&row).unwrap_err(),
        CellError { column: 7, fault: CellFault::OutOfRange(2147483648) }
    );
    let mut short = row;
    short.truncate(3);
    assert_eq!(
        read_video(&short).unwrap_err(),
        CellError { column: 3, fault: CellFault::NoSuchColumn }
    );
}

#[test]
fn a_text_that_is_malformed_is_told() {
    let conn = stocked();
    execute(&conn, &Database.upsert_video(&video("v", "l", "/1")));
    conn.execute("UPDATE videos SET title = CAST(x'61ff' AS TEXT), file_size = CAST(x'ff' AS TEXT)", []).unwrap();
    let row = first(&conn, &Database.get_video_by_id("v")).unwrap();
    assert_eq!(read_video(&row).unwrap_err(), CellError { column: 3, fault: CellFault::BadText });
    conn.execute("UPDATE videos SET title = 't'", []).unwrap();
    let row = first(&conn, &Database.get_video_by_id("v")).unwrap();
    assert_eq!(read_video(&row).unwrap_err(), CellError { column: 5, fault: CellFault::WrongType });
}

#[test]
fn a_position_that_cannot_be_read_adds_nothing() {
    let far = vec![SqlCell::Integer(2147483648, d(2147483648.0))];
    assert_eq!(
        Database.add_video_to_collection("c", "v", &far).unwrap_err(),
        CellError { column: 0, fault: CellFault::OutOfRange(2147483648) }
    );
    assert!(Database.add_video_to_collection("c", "v", &vec![SqlCell::Null]).is_err());
}
