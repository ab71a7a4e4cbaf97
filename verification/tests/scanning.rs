use cinematic::commands::add_library;
use cinematic::commands::delete_video_file;
use cinematic::commands::extract_video_metadata;
use cinematic::commands::new_paths;
use cinematic::commands::scan_library;
use cinematic::commands::thumbnail_name;
use cinematic::commands::thumbnail_path;
use cinematic::commands::thumbnail_timestamp;
use cinematic::commands::DeletionProgress;
use cinematic::commands::DeletionStep;
use cinematic::commands::FileRemoval;
use cinematic::commands::MetadataProgress;
use cinematic::commands::MetadataStep;
use cinematic::commands::ThumbnailMarks;
use cinematic::commands::ThumbnailRun;
use cinematic::database::cells::SqlParam;
use cinematic::double::Double;
use cinematic::fresh::time_since_epoch;
use cinematic::fresh::FileTime;
use cinematic::models::VideoRecord;
use cinematic::paths::derive_title;
use cinematic::paths::extension_of;
use cinematic::paths::stem_of;
use cinematic::paths::title_from_name;
use cinematic::playback::PlaybackSessions;
use cinematic::scanner::create_video_record;
use cinematic::scanner::describe_video;
use cinematic::scanner::found_entry;
use cinematic::scanner::scan_directory;
use cinematic::scanner::FileFacts;
use cinematic::scanner::FoundEntry;
use cinematic::scanner::ProbedVideoMetadata;

fn d(x: f64) -> Double {
    Double { bits: x.to_bits() }
}

#[test]
fn videos_are_found_by_their_extension() {
    let entries = vec![
        found_entry(true, "/films/a.mkv"),
        found_entry(true, "/films/B.MP4"),
        found_entry(true, "/films/notes.txt"),
        found_entry(false, "/films/dir.mkv"),
        found_entry(true, "/films/.mkv"),
        found_entry(true, "/films/noext"),
        found_entry(true, "/films/c.tar.m2ts"),
        found_entry(true, "/films/trailing."),
    ];
    assert_eq!(scan_directory(true, &entries), vec!["/films/a.mkv", "/films/B.MP4", "/films/c.tar.m2ts"]);
    assert!(scan_directory(false, &entries).is_empty());
}

#[test]
fn every_kind_of_video_is_found() {
    for extension in [
        "mp4", "mkv", "avi", "mov", "wmv", "flv", "webm", "m4v", "mpg", "mpeg", "3gp", "ts", "mts", "m2ts", "vob", "ogv",
    ] {
        let path = format!("/v/x.{}", extension.to_uppercase());
        assert_eq!(scan_directory(true, &vec![found_entry(true, &path)]), vec![path]);
    }
}

#[test]
fn an_extension_is_lowered_beyond_ascii() {
    // The sign of the unit kelvin becomes a small k.
    let path = "/v/x.m\u{212a}v";
    assert_eq!(scan_directory(true, &vec![found_entry(true, path)]), vec![path]);
    let path = "/v/x.MK\u{fc}";
    assert!(scan_directory(true, &vec![found_entry(true, path)]).is_empty());
}

#[test]
fn videos_are_found_at_windows_paths() {
    for path in [
        r"C:\movies\a.mkv",
        r"C:\movies/sub\B.MP4",
        r"\\nas\films\a.b.avi",
        "//nas/films/c.ts",
        "C:a.mkv",
        "/films/Alien: Covenant.mkv",
    ] {
        assert_eq!(scan_directory(true, &vec![found_entry(true, path)]), vec![path]);
        let facts = FileFacts { size: 1, modified: None };
        let video = create_video_record(path, "l", Some(facts)).unwrap();
        assert_eq!(video.path, path);
        assert!(path.ends_with(&video.file_name) && !video.file_name.is_empty());
        assert_eq!(video.title, derive_title(path));
    }
    let facts = FileFacts { size: 1, modified: None };
    let video = create_video_record(r"C:\movies\The_Film.mkv", "l", Some(facts)).unwrap();
    assert!(video.file_name == "The_Film.mkv" || video.file_name == r"C:\movies\The_Film.mkv");
    assert!(video.title == "The Film" || video.title == r"C:\movies\The Film");
}

#[test]
fn an_entry_without_a_path_is_passed_over() {
    let entries = vec![
        FoundEntry { is_file: true, extension: Some("mkv".to_string()), path: None },
        FoundEntry { is_file: true, extension: None, path: Some("/v/x.mkv".to_string()) },
    ];
    assert!(scan_directory(true, &entries).is_empty());
}

#[test]
fn a_new_video_is_described() {
    let facts = FileFacts { size: 4096, modified: Some(FileTime { secs: 1_700_000_000, nanos: 500_000_000 }) };
    let video = create_video_record("/films/My_Film-2019.final.mkv", "l", Some(facts)).unwrap();
    assert_eq!(video.title, "My Film 2019 final");
    assert_eq!(video.file_name, "My_Film-2019.final.mkv");
    assert_eq!(video.path, "/films/My_Film-2019.final.mkv");
    assert_eq!(video.library_id, "l");
    assert_eq!(video.file_size, 4096);
    assert_eq!(video.date_modified, "2023-11-14T22:13:20.500+00:00");
    assert!(video.date_added.ends_with("+00:00"));
    assert_eq!(video.id.len(), 36);
    assert_eq!((video.watched, video.favorite), (0, 0));
    assert_eq!(video.watch_progress_secs, d(0.0));
    assert_eq!(video.duration_secs, None);
    assert_eq!((video.width, video.height), (None, None));
    assert_eq!(video.thumbnail_path, None);
}

#[test]
fn the_present_stands_in_for_an_unknown_time() {
    let facts = FileFacts { size: u64::MAX, modified: None };
    let video = create_video_record("/films/a.mkv", "l", Some(facts)).unwrap();
    assert_eq!(video.date_modified, video.date_added);
    assert_eq!(video.file_size, -1);
}

#[test]
fn a_file_that_is_not_there_is_not_described() {
    assert!(create_video_record("/films/a.mkv", "l", None).is_none());
    let facts = FileFacts { size: 1, modified: None };
    assert!(create_video_record("/films/..", "l", Some(facts)).is_none());
    assert!(create_video_record("/", "l", Some(facts)).is_none());
}

#[test]
fn times_outside_the_calendar_have_no_date() {
    assert!(FileTime { secs: 0, nanos: 0 }.is_dated());
    assert!(!FileTime { secs: i64::MAX, nanos: 0 }.is_dated());
    assert!(!FileTime { secs: i64::MIN, nanos: 0 }.is_dated());
    assert!(!FileTime { secs: 0, nanos: 1_000_000_000 }.is_dated());
}

#[test]
fn times_are_counted_from_the_epoch() {
    let time = |secs, nanos| Some(FileTime { secs, nanos });
    assert_eq!(time_since_epoch(false, 5, 7), time(5, 7));
    assert_eq!(time_since_epoch(true, 5, 0), time(-5, 0));
    assert_eq!(time_since_epoch(true, 5, 7), time(-6, 999_999_993));
    assert_eq!(time_since_epoch(false, 1, 2_000_000_003), time(3, 3));
    assert_eq!(time_since_epoch(true, 1 << 63, 0), time(i64::MIN, 0));
    assert_eq!(time_since_epoch(true, 1 << 63, 1), None);
    assert_eq!(time_since_epoch(false, 1 << 63, 0), None);
}

#[test]
fn the_first_and_the_last_date_can_be_given() {
    for (secs, year) in [(-8_334_601_228_800, "-262143-"), (8_210_266_876_799, "+262142-")] {
        let facts = FileFacts { size: 1, modified: Some(FileTime { secs, nanos: 999_999_999 }) };
        let video = create_video_record("/a.mkv", "l", Some(facts)).unwrap();
        assert!(video.date_modified.starts_with(year), "{}", video.date_modified);
    }
}

#[test]
fn a_title_is_made_of_the_name() {
    let video = describe_video(
        "i".to_string(),
        "l",
        "p",
        "a_b.c.d".to_string(),
        7,
        "now".to_string(),
        "then".to_string(),
    );
    assert_eq!(video.title, "a b c");
    assert_eq!(video.file_name, "a_b.c.d");
    assert_eq!(video.date_added, "now");
    assert_eq!(video.date_modified, "then");
    for name in ["a.mkv", "a", ".a", "a.", "a..b", "..a", ".a.b", "\u{e9}.\u{fc}"] {
        let path = std::path::Path::new(name);
        assert_eq!(stem_of(name), path.file_stem().unwrap().to_str().unwrap(), "{name}");
        assert_eq!(extension_of(name).as_deref(), path.extension().map(|e| e.to_str().unwrap()), "{name}");
    }
    assert_eq!(title_from_name(Some("A-B.avi".to_string())), "A B");
    assert_eq!(title_from_name(None), "Untitled video");
}

#[test]
fn paths_that_end_in_no_name_of_their_own_count_by_the_one_before() {
    for (path, title, name) in [
        ("/films/The_One.mkv/", "The One", "The_One.mkv"),
        ("/films/The_One.mkv/.", "The One", "The_One.mkv"),
        ("/films/The_One.mkv/.//./", "The One", "The_One.mkv"),
        ("films/./a-b", "a b", "a-b"),
    ] {
        assert_eq!(derive_title(path), title);
        let facts = FileFacts { size: 1, modified: None };
        let video = create_video_record(path, "l", Some(facts)).unwrap();
        assert_eq!((video.title.as_str(), video.file_name.as_str()), (title, name));
    }
    for path in ["", ".", "/", "./", "/.", "..", "a/..", "a/../", "//"] {
        assert_eq!(derive_title(path), "Untitled video", "{path}");
        let facts = FileFacts { size: 1, modified: None };
        assert!(create_video_record(path, "l", Some(facts)).is_none());
    }
}

#[test]
fn titles_are_derived_from_paths() {
    assert_eq!(derive_title("/films/The_Big-One.2020.mkv"), "The Big One 2020");
    assert_eq!(derive_title("/films/.hidden"), " hidden");
    assert_eq!(derive_title("/"), "Untitled video");
    assert_eq!(derive_title("plain"), "plain");
    assert_eq!(derive_title("/films/.."), "Untitled video");
    let title = derive_title("/films/Some_Film.2.mkv");
    assert_eq!(derive_title(&title), title);
}

#[test]
fn only_paths_that_are_not_known_are_new() {
    let list = |paths: &[&str]| paths.iter().map(|p| p.to_string()).collect::<Vec<_>>();
    assert_eq!(new_paths(&list(&["/c", "/a", "/b", "/c"]), &list(&["/a", "/z"])), list(&["/c", "/b", "/c"]));
    assert!(new_paths(&list(&["/a"]), &list(&["/a"])).is_empty());
    assert_eq!(new_paths(&list(&["/a"]), &Vec::new()), list(&["/a"]));
}

fn video(id: &str, thumbnail: Option<&str>) -> VideoRecord {
    let mut v = describe_video(
        id.to_string(),
        "l",
        &format!("/v/{id}.mkv"),
        format!("{id}.mkv"),
        1,
        "now".to_string(),
        "now".to_string(),
    );
    v.thumbnail_path = thumbnail.map(|t| t.to_string());
    v
}

#[test]
fn a_scan_adds_and_then_removes() {
    let found = vec!["/v/a.mkv".to_string(), "/v/b.mkv".to_string()];
    let statements = scan_library("l", &found, &vec![video("a", None), video("b", None)]);
    assert_eq!(statements.len(), 3);
    assert!(statements[0].sql.starts_with("INSERT INTO videos"));
    assert!(matches!(&statements[1].params[0], SqlParam::Text(id) if id == "b"));
    assert_eq!(
        statements[2].sql,
        "DELETE FROM videos WHERE library_id = ?1 AND path NOT IN (?2, ?3)"
    );
    let emptied = scan_library("l", &Vec::new(), &Vec::new());
    assert_eq!(emptied.len(), 1);
    assert_eq!(emptied[0].sql, "DELETE FROM videos WHERE library_id = ?1");
}

#[test]
fn a_library_has_to_be_a_directory() {
    assert_eq!(add_library(false, "/x", "X").unwrap_err(), "Directory does not exist");
    let (statement, library) = add_library(true, "/x", "X").unwrap();
    assert_eq!(library.path, "/x");
    assert!(statement.sql.starts_with("INSERT INTO libraries"));
}

#[test]
fn a_video_is_deleted_step_by_step() {
    let sessions = PlaybackSessions::new();
    match delete_video_file(&sessions, "v", DeletionProgress::Begun) {
        DeletionStep::LookUp(statement) => assert!(statement.sql.contains("WHERE id = ?1 LIMIT 1")),
        other => panic!("{other:?}"),
    }
    match delete_video_file(&sessions, "v", DeletionProgress::LookedUp(Some(video("v", None)))) {
        DeletionStep::RemoveFile(v) => assert_eq!(v.path, "/v/v.mkv"),
        other => panic!("{other:?}"),
    }
    for removal in [FileRemoval::Removed, FileRemoval::Missing] {
        let progress = DeletionProgress::FileTried(video("v", Some("/t/v.jpg")), removal);
        match delete_video_file(&sessions, "v", progress) {
            DeletionStep::RemoveThumbnail(path) => assert_eq!(path, "/t/v.jpg"),
            other => panic!("{other:?}"),
        }
    }
    for progress in [
        DeletionProgress::ThumbnailTried,
        DeletionProgress::FileTried(video("v", None), FileRemoval::Missing),
    ] {
        match delete_video_file(&sessions, "v", progress) {
            DeletionStep::DeleteRecord(statements) => assert_eq!(statements.len(), 2),
            other => panic!("{other:?}"),
        }
    }
}

#[test]
fn a_deletion_is_refused() {
    let mut sessions = PlaybackSessions::new();
    sessions.insert("v", true);
    let refused = |sessions: &PlaybackSessions, progress| match delete_video_file(sessions, "v", progress) {
        DeletionStep::Refuse(message) => message,
        other => panic!("{other:?}"),
    };
    assert_eq!(
        refused(&sessions, DeletionProgress::Begun),
        "Cannot delete a video while it is playing in a managed VLC session."
    );
    assert_eq!(refused(&sessions, DeletionProgress::LookedUp(None)), "Video not found");
    let progress = DeletionProgress::FileTried(video("v", None), FileRemoval::Failed("denied".to_string()));
    assert_eq!(refused(&sessions, progress), "Failed to delete file from disk: denied");
}

fn marks(length: f64) -> Option<ThumbnailMarks> {
    Some(ThumbnailMarks { tenth_secs: d(length * 0.1), second_before_end_secs: d(length - 1.0) })
}

#[test]
fn a_thumbnail_shows_a_tenth_of_the_video() {
    assert_eq!(thumbnail_timestamp(marks(600.0)), d(60.0));
    assert_eq!(thumbnail_timestamp(marks(1.05)), d(1.05 - 1.0));
    assert_eq!(thumbnail_timestamp(marks(0.5)), d(0.0));
    assert_eq!(thumbnail_timestamp(marks(f64::NAN)), d(0.0));
    assert_eq!(thumbnail_timestamp(None), d(5.0));
    assert_eq!(thumbnail_name("abc"), "abc.jpg");
    let path = thumbnail_path("/t", "abc");
    assert!(path == "/t/abc.jpg" || path == "/t\\abc.jpg");
    assert_eq!(thumbnail_path("/t/", "abc"), "/t/abc.jpg");
    let path = thumbnail_path("//nas/t", "abc");
    assert!(path == "//nas/t/abc.jpg" || path == "//nas/t\\abc.jpg");
    assert!(thumbnail_path(r"\\?\C:\t", "abc").ends_with("abc.jpg"));
}

#[test]
fn thumbnails_are_counted() {
    let mut run = ThumbnailRun::begin(vec![video("a", None), video("b", None), video("c", None)]);
    let mut noted = Vec::new();
    while let Some(next) = run.next() {
        let id = next.id.clone();
        let path = format!("/t/{}", thumbnail_name(&id));
        if let Some(statement) = run.finish(id != "b", &path) {
            noted.push(statement);
        }
    }
    assert_eq!(run.generated(), 2);
    assert_eq!(noted.len(), 2);
    assert!(matches!(&noted[1].params[0], SqlParam::Text(path) if path == "/t/c.jpg"));
    assert!(matches!(&noted[1].params[1], SqlParam::Text(id) if id == "c"));
}

#[test]
fn what_was_probed_is_taken_over() {
    let metadata = ProbedVideoMetadata {
        duration_secs: Some(d(60.0)),
        width: Some(640),
        height: None,
        embedded_artwork_stream_index: None,
    };
    match extract_video_metadata("v", &metadata, MetadataProgress::Begun) {
        MetadataStep::Store(statement) => {
            assert!(statement.sql.starts_with("UPDATE videos SET duration_secs = COALESCE(?1"));
            assert!(matches!(statement.params[0], SqlParam::Real(x) if x == d(60.0)));
            assert!(matches!(statement.params[1], SqlParam::Integer(640)));
            assert!(matches!(statement.params[2], SqlParam::Null));
        }
        other => panic!("{other:?}"),
    }
    let stored = |thumbnail_exists| MetadataProgress::Stored { thumbnail_exists };
    assert!(matches!(extract_video_metadata("v", &metadata, stored(false)), MetadataStep::MakeThumbnail));
    assert!(matches!(extract_video_metadata("v", &metadata, stored(true)), MetadataStep::Done));
    let unknown = ProbedVideoMetadata::default();
    assert!(matches!(extract_video_metadata("v", &unknown, stored(false)), MetadataStep::Done));
    let tried = |succeeded| MetadataProgress::ThumbnailTried { succeeded, path: "/t/v.jpg".to_string() };
    assert!(matches!(extract_video_metadata("v", &metadata, tried(false)), MetadataStep::Done));
    match extract_video_metadata("v", &metadata, tried(true)) {
        MetadataStep::NoteThumbnail(statement) => {
            assert!(matches!(&statement.params[0], SqlParam::Text(path) if path == "/t/v.jpg"));
        }
        other => panic!("{other:?}"),
    }
}
