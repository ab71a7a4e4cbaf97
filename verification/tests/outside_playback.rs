use cinematic::double::Double;
use cinematic::platform::Platform;
use cinematic::playback::open_in_player;
use cinematic::playback::open_with_system_default;
use cinematic::playback::start_vlc;
use cinematic::playback::vlc_launch_result;
use cinematic::playback::MonitorStep;
use cinematic::playback::PlaybackMonitor;
use cinematic::playback::PlaybackSessions;
use cinematic::playback::PlayStep;
use cinematic::playback::VlcLookup;
use cinematic::playback::VlcStart;
use cinematic::playback::VlcStartStep;
use cinematic::playback::VlcStatus;
use cinematic::process::ChildState;
use cinematic::progress::WatchMarks;
use cinematic::vlc::extract_xml_tag;
use cinematic::vlc::find_vlc_path;
use cinematic::vlc::first_existing;
use cinematic::vlc::new_control_password;
use cinematic::vlc::query_registry_value;
use cinematic::vlc::query_vlc_status;
use cinematic::vlc::read_registry_value;
use cinematic::vlc::registry_arguments;
use cinematic::vlc::registry_candidate;
use cinematic::vlc::status_request;
use cinematic::vlc::vlc_arguments;
use cinematic::vlc::wait_for_vlc_http;
use cinematic::vlc::VlcPlace;
use cinematic::vlc::VlcSearch;
use cinematic::vlc::VlcWait;

fn d(x: f64) -> Double {
    Double { bits: x.to_bits() }
}

#[test]
fn playing_videos_are_known() {
    let mut sessions = PlaybackSessions::new();
    assert_eq!(sessions.get("a"), None);
    sessions.insert("a", false);
    sessions.insert("b", true);
    sessions.set_tracking("a", true);
    sessions.set_tracking("c", true);
    assert_eq!(sessions.get("a"), Some(true));
    assert!(!sessions.contains("c"));
    sessions.insert("b", false);
    assert_eq!(sessions.get("b"), Some(false));
    sessions.remove("a");
    sessions.remove("zzz");
    assert!(!sessions.contains("a"));
    assert!(sessions.contains("b"));
}

#[test]
fn a_video_that_is_playing_is_not_started_again() {
    let mut sessions = PlaybackSessions::new();
    sessions.insert("v", true);
    match open_in_player(Platform::Windows, &sessions, "v", Some(d(30.0)), VlcLookup::NotLooked) {
        PlayStep::Done(result) => {
            assert!(result.already_running && result.tracking_enabled && result.resumed);
            assert!(!result.fallback_used);
            assert_eq!(result.resume_position_secs, d(30.0));
            assert_eq!(result.message, "This video is already playing in a managed VLC session.");
        }
        other => panic!("{other:?}"),
    }
    sessions.set_tracking("v", false);
    match open_in_player(Platform::Linux, &sessions, "v", None, VlcLookup::NotLooked) {
        PlayStep::Done(result) => {
            assert!(result.fallback_used && !result.resumed);
            assert_eq!(
                result.message,
                "This video is already open, but progress tracking is not available for that session."
            );
        }
        other => panic!("{other:?}"),
    }
}

#[test]
fn a_video_is_played_by_vlc_or_the_system() {
    let sessions = PlaybackSessions::new();
    let step = |platform, vlc| open_in_player(platform, &sessions, "v", Some(d(-2.0)), vlc);
    assert!(matches!(step(Platform::Windows, VlcLookup::NotLooked), PlayStep::LookForVlc));
    assert!(matches!(step(Platform::Windows, VlcLookup::Found), PlayStep::StartVlc(at) if at == d(0.0)));
    match step(Platform::Windows, VlcLookup::Missing) {
        PlayStep::OpenWithSystem(result) => {
            assert_eq!(
                result.message,
                "VLC was not found. Opened in the system player without progress tracking."
            );
            assert!(result.fallback_used && !result.tracking_enabled && !result.already_running);
        }
        other => panic!("{other:?}"),
    }
    for vlc in [VlcLookup::Found, VlcLookup::Missing] {
        match step(Platform::MacOs, vlc) {
            PlayStep::OpenWithSystem(result) => assert_eq!(
                result.message,
                "Opened in the system player. Managed VLC progress tracking is only enabled on Windows right now."
            ),
            other => panic!("{other:?}"),
        }
    }
}

#[test]
fn what_is_told_of_vlc() {
    let plain = vlc_launch_result(true, None);
    assert_eq!(plain.message, "Opened in VLC with progress tracking enabled.");
    assert!(plain.tracking_enabled && !plain.resumed && !plain.fallback_used);
    let resumed = vlc_launch_result(true, Some(d(5.0)));
    assert_eq!(resumed.message, "Opened in VLC and resumed from your last saved position.");
    assert!(resumed.resumed);
    let untracked = vlc_launch_result(false, Some(d(5.0)));
    assert_eq!(
        untracked.message,
        "Opened in VLC, but progress tracking could not be enabled for this session."
    );
    assert!(untracked.fallback_used && untracked.resumed);
    assert_eq!(untracked.clone().resume_position_secs, d(5.0));
}

#[test]
fn the_system_opens_files() {
    let windows = open_with_system_default(Platform::Windows, "C:\\v.mkv");
    assert_eq!(windows.program, "cmd");
    assert_eq!(windows.args, vec!["/C", "start", "", "C:\\v.mkv"]);
    let mac = open_with_system_default(Platform::MacOs, "/v.mkv");
    assert_eq!((mac.program.as_str(), mac.args), ("open", vec!["/v.mkv".to_string()]));
    let linux = open_with_system_default(Platform::Linux, "/v.mkv");
    assert_eq!((linux.program.as_str(), linux.args), ("xdg-open", vec!["/v.mkv".to_string()]));
}

fn status(time: f64, length: Option<f64>, state: &str) -> VlcStatus {
    VlcStatus {
        time_secs: d(time),
        marks: length.map(|l| WatchMarks {
            length_secs: d(l),
            grace_mark_secs: d(l - 15.0),
            ratio_mark_secs: d(l * 0.98),
        }),
        state: state.to_string(),
    }
}

#[test]
fn a_watch_keeps_progress() {
    let mut monitor = PlaybackMonitor::new("v", true);
    assert!(matches!(monitor.child(ChildState::Exited), MonitorStep::Finish(None)));
    assert!(monitor.status(status(3.0, Some(100.0), "playing")).is_none());
    let kept = monitor.status(status(50.0, Some(100.0), "playing")).unwrap();
    assert_eq!((kept.video_id.as_str(), kept.progress_secs, kept.mark_watched), ("v", d(50.0), false));
    assert!(matches!(monitor.child(ChildState::Running), MonitorStep::Wait));
    assert!(matches!(monitor.child(ChildState::Unknown), MonitorStep::Finish(None)));
    // A stopped video is finished while it is watched, but not by its last status.
    let stopped = monitor.status(status(50.0, Some(100.0), "stopped")).unwrap();
    assert!(stopped.mark_watched);
    match monitor.child(ChildState::Exited) {
        MonitorStep::Finish(Some(update)) => {
            assert!(!update.mark_watched);
            assert_eq!(update.progress_secs, d(50.0));
        }
        other => panic!("{other:?}"),
    }
    let done = monitor.status(status(99.0, Some(100.0), "playing")).unwrap();
    assert!(done.mark_watched);
    assert_eq!(done.progress_secs, d(0.0));
}

#[test]
fn a_watch_without_tracking_keeps_nothing() {
    let mut monitor = PlaybackMonitor::new("v", false);
    assert!(monitor.status(status(50.0, None, "stopped")).is_none());
    assert!(matches!(monitor.child(ChildState::Exited), MonitorStep::Finish(None)));
}

#[test]
fn elements_are_read() {
    assert_eq!(extract_xml_tag("<root><time> 12 </time></root>", "time").as_deref(), Some("12"));
    assert_eq!(extract_xml_tag("<time>1</time><time>2</time>", "time").as_deref(), Some("1"));
    assert_eq!(extract_xml_tag("</time><time>3</time>", "time").as_deref(), Some("3"));
    assert_eq!(extract_xml_tag("<time>12", "time"), None);
    assert_eq!(extract_xml_tag("12</time>", "time"), None);
    assert_eq!(extract_xml_tag("<state></state>", "state").as_deref(), Some(""));
}

#[test]
fn vlc_is_asked() {
    assert_eq!(
        status_request(8080, "secret"),
        "GET /requests/status.xml HTTP/1.1\r\nHost: 127.0.0.1:8080\r\nAuthorization: Basic OnNlY3JldA==\r\nConnection: close\r\n\r\n"
    );
}

#[test]
fn vlc_answers() {
    let reply = query_vlc_status(
        "HTTP/1.1 200 OK\r\nX: y\r\n\r\n<root><time>12</time><length>90</length><state>playing</state></root>",
    )
    .unwrap();
    assert_eq!(reply.time.as_deref(), Some("12"));
    assert_eq!(reply.length.as_deref(), Some("90"));
    assert_eq!(reply.state, "playing");
    let bare = query_vlc_status("HTTP/1.0 200 OK\r\n\r\n<root></root>").unwrap();
    assert_eq!((bare.time, bare.length, bare.state.as_str()), (None, None, "unknown"));
    assert_eq!(query_vlc_status("nothing").unwrap_err(), "Invalid VLC HTTP response");
    assert_eq!(
        query_vlc_status("HTTP/1.1 401 No\r\n\r\n<root></root>").unwrap_err(),
        "VLC HTTP interface is not ready"
    );
    assert_eq!(
        query_vlc_status("HTTP/1.1 200 OK\r\n\r\n<html></html>").unwrap_err(),
        "Unexpected VLC HTTP payload"
    );
}

#[test]
fn vlc_is_waited_for() {
    assert_eq!(wait_for_vlc_http(true, 9999), VlcWait::Ready);
    assert_eq!(wait_for_vlc_http(false, 5999), VlcWait::Ask);
    assert_eq!(wait_for_vlc_http(false, 6000), VlcWait::GiveUp);
}

fn tried(platform: Platform) -> Vec<String> {
    let mut outcomes = Vec::new();
    let mut places = Vec::new();
    loop {
        match find_vlc_path(platform, &outcomes) {
            VlcSearch::Try(VlcPlace::File(path)) => places.push(path),
            VlcSearch::Try(VlcPlace::Registry { key, value_name, .. }) => {
                places.push(format!("{key}@{}", value_name.unwrap_or_default()))
            }
            VlcSearch::Try(VlcPlace::SearchPath(binary)) => places.push(binary),
            VlcSearch::Found(path) => panic!("{path}"),
            VlcSearch::Missing => return places,
        }
        outcomes.push(None);
    }
}

#[test]
fn vlc_is_searched_place_by_place() {
    assert_eq!(
        tried(Platform::Windows),
        vec![
            r"C:\Program Files\VideoLAN\VLC\vlc.exe",
            r"C:\Program Files (x86)\VideoLAN\VLC\vlc.exe",
            r"HKLM\SOFTWARE\Microsoft\Windows\CurrentVersion\App Paths\vlc.exe@",
            r"HKCU\SOFTWARE\Microsoft\Windows\CurrentVersion\App Paths\vlc.exe@",
            r"HKLM\SOFTWARE\VideoLAN\VLC@",
            r"HKLM\SOFTWARE\VideoLAN\VLC@InstallDir",
            "vlc.exe",
        ]
    );
    assert_eq!(tried(Platform::MacOs), vec!["/Applications/VLC.app/Contents/MacOS/VLC", "vlc"]);
    assert_eq!(tried(Platform::Linux), vec!["vlc"]);
}

#[test]
fn the_first_place_counts() {
    let outcomes = vec![None, Some("/a".to_string()), Some("/b".to_string())];
    assert!(matches!(find_vlc_path(Platform::Windows, &outcomes), VlcSearch::Found(path) if path == "/a"));
}

#[test]
fn the_first_candidate_that_exists_is_taken() {
    let candidates: Vec<String> = ["/a/vlc", "/b/vlc", "/c/vlc"].iter().map(|c| c.to_string()).collect();
    assert_eq!(first_existing(&candidates, &vec![false, true, true]).as_deref(), Some("/b/vlc"));
    assert_eq!(first_existing(&candidates, &vec![false, false, false]), None);
    assert_eq!(first_existing(&candidates, &vec![false]), None);
    assert_eq!(first_existing(&Vec::new(), &Vec::new()), None);
    let found = first_existing(&candidates, &vec![false, false, true]);
    assert!(matches!(find_vlc_path(Platform::Linux, &vec![found]), VlcSearch::Found(path) if path == "/c/vlc"));
    assert_eq!(registry_candidate("C:\\x\\vlc.exe", &None), "C:\\x\\vlc.exe");
    let joined = registry_candidate("C:\\VLC", &Some("vlc.exe".to_string()));
    assert!(joined == "C:\\VLC\\vlc.exe" || joined == "C:\\VLC/vlc.exe");
}

#[test]
fn the_registry_is_read() {
    assert_eq!(registry_arguments("K", &None), vec!["query", "K", "/ve"]);
    assert_eq!(registry_arguments("K", &Some("V".to_string())), vec!["query", "K", "/v", "V"]);
    let output = "\r\nHKEY_LOCAL_MACHINE\\REG_SZ x\r\n    (Default)    REG_SZ    C:\\VLC\\vlc.exe  \r\n";
    assert_eq!(read_registry_value(output).as_deref(), Some("C:\\VLC\\vlc.exe"));
    assert_eq!(query_registry_value(true, &output.as_bytes().to_vec()).as_deref(), Some("C:\\VLC\\vlc.exe"));
    assert_eq!(query_registry_value(false, &output.as_bytes().to_vec()), None);
    assert_eq!(read_registry_value("    (Default)    REG_SZ    \r\n"), None);
    assert_eq!(read_registry_value("    x    REG_DWORD    1\r\n"), None);
    let mut broken = b"  x  REG_SZ  a".to_vec();
    broken.push(0xff);
    assert_eq!(query_registry_value(true, &broken).as_deref(), Some("a\u{fffd}"));
}

#[test]
fn passwords_are_new_each_time() {
    let one = new_control_password();
    assert_eq!(one.len(), 32);
    assert!(one.chars().all(|c| c.is_ascii_hexdigit() && !c.is_ascii_uppercase()));
    assert_ne!(one, new_control_password());
}

#[test]
fn vlc_is_started_with_its_arguments() {
    assert_eq!(
        vlc_arguments(9000, "pw", d(4.9), "/v.mkv"),
        vec![
            "--play-and-exit",
            "--no-one-instance",
            "--extraintf=http",
            "--http-host=127.0.0.1",
            "--http-port=9000",
            "--http-password=pw",
            "--no-video-title-show",
            "/v.mkv",
        ]
    );
    let resumed = vlc_arguments(9000, "pw", d(65.9), "/v.mkv");
    assert_eq!(resumed[7], "--start-time=65");
    assert_eq!(resumed[8], "/v.mkv");
    let far = vlc_arguments(1, "", d(f64::INFINITY), "v");
    assert_eq!(far[7], format!("--start-time={}", f64::INFINITY.floor() as i64));
}

#[test]
fn vlc_is_noted_when_it_is_started() {
    let mut sessions = PlaybackSessions::new();
    assert!(matches!(start_vlc(&mut sessions, "v", None, VlcStart::Spawned), VlcStartStep::Wait));
    assert_eq!(sessions.get("v"), Some(false));
    match start_vlc(&mut sessions, "v", Some(d(9.0)), VlcStart::Waited { tracking_enabled: true }) {
        VlcStartStep::Watch(monitor, result) => {
            assert_eq!(monitor.video_id, "v");
            assert!(monitor.tracking_enabled && monitor.last_status.is_none());
            assert!(result.tracking_enabled && result.resumed);
        }
        other => panic!("{other:?}"),
    }
    assert_eq!(sessions.get("v"), Some(true));
    start_vlc(&mut sessions, "w", None, VlcStart::Waited { tracking_enabled: true });
    assert_eq!(sessions.get("w"), None);
}
