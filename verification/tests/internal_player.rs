use cinematic::double::Double;
use cinematic::json::parse_json;
use cinematic::json::Json;
use cinematic::models::PlayerStateSnapshot;
use cinematic::platform::Platform;
use cinematic::player::controls::check_open;
use cinematic::player::controls::close;
use cinematic::player::controls::get_snapshot;
use cinematic::player::controls::layout_player_surfaces;
use cinematic::player::controls::open;
use cinematic::player::controls::open_result;
use cinematic::player::controls::refresh_paused_frame;
use cinematic::player::controls::seek_relative;
use cinematic::player::controls::seek_to;
use cinematic::player::controls::set_audio_track;
use cinematic::player::controls::set_speed;
use cinematic::player::controls::set_subtitle_track;
use cinematic::player::controls::set_surface_bounds;
use cinematic::player::controls::set_volume;
use cinematic::player::controls::toggle_fullscreen;
use cinematic::player::controls::toggle_pause;
use cinematic::player::controls::OpenPlan;
use cinematic::player::focus::FocusStep;
use cinematic::player::focus::FocusWatch;
use cinematic::player::ipc::command_json;
use cinematic::player::ipc::ipc_line;
use cinematic::player::ipc::opening_commands;
use cinematic::player::ipc::IpcArg;
use cinematic::player::ipc::IpcCommand;
use cinematic::player::launch::build_mpv_command;
use cinematic::player::launch::check_runtime_dir;
use cinematic::player::launch::class_registration;
use cinematic::player::launch::create_session;
use cinematic::player::launch::missing_sidecar;
use cinematic::player::launch::new_pipe_name;
use cinematic::player::launch::video_host_reply;
use cinematic::player::launch::wait_for_ipc;
use cinematic::player::launch::HostReply;
use cinematic::player::launch::IpcConnection;
use cinematic::player::launch::IpcWait;
use cinematic::player::launch::LaunchAction;
use cinematic::player::launch::LaunchStep;
use cinematic::player::manager::PlayerManager;
use cinematic::player::messages::read_message;
use cinematic::player::messages::reader_step;
use cinematic::player::messages::LineRead;
use cinematic::player::messages::PlayerAction;
use cinematic::player::messages::PlayerShared;
use cinematic::player::messages::ReaderStep;
use cinematic::player::session::session_title;
use cinematic::player::surface::default_surface_bounds;
use cinematic::player::surface::resolve_surface_bounds;
use cinematic::player::surface::PlayerSurfaceBounds;
use cinematic::player::tracks::update_track_list;
use cinematic::progress::WatchMarks;

fn d(x: f64) -> Double {
    Double { bits: x.to_bits() }
}

fn shown(command: &IpcCommand) -> String {
    let args: Vec<String> = command
        .args
        .iter()
        .map(|a| match a {
            IpcArg::Text(t) => t.clone(),
            IpcArg::Integer(n) => n.to_string(),
            IpcArg::Real(x) => format!("{:?}", f64::from_bits(x.bits)),
        })
        .collect();
    match command.request_id {
        Some(id) => format!("{} #{id}", args.join(" ")),
        None => args.join(" "),
    }
}

fn session() -> PlayerShared {
    PlayerShared::opened("v", "/v.mkv", "V", d(30.0), true)
}

fn message(text: &str) -> Json {
    read_message(text).unwrap()
}

fn marks(length: f64) -> Option<WatchMarks> {
    Some(WatchMarks {
        length_secs: d(length),
        grace_mark_secs: d(length - 15.0),
        ratio_mark_secs: d(length * 0.98),
    })
}

#[test]
fn a_session_begins_with_a_video() {
    let shared = session();
    assert_eq!(shared.snapshot.video_id.as_deref(), Some("v"));
    assert_eq!(shared.snapshot.video_path.as_deref(), Some("/v.mkv"));
    assert_eq!(shared.snapshot.title.as_deref(), Some("V"));
    assert_eq!(shared.snapshot.position_secs, d(30.0));
    assert_eq!(shared.snapshot.volume, d(100.0));
    assert!(shared.snapshot.fullscreen && !shared.snapshot.is_loaded && !shared.snapshot.paused);
    assert_eq!(PlayerShared::opened("v", "p", "t", d(-1.0), false).snapshot.position_secs, d(0.0));
}

#[test]
fn an_idle_player_shows_nothing() {
    let idle = PlayerStateSnapshot::default();
    assert_eq!(idle.volume, d(100.0));
    assert_eq!(idle.position_secs, d(0.0));
    assert!(idle.video_id.is_none() && idle.duration_secs.is_none() && !idle.paused);
    assert!(idle.clone().subtitle_tracks.is_empty());
}

#[test]
fn properties_are_taken_over() {
    let mut shared = session();
    for (text, check) in [
        (r#"{"event":"property-change","name":"time-pos","data":12.5}"#, "time"),
        (r#"{"event":"property-change","name":"duration","data":100}"#, "duration"),
        (r#"{"event":"property-change","name":"pause","data":true}"#, "pause"),
        (r#"{"event":"property-change","name":"volume","data":55.5}"#, "volume"),
        (r#"{"event":"property-change","name":"sid","data":2}"#, "sid"),
        (r#"{"event":"property-change","name":"aid","data":3}"#, "aid"),
    ] {
        let reaction = shared.handle_message(&message(text));
        assert!(reaction.emit_state, "{check}");
        assert!(!reaction.emit_sync && !reaction.persist && !reaction.cleanup);
    }
    assert_eq!(shared.snapshot.position_secs, d(12.5));
    assert_eq!(shared.snapshot.duration_secs, Some(d(100.0)));
    assert!(shared.snapshot.paused);
    assert_eq!(shared.snapshot.volume, d(55.5));
    assert_eq!(shared.snapshot.active_subtitle_id, Some(2));
    assert_eq!(shared.snapshot.active_audio_id, Some(3));
    for text in [
        r#"{"event":"property-change","name":"time-pos","data":-4}"#,
        r#"{"event":"property-change","name":"duration"}"#,
        r#"{"event":"property-change","name":"pause","data":1}"#,
        r#"{"event":"property-change","name":"volume","data":null}"#,
        r#"{"event":"property-change","name":"sid","data":false}"#,
    ] {
        assert!(shared.handle_message(&message(text)).emit_state);
    }
    assert_eq!(shared.snapshot.position_secs, d(0.0));
    assert_eq!(shared.snapshot.duration_secs, None);
    assert!(!shared.snapshot.paused);
    assert_eq!(shared.snapshot.volume, d(55.5));
    assert_eq!(shared.snapshot.active_subtitle_id, None);
}

#[test]
fn other_messages_change_nothing() {
    let mut shared = session();
    for text in [
        r#"{"event":"property-change","name":"speed","data":2}"#,
        r#"{"event":"property-change"}"#,
        r#"{"event":"idle"}"#,
        r#"{"request_id":101,"data":"loud"}"#,
        r#"{"request_id":7,"data":3}"#,
        r#"{}"#,
        r#"[1,2]"#,
    ] {
        let reaction = shared.handle_message(&message(text));
        assert!(!reaction.emit_state && !reaction.emit_sync && !reaction.cleanup, "{text}");
    }
    assert_eq!(shared.snapshot.volume, d(100.0));
    assert_eq!(shared.snapshot.position_secs, d(30.0));
    assert!(read_message("not a message").is_none());
    assert!(read_message("  \n").is_none());
}

#[test]
fn replies_are_taken_over() {
    let mut shared = session();
    assert!(shared.handle_message(&message(" {\"request_id\":101,\"data\":40}\n")).emit_state);
    assert_eq!(shared.snapshot.volume, d(40.0));
    let tracks = r#"{"request_id":100,"data":[{"type":"audio","id":1,"selected":true}]}"#;
    assert!(shared.handle_message(&message(tracks)).emit_state);
    assert_eq!(shared.snapshot.audio_tracks.len(), 1);
    assert!(shared.handle_message(&message(r#"{"request_id":100}"#)).emit_state);
    assert!(shared.snapshot.audio_tracks.is_empty());
}

#[test]
fn tracks_are_listed_by_kind() {
    let list = parse_json(
        r#"[
            {"type":"sub","id":1,"title":"English","lang":"en","codec":"srt","external":true,"selected":true},
            {"type":"video","id":1},
            {"type":"audio","id":2},
            {"type":"audio"},
            {"id":3},
            {"type":"sub","id":4,"title":5,"external":"yes"}
        ]"#,
    )
    .unwrap();
    let mut snapshot = PlayerStateSnapshot::default();
    update_track_list(&mut snapshot, &list);
    assert_eq!(snapshot.subtitle_tracks.len(), 2);
    let first = &snapshot.subtitle_tracks[0];
    assert_eq!((first.id, first.kind.as_str()), (1, "sub"));
    assert_eq!(first.title.as_deref(), Some("English"));
    assert_eq!(first.lang.as_deref(), Some("en"));
    assert_eq!(first.codec.as_deref(), Some("srt"));
    assert!(first.external && first.selected);
    let second = snapshot.subtitle_tracks[1].clone();
    assert_eq!((second.id, second.title, second.external), (4, None, false));
    assert_eq!(snapshot.audio_tracks.len(), 1);
    assert_eq!(snapshot.audio_tracks[0].id, 2);
    update_track_list(&mut snapshot, &Json::Null);
    assert!(snapshot.subtitle_tracks.is_empty() && snapshot.audio_tracks.is_empty());
}

#[test]
fn a_pending_position_is_sought_when_the_file_is_loaded() {
    let mut shared = session();
    shared.pending_resume_secs = Some(d(77.5));
    let reaction = shared.handle_message(&message(r#"{"event":"file-loaded"}"#));
    assert!(shared.snapshot.is_loaded);
    assert_eq!(reaction.seek_secs, Some(d(77.5)));
    assert_eq!(shared.pending_resume_secs, None);
    let actions = shared.finish_message(&reaction, 0, None);
    assert_eq!(actions.len(), 2);
    assert!(matches!(&actions[0], PlayerAction::Send(c) if shown(c) == "seek 77.5 absolute exact"));
    assert!(matches!(&actions[1], PlayerAction::ShowState(s) if s.is_loaded));
    let again = shared.handle_message(&message(r#"{"event":"file-loaded"}"#));
    assert_eq!(again.seek_secs, None);
}

#[test]
fn the_end_of_a_file_keeps_progress() {
    let mut shared = session();
    let reaction = shared.handle_message(&message(r#"{"event":"end-file"}"#));
    let actions = shared.finish_message(&reaction, 100, None);
    assert_eq!(actions.len(), 2);
    assert!(matches!(&actions[0], PlayerAction::Persist(u) if u.progress_secs == d(30.0) && !u.mark_watched));
    assert!(matches!(&actions[1], PlayerAction::Resync));
}

#[test]
fn progress_is_kept_every_two_seconds_and_at_the_end() {
    let mut shared = session();
    let reaction = shared.handle_message(&message(r#"{"event":"idle"}"#));
    assert!(shared.finish_message(&reaction, 1999, None).is_empty());
    let due = shared.finish_message(&reaction, 2000, None);
    assert_eq!(due.len(), 3);
    assert!(matches!(&due[0], PlayerAction::Persist(u) if u.progress_secs == d(30.0)));
    assert!(matches!(&due[1], PlayerAction::RestartTimer));
    assert!(matches!(&due[2], PlayerAction::Resync));
    let watched = shared.finish_message(&reaction, 0, marks(30.0));
    assert!(matches!(&watched[0], PlayerAction::Persist(u) if u.mark_watched && u.progress_secs == d(0.0)));
}

#[test]
fn a_shutdown_ends_the_session() {
    let mut shared = session();
    let reaction = shared.handle_message(&message(r#"{"event":"shutdown"}"#));
    let actions = shared.finish_message(&reaction, 0, None);
    assert_eq!(actions.len(), 1);
    assert!(matches!(&actions[0], PlayerAction::CleanUp));
}

#[test]
fn another_video_is_loaded() {
    let mut shared = session();
    shared.handle_message(&message(r#"{"event":"property-change","name":"volume","data":20}"#));
    assert!(shared.load_video("v", "/v.mkv", "V", d(0.0), None).is_none());
    let switch = shared.load_video("w", "/w.mkv", "W", d(6.0), None).unwrap();
    assert_eq!(switch.previous_video_id.as_deref(), Some("v"));
    assert_eq!(shown(&switch.command), "loadfile /w.mkv replace");
    assert_eq!(switch.progress.unwrap().progress_secs, d(30.0));
    assert_eq!(shared.snapshot.video_id.as_deref(), Some("w"));
    assert_eq!(shared.snapshot.title.as_deref(), Some("W"));
    assert_eq!(shared.snapshot.position_secs, d(0.0));
    assert_eq!(shared.snapshot.volume, d(20.0));
    assert!(shared.snapshot.fullscreen && !shared.snapshot.is_loaded);
    assert_eq!(shared.pending_resume_secs, Some(d(6.0)));
    // The same video at another path is another one.
    assert!(shared.load_video("w", "/x.mkv", "W", d(4.0), None).is_some());
    assert_eq!(shared.pending_resume_secs, None);
}

#[test]
fn a_title_comes_from_the_catalogue_or_the_path() {
    assert_eq!(session_title(&Some("Known".to_string()), "/a_b.mkv"), "Known");
    assert_eq!(session_title(&None, "/x/a_b.mkv"), "a b");
}

#[test]
fn sessions_come_and_go() {
    let mut manager = PlayerManager::new();
    assert_eq!(manager.get(), None);
    assert_eq!(manager.snapshot().video_id, None);
    assert!(manager.has_room());
    let first = manager.set(session());
    let second = manager.set(PlayerShared::opened("w", "/w", "W", d(0.0), false));
    assert_ne!(first, second);
    assert_eq!(manager.get(), Some(second));
    assert_eq!(manager.current_video_id().as_deref(), Some("w"));
    assert!(!manager.is_terminated(first));
    let cleanup = manager.cleanup_session(first, None).unwrap();
    assert_eq!(shown(&cleanup.command), "quit");
    assert_eq!(cleanup.video_id.as_deref(), Some("v"));
    assert_eq!(cleanup.progress.unwrap().progress_secs, d(30.0));
    assert!(manager.is_terminated(first));
    assert!(manager.cleanup_session(first, None).is_none());
    assert!(!manager.clear_if_current(first));
    assert_eq!(manager.get(), Some(second));
    assert!(manager.cleanup_session(second, None).unwrap().progress.is_none());
    assert!(manager.clear_if_current(second));
    assert_eq!(manager.get(), None);
    assert_eq!(get_snapshot(&manager).video_id, None);
    assert!(manager.session_state(second).is_some());
    manager.forget(second);
    assert!(manager.session_state(second).is_none());
    assert!(!manager.clear_if_current(second));
}

#[test]
fn messages_reach_their_session() {
    let mut manager = PlayerManager::new();
    let first = manager.set(session());
    let second = manager.set(PlayerShared::opened("w", "/w", "W", d(0.0), false));
    let pause = message(r#"{"event":"property-change","name":"pause","data":true}"#);
    let reaction = manager.handle_message(first, &pause).unwrap();
    assert!(reaction.emit_state);
    assert!(manager.session_state(first).unwrap().snapshot.paused);
    assert!(!manager.session_state(second).unwrap().snapshot.paused);
    assert_eq!(manager.finish_message(first, &reaction, 0, None).len(), 1);
    assert!(manager.finish_message(99, &reaction, 0, None).is_empty());
    assert!(manager.handle_message(99, &pause).is_none());
    assert!(manager.load_video_into_session(99, "x", "/x", "X", d(0.0), None).is_none());
    assert!(manager.load_video_into_session(second, "x", "/x", "X", d(0.0), None).is_some());
    assert_eq!(manager.current_video_id().as_deref(), Some("x"));
    assert!(manager.note_fullscreen(true).unwrap().fullscreen);
    assert!(PlayerManager::new().note_fullscreen(true).is_none());
}

#[test]
fn controls_send_commands() {
    let mut manager = PlayerManager::new();
    manager.set(session());
    let on = Platform::Windows;
    assert_eq!(shown(&toggle_pause(on, &manager).unwrap()), "cycle pause");
    assert_eq!(shown(&seek_relative(on, &manager, d(-10.0)).unwrap()), "seek -10.0 relative");
    assert_eq!(shown(&seek_to(on, &manager, d(-1.0)).unwrap()), "seek 0.0 absolute exact");
    assert_eq!(shown(&seek_to(on, &manager, d(8.5)).unwrap()), "seek 8.5 absolute exact");
    assert_eq!(shown(&set_speed(on, &manager, d(0.0)).unwrap()), "set_property speed 0.1");
    assert_eq!(shown(&set_speed(on, &manager, d(1.5)).unwrap()), "set_property speed 1.5");
    assert_eq!(shown(&set_volume(on, &manager, d(120.0)).unwrap()), "set_property volume 100.0");
    assert_eq!(shown(&set_volume(on, &manager, d(-5.0)).unwrap()), "set_property volume 0.0");
    assert_eq!(shown(&set_volume(on, &manager, d(70.0)).unwrap()), "set_property volume 70.0");
    assert_eq!(shown(&set_subtitle_track(on, &manager, Some(3)).unwrap()), "set_property sid 3");
    assert_eq!(shown(&set_subtitle_track(on, &manager, None).unwrap()), "set_property sid no");
    assert_eq!(shown(&set_audio_track(on, &manager, None).unwrap()), "set_property aid no");
    assert_eq!(shown(&set_audio_track(on, &manager, Some(-1)).unwrap()), "set_property aid -1");
}

#[test]
fn controls_are_refused() {
    let mut manager = PlayerManager::new();
    let closed = "The internal player is not open.";
    assert_eq!(toggle_pause(Platform::Windows, &manager).unwrap_err(), closed);
    assert_eq!(seek_to(Platform::Windows, &manager, d(1.0)).unwrap_err(), closed);
    assert_eq!(toggle_fullscreen(Platform::Windows, &manager, Some(true)).unwrap_err(), closed);
    assert!(refresh_paused_frame(Platform::Windows, &manager).unwrap().is_none());
    let id = manager.set(session());
    let elsewhere = "The internal player is only available on Windows right now.";
    for platform in [Platform::Linux, Platform::MacOs] {
        assert_eq!(toggle_pause(platform, &manager).unwrap_err(), elsewhere);
        assert_eq!(seek_relative(platform, &manager, d(1.0)).unwrap_err(), elsewhere);
        assert_eq!(set_speed(platform, &manager, d(1.0)).unwrap_err(), elsewhere);
        assert_eq!(set_volume(platform, &manager, d(1.0)).unwrap_err(), elsewhere);
        assert_eq!(set_subtitle_track(platform, &manager, None).unwrap_err(), elsewhere);
        assert_eq!(set_audio_track(platform, &manager, None).unwrap_err(), elsewhere);
        assert_eq!(refresh_paused_frame(platform, &manager).unwrap_err(), elsewhere);
        assert_eq!(toggle_fullscreen(platform, &manager, Some(true)).unwrap_err(), elsewhere);
        assert_eq!(set_surface_bounds(platform, &mut manager, None).unwrap_err(), elsewhere);
        assert_eq!(close(platform, &manager), None);
        assert_eq!(
            open(platform, &manager, true).unwrap_err(),
            "The bundled internal mpv player is only available on Windows right now."
        );
    }
    assert_eq!(close(Platform::Windows, &manager), Some(id));
    assert_eq!(toggle_fullscreen(Platform::Windows, &manager, None).unwrap_err(), closed);
    assert_eq!(toggle_fullscreen(Platform::Windows, &manager, Some(true)), Ok(false));
}

#[test]
fn a_video_is_opened() {
    let mut manager = PlayerManager::new();
    assert_eq!(open(Platform::Windows, &manager, false), Ok(OpenPlan::Create));
    let id = manager.set(session());
    assert_eq!(open(Platform::Windows, &manager, true), Ok(OpenPlan::Reuse(id)));
    assert_eq!(open(Platform::Windows, &manager, false), Ok(OpenPlan::Replace(id)));
    let plain = open_result(d(-3.0));
    assert_eq!(plain.message, "Opened in the Cinematic player.");
    assert_eq!(plain.resume_position_secs, d(0.0));
    assert!(plain.tracking_enabled && !plain.resumed && !plain.fallback_used && !plain.already_running);
    let resumed = open_result(d(9.0));
    assert_eq!(
        resumed.message,
        "Opened in the Cinematic player and resumed from your last saved position."
    );
    assert!(resumed.resumed);
}

#[test]
fn a_paused_frame_is_drawn_anew() {
    let mut manager = PlayerManager::new();
    let id = manager.set(session());
    assert!(refresh_paused_frame(Platform::Windows, &manager).unwrap().is_none());
    manager.handle_message(id, &message(r#"{"event":"file-loaded"}"#));
    assert!(refresh_paused_frame(Platform::Windows, &manager).unwrap().is_none());
    manager.handle_message(id, &message(r#"{"event":"property-change","name":"pause","data":true}"#));
    let command = refresh_paused_frame(Platform::Windows, &manager).unwrap().unwrap();
    assert_eq!(shown(&command), "seek 30.0 absolute exact");
}

#[test]
fn a_window_is_watched() {
    let mut watch = FocusWatch::begin(true, Some(true));
    assert!(!watch.look(true, Some(true), 1000));
    assert!(!watch.look(false, Some(true), 1000));
    assert!(!watch.look(true, Some(true), 299));
    assert!(watch.look(true, Some(true), 300));
    assert!(!watch.look(true, Some(true), 1000));
    assert!(!watch.look(true, Some(false), 1000));
    assert!(watch.look(true, Some(true), 1000));
    assert!(!watch.look(true, None, 1000));
    assert!(!FocusWatch::begin(false, None).host_was_visible);
}

#[test]
fn the_connection_begins_with_its_commands() {
    let lines: Vec<String> = opening_commands().iter().map(shown).collect();
    assert_eq!(
        lines,
        vec![
            "observe_property 1 time-pos",
            "observe_property 2 duration",
            "observe_property 3 pause",
            "observe_property 4 volume",
            "observe_property 5 track-list",
            "observe_property 6 sid",
            "observe_property 7 aid",
            "get_property track-list #100",
            "get_property volume #101",
        ]
    );
    assert_eq!(ipc_line("{}"), "{}\n");
}

#[test]
fn the_process_is_started_with_its_arguments() {
    let args = build_mpv_command("/log", "pipe", -7, "/v.mkv", d(4.0), "4.000");
    assert_eq!(args.len(), 17);
    assert_eq!(args[0], "--no-config");
    assert_eq!(args[12], "--background-color=#000000");
    assert_eq!(&args[13..], ["--log-file=/log", "--input-ipc-server=pipe", "--wid=-7", "/v.mkv"]);
    let resumed = build_mpv_command("/log", "pipe", 7, "/v.mkv", d(5.0), "5.000");
    assert_eq!(resumed[17], "--start=5.000");
    let pipe = new_pipe_name();
    assert!(pipe.starts_with(r"\\.\pipe\cinematic-mpv-"));
    assert_eq!(pipe.len(), r"\\.\pipe\cinematic-mpv-".len() + 36);
    assert_ne!(pipe, new_pipe_name());
}

#[test]
fn a_start_that_fails_is_told() {
    assert_eq!(check_runtime_dir("/mpv", true), Ok(()));
    assert_eq!(
        check_runtime_dir("/mpv", false).unwrap_err(),
        "Bundled mpv runtime directory was not found: /mpv"
    );
    assert!(missing_sidecar("gone").ends_with("Details: gone"));
    assert!(matches!(wait_for_ipc(IpcConnection::Writer, &None, 9000), IpcWait::Connected));
    let error = Some("busy".to_string());
    assert!(matches!(wait_for_ipc(IpcConnection::Writer, &error, 5999), IpcWait::Retry));
    assert!(matches!(wait_for_ipc(IpcConnection::Writer, &error, 6000), IpcWait::GiveUp(e)
        if e == "Bundled mpv started but its IPC pipe never became ready: busy"));
    assert!(matches!(wait_for_ipc(IpcConnection::Reader, &error, 6000), IpcWait::GiveUp(e)
        if e == "IPC reader connection failed: busy"));
}

#[test]
fn the_window_of_the_video_answers() {
    assert_eq!(class_registration(1, 5, "x"), Ok(()));
    assert_eq!(class_registration(0, 1410, "x"), Ok(()));
    assert_eq!(class_registration(0, 5, "x").unwrap_err(), "Failed to register video host class: x");
    assert_eq!(video_host_reply(0x14), HostReply::KeepBackground);
    assert_eq!(video_host_reply(0x0f), HostReply::ValidateOnly);
    assert_eq!(video_host_reply(0x02), HostReply::Quit);
    assert_eq!(video_host_reply(0x03), HostReply::Default);
}

#[test]
fn the_video_fills_the_window_above_the_controls() {
    assert_eq!(
        default_surface_bounds(1280, 720),
        PlayerSurfaceBounds { left: 0, top: 0, width: 1280, height: 648 }
    );
    assert_eq!(
        default_surface_bounds(0, 72),
        PlayerSurfaceBounds { left: 0, top: 0, width: 1, height: 1 }
    );
    assert_eq!(default_surface_bounds(u32::MAX, 100).width, -1);
    let asked = PlayerSurfaceBounds { left: 5, top: 6, width: 7, height: 8 };
    assert_eq!(resolve_surface_bounds(Some(asked), 1280, 720), asked);
    let empty = PlayerSurfaceBounds { left: 5, top: 6, width: 0, height: 8 };
    assert_eq!(resolve_surface_bounds(Some(empty), 1280, 720), default_surface_bounds(1280, 720));
    assert_eq!(empty.to_drawable().width, 1);
    assert_eq!(asked.moved_to(-1, -2), PlayerSurfaceBounds { left: -1, top: -2, width: 7, height: 8 });
}

#[test]
fn the_rectangle_asked_for_is_used() {
    let mut manager = PlayerManager::new();
    assert_eq!(layout_player_surfaces(&manager, Some((1280, 720))), None);
    let id = manager.set(session());
    assert_eq!(layout_player_surfaces(&manager, None), None);
    assert_eq!(
        layout_player_surfaces(&manager, Some((1280, 720))),
        Some((id, default_surface_bounds(1280, 720)))
    );
    let asked = PlayerSurfaceBounds { left: 5, top: 6, width: 0, height: 8 };
    assert_eq!(set_surface_bounds(Platform::Windows, &mut manager, Some(asked)), Ok(()));
    assert_eq!(
        layout_player_surfaces(&manager, Some((1280, 720))),
        Some((id, PlayerSurfaceBounds { left: 5, top: 6, width: 1, height: 8 }))
    );
    assert_eq!(
        set_surface_bounds(Platform::Windows, &mut manager, None).unwrap_err(),
        "The main Cinematic window is not available."
    );
    assert!(manager.surface_bounds().is_some());
}

#[test]
fn a_session_is_started_step_by_step() {
    let mut step = LaunchStep::MakeWindow;
    let mut taken = vec![step];
    while let LaunchAction::Take(next) = create_session(step, Ok(())) {
        step = next;
        taken.push(step);
    }
    assert_eq!(
        taken,
        vec![
            LaunchStep::MakeWindow,
            LaunchStep::BuildCommand,
            LaunchStep::Spawn,
            LaunchStep::Connect,
            LaunchStep::LookUpTitle,
            LaunchStep::AskFullscreen,
        ]
    );
    assert!(matches!(create_session(step, Ok(())), LaunchAction::Begin));
    let undone: Vec<(bool, bool)> = taken
        .into_iter()
        .map(|step| match create_session(step, Err("why".to_string())) {
            LaunchAction::GiveUp(undo, told) => {
                assert_eq!(told, "why");
                (undo.close_window, undo.kill_process)
            }
            other => panic!("{other:?}"),
        })
        .collect();
    assert_eq!(
        undone,
        vec![(false, false), (true, false), (true, false), (true, true), (false, false), (false, false)]
    );
}

#[test]
fn a_watch_ends_with_its_session() {
    let mut watch = FocusWatch::begin(false, None);
    assert_eq!(watch.step(false, false, None, 1000), FocusStep::Wait);
    assert_eq!(watch.step(false, true, None, 1000), FocusStep::Refresh);
    assert_eq!(watch.step(false, true, None, 1000), FocusStep::Wait);
    assert_eq!(watch.step(false, false, None, 1000), FocusStep::Wait);
    assert_eq!(watch.step(true, true, None, 1000), FocusStep::End);
}

#[test]
fn reading_ends_the_session_where_nothing_comes() {
    assert!(matches!(reader_step(LineRead::End), ReaderStep::CleanUp));
    assert!(matches!(reader_step(LineRead::Failed), ReaderStep::CleanUp));
    assert!(matches!(reader_step(LineRead::Line("nothing\n".to_string())), ReaderStep::Skip));
    match reader_step(LineRead::Line(" {\"event\":\"idle\"}\n".to_string())) {
        ReaderStep::Handle(message) => assert_eq!(message.text_at("event").as_deref(), Some("idle")),
        other => panic!("{other:?}"),
    }
}

#[test]
fn a_command_is_an_object() {
    let mut manager = PlayerManager::new();
    manager.set(session());
    let seek = command_json(&seek_relative(Platform::Windows, &manager, d(-2.5)).unwrap());
    let args = match seek.get("command").unwrap() {
        Json::Array(args) => args,
        other => panic!("{other:?}"),
    };
    assert_eq!(args[0].as_str(), Some("seek"));
    assert_eq!(args[1].as_double(), Some(d(-2.5)));
    assert_eq!(args[2].as_str(), Some("relative"));
    assert!(seek.get("request_id").is_none());
    for endless in [f64::NAN, f64::INFINITY, f64::NEG_INFINITY] {
        let seek = command_json(&seek_relative(Platform::Windows, &manager, d(endless)).unwrap());
        assert!(matches!(seek.get("command").unwrap(), Json::Array(args) if matches!(args[1], Json::Null)));
    }
    let asked = command_json(&opening_commands()[7]);
    assert_eq!(asked.int_at("request_id"), Some(100));
    let observed = command_json(&opening_commands()[0]);
    assert!(matches!(observed.get("command").unwrap(), Json::Array(args) if args[1].as_i64() == Some(1)));
}

#[test]
fn a_session_that_has_ended_still_takes_its_messages() {
    let mut manager = PlayerManager::new();
    let id = manager.set(session());
    manager.forget(id);
    assert_eq!(manager.get(), Some(id));
    manager.cleanup_session(id, None).unwrap();
    assert!(manager.clear_if_current(id));
    let moved = message(r#"{"event":"property-change","name":"time-pos","data":40}"#);
    let reaction = manager.handle_message(id, &moved).unwrap();
    let actions = manager.finish_message(id, &reaction, 2000, None);
    assert!(matches!(&actions[0], PlayerAction::Persist(u) if u.progress_secs == d(40.0)));
    assert!(matches!(&actions[2], PlayerAction::ShowState(s) if s.position_secs == d(40.0)));
    assert!(manager.load_video_into_session(id, "w", "/w", "W", d(0.0), None).is_some());
    assert_eq!(manager.get(), None);
}

#[test]
fn a_session_begins_as_the_current_one() {
    let mut manager = PlayerManager::new();
    let id = manager.begin("v", "/v.mkv", "V", d(7.5), true);
    assert_eq!(manager.get(), Some(id));
    let shown = manager.snapshot();
    assert_eq!(shown.video_id.as_deref(), Some("v"));
    assert_eq!(shown.title.as_deref(), Some("V"));
    assert_eq!(shown.position_secs, d(7.5));
    assert!(shown.fullscreen);
}

#[test]
fn a_control_is_checked_before_it_is_used() {
    let mut manager = PlayerManager::new();
    assert!(check_open(Platform::Windows, &manager).is_err());
    manager.set(session());
    assert_eq!(check_open(Platform::Windows, &manager), Ok(()));
    assert!(check_open(Platform::MacOs, &manager).is_err());
}
