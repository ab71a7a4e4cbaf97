//! What the controls of the player ask of it.
use crate::double::Double;
use crate::models::PlaybackLaunchResult;
use crate::models::PlaybackLaunchResultView;
use crate::models::PlayerStateSnapshot;
use crate::platform::Platform;
use crate::player::ipc::cycle_pause_command;
use crate::player::ipc::cycle_pause_spec;
use crate::player::ipc::seek_exact_command;
use crate::player::ipc::seek_exact_spec;
use crate::player::ipc::seek_relative_command;
use crate::player::ipc::seek_relative_spec;
use crate::player::ipc::set_property_command;
use crate::player::ipc::set_property_spec;
use crate::player::ipc::track_argument;
use crate::player::ipc::track_choice;
use crate::player::ipc::IpcArg;
use crate::player::ipc::IpcArgView;
use crate::player::ipc::IpcCommand;
use crate::player::ipc::IpcCommandView;
use crate::player::manager::PlayerManager;
use crate::player::manager::PlayerManagerView;
use crate::player::surface::resolve_surface_bounds;
use crate::player::surface::resolved_bounds;
use crate::player::surface::PlayerSurfaceBounds;
use crate::progress::is_resumable;
use crate::progress::resumable;
use vstd::prelude::*;

verus! {

/// The least speed, `0.1`.
pub const MIN_SPEED: u64 = 0x3fb9_9999_9999_999a;

/// The greatest volume, `100.0`.
pub const MAX_VOLUME: u64 = 0x4059_0000_0000_0000;

/// Why a control is refused; nothing where it is not.
pub open spec fn refusal(platform: Platform, manager: PlayerManagerView) -> Option<Seq<char>> {
    if platform != Platform::Windows {
        Some("The internal player is only available on Windows right now."@)
    } else if manager.session is None {
        Some("The internal player is not open."@)
    } else {
        None
    }
}

/// A control sends `command`, or is refused.
pub open spec fn sends(
    result: Result<IpcCommand, String>,
    platform: Platform,
    manager: PlayerManagerView,
    command: IpcCommandView,
) -> bool {
    match result {
        Ok(c) => refusal(platform, manager) is None && c@ == command,
        Err(e) => refusal(platform, manager) == Some(e@),
    }
}

/// Whether a control can be used.
pub fn check_open(platform: Platform, manager: &PlayerManager) -> (r: Result<(), String>)
    ensures
        match r {
            Ok(_) => refusal(platform, manager@) is None,
            Err(e) => refusal(platform, manager@) == Some(e@),
        },
{
    match platform {
        Platform::Windows => match manager.get() {
            Some(_) => Ok(()),
            None => Err("The internal player is not open.".to_owned()),
        },
        _ => Err("The internal player is only available on Windows right now.".to_owned()),
    }
}

/// Pauses, or goes on.
pub fn toggle_pause(platform: Platform, manager: &PlayerManager) -> (r: Result<IpcCommand, String>)
    ensures
        sends(r, platform, manager@, cycle_pause_spec()),
        r is Ok <==> platform == Platform::Windows && manager@.session is Some,
        r matches Ok(c) ==> c@.args == seq![IpcArgView::Text("cycle"@), IpcArgView::Text("pause"@)],
{
    match check_open(platform, manager) {
        Ok(_) => Ok(cycle_pause_command()),
        Err(e) => Err(e),
    }
}

/// Seeks forward, or back where `seconds` is negative.
pub fn seek_relative(platform: Platform, manager: &PlayerManager, seconds: Double) -> (r: Result<
    IpcCommand,
    String,
>)
    ensures
        sends(r, platform, manager@, seek_relative_spec(seconds)),
        r is Ok <==> platform == Platform::Windows && manager@.session is Some,
        r matches Ok(c) ==> c@.args == seq![
            IpcArgView::Text("seek"@),
            IpcArgView::Real(seconds),
            IpcArgView::Text("relative"@),
        ],
{
    match check_open(platform, manager) {
        Ok(_) => Ok(seek_relative_command(seconds)),
        Err(e) => Err(e),
    }
}

/// Seeks to a position; to the start where it is negative.
pub fn seek_to(platform: Platform, manager: &PlayerManager, seconds: Double) -> (r: Result<
    IpcCommand,
    String,
>)
    ensures
        sends(r, platform, manager@, seek_exact_spec(seconds.floored())),
        r is Ok <==> platform == Platform::Windows && manager@.session is Some,
        r matches Ok(c) ==> c@.args == seq![
            IpcArgView::Text("seek"@),
            IpcArgView::Real(
                if seconds.above(Double { bits: 0 }) {
                    seconds
                } else {
                    Double { bits: 0 }
                },
            ),
            IpcArgView::Text("absolute"@),
            IpcArgView::Text("exact"@),
        ],
{
    match check_open(platform, manager) {
        Ok(_) => Ok(seek_exact_command(seconds.at_least_zero())),
        Err(e) => Err(e),
    }
}

/// Sets the speed, which is not less than a tenth.
pub fn set_speed(platform: Platform, manager: &PlayerManager, speed: Double) -> (r: Result<
    IpcCommand,
    String,
>)
    ensures
        sends(
            r,
            platform,
            manager@,
            set_property_spec(
                "speed"@,
                IpcArgView::Real(speed.greater_of(Double { bits: MIN_SPEED })),
            ),
        ),
        r is Ok <==> platform == Platform::Windows && manager@.session is Some,
        r matches Ok(c) ==> c@.args == seq![
            IpcArgView::Text("set_property"@),
            IpcArgView::Text("speed"@),
            IpcArgView::Real(
                if speed.above(Double { bits: 0x3fb9_9999_9999_999a }) {
                    speed
                } else {
                    Double { bits: 0x3fb9_9999_9999_999a }
                },
            ),
        ],
{
    match check_open(platform, manager) {
        Ok(_) => Ok(
            set_property_command("speed", IpcArg::Real(speed.max(Double { bits: MIN_SPEED }))),
        ),
        Err(e) => Err(e),
    }
}

/// Sets the volume, which is between none and full.
pub fn set_volume(platform: Platform, manager: &PlayerManager, volume: Double) -> (r: Result<
    IpcCommand,
    String,
>)
    ensures
        sends(
            r,
            platform,
            manager@,
            set_property_spec(
                "volume"@,
                IpcArgView::Real(volume.clamped(Double { bits: 0 }, Double { bits: MAX_VOLUME })),
            ),
        ),
        r is Ok <==> platform == Platform::Windows && manager@.session is Some,
        r matches Ok(c) ==> c@.args == seq![
            IpcArgView::Text("set_property"@),
            IpcArgView::Text("volume"@),
            c@.args[2],
        ],
        r is Ok && volume.at_least(Double { bits: 0 }) && (Double {
            bits: 0x4059_0000_0000_0000,
        }).at_least(volume) ==> r->Ok_0@.args[2] == IpcArgView::Real(volume),
        r is Ok && volume.above(Double { bits: 0x4059_0000_0000_0000 }) ==> r->Ok_0@.args[2]
            == IpcArgView::Real(Double { bits: 0x4059_0000_0000_0000 }),
        r is Ok && (Double { bits: 0 }).above(volume) ==> r->Ok_0@.args[2] == IpcArgView::Real(
            Double { bits: 0 },
        ),
{
    match check_open(platform, manager) {
        Ok(_) => Ok(
            set_property_command(
                "volume",
                IpcArg::Real(volume.clamp(Double { bits: 0 }, Double { bits: MAX_VOLUME })),
            ),
        ),
        Err(e) => Err(e),
    }
}

/// Chooses a subtitle track, or none.
pub fn set_subtitle_track(platform: Platform, manager: &PlayerManager, track_id: Option<i64>) -> (r:
    Result<IpcCommand, String>)
    ensures
        sends(r, platform, manager@, set_property_spec("sid"@, track_choice(track_id))),
        r is Ok <==> platform == Platform::Windows && manager@.session is Some,
        r matches Ok(c) ==> c@.args == seq![
            IpcArgView::Text("set_property"@),
            IpcArgView::Text("sid"@),
            match track_id {
                Some(id) => IpcArgView::Integer(id),
                None => IpcArgView::Text("no"@),
            },
        ],
{
    match check_open(platform, manager) {
        Ok(_) => Ok(set_property_command("sid", track_argument(track_id))),
        Err(e) => Err(e),
    }
}

/// Chooses an audio track, or none.
pub fn set_audio_track(platform: Platform, manager: &PlayerManager, track_id: Option<i64>) -> (r:
    Result<IpcCommand, String>)
    ensures
        sends(r, platform, manager@, set_property_spec("aid"@, track_choice(track_id))),
        r is Ok <==> platform == Platform::Windows && manager@.session is Some,
        r matches Ok(c) ==> c@.args == seq![
            IpcArgView::Text("set_property"@),
            IpcArgView::Text("aid"@),
            match track_id {
                Some(id) => IpcArgView::Integer(id),
                None => IpcArgView::Text("no"@),
            },
        ],
{
    match check_open(platform, manager) {
        Ok(_) => Ok(set_property_command("aid", track_argument(track_id))),
        Err(e) => Err(e),
    }
}

/// What is shown.
pub fn get_snapshot(manager: &PlayerManager) -> (r: PlayerStateSnapshot)
    requires
        manager.well_formed(),
    ensures
        r@ == manager@.shown(),
{
    manager.snapshot()
}

/// The command that draws a paused picture anew: a loaded and paused video seeks
/// to where it is.
pub open spec fn frame_refresh(manager: PlayerManagerView) -> Option<IpcCommandView> {
    if manager.session is Some && manager.shown().is_loaded && manager.shown().paused {
        Some(seek_exact_spec(manager.shown().position_secs.floored()))
    } else {
        None
    }
}

/// Draws the picture of a paused video anew; does nothing where there is none.
pub fn refresh_paused_frame(platform: Platform, manager: &PlayerManager) -> (r: Result<
    Option<IpcCommand>,
    String,
>)
    requires
        manager.well_formed(),
    ensures
        match r {
            Ok(Some(c)) => platform == Platform::Windows && frame_refresh(manager@) == Some(c@),
            Ok(None) => platform == Platform::Windows && frame_refresh(manager@) is None,
            Err(e) => platform != Platform::Windows && e@
                == "The internal player is only available on Windows right now."@,
        },
{
    match platform {
        Platform::Windows => {},
        _ => {
            return Err("The internal player is only available on Windows right now.".to_owned());
        },
    }
    match manager.get() {
        Some(_) => {
            let snapshot = manager.snapshot();
            if !snapshot.is_loaded || !snapshot.paused {
                return Ok(None);
            }
            Ok(Some(seek_exact_command(snapshot.position_secs.at_least_zero())))
        },
        None => Ok(None),
    }
}

/// Why a rectangle is not taken; nothing where it is.
pub open spec fn bounds_refusal(platform: Platform, has_window: bool) -> Option<Seq<char>> {
    if platform != Platform::Windows {
        Some("The internal player is only available on Windows right now."@)
    } else if !has_window {
        Some("The main Cinematic window is not available."@)
    } else {
        None
    }
}

/// Asks for the rectangle of the main window in which the video is shown, in
/// pixels. Nothing is given where there is no main window.
pub fn set_surface_bounds(
    platform: Platform,
    manager: &mut PlayerManager,
    bounds: Option<PlayerSurfaceBounds>,
) -> (r: Result<(), String>)
    requires
        old(manager).well_formed(),
    ensures
        final(manager).well_formed(),
        match r {
            Ok(_) => bounds_refusal(platform, bounds is Some) is None && final(manager)@ == (
            PlayerManagerView {
                surface_bounds: Some(bounds->Some_0.drawable()),
                ..old(manager)@
            }),
            Err(e) => bounds_refusal(platform, bounds is Some) == Some(e@) && final(manager)@
                == old(manager)@,
        },
{
    match platform {
        Platform::Windows => {},
        _ => {
            return Err("The internal player is only available on Windows right now.".to_owned());
        },
    }
    match bounds {
        Some(bounds) => {
            manager.set_surface_bounds(bounds.to_drawable());
            Ok(())
        },
        None => Err("The main Cinematic window is not available.".to_owned()),
    }
}

/// The session whose picture is laid out, and where in the window, of which the
/// size is given. There is nothing to lay out without a window or a session.
pub fn layout_player_surfaces(manager: &PlayerManager, window: Option<(u32, u32)>) -> (r: Option<
    (u64, PlayerSurfaceBounds),
>)
    ensures
        r == match (window, manager@.session) {
            (Some((width, height)), Some(id)) => Some(
                (id, resolved_bounds(manager@.surface_bounds, width, height)),
            ),
            _ => None,
        },
{
    match (window, manager.get()) {
        (Some((width, height)), Some(id)) => Some(
            (id, resolve_surface_bounds(manager.surface_bounds(), width, height)),
        ),
        _ => None,
    }
}

/// Switches between full screen and window: gives what the window is to be.
/// `fullscreen` tells what it is, where there is a main window.
pub fn toggle_fullscreen(
    platform: Platform,
    manager: &PlayerManager,
    fullscreen: Option<bool>,
) -> (r: Result<bool, String>)
    ensures
        match r {
            Ok(next) => refusal(platform, manager@) is None && fullscreen == Some(!next),
            Err(e) => refusal(platform, manager@) == Some(e@) || (refusal(platform, manager@) is None
                && fullscreen is None && e@ == "The internal player is not open."@),
        },
{
    match check_open(platform, manager) {
        Ok(_) => match fullscreen {
            Some(fullscreen) => Ok(!fullscreen),
            None => Err("The internal player is not open.".to_owned()),
        },
        Err(e) => Err(e),
    }
}

/// Closes the player: gives the session that is to be ended.
pub fn close(platform: Platform, manager: &PlayerManager) -> (r: Option<u64>)
    ensures
        r == if platform == Platform::Windows {
            manager@.session
        } else {
            None
        },
{
    match platform {
        Platform::Windows => manager.get(),
        _ => None,
    }
}

/// How a video is opened.
#[derive(Debug, Clone, Copy, PartialEq, Eq, Structural)]
pub enum OpenPlan {
    /// In the session that is running.
    Reuse(u64),
    /// In a new session, after the one whose process is gone was ended.
    Replace(u64),
    /// In a new session.
    Create,
}

/// How a video is opened, where the process of the current session runs or not.
pub open spec fn open_plan(manager: PlayerManagerView, running: bool) -> OpenPlan {
    match manager.session {
        Some(id) => if running {
            OpenPlan::Reuse(id)
        } else {
            OpenPlan::Replace(id)
        },
        None => OpenPlan::Create,
    }
}

/// Opens a video: tells in which session. `running` tells whether the process of
/// the current session is running.
pub fn open(platform: Platform, manager: &PlayerManager, running: bool) -> (r: Result<
    OpenPlan,
    String,
>)
    ensures
        match r {
            Ok(plan) => platform == Platform::Windows && plan == open_plan(manager@, running),
            Err(e) => platform != Platform::Windows && e@
                == "The bundled internal mpv player is only available on Windows right now."@,
        },
{
    match platform {
        Platform::Windows => match manager.get() {
            Some(id) => if running {
                Ok(OpenPlan::Reuse(id))
            } else {
                Ok(OpenPlan::Replace(id))
            },
            None => Ok(OpenPlan::Create),
        },
        _ => Err(
            "The bundled internal mpv player is only available on Windows right now.".to_owned(),
        ),
    }
}

/// What is told of a video that was opened in the player.
pub open spec fn opened_result(resume_secs: Double) -> PlaybackLaunchResultView {
    PlaybackLaunchResultView {
        tracking_enabled: true,
        already_running: false,
        resumed: resumable(resume_secs),
        resume_position_secs: resume_secs.floored(),
        fallback_used: false,
        message: if resumable(resume_secs) {
            "Opened in the Cinematic player and resumed from your last saved position."@
        } else {
            "Opened in the Cinematic player."@
        },
    }
}

/// What is told of a video that was opened in the player.
pub fn open_result(resume_secs: Double) -> (r: PlaybackLaunchResult)
    ensures
        r@ == opened_result(resume_secs),
{
    let resumed = is_resumable(resume_secs);
    PlaybackLaunchResult {
        tracking_enabled: true,
        already_running: false,
        resumed,
        resume_position_secs: resume_secs.at_least_zero(),
        fallback_used: false,
        message: if resumed {
            "Opened in the Cinematic player and resumed from your last saved position.".to_owned()
        } else {
            "Opened in the Cinematic player.".to_owned()
        },
    }
}

/// A control is refused elsewhere than on Windows, and there exactly if no session is
/// current.
pub proof fn law_controls_are_refused(platform: Platform, manager: PlayerManagerView)
    ensures
        refusal(platform, manager) is None <==> platform == Platform::Windows && manager.session
            is Some,
        platform != Platform::Windows ==> refusal(platform, manager) == Some(
            "The internal player is only available on Windows right now."@,
        ),
        platform == Platform::Windows && manager.session is None ==> refusal(platform, manager)
            == Some("The internal player is not open."@),
        bounds_refusal(platform, true) is None <==> platform == Platform::Windows,
        platform != Platform::Windows ==> bounds_refusal(platform, false) == Some(
            "The internal player is only available on Windows right now."@,
        ),
        platform == Platform::Windows ==> bounds_refusal(platform, false) == Some(
            "The main Cinematic window is not available."@,
        ),
{
}

/// A frame is drawn anew exactly if the current session shows a video that is loaded and
/// paused; it then seeks to where the video is, and nowhere else.
pub proof fn law_paused_frame_stays_where_it_is(manager: PlayerManagerView, id: u64)
    requires
        manager.session == Some(id),
    ensures
        ({
            let shown = manager.sessions[id].shared.snapshot;
            &&& frame_refresh(manager) is Some <==> shown.is_loaded && shown.paused
            &&& frame_refresh(manager) is Some && shown.position_secs.at_least(Double { bits: 0 })
                && shown.position_secs.bits != 0x8000_0000_0000_0000 ==> frame_refresh(
                manager,
            )->Some_0.args == seq![
                IpcArgView::Text("seek"@),
                IpcArgView::Real(shown.position_secs),
                IpcArgView::Text("absolute"@),
                IpcArgView::Text("exact"@),
            ]
        }),
{
}

/// Without a session no frame is drawn anew.
pub proof fn law_no_session_no_frame(manager: PlayerManagerView)
    requires
        manager.session is None,
    ensures
        frame_refresh(manager) is None,
{
}

/// A video is opened in the current session exactly if its process runs; a session whose
/// process is gone is ended first.
pub proof fn law_running_session_is_used_again(manager: PlayerManagerView, running: bool, id: u64)
    ensures
        open_plan(manager, running) == OpenPlan::Reuse(id) <==> manager.session == Some(id)
            && running,
        open_plan(manager, running) == OpenPlan::Replace(id) <==> manager.session == Some(id)
            && !running,
        open_plan(manager, running) == OpenPlan::Create <==> manager.session is None,
{
}

/// What is told of a video that was opened: its progress is tracked, and it is resumed
/// exactly from five seconds on, at the position that was asked for.
pub proof fn law_opened_video_is_told(resume_secs: Double)
    ensures
        opened_result(resume_secs).tracking_enabled,
        !opened_result(resume_secs).already_running,
        !opened_result(resume_secs).fallback_used,
        opened_result(resume_secs).resumed <==> resume_secs.at_least(
            Double { bits: 0x4014_0000_0000_0000 },
        ),
        opened_result(resume_secs).resumed ==> opened_result(resume_secs).resume_position_secs
            == resume_secs && opened_result(resume_secs).message
            == "Opened in the Cinematic player and resumed from your last saved position."@,
        !opened_result(resume_secs).resumed ==> opened_result(resume_secs).message
            == "Opened in the Cinematic player."@,
        resume_secs.above(Double { bits: 0 }) ==> opened_result(resume_secs).resume_position_secs
            == resume_secs,
        !resume_secs.above(Double { bits: 0 }) ==> opened_result(resume_secs).resume_position_secs
            == (Double { bits: 0 }),
{
}

/// A control sends its command exactly where the player is open on Windows, and
/// elsewhere is refused with the reason.
pub proof fn law_command_is_sent_where_the_player_is_open(
    result: Result<IpcCommand, String>,
    platform: Platform,
    manager: PlayerManagerView,
    command: IpcCommandView,
)
    requires
        sends(result, platform, manager, command),
    ensures
        result is Ok <==> platform == Platform::Windows && manager.session is Some,
        result matches Ok(sent) ==> sent@ == command,
        result matches Err(reason) ==> reason@ == if platform == Platform::Windows {
            "The internal player is not open."@
        } else {
            "The internal player is only available on Windows right now."@
        },
{
}

}
