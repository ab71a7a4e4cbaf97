//! Starting the player process and connecting to it.
use crate::double::Double;
use crate::fresh::is_uuid;
use crate::fresh::new_id;
use crate::progress::is_resumable;
use crate::progress::resumable;
use crate::text::joined;
use crate::text::print_signed;
use crate::text::signed_decimal;
use crate::text::texts;
use vstd::prelude::*;

verus! {

/// How long the player process may take to be reachable, in milliseconds.
pub const IPC_READY_MILLIS: u64 = 6000;

/// How long is waited between two attempts to reach it, in milliseconds.
pub const IPC_RETRY_MILLIS: u64 = 150;

/// The name of the pipe that belongs to an identifier.
pub open spec fn pipe_name_of(id: Seq<char>) -> Seq<char> {
    "\\\\.\\pipe\\cinematic-mpv-"@ + id
}

/// The name of the pipe that belongs to an identifier.
pub fn pipe_name(id: &str) -> (r: String)
    ensures
        r@ == pipe_name_of(id@),
{
    joined("\\\\.\\pipe\\cinematic-mpv-", id)
}

/// The name of a pipe that is used for one session only.
pub fn new_pipe_name() -> (r: String)
    ensures
        exists|id: Seq<char>| is_uuid(id) && r@ == #[trigger] pipe_name_of(id),
{
    let id = new_id();
    pipe_name(id.as_str())
}

/// The arguments that every player process gets.
pub open spec fn fixed_arguments() -> Seq<Seq<char>> {
    seq![
        "--no-config"@,
        "--idle=yes"@,
        "--force-window=immediate"@,
        "--osc=no"@,
        "--sub-auto=all"@,
        "--embeddedfonts=yes"@,
        "--hwdec=auto-safe"@,
        "--save-position-on-quit=no"@,
        "--input-default-bindings=yes"@,
        "--no-terminal"@,
        "--audio-display=no"@,
        "--background=color"@,
        "--background-color=#000000"@,
    ]
}

/// The arguments of a player process: those that every one gets, its log, its
/// pipe, its window, the video, and, where playback is resumed, where it starts.
pub open spec fn mpv_arguments(
    log_file: Seq<char>,
    pipe: Seq<char>,
    host_window: i64,
    video_path: Seq<char>,
    resume_secs: Double,
    start: Seq<char>,
) -> Seq<Seq<char>> {
    let common = fixed_arguments() + seq![
        "--log-file="@ + log_file,
        "--input-ipc-server="@ + pipe,
        "--wid="@ + signed_decimal(host_window as int),
        video_path,
    ];
    if resumable(resume_secs) {
        common.push("--start="@ + start)
    } else {
        common
    }
}

/// The arguments of a player process. `start` is the position to resume from,
/// printed in seconds with three decimals.
pub fn build_mpv_command(
    log_file: &str,
    pipe: &str,
    host_window: i64,
    video_path: &str,
    resume_secs: Double,
    start: &str,
) -> (r: Vec<String>)
    ensures
        texts(r@) == mpv_arguments(
            log_file@,
            pipe@,
            host_window,
            video_path@,
            resume_secs,
            start@,
        ),
{
    let window = print_signed(host_window);
    let mut args = vec![
        "--no-config".to_owned(),
        "--idle=yes".to_owned(),
        "--force-window=immediate".to_owned(),
        "--osc=no".to_owned(),
        "--sub-auto=all".to_owned(),
        "--embeddedfonts=yes".to_owned(),
        "--hwdec=auto-safe".to_owned(),
        "--save-position-on-quit=no".to_owned(),
        "--input-default-bindings=yes".to_owned(),
        "--no-terminal".to_owned(),
        "--audio-display=no".to_owned(),
        "--background=color".to_owned(),
        "--background-color=#000000".to_owned(),
        joined("--log-file=", log_file),
        joined("--input-ipc-server=", pipe),
        joined("--wid=", window.as_str()),
        video_path.to_owned(),
    ];
    if is_resumable(resume_secs) {
        args.push(joined("--start=", start));
    }
    assert(texts(args@) =~= mpv_arguments(
        log_file@,
        pipe@,
        host_window,
        video_path@,
        resume_secs,
        start@,
    ));
    args
}

/// Why the directory of the player process cannot be used; nothing where it can.
pub fn check_runtime_dir(runtime_dir: &str, is_dir: bool) -> (r: Result<(), String>)
    ensures
        match r {
            Ok(_) => is_dir,
            Err(e) => !is_dir && e@ == "Bundled mpv runtime directory was not found: "@
                + runtime_dir@,
        },
{
    if is_dir {
        Ok(())
    } else {
        Err(joined("Bundled mpv runtime directory was not found: ", runtime_dir))
    }
}

/// What is told where the program of the player is missing.
pub fn missing_sidecar(details: &str) -> (r: String)
    ensures
        r@
            == "Bundled mpv sidecar was not found next to the app binary. Ensure `src-tauri/binaries/mpv-<target>.exe` is bundled. Details: "@
            + details@,
{
    joined(
        "Bundled mpv sidecar was not found next to the app binary. Ensure `src-tauri/binaries/mpv-<target>.exe` is bundled. Details: ",
        details,
    )
}

/// The two connections to the player process.
#[derive(Debug, Clone, Copy, PartialEq, Eq, Structural)]
pub enum IpcConnection {
    Writer,
    Reader,
}

/// What follows an attempt to connect.
#[derive(Debug)]
pub enum IpcWait {
    /// The connection is there.
    Connected,
    /// Try again a little later.
    Retry,
    /// Give up, and tell why.
    GiveUp(String),
}

/// What is told where a connection cannot be made.
pub open spec fn connection_failure(connection: IpcConnection, error: Seq<char>) -> Seq<char> {
    match connection {
        IpcConnection::Writer =>
            "Bundled mpv started but its IPC pipe never became ready: "@ + error,
        IpcConnection::Reader => "IPC reader connection failed: "@ + error,
    }
}

/// Decides on an attempt to connect that was made `elapsed_millis` after the first
/// one, and failed with `error` where there is one.
pub fn wait_for_ipc(connection: IpcConnection, error: &Option<String>, elapsed_millis: u64) -> (r:
    IpcWait)
    ensures
        match *error {
            None => r is Connected,
            Some(error) => if elapsed_millis < IPC_READY_MILLIS {
                r is Retry
            } else {
                r matches IpcWait::GiveUp(told) && told@ == connection_failure(connection, error@)
            },
        },
        r is Connected <==> *error is None,
        r is GiveUp ==> elapsed_millis >= 6000,
        r is Retry ==> elapsed_millis < 6000,
{
    match error {
        None => IpcWait::Connected,
        Some(error) => {
            if elapsed_millis < IPC_READY_MILLIS {
                IpcWait::Retry
            } else {
                match connection {
                    IpcConnection::Writer => IpcWait::GiveUp(
                        joined(
                            "Bundled mpv started but its IPC pipe never became ready: ",
                            error.as_str(),
                        ),
                    ),
                    IpcConnection::Reader => IpcWait::GiveUp(
                        joined("IPC reader connection failed: ", error.as_str()),
                    ),
                }
            }
        },
    }
}

/// The steps of starting a session, in their order.
#[derive(Debug, Clone, Copy, PartialEq, Eq, Structural)]
pub enum LaunchStep {
    /// The window of the video is made.
    MakeWindow,
    /// The command of the process is put together.
    BuildCommand,
    /// The process is started.
    Spawn,
    /// Both connections to the process are made.
    Connect,
    /// The title of the video is looked up.
    LookUpTitle,
    /// The main window is asked whether it is full screen.
    AskFullscreen,
}

/// What a failed start leaves to be undone.
#[derive(Debug, Clone, Copy, PartialEq, Eq, Structural)]
pub struct LaunchUndo {
    pub kill_process: bool,
    pub close_window: bool,
}

/// How starting a session goes on.
#[derive(Debug)]
pub enum LaunchAction {
    /// Take this step.
    Take(LaunchStep),
    /// The session begins.
    Begin,
    /// Give up: undo this, and tell why.
    GiveUp(LaunchUndo, String),
}

impl LaunchStep {
    /// The step that follows.
    pub open spec fn next(self) -> Option<LaunchStep> {
        match self {
            LaunchStep::MakeWindow => Some(LaunchStep::BuildCommand),
            LaunchStep::BuildCommand => Some(LaunchStep::Spawn),
            LaunchStep::Spawn => Some(LaunchStep::Connect),
            LaunchStep::Connect => Some(LaunchStep::LookUpTitle),
            LaunchStep::LookUpTitle => Some(LaunchStep::AskFullscreen),
            LaunchStep::AskFullscreen => None,
        }
    }

    /// How many steps come before.
    pub open spec fn number(self) -> int {
        match self {
            LaunchStep::MakeWindow => 0,
            LaunchStep::BuildCommand => 1,
            LaunchStep::Spawn => 2,
            LaunchStep::Connect => 3,
            LaunchStep::LookUpTitle => 4,
            LaunchStep::AskFullscreen => 5,
        }
    }
}

/// What is undone when a step fails: up to the connections, the window of the video
/// is closed and the process ended where they were made. Once the process is
/// connected to, nothing is undone.
pub open spec fn undone(failed: LaunchStep) -> LaunchUndo {
    LaunchUndo {
        kill_process: failed == LaunchStep::Connect,
        close_window: failed == LaunchStep::BuildCommand || failed == LaunchStep::Spawn || failed
            == LaunchStep::Connect,
    }
}

/// Starts a session: tells how it goes on after a step, which failed with an error
/// where there is one.
pub fn create_session(step: LaunchStep, outcome: Result<(), String>) -> (r: LaunchAction)
    ensures
        match outcome {
            Ok(_) => match step.next() {
                Some(next) => r == LaunchAction::Take(next),
                None => r is Begin,
            },
            Err(error) => r matches LaunchAction::GiveUp(undo, told) && undo == undone(step)
                && told@ == error@,
        },
{
    match outcome {
        Ok(_) => match step {
            LaunchStep::MakeWindow => LaunchAction::Take(LaunchStep::BuildCommand),
            LaunchStep::BuildCommand => LaunchAction::Take(LaunchStep::Spawn),
            LaunchStep::Spawn => LaunchAction::Take(LaunchStep::Connect),
            LaunchStep::Connect => LaunchAction::Take(LaunchStep::LookUpTitle),
            LaunchStep::LookUpTitle => LaunchAction::Take(LaunchStep::AskFullscreen),
            LaunchStep::AskFullscreen => LaunchAction::Begin,
        },
        Err(error) => {
            let undo = match step {
                LaunchStep::BuildCommand => LaunchUndo { kill_process: false, close_window: true },
                LaunchStep::Spawn => LaunchUndo { kill_process: false, close_window: true },
                LaunchStep::Connect => LaunchUndo { kill_process: true, close_window: true },
                _ => LaunchUndo { kill_process: false, close_window: false },
            };
            LaunchAction::GiveUp(undo, error)
        },
    }
}

/// A start that fails before the process is connected to leaves neither a window
/// nor a process behind: what the steps before made is undone, and nothing else.
pub proof fn law_failed_start_is_undone(failed: LaunchStep)
    requires
        failed.number() <= LaunchStep::Connect.number(),
    ensures
        undone(failed).close_window == (LaunchStep::MakeWindow.number() < failed.number()),
        undone(failed).kill_process == (LaunchStep::Spawn.number() < failed.number()),
{
}

/// The number of the Windows error that a window class exists already.
pub const CLASS_ALREADY_EXISTS: u32 = 1410;

/// Whether the class of the video window can be used: it was registered now, as
/// `atom`, or was so before. `error` is the number of the last error, and
/// `described` what it is called.
pub fn class_registration(atom: u16, error: u32, described: &str) -> (r: Result<(), String>)
    ensures
        match r {
            Ok(_) => atom != 0 || error == CLASS_ALREADY_EXISTS,
            Err(e) => atom == 0 && error != CLASS_ALREADY_EXISTS && e@
                == "Failed to register video host class: "@ + described@,
        },
{
    if atom == 0 && error != CLASS_ALREADY_EXISTS {
        Err(joined("Failed to register video host class: ", described))
    } else {
        Ok(())
    }
}

/// Messages of Windows to the window of the video that it answers itself.
pub const WM_DESTROY: u32 = 0x0002;

pub const WM_PAINT: u32 = 0x000f;

pub const WM_ERASEBKGND: u32 = 0x0014;

/// How the window of the video answers a message.
#[derive(Debug, Clone, Copy, PartialEq, Eq, Structural)]
pub enum HostReply {
    /// The background counts as erased; nothing is drawn.
    KeepBackground,
    /// The window counts as drawn; the player draws it.
    ValidateOnly,
    /// Its messages come to an end.
    Quit,
    /// As any window does.
    Default,
}

/// How the window of the video answers a message.
pub fn video_host_reply(message: u32) -> (r: HostReply)
    ensures
        r == if message == WM_ERASEBKGND {
            HostReply::KeepBackground
        } else if message == WM_PAINT {
            HostReply::ValidateOnly
        } else if message == WM_DESTROY {
            HostReply::Quit
        } else {
            HostReply::Default
        },
{
    if message == WM_ERASEBKGND {
        HostReply::KeepBackground
    } else if message == WM_PAINT {
        HostReply::ValidateOnly
    } else if message == WM_DESTROY {
        HostReply::Quit
    } else {
        HostReply::Default
    }
}

/// The player process gets its log, its pipe, its window and the video, and is told where
/// to start exactly if the position is at least five seconds; it reads no settings of
/// another program and keeps no positions of its own.
pub proof fn law_process_gets_its_arguments(
    log_file: Seq<char>,
    pipe: Seq<char>,
    host_window: i64,
    video_path: Seq<char>,
    resume_secs: Double,
    start: Seq<char>,
)
    ensures
        ({
            let args = mpv_arguments(log_file, pipe, host_window, video_path, resume_secs, start);
            let resumed = resume_secs.at_least(Double { bits: 0x4014_0000_0000_0000 });
            &&& args.len() == if resumed {
                18nat
            } else {
                17nat
            }
            &&& args[0] == "--no-config"@
            &&& args[1] == "--idle=yes"@
            &&& args[2] == "--force-window=immediate"@
            &&& args[3] == "--osc=no"@
            &&& args[4] == "--sub-auto=all"@
            &&& args[5] == "--embeddedfonts=yes"@
            &&& args[6] == "--hwdec=auto-safe"@
            &&& args[7] == "--save-position-on-quit=no"@
            &&& args[8] == "--input-default-bindings=yes"@
            &&& args[9] == "--no-terminal"@
            &&& args[10] == "--audio-display=no"@
            &&& args[11] == "--background=color"@
            &&& args[12] == "--background-color=#000000"@
            &&& args[13] == "--log-file="@ + log_file
            &&& args[14] == "--input-ipc-server="@ + pipe
            &&& args[15] == "--wid="@ + signed_decimal(host_window as int)
            &&& args[16] == video_path
            &&& resumed ==> args[17] == "--start="@ + start
        }),
{
}

/// Two sessions with different identifiers have different pipes.
pub proof fn law_pipes_are_told_apart(one: Seq<char>, other: Seq<char>)
    requires
        pipe_name_of(one) == pipe_name_of(other),
    ensures
        one == other,
{
    let head = "\\\\.\\pipe\\cinematic-mpv-"@;
    assert(pipe_name_of(one).skip(head.len() as int) =~= one);
    assert(pipe_name_of(other).skip(head.len() as int) =~= other);
}

/// The steps of a start come one after the other, and end.
pub proof fn law_steps_come_in_order(step: LaunchStep)
    ensures
        step.next() matches Some(next) ==> next.number() == step.number() + 1,
        step.next() is None <==> step == LaunchStep::AskFullscreen,
        LaunchStep::MakeWindow.number() < LaunchStep::BuildCommand.number(),
        LaunchStep::BuildCommand.number() < LaunchStep::Spawn.number(),
        LaunchStep::Spawn.number() < LaunchStep::Connect.number(),
        LaunchStep::Connect.number() < LaunchStep::LookUpTitle.number(),
        LaunchStep::LookUpTitle.number() < LaunchStep::AskFullscreen.number(),
{
}

/// Once the process is connected to, a failure undoes nothing.
pub proof fn law_late_failure_undoes_nothing(failed: LaunchStep)
    requires
        failed == LaunchStep::LookUpTitle || failed == LaunchStep::AskFullscreen,
    ensures
        !undone(failed).kill_process,
        !undone(failed).close_window,
{
}

/// A connection that fails is told by its own name, with the error behind it.
pub proof fn law_failed_connection_is_told(error: Seq<char>)
    ensures
        connection_failure(IpcConnection::Writer, error)
            == "Bundled mpv started but its IPC pipe never became ready: "@ + error,
        connection_failure(IpcConnection::Reader, error) == "IPC reader connection failed: "@ + error,
{
}

}
