//! Playing videos in programs outside: which of them are playing, how one is
//! started, and what is kept of its progress.
use crate::double::Double;
use crate::models::PlaybackLaunchResult;
use crate::models::PlaybackLaunchResultView;
use crate::platform::Platform;
use crate::process::ChildState;
use crate::process::CommandLine;
use crate::process::CommandLineView;
use crate::progress::counts_as_watched;
use crate::progress::is_resumable;
use crate::progress::progress_of;
use crate::progress::progress_update;
use crate::progress::requested_position;
use crate::progress::resumable;
use crate::progress::resume_position_for;
use crate::progress::should_mark_watched;
use crate::progress::view_update;
use crate::progress::ProgressUpdate;
use crate::progress::ProgressUpdateView;
use crate::progress::WatchMarks;
use crate::text::same_text;
use vstd::prelude::*;

verus! {

/// How often a program is asked for its progress, in milliseconds.
pub const PLAYBACK_POLL_MILLIS: u64 = 2000;

/// A video that is playing in a program outside.
#[derive(Debug)]
pub struct ManagedPlaybackSession {
    pub video_id: String,
    pub tracking_enabled: bool,
}

/// Some session of a list is of the video.
pub open spec fn lists_video(entries: Seq<ManagedPlaybackSession>, id: Seq<char>) -> bool {
    exists|i: int| 0 <= i < entries.len() && (#[trigger] entries[i]).video_id@ == id
}

/// Of each video of a list, whether its progress is tracked.
pub open spec fn tracking_by_video(entries: Seq<ManagedPlaybackSession>) -> Map<Seq<char>, bool> {
    Map::new(
        |id: Seq<char>| lists_video(entries, id),
        |id: Seq<char>|
            {
                let i = choose|i: int|
                    0 <= i < entries.len() && (#[trigger] entries[i]).video_id@ == id;
                entries[i].tracking_enabled
            },
    )
}

/// No video stands in a list twice.
pub open spec fn distinct_videos(entries: Seq<ManagedPlaybackSession>) -> bool {
    forall|i: int, j: int|
        0 <= i < j < entries.len() ==> (#[trigger] entries[i]).video_id@ != (
        #[trigger] entries[j]).video_id@
}

/// The videos that are playing in programs outside.
pub struct PlaybackSessions {
    entries: Vec<ManagedPlaybackSession>,
}

impl View for PlaybackSessions {
    type V = Map<Seq<char>, bool>;

    /// Of each video that is playing, whether its progress is tracked.
    closed spec fn view(&self) -> Map<Seq<char>, bool> {
        tracking_by_video(self.entries@)
    }
}

proof fn lemma_entry_at(entries: Seq<ManagedPlaybackSession>, i: int)
    requires
        distinct_videos(entries),
        0 <= i < entries.len(),
    ensures
        tracking_by_video(entries).contains_key(entries[i].video_id@),
        tracking_by_video(entries)[entries[i].video_id@] == entries[i].tracking_enabled,
{
    let id = entries[i].video_id@;
    assert(lists_video(entries, id));
    let k = choose|k: int| 0 <= k < entries.len() && (#[trigger] entries[k]).video_id@ == id;
    if k < i {
        assert(entries[k].video_id@ != entries[i].video_id@);
    } else if i < k {
        assert(entries[i].video_id@ != entries[k].video_id@);
    }
}

proof fn lemma_entry_replaced(
    entries: Seq<ManagedPlaybackSession>,
    i: int,
    entry: ManagedPlaybackSession,
)
    requires
        distinct_videos(entries),
        0 <= i < entries.len(),
        entry.video_id@ == entries[i].video_id@,
    ensures
        distinct_videos(entries.update(i, entry)),
        tracking_by_video(entries.update(i, entry)) == tracking_by_video(entries).insert(
            entry.video_id@,
            entry.tracking_enabled,
        ),
{
    let after = entries.update(i, entry);
    assert forall|j: int| 0 <= j < after.len() implies (#[trigger] after[j]).video_id@
        == entries[j].video_id@ by {}
    assert(distinct_videos(after));
    let left = tracking_by_video(after);
    let right = tracking_by_video(entries).insert(entry.video_id@, entry.tracking_enabled);
    assert forall|id: Seq<char>| lists_video(after, id) <==> lists_video(entries, id) by {
        if lists_video(after, id) {
            let j = choose|j: int| 0 <= j < after.len() && (#[trigger] after[j]).video_id@ == id;
            assert(entries[j].video_id@ == id);
        }
        if lists_video(entries, id) {
            let j = choose|j: int| 0 <= j < entries.len() && (#[trigger] entries[j]).video_id@ == id;
            assert(after[j].video_id@ == id);
        }
    }
    lemma_entry_at(entries, i);
    assert forall|id: Seq<char>| left.contains_key(id) implies left[id] == right[id] by {
        let j = choose|j: int| 0 <= j < after.len() && (#[trigger] after[j]).video_id@ == id;
        lemma_entry_at(after, j);
        lemma_entry_at(entries, j);
        if j < i {
            assert(entries[j].video_id@ != entries[i].video_id@);
        } else if i < j {
            assert(entries[i].video_id@ != entries[j].video_id@);
        }
    }
    assert(left =~= right);
}

proof fn lemma_entry_added(entries: Seq<ManagedPlaybackSession>, entry: ManagedPlaybackSession)
    requires
        distinct_videos(entries),
        !lists_video(entries, entry.video_id@),
    ensures
        distinct_videos(entries.push(entry)),
        tracking_by_video(entries.push(entry)) == tracking_by_video(entries).insert(
            entry.video_id@,
            entry.tracking_enabled,
        ),
{
    let after = entries.push(entry);
    assert forall|i: int, j: int| 0 <= i < j < after.len() implies (
    #[trigger] after[i]).video_id@ != (#[trigger] after[j]).video_id@ by {
        assert(after[i] == entries[i]);
        if j < entries.len() {
            assert(after[j] == entries[j]);
        }
    }
    let left = tracking_by_video(after);
    let right = tracking_by_video(entries).insert(entry.video_id@, entry.tracking_enabled);
    assert(after[entries.len() as int] == entry);
    assert forall|id: Seq<char>|
        lists_video(after, id) <==> (lists_video(entries, id) || id == entry.video_id@) by {
        if lists_video(after, id) && id != entry.video_id@ {
            let j = choose|j: int| 0 <= j < after.len() && (#[trigger] after[j]).video_id@ == id;
            assert(entries[j].video_id@ == id);
        }
        if lists_video(entries, id) {
            let j = choose|j: int| 0 <= j < entries.len() && (#[trigger] entries[j]).video_id@ == id;
            assert(after[j].video_id@ == id);
        }
    }
    assert forall|id: Seq<char>| left.contains_key(id) implies left[id] == right[id] by {
        let j = choose|j: int| 0 <= j < after.len() && (#[trigger] after[j]).video_id@ == id;
        lemma_entry_at(after, j);
        if j < entries.len() {
            assert(after[j] == entries[j]);
            lemma_entry_at(entries, j);
        }
    }
    assert(left =~= right);
}

proof fn lemma_entry_dropped(entries: Seq<ManagedPlaybackSession>, i: int)
    requires
        distinct_videos(entries),
        0 <= i < entries.len(),
    ensures
        distinct_videos(entries.remove(i)),
        tracking_by_video(entries.remove(i)) == tracking_by_video(entries).remove(
            entries[i].video_id@,
        ),
{
    let after = entries.remove(i);
    let gone = entries[i].video_id@;
    assert forall|j: int| 0 <= j < after.len() implies #[trigger] after[j] == entries[if j < i {
        j
    } else {
        j + 1
    }] by {}
    assert(distinct_videos(after));
    assert forall|id: Seq<char>|
        lists_video(after, id) <==> (lists_video(entries, id) && id != gone) by {
        if lists_video(after, id) {
            let j = choose|j: int| 0 <= j < after.len() && (#[trigger] after[j]).video_id@ == id;
            let k = if j < i {
                j
            } else {
                j + 1
            };
            assert(entries[k].video_id@ == id);
        }
        if lists_video(entries, id) && id != gone {
            let k = choose|k: int| 0 <= k < entries.len() && (#[trigger] entries[k]).video_id@ == id;
            let j = if k < i {
                k
            } else {
                k - 1
            };
            assert(after[j].video_id@ == id);
        }
    }
    let left = tracking_by_video(after);
    let right = tracking_by_video(entries).remove(gone);
    assert forall|id: Seq<char>| left.contains_key(id) implies left[id] == right[id] by {
        let j = choose|j: int| 0 <= j < after.len() && (#[trigger] after[j]).video_id@ == id;
        let k = if j < i {
            j
        } else {
            j + 1
        };
        lemma_entry_at(after, j);
        lemma_entry_at(entries, k);
    }
    assert(left =~= right);
}

impl PlaybackSessions {
    /// No video is listed twice.
    pub closed spec fn well_formed(self) -> bool {
        distinct_videos(self.entries@)
    }

    fn position(&self, video_id: &str) -> (r: Option<usize>)
        requires
            self.well_formed(),
        ensures
            match r {
                Some(i) => i < self.entries@.len() && self.entries@[i as int].video_id@ == video_id@
                    && self@.contains_key(video_id@) && self@[video_id@]
                    == self.entries@[i as int].tracking_enabled,
                None => !self@.contains_key(video_id@),
            },
    {
        let mut i: usize = 0;
        while i < self.entries.len()
            invariant
                self.well_formed(),
                i <= self.entries@.len(),
                forall|j: int| 0 <= j < i ==> (#[trigger] self.entries@[j]).video_id@ != video_id@,
            decreases self.entries.len() - i,
        {
            if same_text(self.entries[i].video_id.as_str(), video_id) {
                proof {
                    lemma_entry_at(self.entries@, i as int);
                }
                return Some(i);
            }
            i += 1;
        }
        None
    }

    /// Nothing is playing.
    pub fn new() -> (r: PlaybackSessions)
        ensures
            r.well_formed(),
            r@ == Map::<Seq<char>, bool>::empty(),
    {
        let r = PlaybackSessions { entries: Vec::new() };
        assert(r@ =~= Map::<Seq<char>, bool>::empty());
        r
    }

    /// Whether the progress of a video is tracked; nothing where it is not
    /// playing.
    pub fn get(&self, video_id: &str) -> (r: Option<bool>)
        requires
            self.well_formed(),
        ensures
            r == if self@.contains_key(video_id@) {
                Some(self@[video_id@])
            } else {
                None
            },
    {
        match self.position(video_id) {
            Some(i) => Some(self.entries[i].tracking_enabled),
            None => None,
        }
    }

    /// Whether a video is playing.
    pub fn contains(&self, video_id: &str) -> (r: bool)
        requires
            self.well_formed(),
        ensures
            r == self@.contains_key(video_id@),
    {
        self.position(video_id).is_some()
    }

    /// Notes that a video is playing.
    pub fn insert(&mut self, video_id: &str, tracking_enabled: bool)
        requires
            old(self).well_formed(),
        ensures
            final(self).well_formed(),
            final(self)@ == old(self)@.insert(video_id@, tracking_enabled),
    {
        match self.position(video_id) {
            Some(i) => {
                let ghost before = self.entries@;
                self.entries[i].tracking_enabled = tracking_enabled;
                proof {
                    lemma_entry_replaced(before, i as int, self.entries@[i as int]);
                    assert(self.entries@ =~= before.update(i as int, self.entries@[i as int]));
                }
            },
            None => {
                let entry = ManagedPlaybackSession {
                    video_id: video_id.to_owned(),
                    tracking_enabled,
                };
                proof {
                    lemma_entry_added(self.entries@, entry);
                }
                self.entries.push(entry);
            },
        }
    }

    /// Notes whether the progress of a video that is playing is tracked.
    pub fn set_tracking(&mut self, video_id: &str, tracking_enabled: bool)
        requires
            old(self).well_formed(),
        ensures
            final(self).well_formed(),
            final(self)@ == if old(self)@.contains_key(video_id@) {
                old(self)@.insert(video_id@, tracking_enabled)
            } else {
                old(self)@
            },
    {
        if self.contains(video_id) {
            self.insert(video_id, tracking_enabled);
        }
    }

    /// Notes that a video is no longer playing.
    pub fn remove(&mut self, video_id: &str)
        requires
            old(self).well_formed(),
        ensures
            final(self).well_formed(),
            final(self)@ == old(self)@.remove(video_id@),
    {
        match self.position(video_id) {
            Some(i) => {
                let ghost before = self.entries@;
                self.entries.remove(i);
                proof {
                    lemma_entry_dropped(before, i as int);
                    assert(self.entries@ =~= before.remove(i as int));
                }
            },
            None => {
                assert(self@.remove(video_id@) =~= self@);
            },
        }
    }
}

/// The command that opens a file in the program that the system has for it.
pub open spec fn system_open(platform: Platform, path: Seq<char>) -> CommandLineView {
    match platform {
        Platform::Windows => CommandLineView {
            program: "cmd"@,
            args: seq!["/C"@, "start"@, ""@, path],
        },
        Platform::MacOs => CommandLineView { program: "open"@, args: seq![path] },
        Platform::Linux => CommandLineView { program: "xdg-open"@, args: seq![path] },
    }
}

/// The command that opens a video in the program that the system has for it.
pub fn open_with_system_default(platform: Platform, video_path: &str) -> (r: CommandLine)
    ensures
        r@ == system_open(platform, video_path@),
{
    let r = match platform {
        Platform::Windows => CommandLine {
            program: "cmd".to_owned(),
            args: vec!["/C".to_owned(), "start".to_owned(), "".to_owned(), video_path.to_owned()],
        },
        Platform::MacOs => CommandLine {
            program: "open".to_owned(),
            args: vec![video_path.to_owned()],
        },
        Platform::Linux => CommandLine {
            program: "xdg-open".to_owned(),
            args: vec![video_path.to_owned()],
        },
    };
    assert(r@.args =~= system_open(platform, video_path@).args);
    r
}

/// What is told of a video that is playing already.
pub open spec fn already_open(tracking_enabled: bool, position_secs: Double) -> PlaybackLaunchResultView {
    PlaybackLaunchResultView {
        tracking_enabled,
        already_running: true,
        resumed: resumable(position_secs),
        resume_position_secs: position_secs,
        fallback_used: !tracking_enabled,
        message: if tracking_enabled {
            "This video is already playing in a managed VLC session."@
        } else {
            "This video is already open, but progress tracking is not available for that session."@
        },
    }
}

/// What is told of a video that was opened in the program of the system.
pub open spec fn system_launch(platform: Platform) -> PlaybackLaunchResultView {
    PlaybackLaunchResultView {
        tracking_enabled: false,
        already_running: false,
        resumed: false,
        resume_position_secs: Double { bits: 0 },
        fallback_used: true,
        message: if platform == Platform::Windows {
            "VLC was not found. Opened in the system player without progress tracking."@
        } else {
            "Opened in the system player. Managed VLC progress tracking is only enabled on Windows right now."@
        },
    }
}

/// What is told of a video that was opened in VLC.
pub open spec fn vlc_launch(tracking_enabled: bool, position_secs: Double) -> PlaybackLaunchResultView {
    PlaybackLaunchResultView {
        tracking_enabled,
        already_running: false,
        resumed: resumable(position_secs),
        resume_position_secs: position_secs,
        fallback_used: !tracking_enabled,
        message: if tracking_enabled {
            if resumable(position_secs) {
                "Opened in VLC and resumed from your last saved position."@
            } else {
                "Opened in VLC with progress tracking enabled."@
            }
        } else {
            "Opened in VLC, but progress tracking could not be enabled for this session."@
        },
    }
}

fn already_open_result(tracking_enabled: bool, position_secs: Double) -> (r: PlaybackLaunchResult)
    ensures
        r@ == already_open(tracking_enabled, position_secs),
{
    PlaybackLaunchResult {
        tracking_enabled,
        already_running: true,
        resumed: is_resumable(position_secs),
        resume_position_secs: position_secs,
        fallback_used: !tracking_enabled,
        message: if tracking_enabled {
            "This video is already playing in a managed VLC session.".to_owned()
        } else {
            "This video is already open, but progress tracking is not available for that session.".to_owned()
        },
    }
}

fn system_launch_result(platform: Platform) -> (r: PlaybackLaunchResult)
    ensures
        r@ == system_launch(platform),
{
    PlaybackLaunchResult {
        tracking_enabled: false,
        already_running: false,
        resumed: false,
        resume_position_secs: Double { bits: 0 },
        fallback_used: true,
        message: match platform {
            Platform::Windows =>
                "VLC was not found. Opened in the system player without progress tracking.".to_owned(),
            _ =>
                "Opened in the system player. Managed VLC progress tracking is only enabled on Windows right now.".to_owned(),
        },
    }
}

/// What is told of a video that was opened in VLC, once it is known whether VLC
/// can be asked for its progress.
pub fn vlc_launch_result(tracking_enabled: bool, resume_secs: Option<Double>) -> (r:
    PlaybackLaunchResult)
    ensures
        r@ == vlc_launch(tracking_enabled, requested_position(resume_secs)),
{
    let position_secs = resume_position_for(resume_secs);
    let resumed = is_resumable(position_secs);
    PlaybackLaunchResult {
        tracking_enabled,
        already_running: false,
        resumed,
        resume_position_secs: position_secs,
        fallback_used: !tracking_enabled,
        message: if tracking_enabled {
            if resumed {
                "Opened in VLC and resumed from your last saved position.".to_owned()
            } else {
                "Opened in VLC with progress tracking enabled.".to_owned()
            }
        } else {
            "Opened in VLC, but progress tracking could not be enabled for this session.".to_owned()
        },
    }
}

/// What is known of VLC when a video is to be played.
#[derive(Debug, Clone, Copy, PartialEq, Eq, Structural)]
pub enum VlcLookup {
    NotLooked,
    Missing,
    Found,
}

/// How playing a video goes on.
#[derive(Debug)]
pub enum PlayStep {
    /// It is done; this is told.
    Done(PlaybackLaunchResult),
    /// Look for VLC.
    LookForVlc,
    /// Open it in the program of the system; then this is told.
    OpenWithSystem(PlaybackLaunchResult),
    /// Start VLC at the position.
    StartVlc(Double),
}

pub enum PlayStepView {
    Done(PlaybackLaunchResultView),
    LookForVlc,
    OpenWithSystem(PlaybackLaunchResultView),
    StartVlc(Double),
}

impl View for PlayStep {
    type V = PlayStepView;

    open spec fn view(&self) -> PlayStepView {
        match *self {
            PlayStep::Done(result) => PlayStepView::Done(result@),
            PlayStep::LookForVlc => PlayStepView::LookForVlc,
            PlayStep::OpenWithSystem(result) => PlayStepView::OpenWithSystem(result@),
            PlayStep::StartVlc(position_secs) => PlayStepView::StartVlc(position_secs),
        }
    }
}

/// How playing a video goes on: one that is playing is not started again; where
/// VLC is found, on Windows, it is started, and otherwise the program of the
/// system opens the video.
pub open spec fn play_step(
    platform: Platform,
    sessions: Map<Seq<char>, bool>,
    video_id: Seq<char>,
    resume_secs: Option<Double>,
    vlc: VlcLookup,
) -> PlayStepView {
    match vlc {
        VlcLookup::NotLooked => if sessions.contains_key(video_id) {
            PlayStepView::Done(already_open(sessions[video_id], requested_position(resume_secs)))
        } else {
            PlayStepView::LookForVlc
        },
        VlcLookup::Missing => PlayStepView::OpenWithSystem(system_launch(platform)),
        VlcLookup::Found => if platform == Platform::Windows {
            PlayStepView::StartVlc(requested_position(resume_secs))
        } else {
            PlayStepView::OpenWithSystem(system_launch(platform))
        },
    }
}

/// Plays a video in a program outside: tells how it goes on, with what is known of
/// VLC.
pub fn open_in_player(
    platform: Platform,
    sessions: &PlaybackSessions,
    video_id: &str,
    resume_secs: Option<Double>,
    vlc: VlcLookup,
) -> (r: PlayStep)
    requires
        sessions.well_formed(),
    ensures
        r@ == play_step(platform, sessions@, video_id@, resume_secs, vlc),
{
    match vlc {
        VlcLookup::NotLooked => match sessions.get(video_id) {
            Some(tracking_enabled) => PlayStep::Done(
                already_open_result(tracking_enabled, resume_position_for(resume_secs)),
            ),
            None => PlayStep::LookForVlc,
        },
        VlcLookup::Missing => PlayStep::OpenWithSystem(system_launch_result(platform)),
        VlcLookup::Found => match platform {
            Platform::Windows => PlayStep::StartVlc(resume_position_for(resume_secs)),
            _ => PlayStep::OpenWithSystem(system_launch_result(platform)),
        },
    }
}

/// What happened to VLC that was started for a video.
#[derive(Debug, Clone, Copy, PartialEq, Eq, Structural)]
pub enum VlcStart {
    /// It runs.
    Spawned,
    /// It was waited for; it answers or not.
    Waited { tracking_enabled: bool },
}

/// How starting VLC goes on.
#[derive(Debug)]
pub enum VlcStartStep {
    /// Wait until it answers.
    Wait,
    /// Watch over it; this is told.
    Watch(PlaybackMonitor, PlaybackLaunchResult),
}

/// Starts VLC for a video: notes that the video is playing without tracking, and
/// then, once VLC was waited for, whether it is tracked.
pub fn start_vlc(
    sessions: &mut PlaybackSessions,
    video_id: &str,
    resume_secs: Option<Double>,
    event: VlcStart,
) -> (r: VlcStartStep)
    requires
        old(sessions).well_formed(),
    ensures
        final(sessions).well_formed(),
        match event {
            VlcStart::Spawned => r is Wait && final(sessions)@ == old(sessions)@.insert(
                video_id@,
                false,
            ),
            VlcStart::Waited { tracking_enabled } => {
                &&& r matches VlcStartStep::Watch(monitor, result)
                &&& monitor@ == (PlaybackMonitorView {
                    video_id: video_id@,
                    tracking_enabled,
                    last_status: None,
                })
                &&& result@ == vlc_launch(tracking_enabled, requested_position(resume_secs))
                &&& final(sessions)@ == if old(sessions)@.contains_key(video_id@) {
                    old(sessions)@.insert(video_id@, tracking_enabled)
                } else {
                    old(sessions)@
                }
            },
        },
{
    match event {
        VlcStart::Spawned => {
            sessions.insert(video_id, false);
            VlcStartStep::Wait
        },
        VlcStart::Waited { tracking_enabled } => {
            sessions.set_tracking(video_id, tracking_enabled);
            VlcStartStep::Watch(
                PlaybackMonitor::new(video_id, tracking_enabled),
                vlc_launch_result(tracking_enabled, resume_secs),
            )
        },
    }
}

/// Where VLC is in what it plays.
#[derive(Debug)]
pub struct VlcStatus {
    pub time_secs: Double,
    /// The length of the video, where it is known.
    pub marks: Option<WatchMarks>,
    pub state: String,
}

#[verifier::ext_equal]
pub struct VlcStatusView {
    pub time_secs: Double,
    pub marks: Option<WatchMarks>,
    pub state: Seq<char>,
}

impl View for VlcStatus {
    type V = VlcStatusView;

    open spec fn view(&self) -> VlcStatusView {
        VlcStatusView {
            time_secs: self.time_secs,
            marks: self.marks,
            state: self.state@,
        }
    }
}

/// The status in specifications.
pub open spec fn view_status(status: Option<VlcStatus>) -> Option<VlcStatusView> {
    match status {
        Some(s) => Some(s@),
        None => None,
    }
}

/// The watch over one run of VLC, and what VLC last said.
#[derive(Debug)]
pub struct PlaybackMonitor {
    pub video_id: String,
    pub tracking_enabled: bool,
    pub last_status: Option<VlcStatus>,
}

#[verifier::ext_equal]
pub struct PlaybackMonitorView {
    pub video_id: Seq<char>,
    pub tracking_enabled: bool,
    pub last_status: Option<VlcStatusView>,
}

impl View for PlaybackMonitor {
    type V = PlaybackMonitorView;

    open spec fn view(&self) -> PlaybackMonitorView {
        PlaybackMonitorView {
            video_id: self.video_id@,
            tracking_enabled: self.tracking_enabled,
            last_status: view_status(self.last_status),
        }
    }
}

/// What follows a look at the process of VLC.
#[derive(Debug)]
pub enum MonitorStep {
    /// Wait, and look again.
    Wait,
    /// The watch ends; this is kept.
    Finish(Option<ProgressUpdate>),
}

/// What is kept when VLC tells where it is: a video that was stopped is
/// finished too.
pub open spec fn polled_progress(monitor: PlaybackMonitorView, status: VlcStatusView) -> Option<
    ProgressUpdateView,
> {
    if monitor.tracking_enabled {
        progress_of(
            monitor.video_id,
            status.time_secs,
            counts_as_watched(status.time_secs, status.marks) || status.state == "stopped"@,
        )
    } else {
        None
    }
}

/// What is kept when VLC has ended: what it said last counts.
pub open spec fn final_progress(monitor: PlaybackMonitorView) -> Option<ProgressUpdateView> {
    match (monitor.tracking_enabled, monitor.last_status) {
        (true, Some(status)) => progress_of(
            monitor.video_id,
            status.time_secs,
            counts_as_watched(status.time_secs, status.marks),
        ),
        _ => None,
    }
}

impl PlaybackMonitor {
    /// A watch over VLC while it plays a video.
    pub fn new(video_id: &str, tracking_enabled: bool) -> (r: PlaybackMonitor)
        ensures
            r@ == (PlaybackMonitorView { video_id: video_id@, tracking_enabled, last_status: None }),
    {
        PlaybackMonitor { video_id: video_id.to_owned(), tracking_enabled, last_status: None }
    }

    /// Takes over what VLC said. Gives what is to be kept.
    pub fn status(&mut self, status: VlcStatus) -> (r: Option<ProgressUpdate>)
        ensures
            view_update(r) == polled_progress(old(self)@, status@),
            final(self)@ == (PlaybackMonitorView {
                last_status: if old(self)@.tracking_enabled {
                    Some(status@)
                } else {
                    old(self)@.last_status
                },
                ..old(self)@
            }),
    {
        if !self.tracking_enabled {
            return None;
        }
        let finished = should_mark_watched(status.time_secs, status.marks) || same_text(
            status.state.as_str(),
            "stopped",
        );
        let update = progress_update(self.video_id.as_str(), status.time_secs, finished);
        self.last_status = Some(status);
        update
    }

    /// Takes over what became of the process of VLC.
    pub fn child(&self, child: ChildState) -> (r: MonitorStep)
        ensures
            match child {
                ChildState::Running => r is Wait,
                ChildState::Exited => r matches MonitorStep::Finish(update) && view_update(update)
                    == final_progress(self@),
                ChildState::Unknown => r matches MonitorStep::Finish(update) && update is None,
            },
    {
        match child {
            ChildState::Running => MonitorStep::Wait,
            ChildState::Exited => {
                if !self.tracking_enabled {
                    return MonitorStep::Finish(None);
                }
                match &self.last_status {
                    Some(status) => MonitorStep::Finish(
                        progress_update(
                            self.video_id.as_str(),
                            status.time_secs,
                            should_mark_watched(status.time_secs, status.marks),
                        ),
                    ),
                    None => MonitorStep::Finish(None),
                }
            },
            ChildState::Unknown => MonitorStep::Finish(None),
        }
    }
}

/// A video that is playing is never started again, wherever VLC is.
pub proof fn law_a_playing_video_is_not_started(
    platform: Platform,
    sessions: Map<Seq<char>, bool>,
    video_id: Seq<char>,
    resume_secs: Option<Double>,
)
    requires
        sessions.contains_key(video_id),
    ensures
        play_step(platform, sessions, video_id, resume_secs, VlcLookup::NotLooked) matches
            PlayStepView::Done(result) && result.already_running && result.tracking_enabled
            == sessions[video_id],
{
}

/// Whatever is told of a video, a program that is not tracked is a fallback, and
/// nothing but one is.
pub proof fn law_fallback_means_untracked(
    platform: Platform,
    tracking_enabled: bool,
    position_secs: Double,
)
    ensures
        already_open(tracking_enabled, position_secs).fallback_used == !already_open(
            tracking_enabled,
            position_secs,
        ).tracking_enabled,
        system_launch(platform).fallback_used == !system_launch(platform).tracking_enabled,
        vlc_launch(tracking_enabled, position_secs).fallback_used == !vlc_launch(
            tracking_enabled,
            position_secs,
        ).tracking_enabled,
{
}

/// Without tracking nothing is ever kept.
pub proof fn law_untracked_playback_keeps_nothing(
    monitor: PlaybackMonitorView,
    status: VlcStatusView,
)
    requires
        !monitor.tracking_enabled,
    ensures
        polled_progress(monitor, status) is None,
        final_progress(monitor) is None,
{
}

/// What is told of a video that is playing already: by whether it is tracked, and resumed
/// exactly from five seconds on.
pub proof fn law_playing_video_is_told(tracking_enabled: bool, position_secs: Double)
    ensures
        already_open(tracking_enabled, position_secs).already_running,
        already_open(tracking_enabled, position_secs).tracking_enabled == tracking_enabled,
        already_open(tracking_enabled, position_secs).resume_position_secs == position_secs,
        already_open(tracking_enabled, position_secs).resumed <==> position_secs.at_least(
            Double { bits: 0x4014_0000_0000_0000 },
        ),
        already_open(true, position_secs).message
            == "This video is already playing in a managed VLC session."@,
        already_open(false, position_secs).message
            == "This video is already open, but progress tracking is not available for that session."@,
{
}

/// What is told of a video that the system opened: it is neither tracked nor resumed.
pub proof fn law_system_launch_is_told(platform: Platform)
    ensures
        !system_launch(platform).already_running,
        !system_launch(platform).tracking_enabled,
        !system_launch(platform).resumed,
        system_launch(platform).resume_position_secs == (Double { bits: 0 }),
        system_launch(Platform::Windows).message
            == "VLC was not found. Opened in the system player without progress tracking."@,
        platform != Platform::Windows ==> system_launch(platform).message
            == "Opened in the system player. Managed VLC progress tracking is only enabled on Windows right now."@,
{
}

/// What is told of a video that VLC plays: whether it is tracked, and that it is resumed
/// exactly from five seconds on.
pub proof fn law_vlc_launch_is_told(tracking_enabled: bool, position_secs: Double)
    ensures
        ({
            let told = vlc_launch(tracking_enabled, position_secs);
            let resumed = position_secs.at_least(Double { bits: 0x4014_0000_0000_0000 });
            &&& !told.already_running
            &&& told.tracking_enabled == tracking_enabled
            &&& told.resumed == resumed
            &&& told.resume_position_secs == position_secs
            &&& !tracking_enabled ==> told.message
                == "Opened in VLC, but progress tracking could not be enabled for this session."@
            &&& tracking_enabled && resumed ==> told.message
                == "Opened in VLC and resumed from your last saved position."@
            &&& tracking_enabled && !resumed ==> told.message
                == "Opened in VLC with progress tracking enabled."@
        }),
{
}

/// How a video is played that is not playing: VLC is looked for first; on Windows it is
/// started where it was found, at the position asked for, and everywhere else the
/// system opens the video.
pub proof fn law_how_a_video_is_played(
    platform: Platform,
    sessions: Map<Seq<char>, bool>,
    video_id: Seq<char>,
    secs: Double,
)
    requires
        !sessions.contains_key(video_id),
        secs.above(Double { bits: 0 }),
    ensures
        play_step(platform, sessions, video_id, Some(secs), VlcLookup::NotLooked) is LookForVlc,
        play_step(platform, sessions, video_id, Some(secs), VlcLookup::Missing) is OpenWithSystem,
        platform == Platform::Windows ==> play_step(
            platform,
            sessions,
            video_id,
            Some(secs),
            VlcLookup::Found,
        ) == PlayStepView::StartVlc(secs),
        platform == Platform::Windows ==> play_step(
            platform,
            sessions,
            video_id,
            None,
            VlcLookup::Found,
        ) == PlayStepView::StartVlc(Double { bits: 0 }),
        platform != Platform::Windows ==> play_step(
            platform,
            sessions,
            video_id,
            Some(secs),
            VlcLookup::Found,
        ) is OpenWithSystem,
        play_step(platform, sessions, video_id, Some(secs), VlcLookup::Missing)
            == PlayStepView::OpenWithSystem(system_launch(platform)),
{
}

/// What is kept while VLC plays a video that is tracked: one that was stopped or counts as
/// watched is marked so and starts over; of another the position is kept from five seconds
/// on, as it is, and nothing before.
pub proof fn law_tracked_playback_is_kept(
    video_id: Seq<char>,
    before: Option<VlcStatusView>,
    status: VlcStatusView,
)
    ensures
        ({
            let monitor = PlaybackMonitorView {
                video_id,
                tracking_enabled: true,
                last_status: before,
            };
            let over = PlaybackMonitorView {
                video_id,
                tracking_enabled: true,
                last_status: Some(status),
            };
            let watched = counts_as_watched(status.time_secs, status.marks);
            let worth = status.time_secs.at_least(Double { bits: 0x4014_0000_0000_0000 });
            let marked = Some(
                ProgressUpdateView {
                    video_id,
                    progress_secs: Double { bits: 0 },
                    mark_watched: true,
                },
            );
            let kept = Some(
                ProgressUpdateView {
                    video_id,
                    progress_secs: status.time_secs,
                    mark_watched: false,
                },
            );
            &&& watched || status.state == "stopped"@ ==> polled_progress(monitor, status) == marked
            &&& !watched && status.state != "stopped"@ && worth ==> polled_progress(monitor, status)
                == kept
            &&& !watched && status.state != "stopped"@ && !worth ==> polled_progress(
                monitor,
                status,
            ) is None
            &&& watched ==> final_progress(over) == marked
            &&& !watched && worth ==> final_progress(over) == kept
            &&& !watched && !worth ==> final_progress(over) is None
        }),
        final_progress(
            PlaybackMonitorView { video_id, tracking_enabled: true, last_status: None },
        ) is None,
{
}

/// The system is asked to open the video itself, as the last argument of its own command.
pub proof fn law_system_opens_the_video(platform: Platform, path: Seq<char>)
    ensures
        system_open(platform, path).args.last() == path,
        platform == Platform::Windows ==> system_open(platform, path).program == "cmd"@
            && system_open(platform, path).args.len() == 4 && system_open(platform, path).args[0]
            == "/C"@ && system_open(platform, path).args[1] == "start"@ && system_open(
            platform,
            path,
        ).args[2] == ""@,
        platform == Platform::MacOs ==> system_open(platform, path).program == "open"@
            && system_open(platform, path).args.len() == 1,
        platform == Platform::Linux ==> system_open(platform, path).program == "xdg-open"@
            && system_open(platform, path).args.len() == 1,
{
}

/// A video that is playing is told to be so, with what is known of its session and the
/// position that was asked for.
pub proof fn law_playing_video_is_answered(
    platform: Platform,
    sessions: Map<Seq<char>, bool>,
    video_id: Seq<char>,
    secs: Double,
)
    requires
        sessions.contains_key(video_id),
        secs.above(Double { bits: 0 }),
    ensures
        play_step(platform, sessions, video_id, Some(secs), VlcLookup::NotLooked)
            == PlayStepView::Done(already_open(sessions[video_id], secs)),
        play_step(platform, sessions, video_id, None, VlcLookup::NotLooked) == PlayStepView::Done(
            already_open(sessions[video_id], Double { bits: 0 }),
        ),
{
}

/// In specifications what is known of VLC has each of its fields under its own name.
pub proof fn law_monitor_in_specifications(monitor: PlaybackMonitor, status: VlcStatus)
    ensures
        status@.time_secs == status.time_secs,
        status@.marks == status.marks,
        status@.state == status.state@,
        monitor@.video_id == monitor.video_id@,
        monitor@.tracking_enabled == monitor.tracking_enabled,
        monitor@.last_status is Some <==> monitor.last_status is Some,
        monitor.last_status matches Some(last) ==> monitor@.last_status == Some(last@),
{
}

}
