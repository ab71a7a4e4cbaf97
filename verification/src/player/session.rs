//! A session of the player: how it begins, and how another video is loaded
//! into it.
use crate::double::Double;
use crate::models::idle_snapshot;
use crate::models::PlayerStateSnapshot;
use crate::models::PlayerStateSnapshotView;
use crate::paths::cleaned;
use crate::paths::derive_title;
use crate::paths::ends_in_a_name;
use crate::paths::is_title_of;
use crate::paths::last_name;
use crate::paths::stem;
use crate::paths::tail;
use crate::player::ipc::load_file_command;
use crate::player::ipc::load_file_spec;
use crate::player::ipc::IpcCommand;
use crate::player::messages::PlayerShared;
use crate::player::messages::PlayerSharedView;
use crate::progress::is_resumable;
use crate::progress::persist_snapshot;
use crate::progress::resumable;
use crate::progress::snapshot_progress;
use crate::progress::view_update;
use crate::progress::ProgressUpdate;
use crate::progress::WatchMarks;
use crate::text::copy_text;
use crate::text::is_text;
use crate::text::view_text;
use vstd::prelude::*;

verus! {

/// A session that begins with a video.
pub open spec fn opened_with(
    video_id: Seq<char>,
    video_path: Seq<char>,
    title: Seq<char>,
    resume_secs: Double,
    fullscreen: bool,
) -> PlayerSharedView {
    PlayerSharedView {
        snapshot: PlayerStateSnapshotView {
            video_id: Some(video_id),
            video_path: Some(video_path),
            title: Some(title),
            position_secs: resume_secs.floored(),
            fullscreen,
            ..idle_snapshot()
        },
        pending_resume_secs: None,
    }
}

/// The video is the one that the session shows.
pub open spec fn shows_video(
    shared: PlayerSharedView,
    video_id: Seq<char>,
    video_path: Seq<char>,
) -> bool {
    shared.snapshot.video_id == Some(video_id) && shared.snapshot.video_path == Some(video_path)
}

/// The session after another video was asked for: nothing is known of it yet but
/// what it is; volume and full screen stay.
pub open spec fn loading(
    shared: PlayerSharedView,
    video_id: Seq<char>,
    video_path: Seq<char>,
    title: Seq<char>,
    resume_secs: Double,
) -> PlayerSharedView {
    PlayerSharedView {
        snapshot: PlayerStateSnapshotView {
            video_id: Some(video_id),
            video_path: Some(video_path),
            title: Some(title),
            volume: shared.snapshot.volume,
            fullscreen: shared.snapshot.fullscreen,
            ..idle_snapshot()
        },
        pending_resume_secs: if resumable(resume_secs) {
            Some(resume_secs)
        } else {
            None
        },
    }
}

/// What is to be done when another video is loaded into a session: the position
/// of the previous one is kept, the command is sent, the new state is shown, and
/// the entry of the previous video is read again.
#[derive(Debug)]
pub struct VideoSwitch {
    pub progress: Option<ProgressUpdate>,
    pub command: IpcCommand,
    pub previous_video_id: Option<String>,
}

impl PlayerShared {
    /// A session that begins with a video.
    pub fn opened(
        video_id: &str,
        video_path: &str,
        title: &str,
        resume_secs: Double,
        fullscreen: bool,
    ) -> (r: PlayerShared)
        ensures
            r@ == opened_with(video_id@, video_path@, title@, resume_secs, fullscreen),
    {
        let mut snapshot: PlayerStateSnapshot = PlayerStateSnapshot::default();
        snapshot.video_id = Some(video_id.to_owned());
        snapshot.video_path = Some(video_path.to_owned());
        snapshot.title = Some(title.to_owned());
        snapshot.position_secs = resume_secs.at_least_zero();
        snapshot.fullscreen = fullscreen;
        PlayerShared { snapshot, pending_resume_secs: None }
    }

    /// Loads a video in place of the one that the session shows; does nothing
    /// where it is the same. `marks` are those of the duration that
    /// the session shows.
    pub fn load_video(
        &mut self,
        video_id: &str,
        video_path: &str,
        title: &str,
        resume_secs: Double,
        marks: Option<WatchMarks>,
    ) -> (r: Option<VideoSwitch>)
        ensures
            shows_video(old(self)@, video_id@, video_path@) ==> r is None && final(self)@ == old(
                self,
            )@,
            !shows_video(old(self)@, video_id@, video_path@) ==> final(self)@ == loading(
                old(self)@,
                video_id@,
                video_path@,
                title@,
                resume_secs,
            ) && (r matches Some(switch) && view_update(switch.progress) == snapshot_progress(
                old(self)@.snapshot,
                marks,
            ) && switch.command@ == load_file_spec(video_path@) && view_text(
                switch.previous_video_id,
            ) == old(self)@.snapshot.video_id),
    {
        if is_text(&self.snapshot.video_id, video_id) && is_text(
            &self.snapshot.video_path,
            video_path,
        ) {
            return None;
        }
        let previous_video_id = copy_text(&self.snapshot.video_id);
        let progress = persist_snapshot(&self.snapshot, marks);
        let volume = self.snapshot.volume;
        let fullscreen = self.snapshot.fullscreen;
        let mut snapshot: PlayerStateSnapshot = PlayerStateSnapshot::default();
        snapshot.video_id = Some(video_id.to_owned());
        snapshot.video_path = Some(video_path.to_owned());
        snapshot.title = Some(title.to_owned());
        snapshot.volume = volume;
        snapshot.fullscreen = fullscreen;
        self.snapshot = snapshot;
        self.pending_resume_secs = if is_resumable(resume_secs) {
            Some(resume_secs)
        } else {
            None
        };
        Some(VideoSwitch { progress, command: load_file_command(video_path), previous_video_id })
    }
}

/// The title under which a video is shown: the one in the catalogue, or one made
/// of its path.
pub fn session_title(known: &Option<String>, video_path: &str) -> (r: String)
    ensures
        match *known {
            Some(t) => r@ == t@,
            None => is_title_of(r@, video_path@) && (ends_in_a_name(video_path@) ==> r@ == cleaned(
                stem(last_name(video_path@)),
            ) || r@ == cleaned(stem(tail(video_path@)))),
        },
{
    match known {
        Some(t) => t.clone(),
        None => derive_title(video_path),
    }
}

/// A video that a session was opened with, or that was loaded into it, is the
/// one that it shows, and it is not loaded again.
pub proof fn law_the_video_asked_for_is_shown(
    shared: PlayerSharedView,
    video_id: Seq<char>,
    video_path: Seq<char>,
    title: Seq<char>,
    resume_secs: Double,
    fullscreen: bool,
)
    ensures
        shows_video(
            opened_with(video_id, video_path, title, resume_secs, fullscreen),
            video_id,
            video_path,
        ),
        shows_video(
            loading(shared, video_id, video_path, title, resume_secs),
            video_id,
            video_path,
        ),
{
}

/// A session that begins shows the video that it begins with, at the position asked for,
/// and everything else as a player in which nothing is open; nothing is pending.
pub proof fn law_opened_session_shows_its_video(
    video_id: Seq<char>,
    video_path: Seq<char>,
    title: Seq<char>,
    resume_secs: Double,
    fullscreen: bool,
)
    ensures
        ({
            let shared = opened_with(video_id, video_path, title, resume_secs, fullscreen);
            &&& shared.pending_resume_secs is None
            &&& shared.snapshot.video_id == Some(video_id)
            &&& shared.snapshot.video_path == Some(video_path)
            &&& shared.snapshot.title == Some(title)
            &&& shared.snapshot.fullscreen == fullscreen
            &&& resume_secs.above(Double { bits: 0 }) ==> shared.snapshot.position_secs
                == resume_secs
            &&& !resume_secs.above(Double { bits: 0 }) ==> shared.snapshot.position_secs == (
            Double { bits: 0 })
            &&& shared.snapshot.duration_secs is None
            &&& shared.snapshot.volume == (Double { bits: 0x4059_0000_0000_0000 })
            &&& !shared.snapshot.paused && !shared.snapshot.is_loaded
            &&& shared.snapshot.subtitle_tracks.len() == 0
            &&& shared.snapshot.audio_tracks.len() == 0
            &&& shared.snapshot.active_subtitle_id is None
            &&& shared.snapshot.active_audio_id is None
        }),
{
}

/// A video that is loaded into a session takes the place of the previous one: nothing of
/// that is left but the volume and whether the window is full screen, and the position
/// to resume from is pending exactly if it is at least five seconds.
pub proof fn law_loaded_video_starts_afresh(
    shared: PlayerSharedView,
    video_id: Seq<char>,
    video_path: Seq<char>,
    title: Seq<char>,
    resume_secs: Double,
)
    ensures
        ({
            let after = loading(shared, video_id, video_path, title, resume_secs);
            &&& after.snapshot.video_id == Some(video_id)
            &&& after.snapshot.video_path == Some(video_path)
            &&& after.snapshot.title == Some(title)
            &&& after.snapshot.position_secs == (Double { bits: 0 })
            &&& after.snapshot.duration_secs is None
            &&& after.snapshot.volume == shared.snapshot.volume
            &&& after.snapshot.fullscreen == shared.snapshot.fullscreen
            &&& !after.snapshot.paused && !after.snapshot.is_loaded
            &&& after.snapshot.subtitle_tracks.len() == 0
            &&& after.snapshot.audio_tracks.len() == 0
            &&& after.snapshot.active_subtitle_id is None
            &&& after.snapshot.active_audio_id is None
            &&& after.pending_resume_secs == if resume_secs.at_least(
                Double { bits: 0x4014_0000_0000_0000 },
            ) {
                Some(resume_secs)
            } else {
                None
            }
        }),
{
}

}
