//! The records that the catalogue keeps and the states that the player shows.
use crate::double::Double;
use crate::text::copy_text;
use crate::text::same_text;
use crate::text::view_text;
use vstd::prelude::*;

verus! {

/// A directory whose videos are in the catalogue.
#[derive(Debug)]
pub struct Library {
    pub id: String,
    pub path: String,
    pub name: String,
    pub created_at: String,
}

#[verifier::ext_equal]
pub struct LibraryView {
    pub id: Seq<char>,
    pub path: Seq<char>,
    pub name: Seq<char>,
    pub created_at: Seq<char>,
}

impl View for Library {
    type V = LibraryView;

    open spec fn view(&self) -> LibraryView {
        LibraryView {
            id: self.id@,
            path: self.path@,
            name: self.name@,
            created_at: self.created_at@,
        }
    }
}

impl Clone for Library {
    fn clone(&self) -> (r: Self)
        ensures
            r@ == self@,
    {
        Library {
            id: self.id.clone(),
            path: self.path.clone(),
            name: self.name.clone(),
            created_at: self.created_at.clone(),
        }
    }
}

/// A video of the catalogue.
#[derive(Debug)]
pub struct VideoRecord {
    pub id: String,
    pub library_id: String,
    pub path: String,
    pub title: String,
    pub file_name: String,
    pub file_size: i64,
    pub duration_secs: Option<Double>,
    pub width: Option<i32>,
    pub height: Option<i32>,
    pub thumbnail_path: Option<String>,
    pub watched: i32,
    pub watch_progress_secs: Double,
    pub favorite: i32,
    pub date_added: String,
    pub date_modified: String,
}

#[verifier::ext_equal]
pub struct VideoRecordView {
    pub id: Seq<char>,
    pub library_id: Seq<char>,
    pub path: Seq<char>,
    pub title: Seq<char>,
    pub file_name: Seq<char>,
    pub file_size: i64,
    pub duration_secs: Option<Double>,
    pub width: Option<i32>,
    pub height: Option<i32>,
    pub thumbnail_path: Option<Seq<char>>,
    pub watched: i32,
    pub watch_progress_secs: Double,
    pub favorite: i32,
    pub date_added: Seq<char>,
    pub date_modified: Seq<char>,
}

impl View for VideoRecord {
    type V = VideoRecordView;

    open spec fn view(&self) -> VideoRecordView {
        VideoRecordView {
            id: self.id@,
            library_id: self.library_id@,
            path: self.path@,
            title: self.title@,
            file_name: self.file_name@,
            file_size: self.file_size,
            duration_secs: self.duration_secs,
            width: self.width,
            height: self.height,
            thumbnail_path: view_text(self.thumbnail_path),
            watched: self.watched,
            watch_progress_secs: self.watch_progress_secs,
            favorite: self.favorite,
            date_added: self.date_added@,
            date_modified: self.date_modified@,
        }
    }
}

impl Clone for VideoRecord {
    fn clone(&self) -> (r: Self)
        ensures
            r@ == self@,
    {
        VideoRecord {
            id: self.id.clone(),
            library_id: self.library_id.clone(),
            path: self.path.clone(),
            title: self.title.clone(),
            file_name: self.file_name.clone(),
            file_size: self.file_size,
            duration_secs: self.duration_secs,
            width: self.width,
            height: self.height,
            thumbnail_path: copy_text(&self.thumbnail_path),
            watched: self.watched,
            watch_progress_secs: self.watch_progress_secs,
            favorite: self.favorite,
            date_added: self.date_added.clone(),
            date_modified: self.date_modified.clone(),
        }
    }
}

/// A named collection of videos.
#[derive(Debug)]
pub struct Collection {
    pub id: String,
    pub name: String,
    pub description: String,
    pub cover_video_id: Option<String>,
    pub cover_image_path: Option<String>,
    pub created_at: String,
    pub video_count: i64,
}

#[verifier::ext_equal]
pub struct CollectionView {
    pub id: Seq<char>,
    pub name: Seq<char>,
    pub description: Seq<char>,
    pub cover_video_id: Option<Seq<char>>,
    pub cover_image_path: Option<Seq<char>>,
    pub created_at: Seq<char>,
    pub video_count: i64,
}

impl View for Collection {
    type V = CollectionView;

    open spec fn view(&self) -> CollectionView {
        CollectionView {
            id: self.id@,
            name: self.name@,
            description: self.description@,
            cover_video_id: view_text(self.cover_video_id),
            cover_image_path: view_text(self.cover_image_path),
            created_at: self.created_at@,
            video_count: self.video_count,
        }
    }
}

impl Clone for Collection {
    fn clone(&self) -> (r: Self)
        ensures
            r@ == self@,
    {
        Collection {
            id: self.id.clone(),
            name: self.name.clone(),
            description: self.description.clone(),
            cover_video_id: copy_text(&self.cover_video_id),
            cover_image_path: copy_text(&self.cover_image_path),
            created_at: self.created_at.clone(),
            video_count: self.video_count,
        }
    }
}

/// Counts over the whole catalogue.
#[derive(Debug, Clone, Copy, PartialEq, Eq, Structural)]
pub struct LibraryStats {
    pub total_videos: i64,
    pub watched_videos: i64,
    pub unwatched_videos: i64,
    pub total_size_bytes: i64,
    pub total_duration_secs: Double,
    pub total_libraries: i64,
}

/// How far a scan has come.
#[derive(Debug)]
pub struct ScanProgress {
    pub library_id: String,
    pub phase: String,
    pub current: usize,
    pub total: usize,
    pub message: String,
}

#[verifier::ext_equal]
pub struct ScanProgressView {
    pub library_id: Seq<char>,
    pub phase: Seq<char>,
    pub current: usize,
    pub total: usize,
    pub message: Seq<char>,
}

impl View for ScanProgress {
    type V = ScanProgressView;

    open spec fn view(&self) -> ScanProgressView {
        ScanProgressView {
            library_id: self.library_id@,
            phase: self.phase@,
            current: self.current,
            total: self.total,
            message: self.message@,
        }
    }
}

impl Clone for ScanProgress {
    fn clone(&self) -> (r: Self)
        ensures
            r@ == self@,
    {
        ScanProgress {
            library_id: self.library_id.clone(),
            phase: self.phase.clone(),
            current: self.current,
            total: self.total,
            message: self.message.clone(),
        }
    }
}

/// What became of a request to play a video.
#[derive(Debug)]
pub struct PlaybackLaunchResult {
    pub tracking_enabled: bool,
    pub already_running: bool,
    pub resumed: bool,
    pub resume_position_secs: Double,
    pub fallback_used: bool,
    pub message: String,
}

#[verifier::ext_equal]
pub struct PlaybackLaunchResultView {
    pub tracking_enabled: bool,
    pub already_running: bool,
    pub resumed: bool,
    pub resume_position_secs: Double,
    pub fallback_used: bool,
    pub message: Seq<char>,
}

impl View for PlaybackLaunchResult {
    type V = PlaybackLaunchResultView;

    open spec fn view(&self) -> PlaybackLaunchResultView {
        PlaybackLaunchResultView {
            tracking_enabled: self.tracking_enabled,
            already_running: self.already_running,
            resumed: self.resumed,
            resume_position_secs: self.resume_position_secs,
            fallback_used: self.fallback_used,
            message: self.message@,
        }
    }
}

impl Clone for PlaybackLaunchResult {
    fn clone(&self) -> (r: Self)
        ensures
            r@ == self@,
    {
        PlaybackLaunchResult {
            tracking_enabled: self.tracking_enabled,
            already_running: self.already_running,
            resumed: self.resumed,
            resume_position_secs: self.resume_position_secs,
            fallback_used: self.fallback_used,
            message: self.message.clone(),
        }
    }
}

/// A subtitle or audio track of the video that is playing.
#[derive(Debug)]
pub struct PlayerTrack {
    pub id: i64,
    pub kind: String,
    pub title: Option<String>,
    pub lang: Option<String>,
    pub codec: Option<String>,
    pub external: bool,
    pub selected: bool,
}

#[verifier::ext_equal]
pub struct PlayerTrackView {
    pub id: i64,
    pub kind: Seq<char>,
    pub title: Option<Seq<char>>,
    pub lang: Option<Seq<char>>,
    pub codec: Option<Seq<char>>,
    pub external: bool,
    pub selected: bool,
}

impl View for PlayerTrack {
    type V = PlayerTrackView;

    open spec fn view(&self) -> PlayerTrackView {
        PlayerTrackView {
            id: self.id,
            kind: self.kind@,
            title: view_text(self.title),
            lang: view_text(self.lang),
            codec: view_text(self.codec),
            external: self.external,
            selected: self.selected,
        }
    }
}

impl Clone for PlayerTrack {
    fn clone(&self) -> (r: Self)
        ensures
            r@ == self@,
    {
        PlayerTrack {
            id: self.id,
            kind: self.kind.clone(),
            title: copy_text(&self.title),
            lang: copy_text(&self.lang),
            codec: copy_text(&self.codec),
            external: self.external,
            selected: self.selected,
        }
    }
}

/// The tracks in specifications.
pub open spec fn view_tracks(tracks: Seq<PlayerTrack>) -> Seq<PlayerTrackView> {
    tracks.map_values(|t: PlayerTrack| t@)
}

/// A copy of a list of tracks.
pub fn copy_tracks(tracks: &Vec<PlayerTrack>) -> (r: Vec<PlayerTrack>)
    ensures
        view_tracks(r@) == view_tracks(tracks@),
{
    let mut out: Vec<PlayerTrack> = Vec::new();
    let mut i: usize = 0;
    while i < tracks.len()
        invariant
            i <= tracks@.len(),
            out@.len() == i,
            forall|j: int| 0 <= j < i ==> (#[trigger] out@[j])@ == tracks@[j]@,
        decreases tracks.len() - i,
    {
        out.push(tracks[i].clone());
        i += 1;
    }
    assert(view_tracks(out@) =~= view_tracks(tracks@));
    out
}

/// What the player shows at one moment.
#[derive(Debug)]
pub struct PlayerStateSnapshot {
    pub video_id: Option<String>,
    pub video_path: Option<String>,
    pub title: Option<String>,
    pub position_secs: Double,
    pub duration_secs: Option<Double>,
    pub paused: bool,
    pub volume: Double,
    pub fullscreen: bool,
    pub is_loaded: bool,
    pub subtitle_tracks: Vec<PlayerTrack>,
    pub audio_tracks: Vec<PlayerTrack>,
    pub active_subtitle_id: Option<i64>,
    pub active_audio_id: Option<i64>,
}

#[verifier::ext_equal]
pub struct PlayerStateSnapshotView {
    pub video_id: Option<Seq<char>>,
    pub video_path: Option<Seq<char>>,
    pub title: Option<Seq<char>>,
    pub position_secs: Double,
    pub duration_secs: Option<Double>,
    pub paused: bool,
    pub volume: Double,
    pub fullscreen: bool,
    pub is_loaded: bool,
    pub subtitle_tracks: Seq<PlayerTrackView>,
    pub audio_tracks: Seq<PlayerTrackView>,
    pub active_subtitle_id: Option<i64>,
    pub active_audio_id: Option<i64>,
}

impl View for PlayerStateSnapshot {
    type V = PlayerStateSnapshotView;

    open spec fn view(&self) -> PlayerStateSnapshotView {
        PlayerStateSnapshotView {
            video_id: view_text(self.video_id),
            video_path: view_text(self.video_path),
            title: view_text(self.title),
            position_secs: self.position_secs,
            duration_secs: self.duration_secs,
            paused: self.paused,
            volume: self.volume,
            fullscreen: self.fullscreen,
            is_loaded: self.is_loaded,
            subtitle_tracks: view_tracks(self.subtitle_tracks@),
            audio_tracks: view_tracks(self.audio_tracks@),
            active_subtitle_id: self.active_subtitle_id,
            active_audio_id: self.active_audio_id,
        }
    }
}

/// Full volume, `100.0`.
pub const FULL_VOLUME: u64 = 0x4059_0000_0000_0000;

/// The state of a player in which nothing is open.
pub open spec fn idle_snapshot() -> PlayerStateSnapshotView {
    PlayerStateSnapshotView {
        video_id: None,
        video_path: None,
        title: None,
        position_secs: Double { bits: 0 },
        duration_secs: None,
        paused: false,
        volume: Double { bits: FULL_VOLUME },
        fullscreen: false,
        is_loaded: false,
        subtitle_tracks: Seq::empty(),
        audio_tracks: Seq::empty(),
        active_subtitle_id: None,
        active_audio_id: None,
    }
}

impl Default for PlayerStateSnapshot {
    fn default() -> (r: Self)
        ensures
            r@ == idle_snapshot(),
    {
        let r = PlayerStateSnapshot {
            video_id: None,
            video_path: None,
            title: None,
            position_secs: Double { bits: 0 },
            duration_secs: None,
            paused: false,
            volume: Double { bits: FULL_VOLUME },
            fullscreen: false,
            is_loaded: false,
            subtitle_tracks: Vec::new(),
            audio_tracks: Vec::new(),
            active_subtitle_id: None,
            active_audio_id: None,
        };
        assert(r@ =~= idle_snapshot());
        r
    }
}

impl Clone for PlayerStateSnapshot {
    fn clone(&self) -> (r: Self)
        ensures
            r@ == self@,
    {
        PlayerStateSnapshot {
            video_id: copy_text(&self.video_id),
            video_path: copy_text(&self.video_path),
            title: copy_text(&self.title),
            position_secs: self.position_secs,
            duration_secs: self.duration_secs,
            paused: self.paused,
            volume: self.volume,
            fullscreen: self.fullscreen,
            is_loaded: self.is_loaded,
            subtitle_tracks: copy_tracks(&self.subtitle_tracks),
            audio_tracks: copy_tracks(&self.audio_tracks),
            active_subtitle_id: self.active_subtitle_id,
            active_audio_id: self.active_audio_id,
        }
    }
}

/// The extension, in lower case, of a file that is taken for a video.
pub open spec fn is_video_extension(e: Seq<char>) -> bool {
    ||| e == "mp4"@
    ||| e == "mkv"@
    ||| e == "avi"@
    ||| e == "mov"@
    ||| e == "wmv"@
    ||| e == "flv"@
    ||| e == "webm"@
    ||| e == "m4v"@
    ||| e == "mpg"@
    ||| e == "mpeg"@
    ||| e == "3gp"@
    ||| e == "ts"@
    ||| e == "mts"@
    ||| e == "m2ts"@
    ||| e == "vob"@
    ||| e == "ogv"@
}

/// Whether `e`, in lower case, is the extension of a video.
pub fn video_extension(e: &str) -> (r: bool)
    ensures
        r == is_video_extension(e@),
{
    same_text(e, "mp4") || same_text(e, "mkv") || same_text(e, "avi") || same_text(e, "mov")
        || same_text(e, "wmv") || same_text(e, "flv") || same_text(e, "webm") || same_text(e, "m4v")
        || same_text(e, "mpg") || same_text(e, "mpeg") || same_text(e, "3gp") || same_text(e, "ts")
        || same_text(e, "mts") || same_text(e, "m2ts") || same_text(e, "vob") || same_text(e, "ogv")
}

/// The extensions of videos, and no others.
pub proof fn law_video_extensions(e: Seq<char>)
    ensures
        is_video_extension(e) <==> seq![
            "mp4"@,
            "mkv"@,
            "avi"@,
            "mov"@,
            "wmv"@,
            "flv"@,
            "webm"@,
            "m4v"@,
            "mpg"@,
            "mpeg"@,
            "3gp"@,
            "ts"@,
            "mts"@,
            "m2ts"@,
            "vob"@,
            "ogv"@,
        ].contains(e),
{
    let all = seq![
        "mp4"@,
        "mkv"@,
        "avi"@,
        "mov"@,
        "wmv"@,
        "flv"@,
        "webm"@,
        "m4v"@,
        "mpg"@,
        "mpeg"@,
        "3gp"@,
        "ts"@,
        "mts"@,
        "m2ts"@,
        "vob"@,
        "ogv"@,
    ];
    assert(all[0] == "mp4"@ && all[1] == "mkv"@ && all[2] == "avi"@ && all[3] == "mov"@);
    assert(all[4] == "wmv"@ && all[5] == "flv"@ && all[6] == "webm"@ && all[7] == "m4v"@);
    assert(all[8] == "mpg"@ && all[9] == "mpeg"@ && all[10] == "3gp"@ && all[11] == "ts"@);
    assert(all[12] == "mts"@ && all[13] == "m2ts"@ && all[14] == "vob"@ && all[15] == "ogv"@);
}

/// A player in which nothing is open: it is at the start of nothing, at full volume, not
/// paused, not full screen, and lists no tracks.
pub proof fn law_idle_player_shows_nothing()
    ensures
        idle_snapshot().video_id is None,
        idle_snapshot().video_path is None,
        idle_snapshot().title is None,
        idle_snapshot().position_secs == (Double { bits: 0 }),
        idle_snapshot().duration_secs is None,
        idle_snapshot().volume == (Double { bits: 0x4059_0000_0000_0000 }),
        !idle_snapshot().paused && !idle_snapshot().fullscreen && !idle_snapshot().is_loaded,
        idle_snapshot().subtitle_tracks.len() == 0 && idle_snapshot().audio_tracks.len() == 0,
        idle_snapshot().active_subtitle_id is None && idle_snapshot().active_audio_id is None,
{
}

/// In specifications a library is made up of the texts of its fields.
pub proof fn law_library_in_specifications(library: Library)
    ensures
        library@.id == library.id@,
        library@.path == library.path@,
        library@.name == library.name@,
        library@.created_at == library.created_at@,
{
}

/// In specifications a video has each of its fields under its own name.
pub proof fn law_video_in_specifications(video: VideoRecord)
    ensures
        video@.id == video.id@,
        video@.library_id == video.library_id@,
        video@.path == video.path@,
        video@.title == video.title@,
        video@.file_name == video.file_name@,
        video@.file_size == video.file_size,
        video@.duration_secs == video.duration_secs,
        video@.width == video.width,
        video@.height == video.height,
        video@.thumbnail_path is Some <==> video.thumbnail_path is Some,
        video.thumbnail_path matches Some(path) ==> video@.thumbnail_path == Some(path@),
        video@.watched == video.watched,
        video@.watch_progress_secs == video.watch_progress_secs,
        video@.favorite == video.favorite,
        video@.date_added == video.date_added@,
        video@.date_modified == video.date_modified@,
{
}

/// In specifications a collection has each of its fields under its own name.
pub proof fn law_collection_in_specifications(collection: Collection)
    ensures
        collection@.id == collection.id@,
        collection@.name == collection.name@,
        collection@.description == collection.description@,
        collection@.cover_video_id is Some <==> collection.cover_video_id is Some,
        collection.cover_video_id matches Some(id) ==> collection@.cover_video_id == Some(id@),
        collection@.cover_image_path is Some <==> collection.cover_image_path is Some,
        collection.cover_image_path matches Some(path) ==> collection@.cover_image_path == Some(
            path@,
        ),
        collection@.created_at == collection.created_at@,
        collection@.video_count == collection.video_count,
{
}

/// In specifications what the user is told has each of its fields under its own name.
pub proof fn law_reports_in_specifications(scan: ScanProgress, launch: PlaybackLaunchResult)
    ensures
        scan@.library_id == scan.library_id@,
        scan@.phase == scan.phase@,
        scan@.current == scan.current,
        scan@.total == scan.total,
        scan@.message == scan.message@,
        launch@.tracking_enabled == launch.tracking_enabled,
        launch@.already_running == launch.already_running,
        launch@.resumed == launch.resumed,
        launch@.resume_position_secs == launch.resume_position_secs,
        launch@.fallback_used == launch.fallback_used,
        launch@.message == launch.message@,
{
}

/// In specifications a track has each of its fields under its own name, and tracks keep
/// their order.
pub proof fn law_tracks_in_specifications(tracks: Seq<PlayerTrack>, i: int)
    requires
        0 <= i < tracks.len(),
    ensures
        view_tracks(tracks).len() == tracks.len(),
        ({
            let track = tracks[i];
            let seen = view_tracks(tracks)[i];
            &&& seen.id == track.id
            &&& seen.kind == track.kind@
            &&& seen.title is Some <==> track.title is Some
            &&& track.title is Some ==> seen.title->0 == track.title->0@
            &&& seen.lang is Some <==> track.lang is Some
            &&& track.lang is Some ==> seen.lang->0 == track.lang->0@
            &&& seen.codec is Some <==> track.codec is Some
            &&& track.codec is Some ==> seen.codec->0 == track.codec->0@
            &&& seen.external == track.external
            &&& seen.selected == track.selected
        }),
{
}

/// In specifications the state of the player has each of its fields under its own name.
pub proof fn law_player_state_in_specifications(state: PlayerStateSnapshot)
    ensures
        state@.video_id is Some <==> state.video_id is Some,
        state.video_id matches Some(id) ==> state@.video_id == Some(id@),
        state@.video_path is Some <==> state.video_path is Some,
        state.video_path matches Some(path) ==> state@.video_path == Some(path@),
        state@.title is Some <==> state.title is Some,
        state.title matches Some(title) ==> state@.title == Some(title@),
        state@.position_secs == state.position_secs,
        state@.duration_secs == state.duration_secs,
        state@.paused == state.paused,
        state@.volume == state.volume,
        state@.fullscreen == state.fullscreen,
        state@.is_loaded == state.is_loaded,
        state@.subtitle_tracks == view_tracks(state.subtitle_tracks@),
        state@.audio_tracks == view_tracks(state.audio_tracks@),
        state@.active_subtitle_id == state.active_subtitle_id,
        state@.active_audio_id == state.active_audio_id,
{
}

}
