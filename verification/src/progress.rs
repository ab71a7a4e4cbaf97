//! When a position is worth keeping, and when a video counts as watched.
use crate::double::Double;
use crate::models::PlayerStateSnapshot;
use crate::models::PlayerStateSnapshotView;
use vstd::prelude::*;

verus! {

/// The least position that playback is resumed from, `5.0` seconds.
pub const MIN_RESUME_SECS: u64 = 0x4014_0000_0000_0000;

/// The length of a video, and the two positions near its end that count as its
/// end: the one that is `15.0` seconds before it, and the one at `0.98` of it.
#[derive(Debug, Clone, Copy, PartialEq, Eq, Structural)]
pub struct WatchMarks {
    pub length_secs: Double,
    pub grace_mark_secs: Double,
    pub ratio_mark_secs: Double,
}

/// A video counts as watched at `time_secs`: its length is known and not zero or
/// less, and the later of the two marks is reached.
pub open spec fn counts_as_watched(time_secs: Double, marks: Option<WatchMarks>) -> bool {
    match marks {
        Some(m) => !(Double { bits: 0 }).at_least(m.length_secs) && time_secs.at_least(
            m.grace_mark_secs.greater_of(m.ratio_mark_secs),
        ),
        None => false,
    }
}

/// Whether a video counts as watched at `time_secs`.
pub fn should_mark_watched(time_secs: Double, marks: Option<WatchMarks>) -> (r: bool)
    ensures
        r == counts_as_watched(time_secs, marks),
{
    match marks {
        Some(m) => {
            if (Double { bits: 0 }).ge(m.length_secs) {
                false
            } else {
                time_secs.ge(m.grace_mark_secs.max(m.ratio_mark_secs))
            }
        },
        None => false,
    }
}

/// A video that counts as watched at one position does so at every later one.
pub proof fn law_watched_stays_watched(earlier: Double, later: Double, marks: Option<WatchMarks>)
    requires
        counts_as_watched(earlier, marks),
        later.at_least(earlier),
    ensures
        counts_as_watched(later, marks),
{
}

/// The position is one that playback is resumed from.
pub open spec fn resumable(position_secs: Double) -> bool {
    position_secs.at_least(Double { bits: MIN_RESUME_SECS })
}

/// Whether playback is resumed from the position.
pub fn is_resumable(position_secs: Double) -> (r: bool)
    ensures
        r == resumable(position_secs),
{
    position_secs.ge(Double { bits: MIN_RESUME_SECS })
}

/// The position to resume from that a request asks for.
pub open spec fn requested_position(video_resume_secs: Option<Double>) -> Double {
    match video_resume_secs {
        Some(secs) => secs.floored(),
        None => Double { bits: 0 },
    }
}

/// The position to resume from: the one asked for, or the start where none is
/// asked for or it is negative.
pub fn resume_position_for(video_resume_secs: Option<Double>) -> (r: Double)
    ensures
        r == requested_position(video_resume_secs),
{
    match video_resume_secs {
        Some(secs) => secs.at_least_zero(),
        None => Double { bits: 0 },
    }
}

/// A change to what is kept of the playback of a video.
#[derive(Debug)]
pub struct ProgressUpdate {
    pub video_id: String,
    pub progress_secs: Double,
    pub mark_watched: bool,
}

#[verifier::ext_equal]
pub struct ProgressUpdateView {
    pub video_id: Seq<char>,
    pub progress_secs: Double,
    pub mark_watched: bool,
}

impl View for ProgressUpdate {
    type V = ProgressUpdateView;

    open spec fn view(&self) -> ProgressUpdateView {
        ProgressUpdateView {
            video_id: self.video_id@,
            progress_secs: self.progress_secs,
            mark_watched: self.mark_watched,
        }
    }
}

impl Clone for ProgressUpdate {
    fn clone(&self) -> (r: Self)
        ensures
            r@ == self@,
    {
        ProgressUpdate {
            video_id: self.video_id.clone(),
            progress_secs: self.progress_secs,
            mark_watched: self.mark_watched,
        }
    }
}

/// The update in specifications.
pub open spec fn view_update(update: Option<ProgressUpdate>) -> Option<ProgressUpdateView> {
    match update {
        Some(u) => Some(u@),
        None => None,
    }
}

/// What is kept when `video_id` is at `position_secs`: a finished video is
/// marked as watched and starts over, another keeps a position that is worth
/// resuming from, and otherwise nothing changes.
pub open spec fn progress_of(
    video_id: Seq<char>,
    position_secs: Double,
    finished: bool,
) -> Option<ProgressUpdateView> {
    if resumable(position_secs) || finished {
        Some(
            ProgressUpdateView {
                video_id,
                progress_secs: if finished {
                    Double { bits: 0 }
                } else {
                    position_secs
                },
                mark_watched: finished,
            },
        )
    } else {
        None
    }
}

/// What to keep when `video_id` is at `position_secs`.
pub fn progress_update(video_id: &str, position_secs: Double, finished: bool) -> (r: Option<
    ProgressUpdate,
>)
    ensures
        view_update(r) == progress_of(video_id@, position_secs, finished),
{
    if is_resumable(position_secs) || finished {
        let progress_secs = if finished {
            Double { bits: 0 }
        } else {
            position_secs
        };
        Some(ProgressUpdate { video_id: video_id.to_owned(), progress_secs, mark_watched: finished })
    } else {
        None
    }
}

/// What is kept of the state that a player shows, where the marks are those of its
/// duration.
pub open spec fn snapshot_progress(
    snapshot: PlayerStateSnapshotView,
    marks: Option<WatchMarks>,
) -> Option<ProgressUpdateView> {
    match snapshot.video_id {
        Some(id) => progress_of(
            id,
            snapshot.position_secs,
            counts_as_watched(snapshot.position_secs, marks),
        ),
        None => None,
    }
}

/// What to keep of the state that a player shows, where the marks are those of its
/// duration; nothing where no video is open.
pub fn persist_snapshot(snapshot: &PlayerStateSnapshot, marks: Option<WatchMarks>) -> (r: Option<
    ProgressUpdate,
>)
    ensures
        view_update(r) == snapshot_progress(snapshot@, marks),
{
    match &snapshot.video_id {
        Some(id) => progress_update(
            id.as_str(),
            snapshot.position_secs,
            should_mark_watched(snapshot.position_secs, marks),
        ),
        None => None,
    }
}

/// An update marks a video as watched exactly if it is finished, and only then
/// sets its position back to the start.
pub proof fn law_progress_is_kept_or_reset(video_id: Seq<char>, position_secs: Double, finished: bool)
    ensures
        match progress_of(video_id, position_secs, finished) {
            Some(u) => u.video_id == video_id && u.mark_watched == finished && (finished
                ==> u.progress_secs == (Double { bits: 0 })) && (!finished ==> u.progress_secs
                == position_secs && resumable(position_secs)),
            None => !finished && !resumable(position_secs),
        },
{
}

/// A video whose marks are numbers counts as watched exactly from both of them on, if
/// its length is above zero.
pub proof fn law_watched_from_both_marks_on(time_secs: Double, marks: WatchMarks)
    requires
        !marks.length_secs.is_nan(),
        !marks.grace_mark_secs.is_nan(),
        !marks.ratio_mark_secs.is_nan(),
    ensures
        counts_as_watched(time_secs, Some(marks)) <==> marks.length_secs.above(Double { bits: 0 })
            && time_secs.at_least(marks.grace_mark_secs) && time_secs.at_least(
            marks.ratio_mark_secs,
        ),
        !counts_as_watched(time_secs, None),
{
}

/// What is kept of a video that is shown before one of the marks of its duration: it is
/// not marked as watched, and its position is kept as it is from five seconds on, and
/// not before.
pub proof fn law_unfinished_video_keeps_its_position(
    snapshot: PlayerStateSnapshotView,
    marks: Option<WatchMarks>,
)
    requires
        marks matches Some(m) ==> m.grace_mark_secs.above(snapshot.position_secs)
            || m.ratio_mark_secs.above(snapshot.position_secs) || (Double { bits: 0 }).at_least(
            m.length_secs,
        ),
    ensures
        match snapshot.video_id {
            Some(id) => if snapshot.position_secs.at_least(
                Double { bits: 0x4014_0000_0000_0000 },
            ) {
                snapshot_progress(snapshot, marks) == Some(
                    ProgressUpdateView {
                        video_id: id,
                        progress_secs: snapshot.position_secs,
                        mark_watched: false,
                    },
                )
            } else {
                snapshot_progress(snapshot, marks) is None
            },
            None => snapshot_progress(snapshot, marks) is None,
        },
{
}

/// What is kept of a video that is shown at or after both marks of a positive duration:
/// it is marked as watched and starts over.
pub proof fn law_finished_video_is_marked(snapshot: PlayerStateSnapshotView, marks: WatchMarks)
    requires
        snapshot.video_id is Some,
        marks.length_secs.above(Double { bits: 0 }),
        snapshot.position_secs.at_least(marks.grace_mark_secs),
        snapshot.position_secs.at_least(marks.ratio_mark_secs),
    ensures
        snapshot_progress(snapshot, Some(marks)) == Some(
            ProgressUpdateView {
                video_id: snapshot.video_id->Some_0,
                progress_secs: Double { bits: 0 },
                mark_watched: true,
            },
        ),
{
}

/// Playback is resumed from five seconds on, and not before.
pub proof fn law_resumed_from_five_seconds_on(position_secs: Double)
    requires
        !position_secs.is_nan(),
    ensures
        resumable(position_secs) <==> position_secs.bits < 0x8000_0000_0000_0000
            && position_secs.bits >= 0x4014_0000_0000_0000,
{
}

/// A position that is asked for is taken over where it is positive; without one, or
/// with any other, a video begins at its start.
pub proof fn law_requested_position_is_taken_over(secs: Double)
    ensures
        requested_position(None) == (Double { bits: 0 }),
        secs.above(Double { bits: 0 }) ==> requested_position(Some(secs)) == secs,
        !secs.above(Double { bits: 0 }) ==> requested_position(Some(secs)) == (Double { bits: 0 }),
{
}

/// In specifications a change of progress has each of its fields under its own name.
pub proof fn law_update_in_specifications(update: ProgressUpdate)
    ensures
        update@.video_id == update.video_id@,
        update@.progress_secs == update.progress_secs,
        update@.mark_watched == update.mark_watched,
        view_update(Some(update)) == Some(update@),
        view_update(None) is None,
{
}

}
