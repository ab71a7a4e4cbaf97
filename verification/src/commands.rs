//! What a user can ask for, as the steps that carry it out.
use crate::database::catalogue::library_insert;
use crate::database::catalogue::removal_of_others;
use crate::database::catalogue::video_values;
use crate::database::catalogue::with_text;
use crate::database::catalogue::with_value_and_text;
use crate::database::catalogue::Database;
use crate::database::cells::double_or_null;
use crate::database::cells::small_or_null;
use crate::database::cells::view_statements;
use crate::database::cells::SqlParamView;
use crate::database::cells::Statement;
use crate::database::cells::StatementView;
use crate::database::meaning::binds;
use crate::database::meaning::changes_video;
use crate::database::meaning::known_or;
use crate::database::meaning::law_removal_spares_valid_paths;
use crate::database::meaning::law_video_is_written_by_column;
use crate::database::meaning::lemma_thumbnail_change;
use crate::database::meaning::lemma_video_removal;
use crate::database::meaning::reads;
use crate::database::meaning::removes_just_the_video;
use crate::database::meaning::removes_video;
use crate::database::meaning::Wish;
use crate::database::rows::view_videos;
use crate::database::sql;
use crate::double::law_floored_is_not_negative;
use crate::double::Double;
use crate::fresh::is_moment;
use crate::fresh::is_uuid;
use crate::models::Library;
use crate::models::VideoRecord;
use crate::models::VideoRecordView;
use crate::paths::may_be_path_in;
use crate::paths::path_in;
use crate::playback::PlaybackSessions;
use crate::scanner::is_record_of;
use crate::scanner::FileFacts;
use crate::scanner::ProbedVideoMetadata;
use crate::text::has_member;
use crate::text::joined;
use crate::text::lists_text;
use crate::text::texts;
use vstd::prelude::*;

verus! {

/// Adds a library to the catalogue: a new record, and the statement that adds it.
/// Refused where the path is no directory.
pub fn add_library(is_directory: bool, path: &str, name: &str) -> (r: Result<
    (Statement, Library),
    String,
>)
    ensures
        match r {
            Ok(added) => is_directory && is_uuid(added.1@.id) && is_moment(
                added.1@.created_at,
            ) && added.1@.path == path@ && added.1@.name == name@ && added.0@ == library_insert(
                added.1@,
            ),
            Err(message) => !is_directory && message@ == "Directory does not exist"@,
        },
{
    if !is_directory {
        return Err("Directory does not exist".to_owned());
    }
    Ok(Database.add_library(path, name))
}

/// What became of removing a file.
#[derive(Debug)]
pub enum FileRemoval {
    Removed,
    /// There was no such file.
    Missing,
    /// It failed for this reason.
    Failed(String),
}

/// How far the deletion of a video has come.
#[derive(Debug)]
pub enum DeletionProgress {
    Begun,
    /// It was looked for in the catalogue.
    LookedUp(Option<VideoRecord>),
    /// Its file was removed, or was not.
    FileTried(VideoRecord, FileRemoval),
    /// Its thumbnail was removed, or was not.
    ThumbnailTried,
}

/// How the deletion of a video goes on.
#[derive(Debug)]
pub enum DeletionStep {
    /// It is refused, with this message.
    Refuse(String),
    /// Look for the video in the catalogue.
    LookUp(Statement),
    /// Remove the file of the video.
    RemoveFile(VideoRecord),
    /// Remove the thumbnail at this path.
    RemoveThumbnail(String),
    /// Remove the video from the catalogue; then it is done.
    DeleteRecord(Vec<Statement>),
}

/// The statements that remove a video from the catalogue.
pub open spec fn record_deletion(video_id: Seq<char>) -> Seq<StatementView> {
    seq![
        with_text(sql::DELETE_VIDEO_MEMBERSHIPS@, video_id),
        with_text(sql::DELETE_VIDEO@, video_id),
    ]
}

/// Deletes a video and its file: tells how it goes on. A video that is playing is
/// kept, and so is one whose file cannot be removed; a thumbnail that cannot be
/// removed is left behind.
pub fn delete_video_file(
    sessions: &PlaybackSessions,
    video_id: &str,
    progress: DeletionProgress,
) -> (r: DeletionStep)
    requires
        sessions.well_formed(),
    ensures
        match progress {
            DeletionProgress::Begun => if sessions@.contains_key(video_id@) {
                r matches DeletionStep::Refuse(message) && message@
                    == "Cannot delete a video while it is playing in a managed VLC session."@
            } else {
                r matches DeletionStep::LookUp(statement) && statement@ == with_text(
                    sql::SELECT_VIDEO@,
                    video_id@,
                )
            },
            DeletionProgress::LookedUp(None) => r matches DeletionStep::Refuse(message) && message@
                == "Video not found"@,
            DeletionProgress::LookedUp(Some(video)) => r == DeletionStep::RemoveFile(video),
            DeletionProgress::FileTried(video, FileRemoval::Failed(reason)) => r matches
                DeletionStep::Refuse(message) && message@ == "Failed to delete file from disk: "@
                + reason@,
            DeletionProgress::FileTried(video, _) => match video.thumbnail_path {
                Some(path) => r == DeletionStep::RemoveThumbnail(path),
                None => r matches DeletionStep::DeleteRecord(statements) && view_statements(
                    statements@,
                ) == record_deletion(video_id@),
            },
            DeletionProgress::ThumbnailTried => r matches DeletionStep::DeleteRecord(statements)
                && view_statements(statements@) == record_deletion(video_id@),
        },
        r matches DeletionStep::DeleteRecord(statements) ==> removes_just_the_video(
            view_statements(statements@),
            video_id@,
        ) && (progress is ThumbnailTried || progress is FileTried && !(progress->FileTried_1 is Failed)),
        r matches DeletionStep::LookUp(statement) ==> reads(statement@, Wish::Video(video_id@))
            && !sessions@.contains_key(video_id@),
        r matches DeletionStep::RemoveFile(video) ==> progress == DeletionProgress::LookedUp(
            Some(video),
        ),
        r matches DeletionStep::RemoveThumbnail(path) ==> progress is FileTried && Some(path)
            == progress->FileTried_0.thumbnail_path,
{
    match progress {
        DeletionProgress::Begun => {
            if sessions.contains(video_id) {
                DeletionStep::Refuse(
                    "Cannot delete a video while it is playing in a managed VLC session.".to_owned(),
                )
            } else {
                DeletionStep::LookUp(Database.get_video_by_id(video_id))
            }
        },
        DeletionProgress::LookedUp(found) => match found {
            Some(video) => DeletionStep::RemoveFile(video),
            None => DeletionStep::Refuse("Video not found".to_owned()),
        },
        DeletionProgress::FileTried(video, removal) => match removal {
            FileRemoval::Failed(reason) => DeletionStep::Refuse(
                joined("Failed to delete file from disk: ", reason.as_str()),
            ),
            _ => match video.thumbnail_path {
                Some(path) => DeletionStep::RemoveThumbnail(path),
                None => DeletionStep::DeleteRecord(Database.delete_video_record(video_id)),
            },
        },
        DeletionProgress::ThumbnailTried => DeletionStep::DeleteRecord(
            Database.delete_video_record(video_id),
        ),
    }
}

/// The paths of a list that another does not hold, in their order.
pub open spec fn paths_outside(found: Seq<Seq<char>>, known: Seq<Seq<char>>) -> Seq<Seq<char>> {
    found.filter(|p: Seq<char>| !lists_text(known, p))
}

/// The paths that a scan found and the catalogue does not hold.
pub fn new_paths(found: &Vec<String>, known: &Vec<String>) -> (r: Vec<String>)
    ensures
        texts(r@) == paths_outside(texts(found@), texts(known@)),
{
    let ghost all = texts(found@);
    let ghost is_new = |p: Seq<char>| !lists_text(texts(known@), p);
    let mut out: Vec<String> = Vec::new();
    let mut i: usize = 0;
    proof {
        reveal(Seq::filter);
        assert(texts(out@) =~= all.take(0).filter(is_new));
    }
    while i < found.len()
        invariant
            i <= found@.len(),
            all == texts(found@),
            is_new == (|p: Seq<char>| !lists_text(texts(known@), p)),
            texts(out@) == all.take(i as int).filter(is_new),
        decreases found.len() - i,
    {
        let ghost before = out@;
        proof {
            reveal(Seq::filter);
            assert(all.take(i + 1).drop_last() =~= all.take(i as int));
            assert(all.take(i + 1).last() == found@[i as int]@);
        }
        if !has_member(known, found[i].as_str()) {
            out.push(found[i].clone());
            assert(texts(out@) =~= texts(before).push(found@[i as int]@));
        }
        i += 1;
    }
    assert(all.take(all.len() as int) =~= all);
    out
}

/// The statements that bring the catalogue up to date after a scan: they add the
/// new videos in their order, then remove those that were not found.
pub open spec fn scan_changes(
    library_id: Seq<char>,
    found: Seq<Seq<char>>,
    new: Seq<VideoRecordView>,
) -> Seq<StatementView> {
    new.map_values(
        |v: VideoRecordView| StatementView { sql: sql::UPSERT_VIDEO@, params: video_values(v) },
    ).push(removal_of_others(library_id, found))
}

/// Scans a library: the statements that bring the catalogue up to date, with what
/// was found on disk and the new videos in it.
pub fn scan_library(library_id: &str, found: &Vec<String>, new: &Vec<VideoRecord>) -> (r: Vec<
    Statement,
>)
    requires
        found@.len() + 1 <= usize::MAX,
    ensures
        view_statements(r@) == scan_changes(library_id@, texts(found@), view_videos(new@)),
        r@.len() == new@.len() + 1,
        forall|i: int|
            0 <= i < new@.len() ==> (#[trigger] r@[i])@.sql == sql::UPSERT_VIDEO@ && r@[i]@.params
                == video_values(new@[i]@),
        forall|row: VideoRecordView| #[trigger]
            removes_video(r@[new@.len() as int]@, row) <==> row.library_id == library_id@ && !texts(
                found@,
            ).contains(row.path),
{
    let mut out: Vec<Statement> = Vec::new();
    let mut i: usize = 0;
    while i < new.len()
        invariant
            i <= new@.len(),
            out@.len() == i,
            forall|j: int|
                0 <= j < i ==> (#[trigger] out@[j])@ == (StatementView {
                    sql: sql::UPSERT_VIDEO@,
                    params: video_values(new@[j]@),
                }),
        decreases new.len() - i,
    {
        out.push(Database.upsert_video(&new[i]));
        i += 1;
    }
    out.push(Database.remove_videos_not_in_paths(library_id, found));
    assert(view_statements(out@) =~= scan_changes(
        library_id@,
        texts(found@),
        view_videos(new@),
    ));
    out
}

/// Of the paths that a scan found each is known or new, and what is new was found
/// and not known.
pub proof fn law_found_paths_are_known_or_new(
    found: Seq<Seq<char>>,
    known: Seq<Seq<char>>,
    path: Seq<char>,
)
    ensures
        lists_text(found, path) <==> (lists_text(found, path) && lists_text(known, path))
            || lists_text(paths_outside(found, known), path),
        lists_text(paths_outside(found, known), path) <==> lists_text(found, path) && !lists_text(
            known,
            path,
        ),
{
    let is_new = |p: Seq<char>| !lists_text(known, p);
    lemma_filter_members(found, is_new, path);
}

/// A second scan that finds the same paths adds no video: those that the catalogue
/// held under the library are not new again, nor are those of which the first scan
/// made records, but for the paths that another library holds. `made` are the paths of
/// which a record could be made, `elsewhere` those that other libraries hold, and
/// `later` the paths that the library holds at the second scan: what was found and
/// either known or added.
pub proof fn law_second_scan_adds_nothing(
    library_id: Seq<char>,
    found: Seq<Seq<char>>,
    known: Seq<Seq<char>>,
    made: Seq<Seq<char>>,
    elsewhere: Seq<Seq<char>>,
    later: Seq<Seq<char>>,
    again: Seq<VideoRecordView>,
)
    requires
        forall|p: Seq<char>| #[trigger]
            lists_text(later, p) <==> lists_text(found, p) && (lists_text(known, p) || lists_text(
                made,
                p,
            ) && !lists_text(elsewhere, p)),
        forall|i: int|
            0 <= i < again.len() ==> lists_text(
                paths_outside(found, later),
                (#[trigger] again[i]).path,
            ) && lists_text(made, again[i].path),
    ensures
        forall|p: Seq<char>| #[trigger]
            lists_text(paths_outside(found, later), p) <==> lists_text(
                paths_outside(found, known),
                p,
            ) && (!lists_text(made, p) || lists_text(elsewhere, p)),
        forall|i: int|
            0 <= i < again.len() ==> lists_text(elsewhere, (#[trigger] again[i]).path),
        elsewhere.len() == 0 ==> scan_changes(library_id, found, again) == seq![
            removal_of_others(library_id, found),
        ],
{
    assert forall|p: Seq<char>| #[trigger]
        lists_text(paths_outside(found, later), p) <==> lists_text(paths_outside(found, known), p)
        && (!lists_text(made, p) || lists_text(elsewhere, p)) by {
        law_found_paths_are_known_or_new(found, later, p);
        law_found_paths_are_known_or_new(found, known, p);
        assert(lists_text(later, p) <==> lists_text(found, p) && (lists_text(known, p)
            || lists_text(made, p) && !lists_text(elsewhere, p)));
    }
    assert forall|i: int| 0 <= i < again.len() implies lists_text(
        elsewhere,
        (#[trigger] again[i]).path,
    ) by {
        assert(lists_text(paths_outside(found, later), again[i].path));
    }
    if elsewhere.len() == 0 {
        if again.len() > 0 {
            assert(lists_text(elsewhere, again[0].path));
        }
        assert(scan_changes(library_id, found, again) =~= seq![
            removal_of_others(library_id, found),
        ]);
    }
}

/// A path that another library holds is written again at every scan, with the same
/// values: the statement carries no length, size or thumbnail that could replace a
/// known one, and where the system tells when the file was changed, all its values but
/// the identifier and the time of adding are those of the scan before.
pub proof fn law_rewritten_video_keeps_its_values(
    one: VideoRecordView,
    other: VideoRecordView,
    path: Seq<char>,
    library_id: Seq<char>,
    facts: FileFacts,
    name: Seq<char>,
    i: int,
)
    requires
        is_record_of(one, path, library_id, facts, name),
        is_record_of(other, path, library_id, facts, name),
        0 <= i < video_values(one).len(),
    ensures
        6 <= i <= 9 ==> video_values(other)[i] == SqlParamView::Null,
        i != 0 && i < 13 ==> video_values(other)[i] == video_values(one)[i],
        facts.modified is Some && i == 14 ==> video_values(other)[i] == video_values(one)[i],
{
}

proof fn lemma_filter_members(all: Seq<Seq<char>>, keep: spec_fn(Seq<char>) -> bool, p: Seq<char>)
    ensures
        lists_text(all.filter(keep), p) <==> lists_text(all, p) && keep(p),
    decreases all.len(),
{
    reveal(Seq::filter);
    if all.len() > 0 {
        let rest = all.drop_last();
        lemma_filter_members(rest, keep, p);
        let kept = all.filter(keep);
        let kept_rest = rest.filter(keep);
        if lists_text(rest, p) {
            let k = choose|k: int| 0 <= k < rest.len() && #[trigger] rest[k] == p;
            assert(all[k] == p);
        }
        if all.last() == p {
            assert(all[all.len() - 1] == p);
        }
        if lists_text(all, p) {
            let k = choose|k: int| 0 <= k < all.len() && #[trigger] all[k] == p;
            if k < rest.len() {
                assert(rest[k] == p);
            }
        }
        if lists_text(kept_rest, p) {
            let k = choose|k: int| 0 <= k < kept_rest.len() && #[trigger] kept_rest[k] == p;
            assert(kept[k] == p);
        }
        if keep(all.last()) {
            assert(kept == kept_rest.push(all.last()));
            assert(kept[kept_rest.len() as int] == all.last());
        }
        if lists_text(kept, p) {
            let k = choose|k: int| 0 <= k < kept.len() && #[trigger] kept[k] == p;
            if k < kept_rest.len() {
                assert(kept_rest[k] == p);
            }
        }
    }
}

/// A tenth of the length of a video, and the moment one second before its end.
#[derive(Debug, Clone, Copy, PartialEq, Eq, Structural)]
pub struct ThumbnailMarks {
    pub tenth_secs: Double,
    pub second_before_end_secs: Double,
}

/// Where a video is shown from when its length is not known, `5.0` seconds.
pub const DEFAULT_THUMBNAIL_SECS: u64 = 0x4014_0000_0000_0000;

/// The moment of a video that its thumbnail shows: a tenth into it, but not in its
/// last second nor before its start.
pub open spec fn thumbnail_moment(marks: Option<ThumbnailMarks>) -> Double {
    match marks {
        Some(m) => m.tenth_secs.lesser_of(m.second_before_end_secs).floored(),
        None => Double { bits: DEFAULT_THUMBNAIL_SECS },
    }
}

/// The moment of a video that its thumbnail shows.
pub fn thumbnail_timestamp(marks: Option<ThumbnailMarks>) -> (r: Double)
    ensures
        r == thumbnail_moment(marks),
{
    match marks {
        Some(m) => m.tenth_secs.min(m.second_before_end_secs).at_least_zero(),
        None => Double { bits: DEFAULT_THUMBNAIL_SECS },
    }
}

/// A thumbnail never shows a moment before the start of a video.
pub proof fn law_thumbnail_moment_is_not_negative(marks: Option<ThumbnailMarks>)
    ensures
        thumbnail_moment(marks).at_least(Double { bits: 0 }),
{
    if let Some(m) = marks {
        law_floored_is_not_negative(m.tenth_secs.lesser_of(m.second_before_end_secs));
    }
}

/// The name of the thumbnail of a video.
pub fn thumbnail_name(video_id: &str) -> (r: String)
    ensures
        r@ == video_id@ + ".jpg"@,
{
    joined(video_id, ".jpg")
}

/// The path of the thumbnail of a video.
pub fn thumbnail_path(thumbnails_dir: &str, video_id: &str) -> (r: String)
    ensures
        may_be_path_in(r@, thumbnails_dir@, video_id@ + ".jpg"@),
{
    let name = thumbnail_name(video_id);
    path_in(thumbnails_dir, name.as_str())
}

/// How far taking over what a probe told of a video has come.
#[derive(Debug)]
pub enum MetadataProgress {
    Begun,
    /// The catalogue was told; the video has a thumbnail or not.
    Stored { thumbnail_exists: bool },
    /// A thumbnail was made at a path, or was not.
    ThumbnailTried { succeeded: bool, path: String },
}

/// How taking over what a probe told of a video goes on.
#[derive(Debug)]
pub enum MetadataStep {
    /// Tell the catalogue what was probed.
    Store(Statement),
    /// Make a thumbnail.
    MakeThumbnail,
    /// Tell the catalogue of the thumbnail; then it is done.
    NoteThumbnail(Statement),
    /// It is done.
    Done,
}

/// The statement that notes the thumbnail of a video.
pub open spec fn thumbnail_note(video_id: Seq<char>, path: Seq<char>) -> StatementView {
    with_value_and_text(sql::SET_THUMBNAIL@, SqlParamView::Text(path), video_id)
}

/// Takes over what a probe told of a video: tells how it goes on. Where the length
/// of the video is known and it has no thumbnail, one is made.
pub fn extract_video_metadata(
    video_id: &str,
    metadata: &ProbedVideoMetadata,
    progress: MetadataProgress,
) -> (r: MetadataStep)
    ensures
        match progress {
            MetadataProgress::Begun => r matches MetadataStep::Store(statement) && statement@ == (
            StatementView {
                sql: sql::SET_METADATA@,
                params: seq![
                    double_or_null(metadata.duration_secs),
                    small_or_null(metadata.width),
                    small_or_null(metadata.height),
                    SqlParamView::Text(video_id@),
                ],
            }),
            MetadataProgress::Stored { thumbnail_exists } => if metadata.duration_secs is Some
                && !thumbnail_exists {
                r is MakeThumbnail
            } else {
                r is Done
            },
            MetadataProgress::ThumbnailTried { succeeded, path } => if succeeded {
                r matches MetadataStep::NoteThumbnail(statement) && statement@ == thumbnail_note(
                    video_id@,
                    path@,
                )
            } else {
                r is Done
            },
        },
        r matches MetadataStep::Store(statement) ==> changes_video(
            statement@,
            video_id@,
            |row: VideoRecordView|
                VideoRecordView {
                    duration_secs: known_or(metadata.duration_secs, row.duration_secs),
                    width: known_or(metadata.width, row.width),
                    height: known_or(metadata.height, row.height),
                    ..row
                },
        ),
        r matches MetadataStep::NoteThumbnail(statement) ==> progress is ThumbnailTried
            && changes_video(
            statement@,
            video_id@,
            |row: VideoRecordView|
                VideoRecordView {
                    thumbnail_path: Some(progress->ThumbnailTried_path@),
                    ..row
                },
        ),
{
    match progress {
        MetadataProgress::Begun => MetadataStep::Store(
            Database.update_video_metadata(
                video_id,
                metadata.duration_secs,
                metadata.width,
                metadata.height,
            ),
        ),
        MetadataProgress::Stored { thumbnail_exists } => {
            if metadata.duration_secs.is_some() && !thumbnail_exists {
                MetadataStep::MakeThumbnail
            } else {
                MetadataStep::Done
            }
        },
        MetadataProgress::ThumbnailTried { succeeded, path } => {
            if succeeded {
                MetadataStep::NoteThumbnail(Database.update_thumbnail(video_id, path.as_str()))
            } else {
                MetadataStep::Done
            }
        },
    }
}

/// A run over the videos that have no thumbnail.
pub struct ThumbnailRun {
    videos: Vec<VideoRecord>,
    done: usize,
    generated: usize,
}

#[verifier::ext_equal]
pub struct ThumbnailRunView {
    /// The videos that are still to be looked at.
    pub left: Seq<VideoRecordView>,
    /// How many thumbnails were made.
    pub generated: nat,
}

impl View for ThumbnailRun {
    type V = ThumbnailRunView;

    closed spec fn view(&self) -> ThumbnailRunView {
        ThumbnailRunView {
            left: view_videos(self.videos@).skip(self.done as int),
            generated: self.generated as nat,
        }
    }
}

impl ThumbnailRun {
    /// No more videos were looked at than there are, nor more thumbnails made than
    /// videos looked at.
    pub closed spec fn well_formed(self) -> bool {
        self.generated <= self.done <= self.videos@.len()
    }

    /// A run over videos.
    pub fn begin(videos: Vec<VideoRecord>) -> (r: ThumbnailRun)
        ensures
            r.well_formed(),
            r@ == (ThumbnailRunView { left: view_videos(videos@), generated: 0 }),
    {
        let r = ThumbnailRun { videos, done: 0, generated: 0 };
        assert(r@.left =~= view_videos(videos@));
        r
    }

    /// The video whose thumbnail is made next; nothing at the end.
    pub fn next(&self) -> (r: Option<&VideoRecord>)
        requires
            self.well_formed(),
        ensures
            match r {
                Some(video) => self@.left.len() > 0 && video@ == self@.left[0],
                None => self@.left.len() == 0,
            },
    {
        if self.done < self.videos.len() {
            Some(&self.videos[self.done])
        } else {
            None
        }
    }

    /// Goes on after a thumbnail was made at a path, or was not. Gives the
    /// statement that notes it.
    pub fn finish(&mut self, succeeded: bool, thumbnail_path: &str) -> (r: Option<Statement>)
        requires
            old(self).well_formed(),
            old(self)@.left.len() > 0,
        ensures
            final(self).well_formed(),
            final(self)@ == (ThumbnailRunView {
                left: old(self)@.left.drop_first(),
                generated: if succeeded {
                    old(self)@.generated + 1
                } else {
                    old(self)@.generated
                },
            }),
            match r {
                Some(statement) => succeeded && statement@ == thumbnail_note(
                    old(self)@.left[0].id,
                    thumbnail_path@,
                ),
                None => !succeeded,
            },
    {
        let at: usize = self.done;
        assert(self@.left.len() == self.videos@.len() - at);
        assert(self.videos.len() == self.videos@.len());
        self.done = at + 1;
        assert(self@.left =~= old(self)@.left.drop_first());
        if succeeded {
            self.generated = self.generated + 1;
            Some(Database.update_thumbnail(self.videos[at].id.as_str(), thumbnail_path))
        } else {
            None
        }
    }

    /// How many thumbnails were made.
    pub fn generated(&self) -> (r: usize)
        requires
            self.well_formed(),
        ensures
            r == self@.generated,
    {
        self.generated
    }
}

/// After the statements with which a deletion ends no row of the videos has the
/// identifier of the video and no collection holds it, and nothing else is removed.
pub proof fn law_deleted_video_is_gone(video_id: Seq<char>)
    ensures
        removes_just_the_video(record_deletion(video_id), video_id),
{
    lemma_video_removal(record_deletion(video_id), video_id);
}

/// The note of a thumbnail changes the thumbnail of the one video, to the path.
pub proof fn law_thumbnail_is_noted(video_id: Seq<char>, path: Seq<char>)
    ensures
        changes_video(
            thumbnail_note(video_id, path),
            video_id,
            |row: VideoRecordView| VideoRecordView { thumbnail_path: Some(path), ..row },
        ),
{
    lemma_thumbnail_change(thumbnail_note(video_id, path), video_id, path);
}

/// The new paths of two lists in a row are those of the one and then of the other; a
/// path by itself is new exactly if it is not known.
pub proof fn law_new_paths_keep_their_order(
    one: Seq<Seq<char>>,
    other: Seq<Seq<char>>,
    known: Seq<Seq<char>>,
    path: Seq<char>,
)
    ensures
        paths_outside(one + other, known) == paths_outside(one, known) + paths_outside(other, known),
        known.contains(path) ==> paths_outside(seq![path], known) == Seq::<Seq<char>>::empty(),
        !known.contains(path) ==> paths_outside(seq![path], known) == seq![path],
{
    let is_new = |p: Seq<char>| !lists_text(known, p);
    Seq::filter_distributes_over_add(one, other, is_new);
    reveal_with_fuel(Seq::filter, 2);
    assert(seq![path].drop_last() =~= Seq::<Seq<char>>::empty());
    assert(known.contains(path) <==> lists_text(known, path));
    assert(paths_outside(seq![path], known) =~= if known.contains(path) {
        Seq::empty()
    } else {
        seq![path]
    });
}

/// A scan first writes each new video, in its order and with its path and library, and
/// removes in the end the videos of the library that were not found, and those alone.
pub proof fn law_scan_writes_and_then_removes(
    library_id: Seq<char>,
    found: Seq<Seq<char>>,
    new: Seq<VideoRecordView>,
    row: VideoRecordView,
    i: int,
)
    requires
        0 <= i < new.len(),
    ensures
        scan_changes(library_id, found, new).len() == new.len() + 1,
        scan_changes(library_id, found, new)[i].sql == sql::UPSERT_VIDEO@,
        binds(scan_changes(library_id, found, new)[i], 0, new[i].id),
        binds(scan_changes(library_id, found, new)[i], 1, new[i].library_id),
        binds(scan_changes(library_id, found, new)[i], 2, new[i].path),
        removes_video(scan_changes(library_id, found, new)[new.len() as int], row)
            <==> row.library_id == library_id && !found.contains(row.path),
{
    law_removal_spares_valid_paths(library_id, found, row);
    law_video_is_written_by_column(new[i]);
}

/// A thumbnail shows a tenth of the video, where that is after its start and no later
/// than one second before its end; that moment, where it comes first; and otherwise the
/// start. Where the length is not known, it shows five seconds.
pub proof fn law_thumbnail_moment(tenth: Double, end: Double)
    requires
        !tenth.is_nan(),
        !end.is_nan(),
    ensures
        ({
            let moment = thumbnail_moment(
                Some(ThumbnailMarks { tenth_secs: tenth, second_before_end_secs: end }),
            );
            &&& tenth.above(Double { bits: 0 }) && end.above(tenth) ==> moment == tenth
            &&& end.above(Double { bits: 0 }) && tenth.at_least(end) ==> moment == end
            &&& !tenth.above(Double { bits: 0 }) || !end.above(Double { bits: 0 }) ==> moment == (
            Double { bits: 0 })
        }),
        thumbnail_moment(None) == (Double { bits: 0x4014_0000_0000_0000 }),
{
}

/// A scan that finds nothing new removes in its one statement the videos of the library
/// that were not found, and those alone.
pub proof fn law_scan_without_news_removes(
    library_id: Seq<char>,
    found: Seq<Seq<char>>,
    row: VideoRecordView,
)
    ensures
        scan_changes(library_id, found, seq![]).len() == 1,
        removes_video(scan_changes(library_id, found, seq![])[0], row) <==> row.library_id
            == library_id && !found.contains(row.path),
{
    law_removal_spares_valid_paths(library_id, found, row);
}

}
