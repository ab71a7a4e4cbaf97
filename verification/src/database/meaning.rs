//! What the statements of the catalogue do to its rows, as their SQL reads.
use crate::database::catalogue::collection_insert;
use crate::database::catalogue::library_insert;
use crate::database::catalogue::marks;
use crate::database::catalogue::progress_statement;
use crate::database::catalogue::removal_of_others;
use crate::database::catalogue::stats_of;
use crate::database::catalogue::stats_questions;
use crate::database::catalogue::video_values;
use crate::database::cells::SqlCellView;
use crate::database::cells::SqlParamView;
use crate::database::cells::StatementView;
use crate::database::sql;
use crate::double::Double;
use crate::models::CollectionView;
use crate::models::LibraryView;
use crate::models::VideoRecordView;
use crate::progress::ProgressUpdateView;
use crate::text::decimal;
use vstd::prelude::*;

verus! {

/// A text is bound to the mark with number `k + 1`.
pub open spec fn binds(statement: StatementView, k: int, text: Seq<char>) -> bool {
    0 <= k < statement.params.len() && statement.params[k] == SqlParamView::Text(text)
}

/// The marks `?from` to `?to` with commas between them.
pub open spec fn mark_list(from: nat, to: nat) -> Seq<char>
    decreases to + 1 - from,
{
    if from > to {
        seq![]
    } else if from == to {
        "?"@ + decimal(from)
    } else {
        "?"@ + decimal(from) + ", "@ + mark_list(from + 1, to)
    }
}

/// The statement removes a row of the videos.
pub open spec fn removes_video(statement: StatementView, row: VideoRecordView) -> bool {
    ||| statement.sql == "DELETE FROM videos WHERE id = ?1"@ && binds(statement, 0, row.id)
    ||| statement.sql == "DELETE FROM videos WHERE library_id = ?1"@ && binds(
        statement,
        0,
        row.library_id,
    )
    ||| {
        &&& statement.params.len() >= 2
        &&& statement.sql == "DELETE FROM videos WHERE library_id = ?1 AND path NOT IN ("@ + mark_list(
            2,
            statement.params.len(),
        ) + ")"@
        &&& binds(statement, 0, row.library_id)
        &&& forall|k: int| 1 <= k < statement.params.len() ==> !#[trigger] binds(statement, k, row.path)
    }
}

/// The statement takes a video out of a collection.
pub open spec fn removes_membership(
    statement: StatementView,
    collection_id: Seq<char>,
    video_id: Seq<char>,
) -> bool {
    ||| statement.sql == "DELETE FROM collection_videos WHERE video_id = ?1"@ && binds(
        statement,
        0,
        video_id,
    )
    ||| statement.sql == "DELETE FROM collection_videos WHERE collection_id = ?1"@ && binds(
        statement,
        0,
        collection_id,
    )
    ||| statement.sql == "DELETE FROM collection_videos WHERE collection_id = ?1 AND video_id = ?2"@
        && binds(statement, 0, collection_id) && binds(statement, 1, video_id)
}

/// The statement removes a library.
pub open spec fn removes_library(statement: StatementView, id: Seq<char>) -> bool {
    statement.sql == "DELETE FROM libraries WHERE id = ?1"@ && binds(statement, 0, id)
}

/// The statement removes a collection.
pub open spec fn removes_collection(statement: StatementView, id: Seq<char>) -> bool {
    statement.sql == "DELETE FROM collections WHERE id = ?1"@ && binds(statement, 0, id)
}

/// Some of the statements removes a row of the videos.
pub open spec fn remove_video(statements: Seq<StatementView>, row: VideoRecordView) -> bool {
    exists|i: int| 0 <= i < statements.len() && removes_video(#[trigger] statements[i], row)
}

/// Some of the statements takes a video out of a collection.
pub open spec fn remove_membership(
    statements: Seq<StatementView>,
    collection_id: Seq<char>,
    video_id: Seq<char>,
) -> bool {
    exists|i: int|
        0 <= i < statements.len() && removes_membership(
            #[trigger] statements[i],
            collection_id,
            video_id,
        )
}

/// Some of the statements removes a library.
pub open spec fn remove_library(statements: Seq<StatementView>, id: Seq<char>) -> bool {
    exists|i: int| 0 <= i < statements.len() && removes_library(#[trigger] statements[i], id)
}

/// Some of the statements removes a collection.
pub open spec fn remove_collection(statements: Seq<StatementView>, id: Seq<char>) -> bool {
    exists|i: int| 0 <= i < statements.len() && removes_collection(#[trigger] statements[i], id)
}

/// The text that removes rows, by the table that it names.
proof fn lemma_removals_differ()
    ensures
        "DELETE FROM videos WHERE id = ?1"@.len() == 32,
        "DELETE FROM videos WHERE library_id = ?1"@.len() == 40,
        "DELETE FROM videos WHERE library_id = ?1 AND path NOT IN ("@.len() == 58,
        "DELETE FROM libraries WHERE id = ?1"@.len() == 35,
        "DELETE FROM collections WHERE id = ?1"@.len() == 37,
        "DELETE FROM collection_videos WHERE video_id = ?1"@.len() == 49,
        "DELETE FROM collection_videos WHERE collection_id = ?1"@.len() == 54,
        "DELETE FROM collection_videos WHERE collection_id = ?1 AND video_id = ?2"@.len() == 72,
        "DELETE FROM videos WHERE library_id = ?1 AND path NOT IN ("@[12] == 'v',
        "DELETE FROM collection_videos WHERE collection_id = ?1 AND video_id = ?2"@[12] == 'c',
{
    reveal_strlit("DELETE FROM videos WHERE id = ?1");
    reveal_strlit("DELETE FROM videos WHERE library_id = ?1");
    reveal_strlit("DELETE FROM videos WHERE library_id = ?1 AND path NOT IN (");
    reveal_strlit("DELETE FROM libraries WHERE id = ?1");
    reveal_strlit("DELETE FROM collections WHERE id = ?1");
    reveal_strlit("DELETE FROM collection_videos WHERE video_id = ?1");
    reveal_strlit("DELETE FROM collection_videos WHERE collection_id = ?1");
    reveal_strlit("DELETE FROM collection_videos WHERE collection_id = ?1 AND video_id = ?2");
}

proof fn lemma_mark_list_grows(from: nat, to: nat)
    requires
        from <= to,
    ensures
        mark_list(from, to + 1) == mark_list(from, to) + ", "@ + "?"@ + decimal(to + 1),
    decreases to - from,
{
    if from < to {
        lemma_mark_list_grows(from + 1, to);
        assert(mark_list(from, to + 1) =~= "?"@ + decimal(from) + ", "@ + (mark_list(from + 1, to)
            + ", "@ + "?"@ + decimal(to + 1)));
        assert(mark_list(from, to) == "?"@ + decimal(from) + ", "@ + mark_list(from + 1, to));
        assert(mark_list(from, to + 1) =~= mark_list(from, to) + ", "@ + "?"@ + decimal(to + 1));
    } else {
        assert(mark_list(from, to + 1) == "?"@ + decimal(from) + ", "@ + mark_list(to + 1, to + 1));
        assert(mark_list(from, to + 1) =~= mark_list(from, to) + ", "@ + "?"@ + decimal(to + 1));
    }
}

/// The marks of a list of values are `?2`, `?3` and so on, one for each value.
pub proof fn law_marks_are_numbered_from_two(count: nat)
    requires
        count > 0,
    ensures
        marks(count) == mark_list(2, count + 1),
    decreases count,
{
    if count > 1 {
        law_marks_are_numbered_from_two((count - 1) as nat);
        lemma_mark_list_grows(2, count);
    }
}

/// The statement that removes the videos that are gone from a library removes the
/// row of a video of the library exactly if its path is not valid, and nothing of
/// another library or table. Each valid path is bound, in its order.
pub proof fn law_removal_spares_valid_paths(
    library_id: Seq<char>,
    paths: Seq<Seq<char>>,
    row: VideoRecordView,
)
    ensures
        removes_video(removal_of_others(library_id, paths), row) <==> row.library_id == library_id
            && !paths.contains(row.path),
        paths.len() > 0 ==> removal_of_others(library_id, paths).params.len() == paths.len() + 1,
        binds(removal_of_others(library_id, paths), 0, library_id),
        forall|k: int|
            0 <= k < paths.len() ==> binds(
                removal_of_others(library_id, paths),
                k + 1,
                #[trigger] paths[k],
            ),
        forall|id: Seq<char>| !#[trigger] removes_library(removal_of_others(library_id, paths), id),
        forall|id: Seq<char>| !#[trigger]
            removes_collection(removal_of_others(library_id, paths), id),
        forall|collection_id: Seq<char>, video_id: Seq<char>| !#[trigger]
            removes_membership(removal_of_others(library_id, paths), collection_id, video_id),
{
    let statement = removal_of_others(library_id, paths);
    lemma_removals_differ();
    if paths.len() > 0 {
        law_marks_are_numbered_from_two(paths.len());
        assert(statement.sql[12] == "DELETE FROM videos WHERE library_id = ?1 AND path NOT IN ("@[12]);
        assert forall|k: int| 1 <= k < statement.params.len() implies binds(
            statement,
            k,
            #[trigger] paths[k - 1],
        ) by {}
        if paths.contains(row.path) {
            let k = paths.index_of(row.path);
            assert(binds(statement, k + 1, row.path));
        } else {
            assert forall|k: int| 1 <= k < statement.params.len() implies !#[trigger] binds(
                statement,
                k,
                row.path,
            ) by {
                assert(binds(statement, k, paths[k - 1]));
                assert(paths[k - 1] != row.path);
            }
        }
    }
}

/// What the two statements of removals do together, of one text each.
proof fn lemma_removals(statements: Seq<StatementView>, one: Seq<char>, other: Seq<char>, id: Seq<char>)
    requires
        statements == seq![
            (StatementView { sql: one, params: seq![SqlParamView::Text(id)] }),
            (StatementView { sql: other, params: seq![SqlParamView::Text(id)] }),
        ],
        one.len() <= 54,
        other.len() <= 54,
    ensures
        forall|row: VideoRecordView| #[trigger]
            remove_video(statements, row) <==> (row.id == id && (one
                == "DELETE FROM videos WHERE id = ?1"@ || other == "DELETE FROM videos WHERE id = ?1"@) || row.library_id == id && (
            one == "DELETE FROM videos WHERE library_id = ?1"@ || other
                == "DELETE FROM videos WHERE library_id = ?1"@)),
        forall|c: Seq<char>, v: Seq<char>| #[trigger]
            remove_membership(statements, c, v) <==> (v == id && (one
                == "DELETE FROM collection_videos WHERE video_id = ?1"@ || other
                == "DELETE FROM collection_videos WHERE video_id = ?1"@) || c == id && (one
                == "DELETE FROM collection_videos WHERE collection_id = ?1"@ || other
                == "DELETE FROM collection_videos WHERE collection_id = ?1"@)),
        forall|l: Seq<char>| #[trigger]
            remove_library(statements, l) <==> l == id && (one
                == "DELETE FROM libraries WHERE id = ?1"@ || other
                == "DELETE FROM libraries WHERE id = ?1"@),
        forall|c: Seq<char>| #[trigger]
            remove_collection(statements, c) <==> c == id && (one
                == "DELETE FROM collections WHERE id = ?1"@ || other
                == "DELETE FROM collections WHERE id = ?1"@),
{
    lemma_removals_differ();
    let first = statements[0];
    let second = statements[1];
    assert forall|row: VideoRecordView| #[trigger]
        remove_video(statements, row) <==> removes_video(first, row) || removes_video(second, row) by {
        if removes_video(first, row) {
            assert(removes_video(statements[0], row));
        }
        if removes_video(second, row) {
            assert(removes_video(statements[1], row));
        }
    }
    assert forall|c: Seq<char>, v: Seq<char>| #[trigger]
        remove_membership(statements, c, v) <==> removes_membership(first, c, v)
        || removes_membership(second, c, v) by {
        if removes_membership(first, c, v) {
            assert(removes_membership(statements[0], c, v));
        }
        if removes_membership(second, c, v) {
            assert(removes_membership(statements[1], c, v));
        }
    }
    assert forall|l: Seq<char>| #[trigger]
        remove_library(statements, l) <==> removes_library(first, l) || removes_library(second, l) by {
        if removes_library(first, l) {
            assert(removes_library(statements[0], l));
        }
        if removes_library(second, l) {
            assert(removes_library(statements[1], l));
        }
    }
    assert forall|c: Seq<char>| #[trigger]
        remove_collection(statements, c) <==> removes_collection(first, c) || removes_collection(
            second,
            c,
        ) by {
        if removes_collection(first, c) {
            assert(removes_collection(statements[0], c));
        }
        if removes_collection(second, c) {
            assert(removes_collection(statements[1], c));
        }
    }
}

/// The statements remove one video from the catalogue: its row, its places in
/// collections, and nothing else.
pub open spec fn removes_just_the_video(statements: Seq<StatementView>, video_id: Seq<char>) -> bool {
    &&& forall|row: VideoRecordView| #[trigger] remove_video(statements, row) <==> row.id == video_id
    &&& forall|c: Seq<char>, v: Seq<char>| #[trigger]
        remove_membership(statements, c, v) <==> v == video_id
    &&& forall|l: Seq<char>| !#[trigger] remove_library(statements, l)
    &&& forall|c: Seq<char>| !#[trigger] remove_collection(statements, c)
}

/// The statements remove one library: its row and those of its videos, and nothing
/// else.
pub open spec fn removes_just_the_library(statements: Seq<StatementView>, id: Seq<char>) -> bool {
    &&& forall|row: VideoRecordView| #[trigger]
        remove_video(statements, row) <==> row.library_id == id
    &&& forall|c: Seq<char>, v: Seq<char>| !#[trigger] remove_membership(statements, c, v)
    &&& forall|l: Seq<char>| #[trigger] remove_library(statements, l) <==> l == id
    &&& forall|c: Seq<char>| !#[trigger] remove_collection(statements, c)
}

/// The statements remove one collection: its row and the places of videos in it, and
/// nothing else.
pub open spec fn removes_just_the_collection(statements: Seq<StatementView>, id: Seq<char>) -> bool {
    &&& forall|row: VideoRecordView| !#[trigger] remove_video(statements, row)
    &&& forall|c: Seq<char>, v: Seq<char>| #[trigger] remove_membership(statements, c, v) <==> c == id
    &&& forall|l: Seq<char>| !#[trigger] remove_library(statements, l)
    &&& forall|c: Seq<char>| #[trigger] remove_collection(statements, c) <==> c == id
}

pub(crate) proof fn lemma_video_removal(statements: Seq<StatementView>, id: Seq<char>)
    requires
        statements == seq![
            (StatementView {
                sql: sql::DELETE_VIDEO_MEMBERSHIPS@,
                params: seq![SqlParamView::Text(id)],
            }),
            (StatementView { sql: sql::DELETE_VIDEO@, params: seq![SqlParamView::Text(id)] }),
        ],
    ensures
        removes_just_the_video(statements, id),
{
    lemma_removals_differ();
    lemma_removals(statements, sql::DELETE_VIDEO_MEMBERSHIPS@, sql::DELETE_VIDEO@, id);
}

pub(crate) proof fn lemma_library_removal(statements: Seq<StatementView>, id: Seq<char>)
    requires
        statements == seq![
            (StatementView {
                sql: sql::DELETE_LIBRARY_VIDEOS@,
                params: seq![SqlParamView::Text(id)],
            }),
            (StatementView { sql: sql::DELETE_LIBRARY@, params: seq![SqlParamView::Text(id)] }),
        ],
    ensures
        removes_just_the_library(statements, id),
{
    lemma_removals_differ();
    lemma_removals(statements, sql::DELETE_LIBRARY_VIDEOS@, sql::DELETE_LIBRARY@, id);
}

pub(crate) proof fn lemma_collection_removal(statements: Seq<StatementView>, id: Seq<char>)
    requires
        statements == seq![
            (StatementView {
                sql: sql::DELETE_COLLECTION_MEMBERSHIPS@,
                params: seq![SqlParamView::Text(id)],
            }),
            (StatementView { sql: sql::DELETE_COLLECTION@, params: seq![SqlParamView::Text(id)] }),
        ],
    ensures
        removes_just_the_collection(statements, id),
{
    lemma_removals_differ();
    lemma_removals(statements, sql::DELETE_COLLECTION_MEMBERSHIPS@, sql::DELETE_COLLECTION@, id);
}

/// The statement takes one video out of one collection, and does nothing else.
pub open spec fn removes_just_the_place(
    statement: StatementView,
    collection_id: Seq<char>,
    video_id: Seq<char>,
) -> bool {
    &&& forall|row: VideoRecordView| !#[trigger] removes_video(statement, row)
    &&& forall|c: Seq<char>, v: Seq<char>| #[trigger]
        removes_membership(statement, c, v) <==> c == collection_id && v == video_id
    &&& forall|l: Seq<char>| !#[trigger] removes_library(statement, l)
    &&& forall|c: Seq<char>| !#[trigger] removes_collection(statement, c)
}

pub(crate) proof fn lemma_place_removal(
    statement: StatementView,
    collection_id: Seq<char>,
    video_id: Seq<char>,
)
    requires
        statement.sql == sql::DELETE_MEMBERSHIP@,
        statement.params == seq![SqlParamView::Text(collection_id), SqlParamView::Text(video_id)],
    ensures
        removes_just_the_place(statement, collection_id, video_id),
{
    lemma_removals_differ();
    let other = "DELETE FROM videos WHERE library_id = ?1 AND path NOT IN ("@ + mark_list(2, 2)
        + ")"@;
    assert(other[12] == 'v');
}

/// The integer that is bound.
pub open spec fn bound_integer(value: SqlParamView) -> i64 {
    match value {
        SqlParamView::Integer(n) => n,
        _ => 0,
    }
}

/// The number that is bound.
pub open spec fn bound_number(value: SqlParamView) -> Double {
    match value {
        SqlParamView::Real(d) => d,
        _ => Double { bits: 0 },
    }
}

/// The text that is bound, if one is.
pub open spec fn bound_text(value: SqlParamView) -> Option<Seq<char>> {
    match value {
        SqlParamView::Text(t) => Some(t),
        _ => None,
    }
}

/// A number that is bound, or the one that was there.
pub open spec fn or_number(value: SqlParamView, there: Option<Double>) -> Option<Double> {
    match value {
        SqlParamView::Real(d) => Some(d),
        _ => there,
    }
}

/// A small integer that is bound, or the one that was there.
pub open spec fn or_small(value: SqlParamView, there: Option<i32>) -> Option<i32> {
    match value {
        SqlParamView::Integer(n) => Some(n as i32),
        _ => there,
    }
}

/// The row of a video after a statement that changes rows.
pub open spec fn video_after(statement: StatementView, row: VideoRecordView) -> VideoRecordView {
    if statement.sql == "UPDATE videos SET watched = ?1 WHERE id = ?2"@ && binds(statement, 1, row.id) {
        VideoRecordView { watched: bound_integer(statement.params[0]) as i32, ..row }
    } else if statement.sql == "UPDATE videos SET watch_progress_secs = ?1 WHERE id = ?2"@ && binds(
        statement,
        1,
        row.id,
    ) {
        VideoRecordView { watch_progress_secs: bound_number(statement.params[0]), ..row }
    } else if statement.sql == "UPDATE videos SET watched = 1, watch_progress_secs = 0 WHERE id = ?1"@
        && binds(statement, 0, row.id) {
        VideoRecordView { watched: 1, watch_progress_secs: Double { bits: 0 }, ..row }
    } else if statement.sql == "UPDATE videos SET favorite = ?1 WHERE id = ?2"@ && binds(
        statement,
        1,
        row.id,
    ) {
        VideoRecordView { favorite: bound_integer(statement.params[0]) as i32, ..row }
    } else if statement.sql == "UPDATE videos SET thumbnail_path = ?1 WHERE id = ?2"@ && binds(
        statement,
        1,
        row.id,
    ) {
        VideoRecordView { thumbnail_path: bound_text(statement.params[0]), ..row }
    } else if statement.sql
        == "UPDATE videos SET duration_secs = COALESCE(?1, duration_secs), width = COALESCE(?2, width), height = COALESCE(?3, height) WHERE id = ?4"@
        && binds(statement, 3, row.id) {
        VideoRecordView {
            duration_secs: or_number(statement.params[0], row.duration_secs),
            width: or_small(statement.params[1], row.width),
            height: or_small(statement.params[2], row.height),
            ..row
        }
    } else {
        row
    }
}

proof fn lemma_changes_differ()
    ensures
        "UPDATE videos SET watched = ?1 WHERE id = ?2"@.len() == 44,
        "UPDATE videos SET watch_progress_secs = ?1 WHERE id = ?2"@.len() == 56,
        "UPDATE videos SET watched = 1, watch_progress_secs = 0 WHERE id = ?1"@.len() == 68,
        "UPDATE videos SET favorite = ?1 WHERE id = ?2"@.len() == 45,
        "UPDATE videos SET thumbnail_path = ?1 WHERE id = ?2"@.len() == 51,
        "UPDATE videos SET duration_secs = COALESCE(?1, duration_secs), width = COALESCE(?2, width), height = COALESCE(?3, height) WHERE id = ?4"@.len()
            == 135,
{
    reveal_strlit("UPDATE videos SET watched = ?1 WHERE id = ?2");
    reveal_strlit("UPDATE videos SET watch_progress_secs = ?1 WHERE id = ?2");
    reveal_strlit("UPDATE videos SET watched = 1, watch_progress_secs = 0 WHERE id = ?1");
    reveal_strlit("UPDATE videos SET favorite = ?1 WHERE id = ?2");
    reveal_strlit("UPDATE videos SET thumbnail_path = ?1 WHERE id = ?2");
    reveal_strlit(
        "UPDATE videos SET duration_secs = COALESCE(?1, duration_secs), width = COALESCE(?2, width), height = COALESCE(?3, height) WHERE id = ?4",
    );
}

/// The statement changes the row of one video as given, and no other row.
pub open spec fn changes_video(
    statement: StatementView,
    video_id: Seq<char>,
    change: spec_fn(VideoRecordView) -> VideoRecordView,
) -> bool {
    forall|row: VideoRecordView| #[trigger]
        video_after(statement, row) == if row.id == video_id {
            change(row)
        } else {
            row
        }
}

pub(crate) proof fn lemma_watched_change(statement: StatementView, id: Seq<char>, watched: i64)
    requires
        statement.sql == sql::SET_WATCHED@,
        statement.params == seq![SqlParamView::Integer(watched), SqlParamView::Text(id)],
        watched == 0 || watched == 1,
    ensures
        changes_video(
            statement,
            id,
            |row: VideoRecordView| VideoRecordView { watched: watched as i32, ..row },
        ),
{
    lemma_changes_differ();
}

pub(crate) proof fn lemma_favorite_change(statement: StatementView, id: Seq<char>, favorite: i64)
    requires
        statement.sql == sql::SET_FAVORITE@,
        statement.params == seq![SqlParamView::Integer(favorite), SqlParamView::Text(id)],
        favorite == 0 || favorite == 1,
    ensures
        changes_video(
            statement,
            id,
            |row: VideoRecordView| VideoRecordView { favorite: favorite as i32, ..row },
        ),
{
    lemma_changes_differ();
}

pub(crate) proof fn lemma_position_change(statement: StatementView, id: Seq<char>, secs: Double)
    requires
        statement.sql == sql::SET_PROGRESS@,
        statement.params == seq![SqlParamView::Real(secs), SqlParamView::Text(id)],
    ensures
        changes_video(
            statement,
            id,
            |row: VideoRecordView| VideoRecordView { watch_progress_secs: secs, ..row },
        ),
{
    lemma_changes_differ();
}

pub(crate) proof fn lemma_thumbnail_change(statement: StatementView, id: Seq<char>, path: Seq<char>)
    requires
        statement.sql == sql::SET_THUMBNAIL@,
        statement.params == seq![SqlParamView::Text(path), SqlParamView::Text(id)],
    ensures
        changes_video(
            statement,
            id,
            |row: VideoRecordView| VideoRecordView { thumbnail_path: Some(path), ..row },
        ),
{
    lemma_changes_differ();
}

/// What is known takes the place of what was there.
pub open spec fn known_or<A>(known: Option<A>, there: Option<A>) -> Option<A> {
    if known is Some {
        known
    } else {
        there
    }
}

pub(crate) proof fn lemma_metadata_change(
    statement: StatementView,
    id: Seq<char>,
    duration: Option<Double>,
    width: Option<i32>,
    height: Option<i32>,
)
    requires
        statement.sql == sql::SET_METADATA@,
        statement.params.len() == 4,
        statement.params[0] == match duration {
            Some(d) => SqlParamView::Real(d),
            None => SqlParamView::Null,
        },
        statement.params[1] == match width {
            Some(n) => SqlParamView::Integer(n as i64),
            None => SqlParamView::Null,
        },
        statement.params[2] == match height {
            Some(n) => SqlParamView::Integer(n as i64),
            None => SqlParamView::Null,
        },
        statement.params[3] == SqlParamView::Text(id),
    ensures
        changes_video(
            statement,
            id,
            |row: VideoRecordView|
                VideoRecordView {
                    duration_secs: known_or(duration, row.duration_secs),
                    width: known_or(width, row.width),
                    height: known_or(height, row.height),
                    ..row
                },
        ),
{
    lemma_changes_differ();
}

/// What is kept of playing a video: one that was watched is marked so and starts over;
/// of another only the position changes, to the one given, or to the start where that
/// is negative or no number. No other video changes.
pub proof fn law_progress_is_applied(update: ProgressUpdateView, row: VideoRecordView)
    ensures
        row.id != update.video_id ==> video_after(progress_statement(update), row) == row,
        row.id == update.video_id && update.mark_watched ==> video_after(
            progress_statement(update),
            row,
        ) == (VideoRecordView { watched: 1, watch_progress_secs: Double { bits: 0 }, ..row }),
        row.id == update.video_id && !update.mark_watched ==> video_after(
            progress_statement(update),
            row,
        ) == (VideoRecordView {
            watch_progress_secs: video_after(progress_statement(update), row).watch_progress_secs,
            ..row
        }),
        row.id == update.video_id && !update.mark_watched && update.progress_secs.above(
            Double { bits: 0 },
        ) ==> video_after(progress_statement(update), row).watch_progress_secs
            == update.progress_secs,
        row.id == update.video_id && !update.mark_watched && !update.progress_secs.above(
            Double { bits: 0 },
        ) ==> video_after(progress_statement(update), row).watch_progress_secs == (Double {
            bits: 0,
        }),
{
    lemma_changes_differ();
}

/// The row of a collection after a statement that changes rows.
pub open spec fn collection_after(statement: StatementView, row: CollectionView) -> CollectionView {
    if statement.sql == "UPDATE collections SET cover_video_id = ?1, cover_image_path = NULL WHERE id = ?2"@
        && binds(statement, 1, row.id) {
        CollectionView {
            cover_video_id: bound_text(statement.params[0]),
            cover_image_path: None,
            ..row
        }
    } else if statement.sql
        == "UPDATE collections SET cover_video_id = NULL, cover_image_path = ?1 WHERE id = ?2"@
        && binds(statement, 1, row.id) {
        CollectionView {
            cover_video_id: None,
            cover_image_path: bound_text(statement.params[0]),
            ..row
        }
    } else {
        row
    }
}

proof fn lemma_covers_differ()
    ensures
        "UPDATE collections SET cover_video_id = ?1, cover_image_path = NULL WHERE id = ?2"@
            != "UPDATE collections SET cover_video_id = NULL, cover_image_path = ?1 WHERE id = ?2"@,
{
    reveal_strlit("UPDATE collections SET cover_video_id = ?1, cover_image_path = NULL WHERE id = ?2");
    reveal_strlit("UPDATE collections SET cover_video_id = NULL, cover_image_path = ?1 WHERE id = ?2");
    assert("UPDATE collections SET cover_video_id = ?1, cover_image_path = NULL WHERE id = ?2"@[40]
        != "UPDATE collections SET cover_video_id = NULL, cover_image_path = ?1 WHERE id = ?2"@[40]);
}

/// The statement gives one collection the cover, which is a video or an image, and
/// changes no other.
pub open spec fn changes_cover(
    statement: StatementView,
    collection_id: Seq<char>,
    video_id: Option<Seq<char>>,
    image_path: Option<Seq<char>>,
) -> bool {
    forall|row: CollectionView| #[trigger]
        collection_after(statement, row) == if row.id == collection_id {
            CollectionView { cover_video_id: video_id, cover_image_path: image_path, ..row }
        } else {
            row
        }
}

pub(crate) proof fn lemma_cover_change(
    statement: StatementView,
    id: Seq<char>,
    video_id: Option<Seq<char>>,
    image_path: Option<Seq<char>>,
)
    requires
        statement.params.len() == 2,
        statement.params[1] == SqlParamView::Text(id),
        statement.sql == sql::SET_COVER_VIDEO@ && image_path is None && statement.params[0]
            == match video_id {
            Some(t) => SqlParamView::Text(t),
            None => SqlParamView::Null,
        } || statement.sql == sql::SET_COVER_IMAGE@ && video_id is None && statement.params[0]
            == match image_path {
            Some(t) => SqlParamView::Text(t),
            None => SqlParamView::Null,
        },
    ensures
        changes_cover(statement, id, video_id, image_path),
{
    lemma_covers_differ();
}

/// The row that a statement leaves of a video at a path that the catalogue holds,
/// where it adds a video.
pub open spec fn video_after_adding(statement: StatementView, row: VideoRecordView) -> VideoRecordView {
    if statement.sql
        == "INSERT INTO videos (id, library_id, path, title, file_name, file_size, duration_secs, width, height, thumbnail_path, watched, watch_progress_secs, favorite, date_added, date_modified)
             VALUES (?1, ?2, ?3, ?4, ?5, ?6, ?7, ?8, ?9, ?10, ?11, ?12, ?13, ?14, ?15)
             ON CONFLICT(path) DO UPDATE SET
                file_size = excluded.file_size,
                date_modified = excluded.date_modified,
                duration_secs = COALESCE(excluded.duration_secs, duration_secs),
                width = COALESCE(excluded.width, width),
                height = COALESCE(excluded.height, height),
                thumbnail_path = COALESCE(excluded.thumbnail_path, thumbnail_path)"@
        && binds(statement, 2, row.path) {
        VideoRecordView {
            file_size: bound_integer(statement.params[5]),
            duration_secs: or_number(statement.params[6], row.duration_secs),
            width: or_small(statement.params[7], row.width),
            height: or_small(statement.params[8], row.height),
            thumbnail_path: known_or(bound_text(statement.params[9]), row.thumbnail_path),
            date_modified: match bound_text(statement.params[14]) {
                Some(t) => t,
                None => row.date_modified,
            },
            ..row
        }
    } else {
        row
    }
}

/// Adding a video at a path that the catalogue holds keeps what the user made of the
/// one that is there: it stays under its identifier and library, with its title, its
/// marks, its progress and its date of adding. Its size and its date of change are
/// those of the new one, and what is known anew takes the place of what was known. The
/// videos at other paths do not change.
pub proof fn law_adding_keeps_the_video_that_is_there(video: VideoRecordView, row: VideoRecordView)
    ensures
        ({
            let after = video_after_adding(
                StatementView { sql: sql::UPSERT_VIDEO@, params: video_values(video) },
                row,
            );
            if row.path == video.path {
                after == (VideoRecordView {
                    file_size: video.file_size,
                    duration_secs: known_or(video.duration_secs, row.duration_secs),
                    width: known_or(video.width, row.width),
                    height: known_or(video.height, row.height),
                    thumbnail_path: known_or(video.thumbnail_path, row.thumbnail_path),
                    date_modified: video.date_modified,
                    ..row
                })
            } else {
                after == row
            }
        }),
{
}

/// A video is written column by column: the values stand in the order in which the
/// statement names the columns.
pub proof fn law_video_is_written_by_column(video: VideoRecordView)
    ensures
        video_values(video).len() == 15,
        video_values(video)[0] == SqlParamView::Text(video.id),
        video_values(video)[1] == SqlParamView::Text(video.library_id),
        video_values(video)[2] == SqlParamView::Text(video.path),
        video_values(video)[3] == SqlParamView::Text(video.title),
        video_values(video)[4] == SqlParamView::Text(video.file_name),
        video_values(video)[5] == SqlParamView::Integer(video.file_size),
        or_number(video_values(video)[6], None) == video.duration_secs,
        or_small(video_values(video)[7], None) == video.width,
        or_small(video_values(video)[8], None) == video.height,
        bound_text(video_values(video)[9]) == video.thumbnail_path,
        bound_integer(video_values(video)[10]) == video.watched,
        video_values(video)[11] == SqlParamView::Real(video.watch_progress_secs),
        bound_integer(video_values(video)[12]) == video.favorite,
        video_values(video)[13] == SqlParamView::Text(video.date_added),
        video_values(video)[14] == SqlParamView::Text(video.date_modified),
{
}

/// A library and a collection are written column by column.
pub proof fn law_others_are_written_by_column(library: LibraryView, collection: CollectionView)
    ensures
        library_insert(library).sql
            == "INSERT INTO libraries (id, path, name, created_at) VALUES (?1, ?2, ?3, ?4)"@,
        library_insert(library).params.len() == 4,
        binds(library_insert(library), 0, library.id),
        binds(library_insert(library), 1, library.path),
        binds(library_insert(library), 2, library.name),
        binds(library_insert(library), 3, library.created_at),
        collection_insert(collection).sql
            == "INSERT INTO collections (id, name, description, created_at) VALUES (?1, ?2, ?3, ?4)"@,
        collection_insert(collection).params.len() == 4,
        binds(collection_insert(collection), 0, collection.id),
        binds(collection_insert(collection), 1, collection.name),
        binds(collection_insert(collection), 2, collection.description),
        binds(collection_insert(collection), 3, collection.created_at),
{
}

/// Which rows are read.
pub enum Wish {
    Libraries,
    Videos,
    VideosOfLibrary(Seq<char>),
    Video(Seq<char>),
    PathsOfLibrary(Seq<char>),
    Collections,
    CollectionOf(Seq<char>),
    VideosOfCollection(Seq<char>),
    NextPosition(Seq<char>),
}

/// The statement reads the rows, with the columns in the order in which records are
/// made of them.
pub open spec fn reads(statement: StatementView, wish: Wish) -> bool {
    match wish {
        Wish::Libraries => statement.params.len() == 0 && statement.sql
            == "SELECT id, path, name, created_at FROM libraries ORDER BY name"@,
        Wish::Videos => statement.params.len() == 0 && statement.sql
            == "SELECT id, library_id, path, title, file_name, file_size, duration_secs, width, height, thumbnail_path, watched, watch_progress_secs, favorite, date_added, date_modified FROM videos ORDER BY date_added DESC"@,
        Wish::VideosOfLibrary(id) => statement.params.len() == 1 && binds(statement, 0, id)
            && statement.sql
            == "SELECT id, library_id, path, title, file_name, file_size, duration_secs, width, height, thumbnail_path, watched, watch_progress_secs, favorite, date_added, date_modified FROM videos WHERE library_id = ?1 ORDER BY date_added DESC"@,
        Wish::Video(id) => statement.params.len() == 1 && binds(statement, 0, id) && statement.sql
            == "SELECT id, library_id, path, title, file_name, file_size, duration_secs, width, height, thumbnail_path, watched, watch_progress_secs, favorite, date_added, date_modified FROM videos WHERE id = ?1 LIMIT 1"@,
        Wish::PathsOfLibrary(id) => statement.params.len() == 1 && binds(statement, 0, id)
            && statement.sql == "SELECT path FROM videos WHERE library_id = ?1"@,
        Wish::Collections => statement.params.len() == 0 && statement.sql
            == "SELECT c.id, c.name, c.description, c.cover_video_id, c.cover_image_path, c.created_at, COUNT(cv.video_id) as video_count
             FROM collections c
             LEFT JOIN collection_videos cv ON c.id = cv.collection_id
             GROUP BY c.id
             ORDER BY c.name"@,
        Wish::CollectionOf(id) => statement.params.len() == 1 && binds(statement, 0, id)
            && statement.sql
            == "SELECT c.id, c.name, c.description, c.cover_video_id, c.cover_image_path, c.created_at, COUNT(cv.video_id) as video_count
             FROM collections c
             LEFT JOIN collection_videos cv ON c.id = cv.collection_id
             WHERE c.id = ?1
             GROUP BY c.id
             LIMIT 1"@,
        Wish::VideosOfCollection(id) => statement.params.len() == 1 && binds(statement, 0, id)
            && statement.sql
            == "SELECT v.id, v.library_id, v.path, v.title, v.file_name, v.file_size, v.duration_secs, v.width, v.height, v.thumbnail_path, v.watched, v.watch_progress_secs, v.favorite, v.date_added, v.date_modified
             FROM videos v
             INNER JOIN collection_videos cv ON v.id = cv.video_id
             WHERE cv.collection_id = ?1
             ORDER BY cv.position"@,
        Wish::NextPosition(id) => statement.params.len() == 1 && binds(statement, 0, id)
            && statement.sql
            == "SELECT COALESCE(MAX(position), -1) + 1 FROM collection_videos WHERE collection_id = ?1"@,
    }
}

/// The statement reads videos that have no thumbnail, no more than a number of them;
/// a negative number is no bound.
pub open spec fn reads_videos_without_thumbnail(statement: StatementView, limit: int) -> bool {
    &&& statement.sql
        == "SELECT id, library_id, path, title, file_name, file_size, duration_secs, width, height, thumbnail_path, watched, watch_progress_secs, favorite, date_added, date_modified FROM videos WHERE thumbnail_path IS NULL OR thumbnail_path = '' LIMIT ?1"@
    &&& statement.params.len() == 1
    &&& statement.params[0] matches SqlParamView::Integer(n) && (if limit <= i64::MAX {
        n == limit
    } else {
        n < 0
    })
}

/// The statement puts a video at a position of a collection, unless it is there.
pub open spec fn adds_place(
    statement: StatementView,
    collection_id: Seq<char>,
    video_id: Seq<char>,
    position: int,
) -> bool {
    &&& statement.sql
        == "INSERT OR IGNORE INTO collection_videos (collection_id, video_id, position) VALUES (?1, ?2, ?3)"@
    &&& statement.params.len() == 3
    &&& binds(statement, 0, collection_id)
    &&& binds(statement, 1, video_id)
    &&& statement.params[2] matches SqlParamView::Integer(n) && n == position
}

/// Each of the counts is the answer to its own question.
pub proof fn law_stats_are_the_answers(answers: Seq<Seq<SqlCellView>>, i: int)
    requires
        0 <= i < 5,
        answers.len() == 5,
        forall|j: int| 0 <= j < 5 ==> (#[trigger] answers[j]).len() > 0,
        answers[i][0] is Integer,
    ensures
        stats_questions().len() == 5,
        stats_questions()[i] == "SELECT COUNT(*) FROM videos"@ ==> stats_of(answers).total_videos
            == answers[i][0]->Integer_0,
        stats_questions()[i] == "SELECT COUNT(*) FROM videos WHERE watched = 1"@ ==> stats_of(
            answers,
        ).watched_videos == answers[i][0]->Integer_0,
        stats_questions()[i] == "SELECT COALESCE(SUM(file_size), 0) FROM videos"@ ==> stats_of(
            answers,
        ).total_size_bytes == answers[i][0]->Integer_0,
        stats_questions()[i] == "SELECT COALESCE(SUM(duration_secs), 0) FROM videos"@ ==> stats_of(
            answers,
        ).total_duration_secs == answers[i][0]->Integer_1,
        stats_questions()[i] == "SELECT COUNT(*) FROM libraries"@ ==> stats_of(answers).total_libraries
            == answers[i][0]->Integer_0,
        stats_questions().contains("SELECT COUNT(*) FROM videos"@),
        stats_questions().contains("SELECT COUNT(*) FROM videos WHERE watched = 1"@),
        stats_questions().contains("SELECT COALESCE(SUM(file_size), 0) FROM videos"@),
        stats_questions().contains("SELECT COALESCE(SUM(duration_secs), 0) FROM videos"@),
        stats_questions().contains("SELECT COUNT(*) FROM libraries"@),
{
    reveal_strlit("SELECT COUNT(*) FROM videos");
    reveal_strlit("SELECT COUNT(*) FROM videos WHERE watched = 1");
    reveal_strlit("SELECT COALESCE(SUM(file_size), 0) FROM videos");
    reveal_strlit("SELECT COALESCE(SUM(duration_secs), 0) FROM videos");
    reveal_strlit("SELECT COUNT(*) FROM libraries");
    let questions = stats_questions();
    assert(questions[0].len() == 27);
    assert(questions[1].len() == 45);
    assert(questions[2].len() == 46);
    assert(questions[3].len() == 50);
    assert(questions[4].len() == 30);
}

/// A sum of durations with a fraction is taken over as it is.
pub proof fn law_durations_are_taken_over(answers: Seq<Seq<SqlCellView>>, d: Double)
    requires
        answers.len() == 5,
        answers[3].len() > 0,
        answers[3][0] == SqlCellView::Real(d),
    ensures
        stats_of(answers).total_duration_secs == d,
{
}

}
