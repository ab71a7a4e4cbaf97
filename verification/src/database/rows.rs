//! The records that the rows of the catalogue hold.
use crate::database::cells::cell_fault;
use crate::database::cells::fault_from;
use crate::database::cells::fault_of_row;
use crate::database::cells::lemma_row_is_sound;
use crate::database::cells::row_fault;
use crate::database::cells::view_row;
use crate::database::cells::view_rows;
use crate::database::cells::CellError;
use crate::database::cells::ColumnKind;
use crate::database::cells::SqlCell;
use crate::database::cells::SqlCellView;
use crate::models::Collection;
use crate::models::CollectionView;
use crate::models::Library;
use crate::models::LibraryView;
use crate::models::VideoRecord;
use crate::models::VideoRecordView;
use crate::text::texts;
use vstd::prelude::*;

verus! {

/// What the columns of a library hold.
pub open spec fn library_columns() -> Seq<ColumnKind> {
    seq![ColumnKind::Text, ColumnKind::Text, ColumnKind::Text, ColumnKind::Text]
}

/// What the columns of a video hold.
pub open spec fn video_columns() -> Seq<ColumnKind> {
    seq![
        ColumnKind::Text,
        ColumnKind::Text,
        ColumnKind::Text,
        ColumnKind::Text,
        ColumnKind::Text,
        ColumnKind::Integer,
        ColumnKind::OptionalNumber,
        ColumnKind::OptionalSmallInteger,
        ColumnKind::OptionalSmallInteger,
        ColumnKind::OptionalText,
        ColumnKind::SmallInteger,
        ColumnKind::Number,
        ColumnKind::SmallInteger,
        ColumnKind::Text,
        ColumnKind::Text,
    ]
}

/// What the columns of a collection hold.
pub open spec fn collection_columns() -> Seq<ColumnKind> {
    seq![
        ColumnKind::Text,
        ColumnKind::Text,
        ColumnKind::Text,
        ColumnKind::OptionalText,
        ColumnKind::OptionalText,
        ColumnKind::Text,
        ColumnKind::Integer,
    ]
}

/// The library that a row holds.
pub open spec fn library_of(row: Seq<SqlCellView>) -> Result<LibraryView, CellError> {
    match row_fault(row, library_columns()) {
        Some(error) => Err(error),
        None => Ok(
            LibraryView {
                id: row[0].text(),
                path: row[1].text(),
                name: row[2].text(),
                created_at: row[3].text(),
            },
        ),
    }
}

/// The video that a row holds.
pub open spec fn video_of(row: Seq<SqlCellView>) -> Result<VideoRecordView, CellError> {
    match row_fault(row, video_columns()) {
        Some(error) => Err(error),
        None => Ok(
            VideoRecordView {
                id: row[0].text(),
                library_id: row[1].text(),
                path: row[2].text(),
                title: row[3].text(),
                file_name: row[4].text(),
                file_size: row[5].integer(),
                duration_secs: row[6].optional_number(),
                width: row[7].optional_small(),
                height: row[8].optional_small(),
                thumbnail_path: row[9].optional_text(),
                watched: row[10].integer() as i32,
                watch_progress_secs: row[11].number(),
                favorite: row[12].integer() as i32,
                date_added: row[13].text(),
                date_modified: row[14].text(),
            },
        ),
    }
}

/// The collection that a row holds.
pub open spec fn collection_of(row: Seq<SqlCellView>) -> Result<CollectionView, CellError> {
    match row_fault(row, collection_columns()) {
        Some(error) => Err(error),
        None => Ok(
            CollectionView {
                id: row[0].text(),
                name: row[1].text(),
                description: row[2].text(),
                cover_video_id: row[3].optional_text(),
                cover_image_path: row[4].optional_text(),
                created_at: row[5].text(),
                video_count: row[6].integer(),
            },
        ),
    }
}

/// The libraries that rows hold, in their order. A row that cannot be read is
/// passed over.
pub open spec fn libraries_of(rows: Seq<Seq<SqlCellView>>) -> Seq<LibraryView>
    decreases rows.len(),
{
    if rows.len() == 0 {
        seq![]
    } else {
        match library_of(rows.last()) {
            Ok(library) => libraries_of(rows.drop_last()).push(library),
            Err(_) => libraries_of(rows.drop_last()),
        }
    }
}

/// The videos that rows hold, in their order. A row that cannot be read is passed
/// over.
pub open spec fn videos_of(rows: Seq<Seq<SqlCellView>>) -> Seq<VideoRecordView>
    decreases rows.len(),
{
    if rows.len() == 0 {
        seq![]
    } else {
        match video_of(rows.last()) {
            Ok(video) => videos_of(rows.drop_last()).push(video),
            Err(_) => videos_of(rows.drop_last()),
        }
    }
}

/// The collections that rows hold, in their order. A row that cannot be read is
/// passed over.
pub open spec fn collections_of(rows: Seq<Seq<SqlCellView>>) -> Seq<CollectionView>
    decreases rows.len(),
{
    if rows.len() == 0 {
        seq![]
    } else {
        match collection_of(rows.last()) {
            Ok(collection) => collections_of(rows.drop_last()).push(collection),
            Err(_) => collections_of(rows.drop_last()),
        }
    }
}

/// The texts in the first column of rows, in their order. A row that has none
/// there is passed over.
pub open spec fn first_texts(rows: Seq<Seq<SqlCellView>>) -> Seq<Seq<char>>
    decreases rows.len(),
{
    if rows.len() == 0 {
        seq![]
    } else if row_fault(rows.last(), seq![ColumnKind::Text]) is None {
        first_texts(rows.drop_last()).push(rows.last()[0].text())
    } else {
        first_texts(rows.drop_last())
    }
}

/// The libraries in specifications.
pub open spec fn view_libraries(libraries: Seq<Library>) -> Seq<LibraryView> {
    libraries.map_values(|l: Library| l@)
}

/// The videos in specifications.
pub open spec fn view_videos(videos: Seq<VideoRecord>) -> Seq<VideoRecordView> {
    videos.map_values(|v: VideoRecord| v@)
}

/// The collections in specifications.
pub open spec fn view_collections(collections: Seq<Collection>) -> Seq<CollectionView> {
    collections.map_values(|c: Collection| c@)
}

/// Reads a library.
pub fn read_library(row: &Vec<SqlCell>) -> (r: Result<Library, CellError>)
    ensures
        match r {
            Ok(library) => library_of(view_row(row@)) == Ok::<LibraryView, CellError>(library@),
            Err(error) => library_of(view_row(row@)) == Err::<LibraryView, CellError>(error),
        },
{
    let kinds = vec![ColumnKind::Text, ColumnKind::Text, ColumnKind::Text, ColumnKind::Text];
    assert(kinds@ =~= library_columns());
    match fault_of_row(row, &kinds) {
        Some(error) => Err(error),
        None => {
            proof {
                lemma_row_is_sound(view_row(row@), library_columns(), 0);
            }
            Ok(
                Library {
                    id: row[0].text(),
                    path: row[1].text(),
                    name: row[2].text(),
                    created_at: row[3].text(),
                },
            )
        },
    }
}

/// Reads a video.
pub fn read_video(row: &Vec<SqlCell>) -> (r: Result<VideoRecord, CellError>)
    ensures
        match r {
            Ok(video) => video_of(view_row(row@)) == Ok::<VideoRecordView, CellError>(video@),
            Err(error) => video_of(view_row(row@)) == Err::<VideoRecordView, CellError>(error),
        },
{
    let kinds = vec![
        ColumnKind::Text,
        ColumnKind::Text,
        ColumnKind::Text,
        ColumnKind::Text,
        ColumnKind::Text,
        ColumnKind::Integer,
        ColumnKind::OptionalNumber,
        ColumnKind::OptionalSmallInteger,
        ColumnKind::OptionalSmallInteger,
        ColumnKind::OptionalText,
        ColumnKind::SmallInteger,
        ColumnKind::Number,
        ColumnKind::SmallInteger,
        ColumnKind::Text,
        ColumnKind::Text,
    ];
    assert(kinds@ =~= video_columns());
    match fault_of_row(row, &kinds) {
        Some(error) => Err(error),
        None => {
            proof {
                lemma_row_is_sound(view_row(row@), video_columns(), 0);
                assert(video_columns()[7] == ColumnKind::OptionalSmallInteger);
                assert(video_columns()[8] == ColumnKind::OptionalSmallInteger);
                assert(video_columns()[10] == ColumnKind::SmallInteger);
                assert(video_columns()[12] == ColumnKind::SmallInteger);
            }
            Ok(
                VideoRecord {
                    id: row[0].text(),
                    library_id: row[1].text(),
                    path: row[2].text(),
                    title: row[3].text(),
                    file_name: row[4].text(),
                    file_size: row[5].integer(),
                    duration_secs: row[6].optional_number(),
                    width: row[7].optional_small(),
                    height: row[8].optional_small(),
                    thumbnail_path: row[9].optional_text(),
                    watched: row[10].small(),
                    watch_progress_secs: row[11].number(),
                    favorite: row[12].small(),
                    date_added: row[13].text(),
                    date_modified: row[14].text(),
                },
            )
        },
    }
}

/// Reads a collection.
pub fn read_collection(row: &Vec<SqlCell>) -> (r: Result<Collection, CellError>)
    ensures
        match r {
            Ok(collection) => collection_of(view_row(row@)) == Ok::<CollectionView, CellError>(
                collection@,
            ),
            Err(error) => collection_of(view_row(row@)) == Err::<CollectionView, CellError>(error),
        },
{
    let kinds = vec![
        ColumnKind::Text,
        ColumnKind::Text,
        ColumnKind::Text,
        ColumnKind::OptionalText,
        ColumnKind::OptionalText,
        ColumnKind::Text,
        ColumnKind::Integer,
    ];
    assert(kinds@ =~= collection_columns());
    match fault_of_row(row, &kinds) {
        Some(error) => Err(error),
        None => {
            proof {
                lemma_row_is_sound(view_row(row@), collection_columns(), 0);
            }
            Ok(
                Collection {
                    id: row[0].text(),
                    name: row[1].text(),
                    description: row[2].text(),
                    cover_video_id: row[3].optional_text(),
                    cover_image_path: row[4].optional_text(),
                    created_at: row[5].text(),
                    video_count: row[6].integer(),
                },
            )
        },
    }
}

/// The video that the first row holds; nothing where there is no row.
pub open spec fn found_video(row: Option<Seq<SqlCellView>>) -> Result<
    Option<VideoRecordView>,
    CellError,
> {
    match row {
        Some(row) => match video_of(row) {
            Ok(video) => Ok(Some(video)),
            Err(error) => Err(error),
        },
        None => Ok(None),
    }
}

/// The collection that the first row holds; nothing where there is no row.
pub open spec fn found_collection(row: Option<Seq<SqlCellView>>) -> Result<
    Option<CollectionView>,
    CellError,
> {
    match row {
        Some(row) => match collection_of(row) {
            Ok(collection) => Ok(Some(collection)),
            Err(error) => Err(error),
        },
        None => Ok(None),
    }
}

/// The row in specifications.
pub open spec fn view_found(row: Option<Vec<SqlCell>>) -> Option<Seq<SqlCellView>> {
    match row {
        Some(row) => Some(view_row(row@)),
        None => None,
    }
}

/// Reads the video that was looked for.
pub fn read_found_video(row: &Option<Vec<SqlCell>>) -> (r: Result<Option<VideoRecord>, CellError>)
    ensures
        match (found_video(view_found(*row)), r) {
            (Ok(Some(video)), Ok(Some(v))) => v@ == video,
            (Ok(None), Ok(None)) => true,
            (Err(error), Err(e)) => e == error,
            _ => false,
        },
{
    match row {
        Some(row) => match read_video(row) {
            Ok(video) => Ok(Some(video)),
            Err(error) => Err(error),
        },
        None => Ok(None),
    }
}

/// Reads the collection that was looked for.
pub fn read_found_collection(row: &Option<Vec<SqlCell>>) -> (r: Result<
    Option<Collection>,
    CellError,
>)
    ensures
        match (found_collection(view_found(*row)), r) {
            (Ok(Some(collection)), Ok(Some(c))) => c@ == collection,
            (Ok(None), Ok(None)) => true,
            (Err(error), Err(e)) => e == error,
            _ => false,
        },
{
    match row {
        Some(row) => match read_collection(row) {
            Ok(collection) => Ok(Some(collection)),
            Err(error) => Err(error),
        },
        None => Ok(None),
    }
}

/// Reads libraries, and passes over the rows that hold none.
pub fn read_libraries(rows: &Vec<Vec<SqlCell>>) -> (r: Vec<Library>)
    ensures
        view_libraries(r@) == libraries_of(view_rows(rows@)),
{
    let mut out: Vec<Library> = Vec::new();
    let mut i: usize = 0;
    let ghost all = view_rows(rows@);
    assert(view_libraries(out@) =~= libraries_of(all.take(0)));
    while i < rows.len()
        invariant
            i <= rows@.len(),
            all == view_rows(rows@),
            view_libraries(out@) == libraries_of(all.take(i as int)),
        decreases rows.len() - i,
    {
        proof {
            assert(all.take(i + 1).drop_last() =~= all.take(i as int));
            assert(all.take(i + 1).last() == view_row(rows@[i as int]@));
        }
        let ghost before = out@;
        match read_library(&rows[i]) {
            Ok(library) => {
                out.push(library);
                assert(view_libraries(out@) =~= view_libraries(before).push(library@));
            },
            Err(_) => {},
        }
        i += 1;
    }
    assert(all.take(all.len() as int) =~= all);
    out
}

/// Reads videos, and passes over the rows that hold none.
pub fn read_videos(rows: &Vec<Vec<SqlCell>>) -> (r: Vec<VideoRecord>)
    ensures
        view_videos(r@) == videos_of(view_rows(rows@)),
{
    let mut out: Vec<VideoRecord> = Vec::new();
    let mut i: usize = 0;
    let ghost all = view_rows(rows@);
    assert(view_videos(out@) =~= videos_of(all.take(0)));
    while i < rows.len()
        invariant
            i <= rows@.len(),
            all == view_rows(rows@),
            view_videos(out@) == videos_of(all.take(i as int)),
        decreases rows.len() - i,
    {
        proof {
            assert(all.take(i + 1).drop_last() =~= all.take(i as int));
            assert(all.take(i + 1).last() == view_row(rows@[i as int]@));
        }
        let ghost before = out@;
        match read_video(&rows[i]) {
            Ok(video) => {
                out.push(video);
                assert(view_videos(out@) =~= view_videos(before).push(video@));
            },
            Err(_) => {},
        }
        i += 1;
    }
    assert(all.take(all.len() as int) =~= all);
    out
}

/// Reads collections, and passes over the rows that hold none.
pub fn read_collections(rows: &Vec<Vec<SqlCell>>) -> (r: Vec<Collection>)
    ensures
        view_collections(r@) == collections_of(view_rows(rows@)),
{
    let mut out: Vec<Collection> = Vec::new();
    let mut i: usize = 0;
    let ghost all = view_rows(rows@);
    assert(view_collections(out@) =~= collections_of(all.take(0)));
    while i < rows.len()
        invariant
            i <= rows@.len(),
            all == view_rows(rows@),
            view_collections(out@) == collections_of(all.take(i as int)),
        decreases rows.len() - i,
    {
        proof {
            assert(all.take(i + 1).drop_last() =~= all.take(i as int));
            assert(all.take(i + 1).last() == view_row(rows@[i as int]@));
        }
        let ghost before = out@;
        match read_collection(&rows[i]) {
            Ok(collection) => {
                out.push(collection);
                assert(view_collections(out@) =~= view_collections(before).push(collection@));
            },
            Err(_) => {},
        }
        i += 1;
    }
    assert(all.take(all.len() as int) =~= all);
    out
}

/// Reads the texts in the first column, and passes over the rows that have none
/// there.
pub fn read_first_texts(rows: &Vec<Vec<SqlCell>>) -> (r: Vec<String>)
    ensures
        texts(r@) == first_texts(view_rows(rows@)),
{
    let mut out: Vec<String> = Vec::new();
    let mut i: usize = 0;
    let ghost all = view_rows(rows@);
    let kinds = vec![ColumnKind::Text];
    assert(kinds@ =~= seq![ColumnKind::Text]);
    assert(texts(out@) =~= first_texts(all.take(0)));
    while i < rows.len()
        invariant
            i <= rows@.len(),
            all == view_rows(rows@),
            kinds@ == seq![ColumnKind::Text],
            texts(out@) == first_texts(all.take(i as int)),
        decreases rows.len() - i,
    {
        let ghost row = view_row(rows@[i as int]@);
        proof {
            assert(all.take(i + 1).drop_last() =~= all.take(i as int));
            assert(all.take(i + 1).last() == row);
        }
        let ghost before = out@;
        if fault_of_row(&rows[i], &kinds).is_none() {
            proof {
                lemma_row_is_sound(row, seq![ColumnKind::Text], 0);
            }
            let text = rows[i][0].text();
            out.push(text);
            assert(texts(out@) =~= texts(before).push(text@));
        }
        i += 1;
    }
    assert(all.take(all.len() as int) =~= all);
    out
}

/// A video is read column by column, in the order in which the columns are written.
pub proof fn law_video_is_read_by_column(row: Seq<SqlCellView>)
    ensures
        video_of(row) matches Ok(v) ==> {
            &&& row.len() >= 15
            &&& row[0] == SqlCellView::Text(v.id)
            &&& row[1] == SqlCellView::Text(v.library_id)
            &&& row[2] == SqlCellView::Text(v.path)
            &&& row[3] == SqlCellView::Text(v.title)
            &&& row[4] == SqlCellView::Text(v.file_name)
            &&& row[5] is Integer && row[5]->Integer_0 == v.file_size
            &&& match v.duration_secs {
                Some(d) => row[6] == SqlCellView::Real(d) || row[6] is Integer
                    && row[6]->Integer_1 == d,
                None => row[6] is Null,
            }
            &&& match v.width {
                Some(n) => row[7] is Integer && row[7]->Integer_0 == n,
                None => row[7] is Null,
            }
            &&& match v.height {
                Some(n) => row[8] is Integer && row[8]->Integer_0 == n,
                None => row[8] is Null,
            }
            &&& match v.thumbnail_path {
                Some(t) => row[9] == SqlCellView::Text(t),
                None => row[9] is Null,
            }
            &&& row[10] is Integer && row[10]->Integer_0 == v.watched
            &&& row[11] == SqlCellView::Real(v.watch_progress_secs) || row[11] is Integer
                && row[11]->Integer_1 == v.watch_progress_secs
            &&& row[12] is Integer && row[12]->Integer_0 == v.favorite
            &&& row[13] == SqlCellView::Text(v.date_added)
            &&& row[14] == SqlCellView::Text(v.date_modified)
        },
{
    if video_of(row) is Ok {
        let kinds = video_columns();
        lemma_row_is_sound(row, kinds, 0);
        assert(forall|i: int| 0 <= i < 15 ==> cell_fault(#[trigger] kinds[i], row[i]) is None);
        assert(kinds[0] == ColumnKind::Text && kinds[1] == ColumnKind::Text && kinds[2]
            == ColumnKind::Text && kinds[3] == ColumnKind::Text && kinds[4] == ColumnKind::Text);
        assert(kinds[5] == ColumnKind::Integer && kinds[6] == ColumnKind::OptionalNumber);
        assert(kinds[7] == ColumnKind::OptionalSmallInteger && kinds[8]
            == ColumnKind::OptionalSmallInteger && kinds[9] == ColumnKind::OptionalText);
        assert(kinds[10] == ColumnKind::SmallInteger && kinds[11] == ColumnKind::Number && kinds[12]
            == ColumnKind::SmallInteger);
        assert(kinds[13] == ColumnKind::Text && kinds[14] == ColumnKind::Text);
    }
}

/// A library and a collection are read column by column.
pub proof fn law_others_are_read_by_column(row: Seq<SqlCellView>)
    ensures
        library_of(row) matches Ok(l) ==> {
            &&& row.len() >= 4
            &&& row[0] == SqlCellView::Text(l.id)
            &&& row[1] == SqlCellView::Text(l.path)
            &&& row[2] == SqlCellView::Text(l.name)
            &&& row[3] == SqlCellView::Text(l.created_at)
        },
        collection_of(row) matches Ok(c) ==> {
            &&& row.len() >= 7
            &&& row[0] == SqlCellView::Text(c.id)
            &&& row[1] == SqlCellView::Text(c.name)
            &&& row[2] == SqlCellView::Text(c.description)
            &&& match c.cover_video_id {
                Some(t) => row[3] == SqlCellView::Text(t),
                None => row[3] is Null,
            }
            &&& match c.cover_image_path {
                Some(t) => row[4] == SqlCellView::Text(t),
                None => row[4] is Null,
            }
            &&& row[5] == SqlCellView::Text(c.created_at)
            &&& row[6] is Integer && row[6]->Integer_0 == c.video_count
        },
{
    if library_of(row) is Ok {
        let kinds = library_columns();
        lemma_row_is_sound(row, kinds, 0);
        assert(kinds[0] == ColumnKind::Text && kinds[1] == ColumnKind::Text && kinds[2]
            == ColumnKind::Text && kinds[3] == ColumnKind::Text);
        assert(forall|i: int| 0 <= i < 4 ==> cell_fault(#[trigger] kinds[i], row[i]) is None);
    }
    if collection_of(row) is Ok {
        let kinds = collection_columns();
        lemma_row_is_sound(row, kinds, 0);
        assert(kinds[0] == ColumnKind::Text && kinds[1] == ColumnKind::Text && kinds[2]
            == ColumnKind::Text && kinds[3] == ColumnKind::OptionalText && kinds[4]
            == ColumnKind::OptionalText && kinds[5] == ColumnKind::Text && kinds[6]
            == ColumnKind::Integer);
        assert(forall|i: int| 0 <= i < 7 ==> cell_fault(#[trigger] kinds[i], row[i]) is None);
    }
}

/// Each row that can be read counts, and no other: the records of one row and then
/// others are its record, where it has one, and then theirs.
pub proof fn law_rows_are_read_in_order(row: Seq<SqlCellView>, rest: Seq<Seq<SqlCellView>>)
    ensures
        videos_of(seq![row] + rest) == match video_of(row) {
            Ok(v) => seq![v] + videos_of(rest),
            Err(_) => videos_of(rest),
        },
        libraries_of(seq![row] + rest) == match library_of(row) {
            Ok(l) => seq![l] + libraries_of(rest),
            Err(_) => libraries_of(rest),
        },
        collections_of(seq![row] + rest) == match collection_of(row) {
            Ok(c) => seq![c] + collections_of(rest),
            Err(_) => collections_of(rest),
        },
        first_texts(seq![row] + rest) == if row.len() > 0 && row[0] is Text {
            seq![row[0]->Text_0] + first_texts(rest)
        } else {
            first_texts(rest)
        },
        videos_of(seq![]) == Seq::<VideoRecordView>::empty(),
        libraries_of(seq![]) == Seq::<LibraryView>::empty(),
        collections_of(seq![]) == Seq::<CollectionView>::empty(),
        first_texts(seq![]) == Seq::<Seq<char>>::empty(),
    decreases rest.len(),
{
    let all = seq![row] + rest;
    let kinds = seq![ColumnKind::Text];
    reveal_with_fuel(fault_from, 3);
    if rest.len() == 0 {
        assert(all.drop_last() =~= Seq::<Seq<SqlCellView>>::empty());
        assert(all.last() == row);
        assert(rest =~= Seq::<Seq<SqlCellView>>::empty());
        assert(videos_of(all) =~= match video_of(row) {
            Ok(v) => seq![v] + videos_of(rest),
            Err(_) => videos_of(rest),
        });
        assert(libraries_of(all) =~= match library_of(row) {
            Ok(l) => seq![l] + libraries_of(rest),
            Err(_) => libraries_of(rest),
        });
        assert(collections_of(all) =~= match collection_of(row) {
            Ok(c) => seq![c] + collections_of(rest),
            Err(_) => collections_of(rest),
        });
        assert(kinds.len() == 1);
        assert(first_texts(all) =~= if row.len() > 0 && row[0] is Text {
            seq![row[0]->Text_0] + first_texts(rest)
        } else {
            first_texts(rest)
        });
    } else {
        law_rows_are_read_in_order(row, rest.drop_last());
        assert(all.drop_last() =~= seq![row] + rest.drop_last());
        assert(all.last() == rest.last());
        assert(videos_of(all) =~= match video_of(row) {
            Ok(v) => seq![v] + videos_of(rest),
            Err(_) => videos_of(rest),
        });
        assert(libraries_of(all) =~= match library_of(row) {
            Ok(l) => seq![l] + libraries_of(rest),
            Err(_) => libraries_of(rest),
        });
        assert(collections_of(all) =~= match collection_of(row) {
            Ok(c) => seq![c] + collections_of(rest),
            Err(_) => collections_of(rest),
        });
        assert(first_texts(all) =~= if row.len() > 0 && row[0] is Text {
            seq![row[0]->Text_0] + first_texts(rest)
        } else {
            first_texts(rest)
        });
    }
}

/// What was looked for is the record of the row, or nothing where there is no row; a
/// row that cannot be read is an error.
pub proof fn law_found_record_is_that_of_the_row(row: Seq<SqlCellView>)
    ensures
        found_video(None) == Ok::<Option<VideoRecordView>, CellError>(None),
        found_collection(None) == Ok::<Option<CollectionView>, CellError>(None),
        video_of(row) matches Ok(v) ==> found_video(Some(row)) == Ok::<
            Option<VideoRecordView>,
            CellError,
        >(Some(v)),
        video_of(row) is Err ==> found_video(Some(row)) is Err,
        collection_of(row) matches Ok(c) ==> found_collection(Some(row)) == Ok::<
            Option<CollectionView>,
            CellError,
        >(Some(c)),
        collection_of(row) is Err ==> found_collection(Some(row)) is Err,
{
}

/// In specifications records keep their order.
pub proof fn law_records_in_specifications(
    libraries: Seq<Library>,
    videos: Seq<VideoRecord>,
    collections: Seq<Collection>,
    i: int,
)
    ensures
        view_libraries(libraries).len() == libraries.len(),
        0 <= i < libraries.len() ==> view_libraries(libraries)[i] == libraries[i]@,
        view_videos(videos).len() == videos.len(),
        0 <= i < videos.len() ==> view_videos(videos)[i] == videos[i]@,
        view_collections(collections).len() == collections.len(),
        0 <= i < collections.len() ==> view_collections(collections)[i] == collections[i]@,
{
}

}
