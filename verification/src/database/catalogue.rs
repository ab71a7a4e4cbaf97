//! The operations on the catalogue, each as the statements that carry it out.
use crate::database::cells::double_or_null;
use crate::database::cells::fault_of_row;
use crate::database::cells::lemma_row_is_sound;
use crate::database::cells::lemma_sound_row;
use crate::database::cells::optional_double_param;
use crate::database::cells::optional_small_param;
use crate::database::cells::optional_text_param;
use crate::database::cells::row_fault;
use crate::database::cells::small_or_null;
use crate::database::cells::text_or_null;
use crate::database::cells::text_param;
use crate::database::cells::view_params;
use crate::database::cells::view_row;
use crate::database::cells::view_rows;
use crate::database::cells::view_statements;
use crate::database::cells::CellError;
use crate::database::cells::ColumnKind;
use crate::database::cells::SqlCell;
use crate::database::cells::SqlCellView;
use crate::database::cells::SqlParam;
use crate::database::cells::SqlParamView;
use crate::database::cells::Statement;
use crate::database::cells::StatementView;
use crate::database::meaning::adds_place;
use crate::database::meaning::binds;
use crate::database::meaning::changes_cover;
use crate::database::meaning::changes_video;
use crate::database::meaning::known_or;
use crate::database::meaning::law_removal_spares_valid_paths;
use crate::database::meaning::lemma_collection_removal;
use crate::database::meaning::lemma_cover_change;
use crate::database::meaning::lemma_favorite_change;
use crate::database::meaning::lemma_library_removal;
use crate::database::meaning::lemma_metadata_change;
use crate::database::meaning::lemma_place_removal;
use crate::database::meaning::lemma_position_change;
use crate::database::meaning::lemma_thumbnail_change;
use crate::database::meaning::lemma_video_removal;
use crate::database::meaning::lemma_watched_change;
use crate::database::meaning::reads;
use crate::database::meaning::reads_videos_without_thumbnail;
use crate::database::meaning::removes_just_the_collection;
use crate::database::meaning::removes_just_the_library;
use crate::database::meaning::removes_just_the_place;
use crate::database::meaning::removes_just_the_video;
use crate::database::meaning::removes_video;
use crate::database::meaning::Wish;
use crate::database::rows::library_columns;
use crate::database::rows::library_of;
use crate::database::rows::video_columns;
use crate::database::rows::video_of;
use crate::database::sql;
use crate::double::law_floored_is_not_negative;
use crate::double::Double;
use crate::fresh::is_moment;
use crate::fresh::is_uuid;
use crate::fresh::new_id;
use crate::fresh::now_text;
use crate::models::Collection;
use crate::models::CollectionView;
use crate::models::Library;
use crate::models::LibraryStats;
use crate::models::LibraryView;
use crate::models::VideoRecord;
use crate::models::VideoRecordView;
use crate::progress::ProgressUpdate;
use crate::progress::ProgressUpdateView;
use crate::text::contains_text;
use crate::text::decimal;
use crate::text::digit;
use crate::text::has_text;
use crate::text::print_decimal;
use crate::text::texts;
use crate::wrapping::signed;
use crate::wrapping::to_signed;
use vstd::prelude::*;

verus! {

/// The catalogue of libraries, videos and collections.
pub struct Database;

/// What makes the tables of the catalogue.
#[derive(Debug)]
pub struct SetUp {
    /// Makes what is missing; runs as a batch.
    pub batch: String,
    /// Brings an older catalogue up to date; may fail.
    pub upgrade: Statement,
}

/// A statement without values.
pub open spec fn plain(sql: Seq<char>) -> StatementView {
    StatementView { sql, params: seq![] }
}

/// A statement with one text.
pub open spec fn with_text(sql: Seq<char>, text: Seq<char>) -> StatementView {
    StatementView { sql, params: seq![SqlParamView::Text(text)] }
}

/// A statement with a value and a text.
pub open spec fn with_value_and_text(
    sql: Seq<char>,
    value: SqlParamView,
    text: Seq<char>,
) -> StatementView {
    StatementView { sql, params: seq![value, SqlParamView::Text(text)] }
}

/// An optional text in specifications.
pub open spec fn view_str(text: Option<&str>) -> Option<Seq<char>> {
    match text {
        Some(t) => Some(t@),
        None => None,
    }
}

fn plain_statement(sql: &str) -> (r: Statement)
    ensures
        r@ == plain(sql@),
{
    let r = Statement { sql: sql.to_owned(), params: Vec::new() };
    assert(r@.params =~= plain(sql@).params);
    r
}

fn text_statement(sql: &str, text: &str) -> (r: Statement)
    ensures
        r@ == with_text(sql@, text@),
{
    let r = Statement { sql: sql.to_owned(), params: vec![text_param(text)] };
    assert(r@.params =~= with_text(sql@, text@).params);
    r
}

fn value_and_text_statement(sql: &str, value: SqlParam, text: &str) -> (r: Statement)
    ensures
        r@ == with_value_and_text(sql@, value@, text@),
{
    let r = Statement { sql: sql.to_owned(), params: vec![value, text_param(text)] };
    assert(r@.params =~= with_value_and_text(sql@, value@, text@).params);
    r
}

fn optional_param(text: Option<&str>) -> (r: SqlParam)
    ensures
        r@ == text_or_null(view_str(text)),
{
    match text {
        Some(t) => text_param(t),
        None => SqlParam::Null,
    }
}

/// The statement that adds a library.
pub open spec fn library_insert(library: LibraryView) -> StatementView {
    StatementView {
        sql: sql::INSERT_LIBRARY@,
        params: seq![
            SqlParamView::Text(library.id),
            SqlParamView::Text(library.path),
            SqlParamView::Text(library.name),
            SqlParamView::Text(library.created_at),
        ],
    }
}

/// The values of a video, in the order of its columns.
pub open spec fn video_values(video: VideoRecordView) -> Seq<SqlParamView> {
    seq![
        SqlParamView::Text(video.id),
        SqlParamView::Text(video.library_id),
        SqlParamView::Text(video.path),
        SqlParamView::Text(video.title),
        SqlParamView::Text(video.file_name),
        SqlParamView::Integer(video.file_size),
        double_or_null(video.duration_secs),
        small_or_null(video.width),
        small_or_null(video.height),
        text_or_null(video.thumbnail_path),
        SqlParamView::Integer(video.watched as i64),
        SqlParamView::Real(video.watch_progress_secs),
        SqlParamView::Integer(video.favorite as i64),
        SqlParamView::Text(video.date_added),
        SqlParamView::Text(video.date_modified),
    ]
}

/// The statement that adds a collection.
pub open spec fn collection_insert(collection: CollectionView) -> StatementView {
    StatementView {
        sql: sql::INSERT_COLLECTION@,
        params: seq![
            SqlParamView::Text(collection.id),
            SqlParamView::Text(collection.name),
            SqlParamView::Text(collection.description),
            SqlParamView::Text(collection.created_at),
        ],
    }
}

/// The statement that keeps what became of playing a video.
pub open spec fn progress_statement(update: ProgressUpdateView) -> StatementView {
    if update.mark_watched {
        with_text(sql::MARK_WATCHED@, update.video_id)
    } else {
        with_value_and_text(
            sql::SET_PROGRESS@,
            SqlParamView::Real(update.progress_secs.floored()),
            update.video_id,
        )
    }
}

/// The marks `?2, ?3, ..` of the first `count` values after the first one.
pub open spec fn marks(count: nat) -> Seq<char>
    decreases count,
{
    if count == 0 {
        seq![]
    } else if count == 1 {
        "?"@ + decimal(2)
    } else {
        marks((count - 1) as nat) + ", "@ + "?"@ + decimal(count + 1)
    }
}

/// The statement that removes the videos of a library but for those at the paths.
pub open spec fn removal_of_others(library_id: Seq<char>, paths: Seq<Seq<char>>) -> StatementView {
    if paths.len() == 0 {
        with_text(sql::DELETE_LIBRARY_VIDEOS@, library_id)
    } else {
        StatementView {
            sql: sql::DELETE_OTHER_VIDEOS@ + marks(paths.len()) + ")"@,
            params: seq![SqlParamView::Text(library_id)] + paths.map_values(
                |p: Seq<char>| SqlParamView::Text(p),
            ),
        }
    }
}

impl Database {
    /// What makes the tables of the catalogue.
    pub fn initialize_tables(&self) -> (r: SetUp)
        ensures
            r.batch@ == sql::SET_UP@,
            r.upgrade@ == plain(sql::ADD_COVER_COLUMN@),
    {
        SetUp { batch: sql::SET_UP.to_owned(), upgrade: plain_statement(sql::ADD_COVER_COLUMN) }
    }

    /// What becomes of an upgrade: that a column is there already is no failure.
    pub fn upgrade_outcome(&self, failure: Option<String>) -> (r: Result<(), String>)
        ensures
            match failure {
                Some(message) => if contains_text(message@, "duplicate column name"@) {
                    r is Ok
                } else {
                    r matches Err(e) && e@ == message@
                },
                None => r is Ok,
            },
    {
        match failure {
            Some(message) => {
                if has_text(message.as_str(), "duplicate column name") {
                    Ok(())
                } else {
                    Err(message)
                }
            },
            None => Ok(()),
        }
    }

    /// A new library, and the statement that adds it.
    pub fn add_library(&self, path: &str, name: &str) -> (r: (Statement, Library))
        ensures
            is_uuid(r.1@.id),
            is_moment(r.1@.created_at),
            r.1@.path == path@,
            r.1@.name == name@,
            r.0@ == library_insert(r.1@),
    {
        let library = Library {
            id: new_id(),
            path: path.to_owned(),
            name: name.to_owned(),
            created_at: now_text(),
        };
        (self.insert_library(&library), library)
    }

    /// The statement that adds a library.
    pub fn insert_library(&self, library: &Library) -> (r: Statement)
        ensures
            r@ == library_insert(library@),
    {
        let r = Statement {
            sql: sql::INSERT_LIBRARY.to_owned(),
            params: vec![
                text_param(library.id.as_str()),
                text_param(library.path.as_str()),
                text_param(library.name.as_str()),
                text_param(library.created_at.as_str()),
            ],
        };
        assert(r@.params =~= library_insert(library@).params);
        r
    }

    /// The statement that reads the libraries.
    pub fn get_libraries(&self) -> (r: Statement)
        ensures
            r@ == plain(sql::SELECT_LIBRARIES@),
            reads(r@, Wish::Libraries),
    {
        plain_statement(sql::SELECT_LIBRARIES)
    }

    /// The statements that remove a library: first its videos, then itself.
    pub fn remove_library(&self, id: &str) -> (r: Vec<Statement>)
        ensures
            view_statements(r@) == seq![
                with_text(sql::DELETE_LIBRARY_VIDEOS@, id@),
                with_text(sql::DELETE_LIBRARY@, id@),
            ],
            removes_just_the_library(view_statements(r@), id@),
    {
        let r = vec![
            text_statement(sql::DELETE_LIBRARY_VIDEOS, id),
            text_statement(sql::DELETE_LIBRARY, id),
        ];
        assert(view_statements(r@) =~= seq![
            with_text(sql::DELETE_LIBRARY_VIDEOS@, id@),
            with_text(sql::DELETE_LIBRARY@, id@),
        ]);
        proof {
            lemma_library_removal(view_statements(r@), id@);
        }
        r
    }

    /// The statement that adds a video, or brings the one at its path up to date.
    pub fn upsert_video(&self, video: &VideoRecord) -> (r: Statement)
        ensures
            r@ == (StatementView { sql: sql::UPSERT_VIDEO@, params: video_values(video@) }),
    {
        let r = Statement {
            sql: sql::UPSERT_VIDEO.to_owned(),
            params: vec![
                text_param(video.id.as_str()),
                text_param(video.library_id.as_str()),
                text_param(video.path.as_str()),
                text_param(video.title.as_str()),
                text_param(video.file_name.as_str()),
                SqlParam::Integer(video.file_size),
                optional_double_param(video.duration_secs),
                optional_small_param(video.width),
                optional_small_param(video.height),
                optional_text_param(&video.thumbnail_path),
                SqlParam::Integer(video.watched as i64),
                SqlParam::Real(video.watch_progress_secs),
                SqlParam::Integer(video.favorite as i64),
                text_param(video.date_added.as_str()),
                text_param(video.date_modified.as_str()),
            ],
        };
        assert(r@.params =~= video_values(video@));
        r
    }

    /// The statement that reads all videos.
    pub fn get_all_videos(&self) -> (r: Statement)
        ensures
            r@ == plain(sql::SELECT_VIDEOS@),
            reads(r@, Wish::Videos),
    {
        plain_statement(sql::SELECT_VIDEOS)
    }

    /// The statement that reads the videos of a library.
    pub fn get_videos_by_library(&self, library_id: &str) -> (r: Statement)
        ensures
            r@ == with_text(sql::SELECT_LIBRARY_VIDEOS@, library_id@),
            reads(r@, Wish::VideosOfLibrary(library_id@)),
    {
        text_statement(sql::SELECT_LIBRARY_VIDEOS, library_id)
    }

    /// The statement that reads one video.
    pub fn get_video_by_id(&self, video_id: &str) -> (r: Statement)
        ensures
            r@ == with_text(sql::SELECT_VIDEO@, video_id@),
            reads(r@, Wish::Video(video_id@)),
    {
        text_statement(sql::SELECT_VIDEO, video_id)
    }

    /// The statements that remove a video: first from its collections, then itself.
    pub fn delete_video_record(&self, video_id: &str) -> (r: Vec<Statement>)
        ensures
            view_statements(r@) == seq![
                with_text(sql::DELETE_VIDEO_MEMBERSHIPS@, video_id@),
                with_text(sql::DELETE_VIDEO@, video_id@),
            ],
            removes_just_the_video(view_statements(r@), video_id@),
    {
        let r = vec![
            text_statement(sql::DELETE_VIDEO_MEMBERSHIPS, video_id),
            text_statement(sql::DELETE_VIDEO, video_id),
        ];
        assert(view_statements(r@) =~= seq![
            with_text(sql::DELETE_VIDEO_MEMBERSHIPS@, video_id@),
            with_text(sql::DELETE_VIDEO@, video_id@),
        ]);
        proof {
            lemma_video_removal(view_statements(r@), video_id@);
        }
        r
    }

    /// The statement that notes whether a video was watched.
    pub fn set_watched(&self, video_id: &str, watched: bool) -> (r: Statement)
        ensures
            r@ == with_value_and_text(
                sql::SET_WATCHED@,
                SqlParamView::Integer(
                    if watched {
                        1
                    } else {
                        0
                    },
                ),
                video_id@,
            ),
            changes_video(
                r@,
                video_id@,
                |row: VideoRecordView|
                    VideoRecordView {
                        watched: if watched {
                            1
                        } else {
                            0
                        },
                        ..row
                    },
            ),
    {
        let value: i64 = if watched {
            1
        } else {
            0
        };
        let r = value_and_text_statement(sql::SET_WATCHED, SqlParam::Integer(value), video_id);
        proof {
            lemma_watched_change(r@, video_id@, value);
        }
        r
    }

    /// The statement that notes the position in a video.
    pub fn set_progress(&self, video_id: &str, progress_secs: Double) -> (r: Statement)
        ensures
            r@ == with_value_and_text(
                sql::SET_PROGRESS@,
                SqlParamView::Real(progress_secs),
                video_id@,
            ),
            changes_video(
                r@,
                video_id@,
                |row: VideoRecordView| VideoRecordView { watch_progress_secs: progress_secs, ..row },
            ),
    {
        let r = value_and_text_statement(
            sql::SET_PROGRESS,
            SqlParam::Real(progress_secs),
            video_id,
        );
        proof {
            lemma_position_change(r@, video_id@, progress_secs);
        }
        r
    }

    /// The statement that keeps what became of playing a video: one that was
    /// watched starts over, and a position is never negative.
    pub fn apply_playback_progress(&self, update: &ProgressUpdate) -> (r: Statement)
        ensures
            r@ == progress_statement(update@),
    {
        if update.mark_watched {
            text_statement(sql::MARK_WATCHED, update.video_id.as_str())
        } else {
            self.set_progress(update.video_id.as_str(), update.progress_secs.at_least_zero())
        }
    }

    /// The statement that notes whether a video is a favorite.
    pub fn set_favorite(&self, video_id: &str, favorite: bool) -> (r: Statement)
        ensures
            r@ == with_value_and_text(
                sql::SET_FAVORITE@,
                SqlParamView::Integer(
                    if favorite {
                        1
                    } else {
                        0
                    },
                ),
                video_id@,
            ),
            changes_video(
                r@,
                video_id@,
                |row: VideoRecordView|
                    VideoRecordView {
                        favorite: if favorite {
                            1
                        } else {
                            0
                        },
                        ..row
                    },
            ),
    {
        let value: i64 = if favorite {
            1
        } else {
            0
        };
        let r = value_and_text_statement(sql::SET_FAVORITE, SqlParam::Integer(value), video_id);
        proof {
            lemma_favorite_change(r@, video_id@, value);
        }
        r
    }

    /// The statement that notes the thumbnail of a video.
    pub fn update_thumbnail(&self, video_id: &str, thumbnail_path: &str) -> (r: Statement)
        ensures
            r@ == with_value_and_text(
                sql::SET_THUMBNAIL@,
                SqlParamView::Text(thumbnail_path@),
                video_id@,
            ),
            changes_video(
                r@,
                video_id@,
                |row: VideoRecordView|
                    VideoRecordView { thumbnail_path: Some(thumbnail_path@), ..row },
            ),
    {
        let r = value_and_text_statement(
            sql::SET_THUMBNAIL,
            text_param(thumbnail_path),
            video_id,
        );
        proof {
            lemma_thumbnail_change(r@, video_id@, thumbnail_path@);
        }
        r
    }

    /// The statement that notes the length and the size of a video, as far as they
    /// are known.
    pub fn update_video_metadata(
        &self,
        video_id: &str,
        duration: Option<Double>,
        width: Option<i32>,
        height: Option<i32>,
    ) -> (r: Statement)
        ensures
            r@ == (StatementView {
                sql: sql::SET_METADATA@,
                params: seq![
                    double_or_null(duration),
                    small_or_null(width),
                    small_or_null(height),
                    SqlParamView::Text(video_id@),
                ],
            }),
            changes_video(
                r@,
                video_id@,
                |row: VideoRecordView|
                    VideoRecordView {
                        duration_secs: known_or(duration, row.duration_secs),
                        width: known_or(width, row.width),
                        height: known_or(height, row.height),
                        ..row
                    },
            ),
    {
        let r = Statement {
            sql: sql::SET_METADATA.to_owned(),
            params: vec![
                optional_double_param(duration),
                optional_small_param(width),
                optional_small_param(height),
                text_param(video_id),
            ],
        };
        assert(r@.params =~= seq![
            double_or_null(duration),
            small_or_null(width),
            small_or_null(height),
            SqlParamView::Text(video_id@),
        ]);
        proof {
            lemma_metadata_change(r@, video_id@, duration, width, height);
        }
        r
    }

    /// The statement that removes the videos of a library but for those at valid
    /// paths. Where no path is valid, it removes them all.
    pub fn remove_videos_not_in_paths(&self, library_id: &str, valid_paths: &Vec<String>) -> (r:
        Statement)
        requires
            valid_paths@.len() + 1 <= usize::MAX,
        ensures
            r@ == removal_of_others(library_id@, texts(valid_paths@)),
            forall|row: VideoRecordView| #[trigger]
                removes_video(r@, row) <==> row.library_id == library_id@ && !texts(
                    valid_paths@,
                ).contains(row.path),
            forall|k: int|
                0 <= k < valid_paths@.len() ==> binds(r@, k + 1, (#[trigger] valid_paths@[k])@),
    {
        proof {
            let paths = texts(valid_paths@);
            assert forall|row: VideoRecordView| #[trigger]
                removes_video(removal_of_others(library_id@, paths), row) <==> row.library_id
                == library_id@ && !paths.contains(row.path) by {
                law_removal_spares_valid_paths(library_id@, paths, row);
            }
            assert forall|k: int| 0 <= k < valid_paths@.len() implies binds(
                removal_of_others(library_id@, paths),
                k + 1,
                (#[trigger] valid_paths@[k])@,
            ) by {
                law_removal_spares_valid_paths(library_id@, paths, arbitrary());
                assert(paths[k] == valid_paths@[k]@);
            }
        }
        if valid_paths.len() == 0 {
            return text_statement(sql::DELETE_LIBRARY_VIDEOS, library_id);
        }
        let mut text = String::new();
        let mut params: Vec<SqlParam> = vec![text_param(library_id)];
        let mut i: usize = 0;
        let ghost paths = texts(valid_paths@);
        let ghost values = paths.map_values(|p: Seq<char>| SqlParamView::Text(p));
        assert(text@ =~= marks(0));
        assert(view_params(params@) =~= seq![SqlParamView::Text(library_id@)] + values.take(0));
        while i < valid_paths.len()
            invariant
                i <= valid_paths@.len(),
                valid_paths@.len() + 1 <= usize::MAX,
                paths == texts(valid_paths@),
                values == paths.map_values(|p: Seq<char>| SqlParamView::Text(p)),
                text@ == marks(i as nat),
                view_params(params@) == seq![SqlParamView::Text(library_id@)] + values.take(
                    i as int,
                ),
            decreases valid_paths.len() - i,
        {
            let ghost before = params@;
            let ghost old_text = text@;
            if i > 0 {
                text.append(", ");
            }
            text.append("?");
            text.append(print_decimal(i as u64 + 2).as_str());
            assert(text@ =~= marks((i + 1) as nat)) by {
                if i == 0 {
                    assert(old_text =~= Seq::<char>::empty());
                    assert(old_text + "?"@ + decimal(2) =~= "?"@ + decimal(2));
                }
            }
            params.push(text_param(valid_paths[i].as_str()));
            proof {
                assert(values.take(i + 1) =~= values.take(i as int).push(values[i as int]));
                assert(view_params(params@) =~= view_params(before).push(values[i as int]));
            }
            i += 1;
        }
        proof {
            assert(values.take(values.len() as int) =~= values);
        }
        let mut statement_text = sql::DELETE_OTHER_VIDEOS.to_owned();
        statement_text.append(text.as_str());
        statement_text.append(")");
        let r = Statement { sql: statement_text, params };
        assert(r@ == removal_of_others(library_id@, texts(valid_paths@)));
        r
    }

    /// The statement that reads the paths of the videos of a library.
    pub fn get_existing_paths(&self, library_id: &str) -> (r: Statement)
        ensures
            r@ == with_text(sql::SELECT_PATHS@, library_id@),
            reads(r@, Wish::PathsOfLibrary(library_id@)),
    {
        text_statement(sql::SELECT_PATHS, library_id)
    }

    /// The statement that reads videos that have no thumbnail, up to a number of
    /// them.
    pub fn get_videos_without_thumbnails(&self, limit: usize) -> (r: Statement)
        ensures
            r@ == (StatementView {
                sql: sql::SELECT_VIDEOS_WITHOUT_THUMBNAIL@,
                params: seq![SqlParamView::Integer(signed(limit as int) as i64)],
            }),
            reads_videos_without_thumbnail(r@, limit as int),
    {
        let r = Statement {
            sql: sql::SELECT_VIDEOS_WITHOUT_THUMBNAIL.to_owned(),
            params: vec![SqlParam::Integer(to_signed(limit as u64))],
        };
        assert(r@.params =~= seq![SqlParamView::Integer(signed(limit as int) as i64)]);
        r
    }

    /// A new collection, and the statement that adds it.
    pub fn create_collection(&self, name: &str, description: &str) -> (r: (Statement, Collection))
        ensures
            is_uuid(r.1@.id),
            is_moment(r.1@.created_at),
            r.1@ == (CollectionView {
                id: r.1@.id,
                name: name@,
                description: description@,
                cover_video_id: None,
                cover_image_path: None,
                created_at: r.1@.created_at,
                video_count: 0,
            }),
            r.0@ == collection_insert(r.1@),
    {
        let collection = Collection {
            id: new_id(),
            name: name.to_owned(),
            description: description.to_owned(),
            cover_video_id: None,
            cover_image_path: None,
            created_at: now_text(),
            video_count: 0,
        };
        (self.insert_collection(&collection), collection)
    }

    /// The statement that adds a collection without a cover.
    pub fn insert_collection(&self, collection: &Collection) -> (r: Statement)
        ensures
            r@ == collection_insert(collection@),
    {
        let r = Statement {
            sql: sql::INSERT_COLLECTION.to_owned(),
            params: vec![
                text_param(collection.id.as_str()),
                text_param(collection.name.as_str()),
                text_param(collection.description.as_str()),
                text_param(collection.created_at.as_str()),
            ],
        };
        assert(r@.params =~= collection_insert(collection@).params);
        r
    }

    /// The statement that reads the collections.
    pub fn get_collections(&self) -> (r: Statement)
        ensures
            r@ == plain(sql::SELECT_COLLECTIONS@),
            reads(r@, Wish::Collections),
    {
        plain_statement(sql::SELECT_COLLECTIONS)
    }

    /// The statement that reads one collection.
    pub fn get_collection_by_id(&self, collection_id: &str) -> (r: Statement)
        ensures
            r@ == with_text(sql::SELECT_COLLECTION@, collection_id@),
            reads(r@, Wish::CollectionOf(collection_id@)),
    {
        text_statement(sql::SELECT_COLLECTION, collection_id)
    }

    /// The statements that remove a collection: first what is in it, then itself.
    pub fn delete_collection(&self, id: &str) -> (r: Vec<Statement>)
        ensures
            view_statements(r@) == seq![
                with_text(sql::DELETE_COLLECTION_MEMBERSHIPS@, id@),
                with_text(sql::DELETE_COLLECTION@, id@),
            ],
            removes_just_the_collection(view_statements(r@), id@),
    {
        let r = vec![
            text_statement(sql::DELETE_COLLECTION_MEMBERSHIPS, id),
            text_statement(sql::DELETE_COLLECTION, id),
        ];
        assert(view_statements(r@) =~= seq![
            with_text(sql::DELETE_COLLECTION_MEMBERSHIPS@, id@),
            with_text(sql::DELETE_COLLECTION@, id@),
        ]);
        proof {
            lemma_collection_removal(view_statements(r@), id@);
        }
        r
    }

    /// The statement that makes a video the cover of a collection.
    pub fn set_collection_cover(&self, collection_id: &str, cover_video_id: Option<&str>) -> (r:
        Statement)
        ensures
            r@ == with_value_and_text(
                sql::SET_COVER_VIDEO@,
                text_or_null(view_str(cover_video_id)),
                collection_id@,
            ),
            changes_cover(r@, collection_id@, view_str(cover_video_id), None),
    {
        let r = value_and_text_statement(
            sql::SET_COVER_VIDEO,
            optional_param(cover_video_id),
            collection_id,
        );
        proof {
            lemma_cover_change(r@, collection_id@, view_str(cover_video_id), None);
        }
        r
    }

    /// The statement that makes an image the cover of a collection.
    pub fn set_collection_cover_image(
        &self,
        collection_id: &str,
        cover_image_path: Option<&str>,
    ) -> (r: Statement)
        ensures
            r@ == with_value_and_text(
                sql::SET_COVER_IMAGE@,
                text_or_null(view_str(cover_image_path)),
                collection_id@,
            ),
            changes_cover(r@, collection_id@, None, view_str(cover_image_path)),
    {
        let r = value_and_text_statement(
            sql::SET_COVER_IMAGE,
            optional_param(cover_image_path),
            collection_id,
        );
        proof {
            lemma_cover_change(r@, collection_id@, None, view_str(cover_image_path));
        }
        r
    }

    /// The statement that asks for the next free position of a collection.
    pub fn next_position(&self, collection_id: &str) -> (r: Statement)
        ensures
            r@ == with_text(sql::SELECT_NEXT_POSITION@, collection_id@),
            reads(r@, Wish::NextPosition(collection_id@)),
    {
        text_statement(sql::SELECT_NEXT_POSITION, collection_id)
    }

    /// The statement that adds a video to a collection, at the position that the
    /// catalogue gave.
    pub fn add_video_to_collection(
        &self,
        collection_id: &str,
        video_id: &str,
        position: &Vec<SqlCell>,
    ) -> (r: Result<Statement, CellError>)
        ensures
            match (row_fault(view_row(position@), seq![ColumnKind::SmallInteger]), r) {
                (Some(error), Err(e)) => e == error,
                (None, Ok(statement)) => statement@ == (StatementView {
                    sql: sql::INSERT_MEMBERSHIP@,
                    params: seq![
                        SqlParamView::Text(collection_id@),
                        SqlParamView::Text(video_id@),
                        SqlParamView::Integer(view_row(position@)[0].integer()),
                    ],
                }),
                _ => false,
            },
            r matches Ok(statement) ==> position@.len() > 0 && (position@[0]@ matches
                SqlCellView::Integer(n, _) && i32::MIN <= n <= i32::MAX && adds_place(
                statement@,
                collection_id@,
                video_id@,
                n as int,
            )),
            position@.len() > 0 && (position@[0]@ matches SqlCellView::Integer(n, _) && i32::MIN <= n
                <= i32::MAX) ==> r is Ok,
    {
        proof {
            let row = view_row(position@);
            if position@.len() > 0 {
                assert(row[0] == position@[0]@);
                if position@[0]@ is Integer && i32::MIN <= position@[0]@->Integer_0 <= i32::MAX {
                    lemma_sound_row(row, seq![ColumnKind::SmallInteger], 0);
                }
            }
        }
        let kinds = vec![ColumnKind::SmallInteger];
        assert(kinds@ =~= seq![ColumnKind::SmallInteger]);
        match fault_of_row(position, &kinds) {
            Some(error) => Err(error),
            None => {
                proof {
                    lemma_row_is_sound(view_row(position@), seq![ColumnKind::SmallInteger], 0);
                }
                let r = Statement {
                    sql: sql::INSERT_MEMBERSHIP.to_owned(),
                    params: vec![
                        text_param(collection_id),
                        text_param(video_id),
                        SqlParam::Integer(position[0].integer()),
                    ],
                };
                assert(r@.params =~= seq![
                    SqlParamView::Text(collection_id@),
                    SqlParamView::Text(video_id@),
                    SqlParamView::Integer(view_row(position@)[0].integer()),
                ]);
                Ok(r)
            },
        }
    }

    /// The statement that takes a video out of a collection.
    pub fn remove_video_from_collection(&self, collection_id: &str, video_id: &str) -> (r: Statement)
        ensures
            r@ == with_value_and_text(
                sql::DELETE_MEMBERSHIP@,
                SqlParamView::Text(collection_id@),
                video_id@,
            ),
            removes_just_the_place(r@, collection_id@, video_id@),
    {
        let r = value_and_text_statement(
            sql::DELETE_MEMBERSHIP,
            text_param(collection_id),
            video_id,
        );
        proof {
            lemma_place_removal(r@, collection_id@, video_id@);
        }
        r
    }

    /// The statement that reads the videos of a collection.
    pub fn get_collection_videos(&self, collection_id: &str) -> (r: Statement)
        ensures
            r@ == with_text(sql::SELECT_COLLECTION_VIDEOS@, collection_id@),
            reads(r@, Wish::VideosOfCollection(collection_id@)),
    {
        text_statement(sql::SELECT_COLLECTION_VIDEOS, collection_id)
    }
}

/// A position that is kept is a number, and not negative.
pub proof fn law_kept_position_is_not_negative(update: ProgressUpdateView)
    requires
        !update.mark_watched,
    ensures
        progress_statement(update).params[0] matches SqlParamView::Real(d) && d.at_least(
            Double { bits: 0 },
        ),
{
    law_floored_is_not_negative(update.progress_secs);
}

/// Tells the characters apart with which a mark begins.
pub open spec fn begins_a_mark() -> spec_fn(char) -> bool {
    |c: char| c == '?'
}

/// The statement that removes the videos at no valid path has one mark for each
/// path, besides that of the library.
pub proof fn law_each_path_has_its_mark(count: nat)
    ensures
        marks(count).filter(begins_a_mark()).len() == count,
    decreases count,
{
    let is_mark = begins_a_mark();
    reveal(Seq::filter);
    if count > 0 {
        reveal_strlit("?");
        reveal_strlit(", ");
        let printed = decimal(count + 1);
        lemma_no_mark_in_decimal(count + 1);
        assert("?"@.filter(is_mark).len() == 1) by {
            assert("?"@.drop_last() =~= Seq::<char>::empty());
        }
        if count == 1 {
            Seq::filter_distributes_over_add("?"@, printed, is_mark);
            assert(marks(1) == "?"@ + printed);
        } else {
            let before = marks((count - 1) as nat);
            law_each_path_has_its_mark((count - 1) as nat);
            assert(", "@.filter(is_mark).len() == 0) by {
                assert(", "@.drop_last() =~= seq![',']);
                assert(", "@.drop_last().drop_last() =~= Seq::<char>::empty());
                reveal_with_fuel(Seq::filter, 3);
            }
            Seq::filter_distributes_over_add(before, ", "@, is_mark);
            Seq::filter_distributes_over_add(before + ", "@, "?"@, is_mark);
            Seq::filter_distributes_over_add(before + ", "@ + "?"@, printed, is_mark);
        }
    }
}

proof fn lemma_no_mark_in_decimal(n: nat)
    ensures
        decimal(n).filter(begins_a_mark()).len() == 0,
    decreases n,
{
    let is_mark = begins_a_mark();
    reveal_with_fuel(Seq::filter, 2);
    let last: int = (n % 10) as int;
    assert(digit(last) as u32 == 48 + last);
    assert(decimal(n).last() == digit(last));
    assert(!is_mark(decimal(n).last()));
    if n < 10 {
        assert(decimal(n).drop_last() =~= Seq::<char>::empty());
    } else {
        lemma_no_mark_in_decimal(n / 10);
        assert(decimal(n).drop_last() =~= decimal(n / 10));
    }
}

/// How counting the catalogue goes on.
#[derive(Debug)]
pub enum StatsStep {
    /// Ask this; its first row is the next answer.
    Ask(Statement),
    /// An answer cannot be read.
    Fail(CellError),
    /// These are the counts.
    Done(LibraryStats),
}

/// The questions whose answers make up the counts, in order.
pub open spec fn stats_questions() -> Seq<Seq<char>> {
    seq![
        sql::COUNT_VIDEOS@,
        sql::COUNT_WATCHED_VIDEOS@,
        sql::SUM_SIZES@,
        sql::SUM_DURATIONS@,
        sql::COUNT_LIBRARIES@,
    ]
}

/// What the answer to a question has to hold.
pub open spec fn stats_columns(question: int) -> Seq<ColumnKind> {
    if question == 3 {
        seq![ColumnKind::Number]
    } else {
        seq![ColumnKind::Integer]
    }
}

/// The fault of the first answer that cannot be read.
pub open spec fn stats_fault(answers: Seq<Seq<SqlCellView>>, from: int) -> Option<CellError>
    decreases answers.len() - from,
{
    if from < 0 || from >= answers.len() {
        None
    } else {
        match row_fault(answers[from], stats_columns(from)) {
            Some(error) => Some(error),
            None => stats_fault(answers, from + 1),
        }
    }
}

/// The counts that the answers make up.
pub open spec fn stats_of(answers: Seq<Seq<SqlCellView>>) -> LibraryStats {
    LibraryStats {
        total_videos: answers[0][0].integer(),
        watched_videos: answers[1][0].integer(),
        unwatched_videos: (answers[0][0].integer() - answers[1][0].integer()) as i64,
        total_size_bytes: answers[2][0].integer(),
        total_duration_secs: answers[3][0].number(),
        total_libraries: answers[4][0].integer(),
    }
}

/// The integer in the first column of an answer, where there is one.
pub open spec fn count_in(answers: Seq<Seq<SqlCellView>>, i: int) -> int {
    if 0 <= i < answers.len() && answers[i].len() > 0 {
        answers[i][0].integer() as int
    } else {
        0
    }
}

/// The videos that were not watched can be counted: the difference of the first two
/// answers fits in an integer.
pub open spec fn counts_fit(answers: Seq<Seq<SqlCellView>>) -> bool {
    i64::MIN <= count_in(answers, 0) - count_in(answers, 1) <= i64::MAX
}

fn read_count(answers: &Vec<Vec<SqlCell>>, i: usize) -> (r: i64)
    ensures
        r == count_in(view_rows(answers@), i as int),
{
    if i < answers.len() {
        assert(view_rows(answers@)[i as int] == view_row(answers@[i as int]@));
        if answers[i].len() > 0 {
            return answers[i][0].integer();
        }
    }
    0
}

/// Whether the videos that were not watched can be counted.
pub fn has_fitting_counts(answers: &Vec<Vec<SqlCell>>) -> (r: bool)
    ensures
        r == counts_fit(view_rows(answers@)),
{
    let difference: i128 = read_count(answers, 0) as i128 - read_count(answers, 1) as i128;
    -0x8000_0000_0000_0000 <= difference && difference <= 0x7fff_ffff_ffff_ffff
}

fn stats_question(question: usize) -> (r: Statement)
    requires
        question < 5,
    ensures
        r@ == plain(stats_questions()[question as int]),
{
    match question {
        0 => plain_statement(sql::COUNT_VIDEOS),
        1 => plain_statement(sql::COUNT_WATCHED_VIDEOS),
        2 => plain_statement(sql::SUM_SIZES),
        3 => plain_statement(sql::SUM_DURATIONS),
        _ => plain_statement(sql::COUNT_LIBRARIES),
    }
}

impl Database {
    /// Counts the catalogue: tells how it goes on, with the answers so far.
    pub fn get_stats(&self, answers: &Vec<Vec<SqlCell>>) -> (r: StatsStep)
        requires
            answers@.len() <= 5,
            counts_fit(view_rows(answers@)),
        ensures
            match (stats_fault(view_rows(answers@), 0), r) {
                (Some(error), StatsStep::Fail(e)) => e == error,
                (None, StatsStep::Ask(statement)) => answers@.len() < 5 && statement@ == plain(
                    stats_questions()[answers@.len() as int],
                ),
                (None, StatsStep::Done(stats)) => answers@.len() == 5 && stats == stats_of(
                    view_rows(answers@),
                ),
                _ => false,
            },
    {
        let ghost seen = view_rows(answers@);
        let whole = vec![ColumnKind::Integer];
        let number = vec![ColumnKind::Number];
        assert(whole@ =~= seq![ColumnKind::Integer]);
        assert(number@ =~= seq![ColumnKind::Number]);
        let mut i: usize = 0;
        while i < answers.len()
            invariant
                i <= answers@.len(),
                seen == view_rows(answers@),
                whole@ == seq![ColumnKind::Integer],
                number@ == seq![ColumnKind::Number],
                stats_fault(seen, 0) == stats_fault(seen, i as int),
                forall|j: int|
                    0 <= j < i ==> row_fault(#[trigger] seen[j], stats_columns(j)) is None,
            decreases answers.len() - i,
        {
            assert(seen[i as int] == view_row(answers@[i as int]@));
            let fault = if i == 3 {
                fault_of_row(&answers[i], &number)
            } else {
                fault_of_row(&answers[i], &whole)
            };
            match fault {
                Some(error) => {
                    return StatsStep::Fail(error);
                },
                None => {},
            }
            i += 1;
        }
        if answers.len() < 5 {
            return StatsStep::Ask(stats_question(answers.len()));
        }
        proof {
            assert forall|j: int| 0 <= j < 5 implies 1 <= (#[trigger] seen[j]).len() && seen[j]
                == view_row(answers@[j]@) by {
                assert(row_fault(seen[j], stats_columns(j)) is None);
                lemma_row_is_sound(seen[j], stats_columns(j), 0);
            }
            assert(seen[0].len() >= 1 && seen[1].len() >= 1 && seen[2].len() >= 1);
            assert(seen[3].len() >= 1 && seen[4].len() >= 1);
        }
        let total: i64 = answers[0][0].integer();
        let watched: i64 = answers[1][0].integer();
        StatsStep::Done(
            LibraryStats {
                total_videos: total,
                watched_videos: watched,
                unwatched_videos: total - watched,
                total_size_bytes: answers[2][0].integer(),
                total_duration_secs: answers[3][0].number(),
                total_libraries: answers[4][0].integer(),
            },
        )
    }
}

/// The videos that were watched and those that were not are all videos.
pub proof fn law_stats_add_up(answers: Seq<Seq<SqlCellView>>)
    requires
        answers.len() == 5,
        stats_fault(answers, 0) is None,
        counts_fit(answers),
    ensures
        stats_of(answers).watched_videos + stats_of(answers).unwatched_videos == stats_of(
            answers,
        ).total_videos,
{
    reveal_with_fuel(stats_fault, 3);
    lemma_row_is_sound(answers[0], stats_columns(0), 0);
    lemma_row_is_sound(answers[1], stats_columns(1), 0);
}

/// The cell that holds a value once it was written. A number that is none is kept
/// as nothing.
pub open spec fn holds_value(cell: SqlCellView, value: SqlParamView) -> bool {
    match value {
        SqlParamView::Null => cell == SqlCellView::Null,
        SqlParamView::Integer(n) => cell matches SqlCellView::Integer(m, _) && m == n,
        SqlParamView::Real(d) => if d.is_nan() {
            cell == SqlCellView::Null
        } else {
            cell == SqlCellView::Real(d)
        },
        SqlParamView::Text(t) => cell == SqlCellView::Text(t),
    }
}

/// A library is read back as it was written.
pub proof fn law_written_library_is_read_back(library: LibraryView, row: Seq<SqlCellView>)
    requires
        row.len() == library_insert(library).params.len(),
        forall|i: int|
            0 <= i < row.len() ==> holds_value(#[trigger] row[i], library_insert(library).params[i]),
    ensures
        library_of(row) == Ok::<LibraryView, CellError>(library),
{
    assert(row.len() == 4);
    assert(holds_value(row[0], library_insert(library).params[0]));
    assert(holds_value(row[1], library_insert(library).params[1]));
    assert(holds_value(row[2], library_insert(library).params[2]));
    assert(holds_value(row[3], library_insert(library).params[3]));
    lemma_sound_row(row, library_columns(), 0);
}

/// A video whose numbers are numbers is read back as it was written.
pub proof fn law_written_video_is_read_back(video: VideoRecordView, row: Seq<SqlCellView>)
    requires
        row.len() == video_values(video).len(),
        forall|i: int|
            0 <= i < row.len() ==> holds_value(#[trigger] row[i], video_values(video)[i]),
        !video.watch_progress_secs.is_nan(),
        video.duration_secs matches Some(d) ==> !d.is_nan(),
    ensures
        video_of(row) == Ok::<VideoRecordView, CellError>(video),
{
    assert(row.len() == 15);
    assert(holds_value(row[0], video_values(video)[0]));
    assert(holds_value(row[1], video_values(video)[1]));
    assert(holds_value(row[2], video_values(video)[2]));
    assert(holds_value(row[3], video_values(video)[3]));
    assert(holds_value(row[4], video_values(video)[4]));
    assert(holds_value(row[5], video_values(video)[5]));
    assert(holds_value(row[6], video_values(video)[6]));
    assert(holds_value(row[7], video_values(video)[7]));
    assert(holds_value(row[8], video_values(video)[8]));
    assert(holds_value(row[9], video_values(video)[9]));
    assert(holds_value(row[10], video_values(video)[10]));
    assert(holds_value(row[11], video_values(video)[11]));
    assert(holds_value(row[12], video_values(video)[12]));
    assert(holds_value(row[13], video_values(video)[13]));
    assert(holds_value(row[14], video_values(video)[14]));
    lemma_sound_row(row, video_columns(), 0);
}

/// An answer is at fault exactly if it has no number where one is asked for: an integer
/// as a count or a sum of sizes, any number as a sum of durations.
pub proof fn law_which_answers_are_at_fault(answers: Seq<Seq<SqlCellView>>)
    requires
        answers.len() <= 5,
    ensures
        stats_fault(answers, 0) is None <==> forall|i: int|
            0 <= i < answers.len() ==> (#[trigger] answers[i]).len() > 0 && (answers[i][0] is Integer
                || i == 3 && answers[i][0] is Real),
{
    lemma_fault_from(answers, 0);
}

proof fn lemma_fault_from(answers: Seq<Seq<SqlCellView>>, from: int)
    requires
        0 <= from <= answers.len(),
    ensures
        stats_fault(answers, from) is None <==> forall|i: int|
            from <= i < answers.len() ==> (#[trigger] answers[i]).len() > 0 && (answers[i][0] is Integer
                || i == 3 && answers[i][0] is Real),
    decreases answers.len() - from,
{
    if from < answers.len() {
        lemma_fault_from(answers, from + 1);
        let kinds = stats_columns(from);
        let row = answers[from];
        if row_fault(row, kinds) is None {
            lemma_row_is_sound(row, kinds, 0);
            assert(kinds[0] == if from == 3 {
                ColumnKind::Number
            } else {
                ColumnKind::Integer
            });
        } else if row.len() > 0 && (row[0] is Integer || from == 3 && row[0] is Real) {
            assert(kinds.len() == 1);
            lemma_sound_row(row, kinds, 0);
        }
    }
}

}
