//! The statements of SQL that read and change the catalogue.
use vstd::prelude::*;

verus! {

/// Makes the tables and indexes that are missing.
pub const SET_UP: &'static str = "
            PRAGMA journal_mode=WAL;
            PRAGMA synchronous=NORMAL;
            PRAGMA cache_size=10000;
            PRAGMA temp_store=MEMORY;

            CREATE TABLE IF NOT EXISTS libraries (
                id TEXT PRIMARY KEY,
                path TEXT NOT NULL UNIQUE,
                name TEXT NOT NULL,
                created_at TEXT NOT NULL
            );

            CREATE TABLE IF NOT EXISTS videos (
                id TEXT PRIMARY KEY,
                library_id TEXT NOT NULL,
                path TEXT NOT NULL UNIQUE,
                title TEXT NOT NULL,
                file_name TEXT NOT NULL,
                file_size INTEGER NOT NULL,
                duration_secs REAL,
                width INTEGER,
                height INTEGER,
                thumbnail_path TEXT,
                watched INTEGER NOT NULL DEFAULT 0,
                watch_progress_secs REAL DEFAULT 0,
                favorite INTEGER NOT NULL DEFAULT 0,
                date_added TEXT NOT NULL,
                date_modified TEXT NOT NULL,
                FOREIGN KEY (library_id) REFERENCES libraries(id) ON DELETE CASCADE
            );

            CREATE TABLE IF NOT EXISTS collections (
                id TEXT PRIMARY KEY,
                name TEXT NOT NULL,
                description TEXT DEFAULT '',
                cover_video_id TEXT,
                cover_image_path TEXT,
                created_at TEXT NOT NULL
            );

            CREATE TABLE IF NOT EXISTS collection_videos (
                collection_id TEXT NOT NULL,
                video_id TEXT NOT NULL,
                position INTEGER NOT NULL DEFAULT 0,
                PRIMARY KEY (collection_id, video_id),
                FOREIGN KEY (collection_id) REFERENCES collections(id) ON DELETE CASCADE,
                FOREIGN KEY (video_id) REFERENCES videos(id) ON DELETE CASCADE
            );

            CREATE INDEX IF NOT EXISTS idx_videos_library ON videos(library_id);
            CREATE INDEX IF NOT EXISTS idx_videos_watched ON videos(watched);
            CREATE INDEX IF NOT EXISTS idx_videos_date_added ON videos(date_added);
            CREATE INDEX IF NOT EXISTS idx_videos_title ON videos(title);
        ";

/// Adds the column of cover images to a catalogue that has none.
pub const ADD_COVER_COLUMN: &'static str = "ALTER TABLE collections ADD COLUMN cover_image_path TEXT";

pub const INSERT_LIBRARY: &'static str = "INSERT INTO libraries (id, path, name, created_at) VALUES (?1, ?2, ?3, ?4)";

pub const SELECT_LIBRARIES: &'static str = "SELECT id, path, name, created_at FROM libraries ORDER BY name";

pub const DELETE_LIBRARY_VIDEOS: &'static str = "DELETE FROM videos WHERE library_id = ?1";

pub const DELETE_LIBRARY: &'static str = "DELETE FROM libraries WHERE id = ?1";

pub const UPSERT_VIDEO: &'static str = "INSERT INTO videos (id, library_id, path, title, file_name, file_size, duration_secs, width, height, thumbnail_path, watched, watch_progress_secs, favorite, date_added, date_modified)
             VALUES (?1, ?2, ?3, ?4, ?5, ?6, ?7, ?8, ?9, ?10, ?11, ?12, ?13, ?14, ?15)
             ON CONFLICT(path) DO UPDATE SET
                file_size = excluded.file_size,
                date_modified = excluded.date_modified,
                duration_secs = COALESCE(excluded.duration_secs, duration_secs),
                width = COALESCE(excluded.width, width),
                height = COALESCE(excluded.height, height),
                thumbnail_path = COALESCE(excluded.thumbnail_path, thumbnail_path)";

pub const SELECT_VIDEOS: &'static str = "SELECT id, library_id, path, title, file_name, file_size, duration_secs, width, height, thumbnail_path, watched, watch_progress_secs, favorite, date_added, date_modified FROM videos ORDER BY date_added DESC";

pub const SELECT_LIBRARY_VIDEOS: &'static str = "SELECT id, library_id, path, title, file_name, file_size, duration_secs, width, height, thumbnail_path, watched, watch_progress_secs, favorite, date_added, date_modified FROM videos WHERE library_id = ?1 ORDER BY date_added DESC";

pub const SELECT_VIDEO: &'static str = "SELECT id, library_id, path, title, file_name, file_size, duration_secs, width, height, thumbnail_path, watched, watch_progress_secs, favorite, date_added, date_modified FROM videos WHERE id = ?1 LIMIT 1";

pub const DELETE_VIDEO_MEMBERSHIPS: &'static str = "DELETE FROM collection_videos WHERE video_id = ?1";

pub const DELETE_VIDEO: &'static str = "DELETE FROM videos WHERE id = ?1";

pub const SET_WATCHED: &'static str = "UPDATE videos SET watched = ?1 WHERE id = ?2";

pub const SET_PROGRESS: &'static str = "UPDATE videos SET watch_progress_secs = ?1 WHERE id = ?2";

pub const MARK_WATCHED: &'static str = "UPDATE videos SET watched = 1, watch_progress_secs = 0 WHERE id = ?1";

pub const SET_FAVORITE: &'static str = "UPDATE videos SET favorite = ?1 WHERE id = ?2";

pub const SET_THUMBNAIL: &'static str = "UPDATE videos SET thumbnail_path = ?1 WHERE id = ?2";

pub const SET_METADATA: &'static str = "UPDATE videos SET duration_secs = COALESCE(?1, duration_secs), width = COALESCE(?2, width), height = COALESCE(?3, height) WHERE id = ?4";

/// The start of the statement that removes the videos of a library but for those
/// at given paths.
pub const DELETE_OTHER_VIDEOS: &'static str = "DELETE FROM videos WHERE library_id = ?1 AND path NOT IN (";

pub const SELECT_PATHS: &'static str = "SELECT path FROM videos WHERE library_id = ?1";

pub const SELECT_VIDEOS_WITHOUT_THUMBNAIL: &'static str = "SELECT id, library_id, path, title, file_name, file_size, duration_secs, width, height, thumbnail_path, watched, watch_progress_secs, favorite, date_added, date_modified FROM videos WHERE thumbnail_path IS NULL OR thumbnail_path = '' LIMIT ?1";

pub const INSERT_COLLECTION: &'static str = "INSERT INTO collections (id, name, description, created_at) VALUES (?1, ?2, ?3, ?4)";

pub const SELECT_COLLECTIONS: &'static str = "SELECT c.id, c.name, c.description, c.cover_video_id, c.cover_image_path, c.created_at, COUNT(cv.video_id) as video_count
             FROM collections c
             LEFT JOIN collection_videos cv ON c.id = cv.collection_id
             GROUP BY c.id
             ORDER BY c.name";

pub const SELECT_COLLECTION: &'static str = "SELECT c.id, c.name, c.description, c.cover_video_id, c.cover_image_path, c.created_at, COUNT(cv.video_id) as video_count
             FROM collections c
             LEFT JOIN collection_videos cv ON c.id = cv.collection_id
             WHERE c.id = ?1
             GROUP BY c.id
             LIMIT 1";

pub const DELETE_COLLECTION_MEMBERSHIPS: &'static str = "DELETE FROM collection_videos WHERE collection_id = ?1";

pub const DELETE_COLLECTION: &'static str = "DELETE FROM collections WHERE id = ?1";

pub const SET_COVER_VIDEO: &'static str = "UPDATE collections SET cover_video_id = ?1, cover_image_path = NULL WHERE id = ?2";

pub const SET_COVER_IMAGE: &'static str = "UPDATE collections SET cover_video_id = NULL, cover_image_path = ?1 WHERE id = ?2";

pub const SELECT_NEXT_POSITION: &'static str = "SELECT COALESCE(MAX(position), -1) + 1 FROM collection_videos WHERE collection_id = ?1";

pub const INSERT_MEMBERSHIP: &'static str = "INSERT OR IGNORE INTO collection_videos (collection_id, video_id, position) VALUES (?1, ?2, ?3)";

pub const DELETE_MEMBERSHIP: &'static str = "DELETE FROM collection_videos WHERE collection_id = ?1 AND video_id = ?2";

pub const SELECT_COLLECTION_VIDEOS: &'static str = "SELECT v.id, v.library_id, v.path, v.title, v.file_name, v.file_size, v.duration_secs, v.width, v.height, v.thumbnail_path, v.watched, v.watch_progress_secs, v.favorite, v.date_added, v.date_modified
             FROM videos v
             INNER JOIN collection_videos cv ON v.id = cv.video_id
             WHERE cv.collection_id = ?1
             ORDER BY cv.position";

pub const COUNT_VIDEOS: &'static str = "SELECT COUNT(*) FROM videos";

pub const COUNT_WATCHED_VIDEOS: &'static str = "SELECT COUNT(*) FROM videos WHERE watched = 1";

pub const SUM_SIZES: &'static str = "SELECT COALESCE(SUM(file_size), 0) FROM videos";

pub const SUM_DURATIONS: &'static str = "SELECT COALESCE(SUM(duration_secs), 0) FROM videos";

pub const COUNT_LIBRARIES: &'static str = "SELECT COUNT(*) FROM libraries";

}
