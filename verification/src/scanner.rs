//! Finding videos, describing them, and what is asked of the tools that read
//! them.
use crate::double::Double;
use crate::fresh::is_moment;
use crate::fresh::is_uuid;
use crate::fresh::new_id;
use crate::fresh::now_text;
use crate::fresh::rfc3339_text;
use crate::fresh::time_text;
use crate::fresh::FileTime;
use crate::json::lemma_array_items;
use crate::json::parse_json;
use crate::json::parsed_json;
use crate::json::Json;
use crate::json::Tree;
use crate::models::is_video_extension;
use crate::models::video_extension;
use crate::models::VideoRecord;
use crate::models::VideoRecordView;
use crate::paths::clean_title;
use crate::paths::cleaned;
use crate::paths::ends_in_a_name;
use crate::paths::extension;
use crate::paths::extension_of;
use crate::paths::extension_of_name;
use crate::paths::file_name;
use crate::paths::is_title_of;
use crate::paths::last_name;
use crate::paths::law_extension_is_the_same_everywhere;
use crate::paths::law_ordinary_path_has_a_name;
use crate::paths::may_be_name;
use crate::paths::stem;
use crate::paths::stem_of;
use crate::paths::tail;
use crate::paths::title_of_name;
use crate::process::CommandLine;
use crate::process::CommandLineView;
use crate::text::print_signed;
use crate::text::same_text;
use crate::text::show_bytes;
use crate::text::shown_bytes;
use crate::text::signed_decimal;
use crate::text::text_of_bytes;
use crate::text::texts;
use crate::text::view_text;
use crate::wrapping::low_half;
use crate::wrapping::signed;
use crate::wrapping::to_low_half;
use crate::wrapping::to_signed;
use vstd::prelude::*;
use vstd::utf8::decode_utf8;
use vstd::utf8::valid_utf8;

verus! {

/// A text of characters below 128 alone.
pub open spec fn is_plain(s: Seq<char>) -> bool {
    forall|i: int| 0 <= i < s.len() ==> (#[trigger] s[i] as u32) < 128
}

/// A letter between `A` and `Z` in lower case; another character as it is.
pub open spec fn lower_char(c: char) -> char {
    if 'A' <= c && c <= 'Z' {
        ((c as u32 + 32) as u8) as char
    } else {
        c
    }
}

/// The text that `str::to_lowercase` gives for a text.
pub uninterp spec fn lowercase_text(s: Seq<char>) -> Seq<char>;

/// A text in lower case.
pub open spec fn lowered(s: Seq<char>) -> Seq<char> {
    if is_plain(s) {
        s.map_values(|c: char| lower_char(c))
    } else {
        lowercase_text(s)
    }
}

/// Calls `str::to_lowercase`.
///
/// Claimed: of a text of characters below 128, the letters from `A` to `Z` become
/// small and the rest is kept; of another text, the result depends on the text
/// alone.
#[verifier::external_body]
fn lowercase(s: &str) -> (r: String)
    ensures
        is_plain(s@) ==> r@ == s@.map_values(|c: char| lower_char(c)),
        !is_plain(s@) ==> r@ == lowercase_text(s@),
{
    s.to_lowercase()
}

/// What was met below a directory.
#[derive(Debug)]
pub struct FoundEntry {
    pub is_file: bool,
    /// What follows the last dot of its name, where it has one.
    pub extension: Option<String>,
    /// Its path, where that is a text.
    pub path: Option<String>,
}

#[verifier::ext_equal]
pub struct FoundEntryView {
    pub is_file: bool,
    pub extension: Option<Seq<char>>,
    pub path: Option<Seq<char>>,
}

impl View for FoundEntry {
    type V = FoundEntryView;

    open spec fn view(&self) -> FoundEntryView {
        FoundEntryView {
            is_file: self.is_file,
            extension: view_text(self.extension),
            path: view_text(self.path),
        }
    }
}

/// What was met at a path: its extension is that of the name that a system finds in
/// the path.
pub open spec fn is_entry_at(entry: FoundEntryView, is_file: bool, path: Seq<char>) -> bool {
    &&& entry.is_file == is_file
    &&& entry.path == Some(path)
    &&& exists|found: Option<Seq<char>>|
        #[trigger] may_be_name(path, found) && entry.extension == extension_of_name(found)
}

/// What was met at a path.
pub fn found_entry(is_file: bool, path: &str) -> (r: FoundEntry)
    ensures
        is_entry_at(r@, is_file, path@),
        ends_in_a_name(path@) && extension(tail(path@)) is Some ==> r@.extension == extension(
            tail(path@),
        ),
{
    let found = file_name(path);
    let ghost name = view_text(found);
    let extension = match &found {
        Some(name) => extension_of(name.as_str()),
        None => None,
    };
    proof {
        assert(may_be_name(path@, name));
        if ends_in_a_name(path@) && crate::paths::extension(tail(path@)) is Some {
            law_extension_is_the_same_everywhere(path@, name);
        }
    }
    FoundEntry { is_file, extension, path: Some(path.to_owned()) }
}

/// The entries in specifications.
pub open spec fn view_entries(entries: Seq<FoundEntry>) -> Seq<FoundEntryView> {
    entries.map_values(|e: FoundEntry| e@)
}

/// The path of an entry that is a video.
pub open spec fn video_path(entry: FoundEntryView) -> Option<Seq<char>> {
    match entry.extension {
        Some(extension) => if entry.is_file && is_video_extension(lowered(extension)) {
            entry.path
        } else {
            None
        },
        None => None,
    }
}

/// The paths of the entries that are videos, in their order.
pub open spec fn video_paths(entries: Seq<FoundEntryView>) -> Seq<Seq<char>>
    decreases entries.len(),
{
    if entries.len() == 0 {
        seq![]
    } else {
        match video_path(entries.last()) {
            Some(path) => video_paths(entries.drop_last()).push(path),
            None => video_paths(entries.drop_last()),
        }
    }
}

fn path_of_video(entry: &FoundEntry) -> (r: Option<String>)
    ensures
        view_text(r) == video_path(entry@),
{
    if !entry.is_file {
        return None;
    }
    match &entry.extension {
        Some(extension) => {
            if video_extension(lowercase(extension.as_str()).as_str()) {
                match &entry.path {
                    Some(path) => Some(path.clone()),
                    None => None,
                }
            } else {
                None
            }
        },
        None => None,
    }
}

/// The paths of the videos among what was met below a directory; none where the
/// directory is none.
pub fn scan_directory(is_directory: bool, entries: &Vec<FoundEntry>) -> (r: Vec<String>)
    ensures
        texts(r@) == if is_directory {
            video_paths(view_entries(entries@))
        } else {
            seq![]
        },
{
    let mut out: Vec<String> = Vec::new();
    let ghost all = view_entries(entries@);
    assert(texts(out@) =~= seq![]);
    if !is_directory {
        return out;
    }
    let mut i: usize = 0;
    assert(texts(out@) =~= video_paths(all.take(0)));
    while i < entries.len()
        invariant
            i <= entries@.len(),
            all == view_entries(entries@),
            texts(out@) == video_paths(all.take(i as int)),
        decreases entries.len() - i,
    {
        proof {
            assert(all.take(i + 1).drop_last() =~= all.take(i as int));
            assert(all.take(i + 1).last() == entries@[i as int]@);
        }
        let ghost before = out@;
        match path_of_video(&entries[i]) {
            Some(path) => {
                out.push(path);
                assert(texts(out@) =~= texts(before).push(path@));
            },
            None => {},
        }
        i += 1;
    }
    assert(all.take(all.len() as int) =~= all);
    out
}

/// Each path that a scan gives is that of a file with an extension of videos, and
/// each such file with a path is given.
pub proof fn law_scan_finds_videos(entries: Seq<FoundEntryView>, path: Seq<char>)
    ensures
        video_paths(entries).contains(path) <==> exists|i: int|
            0 <= i < entries.len() && video_path(#[trigger] entries[i]) == Some(path),
    decreases entries.len(),
{
    if entries.len() > 0 {
        let rest = entries.drop_last();
        law_scan_finds_videos(rest, path);
        let here = video_paths(entries);
        let there = video_paths(rest);
        if there.contains(path) {
            let k = there.index_of(path);
            assert(here[k] == path);
            let i = choose|i: int|
                0 <= i < rest.len() && video_path(#[trigger] rest[i]) == Some(path);
            assert(video_path(entries[i]) == Some(path));
        }
        if video_path(entries.last()) == Some(path) {
            assert(here.last() == path);
            assert(entries[entries.len() - 1] == entries.last());
        }
        if here.contains(path) && !there.contains(path) {
            let k = here.index_of(path);
            assert(k == there.len());
        }
        if exists|i: int|
            0 <= i < entries.len() && video_path(#[trigger] entries[i]) == Some(path) {
            let i = choose|i: int|
                0 <= i < entries.len() && video_path(#[trigger] entries[i]) == Some(path);
            if i < rest.len() {
                assert(rest[i] == entries[i]);
            }
        }
    }
}

/// Two files whose extensions differ in the case of letters from `A` to `Z` alone
/// are both videos or both none.
pub proof fn law_case_of_extension_is_ignored(one: Seq<char>, other: Seq<char>)
    requires
        is_plain(one),
        is_plain(other),
        one.len() == other.len(),
        forall|i: int| 0 <= i < one.len() ==> lower_char(#[trigger] one[i]) == lower_char(other[i]),
    ensures
        is_video_extension(lowered(one)) == is_video_extension(lowered(other)),
{
    assert(lowered(one) =~= lowered(other));
}

/// What the system tells of a file.
#[derive(Debug, Clone, Copy)]
pub struct FileFacts {
    pub size: u64,
    /// When it was changed, where the system tells it.
    pub modified: Option<FileTime>,
}

/// When a file was changed, in words: the present moment stands in where that is
/// not known.
pub open spec fn modified_text(modified: Option<FileTime>, now: Seq<char>) -> Seq<char> {
    match modified {
        Some(time) => rfc3339_text(time.secs, time.nanos),
        None => now,
    }
}

/// The record of a video that was not seen before.
pub open spec fn new_record(
    id: Seq<char>,
    library_id: Seq<char>,
    path: Seq<char>,
    name: Seq<char>,
    size: u64,
    added: Seq<char>,
    modified: Seq<char>,
) -> VideoRecordView {
    VideoRecordView {
        id,
        library_id,
        path,
        title: cleaned(stem(name)),
        file_name: name,
        file_size: signed(size as int) as i64,
        duration_secs: None,
        width: None,
        height: None,
        thumbnail_path: None,
        watched: 0,
        watch_progress_secs: Double { bits: 0 },
        favorite: 0,
        date_added: added,
        date_modified: modified,
    }
}

/// The record of a video that was not seen before.
pub fn describe_video(
    id: String,
    library_id: &str,
    path: &str,
    name: String,
    size: u64,
    added: String,
    modified: String,
) -> (r: VideoRecord)
    ensures
        r@ == new_record(
            id@,
            library_id@,
            path@,
            name@,
            size,
            added@,
            modified@,
        ),
{
    let title = clean_title(stem_of(name.as_str()).as_str());
    VideoRecord {
        id,
        library_id: library_id.to_owned(),
        path: path.to_owned(),
        title,
        file_name: name,
        file_size: to_signed(size),
        duration_secs: None,
        width: None,
        height: None,
        thumbnail_path: None,
        watched: 0,
        watch_progress_secs: Double { bits: 0 },
        favorite: 0,
        date_added: added,
        date_modified: modified,
    }
}

/// The record is one that a system makes of a file: it has the name that the system
/// finds in the path, and the title made of that name.
pub open spec fn is_record_of(
    video: VideoRecordView,
    path: Seq<char>,
    library_id: Seq<char>,
    facts: FileFacts,
    name: Seq<char>,
) -> bool {
    &&& is_uuid(video.id)
    &&& is_moment(video.date_added)
    &&& video == new_record(
        video.id,
        library_id,
        path,
        name,
        facts.size,
        video.date_added,
        modified_text(facts.modified, video.date_added),
    )
}

/// Describes a video that was not seen before; nothing where the system tells
/// nothing of the file, or finds no name in its path.
pub fn create_video_record(file_path: &str, library_id: &str, facts: Option<FileFacts>) -> (r:
    Option<VideoRecord>)
    requires
        facts matches Some(f) ==> f.modified matches Some(time) ==> time.has_date(),
    ensures
        exists|found: Option<Seq<char>>|
            {
                &&& #[trigger] may_be_name(file_path@, found)
                &&& match (facts, found, r) {
                    (Some(f), Some(name), Some(video)) => is_record_of(
                        video@,
                        file_path@,
                        library_id@,
                        f,
                        name,
                    ),
                    (Some(_), Some(_), None) => false,
                    (_, _, video) => video is None,
                }
            },
        facts is Some && ends_in_a_name(file_path@) ==> r is Some,
        r matches Some(video) ==> is_title_of(video@.title, file_path@) && (ends_in_a_name(
            file_path@,
        ) ==> video@.file_name == last_name(file_path@) || video@.file_name == tail(file_path@)),
{
    let found = file_name(file_path);
    let ghost seen = view_text(found);
    proof {
        assert(may_be_name(file_path@, seen));
        if ends_in_a_name(file_path@) {
            law_ordinary_path_has_a_name(file_path@, seen);
        }
    }
    match (facts, found) {
        (Some(known), Some(name)) => {
            let added = now_text();
            let modified = match known.modified {
                Some(time) => time_text(time),
                None => added.clone(),
            };
            let id = new_id();
            let video = describe_video(
                id,
                library_id,
                file_path,
                name,
                known.size,
                added,
                modified,
            );
            assert(video@.title == title_of_name(seen));
            Some(video)
        },
        _ => None,
    }
}

/// Two records of one file differ in their identifiers and in when they were added
/// alone, where the system tells when the file was changed.
pub proof fn law_same_file_same_record(
    one: VideoRecordView,
    other: VideoRecordView,
    path: Seq<char>,
    library_id: Seq<char>,
    facts: FileFacts,
    name: Seq<char>,
)
    requires
        facts.modified is Some,
        is_record_of(one, path, library_id, facts, name),
        is_record_of(other, path, library_id, facts, name),
    ensures
        other == (VideoRecordView { id: other.id, date_added: other.date_added, ..one }),
{
}

/// What a probe told of a video.
#[derive(Debug, Clone, Copy, PartialEq, Eq, Structural)]
pub struct ProbedVideoMetadata {
    pub duration_secs: Option<Double>,
    pub width: Option<i32>,
    pub height: Option<i32>,
    pub embedded_artwork_stream_index: Option<i32>,
}

impl Default for ProbedVideoMetadata {
    /// Nothing is known.
    fn default() -> (r: Self)
        ensures
            r == (ProbedVideoMetadata {
                duration_secs: None,
                width: None,
                height: None,
                embedded_artwork_stream_index: None,
            }),
    {
        ProbedVideoMetadata {
            duration_secs: None,
            width: None,
            height: None,
            embedded_artwork_stream_index: None,
        }
    }
}

/// The command that probes a video.
pub open spec fn probe_command(path: Seq<char>) -> CommandLineView {
    CommandLineView {
        program: "ffprobe"@,
        args: seq![
            "-v"@,
            "quiet"@,
            "-print_format"@,
            "json"@,
            "-show_format"@,
            "-show_streams"@,
            path,
        ],
    }
}

/// The command that probes a video. What it prints is JSON.
pub fn probe_media(file_path: &str) -> (r: CommandLine)
    ensures
        r@ == probe_command(file_path@),
{
    let r = CommandLine {
        program: "ffprobe".to_owned(),
        args: vec![
            "-v".to_owned(),
            "quiet".to_owned(),
            "-print_format".to_owned(),
            "json".to_owned(),
            "-show_format".to_owned(),
            "-show_streams".to_owned(),
            file_path.to_owned(),
        ],
    };
    assert(r@.args =~= probe_command(file_path@).args);
    r
}

/// Reads what a probe printed; nothing where that is no JSON.
pub fn read_report(stdout: Vec<u8>) -> (r: Option<Json>)
    ensures
        match r {
            Some(report) => valid_utf8(stdout@) && parsed_json(decode_utf8(stdout@)) == Some(
                report@,
            ),
            None => valid_utf8(stdout@) ==> parsed_json(decode_utf8(stdout@)) is None,
        },
{
    match text_of_bytes(stdout) {
        Some(text) => parse_json(text.as_str()),
        None => None,
    }
}

/// A stream is a picture that is attached to the video.
pub open spec fn is_picture(stream: Tree) -> bool {
    stream.at("disposition"@).at("attached_pic"@).as_int() == Some(1i64)
}

/// Whether a stream is a picture that is attached to the video.
pub fn is_attached_picture_stream(stream: &Json) -> (r: bool)
    ensures
        r == is_picture(stream@),
{
    match stream.get("disposition") {
        Some(disposition) => match disposition.int_at("attached_pic") {
            Some(n) => n == 1,
            None => false,
        },
        None => false,
    }
}

/// A number of a stream.
pub open spec fn stream_number(stream: Tree, key: Seq<char>) -> Option<i32> {
    match stream.at(key).as_int() {
        Some(n) => Some(low_half(n as int) as i32),
        None => None,
    }
}

fn read_stream_number(stream: &Json, key: &str) -> (r: Option<i32>)
    ensures
        r == stream_number(stream@, key@),
{
    match stream.int_at(key) {
        Some(n) => Some(to_low_half(n)),
        None => None,
    }
}

/// The index of a stream.
pub fn stream_index(stream: &Json) -> (r: Option<i32>)
    ensures
        r == stream_number(stream@, "index"@),
{
    read_stream_number(stream, "index")
}

/// Which stream of pictures is looked for.
#[derive(Debug, Clone, Copy, PartialEq, Eq, Structural)]
pub enum Wanted {
    /// Any.
    Any,
    /// A picture that is attached.
    Picture,
    /// One that is no attached picture.
    Film,
}

/// A stream is one that is looked for.
pub open spec fn is_wanted(stream: Tree, wanted: Wanted) -> bool {
    stream.at("codec_type"@).as_text() == Some("video"@) && match wanted {
        Wanted::Any => true,
        Wanted::Picture => is_picture(stream),
        Wanted::Film => !is_picture(stream),
    }
}

/// The first stream of a list that is looked for.
pub open spec fn first_wanted(streams: Seq<Tree>, wanted: Wanted) -> Option<Tree>
    decreases streams.len(),
{
    if streams.len() == 0 {
        None
    } else if is_wanted(streams[0], wanted) {
        Some(streams[0])
    } else {
        first_wanted(streams.drop_first(), wanted)
    }
}

/// The stream that shows the film: the first that is no attached picture, or else
/// the first of all.
pub open spec fn primary_stream(streams: Seq<Tree>) -> Option<Tree> {
    match first_wanted(streams, Wanted::Film) {
        Some(stream) => Some(stream),
        None => first_wanted(streams, Wanted::Any),
    }
}

/// A number of a stream that may be missing.
pub open spec fn number_of(stream: Option<Tree>, key: Seq<char>) -> Option<i32> {
    match stream {
        Some(s) => stream_number(s, key),
        None => None,
    }
}

/// What a probe told of a video, where its duration is known.
pub open spec fn probed(report: Option<Tree>, duration_secs: Option<Double>) -> ProbedVideoMetadata {
    match report {
        Some(tree) => {
            let streams = tree.at("streams"@).items();
            ProbedVideoMetadata {
                duration_secs,
                width: number_of(primary_stream(streams), "width"@),
                height: number_of(primary_stream(streams), "height"@),
                embedded_artwork_stream_index: number_of(
                    first_wanted(streams, Wanted::Picture),
                    "index"@,
                ),
            }
        },
        None => ProbedVideoMetadata {
            duration_secs: None,
            width: None,
            height: None,
            embedded_artwork_stream_index: None,
        },
    }
}

fn wants(stream: &Json, wanted: Wanted) -> (r: bool)
    ensures
        r == is_wanted(stream@, wanted),
{
    let is_video = match stream.text_at("codec_type") {
        Some(kind) => same_text(kind.as_str(), "video"),
        None => false,
    };
    is_video && match wanted {
        Wanted::Any => true,
        Wanted::Picture => is_attached_picture_stream(stream),
        Wanted::Film => !is_attached_picture_stream(stream),
    }
}

/// The JSON document in specifications.
pub open spec fn view_json(json: Option<&Json>) -> Option<Tree> {
    match json {
        Some(j) => Some(j@),
        None => None,
    }
}

fn find_stream(streams: &Vec<Json>, wanted: Wanted) -> (r: Option<&Json>)
    ensures
        view_json(r) == first_wanted(Json::Array(*streams)@.items(), wanted),
{
    let ghost items = Json::Array(*streams)@.items();
    proof {
        lemma_array_items(*streams);
    }
    let mut i: usize = 0;
    assert(items.skip(0) =~= items);
    while i < streams.len()
        invariant
            i <= streams@.len(),
            items == Json::Array(*streams)@.items(),
            items.len() == streams@.len(),
            forall|j: int| 0 <= j < items.len() ==> #[trigger] items[j] == streams@[j]@,
            first_wanted(items, wanted) == first_wanted(items.skip(i as int), wanted),
        decreases streams.len() - i,
    {
        let ghost rest = items.skip(i as int);
        assert(rest[0] == streams@[i as int]@);
        if wants(&streams[i], wanted) {
            return Some(&streams[i]);
        }
        assert(rest.drop_first() =~= items.skip(i + 1));
        i += 1;
    }
    None
}

/// The duration that a probe told, as it is printed.
pub fn probed_duration(report: &Json) -> (r: Option<String>)
    ensures
        view_text(r) == report@.at("format"@).at("duration"@).as_text(),
{
    match report.get("format") {
        Some(format) => format.text_at("duration"),
        None => None,
    }
}

/// What a probe told of a video. `duration_secs` is the duration that it printed,
/// as far as that is a number.
pub fn extract_metadata(report: Option<&Json>, duration_secs: Option<Double>) -> (r:
    ProbedVideoMetadata)
    ensures
        r == probed(view_json(report), duration_secs),
{
    let json = match report {
        Some(json) => json,
        None => {
            return ProbedVideoMetadata::default();
        },
    };
    match json.get("streams") {
        Some(list) => match list {
            Json::Array(streams) => {
                let film = find_stream(streams, Wanted::Film);
                let primary = match film {
                    Some(stream) => Some(stream),
                    None => find_stream(streams, Wanted::Any),
                };
                let width = match primary {
                    Some(stream) => read_stream_number(stream, "width"),
                    None => None,
                };
                let height = match primary {
                    Some(stream) => read_stream_number(stream, "height"),
                    None => None,
                };
                let artwork = match find_stream(streams, Wanted::Picture) {
                    Some(stream) => stream_index(stream),
                    None => None,
                };
                ProbedVideoMetadata {
                    duration_secs,
                    width,
                    height,
                    embedded_artwork_stream_index: artwork,
                }
            },
            _ => ProbedVideoMetadata {
                duration_secs,
                width: None,
                height: None,
                embedded_artwork_stream_index: None,
            },
        },
        None => ProbedVideoMetadata {
            duration_secs,
            width: None,
            height: None,
            embedded_artwork_stream_index: None,
        },
    }
}

/// An attached picture never gives the size of a video that has a film.
pub proof fn law_film_comes_before_pictures(streams: Seq<Tree>, i: int)
    requires
        0 <= i < streams.len(),
        is_wanted(streams[i], Wanted::Film),
    ensures
        primary_stream(streams) matches Some(stream) && is_wanted(stream, Wanted::Film),
{
    lemma_first_is_wanted(streams, Wanted::Film, i);
}

proof fn lemma_first_is_wanted(streams: Seq<Tree>, wanted: Wanted, i: int)
    requires
        0 <= i < streams.len(),
        is_wanted(streams[i], wanted),
    ensures
        first_wanted(streams, wanted) matches Some(stream) && is_wanted(stream, wanted),
    decreases streams.len(),
{
    if !is_wanted(streams[0], wanted) {
        assert(streams.drop_first()[i - 1] == streams[i]);
        lemma_first_is_wanted(streams.drop_first(), wanted, i - 1);
    }
}

/// The command that takes a picture out of a video.
pub open spec fn thumbnail_command(
    video_path: Seq<char>,
    output_path: Seq<char>,
    timestamp: Seq<char>,
) -> CommandLineView {
    CommandLineView {
        program: "ffmpeg"@,
        args: seq![
            "-y"@,
            "-ss"@,
            timestamp,
            "-i"@,
            video_path,
            "-vframes"@,
            "1"@,
            "-q:v"@,
            "3"@,
            "-vf"@,
            "scale=480:-1"@,
            output_path,
        ],
    }
}

/// The command that takes an attached picture out of a video.
pub open spec fn artwork_command(
    video_path: Seq<char>,
    output_path: Seq<char>,
    index: i32,
) -> CommandLineView {
    CommandLineView {
        program: "ffmpeg"@,
        args: seq![
            "-y"@,
            "-i"@,
            video_path,
            "-map"@,
            "0:"@ + signed_decimal(index as int),
            "-frames:v"@,
            "1"@,
            "-q:v"@,
            "3"@,
            "-vf"@,
            "scale=480:-1"@,
            output_path,
        ],
    }
}

/// The command that takes a picture out of a video, at a time that is printed with
/// two decimals.
pub fn generate_thumbnail(video_path: &str, output_path: &str, timestamp: &str) -> (r: CommandLine)
    ensures
        r@ == thumbnail_command(video_path@, output_path@, timestamp@),
{
    let r = CommandLine {
        program: "ffmpeg".to_owned(),
        args: vec![
            "-y".to_owned(),
            "-ss".to_owned(),
            timestamp.to_owned(),
            "-i".to_owned(),
            video_path.to_owned(),
            "-vframes".to_owned(),
            "1".to_owned(),
            "-q:v".to_owned(),
            "3".to_owned(),
            "-vf".to_owned(),
            "scale=480:-1".to_owned(),
            output_path.to_owned(),
        ],
    };
    assert(r@.args =~= thumbnail_command(video_path@, output_path@, timestamp@).args);
    r
}

/// The command that takes an attached picture out of a video.
pub fn extract_embedded_artwork(video_path: &str, output_path: &str, stream_index: i32) -> (r:
    CommandLine)
    ensures
        r@ == artwork_command(video_path@, output_path@, stream_index),
{
    let mut source = "0:".to_owned();
    source.append(print_signed(stream_index as i64).as_str());
    let r = CommandLine {
        program: "ffmpeg".to_owned(),
        args: vec![
            "-y".to_owned(),
            "-i".to_owned(),
            video_path.to_owned(),
            "-map".to_owned(),
            source,
            "-frames:v".to_owned(),
            "1".to_owned(),
            "-q:v".to_owned(),
            "3".to_owned(),
            "-vf".to_owned(),
            "scale=480:-1".to_owned(),
            output_path.to_owned(),
        ],
    };
    assert(r@.args =~= artwork_command(video_path@, output_path@, stream_index).args);
    r
}

/// What became of a run of ffmpeg.
#[derive(Debug)]
pub enum FfmpegRun {
    Succeeded,
    /// It failed, and printed this.
    Failed(Vec<u8>),
    /// It could not be started.
    NotStarted(String),
}

/// What is told of a run of ffmpeg that did not succeed.
pub open spec fn ffmpeg_failure(run: FfmpegRun) -> Option<Seq<char>> {
    match run {
        FfmpegRun::Succeeded => None,
        FfmpegRun::Failed(printed) => Some("ffmpeg failed: "@ + shown_bytes(printed@)),
        FfmpegRun::NotStarted(error) => Some("Failed to run ffmpeg: "@ + error@),
    }
}

/// A run of ffmpeg fails exactly if it did not succeed, and what is told ends with what
/// ffmpeg printed, or with why it was not started.
pub proof fn law_failed_run_is_told(run: FfmpegRun)
    ensures
        ffmpeg_failure(run) is None <==> run is Succeeded,
        run is Failed ==> ffmpeg_failure(run) == Some(
            "ffmpeg failed: "@ + shown_bytes(run->Failed_0@),
        ),
        run is NotStarted ==> ffmpeg_failure(run) == Some(
            "Failed to run ffmpeg: "@ + run->NotStarted_0@,
        ),
{
}

/// What is told of a run of ffmpeg.
pub fn ffmpeg_outcome(run: FfmpegRun) -> (r: Result<(), String>)
    ensures
        match run {
            FfmpegRun::Succeeded => r is Ok,
            FfmpegRun::Failed(printed) => r matches Err(e) && e@ == "ffmpeg failed: "@
                + shown_bytes(printed@),
            FfmpegRun::NotStarted(error) => r matches Err(e) && e@ == "Failed to run ffmpeg: "@
                + error@,
        },
        match r {
            Ok(_) => ffmpeg_failure(run) is None,
            Err(e) => ffmpeg_failure(run) == Some(e@),
        },
{
    match run {
        FfmpegRun::Succeeded => Ok(()),
        FfmpegRun::Failed(printed) => {
            let mut e = "ffmpeg failed: ".to_owned();
            e.append(show_bytes(printed.as_slice()).as_str());
            Err(e)
        },
        FfmpegRun::NotStarted(error) => {
            let mut e = "Failed to run ffmpeg: ".to_owned();
            e.append(error.as_str());
            Err(e)
        },
    }
}

/// A letter between `A` and `Z` becomes the small letter 32 places on; no other
/// character changes, and what was lowered stays as it is.
pub proof fn law_lower_case(c: char)
    ensures
        'A' <= c <= 'Z' ==> lower_char(c) as int == c as int + 32,
        !('A' <= c <= 'Z') ==> lower_char(c) == c,
        lower_char(lower_char(c)) == lower_char(c),
{
    if 'A' <= c && c <= 'Z' {
        let n = (c as u32 + 32) as u8;
        assert(n as char as int == n as int);
    }
}

/// An entry is taken for a video exactly if it is a file with an extension of a video,
/// and then by its own path.
pub proof fn law_entry_is_a_video(entry: FoundEntryView, path: Seq<char>)
    ensures
        video_path(entry) == Some(path) <==> entry.is_file && entry.path == Some(path)
            && entry.extension is Some && is_video_extension(lowered(entry.extension->Some_0)),
        !entry.is_file || entry.extension is None || entry.path is None ==> video_path(
            entry,
        ) is None,
{
}

/// The videos are found in the order of the entries: those of one entry and then others
/// are its path, where it is a video, and then theirs.
pub proof fn law_videos_are_found_in_order(entry: FoundEntryView, rest: Seq<FoundEntryView>)
    ensures
        video_paths(seq![entry] + rest) == match video_path(entry) {
            Some(path) => seq![path] + video_paths(rest),
            None => video_paths(rest),
        },
    decreases rest.len(),
{
    let all = seq![entry] + rest;
    let expected = match video_path(entry) {
        Some(path) => seq![path] + video_paths(rest),
        None => video_paths(rest),
    };
    if rest.len() == 0 {
        reveal_with_fuel(video_paths, 2);
        assert(all.drop_last() =~= Seq::<FoundEntryView>::empty());
        assert(all.last() == entry);
        assert(video_paths(all) =~= expected);
    } else {
        law_videos_are_found_in_order(entry, rest.drop_last());
        assert(all.drop_last() =~= seq![entry] + rest.drop_last());
        assert(all.last() == rest.last());
        assert(video_paths(all) =~= expected);
    }
}

/// The record of a new video has the path, the library, the name and the size of the
/// file, its date of change where the system tells it, and nothing that only a probe or
/// the user could tell.
pub proof fn law_record_describes_the_file(
    video: VideoRecordView,
    path: Seq<char>,
    library_id: Seq<char>,
    facts: FileFacts,
    name: Seq<char>,
)
    requires
        is_record_of(video, path, library_id, facts, name),
    ensures
        video.path == path,
        video.library_id == library_id,
        video.file_name == name,
        video.title == cleaned(stem(name)),
        facts.size <= i64::MAX ==> video.file_size == facts.size,
        (facts.size - video.file_size) % 0x1_0000_0000_0000_0000 == 0,
        facts.modified matches Some(time) ==> video.date_modified == rfc3339_text(
            time.secs,
            time.nanos,
        ),
        facts.modified is None ==> video.date_modified == video.date_added,
        video.duration_secs is None && video.width is None && video.height is None,
        video.thumbnail_path is None,
        video.watched == 0 && video.favorite == 0,
        video.watch_progress_secs == (Double { bits: 0 }),
        is_uuid(video.id),
        is_moment(video.date_added),
{
}

/// The number that a stream tells under a key: the one that is there, as far as it fits,
/// and the one that it wraps to otherwise; none where no integer is there.
pub proof fn law_stream_number(stream: Tree, key: Seq<char>)
    ensures
        match stream_number(stream, key) {
            Some(n) => stream.at(key) is Number && (stream.at(key)->Number_0 matches Some(whole) && (
            whole - n) % 0x1_0000_0000 == 0 && (i32::MIN <= whole <= i32::MAX ==> n == whole)),
            None => !(stream.at(key) is Number) || stream.at(key)->Number_0 is None,
        },
{
}

/// A stream of pictures in a report, by what it says of itself.
pub open spec fn says_video(stream: Tree) -> bool {
    stream.at("codec_type"@) == Tree::Text("video"@)
}

/// A stream says that it is an attached picture.
pub open spec fn says_attached(stream: Tree) -> bool {
    stream.at("disposition"@).at("attached_pic"@) matches Tree::Number(Some(n), _) && n == 1
}

proof fn lemma_first_wanted_at(streams: Seq<Tree>, wanted: Wanted, i: int)
    requires
        0 <= i < streams.len(),
        is_wanted(streams[i], wanted),
        forall|j: int| 0 <= j < i ==> !is_wanted(#[trigger] streams[j], wanted),
    ensures
        first_wanted(streams, wanted) == Some(streams[i]),
    decreases i,
{
    if i > 0 {
        let rest = streams.drop_first();
        assert(!is_wanted(streams[0], wanted));
        assert(rest[i - 1] == streams[i]);
        assert forall|j: int| 0 <= j < i - 1 implies !is_wanted(#[trigger] rest[j], wanted) by {
            assert(rest[j] == streams[j + 1]);
        }
        lemma_first_wanted_at(rest, wanted, i - 1);
    }
}

proof fn lemma_none_wanted(streams: Seq<Tree>, wanted: Wanted)
    requires
        forall|j: int| 0 <= j < streams.len() ==> !is_wanted(#[trigger] streams[j], wanted),
    ensures
        first_wanted(streams, wanted) is None,
    decreases streams.len(),
{
    if streams.len() > 0 {
        let rest = streams.drop_first();
        assert(!is_wanted(streams[0], wanted));
        assert forall|j: int| 0 <= j < rest.len() implies !is_wanted(#[trigger] rest[j], wanted) by {
            assert(rest[j] == streams[j + 1]);
        }
        lemma_none_wanted(rest, wanted);
    }
}

/// The width and the height of a video are those of the first video stream that is no
/// attached picture, whatever other streams the report lists.
pub proof fn law_size_is_that_of_the_film(
    report: Tree,
    streams: Seq<Tree>,
    duration_secs: Option<Double>,
    i: int,
)
    requires
        report.at("streams"@) == Tree::Array(streams),
        0 <= i < streams.len(),
        says_video(streams[i]) && !says_attached(streams[i]),
        forall|j: int|
            0 <= j < i ==> !says_video(#[trigger] streams[j]) || says_attached(streams[j]),
    ensures
        probed(Some(report), duration_secs).width == stream_number(streams[i], "width"@),
        probed(Some(report), duration_secs).height == stream_number(streams[i], "height"@),
        probed(Some(report), duration_secs).duration_secs == duration_secs,
{
    assert forall|j: int| 0 <= j < i implies !is_wanted(#[trigger] streams[j], Wanted::Film) by {
        assert(!says_video(streams[j]) || says_attached(streams[j]));
    }
    lemma_first_wanted_at(streams, Wanted::Film, i);
}

/// Where a report lists attached pictures alone, the first of them gives the width and
/// the height.
pub proof fn law_picture_stands_in_for_a_film(
    report: Tree,
    streams: Seq<Tree>,
    duration_secs: Option<Double>,
    i: int,
)
    requires
        report.at("streams"@) == Tree::Array(streams),
        0 <= i < streams.len(),
        says_video(streams[i]),
        forall|j: int| 0 <= j < i ==> !says_video(#[trigger] streams[j]),
        forall|j: int|
            0 <= j < streams.len() && says_video(#[trigger] streams[j]) ==> says_attached(streams[j]),
    ensures
        probed(Some(report), duration_secs).width == stream_number(streams[i], "width"@),
        probed(Some(report), duration_secs).height == stream_number(streams[i], "height"@),
{
    assert forall|j: int| 0 <= j < streams.len() implies !is_wanted(
        #[trigger] streams[j],
        Wanted::Film,
    ) by {
        assert(says_video(streams[j]) ==> says_attached(streams[j]));
    }
    lemma_none_wanted(streams, Wanted::Film);
    assert forall|j: int| 0 <= j < i implies !is_wanted(#[trigger] streams[j], Wanted::Any) by {
        assert(!says_video(streams[j]));
    }
    lemma_first_wanted_at(streams, Wanted::Any, i);
}

/// The embedded artwork is the first attached picture, by its index; there is none where
/// the report lists none.
pub proof fn law_artwork_is_the_first_picture(
    report: Tree,
    streams: Seq<Tree>,
    duration_secs: Option<Double>,
    i: int,
)
    requires
        report.at("streams"@) == Tree::Array(streams),
    ensures
        0 <= i < streams.len() && says_video(streams[i]) && says_attached(streams[i]) && (forall|
            j: int,
        |
            0 <= j < i ==> !says_video(#[trigger] streams[j]) || !says_attached(streams[j]))
            ==> probed(Some(report), duration_secs).embedded_artwork_stream_index == stream_number(
            streams[i],
            "index"@,
        ),
        (forall|j: int|
            0 <= j < streams.len() ==> !says_video(#[trigger] streams[j]) || !says_attached(
                streams[j],
            )) ==> probed(Some(report), duration_secs).embedded_artwork_stream_index is None,
{
    if 0 <= i < streams.len() && says_video(streams[i]) && says_attached(streams[i]) && (forall|
        j: int,
    |
        0 <= j < i ==> !says_video(#[trigger] streams[j]) || !says_attached(streams[j])) {
        assert forall|j: int| 0 <= j < i implies !is_wanted(#[trigger] streams[j], Wanted::Picture) by {
            assert(!says_video(streams[j]) || !says_attached(streams[j]));
        }
        lemma_first_wanted_at(streams, Wanted::Picture, i);
    }
    if forall|j: int|
        0 <= j < streams.len() ==> !says_video(#[trigger] streams[j]) || !says_attached(streams[j]) {
        assert forall|j: int| 0 <= j < streams.len() implies !is_wanted(
            #[trigger] streams[j],
            Wanted::Picture,
        ) by {
            assert(!says_video(streams[j]) || !says_attached(streams[j]));
        }
        lemma_none_wanted(streams, Wanted::Picture);
    }
}

/// Without video streams a report tells no size and no artwork, and without a report
/// nothing is known at all.
pub proof fn law_nothing_is_made_up(
    report: Tree,
    streams: Seq<Tree>,
    duration_secs: Option<Double>,
)
    requires
        report.at("streams"@).items() == streams,
        forall|j: int| 0 <= j < streams.len() ==> !says_video(#[trigger] streams[j]),
    ensures
        probed(Some(report), duration_secs).width is None,
        probed(Some(report), duration_secs).height is None,
        probed(Some(report), duration_secs).embedded_artwork_stream_index is None,
        probed(Some(report), duration_secs).duration_secs == duration_secs,
        probed(None, duration_secs).duration_secs is None,
        probed(None, duration_secs).width is None,
        probed(None, duration_secs).height is None,
        probed(None, duration_secs).embedded_artwork_stream_index is None,
{
    assert forall|j: int| 0 <= j < streams.len() implies !is_wanted(#[trigger] streams[j], Wanted::Any)
        && !is_wanted(streams[j], Wanted::Film) && !is_wanted(streams[j], Wanted::Picture) by {
        assert(!says_video(streams[j]));
    }
    lemma_none_wanted(streams, Wanted::Any);
    lemma_none_wanted(streams, Wanted::Film);
    lemma_none_wanted(streams, Wanted::Picture);
}

/// The tools read the file that is asked for, and write where they are told: a probe ends
/// with the path; ffmpeg gets the path behind `-i` and ends with the output, a thumbnail
/// is taken at the time behind `-ss`, and artwork from the stream behind `-map`.
pub proof fn law_tools_get_their_paths(
    video_path: Seq<char>,
    output_path: Seq<char>,
    timestamp: Seq<char>,
    index: i32,
)
    ensures
        probe_command(video_path).program == "ffprobe"@,
        probe_command(video_path).args.len() == 7,
        probe_command(video_path).args.last() == video_path,
        probe_command(video_path).args.take(6) == seq![
            "-v"@,
            "quiet"@,
            "-print_format"@,
            "json"@,
            "-show_format"@,
            "-show_streams"@,
        ],
        thumbnail_command(video_path, output_path, timestamp).program == "ffmpeg"@,
        ({
            let args = thumbnail_command(video_path, output_path, timestamp).args;
            &&& args.len() == 12
            &&& args[1] == "-ss"@ && args[2] == timestamp
            &&& args[3] == "-i"@ && args[4] == video_path
            &&& args.last() == output_path
            &&& args[0] == "-y"@ && args[5] == "-vframes"@ && args[6] == "1"@
            &&& args[7] == "-q:v"@ && args[8] == "3"@ && args[9] == "-vf"@ && args[10]
                == "scale=480:-1"@
        }),
        artwork_command(video_path, output_path, index).program == "ffmpeg"@,
        ({
            let args = artwork_command(video_path, output_path, index).args;
            &&& args.len() == 12
            &&& args[1] == "-i"@ && args[2] == video_path
            &&& args[3] == "-map"@ && args[4] == "0:"@ + signed_decimal(index as int)
            &&& args.last() == output_path
            &&& args[0] == "-y"@ && args[5] == "-frames:v"@ && args[6] == "1"@
            &&& args[7] == "-q:v"@ && args[8] == "3"@ && args[9] == "-vf"@ && args[10]
                == "scale=480:-1"@
        }),
{
}

/// In specifications what was met keeps its order and its fields.
pub proof fn law_entries_in_specifications(entries: Seq<FoundEntry>, i: int)
    requires
        0 <= i < entries.len(),
    ensures
        view_entries(entries).len() == entries.len(),
        view_entries(entries)[i].is_file == entries[i].is_file,
        view_entries(entries)[i].extension is Some <==> entries[i].extension is Some,
        entries[i].extension matches Some(extension) ==> view_entries(entries)[i].extension == Some(
            extension@,
        ),
        view_entries(entries)[i].path is Some <==> entries[i].path is Some,
        entries[i].path matches Some(path) ==> view_entries(entries)[i].path == Some(path@),
{
}

/// A new video is described by what is given, has not been watched and is no favourite,
/// and tells nothing that only a probe could tell.
pub proof fn law_new_video_is_as_given(
    id: Seq<char>,
    library_id: Seq<char>,
    path: Seq<char>,
    name: Seq<char>,
    size: u64,
    added: Seq<char>,
    modified: Seq<char>,
)
    ensures
        ({
            let video = new_record(id, library_id, path, name, size, added, modified);
            &&& video.id == id
            &&& video.library_id == library_id
            &&& video.path == path
            &&& video.file_name == name
            &&& video.title == cleaned(stem(name))
            &&& size <= i64::MAX ==> video.file_size == size
            &&& (size - video.file_size) % 0x1_0000_0000_0000_0000 == 0
            &&& video.date_added == added
            &&& video.date_modified == modified
            &&& video.watched == 0
            &&& video.favorite == 0
            &&& video.watch_progress_secs == (Double { bits: 0 })
            &&& video.duration_secs is None
            &&& video.width is None
            &&& video.height is None
            &&& video.thumbnail_path is None
        }),
{
}

/// What was met at a path that ends in a name has that path, is a file where one was met,
/// and has the extension of the name.
pub proof fn law_entry_is_that_of_its_path(
    entry: FoundEntryView,
    is_file: bool,
    path: Seq<char>,
)
    requires
        is_entry_at(entry, is_file, path),
        ends_in_a_name(path),
        extension(tail(path)) is Some,
    ensures
        entry.is_file == is_file,
        entry.path == Some(path),
        entry.extension == extension(tail(path)),
{
    let found = choose|found: Option<Seq<char>>| #[trigger]
        may_be_name(path, found) && entry.extension == extension_of_name(found);
    law_extension_is_the_same_everywhere(path, found);
}

}
