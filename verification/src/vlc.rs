//! Playing a video in VLC: finding the program, starting it, and asking it over
//! HTTP how far it is.
use crate::double::Double;
use crate::encoding::base64_text;
use crate::encoding::encode_base64;
use crate::encoding::fits_encoded;
use crate::fresh::is_simple_uuid;
use crate::fresh::new_simple_id;
use crate::paths::may_be_path_in;
use crate::paths::path_in;
use crate::platform::Platform;
use crate::progress::is_resumable;
use crate::progress::resumable;
use crate::text::begins_with;
use crate::text::chars_of;
use crate::text::contains_text;
use crate::text::decimal;
use crate::text::find_from;
use crate::text::first_occurrence;
use crate::text::has_prefix;
use crate::text::has_text;
use crate::text::joined;
use crate::text::law_first_occurrence_is_least;
use crate::text::occurs_at;
use crate::text::pieces;
use crate::text::print_decimal;
use crate::text::print_signed;
use crate::text::same_text;
use crate::text::show_bytes;
use crate::text::shown_bytes;
use crate::text::signed_decimal;
use crate::text::split_at_first;
use crate::text::split_once;
use crate::text::split_pieces;
use crate::text::text_of;
use crate::text::texts;
use crate::text::trim;
use crate::text::trimmed;
use crate::text::view_text;
use vstd::prelude::*;
use vstd::utf8::encode_utf8;

verus! {

/// How long VLC may take to answer the first time, in milliseconds.
pub const HTTP_READY_MILLIS: u64 = 6000;

/// How long is waited between two attempts, in milliseconds.
pub const HTTP_RETRY_MILLIS: u64 = 250;

/// How long one attempt may take, in milliseconds.
pub const HTTP_CONNECT_MILLIS: u64 = 750;

/// The tag that opens an element.
pub open spec fn open_tag(tag: Seq<char>) -> Seq<char> {
    "<"@ + tag + ">"@
}

/// The tag that closes an element.
pub open spec fn close_tag(tag: Seq<char>) -> Seq<char> {
    "</"@ + tag + ">"@
}

/// The content of the first element `tag`, without white space around it:
/// what stands between the first tag that opens it and the next one that closes
/// it.
pub open spec fn element(body: Seq<char>, tag: Seq<char>) -> Option<Seq<char>> {
    match first_occurrence(body, open_tag(tag), 0) {
        Some(opened) => {
            let start = opened + open_tag(tag).len();
            match first_occurrence(body, close_tag(tag), start) {
                Some(end) => Some(trimmed(body.subrange(start, end))),
                None => None,
            }
        },
        None => None,
    }
}

/// The content of the first element `tag` in a document.
pub fn extract_xml_tag(body: &str, tag: &str) -> (r: Option<String>)
    ensures
        view_text(r) == element(body@, tag@),
{
    let mut opening = joined("<", tag);
    opening.append(">");
    let mut closing = joined("</", tag);
    closing.append(">");
    let chars = chars_of(body);
    let opening = chars_of(opening.as_str());
    let closing = chars_of(closing.as_str());
    match find_from(&chars, &opening, 0) {
        Some(opened) => {
            let end_of_text: usize = chars.len();
            assert(opened + opening@.len() <= end_of_text);
            let start: usize = opened + opening.len();
            match find_from(&chars, &closing, start) {
                Some(end) => {
                    let content = text_of(&chars, start, end);
                    Some(trim(content.as_str()))
                },
                None => None,
            }
        },
        None => None,
    }
}

/// What stands between the first tag that opens an element and the next that
/// closes it is read, whatever else the document holds.
pub proof fn law_element_is_read(
    before: Seq<char>,
    tag: Seq<char>,
    content: Seq<char>,
    after: Seq<char>,
)
    requires
        ({
            let body = before + open_tag(tag) + content + close_tag(tag) + after;
            let start = before.len() + open_tag(tag).len();
            &&& forall|j: int| 0 <= j < before.len() ==> !#[trigger] occurs_at(body, open_tag(tag), j)
            &&& forall|j: int|
                start <= j < start + content.len() ==> !#[trigger] occurs_at(
                    body,
                    close_tag(tag),
                    j,
                )
        }),
    ensures
        element(before + open_tag(tag) + content + close_tag(tag) + after, tag) == Some(
            trimmed(content),
        ),
{
    let body = before + open_tag(tag) + content + close_tag(tag) + after;
    let opened = before.len() as int;
    let start = opened + open_tag(tag).len();
    let end = start + content.len();
    assert(body.subrange(opened, start) =~= open_tag(tag));
    assert(body.subrange(end, end + close_tag(tag).len()) =~= close_tag(tag));
    assert(body.subrange(start, end) =~= content);
    law_first_occurrence_is_least(body, open_tag(tag), 0, opened);
    law_first_occurrence_is_least(body, close_tag(tag), start, end);
}

/// The credentials that VLC is asked with: a password and no name.
pub open spec fn credentials(password: Seq<char>) -> Seq<char> {
    ":"@ + password
}

/// The request for what VLC is doing.
pub open spec fn status_request_text(port: u16, password: Seq<char>) -> Seq<char> {
    "GET /requests/status.xml HTTP/1.1\r\nHost: 127.0.0.1:"@ + decimal(port as nat)
        + "\r\nAuthorization: Basic "@ + base64_text(encode_utf8(credentials(password)))
        + "\r\nConnection: close\r\n\r\n"@
}

/// The request for what VLC is doing.
pub fn status_request(port: u16, password: &str) -> (r: String)
    requires
        fits_encoded(encode_utf8(credentials(password@)).len()),
    ensures
        r@ == status_request_text(port, password@),
{
    let user = joined(":", password);
    let auth = encode_base64(user.as_str().as_bytes());
    let mut out = "GET /requests/status.xml HTTP/1.1\r\nHost: 127.0.0.1:".to_owned();
    let printed = print_decimal(port as u64);
    out.append(printed.as_str());
    out.append("\r\nAuthorization: Basic ");
    out.append(auth.as_str());
    out.append("\r\nConnection: close\r\n\r\n");
    out
}

/// What VLC says it is doing, in its own words: the position and the length in
/// seconds, and the state.
#[derive(Debug)]
pub struct VlcReply {
    pub time: Option<String>,
    pub length: Option<String>,
    pub state: String,
}

#[verifier::ext_equal]
pub struct VlcReplyView {
    pub time: Option<Seq<char>>,
    pub length: Option<Seq<char>>,
    pub state: Seq<char>,
}

impl View for VlcReply {
    type V = VlcReplyView;

    open spec fn view(&self) -> VlcReplyView {
        VlcReplyView {
            time: view_text(self.time),
            length: view_text(self.length),
            state: self.state@,
        }
    }
}

/// The state that a document tells.
pub open spec fn state_of(body: Seq<char>) -> Seq<char> {
    match element(body, "state"@) {
        Some(state) => state,
        None => "unknown"@,
    }
}

/// What a response says, or why it is not used: it has no end of headers, its
/// status is not that of success, or its document is not one of VLC.
pub open spec fn reply_in(response: Seq<char>) -> Result<VlcReplyView, Seq<char>> {
    match split_at_first(response, "\r\n\r\n"@) {
        None => Err("Invalid VLC HTTP response"@),
        Some((headers, body)) => if !begins_with(headers, "HTTP/1.1 200"@) && !begins_with(
            headers,
            "HTTP/1.0 200"@,
        ) {
            Err("VLC HTTP interface is not ready"@)
        } else if state_of(body) == "unknown"@ && !contains_text(body, "<root>"@) {
            Err("Unexpected VLC HTTP payload"@)
        } else {
            Ok(
                VlcReplyView {
                    time: element(body, "time"@),
                    length: element(body, "length"@),
                    state: state_of(body),
                },
            )
        },
    }
}

/// Reads the response of VLC.
pub fn query_vlc_status(response: &str) -> (r: Result<VlcReply, String>)
    ensures
        match r {
            Ok(reply) => reply_in(response@) == Ok::<VlcReplyView, Seq<char>>(reply@),
            Err(e) => reply_in(response@) == Err::<VlcReplyView, Seq<char>>(e@),
        },
{
    let (headers, body) = match split_once(response, "\r\n\r\n") {
        Some(halves) => halves,
        None => {
            return Err("Invalid VLC HTTP response".to_owned());
        },
    };
    if !has_prefix(headers.as_str(), "HTTP/1.1 200") && !has_prefix(
        headers.as_str(),
        "HTTP/1.0 200",
    ) {
        return Err("VLC HTTP interface is not ready".to_owned());
    }
    let time = extract_xml_tag(body.as_str(), "time");
    let length = extract_xml_tag(body.as_str(), "length");
    let state = match extract_xml_tag(body.as_str(), "state") {
        Some(state) => state,
        None => "unknown".to_owned(),
    };
    if same_text(state.as_str(), "unknown") && !has_text(body.as_str(), "<root>") {
        return Err("Unexpected VLC HTTP payload".to_owned());
    }
    Ok(VlcReply { time, length, state })
}

/// How waiting for VLC goes on.
#[derive(Debug, Clone, Copy, PartialEq, Eq, Structural)]
pub enum VlcWait {
    /// It has answered.
    Ready,
    /// Ask it, and wait a little where it does not answer.
    Ask,
    /// It took too long.
    GiveUp,
}

/// How waiting for VLC goes on, so long after it began.
pub open spec fn vlc_wait(answered: bool, elapsed_millis: u64) -> VlcWait {
    if answered {
        VlcWait::Ready
    } else if elapsed_millis < HTTP_READY_MILLIS {
        VlcWait::Ask
    } else {
        VlcWait::GiveUp
    }
}

/// VLC is ready exactly if it has answered; otherwise it is asked for six seconds, and
/// not for longer.
pub proof fn law_vlc_is_waited_for(answered: bool, elapsed_millis: u64)
    ensures
        vlc_wait(answered, elapsed_millis) == VlcWait::Ready <==> answered,
        vlc_wait(answered, elapsed_millis) == VlcWait::Ask <==> !answered && elapsed_millis < 6000,
        vlc_wait(answered, elapsed_millis) == VlcWait::GiveUp <==> !answered && elapsed_millis
            >= 6000,
{
}

/// Decides whether VLC is asked (again): `elapsed_millis` after waiting began,
/// with `answered` telling whether it has answered.
pub fn wait_for_vlc_http(answered: bool, elapsed_millis: u64) -> (r: VlcWait)
    ensures
        r == vlc_wait(answered, elapsed_millis),
{
    if answered {
        VlcWait::Ready
    } else if elapsed_millis < HTTP_READY_MILLIS {
        VlcWait::Ask
    } else {
        VlcWait::GiveUp
    }
}

/// A place where VLC may be.
#[derive(Debug)]
pub enum VlcPlace {
    /// A file.
    File(String),
    /// A value of the registry that names the program, or the directory in which
    /// `binary` is.
    Registry { key: String, value_name: Option<String>, binary: Option<String> },
    /// A program of the search path.
    SearchPath(String),
}

pub enum VlcPlaceView {
    File(Seq<char>),
    Registry { key: Seq<char>, value_name: Option<Seq<char>>, binary: Option<Seq<char>> },
    SearchPath(Seq<char>),
}

impl View for VlcPlace {
    type V = VlcPlaceView;

    open spec fn view(&self) -> VlcPlaceView {
        match *self {
            VlcPlace::File(path) => VlcPlaceView::File(path@),
            VlcPlace::Registry { key, value_name, binary } => VlcPlaceView::Registry {
                key: key@,
                value_name: view_text(value_name),
                binary: view_text(binary),
            },
            VlcPlace::SearchPath(binary) => VlcPlaceView::SearchPath(binary@),
        }
    }
}

/// A registry key whose default value is the program.
pub open spec fn registry_default(key: Seq<char>) -> VlcPlaceView {
    VlcPlaceView::Registry { key, value_name: None, binary: None }
}

/// The places where VLC may be, in the order in which they are tried.
pub open spec fn vlc_places(platform: Platform) -> Seq<VlcPlaceView> {
    match platform {
        Platform::Windows => seq![
            VlcPlaceView::File("C:\\Program Files\\VideoLAN\\VLC\\vlc.exe"@),
            VlcPlaceView::File("C:\\Program Files (x86)\\VideoLAN\\VLC\\vlc.exe"@),
            registry_default(
                "HKLM\\SOFTWARE\\Microsoft\\Windows\\CurrentVersion\\App Paths\\vlc.exe"@,
            ),
            registry_default(
                "HKCU\\SOFTWARE\\Microsoft\\Windows\\CurrentVersion\\App Paths\\vlc.exe"@,
            ),
            registry_default("HKLM\\SOFTWARE\\VideoLAN\\VLC"@),
            VlcPlaceView::Registry {
                key: "HKLM\\SOFTWARE\\VideoLAN\\VLC"@,
                value_name: Some("InstallDir"@),
                binary: Some("vlc.exe"@),
            },
            VlcPlaceView::SearchPath("vlc.exe"@),
        ],
        Platform::MacOs => seq![
            VlcPlaceView::File("/Applications/VLC.app/Contents/MacOS/VLC"@),
            VlcPlaceView::SearchPath("vlc"@),
        ],
        Platform::Linux => seq![VlcPlaceView::SearchPath("vlc"@)],
    }
}

/// How the search for VLC goes on.
#[derive(Debug)]
pub enum VlcSearch {
    /// Look here.
    Try(VlcPlace),
    /// It is here.
    Found(String),
    /// It is nowhere.
    Missing,
}

/// The first path that was found, among the outcomes of the places tried so far.
pub open spec fn first_found(outcomes: Seq<Option<Seq<char>>>) -> Option<Seq<char>>
    decreases outcomes.len(),
{
    if outcomes.len() == 0 {
        None
    } else if outcomes[0] is Some {
        outcomes[0]
    } else {
        first_found(outcomes.drop_first())
    }
}

/// The outcomes in specifications.
pub open spec fn view_outcomes(outcomes: Seq<Option<String>>) -> Seq<Option<Seq<char>>> {
    outcomes.map_values(|o: Option<String>| view_text(o))
}

fn registry_place(key: &str) -> (r: VlcPlace)
    ensures
        r@ == registry_default(key@),
{
    VlcPlace::Registry { key: key.to_owned(), value_name: None, binary: None }
}

/// The place that is tried as the one with number `i`.
fn vlc_place(platform: Platform, i: usize) -> (r: Option<VlcPlace>)
    ensures
        match r {
            Some(place) => i < vlc_places(platform).len() && place@ == vlc_places(
                platform,
            )[i as int],
            None => i >= vlc_places(platform).len(),
        },
{
    match platform {
        Platform::Windows => if i == 0 {
            Some(VlcPlace::File("C:\\Program Files\\VideoLAN\\VLC\\vlc.exe".to_owned()))
        } else if i == 1 {
            Some(VlcPlace::File("C:\\Program Files (x86)\\VideoLAN\\VLC\\vlc.exe".to_owned()))
        } else if i == 2 {
            Some(
                registry_place(
                    "HKLM\\SOFTWARE\\Microsoft\\Windows\\CurrentVersion\\App Paths\\vlc.exe",
                ),
            )
        } else if i == 3 {
            Some(
                registry_place(
                    "HKCU\\SOFTWARE\\Microsoft\\Windows\\CurrentVersion\\App Paths\\vlc.exe",
                ),
            )
        } else if i == 4 {
            Some(registry_place("HKLM\\SOFTWARE\\VideoLAN\\VLC"))
        } else if i == 5 {
            Some(
                VlcPlace::Registry {
                    key: "HKLM\\SOFTWARE\\VideoLAN\\VLC".to_owned(),
                    value_name: Some("InstallDir".to_owned()),
                    binary: Some("vlc.exe".to_owned()),
                },
            )
        } else if i == 6 {
            Some(VlcPlace::SearchPath("vlc.exe".to_owned()))
        } else {
            None
        },
        Platform::MacOs => if i == 0 {
            Some(VlcPlace::File("/Applications/VLC.app/Contents/MacOS/VLC".to_owned()))
        } else if i == 1 {
            Some(VlcPlace::SearchPath("vlc".to_owned()))
        } else {
            None
        },
        Platform::Linux => if i == 0 {
            Some(VlcPlace::SearchPath("vlc".to_owned()))
        } else {
            None
        },
    }
}

/// Searches for VLC: given what was found at each place tried so far, tells where
/// to look next, or what the search came to. The first place at which it is found
/// counts.
pub fn find_vlc_path(platform: Platform, outcomes: &Vec<Option<String>>) -> (r: VlcSearch)
    ensures
        match r {
            VlcSearch::Found(path) => first_found(view_outcomes(outcomes@)) == Some(path@),
            VlcSearch::Try(place) => first_found(view_outcomes(outcomes@)) is None
                && outcomes@.len() < vlc_places(platform).len() && place@ == vlc_places(
                platform,
            )[outcomes@.len() as int],
            VlcSearch::Missing => first_found(view_outcomes(outcomes@)) is None && outcomes@.len()
                >= vlc_places(platform).len(),
        },
{
    let ghost all = view_outcomes(outcomes@);
    let mut i: usize = 0;
    assert(all.skip(0) =~= all);
    while i < outcomes.len()
        invariant
            i <= outcomes@.len(),
            all == view_outcomes(outcomes@),
            first_found(all) == first_found(all.skip(i as int)),
        decreases outcomes.len() - i,
    {
        assert(all.skip(i as int)[0] == view_text(outcomes@[i as int]));
        match &outcomes[i] {
            Some(path) => {
                return VlcSearch::Found(path.clone());
            },
            None => {},
        }
        assert(all.skip(i as int).drop_first() =~= all.skip(i + 1));
        i += 1;
    }
    match vlc_place(platform, outcomes.len()) {
        Some(place) => VlcSearch::Try(place),
        None => VlcSearch::Missing,
    }
}

/// The first candidate that exists, as far as that was asked.
pub open spec fn first_existing_in(candidates: Seq<Seq<char>>, exist: Seq<bool>) -> Option<Seq<char>>
    decreases candidates.len(),
{
    if candidates.len() == 0 || exist.len() == 0 {
        None
    } else if exist[0] {
        Some(candidates[0])
    } else {
        first_existing_in(candidates.drop_first(), exist.drop_first())
    }
}

/// The first candidate that exists: `exist` tells it of each, in their order, as
/// far as it was asked.
pub fn first_existing(candidates: &Vec<String>, exist: &Vec<bool>) -> (r: Option<String>)
    ensures
        view_text(r) == first_existing_in(texts(candidates@), exist@),
{
    let ghost all = texts(candidates@);
    let mut i: usize = 0;
    assert(all.skip(0) =~= all);
    assert(exist@.skip(0) =~= exist@);
    while i < candidates.len() && i < exist.len()
        invariant
            i <= candidates@.len(),
            i <= exist@.len(),
            all == texts(candidates@),
            first_existing_in(all, exist@) == first_existing_in(
                all.skip(i as int),
                exist@.skip(i as int),
            ),
        decreases candidates.len() - i,
    {
        assert(all.skip(i as int)[0] == candidates@[i as int]@);
        assert(exist@.skip(i as int)[0] == exist@[i as int]);
        if exist[i] {
            return Some(candidates[i].clone());
        }
        assert(all.skip(i as int).drop_first() =~= all.skip(i + 1));
        assert(exist@.skip(i as int).drop_first() =~= exist@.skip(i + 1));
        i += 1;
    }
    None
}

/// The candidate that is found is the first that exists, and one is found wherever
/// one exists.
pub proof fn law_first_existing_is_least(candidates: Seq<Seq<char>>, exist: Seq<bool>)
    requires
        exist.len() <= candidates.len(),
    ensures
        match first_existing_in(candidates, exist) {
            Some(path) => exists|k: int|
                0 <= k < exist.len() && #[trigger] exist[k] && path == candidates[k] && (forall|j:
                    int|
                    0 <= j < k ==> !#[trigger] exist[j]),
            None => forall|j: int| 0 <= j < exist.len() ==> !#[trigger] exist[j],
        },
    decreases exist.len(),
{
    if exist.len() > 0 {
        let rest = exist.drop_first();
        let names = candidates.drop_first();
        if exist[0] {
            assert(exist[0] && candidates[0] == first_existing_in(candidates, exist)->Some_0);
        } else {
            law_first_existing_is_least(names, rest);
            assert forall|j: int| 1 <= j < exist.len() implies #[trigger] exist[j] == rest[j - 1] by {}
            match first_existing_in(names, rest) {
                Some(path) => {
                    let k = choose|k: int|
                        0 <= k < rest.len() && #[trigger] rest[k] && path == names[k] && (forall|j:
                            int|
                            0 <= j < k ==> !#[trigger] rest[j]);
                    assert(exist[k + 1] && path == candidates[k + 1]);
                    assert forall|j: int| 0 <= j < k + 1 implies !#[trigger] exist[j] by {
                        if j > 0 {
                            assert(!rest[j - 1]);
                        }
                    }
                },
                None => {
                    assert forall|j: int| 0 <= j < exist.len() implies !#[trigger] exist[j] by {
                        if j > 0 {
                            assert(!rest[j - 1]);
                        }
                    }
                },
            }
        }
    }
}

/// On Linux VLC is what the search path gives: the one place that is tried is the
/// program `vlc` of the search path, and what is found there is the outcome of the
/// search.
pub proof fn law_vlc_on_linux_is_that_of_the_search_path(
    candidates: Seq<Seq<char>>,
    exist: Seq<bool>,
)
    ensures
        vlc_places(Platform::Linux) == seq![VlcPlaceView::SearchPath("vlc"@)],
        first_found(seq![first_existing_in(candidates, exist)]) == first_existing_in(
            candidates,
            exist,
        ),
{
    let found = first_existing_in(candidates, exist);
    if found is None {
        assert(seq![found].drop_first() =~= Seq::empty());
        assert(first_found(seq![found].drop_first()) is None);
    }
}

/// The file that a value of the registry names: the value itself, or the program
/// in the directory that it names.
pub fn registry_candidate(value: &str, binary: &Option<String>) -> (r: String)
    ensures
        match *binary {
            Some(binary) => may_be_path_in(r@, value@, binary@),
            None => r@ == value@,
        },
{
    match binary {
        Some(binary) => path_in(value, binary.as_str()),
        None => value.to_owned(),
    }
}

/// The search for VLC ends: it tries no more places than there are.
pub proof fn law_vlc_search_ends(platform: Platform)
    ensures
        0 < vlc_places(platform).len() <= 7,
        vlc_places(platform).last() is SearchPath,
{
}

/// The arguments of `reg` that ask for a value of a key, or for its default.
pub open spec fn registry_query(key: Seq<char>, value_name: Option<Seq<char>>) -> Seq<Seq<char>> {
    match value_name {
        Some(name) => seq!["query"@, key, "/v"@, name],
        None => seq!["query"@, key, "/ve"@],
    }
}

/// The arguments of `reg` that ask for a value of a key, or for its default.
pub fn registry_arguments(key: &str, value_name: &Option<String>) -> (r: Vec<String>)
    ensures
        texts(r@) == registry_query(key@, view_text(*value_name)),
{
    let mut args = vec!["query".to_owned(), key.to_owned()];
    match value_name {
        Some(name) => {
            args.push("/v".to_owned());
            args.push(name.clone());
        },
        None => {
            args.push("/ve".to_owned());
        },
    }
    assert(texts(args@) =~= registry_query(key@, view_text(*value_name)));
    args
}

/// The text value that a line of the registry tells, where it tells one.
pub open spec fn registry_line(line: Seq<char>) -> Option<Seq<char>> {
    let content = trimmed(line);
    if content.len() == 0 || begins_with(content, "HKEY_"@) {
        None
    } else {
        match split_at_first(content, "REG_SZ"@) {
            Some((_, data)) => if trimmed(data).len() > 0 {
                Some(trimmed(data))
            } else {
                None
            },
            None => None,
        }
    }
}

/// The first text value that some line tells.
pub open spec fn registry_value(lines: Seq<Seq<char>>) -> Option<Seq<char>>
    decreases lines.len(),
{
    if lines.len() == 0 {
        None
    } else if registry_line(lines[0]) is Some {
        registry_line(lines[0])
    } else {
        registry_value(lines.drop_first())
    }
}

fn read_registry_line(line: &str) -> (r: Option<String>)
    ensures
        view_text(r) == registry_line(line@),
{
    let content = trim(line);
    if content.as_str().is_empty() || has_prefix(content.as_str(), "HKEY_") {
        return None;
    }
    match split_once(content.as_str(), "REG_SZ") {
        Some((_, data)) => {
            let value = trim(data.as_str());
            if value.as_str().is_empty() {
                None
            } else {
                Some(value)
            }
        },
        None => None,
    }
}

/// Reads the value in what `reg` printed.
pub fn read_registry_value(output: &str) -> (r: Option<String>)
    ensures
        view_text(r) == registry_value(pieces(output@, '\n')),
{
    let lines = split_pieces(output, '\n');
    let ghost all = texts(lines@);
    let mut i: usize = 0;
    assert(all.skip(0) =~= all);
    while i < lines.len()
        invariant
            i <= lines@.len(),
            all == texts(lines@),
            all == pieces(output@, '\n'),
            registry_value(all) == registry_value(all.skip(i as int)),
        decreases lines.len() - i,
    {
        assert(all.skip(i as int)[0] == lines@[i as int]@);
        let value = read_registry_line(lines[i].as_str());
        if value.is_some() {
            return value;
        }
        assert(all.skip(i as int).drop_first() =~= all.skip(i + 1));
        i += 1;
    }
    None
}

/// Reads the value that a run of `reg` gave; nothing where it failed.
pub fn query_registry_value(succeeded: bool, stdout: &Vec<u8>) -> (r: Option<String>)
    ensures
        view_text(r) == if succeeded {
            registry_value(pieces(shown_bytes(stdout@), '\n'))
        } else {
            None
        },
{
    if succeeded {
        read_registry_value(show_bytes(stdout.as_slice()).as_str())
    } else {
        None
    }
}

/// A password for one run of VLC.
pub fn new_control_password() -> (r: String)
    ensures
        is_simple_uuid(r@),
{
    new_simple_id()
}

/// The arguments of VLC: it ends with the video, has a window of its own, and can
/// be asked over HTTP; it starts at the whole second of the position where
/// playback is resumed.
pub open spec fn vlc_command(
    port: u16,
    password: Seq<char>,
    resume_position_secs: Double,
    video_path: Seq<char>,
) -> Seq<Seq<char>> {
    let common = seq![
        "--play-and-exit"@,
        "--no-one-instance"@,
        "--extraintf=http"@,
        "--http-host=127.0.0.1"@,
        "--http-port="@ + decimal(port as nat),
        "--http-password="@ + password,
        "--no-video-title-show"@,
    ];
    if resumable(resume_position_secs) {
        common.push("--start-time="@ + signed_decimal(resume_position_secs.whole())).push(video_path)
    } else {
        common.push(video_path)
    }
}

/// The arguments of VLC.
pub fn vlc_arguments(port: u16, password: &str, resume_position_secs: Double, video_path: &str) -> (r:
    Vec<String>)
    ensures
        texts(r@) == vlc_command(port, password@, resume_position_secs, video_path@),
{
    let printed = print_decimal(port as u64);
    let mut args = vec![
        "--play-and-exit".to_owned(),
        "--no-one-instance".to_owned(),
        "--extraintf=http".to_owned(),
        "--http-host=127.0.0.1".to_owned(),
        joined("--http-port=", printed.as_str()),
        joined("--http-password=", password),
        "--no-video-title-show".to_owned(),
    ];
    if is_resumable(resume_position_secs) {
        let start = print_signed(resume_position_secs.floor_to_i64());
        args.push(joined("--start-time=", start.as_str()));
    }
    args.push(video_path.to_owned());
    assert(texts(args@) =~= vlc_command(port, password@, resume_position_secs, video_path@));
    args
}

/// The content of an element is what stands between the first tag that opens it and the
/// first after that which closes it, without white space around it; there is none where
/// no such tags follow each other.
pub proof fn law_element_is_between_its_tags(body: Seq<char>, tag: Seq<char>)
    ensures
        match element(body, tag) {
            Some(content) => exists|from: int, to: int|
                {
                    let opened = from - ("<"@ + tag + ">"@).len();
                    &&& 0 <= opened && from <= to
                    &&& content == trimmed(#[trigger] body.subrange(from, to))
                    &&& occurs_at(body, "<"@ + tag + ">"@, opened)
                    &&& occurs_at(body, "</"@ + tag + ">"@, to)
                    &&& forall|j: int|
                        0 <= j < opened ==> !#[trigger] occurs_at(body, "<"@ + tag + ">"@, j)
                    &&& forall|j: int|
                        from <= j < to ==> !#[trigger] occurs_at(body, "</"@ + tag + ">"@, j)
                },
            None => forall|i: int, j: int|
                i + ("<"@ + tag + ">"@).len() <= j && #[trigger] occurs_at(
                    body,
                    "<"@ + tag + ">"@,
                    i,
                ) ==> !#[trigger] occurs_at(body, "</"@ + tag + ">"@, j),
        },
{
    let opening = "<"@ + tag + ">"@;
    let closing = "</"@ + tag + ">"@;
    assert(opening == open_tag(tag));
    assert(closing == close_tag(tag));
    match first_occurrence(body, opening, 0) {
        Some(opened) => {
            law_first_occurrence_is_least(body, opening, 0, opened);
            let start = opened + opening.len();
            match first_occurrence(body, closing, start) {
                Some(end) => {
                    law_first_occurrence_is_least(body, closing, start, end);
                    assert(element(body, tag) == Some(trimmed(body.subrange(start, end))));
                },
                None => {
                    law_first_occurrence_is_least(body, closing, start, 0);
                    assert forall|i: int, j: int|
                        i + opening.len() <= j && #[trigger] occurs_at(
                            body,
                            opening,
                            i,
                        ) implies !#[trigger] occurs_at(body, closing, j) by {
                        assert(i >= opened);
                    }
                },
            }
        },
        None => {
            law_first_occurrence_is_least(body, opening, 0, 0);
        },
    }
}

/// A response of VLC counts if its status is 200 and its document is one of VLC; what it
/// tells are the elements of the document, and the state is `unknown` where it tells none.
pub proof fn law_response_is_read(headers: Seq<char>, body: Seq<char>)
    requires
        forall|j: int|
            0 <= j < headers.len() ==> !#[trigger] occurs_at(
                headers + "\r\n\r\n"@ + body,
                "\r\n\r\n"@,
                j,
            ),
    ensures
        ({
            let reply = reply_in(headers + "\r\n\r\n"@ + body);
            let accepted = begins_with(headers, "HTTP/1.1 200"@) || begins_with(
                headers,
                "HTTP/1.0 200"@,
            );
            &&& !accepted ==> reply == Err::<VlcReplyView, Seq<char>>(
                "VLC HTTP interface is not ready"@,
            )
            &&& accepted && element(body, "state"@) is Some && element(body, "state"@) != Some(
                "unknown"@,
            ) ==> reply == Ok::<VlcReplyView, Seq<char>>(
                VlcReplyView {
                    time: element(body, "time"@),
                    length: element(body, "length"@),
                    state: element(body, "state"@)->Some_0,
                },
            )
            &&& accepted && element(body, "state"@) is None && contains_text(body, "<root>"@)
                ==> reply == Ok::<VlcReplyView, Seq<char>>(
                VlcReplyView {
                    time: element(body, "time"@),
                    length: element(body, "length"@),
                    state: "unknown"@,
                },
            )
            &&& accepted && element(body, "state"@) is None && !contains_text(body, "<root>"@)
                ==> reply == Err::<VlcReplyView, Seq<char>>("Unexpected VLC HTTP payload"@)
        }),
{
    let sep = "\r\n\r\n"@;
    let response = headers + sep + body;
    assert(response.subrange(headers.len() as int, (headers.len() + sep.len()) as int) =~= sep);
    law_first_occurrence_is_least(response, sep, 0, headers.len() as int);
    assert(response.take(headers.len() as int) =~= headers);
    assert(response.skip((headers.len() + sep.len()) as int) =~= body);
}

/// A response without an end of headers is not used.
pub proof fn law_response_without_headers(response: Seq<char>)
    requires
        !contains_text(response, "\r\n\r\n"@),
    ensures
        reply_in(response) == Err::<VlcReplyView, Seq<char>>("Invalid VLC HTTP response"@),
{
}

/// The path that counts is the first that was found, and one counts wherever one was
/// found.
pub proof fn law_first_found_counts(outcomes: Seq<Option<Seq<char>>>, i: int)
    requires
        0 <= i < outcomes.len(),
        outcomes[i] is Some,
        forall|j: int| 0 <= j < i ==> (#[trigger] outcomes[j]) is None,
    ensures
        first_found(outcomes) == outcomes[i],
    decreases i,
{
    if i > 0 {
        let rest = outcomes.drop_first();
        assert(outcomes[0] is None);
        assert(rest[i - 1] == outcomes[i]);
        assert forall|j: int| 0 <= j < i - 1 implies (#[trigger] rest[j]) is None by {
            assert(rest[j] == outcomes[j + 1]);
        }
        law_first_found_counts(rest, i - 1);
    }
}

/// Nothing counts where nothing was found.
pub proof fn law_nothing_found_counts_for_nothing(outcomes: Seq<Option<Seq<char>>>)
    requires
        forall|j: int| 0 <= j < outcomes.len() ==> (#[trigger] outcomes[j]) is None,
    ensures
        first_found(outcomes) is None,
    decreases outcomes.len(),
{
    if outcomes.len() > 0 {
        let rest = outcomes.drop_first();
        assert(outcomes[0] is None);
        assert forall|j: int| 0 <= j < rest.len() implies (#[trigger] rest[j]) is None by {
            assert(rest[j] == outcomes[j + 1]);
        }
        law_nothing_found_counts_for_nothing(rest);
    }
}

/// A line of the registry tells the text behind its first `REG_SZ`, without white space
/// around it, where there is any; a line that names a key tells nothing.
pub proof fn law_registry_line_tells_its_text(line: Seq<char>, name: Seq<char>, data: Seq<char>)
    requires
        trimmed(line) == name + "REG_SZ"@ + data,
        forall|j: int| 0 <= j < name.len() ==> !#[trigger] occurs_at(trimmed(line), "REG_SZ"@, j),
    ensures
        begins_with(trimmed(line), "HKEY_"@) ==> registry_line(line) is None,
        !begins_with(trimmed(line), "HKEY_"@) && trimmed(data).len() > 0 ==> registry_line(line)
            == Some(trimmed(data)),
        trimmed(data).len() == 0 ==> registry_line(line) is None,
{
    let content = trimmed(line);
    let sep = "REG_SZ"@;
    reveal_strlit("REG_SZ");
    assert(content.subrange(name.len() as int, (name.len() + sep.len()) as int) =~= sep);
    law_first_occurrence_is_least(content, sep, 0, name.len() as int);
    assert(content.skip((name.len() + sep.len()) as int) =~= data);
}

/// A line without `REG_SZ` tells nothing.
pub proof fn law_other_registry_lines_tell_nothing(line: Seq<char>)
    requires
        !contains_text(trimmed(line), "REG_SZ"@),
    ensures
        registry_line(line) is None,
{
}

/// What the registry tells is what the first line tells that tells anything.
pub proof fn law_first_registry_line_counts(lines: Seq<Seq<char>>, i: int)
    requires
        0 <= i < lines.len(),
        registry_line(lines[i]) is Some,
        forall|j: int| 0 <= j < i ==> registry_line(#[trigger] lines[j]) is None,
    ensures
        registry_value(lines) == registry_line(lines[i]),
    decreases i,
{
    if i > 0 {
        let rest = lines.drop_first();
        assert(registry_line(lines[0]) is None);
        assert(rest[i - 1] == lines[i]);
        assert forall|j: int| 0 <= j < i - 1 implies registry_line(#[trigger] rest[j]) is None by {
            assert(rest[j] == lines[j + 1]);
        }
        law_first_registry_line_counts(rest, i - 1);
    }
}

/// VLC gets its port, its password and the video, which comes last; it is told to start at
/// the whole second of the position exactly if that is at least five seconds.
pub proof fn law_vlc_gets_its_arguments(
    port: u16,
    password: Seq<char>,
    position_secs: Double,
    video_path: Seq<char>,
)
    ensures
        ({
            let args = vlc_command(port, password, position_secs, video_path);
            let resumed = position_secs.at_least(Double { bits: 0x4014_0000_0000_0000 });
            &&& args.last() == video_path
            &&& args[0] == "--play-and-exit"@
            &&& args[1] == "--no-one-instance"@
            &&& args[2] == "--extraintf=http"@
            &&& args[3] == "--http-host=127.0.0.1"@
            &&& args[4] == "--http-port="@ + decimal(port as nat)
            &&& args[5] == "--http-password="@ + password
            &&& args[6] == "--no-video-title-show"@
            &&& resumed ==> args.len() == 9 && args[7] == "--start-time="@ + signed_decimal(
                position_secs.whole(),
            )
            &&& !resumed ==> args.len() == 8
        }),
{
}

/// VLC is asked at its own port, with the password in the credentials.
pub proof fn law_request_carries_the_password(port: u16, password: Seq<char>)
    ensures
        status_request_text(port, password)
            == "GET /requests/status.xml HTTP/1.1\r\nHost: 127.0.0.1:"@ + decimal(port as nat)
            + "\r\nAuthorization: Basic "@ + base64_text(encode_utf8(":"@ + password))
            + "\r\nConnection: close\r\n\r\n"@,
{
}

/// A value of the registry is asked for by its name, and the default of a key without
/// one.
pub proof fn law_registry_is_asked_for_the_key(key: Seq<char>, name: Seq<char>)
    ensures
        registry_query(key, Some(name)) == seq!["query"@, key, "/v"@, name],
        registry_query(key, None) == seq!["query"@, key, "/ve"@],
{
}

/// Where VLC is looked for: files are tried before values of the registry, and these
/// before the search path. The registry and `vlc.exe` are those of
/// Windows, the application bundle is that of macOS, and a program that is not named by
/// the registry itself lies in the directory that it names.
pub proof fn law_where_vlc_is_looked_for(platform: Platform, i: int)
    requires
        0 <= i < vlc_places(platform).len(),
    ensures
        vlc_places(platform).len() == match platform {
            Platform::Windows => 7int,
            Platform::MacOs => 2,
            Platform::Linux => 1,
        },
        match vlc_places(platform)[i] {
            VlcPlaceView::File(path) => match platform {
                Platform::Windows => path == if i == 0 {
                    "C:\\Program Files\\VideoLAN\\VLC\\vlc.exe"@
                } else {
                    "C:\\Program Files (x86)\\VideoLAN\\VLC\\vlc.exe"@
                } && i < 2,
                Platform::MacOs => path == "/Applications/VLC.app/Contents/MacOS/VLC"@ && i == 0,
                Platform::Linux => false,
            },
            VlcPlaceView::Registry { key, value_name, binary } => {
                &&& platform == Platform::Windows
                &&& 2 <= i < 6
                &&& i == 2 ==> key
                    == "HKLM\\SOFTWARE\\Microsoft\\Windows\\CurrentVersion\\App Paths\\vlc.exe"@
                &&& i == 3 ==> key
                    == "HKCU\\SOFTWARE\\Microsoft\\Windows\\CurrentVersion\\App Paths\\vlc.exe"@
                &&& i >= 4 ==> key == "HKLM\\SOFTWARE\\VideoLAN\\VLC"@
                &&& i < 5 ==> value_name is None && binary is None
                &&& i == 5 ==> value_name == Some("InstallDir"@) && binary == Some("vlc.exe"@)
            },
            VlcPlaceView::SearchPath(binary) => {
                &&& i == vlc_places(platform).len() - 1
                &&& binary == if platform == Platform::Windows {
                    "vlc.exe"@
                } else {
                    "vlc"@
                }
            },
        },
{
}

/// In specifications a place keeps what it is made of.
pub proof fn law_places_in_specifications(place: VlcPlace, reply: VlcReply)
    ensures
        match place {
            VlcPlace::File(path) => place@ == VlcPlaceView::File(path@),
            VlcPlace::SearchPath(binary) => place@ == VlcPlaceView::SearchPath(binary@),
            VlcPlace::Registry { key, value_name, binary } => place@ == (VlcPlaceView::Registry {
                key: key@,
                value_name: view_text(value_name),
                binary: view_text(binary),
            }),
        },
        reply@.time == view_text(reply.time),
        reply@.length == view_text(reply.length),
        reply@.state == reply.state@,
{
}

}
