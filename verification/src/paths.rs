//! Names of files, and the titles that are made of them.
use crate::text::chars_of;
use crate::text::contains_text;
use crate::text::text_of;
use crate::text::view_text;
use vstd::prelude::*;

verus! {

/// How a system takes a path apart.
pub enum PathRules {
    /// `/` separates.
    Slash,
    /// `/` and `\` separate, and a path may begin with a drive, a share or a device.
    Windows,
}

/// A character that separates the parts of a path on some system.
pub open spec fn is_separator(c: char) -> bool {
    c == '/' || c == '\\'
}

/// A character that separates the parts of a path.
pub open spec fn separates(rules: PathRules, c: char) -> bool {
    match rules {
        PathRules::Slash => c == '/',
        PathRules::Windows => is_separator(c),
    }
}

/// What follows the last separator.
pub open spec fn last_part(rules: PathRules, path: Seq<char>) -> Seq<char>
    decreases path.len(),
{
    if path.len() == 0 || separates(rules, path.last()) {
        Seq::empty()
    } else {
        last_part(rules, path.drop_last()).push(path.last())
    }
}

/// What follows the last `/`.
pub open spec fn last_name(path: Seq<char>) -> Seq<char> {
    last_part(PathRules::Slash, path)
}

/// The last part of a path that counts, where it is a name: empty parts and `.` do
/// not count, and `..` is no name.
pub open spec fn final_name(rules: PathRules, path: Seq<char>) -> Option<Seq<char>>
    decreases path.len(),
{
    let part = last_part(rules, path);
    if part.len() == 0 || part == "."@ {
        if part.len() >= path.len() {
            None
        } else {
            final_name(rules, path.take(path.len() - part.len() - 1))
        }
    } else if part == ".."@ {
        None
    } else {
        Some(part)
    }
}

/// The index of the first separator of any system, or the length.
pub open spec fn first_separator(path: Seq<char>) -> nat
    decreases path.len(),
{
    if path.len() == 0 || is_separator(path[0]) {
        0
    } else {
        1 + first_separator(path.drop_first())
    }
}

/// The path begins as the name of a share does.
pub open spec fn begins_twice(path: Seq<char>) -> bool {
    path.len() >= 2 && is_separator(path[0]) && is_separator(path[1])
}

/// The path begins with a drive.
pub open spec fn begins_with_drive(path: Seq<char>) -> bool {
    path.len() >= 2 && path[1] == ':' && ('a' <= path[0] <= 'z' || 'A' <= path[0] <= 'Z')
}

/// The path begins as a verbatim path of Windows does, `\\?\`, with any separators.
pub open spec fn is_verbatim(path: Seq<char>) -> bool {
    begins_twice(path) && path.len() >= 4 && path[2] == '?' && is_separator(path[3])
}

/// The path begins as the name of a device does, `\\.\`, with any separators.
pub open spec fn is_device(path: Seq<char>) -> bool {
    begins_twice(path) && path.len() >= 4 && path[2] == '.' && is_separator(path[3])
}

/// The length of the drive, the device, or the server and the share, with which a
/// path of Windows begins.
pub open spec fn prefix_len(path: Seq<char>) -> nat {
    if is_device(path) {
        4 + first_separator(path.skip(4))
    } else if begins_twice(path) {
        let server = first_separator(path.skip(2));
        if 0 < server && server + 3 < path.len() {
            let share = first_separator(path.skip(server as int + 3));
            if share > 0 {
                server + 3 + share
            } else {
                0
            }
        } else {
            0
        }
    } else if begins_with_drive(path) {
        2
    } else {
        0
    }
}

/// The name of the file that a path leads to.
pub open spec fn name_under(rules: PathRules, path: Seq<char>) -> Option<Seq<char>> {
    match rules {
        PathRules::Slash => final_name(rules, path),
        PathRules::Windows => final_name(rules, path.skip(prefix_len(path) as int)),
    }
}

/// Some system finds the name in the path: by the rules of one, or, in a verbatim
/// path, as a part of the path without `\`.
pub open spec fn may_be_name(path: Seq<char>, found: Option<Seq<char>>) -> bool {
    ||| found == name_under(PathRules::Slash, path)
    ||| !is_verbatim(path) && found == name_under(PathRules::Windows, path)
    ||| is_verbatim(path) && match found {
        Some(name) => name.len() > 0 && !name.contains('\\') && contains_text(path, name),
        None => true,
    }
}

/// Calls `std::path::Path::file_name`, as text.
///
/// Claimed: it is the last component of the path, where that is a normal one. On
/// systems of which `/` is the separator, empty components and `.` do not count and
/// `..` is not normal; on Windows `\` separates too, and a drive (`C:`), a server
/// and share (`\\server\share`) or a device (`\\.\COM42`) at the start is no
/// component of this kind. Of a verbatim path (`\\?\..`) of Windows it is claimed
/// that a name is a part of the path without `\`, and not which.
#[verifier::external_body]
pub(crate) fn file_name(path: &str) -> (r: Option<String>)
    ensures
        may_be_name(path@, view_text(r)),
{
    std::path::Path::new(path).file_name().and_then(|name| name.to_str()).map(
        |name| name.to_string(),
    )
}

/// The index of the last `.`, or -1.
pub open spec fn last_dot(name: Seq<char>) -> int
    decreases name.len(),
{
    if name.len() == 0 || name.last() == '.' {
        name.len() - 1
    } else {
        last_dot(name.drop_last())
    }
}

/// A file name without its extension: what stands before the last `.`, or the
/// whole name where it has none or only begins with one.
pub open spec fn stem(name: Seq<char>) -> Seq<char> {
    if last_dot(name) <= 0 {
        name
    } else {
        name.take(last_dot(name))
    }
}

/// The extension of a file name: what follows the last `.`; nothing where the
/// name has none or only begins with one.
pub open spec fn extension(name: Seq<char>) -> Option<Seq<char>> {
    if last_dot(name) <= 0 {
        None
    } else {
        Some(name.skip(last_dot(name) + 1))
    }
}

fn last_dot_in(name: &Vec<char>) -> (r: Option<usize>)
    ensures
        match r {
            Some(i) => i < name@.len() && last_dot(name@) == i,
            None => last_dot(name@) == -1,
        },
{
    let mut i: usize = name.len();
    assert(name@.take(name@.len() as int) =~= name@);
    while i > 0
        invariant
            i <= name@.len(),
            last_dot(name@) == last_dot(name@.take(i as int)),
        decreases i,
    {
        assert(name@.take(i as int).drop_last() =~= name@.take(i - 1));
        i -= 1;
        if name[i] == '.' {
            return Some(i);
        }
    }
    None
}

/// A file name without its extension.
pub fn stem_of(name: &str) -> (r: String)
    ensures
        r@ == stem(name@),
{
    let chars = chars_of(name);
    match last_dot_in(&chars) {
        Some(dot) => {
            if dot == 0 {
                name.to_owned()
            } else {
                assert(name@.subrange(0, dot as int) =~= name@.take(dot as int));
                text_of(&chars, 0, dot)
            }
        },
        None => name.to_owned(),
    }
}

/// The extension of a file name.
pub fn extension_of(name: &str) -> (r: Option<String>)
    ensures
        view_text(r) == extension(name@),
{
    let chars = chars_of(name);
    match last_dot_in(&chars) {
        Some(dot) => {
            if dot == 0 {
                None
            } else {
                let end: usize = chars.len();
                assert(name@.subrange(dot + 1, end as int) =~= name@.skip(dot + 1));
                Some(text_of(&chars, dot + 1, end))
            }
        },
        None => None,
    }
}

/// The extension of the file that a path leads to, where some system finds its name.
pub open spec fn extension_of_name(found: Option<Seq<char>>) -> Option<Seq<char>> {
    match found {
        Some(name) => extension(name),
        None => None,
    }
}

/// What follows the last separator of any system, behind a drive, a share or a
/// device.
pub open spec fn tail(path: Seq<char>) -> Seq<char> {
    last_part(PathRules::Windows, path.skip(prefix_len(path) as int))
}

/// The path ends in a name on every system: what follows its last separator is no
/// relative step, nor part of a drive, a share or a device.
pub open spec fn ends_in_a_name(path: Seq<char>) -> bool {
    &&& !is_verbatim(path)
    &&& tail(path).len() > 0
    &&& tail(path) != "."@
    &&& tail(path) != ".."@
}

proof fn lemma_first_separator(path: Seq<char>)
    ensures
        first_separator(path) <= path.len(),
    decreases path.len(),
{
    if path.len() > 0 && !is_separator(path[0]) {
        lemma_first_separator(path.drop_first());
    }
}

proof fn lemma_prefix_len(path: Seq<char>)
    ensures
        prefix_len(path) <= path.len(),
{
    if is_device(path) {
        lemma_first_separator(path.skip(4));
    } else if begins_twice(path) {
        let server = first_separator(path.skip(2));
        if server + 3 < path.len() {
            lemma_first_separator(path.skip(server as int + 3));
        }
    }
}

/// The last part is the end of the path, and holds no separator.
proof fn lemma_last_part(rules: PathRules, path: Seq<char>)
    ensures
        last_part(rules, path).len() <= path.len(),
        last_part(rules, path) == path.skip(path.len() - last_part(rules, path).len()),
        forall|i: int|
            0 <= i < last_part(rules, path).len() ==> !separates(
                rules,
                #[trigger] last_part(rules, path)[i],
            ),
    decreases path.len(),
{
    let part = last_part(rules, path);
    if path.len() > 0 && !separates(rules, path.last()) {
        let front = path.drop_last();
        lemma_last_part(rules, front);
        let before = last_part(rules, front);
        assert(part =~= path.skip(path.len() - part.len()));
        assert forall|i: int| 0 <= i < part.len() implies !separates(rules, #[trigger] part[i]) by {
            if i < before.len() {
                assert(part[i] == before[i]);
            }
        }
    } else {
        assert(part =~= path.skip(path.len() as int));
    }
}

/// An end of the path without separators is an end of its last part.
proof fn lemma_last_part_is_longest(rules: PathRules, path: Seq<char>, from: int)
    requires
        0 <= from <= path.len(),
        forall|i: int| from <= i < path.len() ==> !separates(rules, #[trigger] path[i]),
    ensures
        last_part(rules, path).len() >= path.len() - from,
    decreases path.len(),
{
    if from < path.len() {
        assert(!separates(rules, path[path.len() - 1]));
        let front = path.drop_last();
        assert forall|i: int| from <= i < front.len() implies !separates(
            rules,
            #[trigger] front[i],
        ) by {
            assert(front[i] == path[i]);
        }
        lemma_last_part_is_longest(rules, front, from);
    }
}

/// A name is not empty, and holds no separator.
proof fn lemma_final_name(rules: PathRules, path: Seq<char>)
    ensures
        final_name(rules, path) matches Some(name) ==> name.len() > 0 && forall|i: int|
            0 <= i < name.len() ==> !separates(rules, #[trigger] name[i]),
    decreases path.len(),
{
    let part = last_part(rules, path);
    lemma_last_part(rules, path);
    if (part.len() == 0 || part == "."@) && part.len() < path.len() {
        lemma_final_name(rules, path.take(path.len() - part.len() - 1));
    }
}

/// A name that some system finds is not empty.
pub proof fn law_name_is_not_empty(path: Seq<char>, found: Option<Seq<char>>)
    requires
        may_be_name(path, found),
    ensures
        found matches Some(name) ==> name.len() > 0,
{
    lemma_final_name(PathRules::Slash, path);
    lemma_final_name(PathRules::Windows, path.skip(prefix_len(path) as int));
}

/// What follows the last `/` of a path ends with its tail.
proof fn lemma_tail_ends_the_name(path: Seq<char>)
    ensures
        tail(path).len() <= last_name(path).len() <= path.len(),
        tail(path) == path.skip(path.len() - tail(path).len()),
        last_name(path) == path.skip(path.len() - last_name(path).len()),
{
    let rest = path.skip(prefix_len(path) as int);
    let end = tail(path);
    lemma_prefix_len(path);
    lemma_last_part(PathRules::Windows, rest);
    lemma_last_part(PathRules::Slash, path);
    assert(end =~= path.skip(path.len() - end.len()));
    assert forall|i: int| path.len() - end.len() <= i < path.len() implies !separates(
        PathRules::Slash,
        #[trigger] path[i],
    ) by {
        assert(end[i - (path.len() - end.len())] == path[i]);
    }
    lemma_last_part_is_longest(PathRules::Slash, path, path.len() - end.len());
}

/// Every system finds a name in a path that ends in one: what follows the last `/`,
/// or what follows the last separator of any system.
pub proof fn law_ordinary_path_has_a_name(path: Seq<char>, found: Option<Seq<char>>)
    requires
        ends_in_a_name(path),
        may_be_name(path, found),
    ensures
        found == Some(last_name(path)) || found == Some(tail(path)),
{
    lemma_tail_ends_the_name(path);
    let name = last_name(path);
    let end = tail(path);
    reveal_strlit(".");
    reveal_strlit("..");
    assert(end =~= name.skip(name.len() - end.len()));
    if name == "."@ {
        assert(end =~= "."@);
    }
    if name == ".."@ {
        if end.len() == 1 {
            assert(end =~= "."@);
        } else {
            assert(end =~= ".."@);
        }
    }
}

proof fn lemma_last_dot_behind(front: Seq<char>, name: Seq<char>)
    requires
        last_dot(name) >= 0,
    ensures
        last_dot(front + name) == front.len() + last_dot(name),
    decreases name.len(),
{
    assert((front + name).last() == name.last());
    if name.last() != '.' {
        assert((front + name).drop_last() =~= front + name.drop_last());
        lemma_last_dot_behind(front, name.drop_last());
    }
}

/// Where the name after the last separator of any system has an extension, every
/// system finds that extension.
pub proof fn law_extension_is_the_same_everywhere(path: Seq<char>, found: Option<Seq<char>>)
    requires
        ends_in_a_name(path),
        may_be_name(path, found),
        extension(tail(path)) is Some,
    ensures
        extension_of_name(found) == extension(tail(path)),
{
    law_ordinary_path_has_a_name(path, found);
    lemma_tail_ends_the_name(path);
    let name = last_name(path);
    let end = tail(path);
    let front = name.take(name.len() - end.len());
    assert(name =~= front + end);
    lemma_last_dot_behind(front, end);
    lemma_last_dot(end);
    assert(name.skip(last_dot(name) + 1) =~= end.skip(last_dot(end) + 1));
}

/// A name that is one part of a path on every system, and no relative step.
pub open spec fn is_one_part(name: Seq<char>) -> bool {
    !name.contains('/') && !name.contains('\\') && name != "."@ && name != ".."@
}

/// A name that no system takes for the start of a path.
pub open spec fn is_relative(name: Seq<char>) -> bool {
    !(name.len() > 0 && is_separator(name[0])) && !begins_with_drive(name)
}

/// A text ends with another.
pub open spec fn ends_with(text: Seq<char>, end: Seq<char>) -> bool {
    end.len() <= text.len() && text.skip(text.len() - end.len()) == end
}

/// The path is that of a name in a directory on some system: a separator stands
/// between them, unless the directory is empty, ends in one, or is a drive.
pub open spec fn is_path_in(path: Seq<char>, dir: Seq<char>, name: Seq<char>) -> bool {
    let closed = dir.len() == 0 || dir.last() == '/';
    let may_be_closed = closed || dir.last() == '\\' || dir.len() == 2 && begins_with_drive(dir);
    ||| may_be_closed && path == dir + name
    ||| !closed && (path == dir.push('/') + name || path == dir.push('\\') + name)
}

/// The path may be what some system makes of a directory and a name in it: it ends
/// with the name, and begins with the directory where the name is a relative one. In
/// a verbatim directory of Windows the path is made anew of its parts, and only its
/// end is told.
pub open spec fn may_be_path_in(path: Seq<char>, dir: Seq<char>, name: Seq<char>) -> bool {
    &&& !is_verbatim(dir) || is_one_part(name) ==> ends_with(path, name)
    &&& !is_verbatim(dir) && is_relative(name) ==> is_path_in(path, dir, name)
}

/// Calls `std::path::Path::join`, as text.
///
/// Claimed: the path ends with the name; where the name is relative, it is the
/// directory and the name, with a separator of the system between them unless the
/// directory is empty, ends in one or is a drive. In a verbatim directory
/// (`\\?\..`), whose parts Windows normalizes, it is claimed of a name of one part
/// that the path ends with it.
#[verifier::external_body]
pub(crate) fn path_in(dir: &str, name: &str) -> (r: String)
    ensures
        may_be_path_in(r@, dir@, name@),
{
    std::path::Path::new(dir).join(name).to_string_lossy().to_string()
}

/// A character of a title: a space in place of `_`, `.` and `-`.
pub open spec fn title_char(c: char) -> char {
    if c == '_' || c == '.' || c == '-' {
        ' '
    } else {
        c
    }
}

/// A title made of a name.
pub open spec fn cleaned(name: Seq<char>) -> Seq<char> {
    name.map_values(|c: char| title_char(c))
}

/// Makes a title of a name: `_`, `.` and `-` become spaces.
pub fn clean_title(name: &str) -> (r: String)
    ensures
        r@ == cleaned(name@),
{
    let chars = chars_of(name);
    let mut out = String::new();
    let mut i: usize = 0;
    while i < chars.len()
        invariant
            chars@ == name@,
            i <= chars@.len(),
            out@ == cleaned(name@).take(i as int),
        decreases chars.len() - i,
    {
        let c = chars[i];
        if c == '_' || c == '.' || c == '-' {
            out.push(' ');
        } else {
            out.push(c);
        }
        i += 1;
        assert(cleaned(name@).take(i as int) =~= cleaned(name@).take(i - 1).push(title_char(c)));
    }
    assert(cleaned(name@).take(name@.len() as int) =~= cleaned(name@));
    out
}

/// The title of a video whose file has the given name.
pub open spec fn title_of_name(found: Option<Seq<char>>) -> Seq<char> {
    match found {
        Some(name) => cleaned(stem(name)),
        None => cleaned("Untitled video"@),
    }
}

/// The title of a video whose file has the given name.
pub fn title_from_name(found: Option<String>) -> (r: String)
    ensures
        r@ == title_of_name(view_text(found)),
{
    match found {
        Some(name) => clean_title(stem_of(name.as_str()).as_str()),
        None => clean_title("Untitled video"),
    }
}

/// The title is one that a system makes of the path: that of the name that it finds
/// in the path, or that of a video without a name.
pub open spec fn is_title_of(title: Seq<char>, path: Seq<char>) -> bool {
    exists|found: Option<Seq<char>>|
        #[trigger] may_be_name(path, found) && title == title_of_name(found)
}

/// The title of a video that is known by its path alone.
pub fn derive_title(path: &str) -> (r: String)
    ensures
        is_title_of(r@, path@),
        ends_in_a_name(path@) ==> r@ == cleaned(stem(last_name(path@))) || r@ == cleaned(
            stem(tail(path@)),
        ),
{
    let found = file_name(path);
    proof {
        if ends_in_a_name(path@) {
            law_ordinary_path_has_a_name(path@, view_text(found));
        }
        assert(may_be_name(path@, view_text(found)));
    }
    title_from_name(found)
}

/// A title is never empty.
pub proof fn law_title_is_not_empty(title: Seq<char>, path: Seq<char>)
    requires
        is_title_of(title, path),
    ensures
        title.len() > 0,
{
    let found = choose|found: Option<Seq<char>>|
        #[trigger] may_be_name(path, found) && title == title_of_name(found);
    law_name_is_not_empty(path, found);
    reveal_strlit("Untitled video");
    if let Some(name) = found {
        lemma_last_dot(name);
    }
}

proof fn lemma_whole_part(rules: PathRules, path: Seq<char>)
    requires
        forall|i: int| 0 <= i < path.len() ==> !separates(rules, #[trigger] path[i]),
    ensures
        last_part(rules, path) == path,
{
    lemma_last_part_is_longest(rules, path, 0);
    lemma_last_part(rules, path);
    assert(path.skip(0) =~= path);
}

/// A text without dots and separators is its own name and title.
proof fn lemma_title_is_kept(rules: PathRules, title: Seq<char>)
    requires
        title.len() > 0,
        cleaned(title) == title,
        forall|i: int| 0 <= i < title.len() ==> !separates(rules, #[trigger] title[i]),
        rules is Windows ==> !begins_with_drive(title),
    ensures
        title_of_name(name_under(rules, title)) == title,
        rules is Windows ==> !is_verbatim(title),
{
    lemma_whole_part(rules, title);
    lemma_last_dot(title);
    law_clean_title_is_clean(title);
    reveal_strlit(".");
    reveal_strlit("..");
    assert(!title.contains('.'));
    assert(title[0] != '.');
    if rules is Windows {
        assert(!is_separator(title[0]));
        assert(title.skip(0) =~= title);
    }
    assert(name_under(rules, title) == Some(title));
    if last_dot(title) >= 0 {
        assert(title[last_dot(title)] == '.');
    }
}

/// Under the rules of any one system the title of a title is itself. Under those of
/// Windows a title that begins with a drive is left out: the drive is no part of a
/// name.
pub proof fn law_derived_title_is_kept(rules: PathRules, path: Seq<char>)
    requires
        rules is Windows ==> !begins_with_drive(title_of_name(name_under(rules, path))),
    ensures
        title_of_name(name_under(rules, title_of_name(name_under(rules, path)))) == title_of_name(
            name_under(rules, path),
        ),
{
    let found = name_under(rules, path);
    let title = title_of_name(found);
    lemma_final_name(rules, path);
    lemma_final_name(rules, path.skip(prefix_len(path) as int));
    let root = match found {
        Some(name) => stem(name),
        None => "Untitled video"@,
    };
    reveal_strlit("Untitled video");
    if let Some(name) = found {
        lemma_last_dot(name);
    }
    law_clean_title_is_clean(root);
    assert forall|i: int| 0 <= i < title.len() implies !separates(rules, #[trigger] title[i]) by {
        assert(title[i] == title_char(root[i]));
        if let Some(name) = found {
            assert(root[i] == name[i]);
            assert(!separates(rules, name[i]));
        }
    }
    lemma_title_is_kept(rules, title);
}

/// The title of a title is itself on every system, where the title has no separator
/// of any system and begins with no drive.
pub proof fn law_title_of_a_title_is_itself(path: Seq<char>, title: Seq<char>, again: Seq<char>)
    requires
        is_title_of(title, path),
        is_title_of(again, title),
        !title.contains('/'),
        !title.contains('\\'),
        !begins_with_drive(title),
    ensures
        again == title,
{
    law_title_is_not_empty(title, path);
    let found = choose|found: Option<Seq<char>>|
        #[trigger] may_be_name(path, found) && title == title_of_name(found);
    match found {
        Some(name) => law_clean_title_is_clean(stem(name)),
        None => law_clean_title_is_clean("Untitled video"@),
    }
    assert forall|i: int| 0 <= i < title.len() implies !is_separator(#[trigger] title[i]) by {
        assert(title.contains(title[i]));
    }
    lemma_title_is_kept(PathRules::Slash, title);
    lemma_title_is_kept(PathRules::Windows, title);
}

/// A name is its stem, a dot and its extension, or its stem alone.
pub proof fn law_stem_and_extension_make_the_name(name: Seq<char>)
    ensures
        match extension(name) {
            Some(e) => name == stem(name) + seq!['.'] + e,
            None => name == stem(name),
        },
        extension(name) matches Some(e) ==> !e.contains('.'),
{
    lemma_last_dot(name);
    if extension(name) is Some {
        assert(name =~= stem(name) + seq!['.'] + name.skip(last_dot(name) + 1));
    }
}

proof fn lemma_last_dot(name: Seq<char>)
    ensures
        -1 <= last_dot(name) < name.len(),
        last_dot(name) >= 0 ==> name[last_dot(name)] == '.',
        forall|i: int| last_dot(name) < i < name.len() ==> #[trigger] name[i] != '.',
    decreases name.len(),
{
    if name.len() > 0 && name.last() != '.' {
        lemma_last_dot(name.drop_last());
        assert forall|i: int| last_dot(name) < i < name.len() implies #[trigger] name[i] != '.' by {
            if i < name.len() - 1 {
                assert(name.drop_last()[i] == name[i]);
            }
        }
    }
}

/// A title holds none of the characters that it shows as spaces, and cleaning it
/// again changes nothing.
pub proof fn law_clean_title_is_clean(name: Seq<char>)
    ensures
        cleaned(name).len() == name.len(),
        !cleaned(name).contains('_'),
        !cleaned(name).contains('.'),
        !cleaned(name).contains('-'),
        cleaned(cleaned(name)) == cleaned(name),
{
    assert(cleaned(cleaned(name)) =~= cleaned(name));
}

/// A title shows a space for each `_`, `.` and `-` of the name, and every other character
/// as it is.
pub proof fn law_title_keeps_the_other_characters(name: Seq<char>, i: int)
    requires
        0 <= i < name.len(),
    ensures
        name[i] == '_' || name[i] == '.' || name[i] == '-' ==> cleaned(name)[i] == ' ',
        name[i] != '_' && name[i] != '.' && name[i] != '-' ==> cleaned(name)[i] == name[i],
{
}

/// A name behind a directory is found, also where separators or `.` follow it; a step up
/// is no name.
pub proof fn law_name_behind_a_directory_is_found(dir: Seq<char>, name: Seq<char>)
    requires
        name.len() > 0,
        !name.contains('/'),
        name != "."@,
        name != ".."@,
    ensures
        name_under(PathRules::Slash, dir + seq!['/'] + name) == Some(name),
        name_under(PathRules::Slash, dir + seq!['/'] + name + seq!['/']) == Some(name),
        name_under(PathRules::Slash, dir + seq!['/'] + name + seq!['/'] + "."@) == Some(name),
        name_under(PathRules::Slash, dir + seq!['/'] + ".."@) is None,
{
    let slash = PathRules::Slash;
    reveal_strlit(".");
    reveal_strlit("..");
    lemma_last_part_behind(dir, name);
    let path = dir + seq!['/'] + name;
    lemma_last_part_behind(path, Seq::empty());
    assert(path + seq!['/'] + Seq::<char>::empty() =~= path + seq!['/']);
    assert((path + seq!['/']).take(path.len() as int) =~= path);
    lemma_last_part_behind(path, "."@);
    assert((path + seq!['/'] + "."@).take(path.len() as int) =~= path);
    lemma_last_part_behind(dir, ".."@);
    assert(".."@ != "."@) by {
        assert(".."@.len() != "."@.len());
    }
    assert(final_name(slash, path) == Some(name));
}

proof fn lemma_last_part_behind(dir: Seq<char>, part: Seq<char>)
    requires
        !part.contains('/'),
    ensures
        last_part(PathRules::Slash, dir + seq!['/'] + part) == part,
    decreases part.len(),
{
    let path = dir + seq!['/'] + part;
    if part.len() == 0 {
        assert(path.last() == '/');
        assert(last_part(PathRules::Slash, path) =~= part);
    } else {
        let front = part.drop_last();
        assert(!front.contains('/')) by {
            if front.contains('/') {
                let i = front.index_of('/');
                assert(part[i] == '/');
            }
        }
        assert(part.contains(part.last()));
        lemma_last_part_behind(dir, front);
        assert(path.drop_last() =~= dir + seq!['/'] + front);
        assert(last_part(PathRules::Slash, path) =~= part);
    }
}

/// A name has an extension exactly if a dot stands in it behind its first character, and
/// the extension follows the last of them.
pub proof fn law_when_a_name_has_an_extension(name: Seq<char>, i: int)
    requires
        0 < i < name.len(),
        name[i] == '.',
        forall|j: int| i < j < name.len() ==> #[trigger] name[j] != '.',
    ensures
        extension(name) == Some(name.skip(i + 1)),
        stem(name) == name.take(i),
{
    lemma_last_dot(name);
    assert(last_dot(name) == i) by {
        if last_dot(name) < i {
            assert(name[i] != '.');
        } else if last_dot(name) > i {
            assert(name[last_dot(name)] != '.');
        }
    }
}

/// A name without a dot behind its first character has no extension.
pub proof fn law_when_a_name_has_no_extension(name: Seq<char>)
    requires
        forall|j: int| 0 < j < name.len() ==> #[trigger] name[j] != '.',
    ensures
        extension(name) is None,
        stem(name) == name,
{
    lemma_last_dot(name);
}

/// A video has the title of its name without the extension, and without a name it is
/// called untitled.
pub proof fn law_title_is_that_of_the_stem(name: Seq<char>)
    ensures
        title_of_name(Some(name)) == cleaned(stem(name)),
        title_of_name(None) == "Untitled video"@,
{
    reveal_strlit("Untitled video");
    let t = "Untitled video"@;
    assert(cleaned(t) =~= t);
}

}
