//! Text as sequences of characters: searching, trimming, splitting and
//! printing numbers.
use vstd::prelude::*;
use vstd::utf8::decode_utf8;
use vstd::utf8::valid_utf8;

verus! {

/// `String::push` appends one character to the end of the string.
pub assume_specification[ String::push ](s: &mut String, c: char)
    ensures
        final(s)@ == old(s)@.push(c),
;

/// Whether two texts hold the same characters.
pub fn same_text(a: &str, b: &str) -> (r: bool)
    ensures
        r == (a@ == b@),
{
    a.to_owned() == b.to_owned()
}

/// Whether an optional text is present and equal to `b`.
pub fn is_text(a: &Option<String>, b: &str) -> (r: bool)
    ensures
        r == (a matches Some(t) && t@ == b@),
{
    match a {
        Some(t) => same_text(t.as_str(), b),
        None => false,
    }
}

/// The characters of a text, in order.
pub fn chars_of(s: &str) -> (r: Vec<char>)
    ensures
        r@ == s@,
{
    let mut out: Vec<char> = Vec::new();
    for c in it: s.chars()
        invariant
            it.seq() == s@,
            out@ == s@.take(it.index()),
    {
        out.push(c);
        assert(s@.take(it.index() + 1) =~= s@.take(it.index()).push(c));
    }
    assert(s@.take(s@.len() as int) =~= s@);
    out
}

/// The text that holds the characters `from .. to` of `chars`.
pub fn text_of(chars: &Vec<char>, from: usize, to: usize) -> (r: String)
    requires
        from <= to <= chars@.len(),
    ensures
        r@ == chars@.subrange(from as int, to as int),
{
    let mut out = String::new();
    let mut i: usize = from;
    while i < to
        invariant
            from <= i <= to <= chars@.len(),
            out@ == chars@.subrange(from as int, i as int),
        decreases to - i,
    {
        out.push(chars[i]);
        i += 1;
        assert(chars@.subrange(from as int, i as int) =~= chars@.subrange(
            from as int,
            i - 1,
        ).push(chars@[i - 1]));
    }
    out
}

/// One text after another.
pub fn joined(a: &str, b: &str) -> (r: String)
    ensures
        r@ == a@ + b@,
{
    let mut out = a.to_owned();
    out.append(b);
    out
}

/// A character of the Unicode property `White_Space`.
pub open spec fn is_white(c: char) -> bool {
    let code = c as int;
    ||| 0x9 <= code <= 0xd
    ||| code == 0x20
    ||| code == 0x85
    ||| code == 0xa0
    ||| code == 0x1680
    ||| 0x2000 <= code <= 0x200a
    ||| code == 0x2028
    ||| code == 0x2029
    ||| code == 0x202f
    ||| code == 0x205f
    ||| code == 0x3000
}

pub fn white(c: char) -> (r: bool)
    ensures
        r == is_white(c),
{
    let code: u32 = c as u32;
    (0x9 <= code && code <= 0xd) || code == 0x20 || code == 0x85 || code == 0xa0 || code == 0x1680
        || (0x2000 <= code && code <= 0x200a) || code == 0x2028 || code == 0x2029 || code == 0x202f
        || code == 0x205f || code == 0x3000
}

/// `s` without the white space that it begins with.
pub open spec fn trim_front(s: Seq<char>) -> Seq<char>
    decreases s.len(),
{
    if s.len() > 0 && is_white(s[0]) {
        trim_front(s.drop_first())
    } else {
        s
    }
}

/// `s` without the white space that it ends with.
pub open spec fn trim_back(s: Seq<char>) -> Seq<char>
    decreases s.len(),
{
    if s.len() > 0 && is_white(s.last()) {
        trim_back(s.drop_last())
    } else {
        s
    }
}

/// `s` without white space at either end.
pub open spec fn trimmed(s: Seq<char>) -> Seq<char> {
    trim_back(trim_front(s))
}

/// The text without white space at either end.
pub fn trim(s: &str) -> (r: String)
    ensures
        r@ == trimmed(s@),
{
    let chars = chars_of(s);
    let mut from: usize = 0;
    assert(s@.skip(0) =~= s@);
    while from < chars.len() && white(chars[from])
        invariant
            chars@ == s@,
            from <= chars@.len(),
            trim_front(s@) == trim_front(s@.skip(from as int)),
        decreases chars.len() - from,
    {
        assert(s@.skip(from as int).drop_first() =~= s@.skip(from + 1));
        from += 1;
    }
    assert(trim_front(s@) == s@.skip(from as int));
    let mut to: usize = chars.len();
    assert(s@.subrange(from as int, to as int) =~= s@.skip(from as int));
    while from < to && white(chars[to - 1])
        invariant
            chars@ == s@,
            from <= to <= chars@.len(),
            trimmed(s@) == trim_back(s@.subrange(from as int, to as int)),
        decreases to,
    {
        assert(s@.subrange(from as int, to as int).drop_last() =~= s@.subrange(
            from as int,
            to - 1,
        ));
        to -= 1;
    }
    text_of(&chars, from, to)
}

/// `part` stands in `s` at index `i`.
pub open spec fn occurs_at(s: Seq<char>, part: Seq<char>, i: int) -> bool {
    0 <= i && i + part.len() <= s.len() && s.subrange(i, i + part.len()) == part
}

/// The least index from `from` on at which `part` stands in `s`.
pub open spec fn first_occurrence(s: Seq<char>, part: Seq<char>, from: int) -> Option<int>
    decreases s.len() - from + 1,
{
    if from < 0 || from + part.len() > s.len() {
        None
    } else if occurs_at(s, part, from) {
        Some(from)
    } else {
        first_occurrence(s, part, from + 1)
    }
}

/// An occurrence that is first stands where none stands before it, and there is a
/// first one wherever there is any.
pub proof fn law_first_occurrence_is_least(s: Seq<char>, part: Seq<char>, from: int, i: int)
    requires
        0 <= from,
    ensures
        first_occurrence(s, part, from) == Some(i) <==> from <= i && occurs_at(s, part, i) && (
        forall|j: int| from <= j < i ==> !#[trigger] occurs_at(s, part, j)),
        first_occurrence(s, part, from) is None <==> (forall|j: int|
            from <= j ==> !#[trigger] occurs_at(s, part, j)),
    decreases s.len() - from + 1,
{
    if from + part.len() <= s.len() && !occurs_at(s, part, from) {
        law_first_occurrence_is_least(s, part, from + 1, i);
    }
}

/// `s` holds `part` somewhere.
pub open spec fn contains_text(s: Seq<char>, part: Seq<char>) -> bool {
    first_occurrence(s, part, 0) is Some
}

/// `s` begins with `part`.
pub open spec fn begins_with(s: Seq<char>, part: Seq<char>) -> bool {
    occurs_at(s, part, 0)
}

/// Whether `part` stands in `s` at `i`.
pub fn stands_at(s: &Vec<char>, part: &Vec<char>, i: usize) -> (r: bool)
    ensures
        r == occurs_at(s@, part@, i as int),
{
    if part.len() > s.len() || i > s.len() - part.len() {
        return false;
    }
    let n: usize = s.len();
    let mut k: usize = 0;
    while k < part.len()
        invariant
            k <= part@.len(),
            n == s@.len(),
            i + part@.len() <= n,
            forall|j: int| 0 <= j < k ==> s@[i + j] == part@[j],
        decreases part.len() - k,
    {
        if s[i + k] != part[k] {
            assert(s@.subrange(i as int, i + part@.len())[k as int] != part@[k as int]);
            return false;
        }
        k += 1;
    }
    assert(s@.subrange(i as int, i + part@.len()) =~= part@);
    true
}

/// The first place from `from` on at which `part` stands in `s`.
pub fn find_from(s: &Vec<char>, part: &Vec<char>, from: usize) -> (r: Option<usize>)
    ensures
        match r {
            Some(i) => first_occurrence(s@, part@, from as int) == Some(i as int) && from <= i && i
                + part@.len() <= s@.len(),
            None => first_occurrence(s@, part@, from as int) is None,
        },
{
    if part.len() > s.len() || from > s.len() - part.len() {
        return None;
    }
    let n: usize = s.len();
    let mut i: usize = from;
    while i <= n - part.len()
        invariant
            n == s@.len(),
            from <= i <= n - part@.len() + 1,
            part@.len() <= n,
            first_occurrence(s@, part@, from as int) == first_occurrence(s@, part@, i as int),
        decreases n - part.len() + 1 - i,
    {
        if stands_at(s, part, i) {
            return Some(i);
        }
        assert(part@.len() > 0) by {
            if part@.len() == 0 {
                assert(s@.subrange(i as int, i as int) =~= part@);
            }
        }
        i += 1;
    }
    None
}

/// Whether `s` holds `part` somewhere.
pub fn has_text(s: &str, part: &str) -> (r: bool)
    ensures
        r == contains_text(s@, part@),
{
    find_from(&chars_of(s), &chars_of(part), 0).is_some()
}

/// Whether `s` begins with `part`.
pub fn has_prefix(s: &str, part: &str) -> (r: bool)
    ensures
        r == begins_with(s@, part@),
{
    stands_at(&chars_of(s), &chars_of(part), 0)
}

/// What stands before and after the first `part` in `s`.
pub open spec fn split_at_first(s: Seq<char>, part: Seq<char>) -> Option<(Seq<char>, Seq<char>)> {
    match first_occurrence(s, part, 0) {
        Some(i) => Some((s.take(i), s.skip(i + part.len()))),
        None => None,
    }
}

/// The text before and the text after the first `part` in `s`.
pub fn split_once(s: &str, part: &str) -> (r: Option<(String, String)>)
    ensures
        match r {
            Some(halves) => split_at_first(s@, part@) == Some((halves.0@, halves.1@)),
            None => split_at_first(s@, part@) is None,
        },
{
    let chars = chars_of(s);
    let pattern = chars_of(part);
    match find_from(&chars, &pattern, 0) {
        Some(i) => {
            let end: usize = chars.len();
            let before = text_of(&chars, 0, i);
            let after = text_of(&chars, i + pattern.len(), end);
            assert(before@ =~= s@.take(i as int));
            assert(after@ =~= s@.skip(i + part@.len()));
            Some((before, after))
        },
        None => None,
    }
}

/// The pieces of `s` between the characters `sep`, in order.
pub open spec fn pieces(s: Seq<char>, sep: char) -> Seq<Seq<char>>
    decreases s.len(),
{
    if s.len() == 0 {
        seq![Seq::empty()]
    } else {
        let front = pieces(s.drop_last(), sep);
        if s.last() == sep {
            front.push(Seq::empty())
        } else {
            front.drop_last().push(front.last().push(s.last()))
        }
    }
}

/// The characters of each text.
pub open spec fn texts(v: Seq<String>) -> Seq<Seq<char>> {
    v.map_values(|t: String| t@)
}

/// The pieces of `s` between the characters `sep`.
pub fn split_pieces(s: &str, sep: char) -> (r: Vec<String>)
    ensures
        texts(r@) == pieces(s@, sep),
{
    let chars = chars_of(s);
    let mut out: Vec<String> = Vec::new();
    let mut piece = String::new();
    let mut i: usize = 0;
    assert(s@.take(0) =~= Seq::<char>::empty());
    assert(texts(out@).push(piece@) =~= seq![Seq::<char>::empty()]);
    while i < chars.len()
        invariant
            chars@ == s@,
            i <= chars@.len(),
            pieces(s@.take(i as int), sep) == texts(out@).push(piece@),
        decreases chars.len() - i,
    {
        let c = chars[i];
        let ghost before = texts(out@).push(piece@);
        assert(s@.take(i + 1).drop_last() =~= s@.take(i as int));
        assert(s@.take(i + 1).last() == c);
        if c == sep {
            out.push(piece);
            assert(texts(out@) =~= before);
            piece = String::new();
        } else {
            assert(before.drop_last() =~= texts(out@));
            piece.push(c);
        }
        i += 1;
    }
    assert(s@.take(s@.len() as int) =~= s@);
    let ghost whole = texts(out@).push(piece@);
    out.push(piece);
    assert(texts(out@) =~= whole);
    out
}

/// The decimal digit `d`.
pub open spec fn digit(d: int) -> char {
    ('0' as int + d) as char
}

/// `n` in decimal, without leading zeros.
pub open spec fn decimal(n: nat) -> Seq<char>
    decreases n,
{
    if n < 10 {
        seq![digit(n as int)]
    } else {
        decimal(n / 10).push(digit((n % 10) as int))
    }
}

/// `n` in decimal, with a minus sign where it is negative.
pub open spec fn signed_decimal(n: int) -> Seq<char> {
    if n < 0 {
        seq!['-'] + decimal((-n) as nat)
    } else {
        decimal(n as nat)
    }
}

fn digit_char(d: u64) -> (r: char)
    requires
        d < 10,
    ensures
        r == digit(d as int),
{
    match d {
        0 => '0',
        1 => '1',
        2 => '2',
        3 => '3',
        4 => '4',
        5 => '5',
        6 => '6',
        7 => '7',
        8 => '8',
        _ => '9',
    }
}

/// `n` in decimal.
pub fn print_decimal(n: u64) -> (r: String)
    ensures
        r@ == decimal(n as nat),
    decreases n,
{
    if n < 10 {
        let mut out = String::new();
        out.push(digit_char(n));
        assert(out@ =~= decimal(n as nat));
        out
    } else {
        let mut out = print_decimal(n / 10);
        out.push(digit_char(n % 10));
        out
    }
}

/// `n` in decimal, with a minus sign where it is negative.
pub fn print_signed(n: i64) -> (r: String)
    ensures
        r@ == signed_decimal(n as int),
{
    if n < 0 {
        let size: u64 = if n == i64::MIN {
            0x8000_0000_0000_0000
        } else {
            (-n) as u64
        };
        let digits = print_decimal(size);
        let mut out = String::new();
        out.push('-');
        out.append(digits.as_str());
        assert(out@ =~= signed_decimal(n as int));
        out
    } else {
        print_decimal(n as u64)
    }
}

/// A copy of an optional text.
pub fn copy_text(t: &Option<String>) -> (r: Option<String>)
    ensures
        view_text(r) == view_text(*t),
{
    match t {
        Some(t) => Some(t.clone()),
        None => None,
    }
}

/// The characters of an optional text.
pub open spec fn view_text(t: Option<String>) -> Option<Seq<char>> {
    match t {
        Some(t) => Some(t@),
        None => None,
    }
}

/// A list of texts holds the characters `part`.
pub open spec fn lists_text(v: Seq<Seq<char>>, part: Seq<char>) -> bool {
    exists|i: int| 0 <= i < v.len() && v[i] == part
}

/// Whether one of the texts is `part`.
pub fn has_member(v: &Vec<String>, part: &str) -> (r: bool)
    ensures
        r == lists_text(texts(v@), part@),
{
    let mut i: usize = 0;
    while i < v.len()
        invariant
            i <= v@.len(),
            forall|j: int| 0 <= j < i ==> (#[trigger] texts(v@)[j]) != part@,
        decreases v.len() - i,
    {
        if same_text(v[i].as_str(), part) {
            assert(texts(v@)[i as int] == part@);
            return true;
        }
        i += 1;
    }
    false
}

/// The text that `String::from_utf8_lossy` makes of bytes that are no text.
pub uninterp spec fn lossy_text(bytes: Seq<u8>) -> Seq<char>;

/// Bytes as they are shown: what is no text in UTF-8 is made one.
pub open spec fn shown_bytes(bytes: Seq<u8>) -> Seq<char> {
    if valid_utf8(bytes) {
        decode_utf8(bytes)
    } else {
        lossy_text(bytes)
    }
}

/// Calls `String::from_utf8_lossy`.
///
/// Claimed: bytes that are a text in UTF-8 give that text; of other bytes the
/// result depends on the bytes alone.
#[verifier::external_body]
pub(crate) fn show_bytes(bytes: &[u8]) -> (r: String)
    ensures
        valid_utf8(bytes@) ==> r@ == decode_utf8(bytes@),
        !valid_utf8(bytes@) ==> r@ == lossy_text(bytes@),
{
    String::from_utf8_lossy(bytes).to_string()
}

/// Calls `String::from_utf8`.
///
/// Claimed: bytes that are a text in UTF-8 give that text; others are refused.
#[verifier::external_body]
pub(crate) fn text_of_bytes(bytes: Vec<u8>) -> (r: Option<String>)
    ensures
        valid_utf8(bytes@) ==> view_text(r) == Some(decode_utf8(bytes@)),
        !valid_utf8(bytes@) ==> r is None,
{
    String::from_utf8(bytes).ok()
}

/// A text without white space at its ends is the text between them: what is left out is
/// white space, and what is left does not begin or end with it.
pub proof fn law_trimmed_is_what_is_between(s: Seq<char>)
    ensures
        exists|from: int, to: int|
            {
                &&& 0 <= from <= to <= s.len()
                &&& #[trigger] s.subrange(from, to) == trimmed(s)
                &&& forall|i: int| 0 <= i < from ==> is_white(#[trigger] s[i])
                &&& forall|i: int| to <= i < s.len() ==> is_white(#[trigger] s[i])
            },
        trimmed(s).len() > 0 ==> !is_white(trimmed(s)[0]) && !is_white(trimmed(s).last()),
{
    lemma_trim_front(s);
    let front = trim_front(s);
    lemma_trim_back(front);
    let from = s.len() - front.len();
    let to = from + trimmed(s).len();
    assert(s.subrange(from, to) =~= trimmed(s));
    assert forall|i: int| to <= i < s.len() implies is_white(#[trigger] s[i]) by {
        assert(front[i - from] == s[i]);
    }
    if trimmed(s).len() > 0 {
        assert(trimmed(s)[0] == front[0]);
    }
}

proof fn lemma_trim_front(s: Seq<char>)
    ensures
        trim_front(s).len() <= s.len(),
        trim_front(s) == s.skip(s.len() - trim_front(s).len()),
        forall|i: int| 0 <= i < s.len() - trim_front(s).len() ==> is_white(#[trigger] s[i]),
        trim_front(s).len() > 0 ==> !is_white(trim_front(s)[0]),
    decreases s.len(),
{
    if s.len() > 0 && is_white(s[0]) {
        let rest = s.drop_first();
        lemma_trim_front(rest);
        assert(trim_front(s) =~= s.skip(s.len() - trim_front(s).len()));
        assert forall|i: int| 0 <= i < s.len() - trim_front(s).len() implies is_white(
            #[trigger] s[i],
        ) by {
            if i > 0 {
                assert(rest[i - 1] == s[i]);
            }
        }
    } else {
        assert(s.skip(0) =~= s);
    }
}

proof fn lemma_trim_back(s: Seq<char>)
    ensures
        trim_back(s).len() <= s.len(),
        trim_back(s) == s.take(trim_back(s).len() as int),
        forall|i: int| trim_back(s).len() <= i < s.len() ==> is_white(#[trigger] s[i]),
        trim_back(s).len() > 0 ==> !is_white(trim_back(s).last()),
    decreases s.len(),
{
    if s.len() > 0 && is_white(s.last()) {
        let rest = s.drop_last();
        lemma_trim_back(rest);
        assert(trim_back(s) =~= s.take(trim_back(s).len() as int));
        assert forall|i: int| trim_back(s).len() <= i < s.len() implies is_white(#[trigger] s[i]) by {
            if i < s.len() - 1 {
                assert(rest[i] == s[i]);
            }
        }
    } else {
        assert(s.take(s.len() as int) =~= s);
    }
}

/// Among the characters below 128 white space is the space and the controls from tab to
/// carriage return.
pub proof fn law_plain_white_space(c: char)
    requires
        (c as int) < 128,
    ensures
        is_white(c) <==> c == ' ' || '\t' <= c <= '\r',
{
}

/// Pieces with a separator between them.
pub open spec fn rejoined(parts: Seq<Seq<char>>, sep: char) -> Seq<char>
    decreases parts.len(),
{
    if parts.len() == 0 {
        seq![]
    } else if parts.len() == 1 {
        parts[0]
    } else {
        rejoined(parts.drop_last(), sep).push(sep) + parts.last()
    }
}

/// The pieces of a text hold no separator, and make up the text with one between each
/// two.
pub proof fn law_pieces_make_up_the_text(s: Seq<char>, sep: char)
    ensures
        pieces(s, sep).len() > 0,
        rejoined(pieces(s, sep), sep) == s,
        forall|i: int| 0 <= i < pieces(s, sep).len() ==> !(#[trigger] pieces(s, sep)[i]).contains(sep),
    decreases s.len(),
{
    let all = pieces(s, sep);
    if s.len() == 0 {
        assert(rejoined(all, sep) =~= s);
    } else {
        let front = pieces(s.drop_last(), sep);
        law_pieces_make_up_the_text(s.drop_last(), sep);
        assert(s =~= s.drop_last().push(s.last()));
        if s.last() == sep {
            assert(all.drop_last() =~= front);
            assert(rejoined(all, sep) =~= s);
        } else {
            assert(all.drop_last() =~= front.drop_last());
            if all.len() == 1 {
                assert(rejoined(all, sep) =~= s);
            } else {
                assert(rejoined(front, sep) == rejoined(front.drop_last(), sep).push(sep)
                    + front.last());
                assert(rejoined(all, sep) =~= s);
            }
            let last = all.last();
            assert(!last.contains(sep)) by {
                assert(!front[front.len() - 1].contains(sep));
                if last.contains(sep) {
                    let k = last.index_of(sep);
                    assert(front.last()[k] == sep);
                }
            }
            assert forall|i: int| 0 <= i < all.len() implies !(#[trigger] all[i]).contains(sep) by {
                if i < all.len() - 1 {
                    assert(all[i] == front[i]);
                }
            }
        }
    }
}

/// A text is split at the first place where a part stands: the halves and the part make
/// up the text, and the part stands nowhere before. It is not split where the part
/// stands nowhere.
pub proof fn law_split_is_at_the_first(s: Seq<char>, part: Seq<char>)
    ensures
        match split_at_first(s, part) {
            Some((before, after)) => s == before + part + after && forall|j: int|
                0 <= j < before.len() ==> !#[trigger] occurs_at(s, part, j),
            None => forall|j: int| 0 <= j ==> !#[trigger] occurs_at(s, part, j),
        },
{
    match first_occurrence(s, part, 0) {
        Some(i) => {
            law_first_occurrence_is_least(s, part, 0, i);
            assert(s =~= s.take(i) + part + s.skip(i + part.len()));
        },
        None => {
            law_first_occurrence_is_least(s, part, 0, 0);
        },
    }
}

/// A text begins with another exactly if that and some rest make it up, and holds it
/// exactly if something before and something after make it up with it.
pub proof fn law_beginning_and_holding(s: Seq<char>, part: Seq<char>, before: Seq<char>, after: Seq<char>)
    ensures
        begins_with(part + after, part),
        begins_with(s, part) ==> s == part + s.skip(part.len() as int),
        contains_text(before + part + after, part),
        contains_text(s, part) ==> exists|i: int| occurs_at(s, part, i),
{
    assert((part + after).subrange(0, part.len() as int) =~= part);
    if begins_with(s, part) {
        assert(s =~= part + s.skip(part.len() as int));
    }
    let whole = before + part + after;
    assert(whole.subrange(before.len() as int, (before.len() + part.len()) as int) =~= part);
    assert(occurs_at(whole, part, before.len() as int));
    law_first_occurrence_is_least(whole, part, 0, 0);
    if let Some(i) = first_occurrence(s, part, 0) {
        law_first_occurrence_is_least(s, part, 0, i);
    }
}

/// The number that decimal digits stand for.
pub open spec fn number_of_digits(digits: Seq<char>) -> int
    decreases digits.len(),
{
    if digits.len() == 0 {
        0
    } else {
        number_of_digits(digits.drop_last()) * 10 + (digits.last() as int - 48)
    }
}

/// A number is printed in digits that stand for it, the first of which is not zero but
/// for zero itself.
pub proof fn law_digits_stand_for_the_number(n: nat)
    ensures
        number_of_digits(decimal(n)) == n,
        decimal(n).len() > 0,
        forall|i: int| 0 <= i < decimal(n).len() ==> '0' <= #[trigger] decimal(n)[i] <= '9',
        n > 0 ==> decimal(n)[0] != '0',
    decreases n,
{
    let last: int = (n % 10) as int;
    assert(digit(last) as int == 48 + last);
    if n < 10 {
        assert(decimal(n).drop_last() =~= Seq::<char>::empty());
        assert(number_of_digits(decimal(n).drop_last()) == 0);
    } else {
        law_digits_stand_for_the_number(n / 10);
        assert(decimal(n).drop_last() =~= decimal(n / 10));
        assert(decimal(n)[0] == decimal(n / 10)[0]);
        assert forall|i: int| 0 <= i < decimal(n).len() implies '0' <= #[trigger] decimal(n)[i]
            <= '9' by {
            if i < decimal(n / 10).len() {
                assert(decimal(n)[i] == decimal(n / 10)[i]);
            }
        }
    }
}

/// A negative number is printed with a minus sign before the digits of its size.
pub proof fn law_sign_comes_before_the_digits(n: int)
    ensures
        n >= 0 ==> number_of_digits(signed_decimal(n)) == n,
        n < 0 ==> signed_decimal(n)[0] == '-' && number_of_digits(signed_decimal(n).skip(1)) == -n,
{
    if n >= 0 {
        law_digits_stand_for_the_number(n as nat);
    } else {
        law_digits_stand_for_the_number((-n) as nat);
        assert(signed_decimal(n).skip(1) =~= decimal((-n) as nat));
    }
}

/// The characters that are white space, by their codes.
pub proof fn law_white_space(c: char)
    ensures
        is_white(c) <==> seq![
            9int,
            10,
            11,
            12,
            13,
            32,
            133,
            160,
            5760,
            8192,
            8193,
            8194,
            8195,
            8196,
            8197,
            8198,
            8199,
            8200,
            8201,
            8202,
            8232,
            8233,
            8239,
            8287,
            12288,
        ].contains(c as int),
{
    let codes = seq![
        9int,
        10,
        11,
        12,
        13,
        32,
        133,
        160,
        5760,
        8192,
        8193,
        8194,
        8195,
        8196,
        8197,
        8198,
        8199,
        8200,
        8201,
        8202,
        8232,
        8233,
        8239,
        8287,
        12288,
    ];
    if is_white(c) {
        let n = c as int;
        let k = if n <= 13 {
            n - 9
        } else if n == 32 {
            5
        } else if n == 133 {
            6
        } else if n == 160 {
            7
        } else if n == 5760 {
            8
        } else if n <= 8202 {
            n - 8183
        } else if n == 8232 {
            20
        } else if n == 8233 {
            21
        } else if n == 8239 {
            22
        } else if n == 8287 {
            23
        } else {
            24
        };
        assert(codes[k] == n);
    }
}

/// Texts in specifications are the texts themselves, one for one.
pub proof fn law_texts_are_the_texts(v: Seq<String>, t: Option<String>, i: int)
    ensures
        texts(v).len() == v.len(),
        0 <= i < v.len() ==> texts(v)[i] == v[i]@,
        t is Some <==> view_text(t) is Some,
        t matches Some(s) ==> view_text(t) == Some(s@),
{
}

}
