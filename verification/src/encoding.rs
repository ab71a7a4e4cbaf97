//! Images and credentials in Base64.
use base64::Engine;
use vstd::prelude::*;

verus! {

/// The digit of six bits in Base64.
pub open spec fn base64_digit(n: int) -> char {
    if n < 26 {
        ('A' as int + n) as char
    } else if n < 52 {
        ('a' as int + n - 26) as char
    } else if n < 62 {
        ('0' as int + n - 52) as char
    } else if n == 62 {
        '+'
    } else {
        '/'
    }
}

/// Bytes in Base64: four digits for every three bytes, the last group filled up
/// with `=`.
pub open spec fn base64_text(bytes: Seq<u8>) -> Seq<char>
    decreases bytes.len(),
{
    if bytes.len() == 0 {
        Seq::empty()
    } else if bytes.len() == 1 {
        seq![
            base64_digit(bytes[0] as int / 4),
            base64_digit(bytes[0] as int % 4 * 16),
            '=',
            '=',
        ]
    } else if bytes.len() == 2 {
        seq![
            base64_digit(bytes[0] as int / 4),
            base64_digit(bytes[0] as int % 4 * 16 + bytes[1] as int / 16),
            base64_digit(bytes[1] as int % 16 * 4),
            '=',
        ]
    } else {
        seq![
            base64_digit(bytes[0] as int / 4),
            base64_digit(bytes[0] as int % 4 * 16 + bytes[1] as int / 16),
            base64_digit(bytes[1] as int % 16 * 4 + bytes[2] as int / 64),
            base64_digit(bytes[2] as int % 64),
        ] + base64_text(bytes.skip(3))
    }
}

/// The text of so many bytes in Base64 fits in memory.
pub open spec fn fits_encoded(len: nat) -> bool {
    (len + 2) / 3 * 4 <= isize::MAX
}

/// Calls `base64::Engine::encode` with the standard alphabet and padding,
/// `base64::engine::general_purpose::STANDARD`.
///
/// Claimed: the text is the bytes in Base64 as RFC 4648 has it.
#[verifier::external_body]
pub(crate) fn encode_base64(bytes: &[u8]) -> (r: String)
    requires
        fits_encoded(bytes@.len()),
    ensures
        r@ == base64_text(bytes@),
{
    base64::engine::general_purpose::STANDARD.encode(bytes)
}

/// A picture as the address of its own data.
pub open spec fn jpeg_url(bytes: Seq<u8>) -> Seq<char> {
    "data:image/jpeg;base64,"@ + base64_text(bytes)
}

/// The thumbnail in the given bytes, as the address of its own data.
pub fn get_thumbnail_base64(data: &[u8]) -> (r: String)
    requires
        fits_encoded(data@.len()),
    ensures
        r@ == jpeg_url(data@),
{
    let encoded = encode_base64(data);
    let mut out = "data:image/jpeg;base64,".to_owned();
    out.append(encoded.as_str());
    out
}

/// In Base64 there are four digits for every three bytes begun.
pub proof fn law_base64_length(bytes: Seq<u8>)
    ensures
        base64_text(bytes).len() == (bytes.len() + 2) / 3 * 4,
    decreases bytes.len(),
{
    if bytes.len() >= 3 {
        law_base64_length(bytes.skip(3));
    }
}

proof fn lemma_digits_differ(m: int, n: int)
    requires
        0 <= m < 64,
        0 <= n < 64,
        base64_digit(m) == base64_digit(n),
    ensures
        m == n,
{
}

/// Different bytes have different texts in Base64.
pub proof fn law_base64_tells_bytes_apart(a: Seq<u8>, b: Seq<u8>)
    requires
        base64_text(a) == base64_text(b),
    ensures
        a == b,
    decreases a.len(),
{
    law_base64_length(a);
    law_base64_length(b);
    let s = base64_text(a);
    let t = base64_text(b);
    if a.len() == 0 || b.len() == 0 {
        assert(a =~= b);
    } else {
        lemma_first_group(a);
        lemma_first_group(b);
        assert(s[0] == t[0] && s[1] == t[1] && s[2] == t[2] && s[3] == t[3]);
        lemma_digits_differ(a[0] as int / 4, b[0] as int / 4);
        if a.len() >= 3 && b.len() >= 3 {
            lemma_digits_differ(
                a[0] as int % 4 * 16 + a[1] as int / 16,
                b[0] as int % 4 * 16 + b[1] as int / 16,
            );
            lemma_digits_differ(
                a[1] as int % 16 * 4 + a[2] as int / 64,
                b[1] as int % 16 * 4 + b[2] as int / 64,
            );
            lemma_digits_differ(a[2] as int % 64, b[2] as int % 64);
            assert(s.skip(4) =~= base64_text(a.skip(3)));
            assert(t.skip(4) =~= base64_text(b.skip(3)));
            law_base64_tells_bytes_apart(a.skip(3), b.skip(3));
            assert forall|i: int| 0 <= i < a.len() implies a[i] == b[i] by {
                if i >= 3 {
                    assert(a.skip(3)[i - 3] == b.skip(3)[i - 3]);
                }
            }
            assert(a.len() == a.skip(3).len() + 3);
            assert(a =~= b);
        } else if a.len() == 2 && b.len() == 2 {
            lemma_digits_differ(
                a[0] as int % 4 * 16 + a[1] as int / 16,
                b[0] as int % 4 * 16 + b[1] as int / 16,
            );
            lemma_digits_differ(a[1] as int % 16 * 4, b[1] as int % 16 * 4);
            assert(a =~= b);
        } else if a.len() == 1 && b.len() == 1 {
            lemma_digits_differ(a[0] as int % 4 * 16, b[0] as int % 4 * 16);
            assert(a =~= b);
        }
    }
}

/// Where the padding of the first group stands.
proof fn lemma_first_group(bytes: Seq<u8>)
    requires
        bytes.len() > 0,
    ensures
        base64_text(bytes).len() >= 4,
        base64_text(bytes)[0] == base64_digit(bytes[0] as int / 4),
        (base64_text(bytes)[3] == '=') == (bytes.len() <= 2),
        (base64_text(bytes)[2] == '=') == (bytes.len() <= 1),
{
}

/// The number that a digit of Base64 stands for.
pub open spec fn digit_value(c: char) -> int {
    if 'A' <= c <= 'Z' {
        c as int - 65
    } else if 'a' <= c <= 'z' {
        c as int - 71
    } else if '0' <= c <= '9' {
        c as int + 4
    } else if c == '+' {
        62
    } else {
        63
    }
}

/// Each number below 64 has a digit that stands for it.
pub proof fn law_digit_stands_for_its_number(n: int)
    requires
        0 <= n < 64,
    ensures
        digit_value(base64_digit(n)) == n,
        base64_digit(n) != '=',
        n == 63 ==> base64_digit(n) == '/',
{
}

/// Bytes can be read back from Base64, three by three: four digits stand for the number
/// that three bytes make up, and what is left of one or two bytes is filled with `=`.
pub proof fn law_base64_is_read_back(bytes: Seq<u8>)
    ensures
        bytes.len() == 0 ==> base64_text(bytes).len() == 0,
        bytes.len() == 1 ==> {
            let t = base64_text(bytes);
            t.len() == 4 && digit_value(t[0]) * 64 + digit_value(t[1]) == bytes[0] * 16 && t[2] == '='
                && t[3] == '='
        },
        bytes.len() == 2 ==> {
            let t = base64_text(bytes);
            t.len() == 4 && digit_value(t[0]) * 4096 + digit_value(t[1]) * 64 + digit_value(t[2]) == (
            bytes[0] * 256 + bytes[1]) * 4 && t[3] == '='
        },
        bytes.len() >= 3 ==> {
            let t = base64_text(bytes);
            t.len() >= 4 && digit_value(t[0]) * 262144 + digit_value(t[1]) * 4096 + digit_value(t[2])
                * 64 + digit_value(t[3]) == bytes[0] * 65536 + bytes[1] * 256 + bytes[2] && t.skip(4)
                == base64_text(bytes.skip(3))
        },
{
    if bytes.len() >= 1 {
        let a = bytes[0] as int;
        law_digit_stands_for_its_number(a / 4);
        law_digit_stands_for_its_number(a % 4 * 16);
        if bytes.len() >= 2 {
            let b = bytes[1] as int;
            law_digit_stands_for_its_number(a % 4 * 16 + b / 16);
            law_digit_stands_for_its_number(b % 16 * 4);
            if bytes.len() >= 3 {
                let c = bytes[2] as int;
                law_digit_stands_for_its_number(b % 16 * 4 + c / 64);
                law_digit_stands_for_its_number(c % 64);
                assert(base64_text(bytes).skip(4) =~= base64_text(bytes.skip(3)));
            }
        }
    }
}

/// A thumbnail is the address of its data, in Base64.
pub proof fn law_thumbnail_is_its_data(bytes: Seq<u8>)
    ensures
        jpeg_url(bytes) == "data:image/jpeg;base64,"@ + base64_text(bytes),
{
}

}
