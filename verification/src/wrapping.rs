//! Conversions that wrap around.
use vstd::prelude::*;

verus! {

/// A natural number below `2^64` as a signed one of 64 bits: the upper half
/// wraps to negative numbers.
pub open spec fn signed(n: int) -> int {
    if n <= i64::MAX {
        n
    } else {
        n - 0x1_0000_0000_0000_0000
    }
}

/// `n` as a signed number.
pub fn to_signed(n: u64) -> (r: i64)
    ensures
        r == signed(n as int),
{
    if n <= 0x7fff_ffff_ffff_ffff {
        n as i64
    } else {
        let rest: i64 = (u64::MAX - n) as i64;
        -rest - 1
    }
}

/// The signed number of 32 bits that `n` wraps to.
pub open spec fn low_half(n: int) -> int {
    let rest = n % 0x1_0000_0000;
    if rest < 0x8000_0000 {
        rest
    } else {
        rest - 0x1_0000_0000
    }
}

/// The lower half of `n`.
pub fn to_low_half(n: i64) -> (r: i32)
    ensures
        r == low_half(n as int),
{
    let raised: u64 = (n as i128 + 0x8000_0000_0000_0000) as u64;
    let rest: u64 = raised % 0x1_0000_0000;
    assert(rest == (n as int) % 0x1_0000_0000);
    if rest < 0x8000_0000 {
        rest as i32
    } else {
        (rest as i64 - 0x1_0000_0000) as i32
    }
}

/// A number that fits is kept.
pub proof fn law_small_numbers_are_kept(n: int)
    ensures
        0 <= n <= i64::MAX ==> signed(n) == n,
        i32::MIN <= n <= i32::MAX ==> low_half(n) == n,
{
}

/// What wraps differs by a multiple of the size of the type, and fits in it.
pub proof fn law_wrapping_is_modular(n: int)
    ensures
        0 <= n <= u64::MAX ==> i64::MIN <= signed(n) <= i64::MAX,
        (n - signed(n)) % 0x1_0000_0000_0000_0000 == 0,
        i32::MIN <= low_half(n) <= i32::MAX,
        (n - low_half(n)) % 0x1_0000_0000 == 0,
{
}

}
