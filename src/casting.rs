//! Narrowing integer casts and type aliases of one integer type.
use vstd::prelude::*;

verus! {

/// A duration in nanoseconds; another name for `u64`.
pub type NanoSecond = u64;

/// A length in inches; another name for `u64`.
pub type Inch = u64;

/// The value of `n` modulo `m`, read as a two's complement number: residues
/// in the upper half of `0..m` stand for negatives.
pub open spec fn signed_residue(n: int, m: int) -> int {
    if n % m >= m / 2 {
        n % m - m
    } else {
        n % m
    }
}

/// Keeps the low eight bits of `n`: the value modulo 256.
pub fn wrap_to_u8(n: i32) -> (r: u8)
    ensures
        r == n % 256,
{
    let r = #[verifier::truncate] (n as u8);
    assert(r == n % 256) by (bit_vector)
        requires
            r == #[verifier::truncate] (n as u8),
    ;
    r
}

/// Keeps the low sixteen bits of `n`: the value modulo 65536.
pub fn wrap_to_u16(n: i32) -> (r: u16)
    ensures
        r == n % 65536,
{
    let r = #[verifier::truncate] (n as u16);
    assert(r == n % 65536) by (bit_vector)
        requires
            r == #[verifier::truncate] (n as u16),
    ;
    r
}

/// Reads the low eight bits of `n` as a two's complement number.
pub fn wrap_to_i8(n: i32) -> (r: i8)
    ensures
        r == signed_residue(n as int, 256),
{
    let low = wrap_to_u8(n);
    if low >= 128 {
        (low as i16 - 256) as i8
    } else {
        low as i8
    }
}

/// Reads the low sixteen bits of `n` as a two's complement number.
pub fn wrap_to_i16(n: i32) -> (r: i16)
    ensures
        r == signed_residue(n as int, 65536),
{
    let low = wrap_to_u16(n);
    if low >= 32768 {
        (low as i32 - 65536) as i16
    } else {
        low as i16
    }
}

} // verus!
