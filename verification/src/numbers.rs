//! Conversions between the integer widths of the debugger and of the protocol.

use vstd::prelude::*;

verus! {

/// The low 32 bits of `n`.
pub open spec fn low_word(n: u64) -> u32 {
    (n % 0x1_0000_0000) as u32
}

/// The 32-bit pattern `n`, read as a two's complement number.
pub open spec fn as_signed(n: u32) -> i32 {
    if n < 0x8000_0000 {
        n as i32
    } else {
        (n - 0x1_0000_0000) as i32
    }
}

/// The two's complement pattern of `n` in 32 bits.
pub open spec fn as_unsigned(n: i32) -> u32 {
    if n >= 0 {
        n as u32
    } else {
        (n + 0x1_0000_0000) as u32
    }
}

/// The two's complement pattern of `n` in 64 bits.
pub open spec fn sign_extended(n: i32) -> u64 {
    if n >= 0 {
        n as u64
    } else {
        (n + 0x1_0000_0000_0000_0000) as u64
    }
}

/// `n`, or the largest 32-bit number where `n` is larger.
pub open spec fn capped(n: nat) -> u32 {
    if n <= u32::MAX {
        n as u32
    } else {
        u32::MAX
    }
}

/// Keeps the low 32 bits of `n`.
pub fn truncate_u32(n: u64) -> (r: u32)
    ensures
        r == low_word(n),
{
    assert(n as u32 == n % 0x1_0000_0000) by (bit_vector);
    #[verifier::truncate]
    (n as u32)
}

/// Keeps the low 32 bits of `n`, as a signed number.
pub fn truncate_i32(n: u64) -> (r: i32)
    ensures
        r == as_signed(low_word(n)),
{
    let word: u32 = truncate_u32(n);
    assert(word < 0x8000_0000 ==> word as i32 == word) by (bit_vector);
    assert(word >= 0x8000_0000 ==> word as i32 == word - 0x1_0000_0000) by (bit_vector);
    #[verifier::truncate]
    (word as i32)
}

/// Reads the bits of `n` as an unsigned number.
pub fn reinterpret_u32(n: i32) -> (r: u32)
    ensures
        r == as_unsigned(n),
{
    assert(n >= 0 ==> n as u32 == n) by (bit_vector);
    assert(n < 0 ==> n as u32 == n + 0x1_0000_0000) by (bit_vector);
    #[verifier::truncate]
    (n as u32)
}

/// Extends the sign of `n` to 64 bits and reads them as an unsigned number.
pub fn extend_u64(n: i32) -> (r: u64)
    ensures
        r == sign_extended(n),
{
    assert(n >= 0 ==> n as u64 == n) by (bit_vector);
    assert(n < 0 ==> n as u64 == n + 0x1_0000_0000_0000_0000) by (bit_vector);
    #[verifier::truncate]
    (n as u64)
}

/// Caps a length at the largest 32-bit number.
pub fn cap_u32(n: usize) -> (r: u32)
    ensures
        r == capped(n as nat),
{
    if n <= 0xFFFF_FFFF {
        n as u32
    } else {
        u32::MAX
    }
}

/// Keeping the low 32 bits loses a multiple of the width, and nothing of a number that fits.
pub proof fn law_low_word_is_congruent(n: u64)
    ensures
        (n - low_word(n)) % 0x1_0000_0000 == 0,
        n <= u32::MAX ==> low_word(n) == n,
{
}

/// Reading a pattern with or without a sign changes it by a multiple of the width, and not at all
/// where the number can be read both ways; reading it there and back changes nothing.
pub proof fn law_sign_patterns_are_congruent(signed: i32, pattern: u32)
    ensures
        (as_unsigned(signed) - signed) % 0x1_0000_0000 == 0,
        (as_signed(pattern) - pattern) % 0x1_0000_0000 == 0,
        (sign_extended(signed) - signed) % 0x1_0000_0000_0000_0000 == 0,
        signed >= 0 ==> as_unsigned(signed) == signed && sign_extended(signed) == signed,
        as_signed(as_unsigned(signed)) == signed,
        as_unsigned(as_signed(pattern)) == pattern,
        low_word(sign_extended(signed)) == as_unsigned(signed),
{
}

/// A capped length is the largest 32-bit number that does not exceed the length.
pub proof fn law_capped_is_largest(len: nat, other: u32)
    ensures
        capped(len) <= len,
        other <= len ==> other <= capped(len),
{
}

} // verus!
