//! Narrowing and widening between Rust's integers and the C types of the
//! native mixer.
//!
//! The native layer takes and returns C `int`s. A pointer-sized integer
//! that does not fit is not refused: it wraps, as a C cast would have it.

use vstd::prelude::*;

verus! {

/// The value of the 32-bit signed range that differs from `x` by a
/// multiple of 2^32: `x` itself where it is in the range.
pub open spec fn wrap_c_int(x: int) -> int {
    (x + 0x8000_0000) % 0x1_0000_0000 - 0x8000_0000
}

/// The value of the 32-bit unsigned range that differs from `x` by a
/// multiple of 2^32: `x` itself where it is in the range.
pub open spec fn wrap_c_uint(x: int) -> int {
    x % 0x1_0000_0000
}

/// The C `int` that keeps the low 32 bits of `x`.
pub open spec fn narrowed(x: isize) -> i32 {
    wrap_c_int(x as int) as i32
}

/// The C `int` with the same 32 bits as the flag word `bits`.
pub open spec fn signed_bits(bits: u32) -> i32 {
    wrap_c_int(bits as int) as i32
}

/// The flag word with the same 32 bits as the C `int` `x`.
pub open spec fn unsigned_bits(x: i32) -> u32 {
    wrap_c_uint(x as int) as u32
}

/// The C truth value of `flag`.
pub open spec fn truth(flag: bool) -> i32 {
    if flag {
        1
    } else {
        0
    }
}

/// Wrapping lands in the range and leaves alone what is in it already.
pub proof fn lemma_wrap_in_range(x: int)
    ensures
        i32::MIN <= wrap_c_int(x) <= i32::MAX,
        0 <= wrap_c_uint(x) <= u32::MAX,
        i32::MIN <= x <= i32::MAX ==> wrap_c_int(x) == x,
        0 <= x <= u32::MAX ==> wrap_c_uint(x) == x,
{
}

/// Reading a flag word as a C `int` and back changes nothing.
pub proof fn lemma_bits_round_trip(bits: u32)
    ensures
        unsigned_bits(signed_bits(bits)) == bits,
{
}

/// Narrows a pointer-sized integer to a C `int`, keeping the low 32 bits.
#[verifier::when_used_as_spec(narrowed)]
pub fn c_int(x: isize) -> (r: i32)
    ensures
        r == narrowed(x),
        i32::MIN <= x <= i32::MAX ==> r == x,
{
    assert(x as i32 == (x + 0x8000_0000) % 0x1_0000_0000 - 0x8000_0000) by (bit_vector);
    #[verifier::truncate]
    (x as i32)
}

/// Reads the 32 bits of a flag word as a C `int`.
#[verifier::when_used_as_spec(signed_bits)]
pub fn bits_to_c_int(bits: u32) -> (r: i32)
    ensures
        r == signed_bits(bits),
        bits <= i32::MAX ==> r == bits,
{
    assert(bits as i32 == (bits + 0x8000_0000) % 0x1_0000_0000 - 0x8000_0000) by (bit_vector);
    #[verifier::truncate]
    (bits as i32)
}

/// Reads the 32 bits of a C `int` as a flag word.
#[verifier::when_used_as_spec(unsigned_bits)]
pub fn c_int_to_bits(x: i32) -> (r: u32)
    ensures
        r == unsigned_bits(x),
        x >= 0 ==> r == x,
{
    assert(x as u32 == (x as int) % 0x1_0000_0000) by (bit_vector);
    #[verifier::truncate]
    (x as u32)
}

/// A C truth value: 1 for `true`, 0 for `false`.
#[verifier::when_used_as_spec(truth)]
pub fn c_bool(flag: bool) -> (r: i32)
    ensures
        r == truth(flag),
{
    if flag {
        1
    } else {
        0
    }
}

} // verus!
