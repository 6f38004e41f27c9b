//! Signed numbers of the protocol that are read as unsigned ones.

use vstd::prelude::*;

verus! {

/// The value that a signed number has when its sign bit is extended to 64 bits and the
/// bits are read as an unsigned number.
pub open spec fn sign_extended(value: i32) -> int {
    if value >= 0 {
        value as int
    } else {
        value + 0x1_0000_0000_0000_0000
    }
}

/// The value of the bits of a signed number, read as an unsigned number.
pub open spec fn reinterpreted(value: i32) -> int {
    if value >= 0 {
        value as int
    } else {
        value + 0x1_0000_0000
    }
}

/// Reads the bits of a signed number as an unsigned number.
pub fn reinterpret(value: i32) -> (result: u32)
    ensures
        result == reinterpreted(value),
{
    assert(value >= 0 ==> (value as u32) == value) by (bit_vector);
    assert(value < 0 ==> (value as u32) == value + 0x1_0000_0000) by (bit_vector);
    #[verifier::truncate]
    (value as u32)
}

/// Extends the sign of a number to 64 bits and reads the bits as an unsigned number.
pub fn sign_extend(value: i32) -> (result: u64)
    ensures
        result == sign_extended(value),
{
    assert(value >= 0 ==> (value as u64) == value) by (bit_vector);
    assert(value < 0 ==> (value as u64) == value + 0x1_0000_0000_0000_0000) by (bit_vector);
    #[verifier::truncate]
    (value as u64)
}

/// Each reading keeps the low bits of the number: it differs from the number by a multiple
/// of the first power of two that it stays below, and it is not negative.
pub proof fn lemma_readings_keep_the_bits(value: i32)
    ensures
        0 <= reinterpreted(value) < 0x1_0000_0000,
        (reinterpreted(value) - value) % 0x1_0000_0000 == 0,
        0 <= sign_extended(value) < 0x1_0000_0000_0000_0000,
        (sign_extended(value) - value) % 0x1_0000_0000_0000_0000 == 0,
{
}

} // verus!
