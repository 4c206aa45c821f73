//! Ordered keys of single-precision numbers.
//!
//! A number is handed in as its bit pattern: one sign bit, then 31 bits of
//! magnitude that grow as the absolute value does. Its key is the magnitude
//! with the sign in front, so keys order as the numbers do and both zeros
//! share the key zero. A pattern that stands for no number has no key.

use vstd::prelude::*;

verus! {

/// The key of one.
pub const ONE: i64 = 0x3f80_0000;

/// The largest magnitude that stands for a number: that of infinity.
pub const INFINITE: u32 = 0x7f80_0000;

/// The pattern without its sign bit.
pub open spec fn magnitude(bits: u32) -> u32 {
    bits & 0x7fff_ffff
}

/// The sign bit is set.
pub open spec fn negative(bits: u32) -> bool {
    bits >> 31 == 1
}

/// The pattern stands for a number, infinite ones included.
pub open spec fn ordered(bits: u32) -> bool {
    magnitude(bits) <= INFINITE
}

/// The key of a pattern that stands for a number.
pub open spec fn key_of(bits: u32) -> int {
    if negative(bits) {
        -(magnitude(bits) as int)
    } else {
        magnitude(bits) as int
    }
}

/// Gives the key of a bit pattern, and `None` exactly where the pattern
/// stands for no number.
pub fn key(bits: u32) -> (r: Option<i64>)
    ensures
        r is None <==> !ordered(bits),
        r matches Some(k) ==> k == key_of(bits),
{
    let magnitude: u32 = bits & 0x7fff_ffff;
    assert(magnitude <= 0x7fff_ffff) by (bit_vector)
        requires
            magnitude == bits & 0x7fff_ffff,
    ;
    if magnitude > INFINITE {
        None
    } else if bits >> 31 == 1 {
        Some(-(magnitude as i64))
    } else {
        Some(magnitude as i64)
    }
}

/// A key has the sign of its number: it is zero for both zeros, positive
/// where the sign bit is clear and negative where it is set.
pub proof fn lemma_key_has_the_sign(bits: u32)
    ensures
        key_of(bits) == 0 <==> magnitude(bits) == 0,
        key_of(bits) > 0 <==> !negative(bits) && magnitude(bits) != 0,
        key_of(bits) < 0 <==> negative(bits) && magnitude(bits) != 0,
        -0x7fff_ffff <= key_of(bits) <= 0x7fff_ffff,
{
    assert(bits & 0x7fff_ffff <= 0x7fff_ffff) by (bit_vector);
}

/// Keys order as sign and magnitude do: among numbers that are not
/// negative the larger magnitude has the larger key, among negative ones
/// the smaller key, and no negative number has a key above that of one
/// that is not negative.
pub proof fn lemma_key_orders(x: u32, y: u32)
    ensures
        !negative(x) && !negative(y) ==> (key_of(x) < key_of(y) <==> magnitude(x) < magnitude(y)),
        negative(x) && negative(y) ==> (key_of(x) < key_of(y) <==> magnitude(x) > magnitude(y)),
        negative(x) && !negative(y) ==> key_of(x) <= key_of(y),
        key_of(x) == key_of(y) <==> magnitude(x) == magnitude(y) && (negative(x) == negative(y)
            || magnitude(x) == 0),
{
    assert(x & 0x7fff_ffff <= 0x7fff_ffff) by (bit_vector);
    assert(y & 0x7fff_ffff <= 0x7fff_ffff) by (bit_vector);
}

/// The pattern of one has the key `ONE`, and the two patterns of zero have
/// the key zero.
pub proof fn lemma_keys_of_one_and_zero()
    ensures
        ordered(0x3f80_0000) && key_of(0x3f80_0000) == ONE,
        ordered(0) && key_of(0) == 0,
        ordered(0x8000_0000) && key_of(0x8000_0000) == 0,
{
    assert(0x3f80_0000u32 & 0x7fff_ffff == 0x3f80_0000) by (bit_vector);
    assert(0x3f80_0000u32 >> 31 == 0) by (bit_vector);
    assert(0u32 & 0x7fff_ffff == 0) by (bit_vector);
    assert(0u32 >> 31 == 0) by (bit_vector);
    assert(0x8000_0000u32 & 0x7fff_ffff == 0) by (bit_vector);
    assert(0x8000_0000u32 >> 31 == 1) by (bit_vector);
}

} // verus!
