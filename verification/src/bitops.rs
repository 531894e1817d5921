//! Single-bit tests and updates on bytes, and byte reversal.
//!
//! These helpers are shared by the CPU flag logic, the joypad shift
//! register, the mappers and the PPU.

use vstd::prelude::*;

verus! {

/// True when bit `i` (0 = least significant) of `v` is set.
pub open spec fn bit8(v: u8, i: u8) -> bool {
    v & (1u8 << i) != 0
}

/// `v` with bit `i` forced to `on`, all other bits kept.
pub open spec fn with_bit8(v: u8, i: u8, on: bool) -> u8 {
    if on {
        v | (1u8 << i)
    } else {
        v & !(1u8 << i)
    }
}

/// Bit `i` of `with_bit8(v, pos, on)` is `on` at `pos` and bit `i` of `v`
/// elsewhere.
pub proof fn lemma_with_bit8(v: u8, pos: u8, on: bool)
    by (bit_vector)
    requires
        pos < 8,
    ensures
        forall|i: u8| i < 8 ==> #[trigger] bit8(with_bit8(v, pos, on), i) == (if i == pos {
            on
        } else {
            bit8(v, i)
        }),
{
}

/// Reads a single bit of a byte.
pub fn test_bit(v: u8, pos: u8) -> (r: bool)
    requires
        pos < 8,
    ensures
        r == bit8(v, pos),
{
    v & (1u8 << pos) != 0
}

/// Returns `v` with bit `pos` set to `on`.
pub fn modify_bit(v: u8, pos: u8, on: bool) -> (r: u8)
    requires
        pos < 8,
    ensures
        r == with_bit8(v, pos, on),
{
    if on {
        v | (1u8 << pos)
    } else {
        v & !(1u8 << pos)
    }
}

/// The byte whose bit `i` equals bit `7 - i` of `v`, for every `i`.
pub open spec fn reversed8(v: u8) -> u8 {
    let s1 = ((v & 0xF0u8) >> 4) | ((v & 0x0Fu8) << 4);
    let s2 = ((s1 & 0xCCu8) >> 2) | ((s1 & 0x33u8) << 2);
    ((s2 & 0xAAu8) >> 1) | ((s2 & 0x55u8) << 1)
}

/// The swap network in `reversed8` mirrors the bit order.
pub proof fn lemma_reversed8(v: u8)
    by (bit_vector)
    ensures
        forall|i: u8| i < 8 ==> #[trigger] bit8(reversed8(v), i) == bit8(v, (7 - i) as u8),
{
}

/// Mirrors the bit order of a byte: bit 7 trades places with bit 0,
/// bit 6 with bit 1, and so on.
pub fn reverse_byte(v: u8) -> (r: u8)
    ensures
        r == reversed8(v),
{
    let s1 = ((v & 0xF0u8) >> 4) | ((v & 0x0Fu8) << 4);
    let s2 = ((s1 & 0xCCu8) >> 2) | ((s1 & 0x33u8) << 2);
    ((s2 & 0xAAu8) >> 1) | ((s2 & 0x55u8) << 1)
}

} // verus!
