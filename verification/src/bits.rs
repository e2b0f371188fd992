//! Bit- and byte-extraction helpers for the machine words the processor
//! works with, together with wrapping 8-bit arithmetic.
use vstd::prelude::*;

verus! {

/// Single-bit tests, counted from the most significant bit downwards.
pub trait BitGet {
    /// How many bits the implementing word holds.
    spec fn bit_width(&self) -> u8;

    /// True when the most significant bit is set.
    fn get_high_bit(&self) -> bool;
    /// True when the second most significant bit is set.
    fn get_next_bit(&self) -> bool;
    /// True when the least significant bit is set.
    fn get_low_bit(&self) -> bool;
    /// True when the bit `n` positions below the most significant one is set.
    fn get_nth_bit(&self, n: u8) -> bool
        requires
            n < self.bit_width(),
    ;
}

/// Splitting a 16-bit word into its two bytes.
pub trait ByteGet {
    fn get_high_byte(&self) -> u8;
    fn get_low_byte(&self) -> u8;
}

/// Arithmetic that wraps around instead of overflowing, as the 8-bit
/// arithmetic unit of the processor does.
pub trait OverflowOp<T> {
    fn add_overflow(&self, value: T) -> T;
    fn sub_overflow(&self, value: T) -> T;
}

/// A half-open range test: the low bound is included, the high bound is not.
pub trait InBetween<T> {
    fn in_between(&self, low: T, high: T) -> bool;
}

impl BitGet for u8 {
    open spec fn bit_width(&self) -> u8 {
        8
    }

    fn get_high_bit(&self) -> (r: bool)
        ensures
            r == (*self & 0x80 != 0),
    {
        *self & 0x80 != 0
    }

    fn get_next_bit(&self) -> (r: bool)
        ensures
            r == (*self & 0x40 != 0),
    {
        *self & 0x40 != 0
    }

    fn get_low_bit(&self) -> (r: bool)
        ensures
            r == (*self & 0x01 != 0),
    {
        *self & 0x01 != 0
    }

    fn get_nth_bit(&self, n: u8) -> (r: bool)
        ensures
            r == ((*self >> (7 - n)) & 0x01 != 0),
    {
        (*self >> (7 - n)) & 0x01 != 0
    }
}

impl BitGet for u16 {
    open spec fn bit_width(&self) -> u8 {
        16
    }

    fn get_high_bit(&self) -> (r: bool)
        ensures
            r == (*self & 0x8000 != 0),
    {
        *self & 0x8000 != 0
    }

    fn get_next_bit(&self) -> (r: bool)
        ensures
            r == (*self & 0x4000 != 0),
    {
        *self & 0x4000 != 0
    }

    fn get_low_bit(&self) -> (r: bool)
        ensures
            r == (*self & 0x0001 != 0),
    {
        *self & 0x0001 != 0
    }

    fn get_nth_bit(&self, n: u8) -> (r: bool)
        ensures
            r == ((*self >> (15 - n) as u16) & 0x01 != 0),
    {
        (*self >> (15 - n) as u16) & 0x01 != 0
    }
}

impl ByteGet for u16 {
    fn get_high_byte(&self) -> (r: u8)
        ensures
            r == (*self / 0x100) as u8,
    {
        (*self / 0x100) as u8
    }

    fn get_low_byte(&self) -> (r: u8)
        ensures
            r == (*self % 0x100) as u8,
    {
        (*self % 0x100) as u8
    }
}

impl OverflowOp<u8> for u8 {
    fn add_overflow(&self, value: u8) -> (r: u8)
        ensures
            r == self.wrapping_add(value),
    {
        self.wrapping_add(value)
    }

    fn sub_overflow(&self, value: u8) -> (r: u8)
        ensures
            r == self.wrapping_sub(value),
    {
        self.wrapping_sub(value)
    }
}

/// Bounds of the masking operations the memory map uses, so that masked
/// addresses are known to index their storage blocks in range.
pub proof fn lemma_mask_bounds()
    by (bit_vector)
    ensures
        forall|x: u16| #[trigger] (x & 0x7FFF) < 0x8000,
        forall|x: u16| #[trigger] (x & 0x3FFF) < 0x4000,
        forall|x: u16| #[trigger] (x & 0x07FF) < 0x0800,
        forall|x: u16| #[trigger] (x & 0x0007) < 8,
        forall|x: u16| #[trigger] (x & 0x0017) < 0x18,
        forall|x: u16| #[trigger] (x & 0x001F) < 0x20,
        forall|x: u16| #[trigger] (x & 0x03FF) < 0x0400,
{
}

impl InBetween<u16> for u16 {
    fn in_between(&self, low: u16, high: u16) -> (r: bool)
        ensures
            r == (low <= *self && *self < high),
    {
        low <= *self && *self < high
    }
}

} // verus!
