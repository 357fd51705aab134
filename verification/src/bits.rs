//! The bit-level data model: a buffer is a sequence of bits, most significant
//! bit of each byte first, and an `N`-bit unsigned read takes the value of the
//! first `N` remaining bits with the first bit most significant.

use vstd::prelude::*;

verus! {

/// A single bit read from a buffer.
#[derive(Clone, Copy, Debug, PartialEq, Eq, Structural)]
pub enum Bit {
    Zero,
    One,
}

impl Bit {
    /// The boolean a bit stands for.
    pub open spec fn spec_as_bool(self) -> bool {
        self matches Bit::One
    }

    pub fn as_bool(self) -> (b: bool)
        ensures
            b == self.spec_as_bool(),
    {
        matches!(self, Bit::One)
    }

    pub fn from_bool(b: bool) -> (r: Bit)
        ensures
            r == bit_of(b),
    {
        if b {
            Bit::One
        } else {
            Bit::Zero
        }
    }
}

/// The bit a boolean stands for.
pub open spec fn bit_of(b: bool) -> Bit {
    if b {
        Bit::One
    } else {
        Bit::Zero
    }
}

/// Bit `i` of a byte, counting from the most significant bit down.
pub open spec fn byte_bit(byte: u8, i: int) -> bool
    recommends
        0 <= i < 8,
{
    (byte >> ((7 - i) as u8)) & 1 == 1
}

/// A byte sequence as a bit sequence, each byte most significant bit first.
pub open spec fn bytes_to_bits(bytes: Seq<u8>) -> Seq<bool> {
    Seq::new((bytes.len() * 8) as nat, |i: int| byte_bit(bytes[i / 8], i % 8))
}

/// The unsigned value of a bit sequence, first bit most significant.
pub open spec fn bits_to_uint(bits: Seq<bool>) -> nat
    decreases bits.len(),
{
    if bits.len() == 0 {
        0
    } else {
        2 * bits_to_uint(bits.drop_last()) + (if bits.last() {
            1nat
        } else {
            0nat
        })
    }
}

/// A bit sequence regrouped into bytes, eight bits each, most significant
/// bit first.
pub open spec fn bits_to_bytes(bits: Seq<bool>) -> Seq<u8> {
    Seq::new((bits.len() / 8) as nat, |i: int| bits_to_uint(bits.subrange(8 * i, 8 * i + 8)) as u8)
}

} // verus!
