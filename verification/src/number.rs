//! Floating-point numbers as the bit patterns of their IEEE 754 encodings,
//! and the bytes of a 32-bit word in a buffer.

use vstd::prelude::*;

verus! {

/// A single-precision number, held as the 32 bits of its encoding: one sign
/// bit, eight exponent bits, twenty-three fraction bits.
#[derive(Clone, Copy, Debug, PartialEq, Eq, Structural)]
pub struct Single {
    pub bits: u32,
}

/// A double-precision number, held as the 64 bits of its encoding: one sign
/// bit, eleven exponent bits, fifty-two fraction bits.
#[derive(Clone, Copy, Debug, PartialEq, Eq, Structural)]
pub struct Double {
    pub bits: u64,
}

/// The encoding of `0.0`.
pub const SINGLE_ZERO_BITS: u32 = 0;

/// The encoding of `1.0`.
pub const SINGLE_ONE_BITS: u32 = 0x3f80_0000;

impl Single {
    /// The value is not a number: all exponent bits are set, and some bit
    /// of the fraction.
    pub open spec fn is_nan(self) -> bool {
        self.bits / 0x80_0000 % 256 == 255 && self.bits % 0x80_0000 != 0
    }

    /// The place of a number among the numbers: the bits behind the sign
    /// bit, counted below zero for a negative number. Both zeros have the
    /// place zero.
    pub open spec fn key(self) -> int {
        if self.bits >= 0x8000_0000 {
            -((self.bits - 0x8000_0000) as int)
        } else {
            self.bits as int
        }
    }

    /// Both values are numbers and `self` is not greater than `other`.
    pub open spec fn spec_le(self, other: Single) -> bool {
        !self.is_nan() && !other.is_nan() && self.key() <= other.key()
    }

    /// The value inside the bounds `min` and `max` that is nearest to
    /// `self`. Where the bounds are no numbers or lie the wrong way round,
    /// and where `self` is no number, it is `self`.
    pub open spec fn clamped(self, min: Single, max: Single) -> Single {
        if self.is_nan() || !min.spec_le(max) {
            self
        } else if !min.spec_le(self) {
            min
        } else if !self.spec_le(max) {
            max
        } else {
            self
        }
    }

    /// The value is not a number.
    pub fn is_not_a_number(&self) -> (yes: bool)
        ensures
            yes == self.is_nan(),
    {
        self.bits / 0x80_0000 % 256 == 255 && self.bits % 0x80_0000 != 0
    }

    /// Compares two numbers: `false` where one of the values is none.
    pub fn le(&self, other: &Single) -> (yes: bool)
        ensures
            yes == self.spec_le(*other),
    {
        if self.is_not_a_number() || other.is_not_a_number() {
            return false;
        }
        let a: i64 = if self.bits >= 0x8000_0000 {
            -((self.bits - 0x8000_0000) as i64)
        } else {
            self.bits as i64
        };
        let b: i64 = if other.bits >= 0x8000_0000 {
            -((other.bits - 0x8000_0000) as i64)
        } else {
            other.bits as i64
        };
        a <= b
    }

    /// Keeps a number inside the bounds `min` and `max`.
    pub fn clamp(self, min: Single, max: Single) -> (r: Single)
        ensures
            r == self.clamped(min, max),
            !self.is_nan() && min.spec_le(max) ==> min.spec_le(r) && r.spec_le(max),
    {
        if self.is_not_a_number() || !min.le(&max) {
            self
        } else if !min.le(&self) {
            min
        } else if !self.le(&max) {
            max
        } else {
            self
        }
    }

    /// The number `0.0`.
    pub fn zero() -> (x: Single)
        ensures
            x.bits == SINGLE_ZERO_BITS,
    {
        Single { bits: SINGLE_ZERO_BITS }
    }

    /// The number `1.0`.
    pub fn one() -> (x: Single)
        ensures
            x.bits == SINGLE_ONE_BITS,
    {
        Single { bits: SINGLE_ONE_BITS }
    }
}

/// The four bytes of a word, least significant first.
pub open spec fn word_bytes(w: u32) -> Seq<u8> {
    seq![
        (w % 256) as u8,
        (w / 256 % 256) as u8,
        (w / 65536 % 256) as u8,
        (w / 16777216) as u8,
    ]
}

/// A run of `n` zero bytes.
pub open spec fn zeros(n: nat) -> Seq<u8> {
    Seq::new(n, |i: int| 0u8)
}

/// The number of bytes that bring `offset` up to the next multiple of
/// `alignment`; none where the alignment is zero.
pub open spec fn padding_to(offset: nat, alignment: nat) -> nat {
    if alignment == 0 || offset % alignment == 0 {
        0
    } else {
        (alignment - offset % alignment) as nat
    }
}

/// After its padding an offset is a multiple of the alignment.
pub proof fn lemma_padding_aligns(offset: nat, alignment: nat)
    requires
        alignment > 0,
    ensures
        (offset + padding_to(offset, alignment)) % alignment == 0,
        padding_to(offset, alignment) < alignment,
{
    let r = offset % alignment;
    if r != 0 {
        assert((offset + (alignment - r)) % (alignment as int) == 0) by (nonlinear_arith)
            requires
                r == offset % alignment,
                0 < r < alignment,
        ;
    }
}

/// Appends the four bytes of `w`, least significant first.
pub fn push_word(buf: &mut Vec<u8>, w: u32)
    ensures
        final(buf)@ == old(buf)@ + word_bytes(w),
{
    buf.push((w % 256) as u8);
    buf.push((w / 256 % 256) as u8);
    buf.push((w / 65536 % 256) as u8);
    buf.push((w / 16777216) as u8);
    assert(buf@ =~= old(buf)@ + word_bytes(w));
}

/// Appends zero bytes until the length of `buf` is a multiple of
/// `alignment`.
pub fn pad_to(buf: &mut Vec<u8>, alignment: usize)
    requires
        alignment > 0,
    ensures
        final(buf)@ == old(buf)@ + zeros(padding_to(old(buf)@.len(), alignment as nat)),
{
    let rest: usize = buf.len() % alignment;
    if rest != 0 {
        let count: usize = alignment - rest;
        let mut done: usize = 0;
        while done < count
            invariant
                done <= count,
                buf@ == old(buf)@ + zeros(done as nat),
            decreases count - done,
        {
            buf.push(0u8);
            done = done + 1;
            assert(buf@ =~= old(buf)@ + zeros(done as nat));
        }
    } else {
        assert(buf@ =~= old(buf)@ + zeros(0));
    }
}

} // verus!
