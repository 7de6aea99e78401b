//! The unsigned integer widths that can back a register.
//!
//! Every width is modelled by its value widened to 64 bits, so that the
//! field algebra can be stated once, over `u64`, for all of them.

use vstd::prelude::*;

verus! {

/// The 64-bit value whose low `width` bits are set and no others.
pub open spec fn low_bits(width: nat) -> u64 {
    if width >= 64 {
        0xffff_ffff_ffff_ffffu64
    } else {
        ((1u64 << (width as u64)) - 1) as u64
    }
}

/// The values of `low_bits` at the widths of the primitive integers.
pub proof fn lemma_low_bits_of_primitives()
    ensures
        low_bits(8) == 0xffu64,
        low_bits(16) == 0xffffu64,
        low_bits(32) == 0xffff_ffffu64,
        low_bits(64) == 0xffff_ffff_ffff_ffffu64,
{
    assert(((1u64 << 8u64) - 1) as u64 == 0xffu64 && ((1u64 << 16u64) - 1) as u64 == 0xffffu64
        && ((1u64 << 32u64) - 1) as u64 == 0xffff_ffffu64) by (bit_vector);
}

/// An unsigned fixed-width integer that can hold a register's raw value.
///
/// Each operation is described through `raw`, the value widened to 64 bits.
pub trait IntLike: Copy + Sized {
    /// The number of bits of the type.
    spec fn width() -> nat;

    /// The value, widened to 64 bits.
    spec fn raw(self) -> u64;

    /// The value of this type whose widening is `r`, for an `r` that fits.
    spec fn from_raw(r: u64) -> Self;

    /// The width lies between 1 and 64, every value fits in it, and
    /// `from_raw` gives a value back from its widening.
    proof fn lemma_raw(v: Self)
        ensures
            0 < Self::width() <= 64,
            v.raw() <= low_bits(Self::width()),
            Self::from_raw(v.raw()) == v,
    ;

    /// A 64-bit value that fits in the width is the widening of what
    /// `from_raw` makes of it.
    proof fn lemma_from_raw(r: u64)
        ensures
            r <= low_bits(Self::width()) ==> Self::from_raw(r).raw() == r,
    ;

    /// The value with no bit set.
    fn zero() -> (z: Self)
        ensures
            z.raw() == 0,
    ;

    /// Bitwise AND.
    fn bit_and(self, rhs: Self) -> (r: Self)
        ensures
            r.raw() == self.raw() & rhs.raw(),
    ;

    /// Bitwise OR.
    fn bit_or(self, rhs: Self) -> (r: Self)
        ensures
            r.raw() == self.raw() | rhs.raw(),
    ;

    /// Bitwise NOT within the type's width.
    fn bit_not(self) -> (r: Self)
        ensures
            r.raw() == !self.raw() & low_bits(Self::width()),
    ;

    /// Left shift by `n`; bits moved past the type's width are lost.
    fn shift_left(self, n: usize) -> (r: Self)
        requires
            n < Self::width(),
        ensures
            r.raw() == (self.raw() << (n as u64)) & low_bits(Self::width()),
    ;

    /// Right shift by `n`.
    fn shift_right(self, n: usize) -> (r: Self)
        requires
            n < Self::width(),
        ensures
            r.raw() == self.raw() >> (n as u64),
    ;

    /// Equality of two values.
    fn same(self, rhs: Self) -> (b: bool)
        ensures
            b == (self == rhs),
    ;
}

impl IntLike for u8 {
    open spec fn width() -> nat {
        8
    }

    open spec fn raw(self) -> u64 {
        self as u64
    }

    open spec fn from_raw(r: u64) -> Self {
        r as u8
    }

    proof fn lemma_raw(v: Self) {
        lemma_low_bits_of_primitives();
    }

    proof fn lemma_from_raw(r: u64) {
        lemma_low_bits_of_primitives();
    }

    fn zero() -> (z: Self) {
        0u8
    }

    fn bit_and(self, rhs: Self) -> (r: Self) {
        self & rhs
    }

    fn bit_or(self, rhs: Self) -> (r: Self) {
        self | rhs
    }

    fn bit_not(self) -> (r: Self) {
        proof {
            lemma_low_bits_of_primitives();
            assert((!self) as u64 == !(self as u64) & 0xffu64) by (bit_vector);
        }
        !self
    }

    fn shift_left(self, n: usize) -> (r: Self) {
        proof {
            lemma_low_bits_of_primitives();
            assert((self << n) as u64 == ((self as u64) << (n as u64)) & 0xffu64) by (bit_vector)
                requires
                    n < 8,
            ;
        }
        self << n
    }

    fn shift_right(self, n: usize) -> (r: Self) {
        proof {
            assert((self >> n) as u64 == (self as u64) >> (n as u64)) by (bit_vector)
                requires
                    n < 8,
            ;
        }
        self >> n
    }

    fn same(self, rhs: Self) -> (b: bool) {
        self == rhs
    }
}

impl IntLike for u16 {
    open spec fn width() -> nat {
        16
    }

    open spec fn raw(self) -> u64 {
        self as u64
    }

    open spec fn from_raw(r: u64) -> Self {
        r as u16
    }

    proof fn lemma_raw(v: Self) {
        lemma_low_bits_of_primitives();
    }

    proof fn lemma_from_raw(r: u64) {
        lemma_low_bits_of_primitives();
    }

    fn zero() -> (z: Self) {
        0u16
    }

    fn bit_and(self, rhs: Self) -> (r: Self) {
        self & rhs
    }

    fn bit_or(self, rhs: Self) -> (r: Self) {
        self | rhs
    }

    fn bit_not(self) -> (r: Self) {
        proof {
            lemma_low_bits_of_primitives();
            assert((!self) as u64 == !(self as u64) & 0xffffu64) by (bit_vector);
        }
        !self
    }

    fn shift_left(self, n: usize) -> (r: Self) {
        proof {
            lemma_low_bits_of_primitives();
            assert((self << n) as u64 == ((self as u64) << (n as u64)) & 0xffffu64) by (bit_vector)
                requires
                    n < 16,
            ;
        }
        self << n
    }

    fn shift_right(self, n: usize) -> (r: Self) {
        proof {
            assert((self >> n) as u64 == (self as u64) >> (n as u64)) by (bit_vector)
                requires
                    n < 16,
            ;
        }
        self >> n
    }

    fn same(self, rhs: Self) -> (b: bool) {
        self == rhs
    }
}

impl IntLike for u32 {
    open spec fn width() -> nat {
        32
    }

    open spec fn raw(self) -> u64 {
        self as u64
    }

    open spec fn from_raw(r: u64) -> Self {
        r as u32
    }

    proof fn lemma_raw(v: Self) {
        lemma_low_bits_of_primitives();
    }

    proof fn lemma_from_raw(r: u64) {
        lemma_low_bits_of_primitives();
    }

    fn zero() -> (z: Self) {
        0u32
    }

    fn bit_and(self, rhs: Self) -> (r: Self) {
        self & rhs
    }

    fn bit_or(self, rhs: Self) -> (r: Self) {
        self | rhs
    }

    fn bit_not(self) -> (r: Self) {
        proof {
            lemma_low_bits_of_primitives();
            assert((!self) as u64 == !(self as u64) & 0xffff_ffffu64) by (bit_vector);
        }
        !self
    }

    fn shift_left(self, n: usize) -> (r: Self) {
        proof {
            lemma_low_bits_of_primitives();
            assert((self << n) as u64 == ((self as u64) << (n as u64)) & 0xffff_ffffu64) by (bit_vector)
                requires
                    n < 32,
            ;
        }
        self << n
    }

    fn shift_right(self, n: usize) -> (r: Self) {
        proof {
            assert((self >> n) as u64 == (self as u64) >> (n as u64)) by (bit_vector)
                requires
                    n < 32,
            ;
        }
        self >> n
    }

    fn same(self, rhs: Self) -> (b: bool) {
        self == rhs
    }
}

impl IntLike for u64 {
    open spec fn width() -> nat {
        64
    }

    open spec fn raw(self) -> u64 {
        self as u64
    }

    open spec fn from_raw(r: u64) -> Self {
        r as u64
    }

    proof fn lemma_raw(v: Self) {
        lemma_low_bits_of_primitives();
    }

    proof fn lemma_from_raw(r: u64) {
        lemma_low_bits_of_primitives();
    }

    fn zero() -> (z: Self) {
        0u64
    }

    fn bit_and(self, rhs: Self) -> (r: Self) {
        self & rhs
    }

    fn bit_or(self, rhs: Self) -> (r: Self) {
        self | rhs
    }

    fn bit_not(self) -> (r: Self) {
        proof {
            lemma_low_bits_of_primitives();
            assert((!self) as u64 == !(self as u64) & 0xffff_ffff_ffff_ffffu64) by (bit_vector);
        }
        !self
    }

    fn shift_left(self, n: usize) -> (r: Self) {
        proof {
            lemma_low_bits_of_primitives();
            assert((self << n) as u64 == ((self as u64) << (n as u64)) & 0xffff_ffff_ffff_ffffu64) by (bit_vector)
                requires
                    n < 64,
            ;
        }
        self << n
    }

    fn shift_right(self, n: usize) -> (r: Self) {
        proof {
            assert((self >> n) as u64 == (self as u64) >> (n as u64)) by (bit_vector)
                requires
                    n < 64,
            ;
        }
        self >> n
    }

    fn same(self, rhs: Self) -> (b: bool) {
        self == rhs
    }
}

} // verus!
