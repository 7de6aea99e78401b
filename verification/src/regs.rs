//! Fields of a register, values for them, and snapshots of a register.
//!
//! A `Field` names a range of bits; a `FieldValue` holds bits already moved
//! into place, with the mask of the bits it speaks of; a `LocalRegisterCopy`
//! is a raw value taken from a register once, to be examined at leisure.

use vstd::prelude::*;
use std::marker::PhantomData;
use crate::bits::{lemma_extract, lemma_join, lemma_merge, lemma_positioned};
use crate::int_like::{low_bits, IntLike};

verus! {

/// Marks a type as the name of one register layout. A field declared for
/// one layout cannot be used on a register of another.
pub trait RegisterLongName {
}

impl RegisterLongName for () {
}

/// A range of bits in a register: `mask`, with the field's width in low
/// bits, and `shift`, the position of its lowest bit.
pub struct Field<T: IntLike, R: RegisterLongName> {
    pub mask: T,
    pub shift: usize,
    pub associated_register: PhantomData<R>,
}

/// Bits to change in a register and what to change them to: `mask` covers
/// the bits, `value` holds their new contents, both in register position.
pub struct FieldValue<T: IntLike, R: RegisterLongName> {
    pub mask: T,
    pub value: T,
    pub associated_register: PhantomData<R>,
}

/// A raw register value held in memory.
pub struct LocalRegisterCopy<T: IntLike, R: RegisterLongName> {
    value: T,
    associated_register: PhantomData<R>,
}

impl<T: IntLike, R: RegisterLongName> Clone for Field<T, R> {
    fn clone(&self) -> (c: Self)
        ensures
            c == *self,
    {
        *self
    }
}

impl<T: IntLike, R: RegisterLongName> Copy for Field<T, R> {
}

impl<T: IntLike, R: RegisterLongName> Clone for FieldValue<T, R> {
    fn clone(&self) -> (c: Self)
        ensures
            c == *self,
    {
        *self
    }
}

impl<T: IntLike, R: RegisterLongName> Copy for FieldValue<T, R> {
}

impl<T: IntLike, R: RegisterLongName> Clone for LocalRegisterCopy<T, R> {
    fn clone(&self) -> (c: Self)
        ensures
            c == *self,
    {
        *self
    }
}

impl<T: IntLike, R: RegisterLongName> Copy for LocalRegisterCopy<T, R> {
}

impl<T: IntLike, R: RegisterLongName> Field<T, R> {
    /// The field starts inside the register.
    pub open spec fn wf(&self) -> bool {
        self.shift < T::width()
    }

    /// The field is `numbits` wide.
    pub open spec fn has_width(&self, numbits: nat) -> bool {
        self.mask.raw() == low_bits(numbits)
    }

    /// The field's mask in register position.
    pub open spec fn positioned_mask(&self) -> T {
        T::from_raw((self.mask.raw() << (self.shift as u64)) & low_bits(T::width()))
    }

    /// The field's bits of the raw value `v`, moved down to bit 0.
    pub open spec fn extracted(&self, v: T) -> T {
        T::from_raw((v.raw() & (self.mask.raw() << (self.shift as u64))) >> (self.shift as u64))
    }

    /// Some bit of the field is set in the raw value `v`.
    pub open spec fn raised(&self, v: T) -> bool {
        self.extracted(v).raw() != 0
    }

    /// `value`, cut to the field's width and moved into the field's position.
    pub open spec fn positioned(&self, value: T) -> T {
        T::from_raw(((value.raw() & self.mask.raw()) << (self.shift as u64)) & low_bits(T::width()))
    }

    /// The field of mask `mask`, given in low bits, at position `shift`.
    pub fn new(mask: T, shift: usize) -> (f: Self)
        ensures
            f.mask == mask,
            f.shift == shift,
    {
        Field { mask, shift, associated_register: PhantomData }
    }

    /// The field's bits of `v`, moved down to bit 0.
    pub fn extract_from(&self, v: T) -> (r: T)
        requires
            self.wf(),
        ensures
            r == self.extracted(v),
            r.raw() == (v.raw() >> (self.shift as u64)) & self.mask.raw(),
            r.raw() <= self.mask.raw(),
    {
        let r: T = v.bit_and(self.mask.shift_left(self.shift)).shift_right(self.shift);
        proof {
            T::lemma_raw(v);
            T::lemma_raw(r);
            lemma_extract(v.raw(), self.mask.raw(), self.shift as u64, T::width() as u64);
        }
        r
    }

    /// Whether some bit of the field is set in `v`.
    pub fn raised_in(&self, v: T) -> (b: bool)
        requires
            self.wf(),
        ensures
            b == self.raised(v),
    {
        let r: T = self.extract_from(v);
        let z: T = T::zero();
        proof {
            T::lemma_raw(r);
            T::lemma_raw(z);
        }
        !r.same(z)
    }

    /// The field set to `value`: the bits of `value` beyond the field's
    /// width are dropped.
    pub fn val(&self, value: T) -> (fv: FieldValue<T, R>)
        requires
            self.wf(),
        ensures
            fv.mask == self.positioned_mask(),
            fv.value == self.positioned(value),
            fv.wf(),
    {
        let fv = FieldValue::new(self.mask, self.shift, value);
        proof {
            T::lemma_raw(fv.mask);
            T::lemma_raw(fv.value);
        }
        fv
    }
}

impl<T: IntLike, R: RegisterLongName> FieldValue<T, R> {
    /// The value has no bit outside the mask.
    pub open spec fn wf(&self) -> bool {
        self.value.raw() & !self.mask.raw() == 0
    }

    /// The raw value `v` with the bits under the mask replaced by the value.
    pub open spec fn merged(&self, v: T) -> T {
        T::from_raw((v.raw() & !self.mask.raw()) | self.value.raw())
    }

    /// Some bit under the mask is set in the raw value `v`.
    pub open spec fn any_in(&self, v: T) -> bool {
        v.raw() & self.mask.raw() != 0
    }

    /// The bits of the raw value `v` under the mask are exactly the value.
    pub open spec fn all_in(&self, v: T) -> bool {
        v.raw() & self.mask.raw() == self.value.raw()
    }

    /// The two masks share no bit.
    pub open spec fn disjoint(&self, other: &Self) -> bool {
        self.mask.raw() & other.mask.raw() == 0
    }

    /// A value for the field of mask `mask` at position `shift`: the bits
    /// of `value` beyond the field's width are dropped.
    pub fn new(mask: T, shift: usize, value: T) -> (fv: Self)
        requires
            shift < T::width(),
        ensures
            fv.mask.raw() == (mask.raw() << (shift as u64)) & low_bits(T::width()),
            fv.value.raw() == ((value.raw() & mask.raw()) << (shift as u64)) & low_bits(
                T::width(),
            ),
            fv.wf(),
    {
        let positioned: T = mask.shift_left(shift);
        let placed: T = value.bit_and(mask).shift_left(shift);
        proof {
            T::lemma_raw(value);
            lemma_positioned(value.raw(), mask.raw(), shift as u64, low_bits(T::width()));
        }
        FieldValue { mask: positioned, value: placed, associated_register: PhantomData }
    }

    /// Both values at once: the masks joined and the values joined.
    pub fn join(self, rhs: Self) -> (fv: Self)
        ensures
            fv.mask.raw() == self.mask.raw() | rhs.mask.raw(),
            fv.value.raw() == self.value.raw() | rhs.value.raw(),
            self.wf() && rhs.wf() ==> fv.wf(),
    {
        let mask: T = self.mask.bit_or(rhs.mask);
        let value: T = self.value.bit_or(rhs.value);
        proof {
            if self.wf() && rhs.wf() {
                lemma_join(
                    0,
                    self.mask.raw(),
                    self.value.raw(),
                    rhs.mask.raw(),
                    rhs.value.raw(),
                );
            }
        }
        FieldValue { mask, value, associated_register: PhantomData }
    }

    /// `v` with the bits under the mask replaced by the value.
    pub fn merge_into(&self, v: T) -> (r: T)
        ensures
            r == self.merged(v),
            r.raw() == (v.raw() & !self.mask.raw()) | self.value.raw(),
    {
        let r: T = v.bit_and(self.mask.bit_not()).bit_or(self.value);
        proof {
            T::lemma_raw(v);
            T::lemma_raw(self.value);
            T::lemma_raw(r);
            lemma_merge(v.raw(), self.mask.raw(), self.value.raw(), T::width() as u64);
        }
        r
    }

    /// Whether some bit under the mask is set in `v`.
    pub fn any_set_in(&self, v: T) -> (b: bool)
        ensures
            b == self.any_in(v),
    {
        let r: T = v.bit_and(self.mask);
        let z: T = T::zero();
        proof {
            T::lemma_raw(r);
            T::lemma_raw(z);
        }
        !r.same(z)
    }

    /// Whether the bits of `v` under the mask are exactly the value.
    pub fn all_set_in(&self, v: T) -> (b: bool)
        ensures
            b == self.all_in(v),
    {
        let r: T = v.bit_and(self.mask);
        proof {
            T::lemma_raw(r);
            T::lemma_raw(self.value);
        }
        r.same(self.value)
    }
}

impl<T: IntLike, R: RegisterLongName> View for LocalRegisterCopy<T, R> {
    type V = T;

    closed spec fn view(&self) -> T {
        self.value
    }
}

impl<T: IntLike, R: RegisterLongName> LocalRegisterCopy<T, R> {
    /// A copy that holds `value`.
    pub fn new(value: T) -> (c: Self)
        ensures
            c@ == value,
    {
        LocalRegisterCopy { value, associated_register: PhantomData }
    }

    /// The raw value held.
    pub fn get(&self) -> (v: T)
        ensures
            v == self@,
    {
        self.value
    }

    /// The field's bits of the value held, moved down to bit 0.
    pub fn read(&self, field: Field<T, R>) -> (r: T)
        requires
            field.wf(),
        ensures
            r == field.extracted(self@),
            r.raw() <= field.mask.raw(),
    {
        field.extract_from(self.value)
    }

    /// Whether some bit of the field is set in the value held.
    pub fn is_set(&self, field: Field<T, R>) -> (b: bool)
        requires
            field.wf(),
        ensures
            b == field.raised(self@),
    {
        field.raised_in(self.value)
    }

    /// Whether some bit under the mask is set in the value held.
    pub fn matches_any(&self, field: FieldValue<T, R>) -> (b: bool)
        ensures
            b == field.any_in(self@),
    {
        field.any_set_in(self.value)
    }

    /// Whether the bits under the mask are exactly the value.
    pub fn matches_all(&self, field: FieldValue<T, R>) -> (b: bool)
        ensures
            b == field.all_in(self@),
    {
        field.all_set_in(self.value)
    }
}

} // verus!
