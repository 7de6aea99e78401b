//! What can be done with a register, by the access it allows: read and
//! write, read only, or write only.
//!
//! Each capability rests on one or two primitives, `get` and `set`, that an
//! implementor supplies; the field operations are built on them. A register
//! lives outside the program and may change on its own, so nothing is said
//! about what it holds: `may_read` tells which raw values a `get` can return,
//! `writes` tells which raw value a `set` has handed to the register, and
//! each operation is described by the values it reads and writes.

use vstd::prelude::*;
use crate::int_like::IntLike;
use crate::regs::{Field, FieldValue, LocalRegisterCopy, RegisterLongName};

verus! {

/// A register that can be read and written.
pub trait RegisterReadWrite<T: IntLike, R: RegisterLongName> {
    /// A `get` on this register may return `v`.
    spec fn may_read(&self, v: T) -> bool;

    /// A `set` on this register has handed it `v`.
    spec fn writes(&self, v: T) -> bool;

    /// The register's current raw value.
    fn get(&self) -> (v: T)
        ensures
            self.may_read(v),
    ;

    /// Overwrites the register with `value`. This acts on the world outside
    /// the program.
    fn set(&self, value: T)
        ensures
            self.writes(value),
    ;

    /// The field's bits of the current raw value, moved down to bit 0.
    fn read(&self, field: Field<T, R>) -> (r: T)
        requires
            field.wf(),
        ensures
            exists|v: T| #[trigger] self.may_read(v) && r == field.extracted(v),
            r.raw() <= field.mask.raw(),
    {
        field.extract_from(self.get())
    }

    /// A snapshot of the current raw value.
    fn extract(&self) -> (c: LocalRegisterCopy<T, R>)
        ensures
            self.may_read(c@),
    {
        LocalRegisterCopy::new(self.get())
    }

    /// Overwrites the whole register with the value of `field`: every bit
    /// that `field` does not set becomes 0.
    fn write(&self, field: FieldValue<T, R>)
        ensures
            self.writes(field.value),
    {
        self.set(field.value);
    }

    /// Reads the register, replaces the bits under the mask of `field` by
    /// its value, and writes the result back.
    fn modify(&self, field: FieldValue<T, R>)
        ensures
            exists|v: T| #[trigger] self.may_read(v) && self.writes(field.merged(v)),
    {
        let reg: T = self.get();
        self.set(field.merge_into(reg));
    }

    /// As `modify`, but takes the bits to keep from `original` instead of
    /// reading the register.
    fn modify_no_read(&self, original: LocalRegisterCopy<T, R>, field: FieldValue<T, R>)
        ensures
            self.writes(field.merged(original@)),
    {
        self.set(field.merge_into(original.get()));
    }

    /// Whether some bit of the field is set in the current raw value.
    fn is_set(&self, field: Field<T, R>) -> (b: bool)
        requires
            field.wf(),
        ensures
            exists|v: T| #[trigger] self.may_read(v) && b == field.raised(v),
    {
        field.raised_in(self.get())
    }

    /// Whether some bit under the mask of `field` is set in the current raw
    /// value, whatever the value of `field`.
    fn matches_any(&self, field: FieldValue<T, R>) -> (b: bool)
        ensures
            exists|v: T| #[trigger] self.may_read(v) && b == field.any_in(v),
    {
        field.any_set_in(self.get())
    }

    /// Whether the bits of the current raw value under the mask of `field`
    /// are exactly its value.
    fn matches_all(&self, field: FieldValue<T, R>) -> (b: bool)
        ensures
            exists|v: T| #[trigger] self.may_read(v) && b == field.all_in(v),
    {
        field.all_set_in(self.get())
    }
}

/// A register that can only be read.
pub trait RegisterRead<T: IntLike, R: RegisterLongName> {
    /// A `get` on this register may return `v`.
    spec fn may_read(&self, v: T) -> bool;

    /// The register's current raw value.
    fn get(&self) -> (v: T)
        ensures
            self.may_read(v),
    ;

    /// The field's bits of the current raw value, moved down to bit 0.
    fn read(&self, field: Field<T, R>) -> (r: T)
        requires
            field.wf(),
        ensures
            exists|v: T| #[trigger] self.may_read(v) && r == field.extracted(v),
            r.raw() <= field.mask.raw(),
    {
        field.extract_from(self.get())
    }

    /// A snapshot of the current raw value.
    fn extract(&self) -> (c: LocalRegisterCopy<T, R>)
        ensures
            self.may_read(c@),
    {
        LocalRegisterCopy::new(self.get())
    }

    /// Whether some bit of the field is set in the current raw value.
    fn is_set(&self, field: Field<T, R>) -> (b: bool)
        requires
            field.wf(),
        ensures
            exists|v: T| #[trigger] self.may_read(v) && b == field.raised(v),
    {
        field.raised_in(self.get())
    }

    /// Whether some bit under the mask of `field` is set in the current raw
    /// value, whatever the value of `field`.
    fn matches_any(&self, field: FieldValue<T, R>) -> (b: bool)
        ensures
            exists|v: T| #[trigger] self.may_read(v) && b == field.any_in(v),
    {
        field.any_set_in(self.get())
    }

    /// Whether the bits of the current raw value under the mask of `field`
    /// are exactly its value.
    fn matches_all(&self, field: FieldValue<T, R>) -> (b: bool)
        ensures
            exists|v: T| #[trigger] self.may_read(v) && b == field.all_in(v),
    {
        field.all_set_in(self.get())
    }
}

/// A register that can only be written.
pub trait RegisterWrite<T: IntLike, R: RegisterLongName> {
    /// A `set` on this register has handed it `v`.
    spec fn writes(&self, v: T) -> bool;

    /// Overwrites the register with `value`. This acts on the world outside
    /// the program.
    fn set(&self, value: T)
        ensures
            self.writes(value),
    ;

    /// Overwrites the whole register with the value of `field`: every bit
    /// that `field` does not set becomes 0.
    fn write(&self, field: FieldValue<T, R>)
        ensures
            self.writes(field.value),
    {
        self.set(field.value);
    }
}

} // verus!
