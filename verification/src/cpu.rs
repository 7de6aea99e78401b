//! Registers reached through accessor routines.
//!
//! A register here is a handle on a getter, a setter, or both. It owns no
//! storage: whatever the routines reach (mapped memory, a register read by a
//! dedicated instruction, a stand-in held in memory) is the register.

use vstd::prelude::*;
use std::marker::PhantomData;
use crate::capability::{RegisterRead, RegisterReadWrite, RegisterWrite};
use crate::int_like::IntLike;
use crate::regs::RegisterLongName;

verus! {

/// Read/Write registers.
#[verifier::reject_recursive_types(T)]
#[verifier::reject_recursive_types(R)]
#[verifier::reject_recursive_types(G)]
#[verifier::reject_recursive_types(S)]
pub struct ReadWrite<T: IntLike, R: RegisterLongName, G: Fn() -> T, S: Fn(T)> {
    getter: G,
    setter: S,
    associated_register: PhantomData<(T, R)>,
}

/// Read-only registers.
#[verifier::reject_recursive_types(T)]
#[verifier::reject_recursive_types(R)]
#[verifier::reject_recursive_types(G)]
pub struct ReadOnly<T: IntLike, R: RegisterLongName, G: Fn() -> T> {
    getter: G,
    associated_register: PhantomData<(T, R)>,
}

/// Write-only registers.
#[verifier::reject_recursive_types(T)]
#[verifier::reject_recursive_types(R)]
#[verifier::reject_recursive_types(S)]
pub struct WriteOnly<T: IntLike, R: RegisterLongName, S: Fn(T)> {
    setter: S,
    associated_register: PhantomData<(T, R)>,
}

impl<T: IntLike, R: RegisterLongName, G: Fn() -> T, S: Fn(T)> ReadWrite<T, R, G, S> {
    /// The getter can always be called, and the setter on every value.
    #[verifier::type_invariant]
    spec fn responding(&self) -> bool {
        &&& call_requires(self.getter, ())
        &&& forall|v: T| call_requires(self.setter, (v,))
    }

    /// A register read by `getter` and written by `setter`. Neither routine
    /// is called here.
    pub fn new(getter: G, setter: S) -> (reg: Self)
        requires
            call_requires(getter, ()),
            forall|v: T| call_requires(setter, (v,)),
        ensures
            forall|v: T| #[trigger] reg.may_read(v) <==> call_ensures(getter, (), v),
            forall|v: T| #[trigger] reg.writes(v) <==> call_ensures(setter, (v,), ()),
    {
        ReadWrite { getter, setter, associated_register: PhantomData }
    }
}

impl<T: IntLike, R: RegisterLongName, G: Fn() -> T, S: Fn(T)> RegisterReadWrite<T, R> for ReadWrite<
    T,
    R,
    G,
    S,
> {
    /// The getter can return `v`.
    closed spec fn may_read(&self, v: T) -> bool {
        call_ensures(self.getter, (), v)
    }

    /// The setter has been called on `v` and has returned.
    closed spec fn writes(&self, v: T) -> bool {
        call_ensures(self.setter, (v,), ())
    }

    fn get(&self) -> (v: T) {
        proof {
            use_type_invariant(self);
        }
        (self.getter)()
    }

    fn set(&self, value: T) {
        proof {
            use_type_invariant(self);
        }
        (self.setter)(value)
    }
}

impl<T: IntLike, R: RegisterLongName, G: Fn() -> T> ReadOnly<T, R, G> {
    /// The getter can always be called.
    #[verifier::type_invariant]
    spec fn responding(&self) -> bool {
        call_requires(self.getter, ())
    }

    /// A register read by `getter`, which is not called here.
    pub fn new(getter: G) -> (reg: Self)
        requires
            call_requires(getter, ()),
        ensures
            forall|v: T| #[trigger] reg.may_read(v) <==> call_ensures(getter, (), v),
    {
        ReadOnly { getter, associated_register: PhantomData }
    }
}

impl<T: IntLike, R: RegisterLongName, G: Fn() -> T> RegisterRead<T, R> for ReadOnly<T, R, G> {
    /// The getter can return `v`.
    closed spec fn may_read(&self, v: T) -> bool {
        call_ensures(self.getter, (), v)
    }

    fn get(&self) -> (v: T) {
        proof {
            use_type_invariant(self);
        }
        (self.getter)()
    }
}

impl<T: IntLike, R: RegisterLongName, S: Fn(T)> WriteOnly<T, R, S> {
    /// The setter can be called on every value.
    #[verifier::type_invariant]
    spec fn responding(&self) -> bool {
        forall|v: T| call_requires(self.setter, (v,))
    }

    /// A register written by `setter`, which is not called here.
    pub fn new(setter: S) -> (reg: Self)
        requires
            forall|v: T| call_requires(setter, (v,)),
        ensures
            forall|v: T| #[trigger] reg.writes(v) <==> call_ensures(setter, (v,), ()),
    {
        WriteOnly { setter, associated_register: PhantomData }
    }
}

impl<T: IntLike, R: RegisterLongName, S: Fn(T)> RegisterWrite<T, R> for WriteOnly<T, R, S> {
    /// The setter has been called on `v` and has returned.
    closed spec fn writes(&self, v: T) -> bool {
        call_ensures(self.setter, (v,), ())
    }

    fn set(&self, value: T) {
        proof {
            use_type_invariant(self);
        }
        (self.setter)(value)
    }
}

} // verus!
