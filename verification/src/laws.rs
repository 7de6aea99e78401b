//! What holds of the field operations for every register, field and raw
//! value.

use vstd::prelude::*;
use vstd::arithmetic::power2::{lemma2_to64_rest, lemma_pow2_strictly_increases, pow2};
use vstd::bits::{lemma_u64_pow2_no_overflow, lemma_u64_shl_is_mul};
use crate::bits::{
    lemma_below_low_bits,
    lemma_extract,
    lemma_join,
    lemma_merge,
    lemma_merge_algebra,
    lemma_positioned,
};
use crate::capability::{RegisterRead, RegisterReadWrite};
use crate::int_like::{low_bits, IntLike};
use crate::regs::{Field, FieldValue, LocalRegisterCopy, RegisterLongName};

verus! {

/// Reading a field of the raw value `v` gives the bits of `v` under the
/// field's positioned mask, moved down by the field's shift; these are the
/// bits of `v` from the shift upwards that the field's mask keeps.
pub proof fn lemma_read_is_masked_shift<T: IntLike, R: RegisterLongName>(field: Field<T, R>, v: T)
    requires
        field.wf(),
    ensures
        field.extracted(v).raw() == (v.raw() & field.positioned_mask().raw()) >> (
        field.shift as u64),
        field.extracted(v).raw() == (v.raw() >> (field.shift as u64)) & field.mask.raw(),
        field.extracted(v).raw() <= field.mask.raw(),
{
    let (a, m, s) = (v.raw(), field.mask.raw(), field.shift as u64);
    T::lemma_raw(v);
    T::lemma_from_raw((a & (m << s)) >> s);
    T::lemma_from_raw((m << s) & low_bits(T::width()));
    lemma_extract(a, m, s, T::width() as u64);
    lemma_positioned(0, m, s, low_bits(T::width()));
}

/// Reading a field that is `numbits` wide gives a value below two to the
/// `numbits`.
pub proof fn lemma_read_within_width<T: IntLike, R: RegisterLongName>(
    field: Field<T, R>,
    v: T,
    numbits: nat,
)
    requires
        field.wf(),
        field.has_width(numbits),
    ensures
        field.extracted(v).raw() < pow2(numbits),
{
    lemma_read_is_masked_shift(field, v);
    T::lemma_raw(v);
    let r = field.extracted(v).raw();
    if numbits < 64 {
        lemma_below_low_bits(r, numbits as u64);
        lemma_u64_pow2_no_overflow(numbits);
        lemma_u64_shl_is_mul(1, numbits as u64);
    } else {
        lemma2_to64_rest();
        if numbits > 64 {
            lemma_pow2_strictly_increases(64, numbits);
        }
    }
}

/// Modifying the raw value `v` gives `(v & !mask) | value`, and modifying
/// the result again with the same field value changes nothing.
pub proof fn lemma_modify_formula<T: IntLike, R: RegisterLongName>(fv: FieldValue<T, R>, v: T)
    ensures
        fv.merged(v).raw() == (v.raw() & !fv.mask.raw()) | fv.value.raw(),
        fv.merged(fv.merged(v)) == fv.merged(v),
{
    let (a, m, x) = (v.raw(), fv.mask.raw(), fv.value.raw());
    T::lemma_raw(v);
    T::lemma_from_raw((a & !m) | x);
    T::lemma_raw(fv.value);
    lemma_merge(a, m, x, T::width() as u64);
    lemma_merge_algebra(a, m, x);
}

/// Modifying with a field value whose value lies under its mask leaves
/// every bit outside the mask as it was, and makes the bits under the mask
/// equal to the value.
pub proof fn lemma_modify_keeps_other_bits<T: IntLike, R: RegisterLongName>(
    fv: FieldValue<T, R>,
    v: T,
)
    requires
        fv.wf(),
    ensures
        fv.merged(v).raw() & !fv.mask.raw() == v.raw() & !fv.mask.raw(),
        fv.merged(v).raw() & fv.mask.raw() == fv.value.raw(),
        fv.all_in(fv.merged(v)),
{
    lemma_modify_formula(fv, v);
    lemma_merge_algebra(v.raw(), fv.mask.raw(), fv.value.raw());
}

/// Modifying with a field value leaves every field untouched whose
/// positioned mask shares no bit with the field value's mask.
pub proof fn lemma_modify_keeps_other_fields<T: IntLike, R: RegisterLongName>(
    fv: FieldValue<T, R>,
    other: Field<T, R>,
    v: T,
)
    requires
        fv.wf(),
        other.wf(),
        other.positioned_mask().raw() & fv.mask.raw() == 0,
    ensures
        other.extracted(fv.merged(v)) == other.extracted(v),
{
    lemma_modify_keeps_other_bits(fv, v);
    lemma_read_is_masked_shift(other, v);
    lemma_read_is_masked_shift(other, fv.merged(v));
    let (a, b, m, p, s) = (
        v.raw(),
        fv.merged(v).raw(),
        fv.mask.raw(),
        other.positioned_mask().raw(),
        other.shift as u64,
    );
    assert((b & p) >> s == (a & p) >> s) by (bit_vector)
        requires
            b & !m == a & !m,
            p & m == 0,
    ;
    T::lemma_raw(other.extracted(v));
    T::lemma_raw(other.extracted(fv.merged(v)));
}

/// Every read of a field from a snapshot of a read-write register is the
/// field of one and the same raw value that the register could be read as,
/// however many fields are read and whatever the register has become since.
pub proof fn lemma_snapshot_reads_agree<
    T: IntLike,
    R: RegisterLongName,
    Reg: RegisterReadWrite<T, R>,
>(reg: Reg, snapshot: LocalRegisterCopy<T, R>, fields: Seq<Field<T, R>>, reads: Seq<T>)
    requires
        reg.may_read(snapshot@),
        reads.len() == fields.len(),
        forall|i: int|
            0 <= i < fields.len() ==> reads[i] == (#[trigger] fields[i]).extracted(snapshot@),
    ensures
        exists|v: T| #[trigger]
            reg.may_read(v) && forall|i: int|
                0 <= i < fields.len() ==> reads[i] == (#[trigger] fields[i]).extracted(v),
{
    assert(reg.may_read(snapshot@));
}

/// The same of a snapshot of a read-only register.
pub proof fn lemma_read_only_snapshot_reads_agree<
    T: IntLike,
    R: RegisterLongName,
    Reg: RegisterRead<T, R>,
>(reg: Reg, snapshot: LocalRegisterCopy<T, R>, fields: Seq<Field<T, R>>, reads: Seq<T>)
    requires
        reg.may_read(snapshot@),
        reads.len() == fields.len(),
        forall|i: int|
            0 <= i < fields.len() ==> reads[i] == (#[trigger] fields[i]).extracted(snapshot@),
    ensures
        exists|v: T| #[trigger]
            reg.may_read(v) && forall|i: int|
                0 <= i < fields.len() ==> reads[i] == (#[trigger] fields[i]).extracted(v),
{
    assert(reg.may_read(snapshot@));
}

/// With a snapshot that holds the raw value that `modify` would read,
/// `modify_no_read` writes the raw value that `modify` would write.
pub proof fn lemma_modify_no_read_is_modify<
    T: IntLike,
    R: RegisterLongName,
    Reg: RegisterReadWrite<T, R>,
>(reg: Reg, snapshot: LocalRegisterCopy<T, R>, fv: FieldValue<T, R>, v: T)
    requires
        reg.may_read(v),
        snapshot@ == v,
    ensures
        fv.merged(snapshot@) == fv.merged(v),
        reg.writes(fv.merged(snapshot@)) <==> reg.writes(fv.merged(v)),
        fv.merged(snapshot@).raw() == (v.raw() & !fv.mask.raw()) | fv.value.raw(),
{
    lemma_modify_formula(fv, v);
}

/// A field is set in a raw value exactly when some bit under its positioned
/// mask is: `is_set` on a field agrees with `matches_any` on any value for
/// that field. For a field of one bit this is the test of that bit.
pub proof fn lemma_is_set_is_matches_any<T: IntLike, R: RegisterLongName>(
    field: Field<T, R>,
    fv: FieldValue<T, R>,
    v: T,
)
    requires
        field.wf(),
        fv.mask == field.positioned_mask(),
    ensures
        field.raised(v) == fv.any_in(v),
{
    lemma_read_is_masked_shift(field, v);
    let (a, m, s) = (v.raw(), field.mask.raw(), field.shift as u64);
    T::lemma_raw(v);
    T::lemma_from_raw((m << s) & low_bits(T::width()));
    lemma_positioned(0, m, s, low_bits(T::width()));
    lemma_extract(a, m, s, T::width() as u64);
}

/// Modifying with two field values joined, where their masks share no bit,
/// is modifying with one and then with the other, in either order.
pub proof fn lemma_join_modifies_in_turn<T: IntLike, R: RegisterLongName>(
    a: FieldValue<T, R>,
    b: FieldValue<T, R>,
    joined: FieldValue<T, R>,
    v: T,
)
    requires
        a.wf(),
        b.wf(),
        a.disjoint(&b),
        joined.mask.raw() == a.mask.raw() | b.mask.raw(),
        joined.value.raw() == a.value.raw() | b.value.raw(),
    ensures
        joined.wf(),
        joined.merged(v) == b.merged(a.merged(v)),
        joined.merged(v) == a.merged(b.merged(v)),
{
    lemma_modify_formula(a, v);
    lemma_modify_formula(b, v);
    lemma_modify_formula(joined, v);
    lemma_modify_formula(b, a.merged(v));
    lemma_modify_formula(a, b.merged(v));
    lemma_join(v.raw(), a.mask.raw(), a.value.raw(), b.mask.raw(), b.value.raw());
    lemma_join(v.raw(), b.mask.raw(), b.value.raw(), a.mask.raw(), a.value.raw());
    let (m1, m2, x1, x2) = (a.mask.raw(), b.mask.raw(), a.value.raw(), b.value.raw());
    assert(m1 | m2 == m2 | m1 && x1 | x2 == x2 | x1 && (m1 & m2 == 0) == (m2 & m1 == 0))
        by (bit_vector);
    T::lemma_raw(joined.merged(v));
    T::lemma_raw(b.merged(a.merged(v)));
    T::lemma_raw(a.merged(b.merged(v)));
}

} // verus!
