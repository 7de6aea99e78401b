//! Facts about masks and shifts on 64-bit raw values, on which the field
//! algebra rests.

use vstd::prelude::*;
use crate::int_like::low_bits;

verus! {

/// Reading a field through its positioned mask gives the same bits whether
/// or not that mask is first cut to the register's width, and never more
/// than the field's own mask holds.
pub proof fn lemma_extract(a: u64, m: u64, s: u64, k: u64)
    by (bit_vector)
    requires
        0 < k <= 64,
        s < k,
        a <= low_bits(k as nat),
    ensures
        (a & ((m << s) & low_bits(k as nat))) >> s == (a & (m << s)) >> s,
        (a & (m << s)) >> s == (a >> s) & m,
        (a & (m << s)) >> s <= m,
        (a & (m << s)) >> s <= low_bits(k as nat),
        ((a & (m << s)) >> s != 0) == (a & ((m << s) & low_bits(k as nat)) != 0),
{
}

/// Replacing the bits under a mask gives the same value whether or not the
/// complement of the mask is first cut to the register's width, and a value
/// that fits the width.
pub proof fn lemma_merge(a: u64, m: u64, x: u64, k: u64)
    by (bit_vector)
    requires
        0 < k <= 64,
        a <= low_bits(k as nat),
        x <= low_bits(k as nat),
    ensures
        (a & (!m & low_bits(k as nat))) | x == (a & !m) | x,
        (a & !m) | x <= low_bits(k as nat),
{
}

/// What replacing the bits under a mask keeps, what it sets, and that doing
/// it twice changes nothing more.
pub proof fn lemma_merge_algebra(a: u64, m: u64, x: u64)
    by (bit_vector)
    ensures
        (((a & !m) | x) & !m) | x == (a & !m) | x,
        x & !m == 0 ==> ((a & !m) | x) & !m == a & !m,
        x & !m == 0 ==> ((a & !m) | x) & m == x,
{
}

/// A value moved into a field's position lies under the field's positioned
/// mask.
pub proof fn lemma_positioned(v: u64, m: u64, s: u64, w: u64)
    by (bit_vector)
    requires
        s < 64,
    ensures
        (((v & m) << s) & w) & !((m << s) & w) == 0,
        ((v & m) << s) & w <= w,
        (m << s) & w <= w,
{
}

/// Joining two values that lie under their masks gives a value that lies
/// under the joined mask; where the masks share no bit, replacing under the
/// joined mask is replacing under one and then under the other.
pub proof fn lemma_join(a: u64, m1: u64, x1: u64, m2: u64, x2: u64)
    by (bit_vector)
    requires
        x1 & !m1 == 0,
        x2 & !m2 == 0,
    ensures
        (x1 | x2) & !(m1 | m2) == 0,
        m1 & m2 == 0 ==> (a & !(m1 | m2)) | (x1 | x2) == (((a & !m1) | x1) & !m2) | x2,
{
}

/// A value under a mask of `n` low bits is below two to the `n`.
pub proof fn lemma_below_low_bits(r: u64, n: u64)
    by (bit_vector)
    requires
        n < 64,
        r <= low_bits(n as nat),
    ensures
        r < (1u64 << n),
{
}

} // verus!
