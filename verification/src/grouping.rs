//! The `grouping` function of grouping sets.
//!
//! A row produced under grouping sets carries a grouping id: a bit mask
//! with one bit per grouping column, set where the column is aggregated
//! away in the row's set. `grouping(c1, .., cn)` reads the bits of the
//! columns `c1` to `cn` out of that mask and packs them into a number, the
//! bit of `cn` lowest.

use vstd::prelude::*;

verus! {

/// Bit `j` of `id`, as 0 or 1.
pub open spec fn bit_of(id: u32, j: usize) -> u32 {
    (id & (1u32 << (j as u32))) >> (j as u32)
}

/// The bits of the columns `cols` in the grouping id, packed with the bit
/// of the last column lowest.
pub open spec fn grouping_of(cols: Seq<usize>, id: u32) -> u32
    decreases cols.len(),
{
    if cols.len() == 0 {
        0
    } else {
        (bit_of(id, cols[0]) << ((cols.len() - 1) as u32)) | grouping_of(
            cols.subrange(1, cols.len() as int),
            id,
        )
    }
}

/// Computes `grouping` from the grouping id and the positions `cols` of
/// the columns in the id.
///
/// The positions must be bit positions of the id, and there must be no
/// more of them than the result has bits.
pub fn compute_grouping(cols: &[usize], grouping_id: u32) -> (grouping: u32)
    requires
        cols@.len() <= 32,
        forall|k: int| 0 <= k < cols@.len() ==> cols@[k] < 32,
    ensures
        grouping == grouping_of(cols@, grouping_id),
{
    let n = cols.len();
    let mut grouping: u32 = 0;
    let mut i: usize = 0;
    assert(cols@.subrange(n as int, n as int) =~= Seq::empty());
    while i < n
        invariant
            i <= n,
            n == cols@.len(),
            n <= 32,
            forall|k: int| 0 <= k < cols@.len() ==> cols@[k] < 32,
            grouping == grouping_of(cols@.subrange(n - i, n as int), grouping_id),
        decreases n - i,
    {
        let j = cols[n - 1 - i];
        let bit: u32 = (grouping_id & (1u32 << (j as u32))) >> (j as u32);
        proof {
            let longer = cols@.subrange(n - i - 1, n as int);
            assert(longer.subrange(1, longer.len() as int) =~= cols@.subrange(n - i, n as int));
            assert(longer[0] == j);
            assert(longer.len() - 1 == i);
        }
        grouping = (bit << (i as u32)) | grouping;
        i = i + 1;
    }
    assert(cols@.subrange(0, n as int) =~= cols@);
    grouping
}

/// For a single column, `grouping` is the column's bit.
pub proof fn grouping_of_one(j: usize, id: u32)
    requires
        j < 32,
    ensures
        grouping_of(seq![j], id) == bit_of(id, j),
        bit_of(id, j) == 0 || bit_of(id, j) == 1,
{
    let s = seq![j];
    assert(s.subrange(1, 1) =~= Seq::empty());
    reveal_with_fuel(grouping_of, 2);
    let b = bit_of(id, j);
    let sh = j as u32;
    assert(((id & (1u32 << sh)) >> sh) == 0 || ((id & (1u32 << sh)) >> sh) == 1) by (bit_vector)
        requires
            sh < 32,
    ;
    assert((b << 0u32) | 0u32 == b) by (bit_vector);
}

/// Where no listed column is aggregated away, `grouping` is zero.
pub proof fn grouping_of_zero(cols: Seq<usize>)
    requires
        forall|k: int| 0 <= k < cols.len() ==> cols[k] < 32,
        cols.len() <= 32,
    ensures
        grouping_of(cols, 0) == 0,
    decreases cols.len(),
{
    if cols.len() > 0 {
        grouping_of_zero(cols.subrange(1, cols.len() as int));
        let sh = cols[0] as u32;
        let up = (cols.len() - 1) as u32;
        assert((((0u32 & (1u32 << sh)) >> sh) << up) | 0u32 == 0u32) by (bit_vector)
            requires
                sh < 32,
                up < 32,
        ;
    }
}

} // verus!
