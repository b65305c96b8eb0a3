//! The integer side of mean pooling: which token positions take part in the
//! average, and with what total weight.

use vstd::prelude::*;

verus! {

/// True when position `s` of the mask takes part in pooling: it exists and
/// carries a positive weight.
pub open spec fn attends(mask: Seq<i64>, s: int) -> bool {
    0 <= s < mask.len() && mask[s] > 0
}

/// The positions that take part in pooling, in increasing order.
pub open spec fn attended(mask: Seq<i64>) -> Seq<int>
    decreases mask.len(),
{
    if mask.len() == 0 {
        Seq::empty()
    } else if mask.last() > 0 {
        attended(mask.drop_last()).push(mask.len() - 1)
    } else {
        attended(mask.drop_last())
    }
}

/// The divisor of the average: the sum of the positive mask values.
pub open spec fn weight(mask: Seq<i64>) -> int
    decreases mask.len(),
{
    if mask.len() == 0 {
        0
    } else if mask.last() > 0 {
        weight(mask.drop_last()) + mask.last()
    } else {
        weight(mask.drop_last())
    }
}

/// The sum of all mask values, whatever their sign.
pub open spec fn total(mask: Seq<i64>) -> int
    decreases mask.len(),
{
    if mask.len() == 0 {
        0
    } else {
        total(mask.drop_last()) + mask.last()
    }
}

/// True when every mask value is 0 or 1.
pub open spec fn is_binary(mask: Seq<i64>) -> bool {
    forall|s: int| 0 <= s < mask.len() ==> mask[s] == 0 || mask[s] == 1
}

/// A list of machine indices read as mathematical positions.
pub open spec fn as_positions(indices: Seq<usize>) -> Seq<int> {
    Seq::new(indices.len(), |k: int| indices[k] as int)
}

/// Lists the positions that take part in pooling, in increasing order.
pub fn attended_positions(mask: &Vec<i64>) -> (r: Vec<usize>)
    ensures
        as_positions(r@) == attended(mask@),
{
    let mut out: Vec<usize> = Vec::new();
    let mut s: usize = 0;
    while s < mask.len()
        invariant
            s <= mask.len(),
            as_positions(out@) =~= attended(mask@.take(s as int)),
        decreases mask.len() - s,
    {
        proof {
            assert(mask@.take(s as int + 1).drop_last() =~= mask@.take(s as int));
            assert(mask@.take(s as int + 1).last() == mask@[s as int]);
        }
        if mask[s] > 0 {
            out.push(s);
            assert(as_positions(out@) =~= attended(mask@.take(s as int)).push(s as int));
        }
        s += 1;
    }
    proof {
        assert(mask@.take(mask@.len() as int) =~= mask@);
    }
    out
}

/// Adds up the positive mask values. The sum of any mask a machine can
/// hold fits the result.
pub fn attention_weight(mask: &Vec<i64>) -> (w: i128)
    ensures
        w == weight(mask@),
        w >= 0,
{
    let mut acc: i128 = 0;
    let mut s: usize = 0;
    while s < mask.len()
        invariant
            s <= mask.len(),
            acc == weight(mask@.take(s as int)),
            0 <= acc <= s * 0x7fff_ffff_ffff_ffff,
        decreases mask.len() - s,
    {
        proof {
            assert(mask@.take(s as int + 1).drop_last() =~= mask@.take(s as int));
            assert(mask@.take(s as int + 1).last() == mask@[s as int]);
            assert((s + 1) * 0x7fff_ffff_ffff_ffff == s * 0x7fff_ffff_ffff_ffff
                + 0x7fff_ffff_ffff_ffff) by (nonlinear_arith);
            assert(s * 0x7fff_ffff_ffff_ffff <= 0xffff_ffff_ffff_ffff * 0x7fff_ffff_ffff_ffff)
                by (nonlinear_arith)
                requires
                    s <= 0xffff_ffff_ffff_ffff,
            ;
        }
        if mask[s] > 0 {
            acc = acc + mask[s] as i128;
        }
        s += 1;
    }
    proof {
        assert(mask@.take(mask@.len() as int) =~= mask@);
    }
    acc
}

/// The attended positions are exactly those with a positive mask value,
/// each listed once, in increasing order.
pub proof fn lemma_attended_exact(mask: Seq<i64>)
    ensures
        forall|k: int|
            0 <= k < attended(mask).len() ==> attends(mask, #[trigger] attended(mask)[k]),
        forall|s: int| attends(mask, s) ==> exists|k: int|
            0 <= k < attended(mask).len() && #[trigger] attended(mask)[k] == s,
        forall|j: int, k: int|
            0 <= j < k < attended(mask).len() ==> attended(mask)[j] < attended(mask)[k],
        attended(mask).len() <= mask.len(),
    decreases mask.len(),
{
    if mask.len() > 0 {
        let front = mask.drop_last();
        let last = (mask.len() - 1) as int;
        lemma_attended_exact(front);
        let a = attended(mask);
        let b = attended(front);
        assert forall|s: int| attends(mask, s) implies exists|k: int|
            0 <= k < a.len() && #[trigger] a[k] == s by {
            if s < last {
                assert(attends(front, s));
                let k = choose|k: int| 0 <= k < b.len() && #[trigger] b[k] == s;
                assert(a[k] == s);
            } else {
                assert(a[a.len() - 1] == s);
            }
        }
        assert forall|k: int| 0 <= k < a.len() implies attends(mask, #[trigger] a[k]) by {
            if k < b.len() {
                assert(attends(front, b[k]));
            }
        }
        assert forall|j: int, k: int| 0 <= j < k < a.len() implies a[j] < a[k] by {
            assert(attends(front, b[j]));
            if k < b.len() {
            }
        }
    }
}

/// A mask without a positive value attends to nothing and weighs nothing,
/// so the pooled vector is all zero; and only such a mask does.
pub proof fn lemma_nothing_attended(mask: Seq<i64>)
    ensures
        (forall|s: int| 0 <= s < mask.len() ==> mask[s] <= 0) <==> attended(mask).len() == 0,
        attended(mask).len() == 0 <==> weight(mask) == 0,
        weight(mask) >= 0,
    decreases mask.len(),
{
    if mask.len() > 0 {
        let front = mask.drop_last();
        lemma_nothing_attended(front);
        if mask.last() > 0 {
            assert(mask[mask.len() - 1] > 0);
        } else if attended(front).len() == 0 {
            assert forall|s: int| 0 <= s < mask.len() implies mask[s] <= 0 by {
                if s < front.len() {
                    assert(front[s] == mask[s]);
                }
            }
        } else {
            let s = choose|s: int| 0 <= s < front.len() && front[s] > 0;
            assert(mask[s] > 0);
        }
    }
}

/// On a mask of zeros and ones the weight is the number of attended
/// positions.
pub proof fn lemma_binary_weight(mask: Seq<i64>)
    requires
        is_binary(mask),
    ensures
        weight(mask) == attended(mask).len(),
    decreases mask.len(),
{
    if mask.len() > 0 {
        let front = mask.drop_last();
        assert(is_binary(front)) by {
            assert forall|s: int| 0 <= s < front.len() implies front[s] == 0 || front[s] == 1 by {
                assert(front[s] == mask[s]);
            }
        }
        lemma_binary_weight(front);
        assert(mask.last() == mask[mask.len() - 1]);
    }
}

/// On a mask without negative values the weight is the plain sum of the
/// mask.
pub proof fn lemma_weight_is_total(mask: Seq<i64>)
    requires
        forall|s: int| 0 <= s < mask.len() ==> mask[s] >= 0,
    ensures
        weight(mask) == total(mask),
    decreases mask.len(),
{
    if mask.len() > 0 {
        let front = mask.drop_last();
        assert forall|s: int| 0 <= s < front.len() implies front[s] >= 0 by {
            assert(front[s] == mask[s]);
        }
        lemma_weight_is_total(front);
        assert(mask.last() == mask[mask.len() - 1]);
    }
}

} // verus!
