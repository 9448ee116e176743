use vstd::prelude::*;

use crate::scalar::{float_le, Scalar};

verus! {

/// What the regularized solver has to do for a flattened transfer matrix of
/// the given shape: with zero rows (no observations) or zero columns (no
/// poles) the amplitude result is the zero-sized or all-zero vector and no
/// decomposition is attempted; otherwise the singular-value decomposition
/// runs.
#[derive(Clone, Copy, Debug, PartialEq, Eq, Structural)]
pub enum SolvePlan {
    /// Return `n_cols` zero amplitudes without invoking the decomposition.
    Trivial,
    /// Run the singular-value decomposition and the truncated pseudo-inverse.
    Decompose,
}

/// Decides how the solver proceeds on a `n_rows` by `n_cols` system.
pub fn solve_plan(n_rows: usize, n_cols: usize) -> (r: SolvePlan)
    ensures
        (r == SolvePlan::Trivial) == (n_rows == 0 || n_cols == 0),
        (r == SolvePlan::Decompose) == (n_rows != 0 && n_cols != 0),
{
    if n_rows == 0 || n_cols == 0 {
        SolvePlan::Trivial
    } else {
        SolvePlan::Decompose
    }
}

/// The amplitude vector of a degenerate or fully truncated solve: `n` exact
/// (positive) zeros.
pub fn zero_amplitudes(n: usize) -> (r: Vec<Scalar>)
    ensures
        r@.len() == n,
        forall|m: int| 0 <= m < n ==> (#[trigger] r@[m]).bits == 0,
{
    let mut v: Vec<Scalar> = Vec::new();
    let mut m: usize = 0;
    while m < n
        invariant
            m <= n,
            v@.len() == m,
            forall|q: int| 0 <= q < m ==> (#[trigger] v@[q]).bits == 0,
        decreases n - m,
    {
        v.push(Scalar { bits: 0 });
        m += 1;
    }
    v
}

/// The indices of the singular values that the truncated pseudo-inverse
/// keeps: those at least as large as the threshold in the floating-point
/// order, in increasing index order.  A NaN singular value, or a NaN
/// threshold, is never kept.
pub open spec fn spec_retained(s: Seq<Scalar>, threshold: Scalar) -> Seq<usize>
    decreases s.len(),
{
    if s.len() == 0 {
        Seq::empty()
    } else {
        let prefix = spec_retained(s.drop_last(), threshold);
        if float_le(threshold.bits, s.last().bits) {
            prefix.push((s.len() - 1) as usize)
        } else {
            prefix
        }
    }
}

/// Selects the retained singular values: index `i` is kept exactly when
/// `s[i] >= threshold` holds in the floating-point order, and the kept
/// indices come out in increasing order.
pub fn retained_indices(s: &Vec<Scalar>, threshold: Scalar) -> (r: Vec<usize>)
    ensures
        r@ == spec_retained(s@, threshold),
{
    let n = s.len();
    let mut kept: Vec<usize> = Vec::new();
    let mut i: usize = 0;
    while i < n
        invariant
            n == s@.len(),
            i <= n,
            kept@ == spec_retained(s@.take(i as int), threshold),
        decreases n - i,
    {
        proof {
            let t = s@.take(i as int + 1);
            assert(t.drop_last() =~= s@.take(i as int));
            assert(t.last() == s@[i as int]);
        }
        if threshold.le_value(&s[i]) {
            kept.push(i);
        }
        i += 1;
    }
    proof {
        assert(s@.take(n as int) =~= s@);
    }
    kept
}

/// Truncation monotonicity: raising the truncation threshold never keeps
/// more singular values.  The threshold the solver uses is `epsilon` times
/// the largest singular value, so for a fixed spectrum a larger `epsilon`
/// reduces, or leaves unchanged, the number of retained modes.
pub proof fn lemma_retention_monotone(s: Seq<Scalar>, t1: Scalar, t2: Scalar)
    requires
        float_le(t1.bits, t2.bits),
    ensures
        spec_retained(s, t2).len() <= spec_retained(s, t1).len(),
    decreases s.len(),
{
    if s.len() > 0 {
        lemma_retention_monotone(s.drop_last(), t1, t2);
    }
}

/// The retained indices are in range and come out in strictly increasing
/// order, so they name distinct singular values.
pub proof fn lemma_retained_increasing(s: Seq<Scalar>, threshold: Scalar)
    requires
        s.len() <= usize::MAX,
    ensures
        forall|k: int|
            0 <= k < spec_retained(s, threshold).len() ==> #[trigger] spec_retained(s, threshold)[k]
                < s.len(),
        forall|k1: int, k2: int|
            0 <= k1 < k2 < spec_retained(s, threshold).len() ==> spec_retained(s, threshold)[k1]
                < spec_retained(s, threshold)[k2],
    decreases s.len(),
{
    if s.len() > 0 {
        lemma_retained_increasing(s.drop_last(), threshold);
        let prefix = spec_retained(s.drop_last(), threshold);
        if float_le(threshold.bits, s.last().bits) {
            let whole = prefix.push((s.len() - 1) as usize);
            assert forall|k: int| 0 <= k < whole.len() implies #[trigger] whole[k] < s.len() by {
                if k < prefix.len() {
                    assert(whole[k] == prefix[k]);
                }
            }
            assert forall|k1: int, k2: int| 0 <= k1 < k2 < whole.len() implies whole[k1]
                < whole[k2] by {
                assert(whole[k1] == prefix[k1]);
                if k2 < prefix.len() {
                    assert(whole[k2] == prefix[k2]);
                } else {
                    assert(whole[k2] == s.len() - 1);
                }
            }
        }
    }
}

/// Exactly the in-range indices whose singular value clears the threshold
/// are retained.
pub proof fn lemma_retained_membership(s: Seq<Scalar>, threshold: Scalar, i: usize)
    requires
        s.len() <= usize::MAX,
    ensures
        spec_retained(s, threshold).contains(i) == (i < s.len() && float_le(
            threshold.bits,
            s[i as int].bits,
        )),
    decreases s.len(),
{
    if s.len() > 0 {
        lemma_retained_membership(s.drop_last(), threshold, i);
        let prefix = spec_retained(s.drop_last(), threshold);
        if float_le(threshold.bits, s.last().bits) {
            vstd::seq_lib::lemma_seq_contains_after_push(prefix, (s.len() - 1) as usize, i);
        }
        if i < s.len() - 1 {
            assert(s.drop_last()[i as int] == s[i as int]);
        }
    }
}

} // verus!
