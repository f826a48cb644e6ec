//! How a network's raw output is cut into probability distributions.
//!
//! The predictor describes each state value as a mixture of `approximations`
//! Gaussian curves, and each curve by three consecutive outputs: one that
//! places its mean, one for its deviation and one for its height. This module
//! cuts the output into those triples; turning a triple into a curve is
//! floating-point arithmetic done by the caller.

use vstd::prelude::*;

verus! {

/// The three raw outputs (float bit patterns) that describe one curve.
#[derive(Debug, Clone, Copy, PartialEq, Eq, Structural)]
pub struct CurveParameters {
    pub mean_raw: u32,
    pub deviation_raw: u32,
    pub max_raw: u32,
}

/// How many distributions `n` outputs describe, at `k` curves each.
pub open spec fn distribution_count(n: nat, k: nat) -> nat {
    n / 3 / k
}

/// Where the triple of curve `j` of distribution `i` starts.
pub open spec fn triple_offset(i: int, j: int, k: int) -> int {
    i * k * 3 + j * 3
}

/// The triple that starts at `off`.
pub open spec fn triple_at(arr: Seq<u32>, off: int) -> CurveParameters {
    CurveParameters { mean_raw: arr[off], deviation_raw: arr[off + 1], max_raw: arr[off + 2] }
}

proof fn lemma_triple_in_bounds(n: int, k: int, i: int, j: int)
    requires
        k > 0,
        n >= 0,
        0 <= i < n / 3 / k,
        0 <= j < k,
    ensures
        0 <= i * k <= i * k * 3,
        0 <= triple_offset(i, j, k),
        triple_offset(i, j, k) + 3 <= n,
{
    let q = n / 3 / k;
    assert(0 <= i * k) by (nonlinear_arith)
        requires
            0 <= i,
            0 < k,
    ;
    assert((i + 1) * k <= q * k) by (nonlinear_arith)
        requires
            i + 1 <= q,
            0 < k,
    ;
    assert(q * k <= n / 3) by (nonlinear_arith)
        requires
            q == n / 3 / k,
            0 < k,
            n >= 0,
    ;
    assert(3 * (n / 3) <= n) by (nonlinear_arith)
        requires
            n >= 0,
    ;
    assert(i * k * 3 + j * 3 + 3 <= (i + 1) * k * 3) by (nonlinear_arith)
        requires
            j < k,
    ;
    assert(i * k <= i * k * 3) by (nonlinear_arith)
        requires
            0 <= i * k,
    ;
}

/// Cuts `arr` into `arr.len() / 3 / approximations` distributions of
/// `approximations` triples each, in order; whatever is left over at the end
/// is ignored.
pub fn curve_parameter_groups(arr: &Vec<u32>, approximations: usize) -> (res: Vec<Vec<CurveParameters>>)
    requires
        approximations > 0,
    ensures
        res@.len() == distribution_count(arr@.len(), approximations as nat),
        res@.len() == (arr@.len() as int) / 3 / (approximations as int),
        forall|i: int| 0 <= i < res@.len() ==> #[trigger] res@[i]@.len() == approximations,
        forall|i: int, j: int| 0 <= i < res@.len() && 0 <= j < approximations ==> #[trigger] res@[i]@[j]
            == triple_at(arr@, triple_offset(i, j, approximations as int)),
        forall|i: int, j: int| 0 <= i < res@.len() && 0 <= j < approximations ==> (#[trigger] res@[i]@[j]).mean_raw == arr@[3 * (i * approximations + j)]
            && res@[i]@[j].deviation_raw == arr@[3 * (i * approximations + j) + 1]
            && res@[i]@[j].max_raw == arr@[3 * (i * approximations + j) + 2]
            && 3 * (i * approximations + j) + 2 < arr@.len(),
{
    let num_distributions = arr.len() / 3 / approximations;
    let mut probabilities: Vec<Vec<CurveParameters>> = Vec::with_capacity(num_distributions);

    let mut i: usize = 0;
    while i < num_distributions
        invariant
            approximations > 0,
            num_distributions == distribution_count(arr@.len(), approximations as nat),
            i <= num_distributions,
            probabilities@.len() == i,
            forall|a: int| 0 <= a < i ==> #[trigger] probabilities@[a]@.len() == approximations,
            forall|a: int, b: int| 0 <= a < i && 0 <= b < approximations ==> #[trigger] probabilities@[a]@[b]
                == triple_at(arr@, triple_offset(a, b, approximations as int)),
        decreases num_distributions - i,
    {
        let mut pdf: Vec<CurveParameters> = Vec::with_capacity(approximations);
        let mut j: usize = 0;
        while j < approximations
            invariant
                approximations > 0,
                num_distributions == distribution_count(arr@.len(), approximations as nat),
                i < num_distributions,
                j <= approximations,
                arr@.len() == arr.len(),
                pdf@.len() == j,
                forall|b: int| 0 <= b < j ==> #[trigger] pdf@[b] == triple_at(arr@, triple_offset(i as int, b, approximations as int)),
            decreases approximations - j,
        {
            proof {
                lemma_triple_in_bounds(arr@.len() as int, approximations as int, i as int, j as int);
                assert(arr@.len() <= usize::MAX);
            }
            let offset = i * approximations * 3 + j * 3;
            let curve = CurveParameters {
                mean_raw: arr[offset],
                deviation_raw: arr[offset + 1],
                max_raw: arr[offset + 2],
            };
            pdf.push(curve);
            j = j + 1;
        }
        probabilities.push(pdf);
        i = i + 1;
    }
    assert forall|i: int, j: int| 0 <= i < probabilities@.len() && 0 <= j < approximations implies (#[trigger] probabilities@[i]@[j]).mean_raw == arr@[3 * (i * approximations + j)]
            && probabilities@[i]@[j].deviation_raw == arr@[3 * (i * approximations + j) + 1]
            && probabilities@[i]@[j].max_raw == arr@[3 * (i * approximations + j) + 2]
            && 3 * (i * approximations + j) + 2 < arr@.len() by {
        lemma_triple_in_bounds(arr@.len() as int, approximations as int, i, j);
        let k = approximations as int;
        assert(i * k * 3 + j * 3 == 3 * (i * k + j)) by (nonlinear_arith);
        assert(triple_offset(i, j, k) == 3 * (i * k + j));
        assert(probabilities@[i]@[j] == triple_at(arr@, triple_offset(i, j, k)));
    }
    probabilities
}

/// A predictor output sized for `state_len` values (three outputs per curve,
/// `k` curves per value) is cut into exactly `state_len` distributions.
pub proof fn lemma_prediction_width(state_len: nat, k: nat)
    requires
        k > 0,
    ensures
        distribution_count(state_len * k * 3, k) == state_len,
{
    assert((state_len * k * 3) / 3 == state_len * k) by (nonlinear_arith);
    assert((state_len * k) / k == state_len) by (nonlinear_arith)
        requires
            k > 0,
    ;
}

} // verus!
