//! Running moments of a sequence of vote outcomes, and their agreement with
//! the direct (two-pass) computation of mean and variance.

use vstd::prelude::*;

verus! {

/// Sum of the outcomes.
pub open spec fn sum_of(s: Seq<int>) -> int
    decreases s.len(),
{
    if s.len() == 0 {
        0
    } else {
        sum_of(s.drop_last()) + s.last()
    }
}

/// Sum of the squared outcomes.
pub open spec fn sum_sq_of(s: Seq<int>) -> int
    decreases s.len(),
{
    if s.len() == 0 {
        0
    } else {
        sum_sq_of(s.drop_last()) + s.last() * s.last()
    }
}

/// Sum over the outcomes of `(c * x - d)^2`.
pub open spec fn scaled_dev_sq(s: Seq<int>, c: int, d: int) -> int
    decreases s.len(),
{
    if s.len() == 0 {
        0
    } else {
        scaled_dev_sq(s.drop_last(), c, d) + (c * s.last() - d) * (c * s.last() - d)
    }
}

/// Batch form of the squared deviations from the mean, scaled by `n^2`:
/// with `n` outcomes of sum `S`, the mean is `S / n`, and
/// `sum((n * x - S)^2) == n^2 * sum((x - S / n)^2)`.
pub open spec fn batch_dev_sq(s: Seq<int>) -> int {
    scaled_dev_sq(s, s.len() as int, sum_of(s))
}

/// Variance numerator from the running moments: the population variance of
/// `n` outcomes is `(n * sum_sq - sum^2) / n^2`.
pub open spec fn running_var_num(s: Seq<int>) -> int {
    s.len() * sum_sq_of(s) - sum_of(s) * sum_of(s)
}

proof fn lemma_dev_step(p: int, q: int, s: int, n: int, c: int, d: int, x: int)
    by (nonlinear_arith)
    requires
        p == c * c * q - 2 * c * d * s + n * d * d,
    ensures
        p + (c * x - d) * (c * x - d) == c * c * (q + x * x) - 2 * c * d * (s + x) + (n + 1) * d
            * d,
{
}

/// Expands the sum of squared scaled deviations into the running moments.
pub proof fn lemma_scaled_dev_sq(s: Seq<int>, c: int, d: int)
    ensures
        scaled_dev_sq(s, c, d) == c * c * sum_sq_of(s) - 2 * c * d * sum_of(s) + s.len() * d * d,
    decreases s.len(),
{
    if s.len() > 0 {
        let t = s.drop_last();
        lemma_scaled_dev_sq(t, c, d);
        lemma_dev_step(
            scaled_dev_sq(t, c, d),
            sum_sq_of(t),
            sum_of(t),
            t.len() as int,
            c,
            d,
            s.last(),
        );
    }
}

/// The mean and variance kept as running sums agree with the direct
/// computation over the recorded outcomes: the squared deviations from the
/// mean, summed in one pass after the mean is known, equal
/// `n * (n * sum_sq - sum^2)`. So the population variance, the sum of squared
/// deviations over `n`, is `running_var_num / n^2`; it is never negative.
pub proof fn lemma_running_moments_match_batch(s: Seq<int>)
    ensures
        batch_dev_sq(s) == s.len() * running_var_num(s),
        running_var_num(s) >= 0,
{
    let n = s.len() as int;
    let t = sum_of(s);
    let q = sum_sq_of(s);
    lemma_scaled_dev_sq(s, n, t);
    lemma_scaled_dev_sq_nonneg(s, n, t);
    assert(n * n * q - 2 * n * t * t + n * t * t == n * (n * q - t * t)) by (nonlinear_arith);
    if n > 0 {
        assert(n * (n * q - t * t) >= 0 && n > 0 ==> n * q - t * t >= 0) by (nonlinear_arith);
    } else {
        assert(s =~= Seq::<int>::empty());
    }
}

proof fn lemma_scaled_dev_sq_nonneg(s: Seq<int>, c: int, d: int)
    ensures
        scaled_dev_sq(s, c, d) >= 0,
    decreases s.len(),
{
    if s.len() > 0 {
        let y = c * s.last() - d;
        lemma_scaled_dev_sq_nonneg(s.drop_last(), c, d);
        assert(y * y >= 0) by (nonlinear_arith);
    }
}

} // verus!
