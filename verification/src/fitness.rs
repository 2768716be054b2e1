//! Fitness scoring: the dissimilarity between two equal-length RGBA8 pixel
//! buffers is the sum over all channel bytes of the squared difference.
//! Every difference is an integer, every square is at most 255 * 255, so the
//! whole sum is an exact integer; lower means more similar, and zero holds
//! exactly for identical buffers.

use vstd::prelude::*;

use rayon::iter::IndexedParallelIterator;
use rayon::iter::IntoParallelRefIterator;
use rayon::iter::ParallelIterator;

verus! {

/// The largest squared difference a single channel byte pair can produce.
pub const MAX_CHANNEL_SQ: u64 = 65025;

/// Longest buffer `score` accepts; keeps the u64 accumulation from
/// overflowing, since MAX_CHANNEL_SQ * MAX_BUFFER_LEN < u64::MAX.
pub const MAX_BUFFER_LEN: usize = 0x4000_0000;

/// Squared difference of two channel bytes, as a mathematical integer.
pub open spec fn sq_diff(x: u8, y: u8) -> int {
    (x - y) * (x - y)
}

/// Absolute difference of two channel bytes.
pub open spec fn abs_delta(x: u8, y: u8) -> int {
    if x >= y {
        x - y
    } else {
        y - x
    }
}

/// Sum of squared channel differences between `a` and the first `a.len()`
/// entries of `b`; the dissimilarity score when the two have equal length.
pub open spec fn sum_sq_diff(a: Seq<u8>, b: Seq<u8>) -> int
    decreases a.len(),
{
    if a.len() == 0 {
        0
    } else {
        sum_sq_diff(a.drop_last(), b) + sq_diff(a.last(), b[a.len() - 1])
    }
}

/// Squared difference of one channel pair, computed exactly.
pub fn sq_diff_exec(x: u8, y: u8) -> (r: u64)
    ensures
        r == sq_diff(x, y),
        r <= MAX_CHANNEL_SQ,
{
    proof {
        lemma_sq_diff_bounds(x, y);
    }
    let d: i64 = x as i64 - y as i64;
    proof {
        assert(d * d == sq_diff(x, y)) by (nonlinear_arith)
            requires
                d == x - y,
        ;
    }
    (d * d) as u64
}

/// Relies on rayon: `par_iter` walks each slice in index order, `zip` pairs
/// the two element-by-element, `map` applies the given closure, and `sum`
/// reduces with `u64` addition in an unspecified order, which rayon's
/// documentation states is `reduce(|| 0, |a, b| a + b)` up to grouping; u64
/// addition is associative and commutative and the bound below rules out
/// overflow, so the result equals the sequential sum.
#[verifier::external_body]
fn par_sum_sq_diff(reference: &Vec<u8>, candidate: &Vec<u8>) -> (r: u64)
    requires
        reference@.len() == candidate@.len(),
        sum_sq_diff(reference@, candidate@) <= u64::MAX,
    ensures
        r == sum_sq_diff(reference@, candidate@),
{
    reference
        .par_iter()
        .zip(candidate.par_iter())
        .map(|(x, y)| sq_diff_exec(*x, *y))
        .sum()
}

/// Dissimilarity between a reference buffer and a candidate buffer: the sum
/// over all channel bytes of the squared difference, computed by a parallel
/// partitioned reduction.
pub fn score(reference: &Vec<u8>, candidate: &Vec<u8>) -> (r: u64)
    requires
        reference@.len() == candidate@.len(),
        reference@.len() <= MAX_BUFFER_LEN,
    ensures
        r == sum_sq_diff(reference@, candidate@),
{
    proof {
        lemma_sum_sq_diff_bounds(reference@, candidate@);
        assert(65025 * reference@.len() <= 65025 * (MAX_BUFFER_LEN as int)) by (nonlinear_arith)
            requires
                reference@.len() <= MAX_BUFFER_LEN as int,
        ;
    }
    par_sum_sq_diff(reference, candidate)
}

proof fn lemma_sq_diff_bounds(x: u8, y: u8)
    ensures
        0 <= sq_diff(x, y) <= MAX_CHANNEL_SQ,
{
    assert(0 <= (x - y) * (x - y) <= 65025) by (nonlinear_arith);
}

/// The score of any pair of buffers lies between 0 and 65025 per channel.
pub proof fn lemma_sum_sq_diff_bounds(a: Seq<u8>, b: Seq<u8>)
    ensures
        0 <= sum_sq_diff(a, b) <= 65025 * a.len(),
    decreases a.len(),
{
    if a.len() > 0 {
        lemma_sum_sq_diff_bounds(a.drop_last(), b);
        lemma_sq_diff_bounds(a.last(), b[a.len() - 1]);
    }
}

/// A buffer compared with itself scores exactly zero.
pub proof fn lemma_score_identical(a: Seq<u8>)
    ensures
        sum_sq_diff(a, a) == 0,
    decreases a.len(),
{
    if a.len() > 0 {
        lemma_sum_agrees(a.drop_last(), a, a.drop_last());
        lemma_score_identical(a.drop_last());
    }
}

/// The score reads only the first `a.len()` entries of the second buffer.
proof fn lemma_sum_agrees(a: Seq<u8>, b1: Seq<u8>, b2: Seq<u8>)
    requires
        forall|j: int| 0 <= j < a.len() ==> b1[j] == b2[j],
    ensures
        sum_sq_diff(a, b1) == sum_sq_diff(a, b2),
    decreases a.len(),
{
    if a.len() > 0 {
        lemma_sum_agrees(a.drop_last(), b1, b2);
    }
}

/// Changing the candidate at exactly one channel shifts the score by the
/// difference of the two squared terms at that channel.
proof fn lemma_sum_one_change(a: Seq<u8>, b1: Seq<u8>, b2: Seq<u8>, i: int)
    requires
        0 <= i < a.len(),
        forall|j: int| 0 <= j < a.len() && j != i ==> b1[j] == b2[j],
    ensures
        sum_sq_diff(a, b2) == sum_sq_diff(a, b1) - sq_diff(a[i], b1[i]) + sq_diff(a[i], b2[i]),
    decreases a.len(),
{
    if i == a.len() - 1 {
        lemma_sum_agrees(a.drop_last(), b1, b2);
    } else {
        lemma_sum_one_change(a.drop_last(), b1, b2, i);
    }
}

proof fn lemma_sq_strict_mono(x: u8, y1: u8, y2: u8)
    requires
        abs_delta(x, y2) > abs_delta(x, y1),
    ensures
        sq_diff(x, y2) > sq_diff(x, y1),
{
    let d1 = abs_delta(x, y1);
    let d2 = abs_delta(x, y2);
    assert((x - y1) * (x - y1) == d1 * d1 && (x - y2) * (x - y2) == d2 * d2)
        by (nonlinear_arith)
        requires
            d1 == abs_delta(x, y1),
            d2 == abs_delta(x, y2),
            abs_delta(x, y1) == if x >= y1 { x - y1 } else { y1 - x },
            abs_delta(x, y2) == if x >= y2 { x - y2 } else { y2 - x },
    ;
    assert(d1 * d1 < d2 * d2) by (nonlinear_arith)
        requires
            0 <= d1 < d2,
    ;
}

/// The score is strictly increasing in any single channel's absolute
/// difference, holding every other channel fixed.
pub proof fn lemma_score_single_channel_strict(a: Seq<u8>, b1: Seq<u8>, b2: Seq<u8>, i: int)
    requires
        a.len() == b1.len(),
        a.len() == b2.len(),
        0 <= i < a.len(),
        forall|j: int| 0 <= j < a.len() && j != i ==> b1[j] == b2[j],
        abs_delta(a[i], b2[i]) > abs_delta(a[i], b1[i]),
    ensures
        sum_sq_diff(a, b2) > sum_sq_diff(a, b1),
{
    lemma_sum_one_change(a, b1, b2, i);
    lemma_sq_strict_mono(a[i], b1[i], b2[i]);
}

/// The score is zero exactly when the two buffers are pixel-identical.
pub proof fn lemma_score_zero_iff(a: Seq<u8>, b: Seq<u8>)
    requires
        a.len() == b.len(),
    ensures
        sum_sq_diff(a, b) == 0 <==> a =~= b,
    decreases a.len(),
{
    if a.len() == 0 {
        assert(a =~= b);
    } else {
        lemma_score_zero_iff(a.drop_last(), b.drop_last());
        lemma_sum_agrees(a.drop_last(), b, b.drop_last());
        lemma_sum_sq_diff_bounds(a.drop_last(), b);
        lemma_sq_diff_bounds(a.last(), b.last());
        assert(sq_diff(a.last(), b.last()) == 0 ==> a.last() == b.last()) by (nonlinear_arith);
        if sum_sq_diff(a, b) == 0 {
            assert(a.drop_last() =~= b.drop_last());
            assert forall|i: int| 0 <= i < a.len() implies a[i] == b[i] by {
                if i < a.len() - 1 {
                    assert(a[i] == a.drop_last()[i]);
                    assert(b[i] == b.drop_last()[i]);
                }
            }
            assert(a =~= b);
        }
        if a =~= b {
            assert(a.drop_last() =~= b.drop_last());
        }
    }
}

proof fn lemma_sq_diff_sym(x: u8, y: u8)
    ensures
        sq_diff(x, y) == sq_diff(y, x),
{
    assert((x - y) * (x - y) == (y - x) * (y - x)) by (nonlinear_arith);
}

/// Scoring is symmetric: the formula squares each difference.
pub proof fn lemma_score_symmetric(a: Seq<u8>, b: Seq<u8>)
    requires
        a.len() == b.len(),
    ensures
        sum_sq_diff(a, b) == sum_sq_diff(b, a),
    decreases a.len(),
{
    if a.len() > 0 {
        lemma_sum_agrees(a.drop_last(), b, b.drop_last());
        lemma_sum_agrees(b.drop_last(), a, a.drop_last());
        lemma_score_symmetric(a.drop_last(), b.drop_last());
        lemma_sq_diff_sym(a.last(), b.last());
    }
}

}
