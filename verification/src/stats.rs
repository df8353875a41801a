//! Statistics aggregation: a pure reduction of an ordered sequence of
//! recorded round-trip latencies (whole microseconds) into count, minimum,
//! arithmetic mean and maximum.

use vstd::prelude::*;
use vstd::arithmetic::div_mod::{lemma_div_is_ordered, lemma_div_multiples_vanish};
use vstd::arithmetic::mul::lemma_mul_inequality;

verus! {

/// Aggregate view over one completed probe session: how many round trips
/// were recorded, and the least, mean and greatest latency in microseconds.
#[derive(Clone, Copy, Debug, PartialEq, Eq, Structural)]
pub struct Summary {
    pub count: usize,
    pub min_micros: u64,
    pub avg_micros: u64,
    pub max_micros: u64,
}

/// Sum of a sequence of latencies, as a mathematical integer.
pub open spec fn seq_sum(s: Seq<u64>) -> int
    decreases s.len(),
{
    if s.len() == 0 {
        0
    } else {
        seq_sum(s.drop_last()) + s.last()
    }
}

/// Least element of a sequence; 0 when the sequence is empty.
pub open spec fn seq_min(s: Seq<u64>) -> int
    decreases s.len(),
{
    if s.len() == 0 {
        0
    } else if s.len() == 1 {
        s[0] as int
    } else if s.last() < seq_min(s.drop_last()) {
        s.last() as int
    } else {
        seq_min(s.drop_last())
    }
}

/// Greatest element of a sequence; 0 when the sequence is empty.
pub open spec fn seq_max(s: Seq<u64>) -> int
    decreases s.len(),
{
    if s.len() == 0 {
        0
    } else if s.len() == 1 {
        s[0] as int
    } else if s.last() > seq_max(s.drop_last()) {
        s.last() as int
    } else {
        seq_max(s.drop_last())
    }
}

/// Arithmetic mean of a sequence of latencies, rounded towards zero.
pub open spec fn seq_avg(s: Seq<u64>) -> int
    recommends
        s.len() > 0,
{
    seq_sum(s) / s.len() as int
}

/// On a non-empty sequence, the minimum and maximum are elements of the
/// sequence, the minimum is at most the maximum, and the sum lies between
/// `len * min` and `len * max`.
proof fn lemma_sum_bounds(s: Seq<u64>)
    requires
        s.len() > 0,
    ensures
        0 <= seq_min(s) <= seq_max(s) <= u64::MAX,
        s.len() * seq_min(s) <= seq_sum(s) <= s.len() * seq_max(s),
    decreases s.len(),
{
    if s.len() == 1 {
        assert(s.drop_last().len() == 0);
        assert(seq_sum(s.drop_last()) == 0);
        assert(seq_sum(s) == s[0]);
        assert(1 * seq_min(s) == seq_min(s));
        assert(1 * seq_max(s) == seq_max(s));
    } else {
        let d = s.drop_last();
        lemma_sum_bounds(d);
        let n = d.len() as int;
        lemma_mul_inequality(seq_min(s), seq_min(d), n);
        lemma_mul_inequality(seq_max(d), seq_max(s), n);
        assert((n + 1) * seq_min(s) == n * seq_min(s) + seq_min(s)) by (nonlinear_arith);
        assert((n + 1) * seq_max(s) == n * seq_max(s) + seq_max(s)) by (nonlinear_arith);
    }
}

/// Sum of latencies never exceeds the length times the largest value a
/// latency can take.
proof fn lemma_sum_upper(s: Seq<u64>)
    ensures
        0 <= seq_sum(s) <= s.len() * (u64::MAX as int),
    decreases s.len(),
{
    if s.len() > 0 {
        let d = s.drop_last();
        lemma_sum_upper(d);
        assert((d.len() + 1) * (u64::MAX as int) == d.len() * (u64::MAX as int) + u64::MAX)
            by (nonlinear_arith);
    }
}

/// For every non-empty sequence of recorded latencies, the minimum latency
/// is at most the arithmetic mean, and the mean is at most the maximum.
pub proof fn lemma_min_avg_max(s: Seq<u64>)
    requires
        s.len() > 0,
    ensures
        seq_min(s) <= seq_avg(s) <= seq_max(s),
{
    let n = s.len() as int;
    lemma_sum_bounds(s);
    lemma_div_is_ordered(n * seq_min(s), seq_sum(s), n);
    lemma_div_is_ordered(seq_sum(s), n * seq_max(s), n);
    lemma_div_multiples_vanish(seq_min(s), n);
    lemma_div_multiples_vanish(seq_max(s), n);
}

/// Reduce an ordered sequence of recorded latencies to its summary.
/// An empty sequence yields no summary; a non-empty one yields its length,
/// least element, mean (rounded towards zero) and greatest element.
pub fn summarize(latencies: &Vec<u64>) -> (r: Option<Summary>)
    ensures
        r is Some <==> latencies@.len() > 0,
        match r {
            Some(s) => s.count == latencies@.len() && s.min_micros == seq_min(latencies@)
                && s.avg_micros == seq_avg(latencies@) && s.max_micros == seq_max(latencies@),
            None => latencies@.len() == 0,
        },
{
    if latencies.len() == 0 {
        return None;
    }
    let first = latencies[0];
    let mut mn: u64 = first;
    let mut mx: u64 = first;
    let mut sum: u128 = first as u128;
    let mut i: usize = 1;
    proof {
        let s1 = latencies@.subrange(0, 1);
        assert(s1.len() == 1);
        assert(s1.drop_last().len() == 0);
        assert(seq_sum(s1.drop_last()) == 0);
        assert(s1.last() == latencies@[0]);
        assert(seq_sum(s1) == first);
        assert(seq_min(s1) == first);
        assert(seq_max(s1) == first);
    }
    while i < latencies.len()
        invariant
            1 <= i <= latencies@.len(),
            mn as int == seq_min(latencies@.subrange(0, i as int)),
            mx as int == seq_max(latencies@.subrange(0, i as int)),
            sum as int == seq_sum(latencies@.subrange(0, i as int)),
        decreases latencies@.len() - i,
    {
        let x = latencies[i];
        let ghost pre = latencies@.subrange(0, i as int);
        let ghost cur = latencies@.subrange(0, i as int + 1);
        proof {
            assert(cur.drop_last() =~= pre);
            assert(cur.last() == latencies@[i as int]);
            lemma_sum_upper(pre);
            lemma_mul_inequality(pre.len() as int, u64::MAX as int, u64::MAX as int);
            assert((u64::MAX as int) * (u64::MAX as int) + (u64::MAX as int)
                <= u128::MAX as int) by (nonlinear_arith);
        }
        if x < mn {
            mn = x;
        }
        if x > mx {
            mx = x;
        }
        sum = sum + x as u128;
        i = i + 1;
    }
    proof {
        assert(latencies@.subrange(0, latencies@.len() as int) =~= latencies@);
        lemma_sum_bounds(latencies@);
        lemma_min_avg_max(latencies@);
    }
    let avg_wide: u128 = sum / (latencies.len() as u128);
    let avg: u64 = avg_wide as u64;
    Some(Summary { count: latencies.len(), min_micros: mn, avg_micros: avg, max_micros: mx })
}

} // verus!
