//! Aggregation of raw samples: one cycle's N samples of a channel are
//! reduced to a single scaled integer reading.
//!
//! The reduction is the pure function `(sum(samples) * scale) / N` with
//! truncating integer division (the quotient carries the sign of the
//! dividend), which for unsigned analog channels is the pre-scaled mean
//! and for signed amplifier channels the sign-preserving mean.

use vstd::prelude::*;
use vstd::arithmetic::div_mod::lemma_multiply_divide_le;

verus! {

/// Largest magnitude a raw sample can have (`i32` range).
pub open spec fn sample_bound() -> int {
    0x8000_0000
}

/// Sum of a sequence of raw samples, as a mathematical integer.
pub open spec fn sum_of(s: Seq<i32>) -> int
    decreases s.len(),
{
    if s.len() == 0 {
        0
    } else {
        sum_of(s.drop_last()) + s.last()
    }
}

/// Truncating integer division for a positive divisor: the quotient is
/// rounded toward zero, so it carries the sign of the dividend.
pub open spec fn trunc_div(a: int, b: int) -> int
    recommends
        b > 0,
{
    if a >= 0 {
        a / b
    } else {
        -((-a) / b)
    }
}

/// Truncating division rounds toward zero, so the quotient carries the
/// dividend's sign: a non-negative dividend gives a non-negative
/// quotient and a non-positive one a non-positive quotient, with the
/// magnitude in either case the magnitude's quotient.
pub proof fn lemma_trunc_div_matches_dividend_sign(a: int, b: int)
    requires
        b > 0,
    ensures
        a >= 0 ==> trunc_div(a, b) == a / b >= 0,
        a <= 0 ==> trunc_div(a, b) == -((-a) / b) <= 0,
{
    if a >= 0 {
        vstd::arithmetic::div_mod::lemma_div_pos_is_pos(a, b);
    } else {
        vstd::arithmetic::div_mod::lemma_div_pos_is_pos(-a, b);
    }
}

/// The reading that reducing `samples` with `scale` must produce:
/// `(sum(samples) * scale) / N` with truncating division, N the number
/// of samples.
pub open spec fn reduce_spec(samples: Seq<i32>, scale: int) -> int
    recommends
        samples.len() >= 1,
{
    trunc_div(sum_of(samples) * scale, samples.len() as int)
}

/// Appending one sample extends the sum by that sample.
proof fn lemma_sum_push(s: Seq<i32>, x: i32)
    ensures
        sum_of(s.push(x)) == sum_of(s) + x,
{
    assert(s.push(x).drop_last() =~= s);
}

/// Reduce one cycle's samples of one channel to a single reading:
/// sum the samples, multiply by the channel's scale factor, divide by
/// the sample count with truncating division.
///
/// The sample count is fixed per run and at least 1; an empty sequence
/// is a programming-contract violation, excluded here, not a runtime
/// error.
pub fn reduce(samples: &Vec<i32>, scale: i32) -> (r: i64)
    requires
        1 <= samples@.len() <= u32::MAX,
    ensures
        r == reduce_spec(samples@, scale as int),
{
    let n: usize = samples.len();
    let mut acc: i64 = 0;
    let mut i: usize = 0;
    while i < n
        invariant
            i <= n,
            n == samples@.len(),
            n <= u32::MAX,
            acc == sum_of(samples@.take(i as int)),
            -(i * sample_bound()) <= acc <= i * sample_bound(),
        decreases n - i,
    {
        proof {
            lemma_sum_push(samples@.take(i as int), samples@[i as int]);
            assert(samples@.take(i as int).push(samples@[i as int]) =~= samples@.take(
                i as int + 1,
            ));
        }
        acc = acc + samples[i] as i64;
        i = i + 1;
    }
    proof {
        assert(samples@.take(n as int) =~= samples@);
        let a: int = acc as int;
        let sc: int = scale as int;
        let nn: int = n as int;
        assert(-(nn * 0x4000_0000_0000_0000) <= a * sc && a * sc <= nn * 0x4000_0000_0000_0000)
            by (nonlinear_arith)
            requires
                -(nn * 0x8000_0000) <= a <= nn * 0x8000_0000,
                -0x8000_0000 <= sc <= 0x8000_0000,
                nn >= 1,
        ;
    }
    let prod: i128 = acc as i128 * scale as i128;
    let mag: u128 = if prod >= 0 {
        prod as u128
    } else {
        (-prod) as u128
    };
    let q: u128 = mag / (n as u128);
    proof {
        lemma_multiply_divide_le(mag as int, n as int, 0x4000_0000_0000_0000);
    }
    if prod >= 0 {
        q as i64
    } else {
        -(q as i64)
    }
}

/// The reduction is deterministic: equal sample sequences and equal
/// scales yield equal readings.
pub proof fn lemma_reduce_deterministic(s1: Seq<i32>, s2: Seq<i32>, scale1: int, scale2: int)
    requires
        s1 == s2,
        scale1 == scale2,
    ensures
        reduce_spec(s1, scale1) == reduce_spec(s2, scale2),
{
}

/// With a single sample the reduction degenerates to scale-and-passthrough:
/// the reading is the raw sample times the scale factor.
pub proof fn lemma_reduce_single(x: i32, scale: int)
    ensures
        reduce_spec(seq![x], scale) == x * scale,
{
    assert(seq![x].drop_last() =~= Seq::<i32>::empty());
    assert(sum_of(Seq::<i32>::empty()) == 0);
    assert(sum_of(seq![x]) == sum_of(seq![x].drop_last()) + seq![x].last());
    assert(sum_of(seq![x]) == x);
    let p: int = x * scale;
    if p >= 0 {
        assert(p / 1 == p);
    } else {
        assert((-p) / 1 == -p);
    }
}

} // verus!
