use vstd::prelude::*;

use crate::filter::{
    clamp8, const_line, dot, duty_out, line_acc, phase_out, round_unit, shift_in, step_out,
    zero_line,
};
use crate::taps::{
    lemma_tap_bounds, lemma_tap_monotone, lemma_tap_peak, lemma_tap_symmetry,
    lemma_tap_sum_total, tap, tap_sum,
};

verus! {

/// The delay line reached from `s` after feeding the constant sample `v`
/// for `n` ticks.
pub open spec fn feed_const(s: Seq<int>, v: int, n: int) -> Seq<int>
    decreases n,
{
    if n <= 0 {
        s
    } else {
        shift_in(feed_const(s, v, n - 1), v)
    }
}

/// Pointwise sum of two delay lines.
pub open spec fn seq_add(x: Seq<int>, y: Seq<int>) -> Seq<int> {
    Seq::new(x.len(), |i: int| x[i] + y[i])
}

/// A delay line scaled pointwise by `a`.
pub open spec fn seq_scale(a: int, x: Seq<int>) -> Seq<int> {
    Seq::new(x.len(), |i: int| a * x[i])
}

proof fn lemma_dot_all_zero(s: Seq<int>, n: int)
    requires
        forall|i: int| 0 <= i < n ==> s[i] == 0,
    ensures
        dot(s, n) == 0,
    decreases n,
{
    if n > 0 {
        lemma_dot_all_zero(s, n - 1);
    }
}

/// Zero input keeps a zero filter at zero: from an all-zero delay line,
/// feeding the sample 0 leaves the line all-zero and both the duty and the
/// phase output are 0. By induction this holds for every later tick as well.
pub proof fn lemma_zero_in_zero_out(s: Seq<int>)
    requires
        s.len() == 199,
        forall|i: int| 0 <= i < 199 ==> s[i] == 0,
    ensures
        shift_in(s, 0).len() == 199,
        forall|i: int| 0 <= i < 199 ==> shift_in(s, 0)[i] == 0,
        duty_out(shift_in(s, 0)) == 0,
        phase_out(shift_in(s, 0)) == 0,
{
    let t = shift_in(s, 0);
    assert forall|i: int| 0 <= i < 199 implies t[i] == 0 by {
        if i < 198 {
            assert(t[i] == s[i + 1]);
        }
    }
    lemma_dot_all_zero(t, 199);
    vstd::arithmetic::div_mod::lemma_fundamental_div_mod_converse(5_000_000, 10_000_000, 0, 5_000_000);
}

proof fn lemma_feed_const_len(s: Seq<int>, v: int, n: int)
    requires
        s.len() == 199,
    ensures
        feed_const(s, v, n).len() == 199,
    decreases n,
{
    if n > 0 {
        lemma_feed_const_len(s, v, n - 1);
    }
}

proof fn lemma_feed_const_index(s: Seq<int>, v: int, n: int, i: int)
    requires
        s.len() == 199,
        0 <= i < 199,
        199 - n <= i,
    ensures
        feed_const(s, v, n)[i] == v,
    decreases n,
{
    lemma_feed_const_len(s, v, n - 1);
    if i < 198 {
        lemma_feed_const_index(s, v, n - 1, i + 1);
    }
}

/// Feeding a constant sample for at least 199 ticks fills the whole delay
/// line with that sample, whatever the line held before.
pub proof fn lemma_feed_const_fills(s: Seq<int>, v: int, n: int)
    requires
        s.len() == 199,
        n >= 199,
    ensures
        feed_const(s, v, n) == const_line(v),
{
    lemma_feed_const_len(s, v, n);
    assert forall|i: int| 0 <= i < 199 implies feed_const(s, v, n)[i] == v by {
        lemma_feed_const_index(s, v, n, i);
    }
    assert(feed_const(s, v, n) =~= const_line(v));
}

proof fn lemma_dot_const(v: int, n: int)
    requires
        0 <= n <= 199,
    ensures
        dot(const_line(v), n) == v * tap_sum(n),
    decreases n,
{
    if n <= 0 {
    } else {
        lemma_dot_const(v, n - 1);
        vstd::arithmetic::mul::lemma_mul_is_distributive_add(v, tap_sum(n - 1), tap(n - 1));
    }
}

proof fn lemma_round_near_unity(v: int)
    requires
        0 <= v <= 255,
    ensures
        round_unit(v * 9999998) == v,
{
    vstd::arithmetic::div_mod::lemma_fundamental_div_mod_converse(
        v * 9999998 + 5_000_000,
        10_000_000,
        v,
        5_000_000 - 2 * v,
    );
}

/// DC gain for duty: after feeding the constant pair `(v, _)` for at least
/// 199 ticks, from any starting state, the duty output settles exactly on
/// `v` — the kernel sums to 0.9999998, so the deficit (at most 510 in units
/// of 1e-7) is absorbed by the rounding step.
pub proof fn lemma_dc_gain_duty(s: Seq<int>, v: int, n: int)
    requires
        s.len() == 199,
        0 <= v <= 255,
        n >= 199,
    ensures
        duty_out(feed_const(s, v, n)) == v,
{
    lemma_feed_const_fills(s, v, n);
    lemma_dot_const(v, 199);
    lemma_tap_sum_total();
    lemma_round_near_unity(v);
}

/// DC gain for phase: after feeding the constant pair `(_, v)` for at least
/// 199 ticks, from any starting state, the phase output settles exactly on
/// `v` (which equals `v mod 256` for 8-bit inputs).
pub proof fn lemma_dc_gain_phase(s: Seq<int>, v: int, n: int)
    requires
        s.len() == 199,
        0 <= v <= 255,
        n >= 199,
    ensures
        phase_out(feed_const(s, v, n)) == v,
{
    lemma_feed_const_fills(s, v, n);
    lemma_dot_const(v, 199);
    lemma_tap_sum_total();
    lemma_round_near_unity(v);
    vstd::arithmetic::div_mod::lemma_small_mod(v as nat, 256);
}

/// Duty saturation: every duty output lies in `[0, 255]`, whatever the
/// delay line holds.
pub proof fn lemma_duty_saturation(s: Seq<int>)
    ensures
        0 <= duty_out(s) <= 255,
{
}

/// Phase wrap totality: every phase output lies in `[0, 255]`, whatever the
/// delay line holds.
pub proof fn lemma_phase_wrap_total(s: Seq<int>)
    ensures
        0 <= phase_out(s) <= 255,
{
    vstd::arithmetic::div_mod::lemma_mod_bound(round_unit(line_acc(s)), 256);
}

proof fn lemma_dot_add(x: Seq<int>, y: Seq<int>, n: int)
    requires
        x.len() == y.len(),
        n <= x.len(),
    ensures
        dot(seq_add(x, y), n) == dot(x, n) + dot(y, n),
    decreases n,
{
    if n > 0 {
        lemma_dot_add(x, y, n - 1);
        assert((x[n - 1] + y[n - 1]) * tap(n - 1) == x[n - 1] * tap(n - 1) + y[n - 1] * tap(n - 1))
            by (nonlinear_arith);
    }
}

proof fn lemma_dot_scale(a: int, x: Seq<int>, n: int)
    requires
        n <= x.len(),
    ensures
        dot(seq_scale(a, x), n) == a * dot(x, n),
    decreases n,
{
    if n <= 0 {
    } else {
        lemma_dot_scale(a, x, n - 1);
        assert((a * x[n - 1]) * tap(n - 1) == a * (x[n - 1] * tap(n - 1))) by (nonlinear_arith);
        vstd::arithmetic::mul::lemma_mul_is_distributive_add(a, dot(x, n - 1), x[n - 1] * tap(n - 1));
    }
}

/// Additive half of linearity: the accumulator of a pointwise sum of delay
/// lines is the sum of their accumulators. The emitted samples therefore
/// agree up to the final rounding and saturation steps.
pub proof fn lemma_linear_additive(x: Seq<int>, y: Seq<int>)
    requires
        x.len() == 199,
        y.len() == 199,
    ensures
        line_acc(seq_add(x, y)) == line_acc(x) + line_acc(y),
{
    lemma_dot_add(x, y, 199);
}

/// Homogeneous half of linearity: scaling a delay line pointwise by `a`
/// scales its accumulator by `a`.
pub proof fn lemma_linear_homogeneous(a: int, x: Seq<int>)
    requires
        x.len() == 199,
    ensures
        line_acc(seq_scale(a, x)) == a * line_acc(x),
{
    lemma_dot_scale(a, x, 199);
}

/// The duty delay line observed `k` ticks after a single impulse of height
/// `h` entered an otherwise silent stream: all zeros, except the impulse
/// itself, which has travelled to position `198 - k`.
pub open spec fn impulse_line(h: int, k: int) -> Seq<int> {
    Seq::new(199, |i: int| if i == 198 - k { h } else { 0 })
}

proof fn lemma_dot_impulse(h: int, k: int, n: int)
    requires
        0 <= k <= 198,
        0 <= n <= 199,
    ensures
        dot(impulse_line(h, k), n) == if 198 - k < n {
            h * tap(198 - k)
        } else {
            0
        },
    decreases n,
{
    if n > 0 {
        lemma_dot_impulse(h, k, n - 1);
    }
}

/// An impulse enters the delay line at the newest position.
pub proof fn lemma_impulse_enters(h: int)
    ensures
        shift_in(zero_line(), h) == impulse_line(h, 0),
{
    assert(shift_in(zero_line(), h) =~= impulse_line(h, 0));
}

/// Feeding zeros after an impulse moves the impulse one position toward the
/// oldest end of the line each tick.
pub proof fn lemma_impulse_travels(h: int, k: int)
    requires
        0 <= k < 198,
    ensures
        shift_in(impulse_line(h, k), 0) == impulse_line(h, k + 1),
{
    assert(shift_in(impulse_line(h, k), 0) =~= impulse_line(h, k + 1));
}

/// Causality and group delay: `k` ticks after an impulse of height `h`, the
/// duty output is the rounded, saturated product of `h` with tap `k` of the
/// (symmetric) kernel, and it is never larger than the output at tick 99,
/// the group delay of the 199-tap linear-phase kernel.
pub proof fn lemma_impulse_response(h: int, k: int)
    requires
        0 <= h <= 255,
        0 <= k <= 198,
    ensures
        duty_out(impulse_line(h, k)) == clamp8(round_unit(h * tap(k))),
        duty_out(impulse_line(h, k)) <= duty_out(impulse_line(h, 99)),
{
    lemma_dot_impulse(h, k, 199);
    lemma_dot_impulse(h, 99, 199);
    lemma_tap_symmetry(k);
    lemma_tap_bounds(k);
    lemma_tap_peak();
    vstd::arithmetic::mul::lemma_mul_inequality(tap(k), 120250, h);
    vstd::arithmetic::mul::lemma_mul_is_commutative(tap(k), h);
    vstd::arithmetic::mul::lemma_mul_is_commutative(120250, h);
    vstd::arithmetic::div_mod::lemma_div_is_ordered(
        h * tap(k) + 5_000_000,
        h * 120250 + 5_000_000,
        10_000_000,
    );
}

proof fn lemma_response_monotone(h: int, a: int, b: int)
    requires
        0 <= h,
        a <= b,
    ensures
        clamp8(round_unit(h * a)) <= clamp8(round_unit(h * b)),
{
    vstd::arithmetic::mul::lemma_mul_inequality(a, b, h);
    vstd::arithmetic::mul::lemma_mul_is_commutative(a, h);
    vstd::arithmetic::mul::lemma_mul_is_commutative(b, h);
    vstd::arithmetic::div_mod::lemma_div_is_ordered(
        h * a + 5_000_000,
        h * b + 5_000_000,
        10_000_000,
    );
}

/// The impulse response is unimodal: the duty output rises (weakly) from
/// tick to tick up to the group-delay tick 99, and falls (weakly) after it.
pub proof fn lemma_impulse_unimodal(h: int, k: int)
    requires
        0 <= h <= 255,
        1 <= k <= 198,
    ensures
        k <= 99 ==> duty_out(impulse_line(h, k - 1)) <= duty_out(impulse_line(h, k)),
        k > 99 ==> duty_out(impulse_line(h, k)) <= duty_out(impulse_line(h, k - 1)),
{
    lemma_impulse_response(h, k - 1);
    lemma_impulse_response(h, k);
    if k <= 99 {
        lemma_tap_monotone(k);
        lemma_response_monotone(h, tap(k - 1), tap(k));
    } else {
        lemma_tap_symmetry(k);
        lemma_tap_symmetry(k - 1);
        lemma_tap_monotone(199 - k);
        lemma_response_monotone(h, tap(k), tap(k - 1));
    }
}

proof fn lemma_round_unit_additive_error(a: int, b: int)
    ensures
        round_unit(a) + round_unit(b) - 1 <= round_unit(a + b) <= round_unit(a) + round_unit(b)
            + 1,
{
    let qa = (a + 5_000_000) / 10_000_000;
    let ra = (a + 5_000_000) % 10_000_000;
    let qb = (b + 5_000_000) / 10_000_000;
    let rb = (b + 5_000_000) % 10_000_000;
    vstd::arithmetic::div_mod::lemma_fundamental_div_mod(a + 5_000_000, 10_000_000);
    vstd::arithmetic::div_mod::lemma_fundamental_div_mod(b + 5_000_000, 10_000_000);
    vstd::arithmetic::div_mod::lemma_mod_bound(a + 5_000_000, 10_000_000);
    vstd::arithmetic::div_mod::lemma_mod_bound(b + 5_000_000, 10_000_000);
    let r = ra + rb - 5_000_000;
    if r < 0 {
        vstd::arithmetic::div_mod::lemma_fundamental_div_mod_converse(
            a + b + 5_000_000,
            10_000_000,
            qa + qb - 1,
            r + 10_000_000,
        );
    } else if r < 10_000_000 {
        vstd::arithmetic::div_mod::lemma_fundamental_div_mod_converse(
            a + b + 5_000_000,
            10_000_000,
            qa + qb,
            r,
        );
    } else {
        vstd::arithmetic::div_mod::lemma_fundamental_div_mod_converse(
            a + b + 5_000_000,
            10_000_000,
            qa + qb + 1,
            r - 10_000_000,
        );
    }
}

/// Linearity at the output level: before saturation or wrapping, the rounded
/// response to a pointwise sum of delay lines differs from the sum of the
/// rounded responses by at most one — the filter is linear within rounding.
pub proof fn lemma_linear_within_rounding(x: Seq<int>, y: Seq<int>)
    requires
        x.len() == 199,
        y.len() == 199,
    ensures
        round_unit(line_acc(x)) + round_unit(line_acc(y)) - 1 <= round_unit(
            line_acc(seq_add(x, y)),
        ) <= round_unit(line_acc(x)) + round_unit(line_acc(y)) + 1,
{
    lemma_linear_additive(x, y);
    lemma_round_unit_additive_error(line_acc(x), line_acc(y));
}

/// Determinism: the successor delay lines and the output pair of a step are
/// a function of the delay lines and the inputs alone, so two filter
/// instances fed identical sequences from identical states produce
/// bit-identical outputs.
pub proof fn lemma_deterministic(d1: Seq<int>, p1: Seq<int>, d2: Seq<int>, p2: Seq<int>, x: int, y: int)
    requires
        d1 == d2,
        p1 == p2,
    ensures
        shift_in(d1, x) == shift_in(d2, x),
        shift_in(p1, y) == shift_in(p2, y),
        step_out(d1, p1, x, y) == step_out(d2, p2, x, y),
{
}

/// Stream independence, duty side: the duty output of a step reads only the
/// duty delay line and the duty input; the phase line and phase input may
/// differ arbitrarily without altering it.
pub proof fn lemma_duty_independent_of_phase(
    d: Seq<int>,
    p_a: Seq<int>,
    p_b: Seq<int>,
    x: int,
    y_a: int,
    y_b: int,
)
    ensures
        step_out(d, p_a, x, y_a).0 == step_out(d, p_b, x, y_b).0,
{
}

/// Stream independence, phase side: the phase output of a step reads only
/// the phase delay line and the phase input.
pub proof fn lemma_phase_independent_of_duty(
    d_a: Seq<int>,
    d_b: Seq<int>,
    p: Seq<int>,
    x_a: int,
    x_b: int,
    y: int,
)
    ensures
        step_out(d_a, p, x_a, y).1 == step_out(d_b, p, x_b, y).1,
{
}

} // verus!
