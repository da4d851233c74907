use vstd::prelude::*;

use crate::taps::{tap, tap_at};

verus! {

/// One step of a delay line: drop the oldest sample (index 0) and append the
/// new one at the newest end.
pub open spec fn shift_in(s: Seq<int>, x: int) -> Seq<int> {
    s.subrange(1, s.len() as int).push(x)
}

/// The delay line of a freshly constructed filter: 199 zeros.
pub open spec fn zero_line() -> Seq<int> {
    Seq::new(199, |i: int| 0)
}

/// A delay line holding the same sample `v` at every position.
pub open spec fn const_line(v: int) -> Seq<int> {
    Seq::new(199, |i: int| v)
}

/// The dot product of the first `n` delay-line entries with taps `0..n`,
/// in units of 1e-7. The oldest entry meets tap 0, the newest tap 198.
pub open spec fn dot(s: Seq<int>, n: int) -> int
    decreases n,
{
    if n <= 0 {
        0
    } else {
        dot(s, n - 1) + s[n - 1] * tap(n - 1)
    }
}

/// The full 199-tap accumulator over a delay line, in units of 1e-7.
pub open spec fn line_acc(s: Seq<int>) -> int {
    dot(s, 199)
}

/// Round a scaled accumulator to the nearest integer, halves rounding up
/// (for the non-negative accumulators that arise here, this is rounding
/// half away from zero).
pub open spec fn round_unit(a: int) -> int {
    (a + 5_000_000) / 10_000_000
}

/// Duty post-processing: saturate to the 8-bit range `[0, 255]`.
pub open spec fn clamp8(x: int) -> int {
    if x < 0 {
        0
    } else if x > 255 {
        255
    } else {
        x
    }
}

/// Phase post-processing: reduce modulo 256 (the low byte).
pub open spec fn wrap8(x: int) -> int {
    x % 256
}

/// The duty sample emitted by a filter whose duty delay line is `s`.
pub open spec fn duty_out(s: Seq<int>) -> int {
    clamp8(round_unit(line_acc(s)))
}

/// The phase sample emitted by a filter whose phase delay line is `s`.
pub open spec fn phase_out(s: Seq<int>) -> int {
    wrap8(round_unit(line_acc(s)))
}

/// The output pair of one update step taken from delay lines `(d, p)` on the
/// input pair `(x, y)`: each stream is shifted, then filtered on its own.
pub open spec fn step_out(d: Seq<int>, p: Seq<int>, x: int, y: int) -> (int, int) {
    (duty_out(shift_in(d, x)), phase_out(shift_in(p, y)))
}

/// Silent-mode low-pass filter over the duty and phase control streams.
///
/// Holds two 199-sample delay lines (oldest sample first). Each `update`
/// pushes one input pair, evicts the oldest pair, and emits the rounded,
/// quantized dot product of each line with the fixed symmetric kernel.
#[derive(Clone)]
pub struct LPF {
    duty_buf: Vec<u8>,
    phase_buf: Vec<u8>,
}

impl LPF {
    /// The duty delay line as mathematical integers, oldest sample first.
    pub closed spec fn duty_line(&self) -> Seq<int> {
        self.duty_buf@.map_values(|x: u8| x as int)
    }

    /// The phase delay line as mathematical integers, oldest sample first.
    pub closed spec fn phase_line(&self) -> Seq<int> {
        self.phase_buf@.map_values(|x: u8| x as int)
    }

    /// Well-formed: both delay lines hold exactly 199 samples.
    pub closed spec fn wf(&self) -> bool {
        self.duty_buf@.len() == 199 && self.phase_buf@.len() == 199
    }

    /// A well-formed filter has delay lines of length 199.
    pub proof fn lemma_line_lens(&self)
        requires
            self.wf(),
        ensures
            self.duty_line().len() == 199,
            self.phase_line().len() == 199,
    {
    }

    /// Construct a filter with both delay lines zero-initialized.
    pub fn new() -> (r: Self)
        ensures
            r.wf(),
            r.duty_line() == zero_line(),
            r.phase_line() == zero_line(),
    {
        let r = LPF { duty_buf: fresh_line(), phase_buf: fresh_line() };
        proof {
            assert(r.duty_line() =~= zero_line());
            assert(r.phase_line() =~= zero_line());
        }
        r
    }

    /// Feed one input pair and emit one output pair.
    ///
    /// Both delay lines shift by one; the outputs are the kernel dot products
    /// of the new lines, rounded to the nearest integer, the duty saturated to
    /// `[0, 255]` and the phase wrapped modulo 256.
    pub fn update(&mut self, duty: u8, phase: u8) -> (r: (u8, u8))
        requires
            old(self).wf(),
        ensures
            final(self).wf(),
            final(self).duty_line() == shift_in(old(self).duty_line(), duty as int),
            final(self).phase_line() == shift_in(old(self).phase_line(), phase as int),
            r.0 as int == duty_out(final(self).duty_line()),
            r.1 as int == phase_out(final(self).phase_line()),
            (r.0 as int, r.1 as int) == step_out(
                old(self).duty_line(),
                old(self).phase_line(),
                duty as int,
                phase as int,
            ),
    {
        self.duty_buf.remove(0);
        self.duty_buf.push(duty);
        self.phase_buf.remove(0);
        self.phase_buf.push(phase);
        proof {
            assert(self.duty_line() =~= shift_in(old(self).duty_line(), duty as int));
            assert(self.phase_line() =~= shift_in(old(self).phase_line(), phase as int));
        }
        let ghost dl = self.duty_line();
        let ghost pl = self.phase_line();

        let mut dacc: u64 = 0;
        let mut pacc: u64 = 0;
        for i in 0..199usize
            invariant
                self.wf(),
                self.duty_line() == dl,
                self.phase_line() == pl,
                dacc == dot(dl, i as int),
                pacc == dot(pl, i as int),
                dacc <= i * 30663750,
                pacc <= i * 30663750,
        {
            let c = tap_at(i);
            let d = self.duty_buf[i];
            let p = self.phase_buf[i];
            proof {
                assert(dl[i as int] == d as int);
                assert(pl[i as int] == p as int);
                vstd::arithmetic::mul::lemma_mul_upper_bound(d as int, 255, c as int, 120250);
                vstd::arithmetic::mul::lemma_mul_upper_bound(p as int, 255, c as int, 120250);
            }
            dacc = dacc + (d as u64) * c;
            pacc = pacc + (p as u64) * c;
        }

        let d_round: u64 = (dacc + 5_000_000) / 10_000_000;
        let p_round: u64 = (pacc + 5_000_000) / 10_000_000;
        let duty_o: u8 = if d_round > 255 {
            255
        } else {
            d_round as u8
        };
        let phase_o: u8 = (p_round % 256) as u8;
        (duty_o, phase_o)
    }
}

/// A zero-filled delay-line buffer of 199 samples.
fn fresh_line() -> (v: Vec<u8>)
    ensures
        v@.len() == 199,
        forall|j: int| 0 <= j < 199 ==> v@[j] == 0u8,
{
    let mut v: Vec<u8> = Vec::new();
    let mut i: usize = 0;
    while i < 199
        invariant
            i <= 199,
            v@.len() == i,
            forall|j: int| 0 <= j < i ==> v@[j] == 0u8,
        decreases 199 - i,
    {
        v.push(0u8);
        i = i + 1;
    }
    v
}

} // verus!
