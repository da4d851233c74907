use silent_lpf::filter::LPF;
use silent_lpf::taps::tap_at;

#[test]
fn zero_input_forever() {
    // A freshly constructed filter fed (0, 0) emits (0, 0) on every call.
    let mut f = LPF::new();
    for _ in 0..300 {
        assert_eq!(f.update(0, 0), (0, 0));
    }
}

#[test]
fn step_response_rises_and_settles() {
    // Constant (255, 0): duty starts at 0, rises monotonically, and settles
    // on 255 from the 199th call on; phase stays 0 throughout.
    let mut f = LPF::new();
    let mut duty_outs: Vec<u8> = Vec::new();
    for _ in 0..300 {
        let (d, p) = f.update(255, 0);
        assert_eq!(p, 0);
        duty_outs.push(d);
    }
    assert_eq!(duty_outs[0], 0);
    for k in 1..300 {
        assert!(duty_outs[k - 1] <= duty_outs[k]);
    }
    for k in 198..300 {
        assert!(254 <= duty_outs[k] && duty_outs[k] <= 255);
        assert_eq!(duty_outs[k], 255);
    }
}

#[test]
fn impulse_response_peaks_at_group_delay() {
    // A single (255, 0) impulse: the duty output is 0 at call 0, peaks with
    // value round(255 * 0.0120250) = 3 at call 99 (the center tap), decays
    // symmetrically, and is back to 0 by call 198.
    let mut f = LPF::new();
    let mut duty_outs: Vec<u8> = Vec::new();
    let (d0, p0) = f.update(255, 0);
    duty_outs.push(d0);
    assert_eq!(p0, 0);
    for _ in 1..300 {
        let (d, p) = f.update(0, 0);
        assert_eq!(p, 0);
        duty_outs.push(d);
    }
    assert_eq!(duty_outs[0], 0);
    assert_eq!(duty_outs[99], 3);
    let max = *duty_outs.iter().max().unwrap();
    assert_eq!(duty_outs[99], max);
    for k in 0..100 {
        assert_eq!(duty_outs[99 + k], duty_outs[99 - k]);
    }
    for k in 1..=99 {
        assert!(duty_outs[k - 1] <= duty_outs[k]);
        assert!(duty_outs[99 + k] <= duty_outs[98 + k]);
    }
    assert_eq!(duty_outs[198], 0);
    for k in 198..300 {
        assert_eq!(duty_outs[k], 0);
    }
}

#[test]
fn phase_dc_settles_near_input() {
    // Constant (0, 128): after 199 calls the phase output lies in {127, 128}
    // (and in fact settles exactly on 128); duty stays 0.
    let mut f = LPF::new();
    for k in 0..300 {
        let (d, p) = f.update(0, 128);
        assert_eq!(d, 0);
        if k >= 198 {
            assert!(p == 127 || p == 128);
            assert_eq!(p, 128);
        }
    }
}

#[test]
fn identical_sequences_give_identical_outputs() {
    // Two instances fed the same three pairs agree sample for sample.
    let seq = [(10u8, 20u8), (30, 40), (50, 60)];
    let mut a = LPF::new();
    let mut b = LPF::new();
    for &(d, p) in seq.iter() {
        assert_eq!(a.update(d, p), b.update(d, p));
    }
}

#[test]
fn alternating_input_oscillates_near_half_scale() {
    // Alternating (255, 255) and (0, 0) for 400 ticks: outputs stay within
    // [0, 255] and, once the line is filled, oscillate on {127, 128}.
    let mut f = LPF::new();
    for t in 0..400 {
        let (d, p) = if t % 2 == 0 { f.update(255, 255) } else { f.update(0, 0) };
        assert!(d <= 255 && p <= 255);
        if t >= 200 {
            assert!(d == 127 || d == 128, "tick {}: duty {}", t, d);
            assert!(p == 127 || p == 128, "tick {}: phase {}", t, p);
        }
    }
}

#[test]
fn dc_gain_duty_every_level() {
    // For every v, feeding (v, 0) for 199 ticks brings the duty output to
    // exactly v (well within the specified +/-1 of the input level).
    for v in 0u8..=255 {
        let mut f = LPF::new();
        let mut last = (0u8, 0u8);
        for _ in 0..199 {
            last = f.update(v, 0);
        }
        assert_eq!(last.0, v);
        assert_eq!(last.1, 0);
    }
}

#[test]
fn dc_gain_phase_every_level() {
    // For every v, feeding (0, v) for 199 ticks brings the phase output to
    // exactly v mod 256 = v.
    for v in 0u8..=255 {
        let mut f = LPF::new();
        let mut last = (0u8, 0u8);
        for _ in 0..199 {
            last = f.update(0, v);
        }
        assert_eq!(last.0, 0);
        assert_eq!(last.1, v);
    }
}

#[test]
fn linear_within_saturation() {
    // For inputs small enough to avoid saturation and wrap, the filter is
    // linear up to rounding: the response to a pointwise sum of two input
    // streams matches the sum of the responses within 1.
    let mut fx = LPF::new();
    let mut fy = LPF::new();
    let mut fs = LPF::new();
    for k in 0u32..300 {
        let xd = ((k * 7) % 60) as u8;
        let xp = ((k * 11) % 50) as u8;
        let yd = ((k * 13) % 55) as u8;
        let yp = ((k * 3) % 40) as u8;
        let (oxd, oxp) = fx.update(xd, xp);
        let (oyd, oyp) = fy.update(yd, yp);
        let (osd, osp) = fs.update(xd + yd, xp + yp);
        assert!((osd as i32 - oxd as i32 - oyd as i32).abs() <= 1);
        assert!((osp as i32 - oxp as i32 - oyp as i32).abs() <= 1);
    }
}

#[test]
fn duty_stream_independent_of_phase_stream() {
    // The duty outputs depend only on the duty inputs: two filters fed the
    // same duty stream but different phase streams emit the same duty samples,
    // and symmetrically for phase.
    let mut a = LPF::new();
    let mut b = LPF::new();
    let mut c = LPF::new();
    for k in 0u32..300 {
        let d = ((k * 37) % 256) as u8;
        let p = ((k * 91) % 256) as u8;
        let other_d = ((k * 53 + 17) % 256) as u8;
        let other_p = ((k * 29 + 101) % 256) as u8;
        let (ad, ap) = a.update(d, p);
        let (bd, _bp) = b.update(d, other_p);
        let (_cd, cp) = c.update(other_d, p);
        assert_eq!(ad, bd);
        assert_eq!(ap, cp);
    }
}

#[test]
fn tap_table_shape() {
    // The kernel: zero ends, peak 0.0120250 at the center, symmetric,
    // non-decreasing up to the center, and summing to 0.9999998.
    assert_eq!(tap_at(0), 0);
    assert_eq!(tap_at(1), 11);
    assert_eq!(tap_at(99), 120250);
    assert_eq!(tap_at(198), 0);
    let mut sum: u64 = 0;
    for i in 0..199 {
        assert_eq!(tap_at(i), tap_at(198 - i));
        if i > 0 && i <= 99 {
            assert!(tap_at(i - 1) <= tap_at(i));
        }
        sum += tap_at(i);
    }
    assert_eq!(sum, 9_999_998);
}
