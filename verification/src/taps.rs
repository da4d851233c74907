use vstd::prelude::*;

verus! {
/// Tap `i` of the first half of the kernel, `0 <= i <= 99`, in units of 1e-7.
/// The values are the fixed hardware reference table; the kernel is symmetric,
/// so the second half mirrors this one.
pub closed spec fn tap_low(i: int) -> int {
    if i <= 0 {
        0
    } else if i == 1 {
        11
    } else if i == 2 {
        44
    } else if i == 3 {
        98
    } else if i == 4 {
        175
    } else if i == 5 {
        275
    } else if i == 6 {
        397
    } else if i == 7 {
        543
    } else if i == 8 {
        714
    } else if i == 9 {
        908
    } else if i == 10 {
        1129
    } else if i == 11 {
        1375
    } else if i == 12 {
        1649
    } else if i == 13 {
        1951
    } else if i == 14 {
        2282
    } else if i == 15 {
        2644
    } else if i == 16 {
        3037
    } else if i == 17 {
        3462
    } else if i == 18 {
        3921
    } else if i == 19 {
        4415
    } else if i == 20 {
        4945
    } else if i == 21 {
        5512
    } else if i == 22 {
        6117
    } else if i == 23 {
        6762
    } else if i == 24 {
        7448
    } else if i == 25 {
        8176
    } else if i == 26 {
        8947
    } else if i == 27 {
        9762
    } else if i == 28 {
        10623
    } else if i == 29 {
        11529
    } else if i == 30 {
        12483
    } else if i == 31 {
        13484
    } else if i == 32 {
        14534
    } else if i == 33 {
        15633
    } else if i == 34 {
        16781
    } else if i == 35 {
        17980
    } else if i == 36 {
        19228
    } else if i == 37 {
        20528
    } else if i == 38 {
        21878
    } else if i == 39 {
        23278
    } else if i == 40 {
        24729
    } else if i == 41 {
        26229
    } else if i == 42 {
        27779
    } else if i == 43 {
        29378
    } else if i == 44 {
        31025
    } else if i == 45 {
        32718
    } else if i == 46 {
        34457
    } else if i == 47 {
        36241
    } else if i == 48 {
        38068
    } else if i == 49 {
        39936
    } else if i == 50 {
        41844
    } else if i == 51 {
        43789
    } else if i == 52 {
        45771
    } else if i == 53 {
        47786
    } else if i == 54 {
        49831
    } else if i == 55 {
        51906
    } else if i == 56 {
        54006
    } else if i == 57 {
        56129
    } else if i == 58 {
        58273
    } else if i == 59 {
        60434
    } else if i == 60 {
        62608
    } else if i == 61 {
        64793
    } else if i == 62 {
        66986
    } else if i == 63 {
        69182
    } else if i == 64 {
        71379
    } else if i == 65 {
        73572
    } else if i == 66 {
        75758
    } else if i == 67 {
        77933
    } else if i == 68 {
        80093
    } else if i == 69 {
        82235
    } else if i == 70 {
        84354
    } else if i == 71 {
        86447
    } else if i == 72 {
        88510
    } else if i == 73 {
        90538
    } else if i == 74 {
        92529
    } else if i == 75 {
        94477
    } else if i == 76 {
        96380
    } else if i == 77 {
        98234
    } else if i == 78 {
        100035
    } else if i == 79 {
        101778
    } else if i == 80 {
        103462
    } else if i == 81 {
        105082
    } else if i == 82 {
        106635
    } else if i == 83 {
        108117
    } else if i == 84 {
        109526
    } else if i == 85 {
        110859
    } else if i == 86 {
        112113
    } else if i == 87 {
        113286
    } else if i == 88 {
        114373
    } else if i == 89 {
        115375
    } else if i == 90 {
        116287
    } else if i == 91 {
        117109
    } else if i == 92 {
        117839
    } else if i == 93 {
        118474
    } else if i == 94 {
        119015
    } else if i == 95 {
        119458
    } else if i == 96 {
        119804
    } else if i == 97 {
        120052
    } else if i == 98 {
        120200
    } else {
        120250
    }
}

/// Tap `i` of the full 199-tap low-pass kernel, in units of 1e-7: symmetric
/// about the center index 99 and zero outside `[0, 198]`.
pub closed spec fn tap(i: int) -> int {
    if i < 0 || i > 198 {
        0
    } else if i <= 99 {
        tap_low(i)
    } else {
        tap_low(198 - i)
    }
}

/// The sum of taps `0..n`, in units of 1e-7.
pub open spec fn tap_sum(n: int) -> int
    decreases n,
{
    if n <= 0 {
        0
    } else {
        tap_sum(n - 1) + tap(n - 1)
    }
}

/// Every tap lies between 0 and the center (peak) tap.
pub proof fn lemma_tap_bounds(i: int)
    ensures
        0 <= tap(i) <= 120250,
{
}

/// The center tap is the peak of the kernel.
pub proof fn lemma_tap_peak()
    ensures
        tap(99) == 120250,
{
}

/// The kernel is non-decreasing from the oldest edge up to the center.
pub proof fn lemma_tap_monotone(i: int)
    requires
        1 <= i <= 99,
    ensures
        tap(i - 1) <= tap(i),
{
}

/// The kernel is symmetric: tap `i` equals tap `198 - i`.
pub proof fn lemma_tap_symmetry(i: int)
    requires
        0 <= i <= 198,
    ensures
        tap(i) == tap(198 - i),
{
}

/// The whole kernel sums to 9999998 in units of 1e-7 — that is 0.9999998,
/// just under unity.
pub proof fn lemma_tap_sum_total()
    ensures
        tap_sum(199) == 9999998,
{
    assert(tap_sum(10) == 3165) by {
        reveal_with_fuel(tap_sum, 11);
    }
    assert(tap_sum(20) == 29030) by {
        reveal_with_fuel(tap_sum, 11);
    }
    assert(tap_sum(30) == 108851) by {
        reveal_with_fuel(tap_sum, 11);
    }
    assert(tap_sum(40) == 284658) by {
        reveal_with_fuel(tap_sum, 11);
    }
    assert(tap_sum(50) == 605218) by {
        reveal_with_fuel(tap_sum, 11);
    }
    assert(tap_sum(60) == 1114987) by {
        reveal_with_fuel(tap_sum, 11);
    }
    assert(tap_sum(70) == 1839526) by {
        reveal_with_fuel(tap_sum, 11);
    }
    assert(tap_sum(80) == 2772808) by {
        reveal_with_fuel(tap_sum, 11);
    }
    assert(tap_sum(90) == 3871636) by {
        reveal_with_fuel(tap_sum, 11);
    }
    assert(tap_sum(100) == 5060124) by {
        reveal_with_fuel(tap_sum, 11);
    }
    assert(tap_sum(110) == 6243737) by {
        reveal_with_fuel(tap_sum, 11);
    }
    assert(tap_sum(120) == 7328968) by {
        reveal_with_fuel(tap_sum, 11);
    }
    assert(tap_sum(130) == 8242707) by {
        reveal_with_fuel(tap_sum, 11);
    }
    assert(tap_sum(140) == 8945445) by {
        reveal_with_fuel(tap_sum, 11);
    }
    assert(tap_sum(150) == 9434716) by {
        reveal_with_fuel(tap_sum, 11);
    }
    assert(tap_sum(160) == 9738618) by {
        reveal_with_fuel(tap_sum, 11);
    }
    assert(tap_sum(170) == 9902676) by {
        reveal_with_fuel(tap_sum, 11);
    }
    assert(tap_sum(180) == 9975383) by {
        reveal_with_fuel(tap_sum, 11);
    }
    assert(tap_sum(190) == 9997741) by {
        reveal_with_fuel(tap_sum, 11);
    }
    assert(tap_sum(199) == 9999998) by {
        reveal_with_fuel(tap_sum, 10);
    }
}

fn tap_low_at(j: usize) -> (r: u64)
    requires
        j < 100,
    ensures
        r as int == tap_low(j as int),
        r <= 120250,
{
    match j {
        0 => 0,
        1 => 11,
        2 => 44,
        3 => 98,
        4 => 175,
        5 => 275,
        6 => 397,
        7 => 543,
        8 => 714,
        9 => 908,
        10 => 1129,
        11 => 1375,
        12 => 1649,
        13 => 1951,
        14 => 2282,
        15 => 2644,
        16 => 3037,
        17 => 3462,
        18 => 3921,
        19 => 4415,
        20 => 4945,
        21 => 5512,
        22 => 6117,
        23 => 6762,
        24 => 7448,
        25 => 8176,
        26 => 8947,
        27 => 9762,
        28 => 10623,
        29 => 11529,
        30 => 12483,
        31 => 13484,
        32 => 14534,
        33 => 15633,
        34 => 16781,
        35 => 17980,
        36 => 19228,
        37 => 20528,
        38 => 21878,
        39 => 23278,
        40 => 24729,
        41 => 26229,
        42 => 27779,
        43 => 29378,
        44 => 31025,
        45 => 32718,
        46 => 34457,
        47 => 36241,
        48 => 38068,
        49 => 39936,
        50 => 41844,
        51 => 43789,
        52 => 45771,
        53 => 47786,
        54 => 49831,
        55 => 51906,
        56 => 54006,
        57 => 56129,
        58 => 58273,
        59 => 60434,
        60 => 62608,
        61 => 64793,
        62 => 66986,
        63 => 69182,
        64 => 71379,
        65 => 73572,
        66 => 75758,
        67 => 77933,
        68 => 80093,
        69 => 82235,
        70 => 84354,
        71 => 86447,
        72 => 88510,
        73 => 90538,
        74 => 92529,
        75 => 94477,
        76 => 96380,
        77 => 98234,
        78 => 100035,
        79 => 101778,
        80 => 103462,
        81 => 105082,
        82 => 106635,
        83 => 108117,
        84 => 109526,
        85 => 110859,
        86 => 112113,
        87 => 113286,
        88 => 114373,
        89 => 115375,
        90 => 116287,
        91 => 117109,
        92 => 117839,
        93 => 118474,
        94 => 119015,
        95 => 119458,
        96 => 119804,
        97 => 120052,
        98 => 120200,
        _ => 120250,
    }
}

/// Tap `i` of the kernel as an executable value, in units of 1e-7.
pub fn tap_at(i: usize) -> (r: u64)
    requires
        i < 199,
    ensures
        r as int == tap(i as int),
        r <= 120250,
{
    if i <= 99 {
        tap_low_at(i)
    } else {
        tap_low_at(198 - i)
    }
}

} // verus!
