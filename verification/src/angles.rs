//! Fixed-point angles and trigonometry.
//!
//! Angles are held in nano-radians (1e-9 rad) and micro-degrees; sine and
//! cosine values are scaled by 1e9.  Every function here is characterized
//! exactly: the conversions and the range reduction by closed formulas, and
//! the sine, cosine and arc-tangent by definitional spec-level mirrors of
//! their fixed-point computations, so callers' contracts can pin their
//! results.  How closely the fixed-point values track the real functions
//! is exercised by tests.

use vstd::prelude::*;
use vstd::arithmetic::div_mod::lemma_div_is_ordered;

verus! {

/// Pi in nano-radians, rounded to the nearest integer.
pub const PI_NANO: i64 = 3_141_592_654;

/// Two pi in nano-radians, rounded to the nearest integer.
pub const TWO_PI_NANO: i64 = 6_283_185_307;

/// Half pi in nano-radians, rounded to the nearest integer.
pub const HALF_PI_NANO: i64 = 1_570_796_327;

/// The fixed-point scale of sine and cosine values.
pub const TRIG_SCALE: i64 = 1_000_000_000;

/// Nano-radians per micro-degree, scaled by 1e9: `pi / 180 * 1e3 * 1e9`.
pub const NANORAD_PER_MICRODEG_E9: i64 = 17_453_292_520;

/// A product `v * num / den` truncated toward zero, the way the
/// fixed-point conversions compute it.
pub open spec fn mul_div_toward_zero(v: int, num: int, den: int) -> int {
    if v >= 0 {
        v * num / den
    } else {
        -((-v) * num / den)
    }
}

/// A raw fixed-point trig value clamped into the unit range.
pub open spec fn spec_clamp_unit(v: int) -> int {
    if v > TRIG_SCALE {
        TRIG_SCALE as int
    } else if v < -(TRIG_SCALE as int) {
        -(TRIG_SCALE as int)
    } else {
        v
    }
}

/// The fixed-point Taylor sine of a first-quadrant angle in nano-radians:
/// the alternating series through the eleventh power, each term floored at
/// the 1e9 scale, clamped into the unit range.
pub open spec fn spec_sin_quadrant(x: int) -> int {
    let x2 = x * x / 1_000_000_000;
    let t1 = x;
    let t3 = t1 * x2 / 6_000_000_000;
    let t5 = t3 * x2 / 20_000_000_000;
    let t7 = t5 * x2 / 42_000_000_000;
    let t9 = t7 * x2 / 72_000_000_000;
    let t11 = t9 * x2 / 110_000_000_000;
    spec_clamp_unit(t1 - t3 + t5 - t7 + t9 - t11)
}

/// The fixed-point Taylor cosine of a first-quadrant angle in
/// nano-radians: the alternating series through the twelfth power, each
/// term floored at the 1e9 scale, clamped into the unit range.
pub open spec fn spec_cos_quadrant(x: int) -> int {
    let x2 = x * x / 1_000_000_000;
    let c2 = x2 / 2;
    let c4 = c2 * x2 / 12_000_000_000;
    let c6 = c4 * x2 / 30_000_000_000;
    let c8 = c6 * x2 / 56_000_000_000;
    let c10 = c8 * x2 / 90_000_000_000;
    let c12 = c10 * x2 / 132_000_000_000;
    spec_clamp_unit(1_000_000_000 - c2 + c4 - c6 + c8 - c10 + c12)
}

/// The fixed-point sine of an angle in `[0, 2 pi)` nano-radians: the
/// quadrant is split off and the first-quadrant Taylor value reflected
/// into it.
pub open spec fn spec_sin_nanorad(x: int) -> int {
    let q = x / (HALF_PI_NANO as int);
    let r = x - q * (HALF_PI_NANO as int);
    if q == 0 {
        spec_sin_quadrant(r)
    } else if q == 1 {
        spec_cos_quadrant(r)
    } else if q == 2 {
        -spec_sin_quadrant(r)
    } else {
        -spec_cos_quadrant(r)
    }
}

/// The fixed-point cosine of an angle in `[0, 2 pi)` nano-radians.
pub open spec fn spec_cos_nanorad(x: int) -> int {
    let q = x / (HALF_PI_NANO as int);
    let r = x - q * (HALF_PI_NANO as int);
    if q == 0 {
        spec_cos_quadrant(r)
    } else if q == 1 {
        -spec_sin_quadrant(r)
    } else if q == 2 {
        -spec_cos_quadrant(r)
    } else {
        spec_sin_quadrant(r)
    }
}

/// The state of the arc-tangent bisection after `fuel` halvings of
/// `[lo, hi]`, driven by the sign of `ay cos(mid) - ax sin(mid)` over the
/// fixed-point trig.
pub open spec fn spec_atan_bisect(ay: int, ax: int, lo: int, hi: int, fuel: nat) -> int
    decreases fuel,
{
    if fuel == 0 {
        lo
    } else {
        let mid = lo + (hi - lo) / 2;
        let cross = ay * spec_cos_quadrant(mid) - ax * spec_sin_quadrant(mid);
        if cross > 0 {
            spec_atan_bisect(ay, ax, mid, hi, (fuel - 1) as nat)
        } else {
            spec_atan_bisect(ay, ax, lo, mid, (fuel - 1) as nat)
        }
    }
}

/// The fixed-point first-quadrant arc tangent of `ay / ax`: zero and
/// half-pi on the axes, else forty bisection steps.
pub open spec fn spec_atan_ratio(ay: int, ax: int) -> int {
    if ay == 0 {
        0
    } else if ax == 0 {
        HALF_PI_NANO as int
    } else {
        spec_atan_bisect(ay, ax, 0, HALF_PI_NANO as int, 40)
    }
}

/// The fixed-point four-quadrant arc tangent: the first-quadrant ratio of
/// the magnitudes, reflected by the arguments' signs.
pub open spec fn spec_atan2_nanorad(y: int, x: int) -> int {
    let ay = if y >= 0 { y } else { -y };
    let ax = if x >= 0 { x } else { -x };
    let theta = spec_atan_ratio(ay, ax);
    if x >= 0 {
        if y >= 0 { theta } else { -theta }
    } else {
        if y >= 0 { (PI_NANO as int) - theta } else { theta - (PI_NANO as int) }
    }
}

/// An angle in micro-degrees converted to nano-radians and brought into
/// `[0, 2 pi)`: the composition every orientation computation applies.
pub open spec fn spec_angle_nanorad(micro_deg: int) -> int {
    mul_div_toward_zero(micro_deg, NANORAD_PER_MICRODEG_E9 as int, 1_000_000_000)
        % (TWO_PI_NANO as int)
}

/// Converts micro-degrees to nano-radians, truncating toward zero.
pub fn micro_deg_to_nanorad(d: i64) -> (r: i64)
    requires
        -360_000_000 <= d <= 360_000_000,
    ensures
        r == mul_div_toward_zero(d as int, NANORAD_PER_MICRODEG_E9 as int, 1_000_000_000),
        -6_283_185_307 <= r <= 6_283_185_307,
        d == 0 ==> r == 0,
{
    let magnitude: i128 = if d >= 0 {
        d as i128
    } else {
        (-d) as i128
    };
    proof {
        assert(magnitude as int * 17_453_292_520 <= 360_000_000int * 17_453_292_520)
            by (nonlinear_arith)
            requires 0 <= magnitude <= 360_000_000;
        lemma_div_is_ordered(
            0,
            magnitude as int * 17_453_292_520,
            1_000_000_000,
        );
        lemma_div_is_ordered(
            magnitude as int * 17_453_292_520,
            360_000_000int * 17_453_292_520,
            1_000_000_000,
        );
    }
    let scaled: i128 = magnitude * (NANORAD_PER_MICRODEG_E9 as i128) / 1_000_000_000;
    if d >= 0 {
        scaled as i64
    } else {
        -(scaled as i64)
    }
}

/// Converts nano-radians to micro-degrees, truncating toward zero.
pub fn nanorad_to_micro_deg(x: i64) -> (r: i64)
    requires
        -10_000_000_000 <= x <= 10_000_000_000,
    ensures
        r == mul_div_toward_zero(x as int, 1_000_000_000, NANORAD_PER_MICRODEG_E9 as int),
        -573_000_000 <= r <= 573_000_000,
{
    let magnitude: i128 = if x >= 0 {
        x as i128
    } else {
        (-x) as i128
    };
    proof {
        assert(magnitude as int * 1_000_000_000 <= 10_000_000_000int * 1_000_000_000)
            by (nonlinear_arith)
            requires 0 <= magnitude <= 10_000_000_000;
        lemma_div_is_ordered(
            0,
            magnitude as int * 1_000_000_000,
            17_453_292_520,
        );
        lemma_div_is_ordered(
            magnitude as int * 1_000_000_000,
            10_000_000_000_000_000_000,
            17_453_292_520,
        );
    }
    let scaled: i128 = magnitude * 1_000_000_000 / (NANORAD_PER_MICRODEG_E9 as i128);
    if x >= 0 {
        scaled as i64
    } else {
        -(scaled as i64)
    }
}

/// Brings an angle into `[0, 2 pi)` nano-radians: the result differs from
/// the argument by an exact whole number of turns.
pub fn normalize_nanorad(x: i64) -> (r: i64)
    ensures
        r == (x as int) % (TWO_PI_NANO as int),
        0 <= r < TWO_PI_NANO,
        x == 0 ==> r == 0,
{
    let t128: i128 = TWO_PI_NANO as i128;
    if x >= 0 {
        let r: i64 = x % TWO_PI_NANO;
        r
    } else {
        let magnitude: i128 = -(x as i128);
        let rem: i128 = magnitude % t128;
        let r: i64 = if rem == 0 {
            0
        } else {
            (t128 - rem) as i64
        };
        proof {
            let t = TWO_PI_NANO as int;
            let q = magnitude as int / t;
            vstd::arithmetic::div_mod::lemma_fundamental_div_mod(magnitude as int, t);
            if rem == 0 {
                assert(x as int == (-q) * t + r) by (nonlinear_arith)
                    requires
                        magnitude as int == q * t,
                        x as int == -(magnitude as int),
                        r == 0,
                ;
                vstd::arithmetic::div_mod::lemma_fundamental_div_mod_converse(
                    x as int, t, -q, r as int,
                );
            } else {
                assert(x as int == (-q - 1) * t + r) by (nonlinear_arith)
                    requires
                        magnitude as int == q * t + rem as int,
                        x as int == -(magnitude as int),
                        r as int == t - rem as int,
                ;
                vstd::arithmetic::div_mod::lemma_fundamental_div_mod_converse(
                    x as int, t, -q - 1, r as int,
                );
            }
        }
        r
    }
}

/// One Taylor-series step: the previous term shrunk by `x2 / d`.
fn term_step(t: i128, x2: i128, d: i128) -> (r: i128)
    requires
        0 <= t <= 10_000_000_000,
        0 <= x2 <= 2_500_000_000,
        6_000_000_000 <= d,
    ensures
        r as int == t as int * x2 as int / d as int,
        0 <= r <= 10_000_000_000,
{
    proof {
        assert(t as int * x2 as int <= 10_000_000_000int * 2_500_000_000) by (nonlinear_arith)
            requires 0 <= t <= 10_000_000_000, 0 <= x2 <= 2_500_000_000;
        lemma_div_is_ordered(0, t as int * x2 as int, d as int);
        lemma_div_is_ordered(t as int * x2 as int, 25_000_000_000_000_000_000, 6_000_000_000);
        lemma_div_is_ordered_by_denominator_pos(t as int * x2 as int, 6_000_000_000, d as int);
    }
    t * x2 / d
}

/// Dividing a non-negative value by a larger positive divisor gives no
/// more.
proof fn lemma_div_is_ordered_by_denominator_pos(x: int, y: int, z: int)
    requires
        0 <= x,
        1 <= y <= z,
    ensures
        x / z <= x / y,
{
    vstd::arithmetic::div_mod::lemma_div_is_ordered_by_denominator(x, y, z);
}

/// Sine and cosine of an angle in the first quadrant, by Taylor series,
/// both scaled by 1e9 and clamped to the unit range.  At zero the values
/// are exact.
fn sin_cos_first_quadrant(r: i64) -> (sc: (i64, i64))
    requires
        0 <= r <= HALF_PI_NANO,
    ensures
        sc.0 == spec_sin_quadrant(r as int),
        sc.1 == spec_cos_quadrant(r as int),
        -TRIG_SCALE <= sc.0 <= TRIG_SCALE,
        -TRIG_SCALE <= sc.1 <= TRIG_SCALE,
        r == 0 ==> sc.0 == 0 && sc.1 == TRIG_SCALE,
{
    let x: i128 = r as i128;
    proof {
        assert(x as int * x as int <= 1_570_796_327int * 1_570_796_327) by (nonlinear_arith)
            requires 0 <= x <= 1_570_796_327;
        lemma_div_is_ordered(0, x as int * x as int, 1_000_000_000);
        lemma_div_is_ordered(x as int * x as int, 2_467_401_100_916_690_929, 1_000_000_000);
    }
    let x2: i128 = x * x / 1_000_000_000;
    let t1: i128 = x;
    let t3: i128 = term_step(t1, x2, 6_000_000_000);
    let t5: i128 = term_step(t3, x2, 20_000_000_000);
    let t7: i128 = term_step(t5, x2, 42_000_000_000);
    let t9: i128 = term_step(t7, x2, 72_000_000_000);
    let t11: i128 = term_step(t9, x2, 110_000_000_000);
    let s_raw: i128 = t1 - t3 + t5 - t7 + t9 - t11;
    let c0: i128 = TRIG_SCALE as i128;
    let c2: i128 = x2 / 2;
    let c4: i128 = term_step(c2, x2, 12_000_000_000);
    let c6: i128 = term_step(c4, x2, 30_000_000_000);
    let c8: i128 = term_step(c6, x2, 56_000_000_000);
    let c10: i128 = term_step(c8, x2, 90_000_000_000);
    let c12: i128 = term_step(c10, x2, 132_000_000_000);
    let c_raw: i128 = c0 - c2 + c4 - c6 + c8 - c10 + c12;
    let s: i64 = clamp_unit(s_raw);
    let c: i64 = clamp_unit(c_raw);
    proof {
        assert(s == spec_sin_quadrant(r as int));
        assert(c == spec_cos_quadrant(r as int));
        if r == 0 {
            assert(x == 0);
            assert(x as int * x as int == 0) by (nonlinear_arith)
                requires x == 0;
            assert(x2 == 0);
            assert(t1 == 0);
            assert(t3 == 0);
            assert(t5 == 0);
            assert(s_raw == 0);
            assert(c2 == 0);
            assert(c4 == 0);
            assert(c_raw == TRIG_SCALE as i128);
            assert(s == 0);
            assert(c == TRIG_SCALE);
        }
    }
    (s, c)
}

/// Clamps a raw fixed-point trig value into the unit range.
fn clamp_unit(v: i128) -> (r: i64)
    requires
        -100_000_000_000 <= v <= 100_000_000_000,
    ensures
        r == spec_clamp_unit(v as int),
        -TRIG_SCALE <= r <= TRIG_SCALE,
{
    if v > TRIG_SCALE as i128 {
        TRIG_SCALE
    } else if v < -(TRIG_SCALE as i128) {
        -TRIG_SCALE
    } else {
        v as i64
    }
}

/// Sine and cosine of an angle in `[0, 2 pi)` nano-radians, scaled by 1e9:
/// the quadrant is split off exactly and the rest approximated by Taylor
/// series.  At zero the values are exact.
pub fn sin_cos_nanorad(x: i64) -> (sc: (i64, i64))
    requires
        0 <= x < TWO_PI_NANO,
    ensures
        sc.0 == spec_sin_nanorad(x as int),
        sc.1 == spec_cos_nanorad(x as int),
        -TRIG_SCALE <= sc.0 <= TRIG_SCALE,
        -TRIG_SCALE <= sc.1 <= TRIG_SCALE,
        x == 0 ==> sc.0 == 0 && sc.1 == TRIG_SCALE,
{
    let quadrant: i64 = x / HALF_PI_NANO;
    let r: i64 = x - quadrant * HALF_PI_NANO;
    proof {
        vstd::arithmetic::div_mod::lemma_fundamental_div_mod(x as int, HALF_PI_NANO as int);
        assert(0 <= quadrant <= 3);
    }
    if quadrant == 0 {
        sin_cos_first_quadrant(r)
    } else if quadrant == 1 {
        let (s, c) = sin_cos_first_quadrant(r);
        (c, -s)
    } else if quadrant == 2 {
        let (s, c) = sin_cos_first_quadrant(r);
        (-s, -c)
    } else {
        let (s, c) = sin_cos_first_quadrant(r);
        (-c, s)
    }
}

/// The four-quadrant arc tangent of `y / x`, in nano-radians within
/// `[-pi, pi]`, found by bisection against the fixed-point sine and
/// cosine.
pub fn atan2_nanorad(y: i64, x: i64) -> (r: i64)
    requires
        -4_000_000_000_000_000 <= y <= 4_000_000_000_000_000,
        -4_000_000_000_000_000 <= x <= 4_000_000_000_000_000,
    ensures
        r == spec_atan2_nanorad(y as int, x as int),
        -PI_NANO <= r <= PI_NANO,
{
    let ay: i64 = if y >= 0 {
        y
    } else {
        -y
    };
    let ax: i64 = if x >= 0 {
        x
    } else {
        -x
    };
    let theta: i64 = atan_ratio(ay, ax);
    if x >= 0 {
        if y >= 0 {
            theta
        } else {
            -theta
        }
    } else {
        if y >= 0 {
            PI_NANO - theta
        } else {
            theta - PI_NANO
        }
    }
}

/// The arc tangent of `ay / ax` for non-negative arguments, in
/// `[0, pi/2]` nano-radians, by bisection on the sign of
/// `ay * cos(theta) - ax * sin(theta)`.
fn atan_ratio(ay: i64, ax: i64) -> (r: i64)
    requires
        0 <= ay <= 4_000_000_000_000_000,
        0 <= ax <= 4_000_000_000_000_000,
    ensures
        r == spec_atan_ratio(ay as int, ax as int),
        0 <= r <= HALF_PI_NANO,
{
    if ay == 0 {
        return 0;
    }
    if ax == 0 {
        return HALF_PI_NANO;
    }
    let mut lo: i64 = 0;
    let mut hi: i64 = HALF_PI_NANO;
    let mut iterations: u32 = 0;
    while iterations < 40
        invariant
            0 <= lo <= hi <= HALF_PI_NANO,
            0 <= ay <= 4_000_000_000_000_000,
            0 <= ax <= 4_000_000_000_000_000,
            iterations <= 40,
            ay != 0,
            ax != 0,
            spec_atan_ratio(ay as int, ax as int) == spec_atan_bisect(
                ay as int,
                ax as int,
                lo as int,
                hi as int,
                (40 - iterations) as nat,
            ),
        decreases 40 - iterations,
    {
        let ghost fuel = (40 - iterations) as nat;
        let mid: i64 = lo + (hi - lo) / 2;
        let (s, c) = sin_cos_first_quadrant(mid);
        proof {
            assert(ay as i128 * c as i128 <= 4_000_000_000_000_000 * 1_000_000_000)
                by (nonlinear_arith)
                requires
                    0 <= ay <= 4_000_000_000_000_000,
                    -1_000_000_000 <= c <= 1_000_000_000,
            ;
            assert(ay as i128 * c as i128 >= -(4_000_000_000_000_000 * 1_000_000_000))
                by (nonlinear_arith)
                requires
                    0 <= ay <= 4_000_000_000_000_000,
                    -1_000_000_000 <= c <= 1_000_000_000,
            ;
            assert(ax as i128 * s as i128 <= 4_000_000_000_000_000 * 1_000_000_000)
                by (nonlinear_arith)
                requires
                    0 <= ax <= 4_000_000_000_000_000,
                    -1_000_000_000 <= s <= 1_000_000_000,
            ;
            assert(ax as i128 * s as i128 >= -(4_000_000_000_000_000 * 1_000_000_000))
                by (nonlinear_arith)
                requires
                    0 <= ax <= 4_000_000_000_000_000,
                    -1_000_000_000 <= s <= 1_000_000_000,
            ;
        }
        let cross: i128 = (ay as i128) * (c as i128) - (ax as i128) * (s as i128);
        proof {
            assert(spec_atan_bisect(ay as int, ax as int, lo as int, hi as int, fuel)
                == if cross as int > 0 {
                    spec_atan_bisect(ay as int, ax as int, mid as int, hi as int,
                        (fuel - 1) as nat)
                } else {
                    spec_atan_bisect(ay as int, ax as int, lo as int, mid as int,
                        (fuel - 1) as nat)
                });
        }
        if cross > 0 {
            lo = mid;
        } else {
            hi = mid;
        }
        iterations += 1;
    }
    lo
}

} // verus!
