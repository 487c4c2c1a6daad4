//! Analytic Kepler propagation: converting between true, eccentric and mean
//! anomaly, solving Kepler's equation by Newton–Raphson, and advancing an
//! element set by an elapsed time.
//!
//! Propagation replaces only the true anomaly, and the new anomaly is
//! characterized exactly: each step — the anomaly conversions, the Newton
//! iteration with its 100-step cap and early stop, the mean-motion
//! advance — has a definitional spec-level mirror over the fixed-point
//! trigonometry, and the contracts equate the results with those mirrors.
//! How closely the fixed-point anomaly tracks the real orbit is exercised
//! by tests.

use vstd::prelude::*;
use vstd::arithmetic::div_mod::{
    lemma_div_is_ordered, lemma_fundamental_div_mod, lemma_fundamental_div_mod_converse,
};
use crate::angles::{
    micro_deg_to_nanorad, nanorad_to_micro_deg, normalize_nanorad, sin_cos_nanorad, atan2_nanorad,
    mul_div_toward_zero, spec_angle_nanorad, spec_sin_nanorad, spec_cos_nanorad,
    spec_atan2_nanorad, TWO_PI_NANO, PI_NANO, TRIG_SCALE, NANORAD_PER_MICRODEG_E9,
};
use crate::elements::SatelliteOrbit;
use crate::num::{isqrt, lemma_sqrt_floor_value, sqrt_floor};

verus! {

/// Largest eccentric-anomaly magnitude the Kepler solver works in, in
/// nano-radians.
pub const ECC_ANOMALY_BOUND: i64 = 10_000_000_000;

/// Largest elapsed-time magnitude one propagation step accepts, in ms.
pub const MAX_PROPAGATION_MS: i64 = 100_000_000_000_000;

/// A fixed-point product `a * b / 1e9` truncated toward zero.
pub open spec fn spec_scaled_product(a: int, b: int) -> int {
    if b >= 0 {
        a * b / 1_000_000_000
    } else {
        -(a * (-b) / 1_000_000_000)
    }
}

/// `sqrt(1 - e^2)` scaled by 1e9 as the fixed-point code computes it: the
/// integer square-root floor of `1e18 - (1000 e)^2`.
pub open spec fn spec_sqrt_one_minus_e_sq(e_micro: int) -> int {
    sqrt_floor(1_000_000_000_000_000_000 - (e_micro * 1000) * (e_micro * 1000))
}

/// The fixed-point mean motion of an orbit with semi-major axis `a`
/// meters, in pico-radians per millisecond: the integer square-root floor
/// of `mu * 1e18 / a^3`.
pub open spec fn spec_mean_motion_pico(a: int) -> int {
    sqrt_floor(398_600_441_800_000_000_000_000_000_000_000int / (a * a * a))
}

/// The mean anomaly the fixed-point code derives from a true anomaly in
/// micro-degrees: through the eccentric-anomaly identity
/// `E = atan2(sqrt(1 - e^2) sin nu, e + cos nu)`, then `M = E - e sin E`,
/// normalized into `[0, 2 pi)`.
pub open spec fn spec_true_to_mean_anomaly(ta_micro: int, e_micro: int) -> int {
    let nu = spec_angle_nanorad(ta_micro);
    let s = spec_sin_nanorad(nu);
    let c = spec_cos_nanorad(nu);
    let e_nano = e_micro * 1000;
    let k = spec_sqrt_one_minus_e_sq(e_micro);
    let y = spec_scaled_product(k, s);
    let x = e_nano + c;
    let ea = spec_atan2_nanorad(y, x) % (TWO_PI_NANO as int);
    let se = spec_sin_nanorad(ea);
    (ea - spec_scaled_product(e_nano, se)) % (TWO_PI_NANO as int)
}

/// The Newton–Raphson iteration for Kepler's equation, mirrored exactly:
/// from the iterate `ecc`, one step computes `f = E - e sin E - M` and
/// `f' = 1 - e cos E` over the fixed-point trig, divides, and recurses on
/// the clamped new iterate; it stops when the correction magnitude falls
/// below 1e-6 radians or the fuel — the 100-iteration cap — runs out, and
/// returns the best iterate silently either way.
pub open spec fn spec_solve_kepler(e_nano: int, m: int, ecc: int, fuel: nat) -> int
    decreases fuel,
{
    if fuel == 0 {
        ecc
    } else {
        let norm = ecc % (TWO_PI_NANO as int);
        let s = spec_sin_nanorad(norm);
        let c = spec_cos_nanorad(norm);
        let sin_term = spec_scaled_product(e_nano, s);
        let cos_term = spec_scaled_product(e_nano, c);
        let f = ecc - sin_term - m;
        let fp = (TRIG_SCALE as int) - cos_term;
        let f_magnitude = if f >= 0 { f } else { -f };
        let delta_magnitude = f_magnitude * 1_000_000_000 / fp;
        if delta_magnitude < 1000 {
            ecc
        } else {
            let next = if f >= 0 { ecc - delta_magnitude } else { ecc + delta_magnitude };
            let clamped = if next > ECC_ANOMALY_BOUND {
                ECC_ANOMALY_BOUND as int
            } else if next < -(ECC_ANOMALY_BOUND as int) {
                -(ECC_ANOMALY_BOUND as int)
            } else {
                next
            };
            spec_solve_kepler(e_nano, m, clamped, (fuel - 1) as nat)
        }
    }
}

/// The true anomaly the fixed-point code derives from an eccentric
/// anomaly: `atan2(sqrt(1 - e^2) sin E, cos E - e)`.
pub open spec fn spec_ecc_to_true_anomaly(ecc_anomaly: int, e_micro: int) -> int {
    let norm = ecc_anomaly % (TWO_PI_NANO as int);
    let s = spec_sin_nanorad(norm);
    let c = spec_cos_nanorad(norm);
    let e_nano = e_micro * 1000;
    let k = spec_sqrt_one_minus_e_sq(e_micro);
    spec_atan2_nanorad(spec_scaled_product(k, s), c - e_nano)
}

/// The true anomaly, in micro-degrees, that propagating `o` by `dt_ms`
/// milliseconds produces: the current true anomaly taken to a mean
/// anomaly, advanced by the mean motion, Kepler's equation solved back,
/// converted to micro-degrees and clamped into the half-turn range.
pub open spec fn spec_propagated_true_anomaly(o: SatelliteOrbit, dt_ms: int) -> int {
    let m0 = spec_true_to_mean_anomaly(o.true_anomaly as int, o.eccentricity as int);
    let n = spec_mean_motion_pico(o.semi_major_axis as int);
    let dt_magnitude = if dt_ms >= 0 { dt_ms } else { -dt_ms };
    let advance = n * dt_magnitude / 1000;
    let advanced = if dt_ms >= 0 { m0 + advance } else { m0 - advance };
    let m = advanced % (TWO_PI_NANO as int);
    let ea = spec_solve_kepler(o.eccentricity as int * 1000, m, m, 100);
    let ta_nano = spec_ecc_to_true_anomaly(ea, o.eccentricity as int);
    let raw = mul_div_toward_zero(ta_nano, 1_000_000_000, NANORAD_PER_MICRODEG_E9 as int);
    if raw > 180_000_000 {
        180_000_000int
    } else if raw < -180_000_000 {
        -180_000_000int
    } else {
        raw
    }
}

/// Brings an angle held in a wide intermediate into `[0, 2 pi)`
/// nano-radians: the result differs from the argument by an exact whole
/// number of turns.
fn normalize_nanorad_wide(x: i128) -> (r: i64)
    requires
        -100_000_000_000_000_000_000_000_000_000_000_000 <= x
            <= 100_000_000_000_000_000_000_000_000_000_000_000,
    ensures
        r == (x as int) % (TWO_PI_NANO as int),
        0 <= r < TWO_PI_NANO,
{
    let t: i128 = TWO_PI_NANO as i128;
    if x >= 0 {
        let r: i128 = x % t;
        r as i64
    } else {
        let magnitude: i128 = -x;
        let rem: i128 = magnitude % t;
        let r: i128 = if rem == 0 {
            0
        } else {
            t - rem
        };
        proof {
            let ti = t as int;
            let q = magnitude as int / ti;
            lemma_fundamental_div_mod(magnitude as int, ti);
            if rem == 0 {
                assert(x as int == (-q) * ti + r) by (nonlinear_arith)
                    requires
                        magnitude as int == q * ti,
                        x as int == -(magnitude as int),
                        r == 0,
                ;
                lemma_fundamental_div_mod_converse(x as int, ti, -q, r as int);
            } else {
                assert(x as int == (-q - 1) * ti + r) by (nonlinear_arith)
                    requires
                        magnitude as int == q * ti + rem as int,
                        x as int == -(magnitude as int),
                        r as int == ti - rem as int,
                ;
                lemma_fundamental_div_mod_converse(x as int, ti, -q - 1, r as int);
            }
        }
        r as i64
    }
}

/// `sqrt(1 - e^2)` scaled by 1e9, for an eccentricity in micro-units.
fn sqrt_one_minus_e_sq(e_micro: u32) -> (r: i64)
    requires
        e_micro < 1_000_000,
    ensures
        r == spec_sqrt_one_minus_e_sq(e_micro as int),
        0 <= r <= TRIG_SCALE,
{
    let e_nano: u128 = (e_micro as u128) * 1000;
    proof {
        assert(e_nano * e_nano < 1_000_000_000_000_000_000) by (nonlinear_arith)
            requires 0 <= e_nano <= 999_999_000;
    }
    let v: u128 = 1_000_000_000_000_000_000u128 - e_nano * e_nano;
    let r: u128 = isqrt(v);
    proof {
        lemma_sqrt_floor_value(v as int, r as int);
        if r as int > 1_000_000_000 {
            assert((r as int) * (r as int) > 1_000_000_000_000_000_000) by (nonlinear_arith)
                requires r as int >= 1_000_000_001;
        }
    }
    r as i64
}

/// The mean motion of an orbit with semi-major axis `a` meters, in
/// pico-radians per millisecond: the floor of `sqrt(mu * 1e18 / a^3)`.
fn mean_motion_pico_per_ms(a: u64) -> (r: u64)
    requires
        1 <= a <= 1_000_000_000_000,
    ensures
        r == spec_mean_motion_pico(a as int),
        r <= 20_000_000_000_000_000,
{
    let a128: u128 = a as u128;
    proof {
        assert(a128 * a128 <= 1_000_000_000_000_000_000_000_000) by (nonlinear_arith)
            requires 0 <= a128 <= 1_000_000_000_000;
        assert(a128 * a128 * a128 <= 1_000_000_000_000_000_000_000_000_000_000_000_000)
            by (nonlinear_arith)
            requires
                0 <= a128 <= 1_000_000_000_000,
                a128 * a128 <= 1_000_000_000_000_000_000_000_000;
        assert(1 <= a128 * a128 * a128) by (nonlinear_arith)
            requires 1 <= a128;
    }
    let cube: u128 = a128 * a128 * a128;
    let q: u128 = 398_600_441_800_000_000_000_000_000_000_000u128 / cube;
    let r: u128 = isqrt(q);
    proof {
        lemma_sqrt_floor_value(q as int, r as int);
        lemma_div_is_ordered_by_denominator_wide(
            398_600_441_800_000_000_000_000_000_000_000,
            1,
            cube as int,
        );
        if r as int > 20_000_000_000_000_000 {
            assert((r as int) * (r as int) > 398_600_441_800_000_000_000_000_000_000_000)
                by (nonlinear_arith)
                requires r as int >= 20_000_000_000_000_001;
        }
    }
    r as u64
}

/// Dividing a non-negative value by a larger positive divisor gives no
/// more.
proof fn lemma_div_is_ordered_by_denominator_wide(x: int, y: int, z: int)
    requires
        0 <= x,
        1 <= y <= z,
    ensures
        x / z <= x / y,
{
    vstd::arithmetic::div_mod::lemma_div_is_ordered_by_denominator(x, y, z);
}

impl SatelliteOrbit {
    /// Converts the current true anomaly to the mean anomaly, in
    /// `[0, 2 pi)` nano-radians, through the eccentric-anomaly identity.
    fn true_anomaly_to_mean_anomaly(&self) -> (m: i64)
        requires
            self.wf(),
        ensures
            m == spec_true_to_mean_anomaly(self.true_anomaly as int, self.eccentricity as int),
            0 <= m < TWO_PI_NANO,
    {
        let nu: i64 = normalize_nanorad(micro_deg_to_nanorad(self.true_anomaly));
        let (s, c) = sin_cos_nanorad(nu);
        let k: i64 = sqrt_one_minus_e_sq(self.eccentricity);
        let e_nano: i64 = (self.eccentricity as i64) * 1000;
        let y: i64 = scaled_product(k, s);
        let x: i64 = e_nano + c;
        let ecc_anomaly: i64 = normalize_nanorad(atan2_nanorad(y, x));
        let (se, _) = sin_cos_nanorad(ecc_anomaly);
        let correction: i64 = scaled_product(e_nano, se);
        normalize_nanorad_wide((ecc_anomaly as i128) - (correction as i128))
    }

    /// Solves Kepler's equation `M = E - e sin E` for the eccentric
    /// anomaly by Newton–Raphson from `E = M`, iterating at most 100 times
    /// and stopping early once the correction falls below 1e-6 radians.
    /// No convergence failure is signaled: the best available estimate is
    /// returned silently.
    fn solve_keplers_equation(&self, mean_anomaly: i64) -> (ecc_anomaly: i64)
        requires
            self.wf(),
            0 <= mean_anomaly < TWO_PI_NANO,
        ensures
            ecc_anomaly == spec_solve_kepler(
                self.eccentricity as int * 1000,
                mean_anomaly as int,
                mean_anomaly as int,
                100,
            ),
            -ECC_ANOMALY_BOUND <= ecc_anomaly <= ECC_ANOMALY_BOUND,
    {
        let e_nano: i64 = (self.eccentricity as i64) * 1000;
        let mut ecc: i64 = mean_anomaly;
        let mut iterations: u32 = 0;
        while iterations < 100
            invariant
                -ECC_ANOMALY_BOUND <= ecc <= ECC_ANOMALY_BOUND,
                0 <= e_nano <= 999_999_000,
                e_nano == self.eccentricity as int * 1000,
                0 <= mean_anomaly < TWO_PI_NANO,
                iterations <= 100,
                spec_solve_kepler(e_nano as int, mean_anomaly as int, mean_anomaly as int, 100)
                    == spec_solve_kepler(
                        e_nano as int,
                        mean_anomaly as int,
                        ecc as int,
                        (100 - iterations) as nat,
                    ),
            decreases 100 - iterations,
        {
            let ghost fuel = (100 - iterations) as nat;
            let (s, c) = sin_cos_nanorad(normalize_nanorad(ecc));
            let sin_term: i64 = scaled_product(e_nano, s);
            let cos_term: i64 = scaled_product(e_nano, c);
            // f(E) = E - e sin E - M; f'(E) = 1 - e cos E, always positive
            let f: i128 = (ecc as i128) - (sin_term as i128) - (mean_anomaly as i128);
            let fp: i128 = (TRIG_SCALE as i128) - (cos_term as i128);
            let f_magnitude: i128 = if f >= 0 {
                f
            } else {
                -f
            };
            proof {
                assert(f_magnitude * 1_000_000_000 <= 20_000_000_000_000_000_000int
                    * 1_000_000_000)
                    by (nonlinear_arith)
                    requires 0 <= f_magnitude <= 20_000_000_000_000_000_000;
                lemma_div_is_ordered(0, f_magnitude as int * 1_000_000_000, fp as int);
            }
            let delta_magnitude: i128 = f_magnitude * 1_000_000_000 / fp;
            if delta_magnitude < 1000 {
                // the correction is below 1e-6 radians: the iteration has
                // stopped; the mirror returns this iterate at any remaining
                // fuel
                proof {
                    assert(spec_solve_kepler(
                        e_nano as int,
                        mean_anomaly as int,
                        ecc as int,
                        fuel,
                    ) == ecc as int);
                }
                iterations = 100;
            } else {
                let next: i128 = if f >= 0 {
                    (ecc as i128) - delta_magnitude
                } else {
                    (ecc as i128) + delta_magnitude
                };
                let clamped: i64 = if next > ECC_ANOMALY_BOUND as i128 {
                    ECC_ANOMALY_BOUND
                } else if next < -(ECC_ANOMALY_BOUND as i128) {
                    -ECC_ANOMALY_BOUND
                } else {
                    next as i64
                };
                proof {
                    assert(spec_solve_kepler(
                        e_nano as int,
                        mean_anomaly as int,
                        ecc as int,
                        fuel,
                    ) == spec_solve_kepler(
                        e_nano as int,
                        mean_anomaly as int,
                        clamped as int,
                        (fuel - 1) as nat,
                    ));
                }
                ecc = clamped;
                iterations += 1;
            }
        }
        ecc
    }

    /// Converts an eccentric anomaly back to the true anomaly, in
    /// `[-pi, pi]` nano-radians.
    fn eccentric_anomaly_to_true_anomaly(&self, ecc_anomaly: i64) -> (ta: i64)
        requires
            self.wf(),
            -ECC_ANOMALY_BOUND <= ecc_anomaly <= ECC_ANOMALY_BOUND,
        ensures
            ta == spec_ecc_to_true_anomaly(ecc_anomaly as int, self.eccentricity as int),
            -PI_NANO <= ta <= PI_NANO,
    {
        let (s, c) = sin_cos_nanorad(normalize_nanorad(ecc_anomaly));
        let k: i64 = sqrt_one_minus_e_sq(self.eccentricity);
        let e_nano: i64 = (self.eccentricity as i64) * 1000;
        let y: i64 = scaled_product(k, s);
        let x: i64 = c - e_nano;
        atan2_nanorad(y, x)
    }

    /// Propagates the orbit by `dt_ms` milliseconds: the true anomaly is
    /// advanced along the Kepler orbit — true to mean anomaly, the mean
    /// anomaly advanced by the mean motion, Kepler's equation solved back —
    /// and every other element is carried over unchanged.  The new true
    /// anomaly equals the definitional mirror of that computation.
    pub fn propagate(&self, dt_ms: i64) -> (r: SatelliteOrbit)
        requires
            self.wf(),
            -MAX_PROPAGATION_MS <= dt_ms <= MAX_PROPAGATION_MS,
        ensures
            r == (SatelliteOrbit {
                true_anomaly: spec_propagated_true_anomaly(*self, dt_ms as int) as i64,
                ..*self
            }),
            r.same_shape_as(self),
            -180_000_000 <= r.true_anomaly <= 180_000_000,
            r.wf(),
    {
        let mean_anomaly: i64 = self.true_anomaly_to_mean_anomaly();
        let n_pico: u64 = mean_motion_pico_per_ms(self.semi_major_axis);
        let dt_magnitude: i128 = if dt_ms >= 0 {
            dt_ms as i128
        } else {
            -(dt_ms as i128)
        };
        proof {
            assert(n_pico as i128 * dt_magnitude <= 20_000_000_000_000_000int
                * 100_000_000_000_000)
                by (nonlinear_arith)
                requires
                    0 <= n_pico <= 20_000_000_000_000_000,
                    0 <= dt_magnitude <= 100_000_000_000_000;
            lemma_div_is_ordered(
                0,
                n_pico as int * dt_magnitude as int,
                1000,
            );
            lemma_div_is_ordered(
                n_pico as int * dt_magnitude as int,
                2_000_000_000_000_000_000_000_000_000_000,
                1000,
            );
        }
        let advance_magnitude: i128 = (n_pico as i128) * dt_magnitude / 1000;
        let advanced: i128 = if dt_ms >= 0 {
            (mean_anomaly as i128) + advance_magnitude
        } else {
            (mean_anomaly as i128) - advance_magnitude
        };
        let new_mean_anomaly: i64 = normalize_nanorad_wide(advanced);
        let new_ecc_anomaly: i64 = self.solve_keplers_equation(new_mean_anomaly);
        let ta_nano: i64 = self.eccentric_anomaly_to_true_anomaly(new_ecc_anomaly);
        let ta_raw: i64 = nanorad_to_micro_deg(ta_nano);
        let true_anomaly: i64 = if ta_raw > 180_000_000 {
            180_000_000
        } else if ta_raw < -180_000_000 {
            -180_000_000
        } else {
            ta_raw
        };
        SatelliteOrbit { true_anomaly, ..*self }
    }
}

/// A fixed-point product `a * b / 1e9` truncated toward zero, for a
/// non-negative `a` and a unit-range `b`: the result magnitude never
/// exceeds `a`.
pub(crate) fn scaled_product(a: i64, b: i64) -> (r: i64)
    requires
        0 <= a <= 4_000_000_000_000_000,
        -TRIG_SCALE <= b <= TRIG_SCALE,
    ensures
        r == spec_scaled_product(a as int, b as int),
        -a <= r <= a,
{
    let b_magnitude: i128 = if b >= 0 {
        b as i128
    } else {
        -(b as i128)
    };
    proof {
        assert(a as i128 * b_magnitude <= 1_000_000_000int * (a as int)) by (nonlinear_arith)
            requires 0 <= a, 0 <= b_magnitude <= 1_000_000_000;
        lemma_div_is_ordered(0, a as int * b_magnitude as int, 1_000_000_000);
        lemma_div_is_ordered(
            a as int * b_magnitude as int,
            1_000_000_000int * (a as int),
            1_000_000_000,
        );
        vstd::arithmetic::div_mod::lemma_div_multiples_vanish(a as int, 1_000_000_000);
    }
    let scaled: i128 = (a as i128) * b_magnitude / 1_000_000_000;
    if b >= 0 {
        scaled as i64
    } else {
        -(scaled as i64)
    }
}

} // verus!
