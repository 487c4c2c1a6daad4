//! Rendering-agnostic orbit geometry: the satellite's position in the
//! inertial frame, the orbit ellipse's scaled dimensions and center offset,
//! and the orbit's characteristic direction vectors.
//!
//! The orbital plane is rotated into the inertial frame with the canonical
//! perifocal-to-inertial rotation `Rz(raan) * Rx(inclination) *
//! Rz(argument of perigee)`, composed as a fixed-point matrix.

use vstd::prelude::*;
use vstd::arithmetic::div_mod::lemma_div_is_ordered;
use crate::angles::{
    micro_deg_to_nanorad, normalize_nanorad, sin_cos_nanorad, spec_angle_nanorad,
    spec_cos_nanorad, spec_sin_nanorad, TRIG_SCALE,
};
use crate::elements::SatelliteOrbit;
use crate::interp::Vec3Fix;
use crate::kepler::{scaled_product, spec_scaled_product};
use crate::num::{isqrt, is_sqrt_floor};

verus! {

/// The satellite's position in the inertial frame, in millimeters.
#[derive(Clone, Copy, Debug, PartialEq, Eq, Structural)]
pub struct SatellitePose {
    pub position: Vec3Fix,
}

/// The orbit ellipse's rendering-agnostic dimensions, in micro-world-units:
/// the length of the center offset from the focus, and the two semi-axes.
/// The ellipse's spatial orientation is the same composed rotation that
/// `to_translation_and_rotation` applies and is left to the consumer.
#[derive(Clone, Copy, Debug, PartialEq, Eq, Structural)]
pub struct EllipseGeometry {
    /// Distance from the occupied focus to the ellipse center: `a * e`,
    /// scaled.
    pub offset_length: u64,
    /// The semi-major axis, scaled.
    pub semi_major: u64,
    /// The semi-minor axis, `a * sqrt(1 - e^2)`, scaled.
    pub semi_minor: u64,
}

/// The semi-major axis of an orbit in micro-world-units: `a` meters times
/// the scale factor in micro-world-units per kilometer.
pub open spec fn scaled_semi_major(a_m: int, scale_micro: int) -> int {
    a_m * scale_micro / 1000
}

/// The distance from the focus to the ellipse center, in micro-world-units:
/// the scaled semi-major axis times the eccentricity.
pub open spec fn ellipse_offset_length(semi_major: int, e_micro: int) -> int {
    semi_major * e_micro / 1_000_000
}

/// The fixed-point sine of the orbit's right ascension of the ascending
/// node.
pub open spec fn spec_raan_sin(o: SatelliteOrbit) -> int {
    spec_sin_nanorad(spec_angle_nanorad(o.raan as int))
}

/// The fixed-point cosine of the orbit's right ascension of the ascending
/// node.
pub open spec fn spec_raan_cos(o: SatelliteOrbit) -> int {
    spec_cos_nanorad(spec_angle_nanorad(o.raan as int))
}

/// The fixed-point sine of the orbit's inclination.
pub open spec fn spec_incl_sin(o: SatelliteOrbit) -> int {
    spec_sin_nanorad(spec_angle_nanorad(o.inclination as int))
}

/// The fixed-point cosine of the orbit's inclination.
pub open spec fn spec_incl_cos(o: SatelliteOrbit) -> int {
    spec_cos_nanorad(spec_angle_nanorad(o.inclination as int))
}

/// The fixed-point sine of the orbit's argument of perigee.
pub open spec fn spec_argp_sin(o: SatelliteOrbit) -> int {
    spec_sin_nanorad(spec_angle_nanorad(o.argument_of_perigee as int))
}

/// The fixed-point cosine of the orbit's argument of perigee.
pub open spec fn spec_argp_cos(o: SatelliteOrbit) -> int {
    spec_cos_nanorad(spec_angle_nanorad(o.argument_of_perigee as int))
}

/// A fixed-point product of two rotation-matrix factors, `a * b / 1e9`
/// truncated toward zero.
pub open spec fn spec_trig_mul(a: int, b: int) -> int {
    let am = if a >= 0 { a } else { -a };
    let bm = if b >= 0 { b } else { -b };
    let mag = am * bm / 1_000_000_000;
    if (a >= 0) == (b >= 0) { mag } else { -mag }
}

/// Entry (0,0) of the composed rotation `Rz(raan) Rx(incl) Rz(argp)`.
pub open spec fn spec_m00(o: SatelliteOrbit) -> int {
    spec_trig_mul(spec_raan_cos(o), spec_argp_cos(o)) - spec_trig_mul(
        spec_trig_mul(spec_raan_sin(o), spec_incl_cos(o)),
        spec_argp_sin(o),
    )
}

/// Entry (0,1) of the composed rotation.
pub open spec fn spec_m01(o: SatelliteOrbit) -> int {
    -spec_trig_mul(spec_raan_cos(o), spec_argp_sin(o)) - spec_trig_mul(
        spec_trig_mul(spec_raan_sin(o), spec_incl_cos(o)),
        spec_argp_cos(o),
    )
}

/// Entry (0,2) of the composed rotation.
pub open spec fn spec_m02(o: SatelliteOrbit) -> int {
    spec_trig_mul(spec_raan_sin(o), spec_incl_sin(o))
}

/// Entry (1,0) of the composed rotation.
pub open spec fn spec_m10(o: SatelliteOrbit) -> int {
    spec_trig_mul(spec_raan_sin(o), spec_argp_cos(o)) + spec_trig_mul(
        spec_trig_mul(spec_raan_cos(o), spec_incl_cos(o)),
        spec_argp_sin(o),
    )
}

/// Entry (1,1) of the composed rotation.
pub open spec fn spec_m11(o: SatelliteOrbit) -> int {
    -spec_trig_mul(spec_raan_sin(o), spec_argp_sin(o)) + spec_trig_mul(
        spec_trig_mul(spec_raan_cos(o), spec_incl_cos(o)),
        spec_argp_cos(o),
    )
}

/// Entry (1,2) of the composed rotation.
pub open spec fn spec_m12(o: SatelliteOrbit) -> int {
    -spec_trig_mul(spec_raan_cos(o), spec_incl_sin(o))
}

/// Entry (2,0) of the composed rotation.
pub open spec fn spec_m20(o: SatelliteOrbit) -> int {
    spec_trig_mul(spec_incl_sin(o), spec_argp_sin(o))
}

/// Entry (2,1) of the composed rotation.
pub open spec fn spec_m21(o: SatelliteOrbit) -> int {
    spec_trig_mul(spec_incl_sin(o), spec_argp_cos(o))
}

/// Entry (2,2) of the composed rotation.
pub open spec fn spec_m22(o: SatelliteOrbit) -> int {
    spec_incl_cos(o)
}

/// The in-plane orbital radius in millimeters as the fixed-point code
/// computes it: `a (1 - e^2) / (1 + e cos nu)` over the fixed-point
/// cosine, floored at each step and capped at twice the largest
/// admissible semi-major axis.
pub open spec fn spec_orbital_radius(o: SatelliteOrbit) -> int {
    let nu = spec_angle_nanorad(o.true_anomaly as int);
    let c = spec_cos_nanorad(nu);
    let e_nano = o.eccentricity as int * 1000;
    let denom = (TRIG_SCALE as int) + spec_scaled_product(e_nano, c);
    let numerator = o.semi_major_axis as int * 1000 * (1_000_000_000_000
        - o.eccentricity as int * o.eccentricity as int);
    let scaled = numerator * 1_000_000_000 / 1_000_000_000_000;
    let radius = scaled / denom;
    if radius > 4_000_000_000_000_000 {
        4_000_000_000_000_000int
    } else {
        radius
    }
}

/// The in-plane position's first coordinate, `r cos nu`, in millimeters.
pub open spec fn spec_x_pqw(o: SatelliteOrbit) -> int {
    spec_scaled_product(spec_orbital_radius(o), spec_cos_nanorad(spec_angle_nanorad(
        o.true_anomaly as int,
    )))
}

/// The in-plane position's second coordinate, `r sin nu`, in millimeters.
pub open spec fn spec_y_pqw(o: SatelliteOrbit) -> int {
    spec_scaled_product(spec_orbital_radius(o), spec_sin_nanorad(spec_angle_nanorad(
        o.true_anomaly as int,
    )))
}

/// One inertial coordinate's share from one rotation-matrix entry,
/// `entry * coord / 1e9` truncated toward zero.
pub open spec fn spec_row_term(entry: int, coord: int) -> int {
    let em = if entry >= 0 { entry } else { -entry };
    let cm = if coord >= 0 { coord } else { -coord };
    let mag = em * cm / 1_000_000_000;
    if (entry >= 0) == (coord >= 0) { mag } else { -mag }
}

/// The inertial position's first coordinate: the composed rotation's first
/// row applied to the in-plane position.
pub open spec fn spec_translation_x(o: SatelliteOrbit) -> int {
    spec_row_term(spec_m00(o), spec_x_pqw(o)) + spec_row_term(spec_m01(o), spec_y_pqw(o))
}

/// The inertial position's second coordinate.
pub open spec fn spec_translation_y(o: SatelliteOrbit) -> int {
    spec_row_term(spec_m10(o), spec_x_pqw(o)) + spec_row_term(spec_m11(o), spec_y_pqw(o))
}

/// The inertial position's third coordinate.
pub open spec fn spec_translation_z(o: SatelliteOrbit) -> int {
    spec_row_term(spec_m20(o), spec_x_pqw(o)) + spec_row_term(spec_m21(o), spec_y_pqw(o))
}

/// For a circular orbit the ellipse is centered on its focus: the center
/// offset is exactly zero, whatever the orbit's inclination, right
/// ascension and argument of perigee, which do not enter the offset at all.
pub proof fn lemma_zero_eccentricity_centers_ellipse(o: SatelliteOrbit, scale_micro: int)
    requires
        o.eccentricity == 0,
    ensures
        ellipse_offset_length(
            scaled_semi_major(o.semi_major_axis as int, scale_micro),
            o.eccentricity as int,
        ) == 0,
{
    let x = scaled_semi_major(o.semi_major_axis as int, scale_micro);
    assert(x * 0 == 0) by (nonlinear_arith);
}

impl SatelliteOrbit {
    /// The ellipse's scaled dimensions: the semi-major axis scaled by the
    /// unit scale factor, the semi-minor axis shrunk from it by
    /// `sqrt(1 - e^2)`, and the center offset `a * e`, all exact over the
    /// fixed-point formulas.
    pub fn ellipse_geometry(&self, scale_micro: u64) -> (r: EllipseGeometry)
        requires
            self.wf(),
            scale_micro <= 1_000_000_000,
        ensures
            r.semi_major == scaled_semi_major(self.semi_major_axis as int, scale_micro as int),
            r.offset_length == ellipse_offset_length(
                r.semi_major as int,
                self.eccentricity as int,
            ),
            exists|s: int|
                #[trigger] is_sqrt_floor(
                    (1_000_000_000_000 - self.eccentricity as int * self.eccentricity as int)
                        * 1_000_000_000_000,
                    s,
                ) && r.semi_minor == r.semi_major as int * s / 1_000_000_000_000,
            self.eccentricity == 0 ==> r.offset_length == 0,
    {
        proof {
            assert(self.semi_major_axis as int * scale_micro as int
                <= 1_000_000_000_000int * 1_000_000_000) by (nonlinear_arith)
                requires
                    0 <= self.semi_major_axis <= 1_000_000_000_000,
                    0 <= scale_micro <= 1_000_000_000;
            lemma_div_is_ordered(0, self.semi_major_axis as int * scale_micro as int, 1000);
            lemma_div_is_ordered(
                self.semi_major_axis as int * scale_micro as int,
                1_000_000_000_000_000_000_000,
                1000,
            );
        }
        let semi_major_wide: u128 = (self.semi_major_axis as u128) * (scale_micro as u128) / 1000;
        let semi_major: u64 = semi_major_wide as u64;
        proof {
            assert(semi_major as int * self.eccentricity as int
                <= 1_000_000_000_000_000_000int * 1_000_000) by (nonlinear_arith)
                requires
                    0 <= semi_major <= 1_000_000_000_000_000_000,
                    0 <= self.eccentricity <= 1_000_000,
            ;
            lemma_div_is_ordered(0, semi_major as int * self.eccentricity as int, 1_000_000);
            lemma_div_is_ordered(
                semi_major as int * self.eccentricity as int,
                1_000_000_000_000_000_000_000_000,
                1_000_000,
            );
        }
        let offset_wide: u128 = (semi_major as u128) * (self.eccentricity as u128) / 1_000_000;
        let offset_length: u64 = offset_wide as u64;
        proof {
            assert((self.eccentricity as int) * (self.eccentricity as int)
                < 1_000_000_000_000) by (nonlinear_arith)
                requires 0 <= self.eccentricity < 1_000_000;
        }
        let shrink_sq: u128 = 1_000_000_000_000u128
            - (self.eccentricity as u128) * (self.eccentricity as u128);
        let shrink: u128 = isqrt(shrink_sq * 1_000_000_000_000);
        proof {
            assert(shrink_sq * 1_000_000_000_000 <= 1_000_000_000_000u128 * 1_000_000_000_000)
                by (nonlinear_arith)
                requires 0 <= shrink_sq <= 1_000_000_000_000;
            if shrink as int > 1_000_000_000_000 {
                assert((shrink as int) * (shrink as int)
                    > 1_000_000_000_000int * 1_000_000_000_000) by (nonlinear_arith)
                    requires shrink as int >= 1_000_000_000_001;
            }
            assert(semi_major as int * shrink as int
                <= 1_000_000_000_000_000_000int * 1_000_000_000_000) by (nonlinear_arith)
                requires
                    0 <= semi_major <= 1_000_000_000_000_000_000,
                    0 <= shrink <= 1_000_000_000_000,
            ;
            lemma_div_is_ordered(0, semi_major as int * shrink as int, 1_000_000_000_000);
            lemma_div_is_ordered(
                semi_major as int * shrink as int,
                1_000_000_000_000_000_000_000_000_000_000,
                1_000_000_000_000,
            );
        }
        let semi_minor_wide: u128 = (semi_major as u128) * shrink / 1_000_000_000_000;
        let semi_minor: u64 = semi_minor_wide as u64;
        proof {
            if self.eccentricity == 0 {
                assert(semi_major as int * 0int == 0) by (nonlinear_arith);
            }
        }
        EllipseGeometry { offset_length, semi_major, semi_minor }
    }
}

/// A fixed-point product of two rotation-matrix factors, `a * b / 1e9`
/// truncated toward zero; exactly zero when either factor is.
fn trig_mul(a: i64, b: i64) -> (r: i64)
    requires
        -1_000_000_000 <= a <= 1_000_000_000,
        -1_000_000_000 <= b <= 1_000_000_000,
    ensures
        r == spec_trig_mul(a as int, b as int),
        -1_000_000_000 <= r <= 1_000_000_000,
        a == 0 ==> r == 0,
        b == 0 ==> r == 0,
{
    let a_magnitude: i128 = if a >= 0 {
        a as i128
    } else {
        -(a as i128)
    };
    let b_magnitude: i128 = if b >= 0 {
        b as i128
    } else {
        -(b as i128)
    };
    proof {
        assert(a_magnitude * b_magnitude <= 1_000_000_000int * 1_000_000_000) by (nonlinear_arith)
            requires 0 <= a_magnitude <= 1_000_000_000, 0 <= b_magnitude <= 1_000_000_000;
        assert(a_magnitude == 0 || b_magnitude == 0 ==> a_magnitude * b_magnitude == 0)
            by (nonlinear_arith);
        lemma_div_is_ordered(0, a_magnitude as int * b_magnitude as int, 1_000_000_000);
        lemma_div_is_ordered(
            a_magnitude as int * b_magnitude as int,
            1_000_000_000_000_000_000,
            1_000_000_000,
        );
    }
    let magnitude: i128 = a_magnitude * b_magnitude / 1_000_000_000;
    if (a >= 0) == (b >= 0) {
        magnitude as i64
    } else {
        -(magnitude as i64)
    }
}

/// One inertial coordinate's share from one rotation-matrix entry:
/// `entry * coord / 1e9` truncated toward zero; exactly zero when the
/// entry is.
fn row_term(entry: i64, coord: i64) -> (r: i64)
    requires
        -8_000_000_000 <= entry <= 8_000_000_000,
        -4_000_000_000_000_000 <= coord <= 4_000_000_000_000_000,
    ensures
        r == spec_row_term(entry as int, coord as int),
        -32_000_000_000_000_000 <= r <= 32_000_000_000_000_000,
        entry == 0 ==> r == 0,
{
    let e_magnitude: i128 = if entry >= 0 {
        entry as i128
    } else {
        -(entry as i128)
    };
    let c_magnitude: i128 = if coord >= 0 {
        coord as i128
    } else {
        -(coord as i128)
    };
    proof {
        assert(e_magnitude * c_magnitude <= 8_000_000_000int * 4_000_000_000_000_000)
            by (nonlinear_arith)
            requires
                0 <= e_magnitude <= 8_000_000_000,
                0 <= c_magnitude <= 4_000_000_000_000_000,
        ;
        assert(e_magnitude == 0 ==> e_magnitude * c_magnitude == 0) by (nonlinear_arith);
        lemma_div_is_ordered(0, e_magnitude as int * c_magnitude as int, 1_000_000_000);
        lemma_div_is_ordered(
            e_magnitude as int * c_magnitude as int,
            32_000_000_000_000_000_000_000_000,
            1_000_000_000,
        );
    }
    let magnitude: i128 = e_magnitude * c_magnitude / 1_000_000_000;
    if (entry >= 0) == (coord >= 0) {
        magnitude as i64
    } else {
        -(magnitude as i64)
    }
}

impl SatelliteOrbit {
    /// The sines and cosines of the three orientation angles, scaled by
    /// 1e9; the inclination's sine is exactly zero for a zero inclination.
    fn orientation_trig(&self) -> (t: ((i64, i64), (i64, i64), (i64, i64)))
        requires
            self.wf(),
        ensures
            ({
                let ((s_raan, c_raan), (s_incl, c_incl), (s_argp, c_argp)) = t;
                &&& s_raan == spec_raan_sin(*self) && c_raan == spec_raan_cos(*self)
                &&& s_incl == spec_incl_sin(*self) && c_incl == spec_incl_cos(*self)
                &&& s_argp == spec_argp_sin(*self) && c_argp == spec_argp_cos(*self)
                &&& -TRIG_SCALE <= s_raan <= TRIG_SCALE && -TRIG_SCALE <= c_raan <= TRIG_SCALE
                &&& -TRIG_SCALE <= s_incl <= TRIG_SCALE && -TRIG_SCALE <= c_incl <= TRIG_SCALE
                &&& -TRIG_SCALE <= s_argp <= TRIG_SCALE && -TRIG_SCALE <= c_argp <= TRIG_SCALE
                &&& self.inclination == 0 ==> s_incl == 0
            }),
    {
        let raan = normalize_nanorad(micro_deg_to_nanorad(self.raan));
        let incl = normalize_nanorad(micro_deg_to_nanorad(self.inclination));
        let argp = normalize_nanorad(micro_deg_to_nanorad(self.argument_of_perigee));
        (sin_cos_nanorad(raan), sin_cos_nanorad(incl), sin_cos_nanorad(argp))
    }

    /// The in-plane orbital radius `a (1 - e^2) / (1 + e cos nu)` in
    /// millimeters, bounded by twice the semi-major axis.
    fn orbital_radius_mm(&self) -> (r: i64)
        requires
            self.wf(),
        ensures
            r == spec_orbital_radius(*self),
            0 <= r <= 4_000_000_000_000_000,
    {
        let nu = normalize_nanorad(micro_deg_to_nanorad(self.true_anomaly));
        let (_, c) = sin_cos_nanorad(nu);
        let e_nano: i64 = (self.eccentricity as i64) * 1000;
        let denom: i64 = TRIG_SCALE + scaled_product(e_nano, c);
        proof {
            assert(0 <= self.eccentricity as int * self.eccentricity as int <= 1_000_000_000_000)
                by (nonlinear_arith)
                requires 0 <= self.eccentricity <= 1_000_000;
            assert(self.semi_major_axis as int * 1000
                * (1_000_000_000_000int - self.eccentricity as int * self.eccentricity as int)
                <= 1_000_000_000_000_000int * 1_000_000_000_000) by (nonlinear_arith)
                requires
                    0 <= self.semi_major_axis <= 1_000_000_000_000,
                    0 <= self.eccentricity as int * self.eccentricity as int
                        <= 1_000_000_000_000,
            ;
            assert(self.semi_major_axis as int * 1000
                * (1_000_000_000_000int - self.eccentricity as int * self.eccentricity as int)
                >= 0) by (nonlinear_arith)
                requires
                    0 <= self.semi_major_axis,
                    0 <= self.eccentricity as int * self.eccentricity as int
                        <= 1_000_000_000_000,
            ;
        }
        let numerator: i128 = (self.semi_major_axis as i128) * 1000
            * (1_000_000_000_000i128 - (self.eccentricity as i128) * (self.eccentricity as i128));
        proof {
            assert(numerator * 1_000_000_000 <= 1_000_000_000_000_000_000_000_000_000int
                * 1_000_000_000) by (nonlinear_arith)
                requires 0 <= numerator <= 1_000_000_000_000_000_000_000_000_000;
            lemma_div_is_ordered(0, numerator as int * 1_000_000_000, 1_000_000_000_000);
            lemma_div_is_ordered(
                numerator as int * 1_000_000_000,
                1_000_000_000_000_000_000_000_000_000_000_000_000,
                1_000_000_000_000,
            );
        }
        let scaled: i128 = numerator * 1_000_000_000 / 1_000_000_000_000;
        proof {
            lemma_div_is_ordered(0, scaled as int, denom as int);
        }
        let radius: i128 = scaled / (denom as i128);
        if radius > 4_000_000_000_000_000i128 {
            4_000_000_000_000_000
        } else {
            radius as i64
        }
    }

    /// The satellite's position in the inertial frame, in millimeters: the
    /// in-plane position rotated by the canonical perifocal-to-inertial
    /// rotation, each coordinate equal to its definitional fixed-point
    /// mirror.  For a zero inclination the orbit stays in the reference
    /// plane: the third coordinate is exactly zero.
    pub fn to_translation_and_rotation(&self) -> (r: SatellitePose)
        requires
            self.wf(),
        ensures
            r.position.x == spec_translation_x(*self),
            r.position.y == spec_translation_y(*self),
            r.position.z == spec_translation_z(*self),
            r.position.bounded(64_000_000_000_000_000),
            self.inclination == 0 ==> r.position.z == 0,
    {
        let radius: i64 = self.orbital_radius_mm();
        let nu = normalize_nanorad(micro_deg_to_nanorad(self.true_anomaly));
        let (s_nu, c_nu) = sin_cos_nanorad(nu);
        let x_pqw: i64 = scaled_product(radius, c_nu);
        let y_pqw: i64 = scaled_product(radius, s_nu);
        let ((s_raan, c_raan), (s_incl, c_incl), (s_argp, c_argp)) = self.orientation_trig();
        // Rz(raan) * Rx(incl) * Rz(argp), applied to (x_pqw, y_pqw, 0)
        let m00: i64 = trig_mul(c_raan, c_argp) - trig_mul(trig_mul(s_raan, c_incl), s_argp);
        let m01: i64 = -trig_mul(c_raan, s_argp) - trig_mul(trig_mul(s_raan, c_incl), c_argp);
        let m10: i64 = trig_mul(s_raan, c_argp) + trig_mul(trig_mul(c_raan, c_incl), s_argp);
        let m11: i64 = -trig_mul(s_raan, s_argp) + trig_mul(trig_mul(c_raan, c_incl), c_argp);
        let m20: i64 = trig_mul(s_incl, s_argp);
        let m21: i64 = trig_mul(s_incl, c_argp);
        let x: i64 = row_term(m00, x_pqw) + row_term(m01, y_pqw);
        let y: i64 = row_term(m10, x_pqw) + row_term(m11, y_pqw);
        let z: i64 = row_term(m20, x_pqw) + row_term(m21, y_pqw);
        SatellitePose { position: Vec3Fix { x, y, z } }
    }

    /// The direction of the ascending node in the reference plane:
    /// `Rz(raan)` applied to the reference x-axis, scaled by 1e9 — exactly
    /// the fixed-point cosine and sine of the node angle.  It lies in the
    /// reference plane exactly.
    pub fn get_right_ascention_vector(&self) -> (r: Vec3Fix)
        requires
            self.wf(),
        ensures
            r.x == spec_raan_cos(*self),
            r.y == spec_raan_sin(*self),
            r.z == 0,
            r.bounded(TRIG_SCALE as int),
    {
        let raan = normalize_nanorad(micro_deg_to_nanorad(self.raan));
        let (s_raan, c_raan) = sin_cos_nanorad(raan);
        Vec3Fix { x: c_raan, y: s_raan, z: 0 }
    }

    /// The axis the composed rotation sends the reference y-axis to,
    /// scaled by 1e9: exactly the rotation's second column.  For a zero
    /// inclination it stays in the reference plane.
    pub fn get_encentricity_vector(&self) -> (r: Vec3Fix)
        requires
            self.wf(),
        ensures
            r.x == spec_m01(*self),
            r.y == spec_m11(*self),
            r.z == spec_m21(*self),
            r.bounded(8_000_000_000),
            self.inclination == 0 ==> r.z == 0,
    {
        let ((s_raan, c_raan), (s_incl, c_incl), (s_argp, c_argp)) = self.orientation_trig();
        let x: i64 = -trig_mul(c_raan, s_argp) - trig_mul(trig_mul(s_raan, c_incl), c_argp);
        let y: i64 = -trig_mul(s_raan, s_argp) + trig_mul(trig_mul(c_raan, c_incl), c_argp);
        let z: i64 = trig_mul(s_incl, c_argp);
        Vec3Fix { x, y, z }
    }

    /// The composed perifocal-to-inertial rotation itself, as its three
    /// columns scaled by 1e9: the images of the reference x, y and z axes.
    /// This is the orientation that the inertial position and the ellipse
    /// share; a consumer draws the orbit ellipse with these axes and the
    /// dimensions of `ellipse_geometry`.
    pub fn ellipse_orientation(&self) -> (r: (Vec3Fix, Vec3Fix, Vec3Fix))
        requires
            self.wf(),
        ensures
            r.0.x == spec_m00(*self) && r.0.y == spec_m10(*self) && r.0.z == spec_m20(*self),
            r.1.x == spec_m01(*self) && r.1.y == spec_m11(*self) && r.1.z == spec_m21(*self),
            r.2.x == spec_m02(*self) && r.2.y == spec_m12(*self) && r.2.z == spec_m22(*self),
            r.0.bounded(8_000_000_000),
            r.1.bounded(8_000_000_000),
            r.2.bounded(8_000_000_000),
    {
        let ((s_raan, c_raan), (s_incl, c_incl), (s_argp, c_argp)) = self.orientation_trig();
        let col_x = Vec3Fix {
            x: trig_mul(c_raan, c_argp) - trig_mul(trig_mul(s_raan, c_incl), s_argp),
            y: trig_mul(s_raan, c_argp) + trig_mul(trig_mul(c_raan, c_incl), s_argp),
            z: trig_mul(s_incl, s_argp),
        };
        let col_y = Vec3Fix {
            x: -trig_mul(c_raan, s_argp) - trig_mul(trig_mul(s_raan, c_incl), c_argp),
            y: -trig_mul(s_raan, s_argp) + trig_mul(trig_mul(c_raan, c_incl), c_argp),
            z: trig_mul(s_incl, c_argp),
        };
        let col_z = Vec3Fix {
            x: trig_mul(s_raan, s_incl),
            y: -trig_mul(c_raan, s_incl),
            z: c_incl,
        };
        (col_x, col_y, col_z)
    }
}

} // verus!
