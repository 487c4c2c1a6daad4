//! The orbital element set and the raw element record it is derived from.
//!
//! All quantities are fixed-point integers: lengths in meters, angles in
//! micro-degrees, eccentricity in micro-units (1e-6), mean motion in
//! micro-revolutions per day.  The semi-major axis is derived from mean
//! motion through Kepler's third law, and the orbital period from the
//! semi-major axis, both characterized exactly as integer roots.

use vstd::prelude::*;
use crate::num::{isqrt, icbrt, is_sqrt_floor, is_cbrt_floor, lemma_sqrt_floor_unique};

verus! {

/// Earth's gravitational parameter, in cubic meters per second squared.
pub const MU_M3_S2: u64 = 398_600_441_800_000;

/// Earth's gravitational parameter scaled by 1e20, in units of
/// m^3/s^2 * 1e20, so that angular rates held in 1e-10 rad/s units can be
/// squared against it without losing precision.
pub const MU_E20: u128 = 39_860_044_180_000_000_000_000_000_000_000_000;

/// 4 * pi^2 * 1e6, rounded to the nearest integer.  Multiplying
/// `a^3 / mu` (seconds squared) by this constant gives the squared orbital
/// period in milliseconds squared.
pub const FOUR_PI_SQ_E6: u64 = 39_478_418;

/// 2 * pi / 86400 seconds, scaled by 1e21: converts micro-revolutions per
/// day into an angular rate in 1e-10 rad/s units after division by 1e15.
pub const RAD_RATE_NUM: u64 = 727_220_521_664_304;

/// One million: the denominator of the micro fixed-point unit.
pub const MICRO: u32 = 1_000_000;

/// Largest admissible semi-major axis, in meters (one billion kilometers).
pub const MAX_SEMI_MAJOR_AXIS: u64 = 1_000_000_000_000;

/// Largest admissible mean motion, in micro-revolutions per day
/// (one million revolutions per day).
pub const MAX_MEAN_MOTION: u64 = 1_000_000_000_000;

/// Largest magnitude of an angle field, in micro-degrees (one full turn).
pub const MAX_ANGLE: i64 = 360_000_000;

/// Security classification tag carried by a raw element record.
#[derive(Clone, Copy, Debug, PartialEq, Eq, Structural)]
pub enum Classification {
    Unclassified,
    Classified,
    Secret,
}

impl Classification {
    /// The single-letter label used by the element-set interchange format.
    pub fn label(&self) -> (c: char)
        ensures
            c == (match *self {
                Classification::Unclassified => 'U',
                Classification::Classified => 'C',
                Classification::Secret => 'S',
            }),
    {
        match *self {
            Classification::Unclassified => 'U',
            Classification::Classified => 'C',
            Classification::Secret => 'S',
        }
    }

    /// Parses the single-letter label; returns `None` exactly on any other
    /// character.
    pub fn from_label(c: char) -> (r: Option<Classification>)
        ensures
            r == (match c {
                'U' => Some(Classification::Unclassified),
                'C' => Some(Classification::Classified),
                'S' => Some(Classification::Secret),
                _ => None::<Classification>,
            }),
    {
        match c {
            'U' => Some(Classification::Unclassified),
            'C' => Some(Classification::Classified),
            'S' => Some(Classification::Secret),
            _ => None,
        }
    }
}

/// Raw element record: the external representation of one tracked object,
/// already brought into fixed-point units.
#[derive(Clone, Debug)]
pub struct ElementRecord {
    /// Display name of the object, when the source supplies one.
    pub object_name: Option<String>,
    /// International designator (launch year, number and piece), when known.
    pub international_designator: Option<String>,
    /// Catalog number of the object.
    pub norad_id: u64,
    /// Security classification tag.
    pub classification: Classification,
    /// Epoch of the record, in microseconds relative to the source's
    /// reference instant; provenance only.
    pub epoch_micros: i64,
    /// Mean motion, in micro-revolutions per day.
    pub mean_motion: u64,
    /// Eccentricity, in micro-units; the bound-orbit domain is [0, 1).
    pub eccentricity: u32,
    /// Inclination, in micro-degrees.
    pub inclination: i64,
    /// Right ascension of the ascending node, in micro-degrees.
    pub right_ascension: i64,
    /// Argument of perigee, in micro-degrees.
    pub argument_of_perigee: i64,
    /// Mean anomaly, in micro-degrees.
    pub mean_anomaly: i64,
}

impl ElementRecord {
    /// A record is admissible when its mean motion and eccentricity lie in
    /// the bound-orbit domain and every angle is at most one turn in
    /// magnitude.
    pub open spec fn valid(&self) -> bool {
        &&& 2 <= self.mean_motion <= MAX_MEAN_MOTION
        &&& self.eccentricity < MICRO
        &&& -MAX_ANGLE <= self.inclination <= MAX_ANGLE
        &&& -MAX_ANGLE <= self.right_ascension <= MAX_ANGLE
        &&& -MAX_ANGLE <= self.argument_of_perigee <= MAX_ANGLE
        &&& -MAX_ANGLE <= self.mean_anomaly <= MAX_ANGLE
    }
}

/// Why a raw element record could not be materialized into an orbital
/// element set.
#[derive(Clone, Copy, Debug, PartialEq, Eq, Structural)]
pub enum ConversionError {
    /// Mean motion of zero, or too small or large for the fixed-point range.
    MeanMotionOutOfRange,
    /// Eccentricity at or above 1: not a bound orbit.
    EccentricityOutOfRange,
    /// An angle beyond one full turn in magnitude.
    AngleOutOfRange,
}

/// One body's classical orbital elements.
///
/// Immutable once constructed except for the true anomaly, which each
/// propagation step replaces wholesale: propagation is a pure function
/// producing a new element set.
#[derive(Clone, Copy, Debug, PartialEq, Eq, Structural)]
pub struct SatelliteOrbit {
    /// Semi-major axis, in meters.
    pub semi_major_axis: u64,
    /// Eccentricity, in micro-units; always below 1.
    pub eccentricity: u32,
    /// Inclination, in micro-degrees.
    pub inclination: i64,
    /// Right ascension of the ascending node, in micro-degrees.
    pub raan: i64,
    /// Argument of perigee, in micro-degrees.
    pub argument_of_perigee: i64,
    /// True anomaly, in micro-degrees.
    pub true_anomaly: i64,
    /// Epoch, in microseconds relative to the source's reference instant.
    pub epoch: i64,
}

/// The squared orbital period in milliseconds squared, as derived from the
/// semi-major axis `a` (meters) by Kepler's third law.
pub open spec fn period_sq_millis(a: int) -> int {
    (a * a * a / MU_M3_S2 as int) * FOUR_PI_SQ_E6 as int
}

/// The angular rate corresponding to a mean motion of `n`
/// micro-revolutions per day, in 1e-10 rad/s units.
pub open spec fn angular_rate_e10(n: int) -> int {
    n * RAD_RATE_NUM as int / 1_000_000_000_000_000
}

/// The cube of the semi-major axis (cubic meters) that Kepler's third law
/// assigns to the angular rate of `n` micro-revolutions per day.
pub open spec fn sma_cube_target(n: int) -> int {
    MU_E20 as int / (angular_rate_e10(n) * angular_rate_e10(n))
}

impl SatelliteOrbit {
    /// Well-formedness: the semi-major axis is positive and within the
    /// fixed-point range, the eccentricity below 1, and every angle at most
    /// one turn in magnitude.
    pub open spec fn wf(&self) -> bool {
        &&& 1 <= self.semi_major_axis <= MAX_SEMI_MAJOR_AXIS
        &&& self.eccentricity < MICRO
        &&& -MAX_ANGLE <= self.inclination <= MAX_ANGLE
        &&& -MAX_ANGLE <= self.raan <= MAX_ANGLE
        &&& -MAX_ANGLE <= self.argument_of_perigee <= MAX_ANGLE
        &&& -MAX_ANGLE <= self.true_anomaly <= MAX_ANGLE
    }

    /// Creates a new element set from the given parameters.
    pub fn new(
        semi_major_axis: u64,
        eccentricity: u32,
        inclination: i64,
        raan: i64,
        argument_of_perigee: i64,
        true_anomaly: i64,
        epoch: i64,
    ) -> (r: SatelliteOrbit)
        requires
            1 <= semi_major_axis <= MAX_SEMI_MAJOR_AXIS,
            eccentricity < MICRO,
            -MAX_ANGLE <= inclination <= MAX_ANGLE,
            -MAX_ANGLE <= raan <= MAX_ANGLE,
            -MAX_ANGLE <= argument_of_perigee <= MAX_ANGLE,
            -MAX_ANGLE <= true_anomaly <= MAX_ANGLE,
        ensures
            r == (SatelliteOrbit {
                semi_major_axis,
                eccentricity,
                inclination,
                raan,
                argument_of_perigee,
                true_anomaly,
                epoch,
            }),
            r.wf(),
    {
        SatelliteOrbit {
            semi_major_axis,
            eccentricity,
            inclination,
            raan,
            argument_of_perigee,
            true_anomaly,
            epoch,
        }
    }

    /// The orbital period in milliseconds: the floor of
    /// `2 * pi * sqrt(a^3 / mu) * 1000`, computed exactly over the
    /// fixed-point formula.  The result depends on the semi-major axis alone.
    pub fn orbital_period(&self) -> (r: u64)
        requires
            self.wf(),
        ensures
            is_sqrt_floor(period_sq_millis(self.semi_major_axis as int), r as int),
    {
        let a: u128 = self.semi_major_axis as u128;
        proof {
            assert(a * a <= 1_000_000_000_000_000_000_000_000) by (nonlinear_arith)
                requires 0 <= a <= 1_000_000_000_000;
            assert(a * a * a <= 1_000_000_000_000_000_000_000_000_000_000_000_000)
                by (nonlinear_arith)
                requires 0 <= a <= 1_000_000_000_000, a * a <= 1_000_000_000_000_000_000_000_000;
        }
        let cube: u128 = a * a * a;
        let q: u128 = cube / (MU_M3_S2 as u128);
        proof {
            vstd::arithmetic::div_mod::lemma_div_is_ordered(
                cube as int,
                1_000_000_000_000_000_000_000_000_000_000_000_000,
                MU_M3_S2 as int,
            );
            assert(q * 39_478_418 <= 2_508_777_951_886_354_381_858 * 39_478_418)
                by (nonlinear_arith)
                requires 0 <= q <= 2_508_777_951_886_354_381_858;
        }
        let scaled: u128 = q * (FOUR_PI_SQ_E6 as u128);
        let r: u128 = isqrt(scaled);
        r as u64
    }

    /// Propagating or deriving never touches identity fields; this is the
    /// record of which orbit the next true anomaly belongs to.
    pub open spec fn same_shape_as(&self, other: &SatelliteOrbit) -> bool {
        &&& self.semi_major_axis == other.semi_major_axis
        &&& self.eccentricity == other.eccentricity
        &&& self.inclination == other.inclination
        &&& self.raan == other.raan
        &&& self.argument_of_perigee == other.argument_of_perigee
        &&& self.epoch == other.epoch
    }
}

/// The orbital period is a function of the semi-major axis alone: two
/// results both satisfying the period characterization for orbits that share
/// a semi-major axis are equal, whatever their other elements.
pub proof fn lemma_period_depends_only_on_semi_major_axis(
    o1: SatelliteOrbit,
    o2: SatelliteOrbit,
    p1: int,
    p2: int,
)
    requires
        o1.semi_major_axis == o2.semi_major_axis,
        0 <= p1,
        0 <= p2,
        is_sqrt_floor(period_sq_millis(o1.semi_major_axis as int), p1),
        is_sqrt_floor(period_sq_millis(o2.semi_major_axis as int), p2),
    ensures
        p1 == p2,
{
    lemma_sqrt_floor_unique(period_sq_millis(o1.semi_major_axis as int), p1, p2);
}

/// The semi-major axis is a function of the mean motion alone: two values
/// that both satisfy the derivation's characterization for the same mean
/// motion are equal, so feeding a mean motion through the derivation
/// determines the orbit's size, and with it the period, completely.
pub proof fn lemma_semi_major_axis_determined(n: int, a1: int, a2: int)
    requires
        0 <= a1,
        0 <= a2,
        is_cbrt_floor(sma_cube_target(n), a1),
        is_cbrt_floor(sma_cube_target(n), a2),
    ensures
        a1 == a2,
{
    crate::num::lemma_cbrt_floor_unique(sma_cube_target(n), a1, a2);
}

/// A faster orbit is never larger: the semi-major axis the derivation
/// assigns is weakly decreasing in the mean motion.  Only the weak form
/// holds: under integer flooring two adjacent mean motions can share an
/// angular rate, and so a semi-major axis.
pub proof fn lemma_semi_major_axis_weakly_decreasing(n1: int, n2: int, a1: int, a2: int)
    requires
        2 <= n1 <= n2,
        0 <= a1,
        0 <= a2,
        is_cbrt_floor(sma_cube_target(n1), a1),
        is_cbrt_floor(sma_cube_target(n2), a2),
    ensures
        a2 <= a1,
{
    let w1 = angular_rate_e10(n1);
    let w2 = angular_rate_e10(n2);
    assert(n1 * 727_220_521_664_304 <= n2 * 727_220_521_664_304) by (nonlinear_arith)
        requires n1 <= n2;
    assert(2 * 727_220_521_664_304 <= n1 * 727_220_521_664_304) by (nonlinear_arith)
        requires 2 <= n1;
    vstd::arithmetic::div_mod::lemma_div_is_ordered(
        1_454_441_043_328_608,
        n1 * 727_220_521_664_304,
        1_000_000_000_000_000,
    );
    vstd::arithmetic::div_mod::lemma_div_is_ordered(
        n1 * 727_220_521_664_304,
        n2 * 727_220_521_664_304,
        1_000_000_000_000_000,
    );
    assert(1 <= w1 <= w2);
    assert(1 <= w1 * w1 <= w2 * w2) by (nonlinear_arith)
        requires 1 <= w1 <= w2;
    vstd::arithmetic::div_mod::lemma_div_is_ordered_by_denominator(
        MU_E20 as int,
        w1 * w1,
        w2 * w2,
    );
    assert(sma_cube_target(n2) <= sma_cube_target(n1));
    if a1 < a2 {
        assert((a1 + 1) * (a1 + 1) * (a1 + 1) <= a2 * a2 * a2) by (nonlinear_arith)
            requires 0 <= a1, a1 + 1 <= a2;
    }
}

/// Derives the semi-major axis, in meters, from a mean motion in
/// micro-revolutions per day, by Kepler's third law: the floor of the cube
/// root of `mu / omega^2`.
pub fn calculate_semi_major_axis(mean_motion: u64) -> (r: u64)
    requires
        2 <= mean_motion <= MAX_MEAN_MOTION,
    ensures
        is_cbrt_floor(sma_cube_target(mean_motion as int), r as int),
        1 <= r <= MAX_SEMI_MAJOR_AXIS,
{
    let n: u128 = mean_motion as u128;
    proof {
        assert(2 * 727_220_521_664_304 <= n * 727_220_521_664_304) by (nonlinear_arith)
            requires 2 <= n;
        assert(n * 727_220_521_664_304 <= 1_000_000_000_000 * 727_220_521_664_304)
            by (nonlinear_arith)
            requires n <= 1_000_000_000_000;
        vstd::arithmetic::div_mod::lemma_div_is_ordered(
            1_454_441_043_328_608,
            n as int * 727_220_521_664_304,
            1_000_000_000_000_000,
        );
        vstd::arithmetic::div_mod::lemma_div_is_ordered(
            n as int * 727_220_521_664_304,
            727_220_521_664_304_000_000_000_000,
            1_000_000_000_000_000,
        );
    }
    let omega: u128 = n * (RAD_RATE_NUM as u128) / 1_000_000_000_000_000;
    proof {
        assert(angular_rate_e10(mean_motion as int) == omega as int);
        assert(1 <= omega <= 727_220_521_664);
        assert(omega * omega <= 727_220_521_664 * 727_220_521_664) by (nonlinear_arith)
            requires 1 <= omega <= 727_220_521_664;
        assert(1 * 1 <= omega * omega) by (nonlinear_arith)
            requires 1 <= omega;
    }
    let omega_sq: u128 = omega * omega;
    let target: u128 = MU_E20 / omega_sq;
    let r: u128 = icbrt(target);
    proof {
        let t = target as int;
        let ri = r as int;
        vstd::arithmetic::div_mod::lemma_div_is_ordered_by_denominator(
            39_860_044_180_000_000_000_000_000_000_000_000,
            omega_sq as int,
            528_849_687_129_260_293_328_896,
        );
        vstd::arithmetic::div_mod::lemma_div_is_ordered_by_denominator(
            39_860_044_180_000_000_000_000_000_000_000_000,
            1,
            omega_sq as int,
        );
        assert(t >= 75_371_216_340);
        assert(t <= 39_860_044_180_000_000_000_000_000_000_000_000);
        // lower bound on the root: were it zero, t would lie below 1
        if ri == 0 {
            assert(t < (0 + 1) * (0 + 1) * (0 + 1));
            assert(false);
        }
        // upper bound: were the root above the cap, its cube would exceed t
        if ri > 1_000_000_000_000 {
            assert(ri * ri * ri > 39_860_044_180_000_000_000_000_000_000_000_000)
                by (nonlinear_arith)
                requires ri >= 1_000_000_000_001;
            assert(false);
        }
    }
    r as u64
}

impl SatelliteOrbit {
    /// Materializes a raw element record into an orbital element set: the
    /// semi-major axis is derived from the mean motion by Kepler's third
    /// law, the shape angles are carried over, and the true anomaly and
    /// epoch are reset to zero, so dynamic state is re-derived from scratch
    /// rather than trusted from the source record.
    ///
    /// Returns `Ok` exactly on valid records; each error names the first
    /// field, in declaration order, that lies outside its domain.
    pub fn from_record(record: &ElementRecord) -> (r: Result<SatelliteOrbit, ConversionError>)
        ensures
            r is Ok <==> record.valid(),
            record.valid() ==> {
                let o = r->Ok_0;
                &&& o.wf()
                &&& is_cbrt_floor(sma_cube_target(record.mean_motion as int), o.semi_major_axis as int)
                &&& o.eccentricity == record.eccentricity
                &&& o.inclination == record.inclination
                &&& o.raan == record.right_ascension
                &&& o.argument_of_perigee == record.argument_of_perigee
                &&& o.true_anomaly == 0
                &&& o.epoch == 0
            },
            !(2 <= record.mean_motion <= MAX_MEAN_MOTION)
                ==> r == Result::<SatelliteOrbit, ConversionError>::Err(ConversionError::MeanMotionOutOfRange),
            (2 <= record.mean_motion <= MAX_MEAN_MOTION) && !(record.eccentricity < MICRO)
                ==> r == Result::<SatelliteOrbit, ConversionError>::Err(ConversionError::EccentricityOutOfRange),
            (2 <= record.mean_motion <= MAX_MEAN_MOTION) && record.eccentricity < MICRO
                && !record.valid()
                ==> r == Result::<SatelliteOrbit, ConversionError>::Err(ConversionError::AngleOutOfRange),
    {
        if !(2 <= record.mean_motion && record.mean_motion <= MAX_MEAN_MOTION) {
            return Err(ConversionError::MeanMotionOutOfRange);
        }
        if !(record.eccentricity < MICRO) {
            return Err(ConversionError::EccentricityOutOfRange);
        }
        if !(-MAX_ANGLE <= record.inclination && record.inclination <= MAX_ANGLE
            && -MAX_ANGLE <= record.right_ascension && record.right_ascension <= MAX_ANGLE
            && -MAX_ANGLE <= record.argument_of_perigee && record.argument_of_perigee <= MAX_ANGLE
            && -MAX_ANGLE <= record.mean_anomaly && record.mean_anomaly <= MAX_ANGLE)
        {
            return Err(ConversionError::AngleOutOfRange);
        }
        let semi_major_axis: u64 = calculate_semi_major_axis(record.mean_motion);
        Ok(SatelliteOrbit {
            semi_major_axis,
            eccentricity: record.eccentricity,
            inclination: record.inclination,
            raan: record.right_ascension,
            argument_of_perigee: record.argument_of_perigee,
            true_anomaly: 0,
            epoch: 0,
        })
    }
}

} // verus!
