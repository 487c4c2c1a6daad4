use orbit_engine::elements::{calculate_semi_major_axis, SatelliteOrbit};

fn iss_like_orbit() -> SatelliteOrbit {
    SatelliteOrbit::new(
        6_771_000,   // semi-major axis in meters (6771 km)
        1_000,       // eccentricity 0.001 in micro-units
        51_600_000,  // inclination 51.6 degrees in micro-degrees
        120_000_000, // RAAN 120 degrees
        80_000_000,  // argument of perigee 80 degrees
        0,           // true anomaly 0 degrees
        2_451_545,   // epoch (provenance only)
    )
}

/// Distance between two angles in micro-degrees, wrapped at a full turn.
fn angle_distance(a: i64, b: i64) -> i64 {
    let mut d = (a - b) % 360_000_000;
    if d < 0 {
        d += 360_000_000;
    }
    if d > 180_000_000 {
        d = 360_000_000 - d;
    }
    d
}

#[test]
fn test_orbit_propagation() {
    let orbit = iss_like_orbit();
    let period = orbit.orbital_period() as i64;

    let orbit_quater = orbit.propagate(period / 4);
    let orbit_half = orbit.propagate(period / 2);
    let orbit_three_quater = orbit.propagate(period / 4 * 3);
    let orbit_full = orbit.propagate(period);

    for (orbit, expected_true_anomaly) in vec![
        (orbit_quater, 90_000_000),
        (orbit_half, 180_000_000),
        (orbit_three_quater, -90_000_000),
        (orbit_full, 0),
    ] {
        // 0.2 degrees = 200_000 micro-degrees
        assert!(
            angle_distance(orbit.true_anomaly, expected_true_anomaly) <= 200_000,
            "true anomaly {} vs expected {}",
            orbit.true_anomaly,
            expected_true_anomaly
        );
    }
}

#[test]
fn test_elipse_calculations() {
    let mut orbit = SatelliteOrbit::new(6_771_000, 0, 0, 0, 80_000_000, 0, 2_451_545);

    let geometry = orbit.ellipse_geometry(1_000_000); // scale factor 1.0
    assert_eq!(geometry.offset_length, 0);

    orbit.inclination = 45_000_000;
    orbit.argument_of_perigee = 90_000_000;

    let geometry = orbit.ellipse_geometry(1_000_000);
    assert_eq!(geometry.offset_length, 0);
}

#[test]
fn orbital_period_exact_value() {
    // floor(sqrt(floor(a^3 / mu) * 4 pi^2 1e6)) for a = 6_771_000 m
    let orbit = iss_like_orbit();
    assert_eq!(orbit.orbital_period(), 5_544_853);
}

#[test]
fn orbital_period_depends_only_on_semi_major_axis() {
    let a = iss_like_orbit();
    let mut b = iss_like_orbit();
    b.eccentricity = 500_000;
    b.inclination = 0;
    b.raan = -120_000_000;
    b.argument_of_perigee = 10_000_000;
    b.true_anomaly = 90_000_000;
    assert_eq!(a.orbital_period(), b.orbital_period());
}

#[test]
fn semi_major_axis_from_mean_motion() {
    // 1.7 revolutions per day (a Galileo-like orbit)
    assert_eq!(calculate_semi_major_axis(1_700_000), 29_655_330);
    // 15.5 revolutions per day (a low orbit)
    assert_eq!(calculate_semi_major_axis(15_500_000), 6_794_863);
}

#[test]
fn mean_motion_round_trip_through_period() {
    // deriving the semi-major axis from a mean motion and feeding it back
    // through the orbital period recovers the mean motion within tolerance
    for n_micro in [1_700_000u64, 2_000_000, 8_000_000, 15_500_000] {
        let a = calculate_semi_major_axis(n_micro);
        let orbit = SatelliteOrbit::new(a, 1_000, 51_600_000, 0, 0, 0, 0);
        let period_ms = orbit.orbital_period();
        let n_back = 86_400_000u64 * 1_000_000 / period_ms; // micro-revs per day
        let diff = n_back.abs_diff(n_micro);
        // within 0.01 percent
        assert!(diff * 10_000 <= n_micro, "{n_micro} -> {n_back}");
    }
}

#[test]
fn example_orbit_period_and_quarter_turn() {
    // a = 6771 km, e = 0.001, i = 51.6, raan = 120, argp = 80, nu = 0:
    // period = 2 pi sqrt(a^3 / mu) = 5544.855 s, and a quarter period
    // advances the true anomaly to about 90 degrees
    let orbit = iss_like_orbit();
    let period = orbit.orbital_period();
    assert!(period.abs_diff(5_544_855) <= 2_000, "period {period}");
    let quarter = orbit.propagate(period as i64 / 4);
    assert!(angle_distance(quarter.true_anomaly, 90_000_000) <= 200_000);
}

#[test]
fn propagation_changes_only_true_anomaly() {
    let orbit = iss_like_orbit();
    let moved = orbit.propagate(123_456);
    assert_eq!(moved.semi_major_axis, orbit.semi_major_axis);
    assert_eq!(moved.eccentricity, orbit.eccentricity);
    assert_eq!(moved.inclination, orbit.inclination);
    assert_eq!(moved.raan, orbit.raan);
    assert_eq!(moved.argument_of_perigee, orbit.argument_of_perigee);
    assert_eq!(moved.epoch, orbit.epoch);
}

#[test]
fn ellipse_semi_axes() {
    // e = 0.6: semi-minor = a * sqrt(1 - 0.36) = 0.8 a
    let orbit = SatelliteOrbit::new(10_000_000, 600_000, 0, 0, 0, 0, 0);
    let geometry = orbit.ellipse_geometry(1_000_000);
    assert_eq!(geometry.semi_major, 10_000_000_000);
    assert_eq!(geometry.semi_minor, 8_000_000_000);
    assert_eq!(geometry.offset_length, 6_000_000_000);
}

#[test]
fn translation_stays_in_plane_for_flat_orbit() {
    let orbit = SatelliteOrbit::new(6_771_000, 1_000, 0, 120_000_000, 80_000_000, 30_000_000, 0);
    let pose = orbit.to_translation_and_rotation();
    assert_eq!(pose.position.z, 0);
    // the in-plane radius is close to a (1 - e^2) / (1 + e cos nu)
    let x = pose.position.x as f64;
    let y = pose.position.y as f64;
    let radius_mm = (x * x + y * y).sqrt();
    let a_mm = 6_771_000_000.0f64;
    let e = 0.001f64;
    let nu = 30.0f64.to_radians();
    let expected = a_mm * (1.0 - e * e) / (1.0 + e * nu.cos());
    assert!(
        (radius_mm - expected).abs() / expected < 1e-4,
        "radius {radius_mm} expected {expected}"
    );
}

#[test]
fn translation_matches_canonical_rotation() {
    let orbit = iss_like_orbit();
    let pose = orbit.to_translation_and_rotation();
    // float reference: canonical perifocal-to-inertial rotation
    let a_km = 6771.0f64;
    let e = 0.001f64;
    let nu = 0.0f64;
    let r = a_km * (1.0 - e * e) / (1.0 + e * nu.cos());
    let (x_pqw, y_pqw) = (r * nu.cos(), r * nu.sin());
    let (so, co) = 120.0f64.to_radians().sin_cos();
    let (si, ci) = 51.6f64.to_radians().sin_cos();
    let (sw, cw) = 80.0f64.to_radians().sin_cos();
    let expected_km = [
        (co * cw - so * ci * sw) * x_pqw + (-co * sw - so * ci * cw) * y_pqw,
        (so * cw + co * ci * sw) * x_pqw + (-so * sw + co * ci * cw) * y_pqw,
        (si * sw) * x_pqw + (si * cw) * y_pqw,
    ];
    let got_km = [
        pose.position.x as f64 / 1e6,
        pose.position.y as f64 / 1e6,
        pose.position.z as f64 / 1e6,
    ];
    for (g, e) in got_km.iter().zip(expected_km.iter()) {
        assert!((g - e).abs() < 1.0, "got {g} expected {e}");
    }
}

#[test]
fn right_ascension_vector_lies_in_reference_plane() {
    let orbit = iss_like_orbit();
    let v = orbit.get_right_ascention_vector();
    assert_eq!(v.z, 0);
    let x = v.x as f64 / 1e9;
    let y = v.y as f64 / 1e9;
    assert!((x - 120.0f64.to_radians().cos()).abs() < 1e-6);
    assert!((y - 120.0f64.to_radians().sin()).abs() < 1e-6);
}

/// The float reference for the composed perifocal-to-inertial rotation.
fn canonical_rotation(raan_deg: f64, incl_deg: f64, argp_deg: f64) -> [[f64; 3]; 3] {
    let (so, co) = raan_deg.to_radians().sin_cos();
    let (si, ci) = incl_deg.to_radians().sin_cos();
    let (sw, cw) = argp_deg.to_radians().sin_cos();
    [
        [co * cw - so * ci * sw, -co * sw - so * ci * cw, so * si],
        [so * cw + co * ci * sw, -so * sw + co * ci * cw, -co * si],
        [si * sw, si * cw, ci],
    ]
}

#[test]
fn orientation_columns_match_canonical_rotation() {
    let orbit = iss_like_orbit();
    let (col_x, col_y, col_z) = orbit.ellipse_orientation();
    let m = canonical_rotation(120.0, 51.6, 80.0);
    let got = [
        [col_x.x, col_x.y, col_x.z],
        [col_y.x, col_y.y, col_y.z],
        [col_z.x, col_z.y, col_z.z],
    ];
    for col in 0..3 {
        for row in 0..3 {
            let g = got[col][row] as f64 / 1e9;
            let e = m[row][col];
            assert!((g - e).abs() < 1e-6, "entry ({row},{col}): got {g}, expected {e}");
        }
    }
}

#[test]
fn eccentricity_vector_is_rotated_up_axis() {
    let orbit = iss_like_orbit();
    let v = orbit.get_encentricity_vector();
    let m = canonical_rotation(120.0, 51.6, 80.0);
    let got = [v.x as f64 / 1e9, v.y as f64 / 1e9, v.z as f64 / 1e9];
    for row in 0..3 {
        assert!((got[row] - m[row][1]).abs() < 1e-6);
    }
    let length = (got[0] * got[0] + got[1] * got[1] + got[2] * got[2]).sqrt();
    assert!((length - 1.0).abs() < 1e-6);
}

#[test]
fn zero_elapsed_time_round_trips_the_anomaly() {
    // the nu -> M -> E -> nu chain returns close to where it started
    for ta in [0i64, 45_000_000, 120_000_000, -90_000_000, 179_000_000] {
        let mut orbit = iss_like_orbit();
        orbit.true_anomaly = ta;
        let moved = orbit.propagate(0);
        assert!(
            angle_distance(moved.true_anomaly, ta) <= 1_000,
            "anomaly {ta} came back as {}",
            moved.true_anomaly
        );
    }
}

#[test]
fn propagation_composes_over_elapsed_time() {
    // advancing by dt1 then dt2 lands where advancing by dt1 + dt2 does
    let orbit = iss_like_orbit();
    let period = orbit.orbital_period() as i64;
    let (dt1, dt2) = (period / 5, period / 7);
    let stepped = orbit.propagate(dt1).propagate(dt2);
    let direct = orbit.propagate(dt1 + dt2);
    assert!(
        angle_distance(stepped.true_anomaly, direct.true_anomaly) <= 2_000,
        "stepped {} vs direct {}",
        stepped.true_anomaly,
        direct.true_anomaly
    );
}
