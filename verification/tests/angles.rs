use orbit_engine::angles::{
    atan2_nanorad, micro_deg_to_nanorad, nanorad_to_micro_deg, normalize_nanorad, sin_cos_nanorad,
    HALF_PI_NANO, PI_NANO, TWO_PI_NANO,
};

#[test]
fn degree_conversions_are_near_inverse() {
    for deg in [0i64, 1_000_000, 45_000_000, 90_000_000, 179_999_999, -123_456_789, 360_000_000] {
        let nano = micro_deg_to_nanorad(deg);
        let back = nanorad_to_micro_deg(nano);
        assert!((back - deg).abs() <= 1, "{deg} -> {nano} -> {back}");
    }
    assert_eq!(micro_deg_to_nanorad(0), 0);
    // 90 degrees is pi/2 radians
    assert!((micro_deg_to_nanorad(90_000_000) - HALF_PI_NANO).abs() <= 2);
    assert!((micro_deg_to_nanorad(-180_000_000) + PI_NANO).abs() <= 2);
}

#[test]
fn normalization_wraps_by_whole_turns() {
    assert_eq!(normalize_nanorad(0), 0);
    assert_eq!(normalize_nanorad(TWO_PI_NANO), 0);
    assert_eq!(normalize_nanorad(TWO_PI_NANO + 7), 7);
    assert_eq!(normalize_nanorad(-1), TWO_PI_NANO - 1);
    assert_eq!(normalize_nanorad(-TWO_PI_NANO - 5), TWO_PI_NANO - 5);
}

#[test]
fn sine_and_cosine_match_float_reference() {
    for step in 0..32i64 {
        let x = step * TWO_PI_NANO / 32;
        let (s, c) = sin_cos_nanorad(x);
        let xf = x as f64 / 1e9;
        assert!((s as f64 / 1e9 - xf.sin()).abs() < 1e-5, "sin at {xf}");
        assert!((c as f64 / 1e9 - xf.cos()).abs() < 1e-5, "cos at {xf}");
    }
    assert_eq!(sin_cos_nanorad(0), (0, 1_000_000_000));
}

#[test]
fn atan2_matches_float_reference() {
    let cases: [(i64, i64); 8] = [
        (0, 1_000),
        (1_000, 1_000),
        (1_000, 0),
        (1_000, -1_000),
        (0, -1_000),
        (-1_000, -1_000),
        (-1_000, 0),
        (-1_000, 1_000),
    ];
    for (y, x) in cases {
        let got = atan2_nanorad(y, x) as f64 / 1e9;
        let expected = (y as f64).atan2(x as f64);
        let direct = (got - expected).abs();
        // the branch cut at pi may land on either sign
        let wrapped = (direct - 2.0 * std::f64::consts::PI).abs();
        let diff = direct.min(wrapped);
        assert!(diff < 1e-5, "atan2({y}, {x}) = {got}, expected {expected}");
    }
}
