use orbit_engine::elements::{Classification, ConversionError, ElementRecord, SatelliteOrbit};
use orbit_engine::loader::{
    execute_elements_loading, unwrap_or_empty, ConstFileClient, DefaultClient, LoadError,
};
use orbit_engine::num::isqrt;
use orbit_engine::num::icbrt;

fn record(norad_id: u64) -> ElementRecord {
    ElementRecord {
        object_name: Some("GSAT0101".to_string()),
        international_designator: None,
        norad_id,
        classification: Classification::Unclassified,
        epoch_micros: 1_700_000_000_000_000,
        mean_motion: 1_700_000,
        eccentricity: 1_000,
        inclination: 56_000_000,
        right_ascension: 120_000_000,
        argument_of_perigee: 80_000_000,
        mean_anomaly: 0,
    }
}

#[test]
fn integer_roots_are_exact() {
    assert_eq!(isqrt(0), 0);
    assert_eq!(isqrt(15), 3);
    assert_eq!(isqrt(16), 4);
    assert_eq!(isqrt(u64::MAX as u128 * u64::MAX as u128), u64::MAX as u128);
    assert_eq!(icbrt(0), 0);
    assert_eq!(icbrt(26), 2);
    assert_eq!(icbrt(27), 3);
    assert_eq!(icbrt(1_000_000_000_000_000_000), 1_000_000);
}

#[test]
fn classification_labels() {
    assert_eq!(Classification::Unclassified.label(), 'U');
    assert_eq!(Classification::Classified.label(), 'C');
    assert_eq!(Classification::Secret.label(), 'S');
    assert_eq!(Classification::from_label('U'), Some(Classification::Unclassified));
    assert_eq!(Classification::from_label('C'), Some(Classification::Classified));
    assert_eq!(Classification::from_label('S'), Some(Classification::Secret));
    assert_eq!(Classification::from_label('X'), None);
}

#[test]
fn record_conversion_resets_dynamic_state() {
    let orbit = SatelliteOrbit::from_record(&record(1)).unwrap();
    assert_eq!(orbit.semi_major_axis, 29_655_330);
    assert_eq!(orbit.eccentricity, 1_000);
    assert_eq!(orbit.inclination, 56_000_000);
    assert_eq!(orbit.raan, 120_000_000);
    assert_eq!(orbit.argument_of_perigee, 80_000_000);
    assert_eq!(orbit.true_anomaly, 0);
    assert_eq!(orbit.epoch, 0);
}

#[test]
fn record_conversion_rejects_bad_fields() {
    let mut zero_motion = record(1);
    zero_motion.mean_motion = 0;
    assert_eq!(
        SatelliteOrbit::from_record(&zero_motion).unwrap_err(),
        ConversionError::MeanMotionOutOfRange
    );

    let mut unbound = record(1);
    unbound.eccentricity = 1_000_000; // e = 1: not a bound orbit
    assert_eq!(
        SatelliteOrbit::from_record(&unbound).unwrap_err(),
        ConversionError::EccentricityOutOfRange
    );

    let mut wild_angle = record(1);
    wild_angle.inclination = 400_000_000;
    assert_eq!(
        SatelliteOrbit::from_record(&wild_angle).unwrap_err(),
        ConversionError::AngleOutOfRange
    );
}

#[test]
fn data_file_path_accepts_only_json() {
    let client = ConstFileClient::new("assets/".to_string());
    let path = client
        .data_file_path(&"galileo".to_string(), &"JSON".to_string())
        .unwrap();
    assert_eq!(path, "assets/data/galileo.json");
    // any other format fails loudly, lower-case included
    assert_eq!(
        client.data_file_path(&"galileo".to_string(), &"json".to_string()),
        Err(LoadError::UnsupportedFormat)
    );
    assert_eq!(
        client.data_file_path(&"galileo".to_string(), &"TLE".to_string()),
        Err(LoadError::UnsupportedFormat)
    );
}

#[test]
fn load_or_empty_swallows_failures() {
    let loaded = unwrap_or_empty(Ok(vec![record(1), record(2)]));
    assert_eq!(loaded.len(), 2);
    let empty = unwrap_or_empty(Err(LoadError::IO));
    assert!(empty.is_empty());
}

#[test]
fn cache_returns_newest_entry_per_key() {
    let mut client = DefaultClient::new();
    let group = "galileo".to_string();
    let format = "JSON".to_string();
    assert!(client.lookup(&group, &format).is_none());

    // the placeholder inserted before a request completes is visible
    client.store(group.clone(), format.clone(), vec![]);
    assert_eq!(client.lookup(&group, &format).unwrap().len(), 0);

    client.store(group.clone(), format.clone(), vec![record(1), record(2)]);
    assert_eq!(client.lookup(&group, &format).unwrap().len(), 2);

    // other keys are untouched
    assert!(client.lookup(&"starlink".to_string(), &format).is_none());
    assert!(client.lookup(&group, &"TLE".to_string()).is_none());
}

#[test]
fn record_conversion_boundary_values() {
    let mut slowest = record(1);
    slowest.mean_motion = 2;
    assert!(SatelliteOrbit::from_record(&slowest).is_ok());
    slowest.mean_motion = 1;
    assert_eq!(
        SatelliteOrbit::from_record(&slowest).unwrap_err(),
        ConversionError::MeanMotionOutOfRange
    );
    let mut nearly_unbound = record(1);
    nearly_unbound.eccentricity = 999_999;
    assert!(SatelliteOrbit::from_record(&nearly_unbound).is_ok());
}

#[test]
fn materialization_of_no_records() {
    let (bodies, loaded, next_id) = execute_elements_loading(vec![], 42);
    assert!(bodies.is_empty());
    assert!(loaded.entities.is_empty());
    assert!(loaded.data.is_empty());
    assert_eq!(next_id, 42);
}

#[test]
fn materialization_skips_inadmissible_records() {
    let mut bad = record(2);
    bad.eccentricity = 1_000_000;
    let records = vec![record(1), bad, record(3)];
    let (bodies, loaded, next_id) = execute_elements_loading(records, 5);
    assert_eq!(bodies.len(), 2);
    assert_eq!(loaded.entities, vec![5, 6]);
    assert_eq!(loaded.data.len(), 3);
    assert_eq!(next_id, 7);
    assert_eq!(bodies[0].id, 5);
    assert_eq!(bodies[0].orbit.semi_major_axis, 29_655_330);
    assert_eq!(bodies[0].dt_acc, 0);
    assert_eq!(bodies[1].id, 6);
    assert_eq!(bodies[1].orbit.raan, 120_000_000);
}
