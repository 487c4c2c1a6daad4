use orbit_engine::batch::{
    collect_batch, partition_batches, BatchEntry, PropagationError, PropagationResults,
};
use orbit_engine::elements::ElementRecord;
use orbit_engine::elements::Classification;
use orbit_engine::engine::{
    adjust_translations_on_propagation, post_loadup_request, trigger_propagation, InGameSettings,
    PropagatableSattelite, PropagationSettings, PropagationTimer,
};
use orbit_engine::batch::{PredictionEntry, Propageted};
use orbit_engine::interp::{
    apply_prediction, approximate_propagation, Prediction, PropagationStatus, Vec3Fix,
};

fn record(norad_id: u64, mean_motion: u64) -> ElementRecord {
    ElementRecord {
        object_name: Some(format!("SAT-{norad_id}")),
        international_designator: Some("2024-001A".to_string()),
        norad_id,
        classification: Classification::Unclassified,
        epoch_micros: 0,
        mean_motion,
        eccentricity: 1_000,
        inclination: 51_600_000,
        right_ascension: 120_000_000,
        argument_of_perigee: 80_000_000,
        mean_anomaly: 0,
    }
}

fn settings() -> InGameSettings {
    InGameSettings {
        scale: 10_000,                   // 0.01 world units per km
        simulation_speed: 1_000_000_000, // 1000x
        propagation: PropagationSettings { real_time_interval: 2_000, batch_size: 50 },
    }
}

fn entries(n: u64) -> Vec<BatchEntry> {
    (0..n).map(|id| BatchEntry { id, minutes_milli: 30_000 }).collect()
}

#[test]
fn batch_count_is_rounded_up() {
    // ceil(N / 50) batches, every identifier in exactly one batch
    for n in [0u64, 1, 49, 50, 51, 120, 250] {
        let input = entries(n);
        let batches = partition_batches(&input, 50);
        let expected = ((n as usize) + 49) / 50;
        assert_eq!(batches.len(), expected, "N = {n}");
        let mut seen: Vec<u64> = batches.iter().flat_map(|b| b.data.iter().map(|e| e.id)).collect();
        assert_eq!(seen.len(), n as usize);
        seen.sort();
        seen.dedup();
        assert_eq!(seen.len(), n as usize);
        for batch in &batches {
            assert!(batch.data.len() <= 50);
            assert!(!batch.data.is_empty());
        }
    }
}

#[test]
fn batches_of_one() {
    let input = entries(3);
    let batches = partition_batches(&input, 1);
    assert_eq!(batches.len(), 3);
    for (i, batch) in batches.iter().enumerate() {
        assert_eq!(batch.data.len(), 1);
        assert_eq!(batch.data[0].id, i as u64);
    }
}

#[test]
fn batch_order_is_stable() {
    let input = entries(120);
    let batches = partition_batches(&input, 50);
    assert_eq!(batches.len(), 3);
    assert_eq!(batches[0].data.len(), 50);
    assert_eq!(batches[1].data.len(), 50);
    assert_eq!(batches[2].data.len(), 20);
    let flat: Vec<u64> = batches.iter().flat_map(|b| b.data.iter().map(|e| e.id)).collect();
    let expected: Vec<u64> = (0..120).collect();
    assert_eq!(flat, expected);
}

fn prediction(v: i64) -> Prediction {
    Prediction {
        position: Vec3Fix { x: v, y: 2 * v, z: -v },
        velocity: Vec3Fix { x: 1_000_000, y: 0, z: 0 },
    }
}

#[test]
fn collect_batch_all_or_nothing() {
    let ok = vec![(1u64, Ok(prediction(10))), (2, Ok(prediction(20)))];
    let collected = collect_batch(&ok).unwrap();
    assert_eq!(collected.data.len(), 2);
    assert_eq!(collected.data[0].id, 1);
    assert_eq!(collected.data[1].prediction, prediction(20));

    let failing = vec![
        (1u64, Ok(prediction(10))),
        (2, Err(PropagationError::Propagation(2))),
        (3, Err(PropagationError::Elements(3))),
    ];
    // the first failure wins and no partial results leak out
    assert_eq!(collect_batch(&failing).unwrap_err(), PropagationError::Propagation(2));
}

#[test]
fn failing_batch_leaves_other_batches_untouched() {
    // one failing entry drops its whole batch from the drained output,
    // while another batch completed in the same tick still succeeds
    let mut buffer = PropagationResults::new();
    let failing = vec![
        (1u64, Ok(prediction(10))),
        (2, Err(PropagationError::Propagation(2))),
    ];
    let succeeding = vec![(3u64, Ok(prediction(30))), (4, Ok(prediction(40)))];
    assert!(buffer.do_propagate(&failing).is_err());
    assert!(buffer.do_propagate(&succeeding).is_ok());
    let drained = buffer.send_predictions();
    assert_eq!(drained.len(), 1);
    assert_eq!(drained[0].data.len(), 2);
    assert_eq!(drained[0].data[0].id, 3);
    assert_eq!(drained[0].data[1].id, 4);
    // the drain empties the buffer
    assert!(buffer.send_predictions().is_empty());
}

#[test]
fn repeating_timer_keeps_remainder() {
    let mut timer = PropagationTimer::setup_propagation_timer(&settings());
    assert!(!timer.tick(1_999));
    assert!(timer.tick(1)); // 2000 ms reached
    assert_eq!(timer.elapsed_ms, 0);
    assert!(timer.tick(4_500)); // wraps twice, remainder 500
    assert_eq!(timer.elapsed_ms, 500);
    assert!(!timer.tick(100));
    assert_eq!(timer.elapsed_ms, 600);
}

fn bodies(n: u64) -> Vec<PropagatableSattelite> {
    (0..n).map(|id| PropagatableSattelite::new(id, &record(id, 1_700_000)).unwrap()).collect()
}

#[test]
fn trigger_accumulates_and_partitions() {
    let mut sats = bodies(3);
    let mut config = settings();
    config.propagation.batch_size = 2;
    let mut timer = PropagationTimer::setup_propagation_timer(&config);
    // a delta below the interval dispatches nothing
    let none = trigger_propagation(&mut sats, &mut timer, 1_000, &config);
    assert!(none.is_empty());
    assert_eq!(sats[0].dt_acc, 0);
    // reaching the interval accumulates 2000 ms * 1000x = 2_000_000 ms for
    // every body and dispatches ceil(3 / 2) = 2 batches
    let batches = trigger_propagation(&mut sats, &mut timer, 1_000, &config);
    assert_eq!(batches.len(), 2);
    for body in &sats {
        assert_eq!(body.dt_acc, 2_000_000);
    }
    // 2_000_000 ms accumulated = 33_333 milli-minutes
    assert_eq!(batches[0].data[0], BatchEntry { id: 0, minutes_milli: 33_333 });
    assert_eq!(batches[0].data[1].id, 1);
    assert_eq!(batches[1].data.len(), 1);
    assert_eq!(batches[1].data[0].id, 2);
}

#[test]
fn initial_propagation_request_covers_all_loaded_bodies() {
    let ids = vec![7u64, 9, 11];
    let request = post_loadup_request(&ids);
    assert_eq!(request.data.len(), 3);
    for (entry, id) in request.data.iter().zip(ids.iter()) {
        assert_eq!(entry.id, *id);
        assert_eq!(entry.minutes_milli, 10); // 0.01 minutes
    }
}

#[test]
fn dead_reckoning_consumes_one_shot_flag() {
    let mut status = PropagationStatus::NotPropagated;
    let mut translation = Vec3Fix { x: 5, y: 5, z: 5 };
    // an inert body never moves
    approximate_propagation(&mut status, &mut translation, 10_000, 1_000_000_000, 16);
    assert_eq!(translation, Vec3Fix { x: 5, y: 5, z: 5 });

    let position = Vec3Fix { x: 1_000_000_000, y: 0, z: 0 }; // 1000 km in mm
    let velocity = Vec3Fix { x: 1_000_000, y: -2_000_000, z: 0 }; // 1, -2 km/s
    apply_prediction(&mut status, &mut translation, position, velocity, 10_000);
    // translation snapped to position * scale / 1e6
    assert_eq!(translation, Vec3Fix { x: 10_000_000, y: 0, z: 0 });

    // the very next tick must not alter the position: it only consumes the flag
    let snapped = translation;
    approximate_propagation(&mut status, &mut translation, 10_000, 1_000_000_000, 16);
    assert_eq!(translation, snapped);
    match status {
        PropagationStatus::Propagated { just_propagated, .. } => assert!(!just_propagated),
        PropagationStatus::NotPropagated => panic!("status lost"),
    }

    // the tick after advances by velocity * scale * speed * dt / 1e15:
    // 1_000_000 * 10_000 * 1_000_000_000 * 16 / 1e15 = 160_000
    approximate_propagation(&mut status, &mut translation, 10_000, 1_000_000_000, 16);
    assert_eq!(translation, Vec3Fix { x: 10_160_000, y: -320_000, z: 0 });
}

#[test]
fn stale_results_are_ignored() {
    let mut sats = bodies(2);
    let batch = Propageted {
        data: vec![
            PredictionEntry { id: 1, prediction: prediction(1_000_000) },
            PredictionEntry { id: 99, prediction: prediction(77) }, // removed body
        ],
    };
    adjust_translations_on_propagation(&mut sats, &batch, 10_000);
    // body 0 has no result and stays inert
    assert_eq!(sats[0].status, PropagationStatus::NotPropagated);
    assert_eq!(sats[0].translation, Vec3Fix { x: 0, y: 0, z: 0 });
    // body 1 snapped to its prediction
    assert_eq!(sats[1].translation, Vec3Fix { x: 10_000, y: 20_000, z: -10_000 });
    match sats[1].status {
        PropagationStatus::Propagated { just_propagated, position, .. } => {
            assert!(just_propagated);
            assert_eq!(position, Vec3Fix { x: 1_000_000, y: 2_000_000, z: -1_000_000 });
        },
        PropagationStatus::NotPropagated => panic!("prediction not applied"),
    }
    // accumulated duration is untouched by result application
    assert_eq!(sats[1].dt_acc, 0);
}

#[test]
fn later_prediction_for_same_body_wins() {
    let mut sats = bodies(1);
    let batch = Propageted {
        data: vec![
            PredictionEntry { id: 0, prediction: prediction(100) },
            PredictionEntry { id: 0, prediction: prediction(200) },
        ],
    };
    adjust_translations_on_propagation(&mut sats, &batch, 1_000_000);
    assert_eq!(sats[0].translation.x, 200);
}
