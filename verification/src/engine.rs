//! The batch propagation scheduler: a repeating real-time timer gates each
//! tick; when it fires, every tracked body's accumulated simulated time
//! grows by the configured step and the bodies are partitioned into
//! fixed-size batches for the high-fidelity propagator.  Drained batch
//! results are applied back to the bodies, stale identifiers silently
//! ignored.

use vstd::prelude::*;
use vstd::pervasive::VecAdditionalExecFns;
use crate::batch::{BatchEntry, Propagate, PredictionEntry, Propageted, partition_batches, spec_min};
use crate::elements::{ElementRecord, SatelliteOrbit, ConversionError};
use crate::interp::{
    Vec3Fix, PropagationStatus, status_velocity_bounded, apply_prediction, scaled_translation,
    MAX_VELOCITY_MM_S, MAX_POSITION_MM, MAX_SCALE_MICRO, MAX_SPEED_MICRO, MAX_TRANSLATION,
};

verus! {

/// Largest admissible real-time propagation interval, in milliseconds.
pub const MAX_INTERVAL_MS: u64 = 1_000_000_000;

/// Largest admissible real-time delta handed to one timer tick, in ms.
pub const MAX_TICK_MS: u64 = 1_000_000_000_000;

/// The simulated elapsed time of the one-time initial propagation that runs
/// right after a load completes, in milli-minutes (0.01 minutes).
pub const INITIAL_PROPAGATION_MINUTES_MILLI: u64 = 10;

/// How the batch propagation scheduler is configured.
#[derive(Clone, Copy, Debug, PartialEq, Eq, Structural)]
pub struct PropagationSettings {
    /// Real-world interval between high-fidelity dispatches, in ms.
    pub real_time_interval: u64,
    /// How many bodies one background work unit propagates.
    pub batch_size: usize,
}

/// Global engine configuration supplied by the surrounding application.
#[derive(Clone, Copy, Debug, PartialEq, Eq, Structural)]
pub struct InGameSettings {
    /// Unit scale factor, in micro-world-units per kilometer.
    pub scale: u64,
    /// Simulation speed multiplier, in micro-units.
    pub simulation_speed: u64,
    pub propagation: PropagationSettings,
}

impl InGameSettings {
    /// Admissible configuration: a positive interval and batch size, and
    /// scale and speed within the fixed-point ranges.
    pub open spec fn wf(&self) -> bool {
        &&& 1 <= self.propagation.real_time_interval <= MAX_INTERVAL_MS
        &&& 1 <= self.propagation.batch_size
        &&& self.scale <= MAX_SCALE_MICRO
        &&& self.simulation_speed <= MAX_SPEED_MICRO
    }
}

/// The repeating timer that gates high-fidelity dispatches.
#[derive(Clone, Copy, Debug, PartialEq, Eq, Structural)]
pub struct PropagationTimer {
    /// The configured real-world interval, in milliseconds.
    pub interval_ms: u64,
    /// Real time elapsed since the timer last fired, in milliseconds.
    pub elapsed_ms: u64,
}

impl PropagationTimer {
    /// The elapsed time never reaches the interval between ticks.
    pub open spec fn wf(&self) -> bool {
        &&& 1 <= self.interval_ms <= MAX_INTERVAL_MS
        &&& self.elapsed_ms < self.interval_ms
    }

    /// A fresh timer that will first fire once the configured interval has
    /// elapsed.
    pub fn setup_propagation_timer(settings: &InGameSettings) -> (r: PropagationTimer)
        requires
            settings.wf(),
        ensures
            r == (PropagationTimer {
                interval_ms: settings.propagation.real_time_interval,
                elapsed_ms: 0,
            }),
            r.wf(),
    {
        PropagationTimer { interval_ms: settings.propagation.real_time_interval, elapsed_ms: 0 }
    }

    /// Advances the timer by a real-time delta.  The timer fires exactly
    /// when the accumulated time reaches the interval; it is repeating, so
    /// on firing the remainder beyond the last whole interval is kept.
    pub fn tick(&mut self, delta_ms: u64) -> (fired: bool)
        requires
            old(self).wf(),
            delta_ms <= MAX_TICK_MS,
        ensures
            final(self).interval_ms == old(self).interval_ms,
            fired <==> old(self).elapsed_ms + delta_ms >= old(self).interval_ms,
            fired ==> final(self).elapsed_ms
                == (old(self).elapsed_ms + delta_ms) % (old(self).interval_ms as int),
            !fired ==> final(self).elapsed_ms == old(self).elapsed_ms + delta_ms,
            final(self).wf(),
    {
        let total: u64 = self.elapsed_ms + delta_ms;
        if total >= self.interval_ms {
            self.elapsed_ms = total % self.interval_ms;
            true
        } else {
            self.elapsed_ms = total;
            false
        }
    }
}

/// The simulated time one fired tick adds to every body, in milliseconds:
/// the real-time interval stretched by the simulation speed multiplier.
pub open spec fn simulated_step_ms(interval_ms: int, speed_micro: int) -> int {
    interval_ms * speed_micro / 1_000_000
}

/// Computes the simulated step of one fired tick, exactly.
pub fn simulated_step(settings: &InGameSettings) -> (r: u64)
    requires
        settings.wf(),
    ensures
        r == simulated_step_ms(
            settings.propagation.real_time_interval as int,
            settings.simulation_speed as int,
        ),
        r <= 10_000_000_000_000,
{
    proof {
        assert(settings.propagation.real_time_interval * settings.simulation_speed
            <= 1_000_000_000 * 10_000_000_000) by (nonlinear_arith)
            requires
                0 <= settings.propagation.real_time_interval <= 1_000_000_000,
                0 <= settings.simulation_speed <= 10_000_000_000;
    }
    let product: u128 =
        (settings.propagation.real_time_interval as u128) * (settings.simulation_speed as u128);
    (product / 1_000_000) as u64
}

/// One tracked body: the element set materialized from its raw record, its
/// accumulated simulated time since the element epoch, its propagation
/// state and its rendered translation.  The raw record itself stays with
/// the loading boundary that owns the external element source.
#[derive(Clone, Copy, Debug, PartialEq, Eq, Structural)]
pub struct PropagatableSattelite {
    /// The engine-assigned identifier results are keyed by.
    pub id: u64,
    /// The element set derived from the body's raw record.
    pub orbit: SatelliteOrbit,
    /// Accumulated simulated time, in milliseconds.
    pub dt_acc: u64,
    pub status: PropagationStatus,
    pub translation: Vec3Fix,
}

/// The body materialized from an admissible record carries the element set
/// derived from it — the semi-major axis from the record's mean motion by
/// Kepler's third law, the shape angles copied, the true anomaly and epoch
/// reset — along with a fresh inert propagation state and a zero
/// accumulated duration.
pub open spec fn body_matches_record(b: PropagatableSattelite, rec: ElementRecord, id: u64) -> bool {
    &&& b.id == id
    &&& crate::num::is_cbrt_floor(
        crate::elements::sma_cube_target(rec.mean_motion as int),
        b.orbit.semi_major_axis as int,
    )
    &&& b.orbit.eccentricity == rec.eccentricity
    &&& b.orbit.inclination == rec.inclination
    &&& b.orbit.raan == rec.right_ascension
    &&& b.orbit.argument_of_perigee == rec.argument_of_perigee
    &&& b.orbit.true_anomaly == 0
    &&& b.orbit.epoch == 0
    &&& b.orbit.wf()
    &&& b.dt_acc == 0
    &&& b.status == PropagationStatus::NotPropagated
    &&& b.translation == (Vec3Fix { x: 0, y: 0, z: 0 })
}

impl PropagatableSattelite {
    /// A body's state is admissible when its orbit is well-formed and its
    /// kinematic state lies within the fixed-point ranges.
    pub open spec fn wf(&self) -> bool {
        &&& self.orbit.wf()
        &&& self.translation.bounded(MAX_TRANSLATION as int)
        &&& status_velocity_bounded(self.status, MAX_VELOCITY_MM_S as int)
    }

    /// Materializes one body from a raw record: the orbit is derived from
    /// the record, the propagation state starts inert and the accumulated
    /// duration at zero.  Fails exactly when the record is not admissible.
    pub fn new(id: u64, elements: &ElementRecord) -> (r: Result<PropagatableSattelite, ConversionError>)
        ensures
            r is Ok <==> elements.valid(),
            r is Ok ==> body_matches_record(r->Ok_0, *elements, id) && r->Ok_0.wf(),
    {
        let orbit: SatelliteOrbit = match SatelliteOrbit::from_record(elements) {
            Ok(orbit) => orbit,
            Err(e) => {
                return Err(e);
            },
        };
        Ok(PropagatableSattelite {
            id,
            orbit,
            dt_acc: 0,
            status: PropagationStatus::NotPropagated,
            translation: Vec3Fix::zero(),
        })
    }
}

/// `dt_acc` grown by `step`, saturating at the integer limit so a body that
/// is tracked forever keeps a defined accumulated duration.
pub open spec fn accumulated(acc: int, step: int) -> int {
    if acc + step > u64::MAX { u64::MAX as int } else { acc + step }
}

/// The body after one fired tick: only the accumulated duration changes.
pub open spec fn body_accumulated(b: PropagatableSattelite, step: int) -> PropagatableSattelite {
    PropagatableSattelite { dt_acc: accumulated(b.dt_acc as int, step) as u64, ..b }
}

/// A body's accumulated duration increases monotonically between
/// successful high-fidelity predictions: a fired tick never shrinks it,
/// and applying a drained result never touches it at all.
pub proof fn lemma_accumulated_duration_monotonic(
    b: PropagatableSattelite,
    step: int,
    entries: Seq<PredictionEntry>,
    scale: int,
)
    requires
        0 <= step,
    ensures
        body_accumulated(b, step).dt_acc >= b.dt_acc,
        body_after_batch(b, entries, scale).dt_acc == b.dt_acc,
{
}

/// The propagation-request entry for a body: its identifier and its total
/// accumulated simulated time converted to milli-minutes.
pub open spec fn batch_entry_of(b: PropagatableSattelite) -> BatchEntry {
    BatchEntry { id: b.id, minutes_milli: (b.dt_acc as int / 60) as u64 }
}

/// One gated scheduler tick.  The timer advances by the real-time delta;
/// when it does not fire, nothing else happens.  When it fires, every
/// tracked body's accumulated duration grows by the simulated step, and the
/// bodies are partitioned, in stable order, into batches of the configured
/// size, each batch carrying every member's identifier and total
/// accumulated milli-minutes.
pub fn trigger_propagation(
    bodies: &mut Vec<PropagatableSattelite>,
    timer: &mut PropagationTimer,
    delta_ms: u64,
    settings: &InGameSettings,
) -> (r: Vec<Propagate>)
    requires
        settings.wf(),
        old(timer).wf(),
        delta_ms <= MAX_TICK_MS,
    ensures
        final(timer).wf(),
        final(timer).interval_ms == old(timer).interval_ms,
        ({
            let fired = old(timer).elapsed_ms + delta_ms >= old(timer).interval_ms;
            let step = simulated_step_ms(
                settings.propagation.real_time_interval as int,
                settings.simulation_speed as int,
            );
            let after = old(bodies)@.map_values(|b: PropagatableSattelite| body_accumulated(b, step));
            let entries = after.map_values(|b: PropagatableSattelite| batch_entry_of(b));
            &&& (!fired ==> final(bodies)@ == old(bodies)@ && r@.len() == 0)
            &&& (fired ==> {
                &&& final(bodies)@ == after
                &&& r@.len() == (entries.len() + settings.propagation.batch_size - 1) as int
                    / settings.propagation.batch_size as int
                &&& forall|i: int| 0 <= i < r@.len() ==> #[trigger] r@[i].data@ == entries.subrange(
                    i * settings.propagation.batch_size,
                    spec_min((i + 1) * settings.propagation.batch_size, entries.len() as int),
                )
            })
        }),
{
    let fired: bool = timer.tick(delta_ms);
    if !fired {
        return Vec::new();
    }
    let step: u64 = simulated_step(settings);
    let ghost step_i = step as int;
    let n: usize = bodies.len();
    let mut entries: Vec<BatchEntry> = Vec::new();
    let mut i: usize = 0;
    while i < n
        invariant
            i <= n,
            n == old(bodies)@.len(),
            bodies@.len() == n,
            step_i == step as int,
            forall|k: int| 0 <= k < i ==> bodies@[k]
                == #[trigger] body_accumulated(old(bodies)@[k], step_i),
            forall|k: int| i <= k < n ==> bodies@[k] == #[trigger] old(bodies)@[k],
            entries@.len() == i,
            forall|k: int| 0 <= k < i ==> entries@[k] == #[trigger] batch_entry_of(bodies@[k]),
        decreases n - i,
    {
        let body = &bodies[i];
        let new_acc: u64 = if body.dt_acc > u64::MAX - step {
            u64::MAX
        } else {
            body.dt_acc + step
        };
        let updated = PropagatableSattelite { dt_acc: new_acc, ..bodies[i] };
        proof {
            assert(updated == body_accumulated(old(bodies)@[i as int], step_i));
        }
        entries.push(BatchEntry { id: updated.id, minutes_milli: updated.dt_acc / 60 });
        bodies.set(i, updated);
        i += 1;
    }
    let r: Vec<Propagate> = partition_batches(&entries, settings.propagation.batch_size);
    proof {
        let after = old(bodies)@.map_values(|b: PropagatableSattelite| body_accumulated(b, step_i));
        assert(bodies@ =~= after);
        assert(entries@ =~= after.map_values(|b: PropagatableSattelite| batch_entry_of(b)));
    }
    r
}

/// The one-time propagation request issued right after a load completes:
/// one batch holding every newly loaded body with a fixed small elapsed
/// time, so new bodies get a first position before the next timer tick.
pub fn post_loadup_request(ids: &Vec<u64>) -> (r: Propagate)
    ensures
        r.data@.len() == ids@.len(),
        forall|i: int| 0 <= i < ids@.len() ==> r.data@[i] == (BatchEntry {
            id: ids@[i],
            minutes_milli: INITIAL_PROPAGATION_MINUTES_MILLI,
        }),
{
    let mut data: Vec<BatchEntry> = Vec::new();
    let n: usize = ids.len();
    let mut i: usize = 0;
    while i < n
        invariant
            i <= n,
            n == ids@.len(),
            data@.len() == i,
            forall|k: int| 0 <= k < i ==> data@[k] == (BatchEntry {
                id: ids@[k],
                minutes_milli: INITIAL_PROPAGATION_MINUTES_MILLI,
            }),
        decreases n - i,
    {
        data.push(BatchEntry { id: ids[i], minutes_milli: INITIAL_PROPAGATION_MINUTES_MILLI });
        i += 1;
    }
    Propagate { data }
}

/// The last prediction for `id` in a drained batch, if any: when one batch
/// carries several results for the same identifier, the later one wins,
/// matching in-order application.
pub open spec fn last_prediction_for(entries: Seq<PredictionEntry>, id: u64) -> Option<PredictionEntry>
    decreases entries.len(),
{
    if entries.len() == 0 {
        None
    } else if entries.last().id == id {
        Some(entries.last())
    } else {
        last_prediction_for(entries.drop_last(), id)
    }
}

/// Any prediction that `last_prediction_for` returns is one of the batch's
/// entries.
proof fn lemma_last_prediction_in(entries: Seq<PredictionEntry>, id: u64)
    ensures
        last_prediction_for(entries, id) matches Some(e)
            ==> exists|i: int| 0 <= i < entries.len() && entries[i] == e,
    decreases entries.len(),
{
    if entries.len() > 0 && entries.last().id != id {
        lemma_last_prediction_in(entries.drop_last(), id);
        if last_prediction_for(entries, id) is Some {
            let e = last_prediction_for(entries, id)->0;
            let i = choose|i: int|
                0 <= i < entries.drop_last().len() && entries.drop_last()[i] == e;
            assert(entries[i] == e);
        }
    }
}

/// The body after one drained batch is applied to it: unchanged when the
/// batch holds no result for its identifier, else snapped to the last
/// matching prediction with the one-shot flag set.
pub open spec fn body_after_batch(
    b: PropagatableSattelite,
    entries: Seq<PredictionEntry>,
    scale: int,
) -> PropagatableSattelite {
    match last_prediction_for(entries, b.id) {
        None => b,
        Some(e) => PropagatableSattelite {
            status: PropagationStatus::Propagated {
                velocity: e.prediction.velocity,
                position: e.prediction.position,
                just_propagated: true,
            },
            translation: scaled_translation(e.prediction.position, scale),
            ..b
        },
    }
}

/// Every prediction's position and velocity lie within the fixed-point
/// ranges.
pub open spec fn predictions_bounded(entries: Seq<PredictionEntry>) -> bool {
    forall|i: int| 0 <= i < entries.len() ==> {
        &&& (#[trigger] entries[i]).prediction.position.bounded(MAX_POSITION_MM as int)
        &&& entries[i].prediction.velocity.bounded(MAX_VELOCITY_MM_S as int)
    }
}

/// Applies one drained batch result to the tracked bodies: each body with a
/// matching prediction snaps its translation to the scaled predicted
/// position and records the prediction with its one-shot flag set; bodies
/// without a match, and predictions whose identifier no longer exists
/// (stale results), are silently left alone.
pub fn adjust_translations_on_propagation(
    bodies: &mut Vec<PropagatableSattelite>,
    propagated: &Propageted,
    scale: u64,
)
    requires
        scale <= MAX_SCALE_MICRO,
        predictions_bounded(propagated.data@),
    ensures
        final(bodies)@.len() == old(bodies)@.len(),
        forall|i: int| 0 <= i < old(bodies)@.len() ==> final(bodies)@[i]
            == #[trigger] body_after_batch(old(bodies)@[i], propagated.data@, scale as int),
{
    let n: usize = bodies.len();
    let mut i: usize = 0;
    while i < n
        invariant
            i <= n,
            n == old(bodies)@.len(),
            bodies@.len() == n,
            scale <= MAX_SCALE_MICRO,
            predictions_bounded(propagated.data@),
            forall|k: int| 0 <= k < i ==> bodies@[k]
                == #[trigger] body_after_batch(old(bodies)@[k], propagated.data@, scale as int),
            forall|k: int| i <= k < n ==> bodies@[k] == #[trigger] old(bodies)@[k],
        decreases n - i,
    {
        match find_last_prediction(&propagated.data, bodies[i].id) {
            None => {},
            Some(e) => {
                proof {
                    lemma_last_prediction_in(propagated.data@, bodies@[i as int].id);
                    let w = choose|k: int|
                        0 <= k < propagated.data@.len() && propagated.data@[k] == e;
                    assert(propagated.data@[w].prediction.position.bounded(MAX_POSITION_MM as int));
                    assert(propagated.data@[w].prediction.velocity.bounded(
                        MAX_VELOCITY_MM_S as int,
                    ));
                }
                let mut status = bodies[i].status;
                let mut translation = bodies[i].translation;
                apply_prediction(
                    &mut status,
                    &mut translation,
                    e.prediction.position,
                    e.prediction.velocity,
                    scale,
                );
                let updated = PropagatableSattelite { status, translation, ..bodies[i] };
                bodies.set(i, updated);
            },
        }
        i += 1;
    }
}

/// Finds the last prediction for `id` in a batch, scanning from the end.
fn find_last_prediction(entries: &Vec<PredictionEntry>, id: u64) -> (r: Option<PredictionEntry>)
    ensures
        r == last_prediction_for(entries@, id),
{
    let mut j: usize = entries.len();
    proof {
        assert(entries@.subrange(0, entries@.len() as int) =~= entries@);
    }
    while j > 0
        invariant
            j <= entries@.len(),
            last_prediction_for(entries@, id)
                == last_prediction_for(entries@.subrange(0, j as int), id),
        decreases j,
    {
        j -= 1;
        let e = entries[j];
        proof {
            assert(entries@.subrange(0, j + 1).last() == entries@[j as int]);
            assert(entries@.subrange(0, j + 1).drop_last() =~= entries@.subrange(0, j as int));
        }
        if e.id == id {
            return Some(e);
        }
    }
    proof {
        assert(entries@.subrange(0, 0) =~= Seq::<PredictionEntry>::empty());
    }
    None
}

} // verus!
