//! Batch propagation plumbing: partitioning tracked bodies into fixed-size
//! work units, collecting per-entry outcomes of the high-fidelity
//! propagator all-or-nothing, and the shared result buffer drained once per
//! tick.

use vstd::prelude::*;
use crate::interp::Prediction;

verus! {

/// One entry of a propagation request: the body's identifier and its total
/// accumulated simulated time, in milli-minutes since its element epoch.
#[derive(Clone, Copy, Debug, PartialEq, Eq, Structural)]
pub struct BatchEntry {
    pub id: u64,
    pub minutes_milli: u64,
}

/// A propagation request: one fixed-size batch of entries dispatched as one
/// independent background unit of work.
#[derive(Clone, Debug)]
pub struct Propagate {
    pub data: Vec<BatchEntry>,
}

/// One body's prediction as produced by a completed batch.
#[derive(Clone, Copy, Debug, PartialEq, Eq, Structural)]
pub struct PredictionEntry {
    pub id: u64,
    pub prediction: Prediction,
}

/// A completed batch's results, drained together.
#[derive(Clone, Debug)]
pub struct Propageted {
    pub data: Vec<PredictionEntry>,
}

/// Why the high-fidelity propagator rejected a batch entry; the payload is
/// the failing body's identifier.
#[derive(Clone, Copy, Debug, PartialEq, Eq, Structural)]
pub enum PropagationError {
    /// The element set could not be turned into a propagator model.
    Elements(u64),
    /// The model rejected the elapsed time (a degenerate or decayed orbit).
    Propagation(u64),
}

/// The smaller of two integers.
pub open spec fn spec_min(a: int, b: int) -> int {
    if a < b { a } else { b }
}

/// Partitions `entries` into batches of `batch_size` in stable order: batch
/// `i` holds exactly the entries from `i * batch_size` up to the next cut.
/// The number of batches is the length divided by the batch size, rounded
/// up, so every entry lands in exactly one batch.
pub fn partition_batches(entries: &Vec<BatchEntry>, batch_size: usize) -> (r: Vec<Propagate>)
    requires
        1 <= batch_size,
    ensures
        r@.len() == (entries@.len() + batch_size - 1) as int / batch_size as int,
        forall|i: int| 0 <= i < r@.len() ==> #[trigger] r@[i].data@ == entries@.subrange(
            i * batch_size,
            spec_min((i + 1) * batch_size, entries@.len() as int),
        ),
{
    let n: usize = entries.len();
    let mut r: Vec<Propagate> = Vec::new();
    let mut start: usize = 0;
    proof {
        assert(r@.len() * batch_size == 0) by (nonlinear_arith)
            requires r@.len() == 0;
    }
    while start < n
        invariant
            batch_size >= 1,
            n == entries@.len(),
            start <= n,
            start == r@.len() * batch_size || (start == n && r@.len() >= 1
                && (r@.len() - 1) * batch_size < n < r@.len() * batch_size),
            forall|i: int| 0 <= i < r@.len() ==> #[trigger] r@[i].data@ == entries@.subrange(
                i * batch_size,
                spec_min((i + 1) * batch_size, n as int),
            ),
        decreases n - start,
    {
        proof {
            assert(start == r@.len() * batch_size);
        }
        let end: usize = if n - start < batch_size {
            n
        } else {
            start + batch_size
        };
        let mut chunk: Vec<BatchEntry> = Vec::new();
        let mut j: usize = start;
        while j < end
            invariant
                start <= j <= end <= n,
                n == entries@.len(),
                chunk@ == entries@.subrange(start as int, j as int),
            decreases end - j,
        {
            chunk.push(entries[j]);
            proof {
                assert(chunk@ =~= entries@.subrange(start as int, j + 1));
            }
            j += 1;
        }
        let ghost k = r@.len() as int;
        r.push(Propagate { data: chunk });
        proof {
            assert((k + 1) * batch_size == k * batch_size + batch_size) by (nonlinear_arith);
            assert(end as int == spec_min((k + 1) * batch_size, n as int));
            assert(r@[k].data@ == entries@.subrange(
                k * batch_size,
                spec_min((k + 1) * batch_size, n as int),
            ));
            assert(forall|i: int| 0 <= i < r@.len() ==> #[trigger] r@[i].data@ == entries@.subrange(
                i * batch_size,
                spec_min((i + 1) * batch_size, n as int),
            ));
        }
        start = end;
    }
    proof {
        let len = r@.len() as int;
        let b = batch_size as int;
        let n_i = n as int;
        assert(start == n);
        if start as int == len * b {
            assert((n_i + b - 1) / b == len) by (nonlinear_arith)
                requires b >= 1, n_i == len * b, len >= 0;
        } else {
            assert((n_i + b - 1) / b == len) by (nonlinear_arith)
                requires b >= 1, len >= 1, (len - 1) * b < n_i < len * b;
        }
    }
    r
}

/// Every entry lands in exactly one batch: for any family of batches that
/// satisfies the partition characterization, entry `k` of the input is
/// entry `k % batch_size` of batch `k / batch_size` — and, the batches
/// being exact subranges, nothing else ever holds it.
pub proof fn lemma_partition_covers(
    entries: Seq<BatchEntry>,
    batches: Seq<Seq<BatchEntry>>,
    batch_size: int,
    k: int,
)
    requires
        batch_size >= 1,
        0 <= k < entries.len(),
        batches.len() == (entries.len() + batch_size - 1) / batch_size,
        forall|i: int| 0 <= i < batches.len() ==> #[trigger] batches[i] == entries.subrange(
            i * batch_size,
            spec_min((i + 1) * batch_size, entries.len() as int),
        ),
    ensures
        0 <= k / batch_size < batches.len(),
        batches[k / batch_size][k % batch_size] == entries[k],
{
    let n = entries.len() as int;
    let b = batch_size;
    let i = k / b;
    let r = k % b;
    vstd::arithmetic::div_mod::lemma_fundamental_div_mod(k, b);
    vstd::arithmetic::div_mod::lemma_mod_bound(k, b);
    vstd::arithmetic::div_mod::lemma_fundamental_div_mod(n + b - 1, b);
    vstd::arithmetic::div_mod::lemma_mod_bound(n + b - 1, b);
    assert(0 <= i) by (nonlinear_arith)
        requires k == b * i + r, 0 <= r < b, 0 <= k, b >= 1;
    let len = batches.len() as int;
    assert(b * len >= n) by (nonlinear_arith)
        requires
            n + b - 1 == b * len + (n + b - 1) % b,
            0 <= (n + b - 1) % b < b,
    ;
    assert(i < len) by (nonlinear_arith)
        requires
            k == b * i + r,
            0 <= r < b,
            k < n,
            b * len >= n,
            b >= 1,
            0 <= i,
    ;
    assert(batches[i] == entries.subrange(i * b, spec_min((i + 1) * b, n)));
    assert(i * b + r == k && (i + 1) * b == i * b + b) by (nonlinear_arith)
        requires k == b * i + r;
    assert(spec_min((i + 1) * b, n) > k);
    assert(batches[i][r] == entries.subrange(i * b, spec_min((i + 1) * b, n))[r]);
}

/// The index of the first entry whose outcome is an error, from `i` on;
/// the sequence length when every outcome from `i` on is a success.
pub open spec fn first_error_index(
    s: Seq<(u64, Result<Prediction, PropagationError>)>,
    i: int,
) -> int
    decreases s.len() - i,
{
    if i < 0 || i >= s.len() {
        s.len() as int
    } else if s[i].1 is Err {
        i
    } else {
        first_error_index(s, i + 1)
    }
}

proof fn lemma_first_error_prefix(
    s: Seq<(u64, Result<Prediction, PropagationError>)>,
    a: int,
    i: int,
)
    requires
        0 <= a <= i <= s.len(),
        forall|k: int| a <= k < i ==> !(#[trigger] s[k].1 is Err),
        i < s.len() ==> s[i].1 is Err,
    ensures
        first_error_index(s, a) == if i < s.len() { i } else { s.len() as int },
    decreases i - a,
{
    if a < i {
        lemma_first_error_prefix(s, a + 1, i);
    }
}

/// What collecting a batch's per-entry outcomes yields: every entry's
/// prediction when all succeeded, or the first failure.
pub open spec fn collected_batch(
    s: Seq<(u64, Result<Prediction, PropagationError>)>,
) -> Result<Seq<PredictionEntry>, PropagationError> {
    if first_error_index(s, 0) == s.len() {
        Ok(Seq::new(s.len(), |i: int| PredictionEntry { id: s[i].0, prediction: s[i].1->Ok_0 }))
    } else {
        Err(s[first_error_index(s, 0)].1->Err_0)
    }
}

/// Collects the per-entry outcomes of one dispatched batch, all or nothing:
/// the whole batch's predictions when every entry succeeded, else the first
/// failure — no partial batch results.
pub fn collect_batch(
    outcomes: &Vec<(u64, Result<Prediction, PropagationError>)>,
) -> (r: Result<Propageted, PropagationError>)
    ensures
        r is Ok <==> collected_batch(outcomes@) is Ok,
        r is Ok ==> r->Ok_0.data@ == collected_batch(outcomes@)->Ok_0,
        r is Err ==> r->Err_0 == collected_batch(outcomes@)->Err_0,
{
    let n: usize = outcomes.len();
    let mut data: Vec<PredictionEntry> = Vec::new();
    let mut i: usize = 0;
    while i < n
        invariant
            i <= n,
            n == outcomes@.len(),
            forall|k: int| 0 <= k < i ==> !(#[trigger] outcomes@[k].1 is Err),
            data@.len() == i,
            forall|k: int| 0 <= k < i ==> #[trigger] data@[k] == (PredictionEntry {
                id: outcomes@[k].0,
                prediction: outcomes@[k].1->Ok_0,
            }),
        decreases n - i,
    {
        let (id, outcome) = outcomes[i];
        match outcome {
            Ok(prediction) => {
                data.push(PredictionEntry { id, prediction });
            },
            Err(e) => {
                proof {
                    lemma_first_error_prefix(outcomes@, 0, i as int);
                }
                return Err(e);
            },
        }
        i += 1;
    }
    proof {
        lemma_first_error_prefix(outcomes@, 0, n as int);
        assert(data@ =~= collected_batch(outcomes@)->Ok_0);
    }
    Ok(Propageted { data })
}

/// The shared result buffer: completed batches push their results here and
/// one dedicated tick-loop step drains it, so results are never observed
/// mid-mutation.  The surrounding application is responsible for guarding
/// it with a mutual-exclusion lock when workers share it.
#[derive(Debug)]
pub struct PropagationResults {
    results: Vec<Propageted>,
}

/// The batch results held by a result buffer, each batch as the sequence of
/// its prediction entries.
pub closed spec fn buffered(b: &PropagationResults) -> Seq<Seq<PredictionEntry>> {
    b.results@.map_values(|p: Propageted| p.data@)
}

/// What one completed batch does to the result buffer: appends the batch's
/// results when every entry succeeded, else leaves the buffer untouched, so
/// a failing entry keeps the entire batch out of the drained output.
pub open spec fn propagated_buffer(
    before: Seq<Seq<PredictionEntry>>,
    outcomes: Seq<(u64, Result<Prediction, PropagationError>)>,
) -> Seq<Seq<PredictionEntry>> {
    match collected_batch(outcomes) {
        Ok(data) => before.push(data),
        Err(_) => before,
    }
}

impl PropagationResults {
    /// An empty result buffer.
    pub fn new() -> (r: PropagationResults)
        ensures
            buffered(&r) == Seq::<Seq<PredictionEntry>>::empty(),
    {
        PropagationResults { results: Vec::new() }
    }

    /// Runs one dispatched batch to completion against the given per-entry
    /// outcomes: on success the batch's predictions are pushed into the
    /// buffer as one unit; on any per-entry failure the whole batch is
    /// dropped and the first failure returned for logging.
    pub fn do_propagate(
        &mut self,
        outcomes: &Vec<(u64, Result<Prediction, PropagationError>)>,
    ) -> (r: Result<(), PropagationError>)
        ensures
            buffered(final(self)) == propagated_buffer(buffered(old(self)), outcomes@),
            r is Ok <==> collected_batch(outcomes@) is Ok,
            r is Err ==> r->Err_0 == collected_batch(outcomes@)->Err_0,
    {
        match collect_batch(outcomes) {
            Ok(propagated) => {
                let ghost data = propagated.data@;
                self.results.push(propagated);
                proof {
                    assert(buffered(self) =~= buffered(old(self)).push(data));
                }
                Ok(())
            },
            Err(e) => Err(e),
        }
    }

    /// Drains the buffer: returns every batch result collected since the
    /// last drain, in arrival order, and leaves the buffer empty.  This is
    /// the only point where results become visible to consumers.
    pub fn send_predictions(&mut self) -> (r: Vec<Propageted>)
        ensures
            r@.map_values(|p: Propageted| p.data@) == buffered(old(self)),
            buffered(final(self)) == Seq::<Seq<PredictionEntry>>::empty(),
    {
        let mut drained: Vec<Propageted> = Vec::new();
        std::mem::swap(&mut drained, &mut self.results);
        proof {
            assert(buffered(self) =~= Seq::<Seq<PredictionEntry>>::empty());
        }
        drained
    }
}

/// A failing entry inside a batch keeps that entire batch's results out of
/// the drained output, while other batches completed in the same tick are
/// unaffected: running a failing batch and a succeeding batch against a
/// buffer, in either order, leaves exactly the succeeding batch's results
/// in it.
pub proof fn lemma_failing_batch_isolated(
    before: Seq<Seq<PredictionEntry>>,
    failing: Seq<(u64, Result<Prediction, PropagationError>)>,
    succeeding: Seq<(u64, Result<Prediction, PropagationError>)>,
)
    requires
        exists|i: int| 0 <= i < failing.len() && (#[trigger] failing[i].1) is Err,
        forall|i: int| 0 <= i < succeeding.len() ==> (#[trigger] succeeding[i].1) is Ok,
    ensures
        propagated_buffer(propagated_buffer(before, failing), succeeding)
            == before.push(collected_batch(succeeding)->Ok_0),
        propagated_buffer(propagated_buffer(before, succeeding), failing)
            == before.push(collected_batch(succeeding)->Ok_0),
{
    let i = choose|i: int| 0 <= i < failing.len() && (#[trigger] failing[i].1) is Err;
    lemma_first_error_finds(failing, 0, i);
    lemma_first_error_all_ok_total(succeeding);
}

/// The first-error index never runs past a known error.
proof fn lemma_first_error_finds(
    s: Seq<(u64, Result<Prediction, PropagationError>)>,
    a: int,
    i: int,
)
    requires
        0 <= a <= i < s.len(),
        s[i].1 is Err,
    ensures
        a <= first_error_index(s, a) <= i,
    decreases i - a,
{
    if !(s[a].1 is Err) {
        lemma_first_error_finds(s, a + 1, i);
    }
}

/// From `a` on, the first-error index lies between `a` and the length.
proof fn lemma_first_error_bounds(
    s: Seq<(u64, Result<Prediction, PropagationError>)>,
    a: int,
)
    requires
        0 <= a <= s.len(),
    ensures
        a <= first_error_index(s, a) <= s.len(),
    decreases s.len() - a,
{
    if a < s.len() && !(s[a].1 is Err) {
        lemma_first_error_bounds(s, a + 1);
    }
}

/// A sequence of all-successful outcomes collects to `Ok`.
proof fn lemma_first_error_all_ok_total(s: Seq<(u64, Result<Prediction, PropagationError>)>)
    requires
        forall|i: int| 0 <= i < s.len() ==> (#[trigger] s[i].1) is Ok,
    ensures
        collected_batch(s) is Ok,
{
    lemma_first_error_bounds(s, 0);
    if first_error_index(s, 0) < s.len() {
        lemma_first_error_is_err(s, 0);
    }
}

/// When the first-error index lies inside the sequence, that entry is an
/// error.
proof fn lemma_first_error_is_err(s: Seq<(u64, Result<Prediction, PropagationError>)>, a: int)
    requires
        0 <= a <= s.len(),
        first_error_index(s, a) < s.len(),
    ensures
        s[first_error_index(s, a)].1 is Err,
    decreases s.len() - a,
{
    if a < s.len() && !(s[a].1 is Err) {
        lemma_first_error_is_err(s, a + 1);
    }
}

} // verus!
