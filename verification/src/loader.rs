//! The epoch data source boundary: the capability interface the engine
//! loads raw element records through, the static-file client's path and
//! format rules, the networked client's in-memory cache, and the
//! materialization of loaded records into tracked bodies.
//!
//! The engine never sees loader failures directly: `load_or_empty` degrades
//! any failure to an empty record list.

use vstd::prelude::*;
use vstd::string::{StrSliceExecFns, StringExecFns};
use crate::elements::ElementRecord;
use crate::engine::{PropagatableSattelite, body_matches_record};

verus! {

/// Why a load failed.
#[derive(Clone, Copy, Debug, PartialEq, Eq, Structural)]
pub enum LoadError {
    /// Reading the element source failed.
    IO,
    /// The element source held data that does not deserialize.
    Deserialization,
    /// The remote elements endpoint could not be reached or answered badly.
    RemoteRequest,
    /// A format other than the one supported was requested.
    UnsupportedFormat,
}

/// The capability interface that supplies raw element records for a named
/// group and format.  Implementations live with the surrounding
/// application: a networked one with an in-memory cache, and a static-file
/// one reading a fixed on-disk layout.
pub trait EpochDataLoader {
    /// Loads the records of `group` in `format`, or says why it could not.
    fn load(&self, group: &String, format: &String) -> Result<Vec<ElementRecord>, LoadError>;

    /// Loads the records of `group` in `format`; any failure degrades to an
    /// empty list, so callers never see loader failures directly.  The
    /// caller is expected to log the discarded error.
    fn load_or_empty(&self, group: &String, format: &String) -> Vec<ElementRecord> {
        unwrap_or_empty(self.load(group, format))
    }
}

/// An `Ok` load's records; an empty list for any failure.
pub fn unwrap_or_empty(r: Result<Vec<ElementRecord>, LoadError>) -> (records: Vec<ElementRecord>)
    ensures
        r is Ok ==> records == r->Ok_0,
        r is Err ==> records@ == Seq::<ElementRecord>::empty(),
{
    match r {
        Ok(records) => records,
        Err(_) => Vec::new(),
    }
}

/// The static-file element source: records for group `g` live at
/// `{top_path}data/{g}.json`.
#[derive(Clone, Debug)]
pub struct ConstFileClient {
    /// The root the fixed on-disk layout hangs under, ending in a path
    /// separator.
    pub top_path: String,
}

impl ConstFileClient {
    /// A client rooted at `top_path`.
    pub fn new(top_path: String) -> (r: ConstFileClient)
        ensures
            r.top_path@ == top_path@,
    {
        ConstFileClient { top_path }
    }

    /// The file a load of `group` in `format` reads: defined exactly for
    /// the one supported format, and refused loudly — never silently — for
    /// every other.
    pub fn data_file_path(&self, group: &String, format: &String) -> (r: Result<String, LoadError>)
        ensures
            r is Ok <==> format@ == "JSON"@,
            r is Err ==> r->Err_0 == LoadError::UnsupportedFormat,
            r is Ok ==> r->Ok_0@ == self.top_path@ + "data/"@ + group@ + ".json"@,
    {
        let json: String = "JSON".to_owned();
        if !format.eq(&json) {
            return Err(LoadError::UnsupportedFormat);
        }
        let path: String = self
            .top_path
            .clone()
            .concat("data/")
            .concat(group.as_str())
            .concat(".json");
        Ok(path)
    }
}

/// What an in-memory element cache holds for a key, newest entry first.
pub open spec fn cache_lookup(
    entries: Seq<((String, String), Vec<ElementRecord>)>,
    group: Seq<char>,
    format: Seq<char>,
) -> Option<Seq<ElementRecord>>
    decreases entries.len(),
{
    if entries.len() == 0 {
        None
    } else if entries[0].0.0@ == group && entries[0].0.1@ == format {
        Some(entries[0].1@)
    } else {
        cache_lookup(entries.drop_first(), group, format)
    }
}

/// The networked element source's engine-side state: an in-memory cache
/// keyed by group and format.  The network request itself lives with the
/// surrounding application; it consults and fills this cache.
///
/// Known race, kept deliberately: the application inserts an empty
/// placeholder under the key before its request completes, so a concurrent
/// load of the same key can observe an empty result instead of waiting.
#[derive(Debug)]
pub struct DefaultClient {
    cache: Vec<((String, String), Vec<ElementRecord>)>,
}

/// The entries a networked client's cache holds.
pub closed spec fn cached(c: &DefaultClient) -> Seq<((String, String), Vec<ElementRecord>)> {
    c.cache@
}

impl DefaultClient {
    /// A client with an empty cache.
    pub fn new() -> (r: DefaultClient)
        ensures
            cached(&r) == Seq::<((String, String), Vec<ElementRecord>)>::empty(),
    {
        DefaultClient { cache: Vec::new() }
    }

    /// The cached records for `(group, format)`, when present.
    pub fn lookup(&self, group: &String, format: &String) -> (r: Option<&Vec<ElementRecord>>)
        ensures
            r is Some <==> cache_lookup(cached(self), group@, format@) is Some,
            r is Some ==> r->0@ == cache_lookup(cached(self), group@, format@)->0,
    {
        let n: usize = self.cache.len();
        let mut i: usize = 0;
        proof {
            assert(self.cache@.skip(0) =~= self.cache@);
        }
        while i < n
            invariant
                i <= n,
                n == self.cache@.len(),
                cache_lookup(self.cache@, group@, format@)
                    == cache_lookup(self.cache@.skip(i as int), group@, format@),
            decreases n - i,
        {
            let entry = &self.cache[i];
            proof {
                assert(self.cache@.skip(i as int)[0] == self.cache@[i as int]);
                assert(self.cache@.skip(i as int).drop_first() =~= self.cache@.skip(i + 1));
            }
            if entry.0.0.eq(group) && entry.0.1.eq(format) {
                return Some(&entry.1);
            }
            i += 1;
        }
        proof {
            assert(self.cache@.skip(n as int).len() == 0);
        }
        None
    }

    /// Caches `records` under `(group, format)`: a later lookup of this key
    /// sees these records, and every other key is untouched.
    pub fn store(&mut self, group: String, format: String, records: Vec<ElementRecord>)
        ensures
            cache_lookup(cached(final(self)), group@, format@) == Some(records@),
            forall|g: Seq<char>, f: Seq<char>| !(g == group@ && f == format@)
                ==> #[trigger] cache_lookup(cached(final(self)), g, f)
                    == cache_lookup(cached(old(self)), g, f),
    {
        let ghost old_cache = self.cache@;
        self.cache.insert(0, ((group, format), records));
        proof {
            assert(self.cache@.drop_first() =~= old_cache);
        }
    }
}

/// A load request: bring in the element records of one named group in one
/// named format.
#[derive(Clone, Debug)]
pub struct LoadElements {
    pub group: String,
    pub format: String,
}

/// Identifiers and records of the bodies a completed load materialized.
pub struct LoadedElements {
    /// The engine identifiers assigned to the new bodies, in order.
    pub entities: Vec<u64>,
    /// The raw records the load returned, including any that were not
    /// admissible and so produced no body.
    pub data: Vec<ElementRecord>,
}

/// How many of the first `n` records are admissible.
pub open spec fn valid_prefix_count(records: Seq<ElementRecord>, n: int) -> int
    decreases n,
{
    if n <= 0 {
        0
    } else {
        valid_prefix_count(records, n - 1) + if records[n - 1].valid() { 1int } else { 0int }
    }
}

/// Completes a load: materializes one body per admissible returned record,
/// assigning fresh sequential identifiers from `next_id` on, and emits the
/// loaded notification carrying the new identifiers and the raw records.
/// Records that are not admissible produce no body and are skipped; the
/// `k`-th admissible record becomes the body with identifier
/// `next_id + k`.  Returns the bodies, the notification, and the next
/// unused identifier.
pub fn execute_elements_loading(records: Vec<ElementRecord>, next_id: u64) -> (r: (
    Vec<PropagatableSattelite>,
    LoadedElements,
    u64,
))
    requires
        next_id + records@.len() <= u64::MAX,
    ensures
        ({
            let (bodies, loaded, next) = r;
            let total = valid_prefix_count(records@, records@.len() as int);
            &&& bodies@.len() == total
            &&& loaded.entities@.len() == total
            &&& loaded.data@ == records@
            &&& next == next_id + total
            &&& forall|j: int| 0 <= j < records@.len() && (#[trigger] records@[j]).valid() ==> {
                let k = valid_prefix_count(records@, j);
                &&& body_matches_record(bodies@[k], records@[j], (next_id + k) as u64)
                &&& loaded.entities@[k] == next_id + k
            }
            &&& forall|k: int| 0 <= k < total ==> #[trigger] loaded.entities@[k] == next_id + k
            &&& forall|k: int| 0 <= k < total ==> (#[trigger] bodies@[k]).wf()
        }),
{
    let n: usize = records.len();
    let mut bodies: Vec<PropagatableSattelite> = Vec::new();
    let mut entities: Vec<u64> = Vec::new();
    let mut id: u64 = next_id;
    let mut i: usize = 0;
    proof {
        vstd::arithmetic::mul::lemma_mul_basics(0);
    }
    while i < n
        invariant
            i <= n,
            n == records@.len(),
            next_id + n <= u64::MAX,
            bodies@.len() == valid_prefix_count(records@, i as int),
            entities@.len() == bodies@.len(),
            id == next_id + bodies@.len(),
            bodies@.len() <= i,
            forall|j: int| 0 <= j < i && (#[trigger] records@[j]).valid() ==> {
                let k = valid_prefix_count(records@, j);
                &&& body_matches_record(bodies@[k], records@[j], (next_id + k) as u64)
                &&& entities@[k] == next_id + k
            },
            forall|k: int| 0 <= k < bodies@.len() ==> #[trigger] entities@[k] == next_id + k,
            forall|k: int| 0 <= k < bodies@.len() ==> (#[trigger] bodies@[k]).wf(),
        decreases n - i,
    {
        proof {
            lemma_valid_prefix_count_bounds(records@, i as int);
        }
        match PropagatableSattelite::new(id, &records[i]) {
            Ok(body) => {
                bodies.push(body);
                entities.push(id);
                id += 1;
            },
            Err(_) => {},
        }
        proof {
            assert forall|j: int| 0 <= j < i + 1 && (#[trigger] records@[j]).valid() implies {
                let k = valid_prefix_count(records@, j);
                &&& body_matches_record(bodies@[k], records@[j], (next_id + k) as u64)
                &&& entities@[k] == next_id + k
            } by {
                lemma_valid_prefix_count_bounds(records@, j);
                if j < i as int {
                    lemma_valid_prefix_count_mono(records@, j + 1, i as int);
                }
            }
        }
        i += 1;
    }
    let loaded = LoadedElements { entities, data: records };
    (bodies, loaded, id)
}

/// The count of admissible records grows with the prefix, strictly across
/// an admissible record.
proof fn lemma_valid_prefix_count_mono(records: Seq<ElementRecord>, a: int, b: int)
    requires
        0 <= a <= b <= records.len(),
    ensures
        valid_prefix_count(records, a) <= valid_prefix_count(records, b),
        (0 < a && records[a - 1].valid())
            ==> valid_prefix_count(records, a - 1) < valid_prefix_count(records, b),
    decreases b - a,
{
    if a < b {
        lemma_valid_prefix_count_mono(records, a + 1, b);
    }
}

/// At most `n` of the first `n` records are admissible, and never fewer
/// than none.
proof fn lemma_valid_prefix_count_bounds(records: Seq<ElementRecord>, n: int)
    requires
        0 <= n <= records.len(),
    ensures
        0 <= valid_prefix_count(records, n) <= n,
    decreases n,
{
    if n > 0 {
        lemma_valid_prefix_count_bounds(records, n - 1);
    }
}

} // verus!
