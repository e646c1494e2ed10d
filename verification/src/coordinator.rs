//! The coordinator of one job: the records of its workers, keyed by the
//! worker's identifier, and the three operations that the workers and the
//! control plane call.
//!
//! A record comes into being with whichever of registration and result
//! arrives first. The store is changed through `&mut` only, so each
//! operation is one critical section; a caller that shares the store puts it
//! behind one lock.

use crate::chance::random_between;
use crate::text::owned;
use vstd::hash_map::StringHashMap;
use vstd::prelude::*;

verus! {

/// Status codes of the coordinator's answers.
pub const STATUS_OK: u16 = 200;

pub const STATUS_CREATED: u16 = 201;

/// Paths under which the coordinator serves.
pub const REGISTER_PATH: &'static str = "/register";

pub const RESULT_PATH: &'static str = "/result";

pub const HEALTH_PATH: &'static str = "/health";

/// Shortest and longest time that handling a registration is drawn out, in
/// milliseconds.
pub const REGISTER_DELAY_MIN_MS: u64 = 400;

pub const REGISTER_DELAY_MAX_MS: u64 = 1000;

/// Body of a registration.
#[derive(Debug, Clone, PartialEq, Eq)]
pub struct Sieve {
    pub id: String,
}

/// Body of a result submission.
#[derive(Debug, Clone, PartialEq, Eq)]
pub struct SieveResult {
    pub id: String,
    pub primes: Vec<i32>,
}

/// What is kept of a result by default: how many values there were, and the
/// last of them, if there was any. Workers report their values in rising
/// order, so the last is the largest.
#[derive(Debug, Clone, Copy, PartialEq, Eq, Hash)]
pub struct PrimeResult {
    pub quantity: usize,
    pub max_prime: Option<i32>,
}

/// Whether a store keeps the summary of a result or all of its values.
#[derive(Debug, Clone, Copy, PartialEq, Eq)]
pub enum ResultMode {
    Summary,
    Full,
}

/// The result held by a record.
#[derive(Debug, Clone, PartialEq, Eq)]
pub enum StoredResult {
    Summary(PrimeResult),
    Full(Vec<i32>),
}

pub enum StoredResultView {
    Summary(PrimeResult),
    Full(Seq<i32>),
}

impl View for StoredResult {
    type V = StoredResultView;

    open spec fn view(&self) -> StoredResultView {
        match self {
            StoredResult::Summary(p) => StoredResultView::Summary(*p),
            StoredResult::Full(v) => StoredResultView::Full(v@),
        }
    }
}

/// How far a worker has come.
#[derive(Debug, Clone, Copy, PartialEq, Eq)]
pub enum WorkerStatus {
    Registered,
    Completed,
}

/// The record of one worker. Times are whatever clock reading the caller
/// hands in with each operation.
#[derive(Debug, Clone, PartialEq, Eq)]
pub struct Worker {
    pub id: String,
    pub results: Option<StoredResult>,
    pub registered_at: Option<u64>,
    pub completed_at: Option<u64>,
}

pub struct WorkerView {
    pub id: Seq<char>,
    pub results: Option<StoredResultView>,
    pub registered_at: Option<u64>,
    pub completed_at: Option<u64>,
}

impl View for Worker {
    type V = WorkerView;

    open spec fn view(&self) -> WorkerView {
        WorkerView {
            id: self.id@,
            results: match self.results {
                Some(r) => Some(r@),
                None => None,
            },
            registered_at: self.registered_at,
            completed_at: self.completed_at,
        }
    }
}

/// The write to the durable mirror that goes with an accepted result.
#[derive(Debug, Clone, PartialEq, Eq)]
pub struct MirrorWrite {
    pub key: String,
    pub value: i32,
}

/// What the caller is to do after a result was stored.
#[derive(Debug, Clone, PartialEq, Eq)]
pub struct SaveReply {
    /// The status to answer with.
    pub status: u16,
    /// No record existed for the worker: the result came before any
    /// registration, which is worth a warning.
    pub out_of_order: bool,
    /// The write to the mirror that goes with the result. A result without
    /// values has no last value, and no write goes with it.
    pub mirror: Option<MirrorWrite>,
}

/// The summary of a sequence of values: how many there are, and the last of
/// them. A sequence without values has the count zero and no last value.
pub open spec fn summary_of(values: Seq<i32>) -> PrimeResult {
    PrimeResult {
        quantity: values.len() as usize,
        max_prime: if values.len() > 0 {
            Some(values.last())
        } else {
            None
        },
    }
}

/// The write to the mirror that goes with a result for `id`: the last value
/// under the worker's identifier, and none where there is no value.
pub open spec fn mirror_of(id: Seq<char>, values: Seq<i32>) -> Option<(Seq<char>, i32)> {
    if values.len() > 0 {
        Some((id, values.last()))
    } else {
        None
    }
}

/// The key and the value of a write to the mirror.
pub open spec fn mirror_view(w: Option<MirrorWrite>) -> Option<(Seq<char>, i32)> {
    match w {
        Some(w) => Some((w.key@, w.value)),
        None => None,
    }
}

/// By how much the number of records grows when something is filed under
/// `id`: by one where nothing was filed there, else not at all.
pub open spec fn growth(m: Map<Seq<char>, WorkerView>, id: Seq<char>) -> nat {
    if m.contains_key(id) {
        0
    } else {
        1
    }
}

/// What a store of the given mode keeps of a result.
pub open spec fn stored_of(mode: ResultMode, values: Seq<i32>) -> StoredResultView {
    match mode {
        ResultMode::Summary => StoredResultView::Summary(summary_of(values)),
        ResultMode::Full => StoredResultView::Full(values),
    }
}

/// The summary that a stored result amounts to.
pub open spec fn summary_view(r: StoredResultView) -> PrimeResult {
    match r {
        StoredResultView::Summary(p) => p,
        StoredResultView::Full(v) => summary_of(v),
    }
}

/// A record is completed as soon as it holds a result.
pub open spec fn status_view(w: WorkerView) -> WorkerStatus {
    if w.results is Some {
        WorkerStatus::Completed
    } else {
        WorkerStatus::Registered
    }
}

/// The record that a registration at time `now` writes.
pub open spec fn registered(id: Seq<char>, now: u64) -> WorkerView {
    WorkerView { id, results: None, registered_at: Some(now), completed_at: None }
}

/// The record that a result arriving at time `now` writes over `prior`, the
/// record that was there, if any: the time of registration is kept.
pub open spec fn completed(
    prior: Option<WorkerView>,
    id: Seq<char>,
    result: StoredResultView,
    now: u64,
) -> WorkerView {
    WorkerView {
        id,
        results: Some(result),
        registered_at: match prior {
            Some(w) => w.registered_at,
            None => None,
        },
        completed_at: Some(now),
    }
}

/// The record under `id`, if there is one.
pub open spec fn lookup(m: Map<Seq<char>, WorkerView>, id: Seq<char>) -> Option<WorkerView> {
    if m.contains_key(id) {
        Some(m[id])
    } else {
        None
    }
}

/// The records after a registration of `id`: whatever was under `id` is
/// replaced by an empty record.
pub open spec fn after_register(m: Map<Seq<char>, WorkerView>, id: Seq<char>, now: u64) -> Map<
    Seq<char>,
    WorkerView,
> {
    m.insert(id, registered(id, now))
}

/// The records after a result for `id`: the record under `id` is completed,
/// or made in the completed state if there was none.
pub open spec fn after_submit(
    m: Map<Seq<char>, WorkerView>,
    mode: ResultMode,
    id: Seq<char>,
    values: Seq<i32>,
    now: u64,
) -> Map<Seq<char>, WorkerView> {
    m.insert(id, completed(lookup(m, id), id, stored_of(mode, values), now))
}

/// There are finitely many records, and every record is filed under its own
/// identifier.
pub open spec fn well_kept(m: Map<Seq<char>, WorkerView>) -> bool {
    &&& m.dom().finite()
    &&& forall|k: Seq<char>| #[trigger] m.contains_key(k) ==> m[k].id == k
}

/// Summarises a sequence of values.
pub fn summarize(values: &Vec<i32>) -> (r: PrimeResult)
    ensures
        r == summary_of(values@),
{
    let n: usize = values.len();
    PrimeResult {
        quantity: n,
        max_prime: if n > 0 {
            Some(values[n - 1])
        } else {
            None
        },
    }
}

fn copy_values(values: &Vec<i32>) -> (r: Vec<i32>)
    ensures
        r@ == values@,
{
    let mut r: Vec<i32> = Vec::new();
    let mut i: usize = 0;
    while i < values.len()
        invariant
            i <= values.len(),
            r@ == values@.take(i as int),
        decreases values.len() - i,
    {
        r.push(values[i]);
        proof {
            assert(values@.take(i as int).push(values@[i as int]) =~= values@.take(i + 1));
        }
        i += 1;
    }
    proof {
        assert(values@.take(values@.len() as int) =~= values@);
    }
    r
}

impl StoredResult {
    /// The summary that this result amounts to.
    pub fn summary(&self) -> (r: PrimeResult)
        ensures
            r == summary_view(self@),
    {
        match self {
            StoredResult::Summary(p) => *p,
            StoredResult::Full(v) => summarize(v),
        }
    }

    fn duplicate(&self) -> (r: StoredResult)
        ensures
            r@ == self@,
    {
        match self {
            StoredResult::Summary(p) => StoredResult::Summary(*p),
            StoredResult::Full(v) => StoredResult::Full(copy_values(v)),
        }
    }
}

impl Worker {
    /// `Completed` if the record holds a result, `Registered` if not.
    pub fn status(&self) -> (s: WorkerStatus)
        ensures
            s == status_view(self@),
    {
        match &self.results {
            Some(_) => WorkerStatus::Completed,
            None => WorkerStatus::Registered,
        }
    }

    /// A copy of the record.
    pub fn duplicate(&self) -> (w: Worker)
        ensures
            w@ == self@,
    {
        Worker {
            id: self.id.clone(),
            results: match &self.results {
                Some(r) => Some(r.duplicate()),
                None => None,
            },
            registered_at: self.registered_at,
            completed_at: self.completed_at,
        }
    }
}

/// The records of one job's workers.
pub struct Store {
    workers: StringHashMap<Worker>,
    mode: ResultMode,
}

impl View for Store {
    type V = Map<Seq<char>, WorkerView>;

    closed spec fn view(&self) -> Map<Seq<char>, WorkerView> {
        Map::new(|k: Seq<char>| self.workers@.contains_key(k), |k: Seq<char>| self.workers@[k]@)
    }
}

impl Store {
    /// What the store keeps of each result.
    pub closed spec fn mode(&self) -> ResultMode {
        self.mode
    }

    /// The records are well kept.
    pub open spec fn wf(&self) -> bool {
        well_kept(self@)
    }

    /// An empty store.
    pub fn new(mode: ResultMode) -> (s: Store)
        ensures
            s@ == Map::<Seq<char>, WorkerView>::empty(),
            s.mode() == mode,
            s.wf(),
    {
        let s = Store { workers: StringHashMap::new(), mode };
        proof {
            assert(s@ =~= Map::<Seq<char>, WorkerView>::empty());
        }
        s
    }

    /// What the store keeps of each result.
    pub fn result_mode(&self) -> (m: ResultMode)
        ensures
            m == self.mode(),
    {
        self.mode
    }

    /// The number of records.
    pub fn len(&self) -> (n: usize)
        ensures
            n == self@.len(),
    {
        proof {
            assert(self@.dom() =~= self.workers@.dom());
        }
        self.workers.len()
    }

    /// Whether a record is held for `id`.
    pub fn contains(&self, id: &str) -> (b: bool)
        ensures
            b == self@.contains_key(id@),
    {
        self.workers.contains_key(id)
    }

    /// A copy of the record held for `id`, if there is one.
    pub fn get(&self, id: &str) -> (w: Option<Worker>)
        ensures
            match w {
                Some(w) => lookup(self@, id@) == Some(w@),
                None => lookup(self@, id@) is None,
            },
    {
        match self.workers.get(id) {
            Some(w) => Some(w.duplicate()),
            None => None,
        }
    }

    /// Registers `id` at time `now`. A record that was held for `id` is
    /// replaced, with its result if it had one.
    pub fn register(&mut self, id: &str, now: u64)
        requires
            old(self).wf(),
        ensures
            final(self)@ == after_register(old(self)@, id@, now),
            final(self)@.len() == old(self)@.len() + growth(old(self)@, id@),
            final(self).mode() == old(self).mode(),
            final(self).wf(),
    {
        let worker = Worker { id: owned(id), results: None, registered_at: Some(now), completed_at: None };
        self.workers.insert(owned(id), worker);
        proof {
            assert(self@ =~= after_register(old(self)@, id@, now));
        }
    }

    /// Stores the result that arrived for `id` at time `now`, with or
    /// without values, and says whether it came before any registration.
    pub fn submit(&mut self, id: &str, values: Vec<i32>, now: u64) -> (out_of_order: bool)
        requires
            old(self).wf(),
        ensures
            final(self)@ == after_submit(old(self)@, old(self).mode(), id@, values@, now),
            final(self)@.len() == old(self)@.len() + growth(old(self)@, id@),
            final(self).mode() == old(self).mode(),
            final(self).wf(),
            out_of_order == !old(self)@.contains_key(id@),
    {
        let (known, registered_at) = match self.workers.get(id) {
            Some(w) => (true, w.registered_at),
            None => (false, None),
        };
        let result = match self.mode {
            ResultMode::Summary => StoredResult::Summary(summarize(&values)),
            ResultMode::Full => StoredResult::Full(values),
        };
        let worker = Worker {
            id: owned(id),
            results: Some(result),
            registered_at,
            completed_at: Some(now),
        };
        self.workers.insert(owned(id), worker);
        proof {
            assert(self@ =~= after_submit(old(self)@, old(self).mode(), id@, values@, now));
        }
        !known
    }
}

/// Handles a registration: the worker's record is written, empty, over
/// whatever was held for it. Always answers `201`.
pub fn register_sieve(store: &mut Store, sieve: &Sieve, now: u64) -> (status: u16)
    requires
        old(store).wf(),
    ensures
        status == STATUS_CREATED,
        final(store)@ == after_register(old(store)@, sieve.id@, now),
        final(store)@.len() == old(store)@.len() + growth(old(store)@, sieve.id@),
        final(store).mode() == old(store).mode(),
        final(store).wf(),
{
    store.register(sieve.id.as_str(), now);
    STATUS_CREATED
}

/// Draws the time by which the answer to a registration is held back.
pub fn registration_delay_ms() -> (ms: u64)
    ensures
        REGISTER_DELAY_MIN_MS <= ms <= REGISTER_DELAY_MAX_MS,
{
    random_between(REGISTER_DELAY_MIN_MS, REGISTER_DELAY_MAX_MS)
}

/// Handles a result, with or without values: the worker's record is
/// completed, or made in the completed state if the worker never registered.
/// Where the result has a last value, the write of that value to the
/// durable mirror is handed back. Always answers `200`.
pub fn save_result(store: &mut Store, payload: SieveResult, now: u64) -> (reply: SaveReply)
    requires
        old(store).wf(),
    ensures
        reply.status == STATUS_OK,
        reply.out_of_order == !old(store)@.contains_key(payload.id@),
        mirror_view(reply.mirror) == mirror_of(payload.id@, payload.primes@),
        final(store)@ == after_submit(
            old(store)@,
            old(store).mode(),
            payload.id@,
            payload.primes@,
            now,
        ),
        final(store)@.len() == old(store)@.len() + growth(old(store)@, payload.id@),
        final(store).mode() == old(store).mode(),
        final(store).wf(),
{
    let summary = summarize(&payload.primes);
    let out_of_order = store.submit(payload.id.as_str(), payload.primes, now);
    let mirror = match summary.max_prime {
        Some(value) => Some(MirrorWrite { key: payload.id, value }),
        None => None,
    };
    SaveReply { status: STATUS_OK, out_of_order, mirror }
}

/// Answers a liveness or readiness probe; the answer never varies.
pub fn health_check() -> (status: u16)
    ensures
        status == STATUS_OK,
{
    STATUS_OK
}

} // verus!
