//! What holds of the records after any history of operations.
//!
//! The store is changed by one operation at a time. Calls that many workers
//! make at once therefore take effect in some order, one after the other;
//! a history is that order. The theorems below hold of every history, so
//! they hold of every way in which concurrent calls can fall.

use crate::coordinator::{
    after_register, after_submit, growth, lookup, registered, status_view, stored_of,
    summary_of, summary_view, well_kept, ResultMode, WorkerStatus, WorkerView,
};
use vstd::prelude::*;

verus! {

/// One operation on the store, as it took effect.
pub enum StoreOp {
    Register { id: Seq<char>, at: u64 },
    Submit { id: Seq<char>, values: Seq<i32>, at: u64 },
}

/// The worker that an operation is about.
pub open spec fn target(op: StoreOp) -> Seq<char> {
    match op {
        StoreOp::Register { id, .. } => id,
        StoreOp::Submit { id, .. } => id,
    }
}

/// The records after one operation.
pub open spec fn apply(m: Map<Seq<char>, WorkerView>, mode: ResultMode, op: StoreOp) -> Map<
    Seq<char>,
    WorkerView,
> {
    match op {
        StoreOp::Register { id, at } => after_register(m, id, at),
        StoreOp::Submit { id, values, at } => after_submit(m, mode, id, values, at),
    }
}

/// The records after a history, first operation first.
pub open spec fn apply_all(m: Map<Seq<char>, WorkerView>, mode: ResultMode, ops: Seq<StoreOp>) -> Map<
    Seq<char>,
    WorkerView,
>
    decreases ops.len(),
{
    if ops.len() == 0 {
        m
    } else {
        apply(apply_all(m, mode, ops.drop_last()), mode, ops.last())
    }
}

/// The last operation of a history that is about `id`, if any is.
pub open spec fn last_on(ops: Seq<StoreOp>, id: Seq<char>) -> Option<StoreOp>
    decreases ops.len(),
{
    if ops.len() == 0 {
        None
    } else if target(ops.last()) == id {
        Some(ops.last())
    } else {
        last_on(ops.drop_last(), id)
    }
}

/// The time of the last registration of `id` in a history, if it has one.
pub open spec fn last_registration(ops: Seq<StoreOp>, id: Seq<char>) -> Option<u64>
    decreases ops.len(),
{
    if ops.len() == 0 {
        None
    } else {
        match ops.last() {
            StoreOp::Register { id: who, at } => if who == id {
                Some(at)
            } else {
                last_registration(ops.drop_last(), id)
            },
            _ => last_registration(ops.drop_last(), id),
        }
    }
}

/// The identifiers that a history is about.
pub open spec fn targets(ops: Seq<StoreOp>) -> Set<Seq<char>> {
    Set::new(|id: Seq<char>| exists|i: int| 0 <= i < ops.len() && target(#[trigger] ops[i]) == id)
}

/// A registration followed by the worker's result, with or without values,
/// leaves one record for the worker: it is completed, its result amounts to
/// the summary of the values, and the time of registration is kept. No
/// other record is touched; the number of records grows by one if the
/// worker had none, and not at all if it had one.
pub proof fn theorem_register_then_submit(
    m: Map<Seq<char>, WorkerView>,
    mode: ResultMode,
    id: Seq<char>,
    values: Seq<i32>,
    registered_at: u64,
    submitted_at: u64,
)
    requires
        well_kept(m),
    ensures
        ({
            let end = after_submit(
                after_register(m, id, registered_at),
                mode,
                id,
                values,
                submitted_at,
            );
            &&& end.dom() == m.dom().insert(id)
            &&& end.len() == m.len() + growth(m, id)
            &&& well_kept(end)
            &&& end[id].id == id
            &&& end[id].results == Some(stored_of(mode, values))
            &&& summary_view(end[id].results->0) == summary_of(values)
            &&& status_view(end[id]) == WorkerStatus::Completed
            &&& end[id].registered_at == Some(registered_at)
            &&& end[id].completed_at == Some(submitted_at)
            &&& forall|k: Seq<char>| k != id && m.contains_key(k) ==> end[k] == m[k]
        }),
{
    let end = after_submit(after_register(m, id, registered_at), mode, id, values, submitted_at);
    assert(end.dom() =~= m.dom().insert(id));
}

/// A result, with or without values, for a worker that has no record makes
/// one, in the completed state, whose result amounts to the summary of the
/// values. No other record is touched, and the number of records grows by
/// exactly one.
pub proof fn theorem_submit_without_register(
    m: Map<Seq<char>, WorkerView>,
    mode: ResultMode,
    id: Seq<char>,
    values: Seq<i32>,
    submitted_at: u64,
)
    requires
        well_kept(m),
        !m.contains_key(id),
    ensures
        ({
            let end = after_submit(m, mode, id, values, submitted_at);
            &&& end.dom() == m.dom().insert(id)
            &&& end.len() == m.len() + 1
            &&& well_kept(end)
            &&& end[id].id == id
            &&& end[id].results == Some(stored_of(mode, values))
            &&& summary_view(end[id].results->0) == summary_of(values)
            &&& status_view(end[id]) == WorkerStatus::Completed
            &&& end[id].registered_at is None
            &&& end[id].completed_at == Some(submitted_at)
            &&& forall|k: Seq<char>| m.contains_key(k) ==> end[k] == m[k]
        }),
{
    let end = after_submit(m, mode, id, values, submitted_at);
    assert(end.dom() =~= m.dom().insert(id));
}

/// A result that arrives twice leaves what it left the first time, but for
/// the time of completion.
pub proof fn theorem_submit_is_idempotent(
    m: Map<Seq<char>, WorkerView>,
    mode: ResultMode,
    id: Seq<char>,
    values: Seq<i32>,
    first_at: u64,
    second_at: u64,
)
    ensures
        ({
            let once = after_submit(m, mode, id, values, first_at);
            let twice = after_submit(once, mode, id, values, second_at);
            &&& twice.dom() == once.dom()
            &&& twice[id].results == once[id].results
            &&& twice[id].registered_at == once[id].registered_at
            &&& forall|k: Seq<char>| k != id && once.contains_key(k) ==> twice[k] == once[k]
        }),
{
    let once = after_submit(m, mode, id, values, first_at);
    let twice = after_submit(once, mode, id, values, second_at);
    assert(twice.dom() =~= once.dom());
}

/// Each operation keeps the records well kept.
pub proof fn lemma_apply_keeps_well_kept(m: Map<Seq<char>, WorkerView>, mode: ResultMode, op: StoreOp)
    requires
        well_kept(m),
    ensures
        well_kept(apply(m, mode, op)),
{
}

/// A history keeps the records well kept, and the identifiers on record
/// after it are those that were on record before and those that the history
/// is about: one record each, however often and in whatever order the
/// operations on one identifier came.
pub proof fn theorem_one_record_per_identifier(
    m: Map<Seq<char>, WorkerView>,
    mode: ResultMode,
    ops: Seq<StoreOp>,
)
    requires
        well_kept(m),
    ensures
        well_kept(apply_all(m, mode, ops)),
        apply_all(m, mode, ops).dom() == m.dom().union(targets(ops)),
    decreases ops.len(),
{
    if ops.len() == 0 {
        assert(apply_all(m, mode, ops).dom() =~= m.dom().union(targets(ops)));
    } else {
        let before = ops.drop_last();
        theorem_one_record_per_identifier(m, mode, before);
        lemma_apply_keeps_well_kept(apply_all(m, mode, before), mode, ops.last());
        assert forall|id: Seq<char>| targets(ops).contains(id) <==> (targets(before).contains(id)
            || id == target(ops.last())) by {
            if targets(before).contains(id) {
                let i = choose|i: int| 0 <= i < before.len() && target(#[trigger] before[i]) == id;
                assert(ops[i] == before[i]);
            }
            if id == target(ops.last()) {
                assert(target(ops[ops.len() - 1]) == id);
            }
            if targets(ops).contains(id) {
                let i = choose|i: int| 0 <= i < ops.len() && target(#[trigger] ops[i]) == id;
                if i < ops.len() - 1 {
                    assert(before[i] == ops[i]);
                }
            }
        }
        assert(apply_all(m, mode, ops).dom() =~= m.dom().union(targets(ops)));
    }
}

/// No update is lost: after a history, the record of a worker is what the
/// last operation about that worker wrote. After a registration it is the
/// empty record of that registration. After a result it is completed with
/// that result and that time of completion. A worker that the history is
/// not about has the record it had before, or none.
pub proof fn theorem_last_operation_wins(
    m: Map<Seq<char>, WorkerView>,
    mode: ResultMode,
    ops: Seq<StoreOp>,
    id: Seq<char>,
)
    ensures
        match last_on(ops, id) {
            None => lookup(apply_all(m, mode, ops), id) == lookup(m, id),
            Some(StoreOp::Register { id: who, at }) => lookup(apply_all(m, mode, ops), id) == Some(
                registered(id, at),
            ),
            Some(StoreOp::Submit { id: who, values, at }) => {
                let end = apply_all(m, mode, ops);
                &&& end.contains_key(id)
                &&& end[id].id == id
                &&& end[id].results == Some(stored_of(mode, values))
                &&& status_view(end[id]) == WorkerStatus::Completed
                &&& end[id].completed_at == Some(at)
            },
        },
    decreases ops.len(),
{
    if ops.len() > 0 {
        theorem_last_operation_wins(m, mode, ops.drop_last(), id);
    }
}

/// The time of registration on a worker's record is that of the last
/// registration in the history; where the history has none, it is what it
/// was before.
pub proof fn theorem_registration_time_is_kept(
    m: Map<Seq<char>, WorkerView>,
    mode: ResultMode,
    ops: Seq<StoreOp>,
    id: Seq<char>,
)
    requires
        apply_all(m, mode, ops).contains_key(id),
    ensures
        apply_all(m, mode, ops)[id].registered_at == match last_registration(ops, id) {
            Some(at) => Some(at),
            None => match lookup(m, id) {
                Some(w) => w.registered_at,
                None => None,
            },
        },
    decreases ops.len(),
{
    if ops.len() > 0 {
        let before = apply_all(m, mode, ops.drop_last());
        if before.contains_key(id) {
            theorem_registration_time_is_kept(m, mode, ops.drop_last(), id);
        } else {
            lemma_absent_means_untouched(m, mode, ops.drop_last(), id);
        }
    }
}

/// A worker without a record after a history had none before, and the
/// history has no registration of it.
proof fn lemma_absent_means_untouched(
    m: Map<Seq<char>, WorkerView>,
    mode: ResultMode,
    ops: Seq<StoreOp>,
    id: Seq<char>,
)
    requires
        !apply_all(m, mode, ops).contains_key(id),
    ensures
        !m.contains_key(id),
        last_registration(ops, id) is None,
    decreases ops.len(),
{
    if ops.len() > 0 {
        lemma_absent_means_untouched(m, mode, ops.drop_last(), id);
    }
}

/// Where the values come in rising order, the summary's last value is the
/// largest of them; only a result without values has none.
pub proof fn theorem_summary_of_rising_values(values: Seq<i32>)
    requires
        forall|i: int, j: int| 0 <= i <= j < values.len() ==> values[i] <= values[j],
    ensures
        match summary_of(values).max_prime {
            Some(largest) => {
                &&& forall|i: int| 0 <= i < values.len() ==> values[i] <= largest
                &&& exists|i: int| 0 <= i < values.len() && values[i] == largest
            },
            None => values.len() == 0,
        },
{
    if values.len() > 0 {
        assert(values[values.len() - 1] == values.last());
    }
}

} // verus!
