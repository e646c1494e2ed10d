//! What a provisioning call does as a whole: the actions that a run of the
//! state machine hands out, whatever the control plane answers.

use crate::orchestrator::{
    action_of, failure_of, is_terminal, next_state, status_of, ControlPlaneError, CoordinatorStep,
    Outcome, ProvisionAction, ProvisionState, STATUS_BAD_REQUEST, STATUS_INTERNAL_ERROR,
    STATUS_OK, WORKER_PAUSE_MS,
};
use vstd::prelude::*;

verus! {

/// The state reached from `state` after one step for each of `outcomes`, in
/// order.
pub open spec fn run(count: i64, state: ProvisionState, outcomes: Seq<Outcome>) -> ProvisionState
    decreases outcomes.len(),
{
    if outcomes.len() == 0 {
        state
    } else {
        run(count, next_state(count, state, outcomes[0]), outcomes.drop_first())
    }
}

/// The pending action of `state` as a sequence of one or no action.
pub open spec fn pending(count: i64, grace_ms: u64, state: ProvisionState) -> Seq<ProvisionAction> {
    match action_of(count, grace_ms, state) {
        Some(a) => seq![a],
        None => Seq::empty(),
    }
}

/// The actions handed out on the way from `state` through one step for each
/// of `outcomes`: the pending action of every state that a step leaves.
pub open spec fn trace(
    count: i64,
    grace_ms: u64,
    state: ProvisionState,
    outcomes: Seq<Outcome>,
) -> Seq<ProvisionAction>
    decreases outcomes.len(),
{
    if outcomes.len() == 0 {
        Seq::empty()
    } else {
        pending(count, grace_ms, state) + trace(
            count,
            grace_ms,
            next_state(count, state, outcomes[0]),
            outcomes.drop_first(),
        )
    }
}

/// For each index from `from` up to `count`, the creation of that worker and
/// the pause after it.
pub open spec fn worker_actions(from: int, count: int) -> Seq<ProvisionAction>
    decreases count - from,
{
    if from >= count {
        Seq::empty()
    } else {
        seq![ProvisionAction::CreateWorker(from as u64), ProvisionAction::Pause(WORKER_PAUSE_MS)]
            + worker_actions(from + 1, count)
    }
}

/// What follows the namespace when the count is positive: the coordinator's
/// deployment, its service, the grace period and the workers.
pub open spec fn coordinator_and_workers(count: i64, grace_ms: u64) -> Seq<ProvisionAction> {
    seq![
        ProvisionAction::CreateDeployment,
        ProvisionAction::CreateService,
        ProvisionAction::Pause(grace_ms),
    ] + worker_actions(0, count as int)
}

/// The creation of the namespace and, for a positive count, all that
/// follows it.
pub open spec fn namespace_onward(count: i64, grace_ms: u64) -> Seq<ProvisionAction> {
    if count > 0 {
        seq![ProvisionAction::CreateNamespace] + coordinator_and_workers(count, grace_ms)
    } else {
        seq![ProvisionAction::CreateNamespace]
    }
}

/// Every action of a call in which nothing fails, in order. A count below
/// zero has no action at all; a count of zero leaves the namespace alone.
pub open spec fn plan(count: i64, grace_ms: u64) -> Seq<ProvisionAction> {
    if count < 0 {
        Seq::empty()
    } else {
        namespace_onward(count, grace_ms)
    }
}

/// The part of the plan that is still to come in `state`.
pub open spec fn remaining(count: i64, grace_ms: u64, state: ProvisionState) -> Seq<
    ProvisionAction,
> {
    match state {
        ProvisionState::Start => plan(count, grace_ms),
        ProvisionState::NamespaceCreating => namespace_onward(count, grace_ms),
        ProvisionState::NamespaceReady => if count > 0 {
            coordinator_and_workers(count, grace_ms)
        } else {
            Seq::empty()
        },
        ProvisionState::CoordinatorDeploying(CoordinatorStep::Deployment) => coordinator_and_workers(
            count,
            grace_ms,
        ),
        ProvisionState::CoordinatorDeploying(CoordinatorStep::Service) => seq![
            ProvisionAction::CreateService,
            ProvisionAction::Pause(grace_ms),
        ] + worker_actions(0, count as int),
        ProvisionState::CoordinatorDeploying(CoordinatorStep::Grace) => seq![
            ProvisionAction::Pause(grace_ms),
        ] + worker_actions(0, count as int),
        ProvisionState::CoordinatorReady => worker_actions(0, count as int),
        ProvisionState::WorkersCreating { created, pausing } => if pausing {
            seq![ProvisionAction::Pause(WORKER_PAUSE_MS)] + worker_actions(
                created as int,
                count as int,
            )
        } else {
            worker_actions(created as int, count as int)
        },
        _ => Seq::empty(),
    }
}

/// The number of steps from `state` to `Done` when nothing fails and the
/// count is positive.
pub open spec fn steps_to_done(count: i64, state: ProvisionState) -> int {
    match state {
        ProvisionState::Start => 7 + 2 * count,
        ProvisionState::NamespaceCreating => 6 + 2 * count,
        ProvisionState::NamespaceReady => 5 + 2 * count,
        ProvisionState::CoordinatorDeploying(CoordinatorStep::Deployment) => 4 + 2 * count,
        ProvisionState::CoordinatorDeploying(CoordinatorStep::Service) => 3 + 2 * count,
        ProvisionState::CoordinatorDeploying(CoordinatorStep::Grace) => 2 + 2 * count,
        ProvisionState::CoordinatorReady => 1 + 2 * count,
        ProvisionState::WorkersCreating { created, pausing } => if created >= count {
            1
        } else if pausing {
            1 + 2 * (count - created)
        } else {
            2 * (count - created)
        },
        _ => 0,
    }
}

/// Every outcome is a success.
pub open spec fn all_succeeded(outcomes: Seq<Outcome>) -> bool {
    forall|i: int| 0 <= i < outcomes.len() ==> #[trigger] outcomes[i] == Outcome::Succeeded
}

/// The plan, position by position: the namespace, the deployment, the
/// service and the grace period, then for each index below the count the
/// creation of that worker followed by a pause.
pub proof fn lemma_plan_positions(count: i64, grace_ms: u64)
    requires
        count > 0,
    ensures
        plan(count, grace_ms).len() == 4 + 2 * count,
        plan(count, grace_ms)[0] == ProvisionAction::CreateNamespace,
        plan(count, grace_ms)[1] == ProvisionAction::CreateDeployment,
        plan(count, grace_ms)[2] == ProvisionAction::CreateService,
        plan(count, grace_ms)[3] == ProvisionAction::Pause(grace_ms),
        forall|i: int|
            0 <= i < count ==> #[trigger] plan(count, grace_ms)[4 + 2 * i]
                == ProvisionAction::CreateWorker(i as u64),
        forall|i: int|
            0 <= i < count ==> #[trigger] plan(count, grace_ms)[5 + 2 * i] == ProvisionAction::Pause(
                WORKER_PAUSE_MS,
            ),
{
    lemma_worker_positions(0, count as int);
    let w = worker_actions(0, count as int);
    let p = plan(count, grace_ms);
    assert forall|i: int| 0 <= i < count implies #[trigger] p[4 + 2 * i]
        == ProvisionAction::CreateWorker(i as u64) by {
        assert(p[4 + 2 * i] == w[2 * (i - 0)]);
    }
    assert forall|i: int| 0 <= i < count implies #[trigger] p[5 + 2 * i] == ProvisionAction::Pause(
        WORKER_PAUSE_MS,
    ) by {
        assert(p[5 + 2 * i] == w[2 * (i - 0) + 1]);
    }
}

/// The workers' part of the plan, position by position.
pub proof fn lemma_worker_positions(from: int, count: int)
    requires
        0 <= from <= count,
    ensures
        worker_actions(from, count).len() == 2 * (count - from),
        forall|i: int|
            from <= i < count ==> #[trigger] worker_actions(from, count)[2 * (i - from)]
                == ProvisionAction::CreateWorker(i as u64),
        forall|i: int|
            from <= i < count ==> #[trigger] worker_actions(from, count)[2 * (i - from) + 1]
                == ProvisionAction::Pause(WORKER_PAUSE_MS),
    decreases count - from,
{
    if from < count {
        lemma_worker_positions(from + 1, count);
        let rest = worker_actions(from + 1, count);
        let all = worker_actions(from, count);
        assert forall|i: int| from <= i < count implies #[trigger] all[2 * (i - from)]
            == ProvisionAction::CreateWorker(i as u64) by {
            if i > from {
                assert(all[2 * (i - from)] == rest[2 * (i - (from + 1))]);
            }
        }
        assert forall|i: int| from <= i < count implies #[trigger] all[2 * (i - from) + 1]
            == ProvisionAction::Pause(WORKER_PAUSE_MS) by {
            if i > from {
                assert(all[2 * (i - from) + 1] == rest[2 * (i - (from + 1)) + 1]);
            }
        }
    }
}

/// A terminal state is never left and hands out nothing.
pub proof fn lemma_terminal_stays(
    count: i64,
    grace_ms: u64,
    state: ProvisionState,
    outcomes: Seq<Outcome>,
)
    requires
        is_terminal(state),
    ensures
        run(count, state, outcomes) == state,
        trace(count, grace_ms, state, outcomes) == Seq::<ProvisionAction>::empty(),
    decreases outcomes.len(),
{
    if outcomes.len() > 0 {
        lemma_terminal_stays(count, grace_ms, state, outcomes.drop_first());
    }
}

/// In every state, what is still to come is the pending action followed by
/// what is still to come once that action has succeeded.
proof fn lemma_remaining_unfolds(count: i64, grace_ms: u64, state: ProvisionState)
    ensures
        remaining(count, grace_ms, state) == pending(count, grace_ms, state) + remaining(
            count,
            grace_ms,
            next_state(count, state, Outcome::Succeeded),
        ),
{
    let left = remaining(count, grace_ms, state);
    let right = pending(count, grace_ms, state) + remaining(
        count,
        grace_ms,
        next_state(count, state, Outcome::Succeeded),
    );
    match state {
        ProvisionState::WorkersCreating { created, pausing } => {
            if !pausing && created < count {
                assert(worker_actions(created as int, count as int) == seq![
                    ProvisionAction::CreateWorker(created),
                    ProvisionAction::Pause(WORKER_PAUSE_MS),
                ] + worker_actions(created as int + 1, count as int));
            }
            assert(left =~= right);
        },
        _ => {
            assert(left =~= right);
        },
    }
}

/// Order is kept whatever happens: the actions handed out on any run are a
/// beginning of what was still to come where the run started. No action is
/// handed out twice, early, or beyond the plan.
pub proof fn lemma_trace_within_remaining(
    count: i64,
    grace_ms: u64,
    state: ProvisionState,
    outcomes: Seq<Outcome>,
)
    ensures
        trace(count, grace_ms, state, outcomes).is_prefix_of(remaining(count, grace_ms, state)),
    decreases outcomes.len(),
{
    if outcomes.len() > 0 {
        let next = next_state(count, state, outcomes[0]);
        let ahead = next_state(count, state, Outcome::Succeeded);
        let rest = outcomes.drop_first();
        lemma_trace_within_remaining(count, grace_ms, next, rest);
        lemma_remaining_unfolds(count, grace_ms, state);
        let head = pending(count, grace_ms, state);
        let tail = trace(count, grace_ms, next, rest);
        let ahead_rest = remaining(count, grace_ms, ahead);
        if next != ahead {
            assert(next is Failed || next is Rejected);
            assert(tail =~= Seq::<ProvisionAction>::empty());
        }
        assert(tail.is_prefix_of(ahead_rest));
        assert((head + ahead_rest).subrange(0, (head + tail).len() as int) =~= head + tail);
    }
}

/// Order is kept on every run of a call: the actions handed out are a
/// beginning of the plan. So the namespace comes before the coordinator,
/// the deployment before the service, both before any worker, and the
/// workers by rising index.
pub proof fn theorem_actions_follow_plan(count: i64, grace_ms: u64, outcomes: Seq<Outcome>)
    ensures
        trace(count, grace_ms, ProvisionState::Start, outcomes).is_prefix_of(plan(count, grace_ms)),
{
    lemma_trace_within_remaining(count, grace_ms, ProvisionState::Start, outcomes);
}

/// Where nothing fails, a run that is long enough ends in `Done` and has
/// handed out all that was still to come.
pub proof fn lemma_success_completes(
    count: i64,
    grace_ms: u64,
    state: ProvisionState,
    outcomes: Seq<Outcome>,
)
    requires
        count > 0,
        all_succeeded(outcomes),
        !(state is Rejected),
        !(state is Failed),
        outcomes.len() >= steps_to_done(count, state),
    ensures
        run(count, state, outcomes) == ProvisionState::Done,
        trace(count, grace_ms, state, outcomes) == remaining(count, grace_ms, state),
    decreases outcomes.len(),
{
    if state is Done {
        lemma_terminal_stays(count, grace_ms, state, outcomes);
    } else {
        assert(steps_to_done(count, state) >= 1);
        assert(outcomes[0] == Outcome::Succeeded);
        let next = next_state(count, state, Outcome::Succeeded);
        let rest = outcomes.drop_first();
        assert(all_succeeded(rest)) by {
            assert forall|i: int| 0 <= i < rest.len() implies #[trigger] rest[i]
                == Outcome::Succeeded by {
                assert(rest[i] == outcomes[i + 1]);
            }
        }
        assert(steps_to_done(count, next) <= steps_to_done(count, state) - 1);
        lemma_success_completes(count, grace_ms, next, rest);
        lemma_remaining_unfolds(count, grace_ms, state);
    }
}

/// A call for a positive count in which nothing fails ends in `Done`, is
/// answered with `200`, and has handed out exactly the plan: one namespace,
/// one deployment, one service, the grace period, and each of the `count`
/// workers once, in that order.
pub proof fn theorem_success_follows_whole_plan(count: i64, grace_ms: u64, outcomes: Seq<Outcome>)
    requires
        count > 0,
        all_succeeded(outcomes),
        outcomes.len() >= 7 + 2 * count,
    ensures
        run(count, ProvisionState::Start, outcomes) == ProvisionState::Done,
        status_of(run(count, ProvisionState::Start, outcomes)) == Some(STATUS_OK),
        trace(count, grace_ms, ProvisionState::Start, outcomes) == plan(count, grace_ms),
{
    lemma_success_completes(count, grace_ms, ProvisionState::Start, outcomes);
}

/// The first step of a call for a count that is not below zero hands out
/// nothing and leads to the creation of the namespace; the second step
/// settles that creation.
proof fn lemma_first_two_steps(count: i64, grace_ms: u64, outcomes: Seq<Outcome>)
    requires
        count >= 0,
        outcomes.len() >= 2,
    ensures
        run(count, ProvisionState::Start, outcomes) == run(
            count,
            next_state(count, ProvisionState::NamespaceCreating, outcomes[1]),
            outcomes.subrange(2, outcomes.len() as int),
        ),
        trace(count, grace_ms, ProvisionState::Start, outcomes) == seq![
            ProvisionAction::CreateNamespace,
        ] + trace(
            count,
            grace_ms,
            next_state(count, ProvisionState::NamespaceCreating, outcomes[1]),
            outcomes.subrange(2, outcomes.len() as int),
        ),
{
    let first = outcomes.drop_first();
    let second = first.drop_first();
    assert(first[0] == outcomes[1]);
    assert(second =~= outcomes.subrange(2, outcomes.len() as int));
    let after = next_state(count, ProvisionState::NamespaceCreating, outcomes[1]);
    assert(run(count, ProvisionState::Start, outcomes) == run(
        count,
        ProvisionState::NamespaceCreating,
        first,
    ));
    assert(run(count, ProvisionState::NamespaceCreating, first) == run(count, after, second));
    assert(trace(count, grace_ms, ProvisionState::Start, outcomes) =~= trace(
        count,
        grace_ms,
        ProvisionState::NamespaceCreating,
        first,
    ));
    assert(trace(count, grace_ms, ProvisionState::NamespaceCreating, first) =~= seq![
        ProvisionAction::CreateNamespace,
    ] + trace(count, grace_ms, after, second));
}

/// A call whose namespace cannot be created ends there: the state is
/// `Failed` with the classified failure, the answer is `500`, and the
/// attempt on the namespace is the only action ever handed out. With status
/// 401 the failure is `Unauthorized`. (A call for a count below zero makes
/// no such attempt, so the theorem speaks of the other counts.)
pub proof fn theorem_namespace_failure_aborts(count: i64, grace_ms: u64, outcomes: Seq<Outcome>)
    requires
        count >= 0,
        outcomes.len() >= 2,
        outcomes[1] != Outcome::Succeeded,
    ensures
        run(count, ProvisionState::Start, outcomes) == ProvisionState::Failed(
            failure_of(outcomes[1]),
        ),
        outcomes[1] == Outcome::ApiError(401) ==> run(count, ProvisionState::Start, outcomes)
            == ProvisionState::Failed(ControlPlaneError::Unauthorized),
        status_of(run(count, ProvisionState::Start, outcomes)) == Some(STATUS_INTERNAL_ERROR),
        trace(count, grace_ms, ProvisionState::Start, outcomes) == seq![
            ProvisionAction::CreateNamespace,
        ],
{
    lemma_first_two_steps(count, grace_ms, outcomes);
    let failed = ProvisionState::Failed(failure_of(outcomes[1]));
    lemma_terminal_stays(count, grace_ms, failed, outcomes.subrange(2, outcomes.len() as int));
}

/// A call for a count below zero creates nothing: it hands out no action
/// at all, and from its first step on it is rejected and answered with
/// `400`.
pub proof fn theorem_negative_count_creates_nothing(
    count: i64,
    grace_ms: u64,
    outcomes: Seq<Outcome>,
)
    requires
        count < 0,
    ensures
        trace(count, grace_ms, ProvisionState::Start, outcomes) == Seq::<ProvisionAction>::empty(),
        outcomes.len() >= 1 ==> run(count, ProvisionState::Start, outcomes)
            == ProvisionState::Rejected && status_of(run(count, ProvisionState::Start, outcomes))
            == Some(STATUS_BAD_REQUEST),
{
    theorem_actions_follow_plan(count, grace_ms, outcomes);
    if outcomes.len() >= 1 {
        lemma_terminal_stays(count, grace_ms, ProvisionState::Rejected, outcomes.drop_first());
    }
}

/// A call for a count that is not positive never reaches the coordinator or
/// a worker: the attempt on the namespace is the only action it can hand
/// out, and it never ends in `Done`. A call for a count of zero is rejected
/// and answered with `400` once the namespace exists.
pub proof fn theorem_bad_count_is_rejected(count: i64, grace_ms: u64, outcomes: Seq<Outcome>)
    requires
        count <= 0,
    ensures
        trace(count, grace_ms, ProvisionState::Start, outcomes).is_prefix_of(
            seq![ProvisionAction::CreateNamespace],
        ),
        run(count, ProvisionState::Start, outcomes) != ProvisionState::Done,
        count == 0 && outcomes.len() >= 3 && outcomes[1] == Outcome::Succeeded ==> run(
            count,
            ProvisionState::Start,
            outcomes,
        ) == ProvisionState::Rejected && status_of(run(count, ProvisionState::Start, outcomes))
            == Some(STATUS_BAD_REQUEST),
{
    theorem_actions_follow_plan(count, grace_ms, outcomes);
    if count < 0 {
        theorem_negative_count_creates_nothing(count, grace_ms, outcomes);
    } else if outcomes.len() == 0 {
    } else if outcomes.len() == 1 {
        assert(run(count, ProvisionState::Start, outcomes) == run(
            count,
            ProvisionState::NamespaceCreating,
            outcomes.drop_first(),
        ));
    } else {
        lemma_first_two_steps(count, grace_ms, outcomes);
        let after = next_state(count, ProvisionState::NamespaceCreating, outcomes[1]);
        let rest = outcomes.subrange(2, outcomes.len() as int);
        if outcomes[1] == Outcome::Succeeded {
            if rest.len() > 0 {
                assert(run(count, after, rest) == run(
                    count,
                    ProvisionState::Rejected,
                    rest.drop_first(),
                ));
                lemma_terminal_stays(count, grace_ms, ProvisionState::Rejected, rest.drop_first());
            }
        } else {
            lemma_terminal_stays(count, grace_ms, after, rest);
        }
    }
}

} // verus!
