//! What a worker agent does as a whole, whatever events it meets: it
//! always comes to its end, it looks the coordinator up a bounded number of
//! times, it registers once, and unless the registration never reached the
//! coordinator it computes and submits once each, in that order.

use crate::worker::{
    agent_action_of, agent_next, AgentAction, AgentEvent, AgentState, COMPUTE_PAD_MS,
    DNS_ATTEMPTS, SETTLE_MS,
};
use vstd::prelude::*;

verus! {

/// The state reached from `state` after one step for each of `events`.
pub open spec fn agent_run(state: AgentState, events: Seq<AgentEvent>) -> AgentState
    decreases events.len(),
{
    if events.len() == 0 {
        state
    } else {
        agent_run(agent_next(state, events[0]), events.drop_first())
    }
}

/// The pending action of `state` as a sequence of one or no action.
pub open spec fn agent_pending(state: AgentState) -> Seq<AgentAction> {
    match agent_action_of(state) {
        Some(a) => seq![a],
        None => Seq::empty(),
    }
}

/// The actions handed out on the way from `state` through one step for each
/// of `events`.
pub open spec fn agent_trace(state: AgentState, events: Seq<AgentEvent>) -> Seq<AgentAction>
    decreases events.len(),
{
    if events.len() == 0 {
        Seq::empty()
    } else {
        agent_pending(state) + agent_trace(agent_next(state, events[0]), events.drop_first())
    }
}

/// How often `actions` asks for a name lookup.
pub open spec fn lookups(actions: Seq<AgentAction>) -> nat
    decreases actions.len(),
{
    if actions.len() == 0 {
        0
    } else {
        lookups(actions.drop_last()) + if actions.last() == AgentAction::ResolveCoordinator {
            1nat
        } else {
            0nat
        }
    }
}

/// What an agent does once discovery is over and its registration reaches
/// the coordinator: it waits, registers, waits, computes, waits and submits.
pub open spec fn after_discovery() -> Seq<AgentAction> {
    seq![
        AgentAction::Pause(SETTLE_MS),
        AgentAction::SendRegister,
        AgentAction::Pause(COMPUTE_PAD_MS),
        AgentAction::Compute,
        AgentAction::Pause(COMPUTE_PAD_MS),
        AgentAction::SendResult,
    ]
}

/// The largest number of steps that can still be taken from `state`.
pub open spec fn steps_left(state: AgentState) -> int {
    match state {
        AgentState::Start => 15,
        AgentState::Discovering { attempt } => if attempt < DNS_ATTEMPTS {
            8 + 2 * (DNS_ATTEMPTS - attempt)
        } else {
            8
        },
        AgentState::Backoff { attempt } => if attempt < DNS_ATTEMPTS {
            7 + 2 * (DNS_ATTEMPTS - attempt)
        } else {
            7
        },
        AgentState::Settling => 6,
        AgentState::Registering => 5,
        AgentState::Warming => 4,
        AgentState::Computing => 3,
        AgentState::Cooling => 2,
        AgentState::Submitting => 1,
        AgentState::Exited => 0,
    }
}

/// The largest number of lookups that can still be asked for from `state`.
pub open spec fn lookups_left(state: AgentState) -> nat {
    match state {
        AgentState::Start => DNS_ATTEMPTS as nat,
        AgentState::Discovering { attempt } => if attempt < DNS_ATTEMPTS {
            (DNS_ATTEMPTS - attempt + 1) as nat
        } else {
            1
        },
        AgentState::Backoff { attempt } => if attempt < DNS_ATTEMPTS {
            (DNS_ATTEMPTS - attempt) as nat
        } else {
            0
        },
        _ => 0,
    }
}

proof fn lemma_lookups_prepend(first: AgentAction, rest: Seq<AgentAction>)
    ensures
        lookups(seq![first] + rest) == lookups(rest) + if first == AgentAction::ResolveCoordinator {
            1nat
        } else {
            0nat
        },
    decreases rest.len(),
{
    let all = seq![first] + rest;
    if rest.len() == 0 {
        assert(all.drop_last() =~= Seq::<AgentAction>::empty());
        assert(lookups(all.drop_last()) == 0);
    } else {
        assert(all.drop_last() =~= seq![first] + rest.drop_last());
        assert(all.last() == rest.last());
        lemma_lookups_prepend(first, rest.drop_last());
    }
}

/// The agent has left and hands out nothing more.
pub proof fn lemma_exited_stays(events: Seq<AgentEvent>)
    ensures
        agent_run(AgentState::Exited, events) == AgentState::Exited,
        agent_trace(AgentState::Exited, events) == Seq::<AgentAction>::empty(),
    decreases events.len(),
{
    if events.len() > 0 {
        lemma_exited_stays(events.drop_first());
    }
}

/// Whatever happens, an agent comes to its end within the steps that are
/// left to it: no event holds it up.
pub proof fn lemma_agent_exits(state: AgentState, events: Seq<AgentEvent>)
    requires
        events.len() >= steps_left(state),
    ensures
        agent_run(state, events) == AgentState::Exited,
    decreases events.len(),
{
    if state is Exited {
        lemma_exited_stays(events);
    } else {
        let next = agent_next(state, events[0]);
        assert(steps_left(next) <= steps_left(state) - 1);
        lemma_agent_exits(next, events.drop_first());
    }
}

/// Whatever happens, an agent that started has left after fifteen steps.
pub proof fn theorem_agent_always_exits(events: Seq<AgentEvent>)
    requires
        events.len() >= 15,
    ensures
        agent_run(AgentState::Start, events) == AgentState::Exited,
{
    lemma_agent_exits(AgentState::Start, events);
}

/// Whatever happens, no more lookups are asked for than are left.
pub proof fn lemma_lookups_bounded(state: AgentState, events: Seq<AgentEvent>)
    ensures
        lookups(agent_trace(state, events)) <= lookups_left(state),
    decreases events.len(),
{
    if events.len() > 0 {
        let next = agent_next(state, events[0]);
        let rest = agent_trace(next, events.drop_first());
        lemma_lookups_bounded(next, events.drop_first());
        match agent_action_of(state) {
            Some(a) => {
                lemma_lookups_prepend(a, rest);
            },
            None => {
                assert(agent_pending(state) + rest =~= rest);
            },
        }
    }
}

/// Whatever happens, an agent asks for the coordinator's address at most
/// four times.
pub proof fn theorem_discovery_is_bounded(events: Seq<AgentEvent>)
    ensures
        lookups(agent_trace(AgentState::Start, events)) <= DNS_ATTEMPTS,
{
    lemma_lookups_bounded(AgentState::Start, events);
}

/// What an agent does once discovery is over and its registration never
/// reaches the coordinator: it waits, tries to register, and leaves.
pub open spec fn lost_registration() -> Seq<AgentAction> {
    seq![AgentAction::Pause(SETTLE_MS), AgentAction::SendRegister]
}

/// Once discovery is over, the rest is decided by one thing only, whether
/// the registration reached the coordinator. If it did not, the agent
/// leaves without computing. If it did, then whatever the coordinator
/// answered, and whatever becomes of the submission, the agent registers
/// once, computes once, submits once and leaves. Nothing is tried again.
pub proof fn theorem_no_retry_after_discovery(events: Seq<AgentEvent>)
    requires
        events.len() >= 6,
    ensures
        agent_run(AgentState::Settling, events) == AgentState::Exited,
        agent_trace(AgentState::Settling, events) == if events[1] == AgentEvent::NetworkFailure {
            lost_registration()
        } else {
            after_discovery()
        },
{
    let e1 = events.drop_first();
    let e2 = e1.drop_first();
    let e3 = e2.drop_first();
    let e4 = e3.drop_first();
    let e5 = e4.drop_first();
    let e6 = e5.drop_first();
    assert(e1[0] == events[1]);
    lemma_exited_stays(e6);
    lemma_exited_stays(e2);
    assert(agent_run(AgentState::Submitting, e5) == AgentState::Exited);
    assert(agent_run(AgentState::Cooling, e4) == AgentState::Exited);
    assert(agent_run(AgentState::Computing, e3) == AgentState::Exited);
    assert(agent_run(AgentState::Warming, e2) == AgentState::Exited);
    assert(agent_run(AgentState::Registering, e1) == AgentState::Exited);
    assert(agent_trace(AgentState::Submitting, e5) =~= seq![AgentAction::SendResult]);
    assert(agent_trace(AgentState::Cooling, e4) =~= seq![
        AgentAction::Pause(COMPUTE_PAD_MS),
        AgentAction::SendResult,
    ]);
    assert(agent_trace(AgentState::Computing, e3) =~= seq![
        AgentAction::Compute,
        AgentAction::Pause(COMPUTE_PAD_MS),
        AgentAction::SendResult,
    ]);
    assert(agent_trace(AgentState::Warming, e2) =~= seq![
        AgentAction::Pause(COMPUTE_PAD_MS),
        AgentAction::Compute,
        AgentAction::Pause(COMPUTE_PAD_MS),
        AgentAction::SendResult,
    ]);
    if events[1] == AgentEvent::NetworkFailure {
        assert(agent_trace(AgentState::Registering, e1) =~= seq![AgentAction::SendRegister]);
        assert(agent_trace(AgentState::Settling, events) =~= lost_registration());
    } else {
        assert(agent_trace(AgentState::Registering, e1) =~= seq![
            AgentAction::SendRegister,
            AgentAction::Pause(COMPUTE_PAD_MS),
            AgentAction::Compute,
            AgentAction::Pause(COMPUTE_PAD_MS),
            AgentAction::SendResult,
        ]);
        assert(agent_trace(AgentState::Settling, events) =~= after_discovery());
    }
}

} // verus!
