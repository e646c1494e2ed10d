//! The worker agent: a unit that finds the coordinator, registers, computes
//! once, hands in its result and exits.
//!
//! The agent is a state machine of the same kind as the orchestrator's.
//! Every state but the last has one pending action; the caller performs it
//! and hands the event that ended it to [`agent_step`]. Nothing is tried
//! again but the name lookup. A registration that never reached the
//! coordinator ends the agent there, and its contribution is lost; an
//! answer that refuses the registration does not.

use crate::chance::{is_hyphenated_v4, random_between, random_uuid};
use crate::manifest::discovery_service;
use vstd::prelude::*;

verus! {

/// Wait before the first name lookup, in milliseconds.
pub const STARTUP_DELAY_MS: u64 = 5000;

/// Number of name lookups after which the agent goes on without an address.
pub const DNS_ATTEMPTS: u32 = 4;

/// Wait after a lookup that found no address, in milliseconds.
pub const DNS_RETRY_MS: u64 = 500;

/// Wait between discovery and registration, in milliseconds.
pub const SETTLE_MS: u64 = 20000;

/// Wait before and after the computation, in milliseconds.
pub const COMPUTE_PAD_MS: u64 = 5000;

/// Smallest and largest limit up to which a worker computes.
pub const LIMIT_MIN: u64 = 100000;

pub const LIMIT_MAX: u64 = 2500000;

/// The name under which a worker looks the coordinator up.
pub const COORDINATOR_HOST: &'static str = "instance-service-headless";

/// Where a worker registers, with `POST`.
pub const REGISTER_URL: &'static str = "http://instance-service-headless:8080/register";

/// Where a worker hands in its result, with `PUT`.
pub const RESULT_URL: &'static str = "http://instance-service-headless:8080/result";

/// Body of the registration that a worker sends.
#[derive(Debug, Clone, PartialEq, Eq)]
pub struct RegisterPayload {
    pub id: String,
}

/// Body of the result that a worker sends.
#[derive(Debug, Clone, PartialEq, Eq)]
pub struct ResultPayload {
    pub id: String,
    pub primes: Vec<usize>,
}

/// What is drawn for a worker when it starts.
#[derive(Debug, Clone, PartialEq, Eq)]
pub struct WorkerAgent {
    pub id: String,
    pub limit: usize,
}

/// How a name lookup ended.
#[derive(Debug, Clone, Copy, PartialEq, Eq)]
pub enum Lookup {
    /// The resolver answered with this many addresses.
    Answers(usize),
    Failed,
}

/// What a lookup means for the discovery.
#[derive(Debug, Clone, Copy, PartialEq, Eq)]
pub enum DnsVerdict {
    /// An address was found.
    Ready,
    /// No address yet: wait, then look up again.
    Retry,
    /// No address at the last attempt: wait, then go on without one.
    Exhausted,
    /// The resolver failed: go on without an address.
    Errored,
}

/// How a submission was received.
#[derive(Debug, Clone, Copy, PartialEq, Eq)]
pub enum SubmissionReport {
    Accepted,
    ClientError,
    ServerError,
}

/// Where an agent stands.
#[derive(Debug, Clone, Copy, PartialEq, Eq)]
pub enum AgentState {
    Start,
    /// The lookup with this number, counted from one, is under way.
    Discovering { attempt: u32 },
    /// The wait after the lookup with this number is under way.
    Backoff { attempt: u32 },
    Settling,
    Registering,
    Warming,
    Computing,
    Cooling,
    Submitting,
    Exited,
}

/// What the caller is to do next.
#[derive(Debug, Clone, Copy, PartialEq, Eq)]
pub enum AgentAction {
    /// Wait for this many milliseconds.
    Pause(u64),
    ResolveCoordinator,
    SendRegister,
    Compute,
    SendResult,
}

/// What ended the pending action.
#[derive(Debug, Clone, Copy, PartialEq, Eq)]
pub enum AgentEvent {
    /// A wait is over.
    Elapsed,
    Looked(Lookup),
    /// The coordinator answered with this status.
    Answered(u16),
    /// A request never reached the coordinator or its answer was lost.
    NetworkFailure,
    Computed,
}

/// What the lookup with the given number, counted from one, means.
pub open spec fn dns_verdict(attempt: u32, lookup: Lookup) -> DnsVerdict {
    match lookup {
        Lookup::Answers(n) => if n > 0 {
            DnsVerdict::Ready
        } else if attempt < DNS_ATTEMPTS {
            DnsVerdict::Retry
        } else {
            DnsVerdict::Exhausted
        },
        Lookup::Failed => DnsVerdict::Errored,
    }
}

/// Only the status `201` confirms a registration.
pub open spec fn registration_confirmed(status: u16) -> bool {
    status == 201
}

/// `200` accepts a submission, a status from 400 up to 499 blames the
/// worker, every other status the coordinator.
pub open spec fn submission_report(status: u16) -> SubmissionReport {
    if status == 200 {
        SubmissionReport::Accepted
    } else if 400 <= status && status < 500 {
        SubmissionReport::ClientError
    } else {
        SubmissionReport::ServerError
    }
}

/// The pending action of `state`; the last state has none.
pub open spec fn agent_action_of(state: AgentState) -> Option<AgentAction> {
    match state {
        AgentState::Start => Some(AgentAction::Pause(STARTUP_DELAY_MS)),
        AgentState::Discovering { .. } => Some(AgentAction::ResolveCoordinator),
        AgentState::Backoff { .. } => Some(AgentAction::Pause(DNS_RETRY_MS)),
        AgentState::Settling => Some(AgentAction::Pause(SETTLE_MS)),
        AgentState::Registering => Some(AgentAction::SendRegister),
        AgentState::Warming => Some(AgentAction::Pause(COMPUTE_PAD_MS)),
        AgentState::Computing => Some(AgentAction::Compute),
        AgentState::Cooling => Some(AgentAction::Pause(COMPUTE_PAD_MS)),
        AgentState::Submitting => Some(AgentAction::SendResult),
        AgentState::Exited => None,
    }
}

/// The state that follows `state` once `event` has ended its pending
/// action. A lookup that found no address is followed by a wait and, before
/// the last attempt, by another lookup. A registration that never reached
/// the coordinator ends the agent. Every other event moves the agent on, a
/// failed lookup and a refused registration too.
pub open spec fn agent_next(state: AgentState, event: AgentEvent) -> AgentState {
    match state {
        AgentState::Start => AgentState::Discovering { attempt: 1 },
        AgentState::Discovering { attempt } => match event {
            AgentEvent::Looked(Lookup::Answers(n)) => if n > 0 {
                AgentState::Settling
            } else {
                AgentState::Backoff { attempt }
            },
            _ => AgentState::Settling,
        },
        AgentState::Backoff { attempt } => if attempt < DNS_ATTEMPTS {
            AgentState::Discovering { attempt: (attempt + 1) as u32 }
        } else {
            AgentState::Settling
        },
        AgentState::Settling => AgentState::Registering,
        AgentState::Registering => match event {
            AgentEvent::NetworkFailure => AgentState::Exited,
            _ => AgentState::Warming,
        },
        AgentState::Warming => AgentState::Computing,
        AgentState::Computing => AgentState::Cooling,
        AgentState::Cooling => AgentState::Submitting,
        AgentState::Submitting => AgentState::Exited,
        AgentState::Exited => AgentState::Exited,
    }
}

/// Decides what the lookup with the given number, counted from one, means
/// for the discovery: an address ends it, a failure of the resolver ends it,
/// and no address leads to a wait and, before the last attempt, to another
/// lookup.
pub fn query_until_dns_ready(attempt: u32, lookup: Lookup) -> (verdict: DnsVerdict)
    ensures
        verdict == dns_verdict(attempt, lookup),
{
    match lookup {
        Lookup::Answers(n) => {
            if n > 0 {
                DnsVerdict::Ready
            } else if attempt < DNS_ATTEMPTS {
                DnsVerdict::Retry
            } else {
                DnsVerdict::Exhausted
            }
        },
        Lookup::Failed => DnsVerdict::Errored,
    }
}

/// Whether the coordinator's answer confirms the registration.
pub fn registration_accepted(status: u16) -> (ok: bool)
    ensures
        ok == registration_confirmed(status),
{
    status == 201
}

/// Reads the coordinator's answer to a submission.
pub fn classify_submission(status: u16) -> (report: SubmissionReport)
    ensures
        report == submission_report(status),
{
    if status == 200 {
        SubmissionReport::Accepted
    } else if status >= 400 && status < 500 {
        SubmissionReport::ClientError
    } else {
        SubmissionReport::ServerError
    }
}

/// The action that is pending in `state`.
pub fn agent_action(state: AgentState) -> (action: Option<AgentAction>)
    ensures
        action == agent_action_of(state),
{
    match state {
        AgentState::Start => Some(AgentAction::Pause(STARTUP_DELAY_MS)),
        AgentState::Discovering { .. } => Some(AgentAction::ResolveCoordinator),
        AgentState::Backoff { .. } => Some(AgentAction::Pause(DNS_RETRY_MS)),
        AgentState::Settling => Some(AgentAction::Pause(SETTLE_MS)),
        AgentState::Registering => Some(AgentAction::SendRegister),
        AgentState::Warming => Some(AgentAction::Pause(COMPUTE_PAD_MS)),
        AgentState::Computing => Some(AgentAction::Compute),
        AgentState::Cooling => Some(AgentAction::Pause(COMPUTE_PAD_MS)),
        AgentState::Submitting => Some(AgentAction::SendResult),
        AgentState::Exited => None,
    }
}

/// One step of an agent: from the state whose pending action was ended by
/// `event` to the state that follows.
pub fn agent_step(state: AgentState, event: AgentEvent) -> (next: AgentState)
    ensures
        next == agent_next(state, event),
{
    match state {
        AgentState::Start => AgentState::Discovering { attempt: 1 },
        AgentState::Discovering { attempt } => match event {
            AgentEvent::Looked(lookup) => match query_until_dns_ready(attempt, lookup) {
                DnsVerdict::Ready => AgentState::Settling,
                DnsVerdict::Errored => AgentState::Settling,
                DnsVerdict::Retry => AgentState::Backoff { attempt },
                DnsVerdict::Exhausted => AgentState::Backoff { attempt },
            },
            _ => AgentState::Settling,
        },
        AgentState::Backoff { attempt } => {
            if attempt < DNS_ATTEMPTS {
                AgentState::Discovering { attempt: attempt + 1 }
            } else {
                AgentState::Settling
            }
        },
        AgentState::Settling => AgentState::Registering,
        AgentState::Registering => match event {
            AgentEvent::NetworkFailure => AgentState::Exited,
            _ => AgentState::Warming,
        },
        AgentState::Warming => AgentState::Computing,
        AgentState::Computing => AgentState::Cooling,
        AgentState::Cooling => AgentState::Submitting,
        AgentState::Submitting => AgentState::Exited,
        AgentState::Exited => AgentState::Exited,
    }
}

/// The name that the workers look up is the name that the orchestrator
/// gives the discovery service, in whatever namespace.
pub proof fn lemma_workers_look_up_the_discovery_service(namespace: Seq<char>)
    ensures
        COORDINATOR_HOST@ == discovery_service(namespace).name,
{
}

impl WorkerAgent {
    /// Draws what a worker needs: an identifier in the shape of a version 4
    /// UUID and the limit up to which it will compute.
    pub fn new() -> (agent: WorkerAgent)
        ensures
            is_hyphenated_v4(agent.id@),
            LIMIT_MIN <= agent.limit <= LIMIT_MAX,
    {
        let limit: u64 = random_between(LIMIT_MIN, LIMIT_MAX);
        WorkerAgent { id: random_uuid(), limit: limit as usize }
    }

    /// The body of this worker's registration.
    pub fn register_payload(&self) -> (p: RegisterPayload)
        ensures
            p.id@ == self.id@,
    {
        RegisterPayload { id: self.id.clone() }
    }

    /// The body of this worker's submission of `primes`.
    pub fn result_payload(&self, primes: Vec<usize>) -> (p: ResultPayload)
        ensures
            p.id@ == self.id@,
            p.primes@ == primes@,
    {
        ResultPayload { id: self.id.clone(), primes }
    }
}

} // verus!
