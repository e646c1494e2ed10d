//! Provisioning of one job: a namespace, the coordinator with its discovery
//! service, a grace period, then the worker units one after the other.
//!
//! The sequence is a state machine. Every state has at most one pending
//! action, which the caller performs against the control plane; the outcome
//! of that action is handed to [`init_workload`], which gives the next state.
//! A state without a pending action is passed through: whatever outcome is
//! handed in is disregarded.
//!
//! Nothing is rolled back and nothing is tried again: a creation that fails
//! ends the call, whatever the failure. [`ControlPlaneError::class`] says
//! which failures are worth another call; to wait and call again is left
//! to whoever called.
//!
//! A count below zero is no count: such a call is rejected before anything
//! is asked of the control plane. A count of zero is found out where the
//! count is looked at, which is after the namespace was created.

use crate::chance::{random_between, sample_alphanumeric};
use crate::config::OrchestratorConfig;
use crate::manifest::{
    add_inject_annotation_to_ns, annotations_are_a_map, bare_namespace, coordinator_deployment,
    deploy_instance_service, discovery_service, image_reference_of, inject_annotation,
    namespace_manifest, worker_manifest, worker_unit, CoordinatorManifests, NamespaceManifest,
    PodManifest,
};
use crate::text::{is_lower_alnum, to_lower_byte};
use vstd::prelude::*;

verus! {

/// Length of a generated namespace name.
pub const NAMESPACE_NAME_LEN: usize = 8;

/// Shortest and longest grace period granted to the coordinator before the
/// first worker is created, in milliseconds.
pub const GRACE_MIN_MS: u64 = 5000;

pub const GRACE_MAX_MS: u64 = 7000;

/// Pause after each worker creation, in milliseconds, which bounds the rate
/// of requests to the control plane.
pub const WORKER_PAUSE_MS: u64 = 150;

/// Status codes with which a provisioning call ends.
pub const STATUS_OK: u16 = 200;

pub const STATUS_BAD_REQUEST: u16 = 400;

pub const STATUS_INTERNAL_ERROR: u16 = 500;

/// Parameters of an inbound provisioning call.
#[derive(Debug, Clone, Copy, PartialEq, Eq)]
pub struct WorkloadConfig {
    pub count: i64,
}

/// A failure reported by the control plane.
#[derive(Debug, Clone, Copy, PartialEq, Eq)]
pub enum ControlPlaneError {
    /// The credentials were refused (status 401).
    Unauthorized,
    /// The control plane asked the caller to slow down (status 429).
    Throttled,
    /// Any other failure, with or without a status of the control plane.
    Other,
}

/// How a failure is to be treated by whoever made the call. The state
/// machine itself ends the call on either.
#[derive(Debug, Clone, Copy, PartialEq, Eq)]
pub enum ErrorClass {
    /// The call cannot succeed without an operator's intervention.
    Fatal,
    /// The same call may succeed later: the caller may wait and call again.
    Retryable,
}

/// How the pending action ended.
#[derive(Debug, Clone, Copy, PartialEq, Eq)]
pub enum Outcome {
    Succeeded,
    /// The control plane answered with this error status.
    ApiError(u16),
    /// The request failed without an answer of the control plane.
    TransportError,
}

/// Which part of the coordinator's deployment is under way.
#[derive(Debug, Clone, Copy, PartialEq, Eq)]
pub enum CoordinatorStep {
    Deployment,
    Service,
    Grace,
}

/// Where a provisioning call stands.
#[derive(Debug, Clone, Copy, PartialEq, Eq)]
pub enum ProvisionState {
    Start,
    NamespaceCreating,
    NamespaceReady,
    CoordinatorDeploying(CoordinatorStep),
    /// The grace period is over; that the coordinator serves is assumed, not
    /// observed.
    CoordinatorReady,
    /// `created` workers exist. While `pausing`, the pause after the last
    /// creation is under way.
    WorkersCreating { created: u64, pausing: bool },
    Done,
    /// The worker count was not positive. Reached from `Start` for a count
    /// below zero, from `NamespaceReady` for a count of zero.
    Rejected,
    Failed(ControlPlaneError),
}

/// What the caller is to do next.
#[derive(Debug, Clone, Copy, PartialEq, Eq)]
pub enum ProvisionAction {
    CreateNamespace,
    CreateDeployment,
    CreateService,
    /// Wait for this many milliseconds.
    Pause(u64),
    /// Create the worker unit with this index.
    CreateWorker(u64),
}

/// One provisioning call: the worker count that was asked for and what was
/// drawn for it when it arrived.
#[derive(Debug, Clone, PartialEq, Eq)]
pub struct OrchestrationRequest {
    pub count: i64,
    pub namespace: String,
    pub inject: bool,
    pub grace_ms: u64,
}

/// A namespace name as this library generates it: eight characters, each a
/// lower-case ASCII letter or a digit.
pub open spec fn is_namespace_name(s: Seq<char>) -> bool {
    &&& s.len() == NAMESPACE_NAME_LEN
    &&& forall|i: int| 0 <= i < s.len() ==> is_lower_alnum(#[trigger] s[i])
}

impl OrchestrationRequest {
    /// The request holds a generated name and a grace period within bounds.
    pub open spec fn wf(&self) -> bool {
        &&& is_namespace_name(self.namespace@)
        &&& GRACE_MIN_MS <= self.grace_ms <= GRACE_MAX_MS
    }
}

/// The class of a failure by the status that the control plane answered
/// with.
pub open spec fn classified(code: u16) -> ControlPlaneError {
    if code == 401 {
        ControlPlaneError::Unauthorized
    } else if code == 429 {
        ControlPlaneError::Throttled
    } else {
        ControlPlaneError::Other
    }
}

/// The treatment that each failure calls for. It is advice to the caller:
/// the call in which the failure happened has ended either way.
pub open spec fn class_of(e: ControlPlaneError) -> ErrorClass {
    match e {
        ControlPlaneError::Unauthorized => ErrorClass::Fatal,
        ControlPlaneError::Throttled => ErrorClass::Retryable,
        ControlPlaneError::Other => ErrorClass::Fatal,
    }
}

/// The failure that an outcome other than success stands for.
pub open spec fn failure_of(outcome: Outcome) -> ControlPlaneError {
    match outcome {
        Outcome::ApiError(code) => classified(code),
        _ => ControlPlaneError::Other,
    }
}

/// The state after a creation that ended with `outcome`: `then` on success,
/// `Failed` with the classified failure otherwise, a throttled one too.
pub open spec fn after_creation(outcome: Outcome, then: ProvisionState) -> ProvisionState {
    match outcome {
        Outcome::Succeeded => then,
        _ => ProvisionState::Failed(failure_of(outcome)),
    }
}

/// No further step leaves this state.
pub open spec fn is_terminal(state: ProvisionState) -> bool {
    state is Done || state is Rejected || state is Failed
}

/// The action that is pending in `state`, if the state has one.
pub open spec fn action_of(count: i64, grace_ms: u64, state: ProvisionState) -> Option<
    ProvisionAction,
> {
    match state {
        ProvisionState::NamespaceCreating => Some(ProvisionAction::CreateNamespace),
        ProvisionState::CoordinatorDeploying(CoordinatorStep::Deployment) => Some(
            ProvisionAction::CreateDeployment,
        ),
        ProvisionState::CoordinatorDeploying(CoordinatorStep::Service) => Some(
            ProvisionAction::CreateService,
        ),
        ProvisionState::CoordinatorDeploying(CoordinatorStep::Grace) => Some(
            ProvisionAction::Pause(grace_ms),
        ),
        ProvisionState::WorkersCreating { created, pausing } => if pausing {
            Some(ProvisionAction::Pause(WORKER_PAUSE_MS))
        } else if created < count {
            Some(ProvisionAction::CreateWorker(created))
        } else {
            None
        },
        _ => None,
    }
}

/// The state that follows `state` once its pending action has ended with
/// `outcome`. A count below zero is rejected at the start. A failed creation
/// leads to `Failed` from wherever it happened; a pause cannot fail; a
/// terminal state stays as it is.
pub open spec fn next_state(count: i64, state: ProvisionState, outcome: Outcome) -> ProvisionState {
    match state {
        ProvisionState::Start => if count < 0 {
            ProvisionState::Rejected
        } else {
            ProvisionState::NamespaceCreating
        },
        ProvisionState::NamespaceCreating => after_creation(outcome, ProvisionState::NamespaceReady),
        ProvisionState::NamespaceReady => if count > 0 {
            ProvisionState::CoordinatorDeploying(CoordinatorStep::Deployment)
        } else {
            ProvisionState::Rejected
        },
        ProvisionState::CoordinatorDeploying(CoordinatorStep::Deployment) => after_creation(
            outcome,
            ProvisionState::CoordinatorDeploying(CoordinatorStep::Service),
        ),
        ProvisionState::CoordinatorDeploying(CoordinatorStep::Service) => after_creation(
            outcome,
            ProvisionState::CoordinatorDeploying(CoordinatorStep::Grace),
        ),
        ProvisionState::CoordinatorDeploying(CoordinatorStep::Grace) => ProvisionState::CoordinatorReady,
        ProvisionState::CoordinatorReady => ProvisionState::WorkersCreating {
            created: 0,
            pausing: false,
        },
        ProvisionState::WorkersCreating { created, pausing } => if pausing {
            if created < count {
                ProvisionState::WorkersCreating { created, pausing: false }
            } else {
                ProvisionState::Done
            }
        } else if created < count {
            after_creation(
                outcome,
                ProvisionState::WorkersCreating { created: (created + 1) as u64, pausing: true },
            )
        } else {
            ProvisionState::Done
        },
        ProvisionState::Done => ProvisionState::Done,
        ProvisionState::Rejected => ProvisionState::Rejected,
        ProvisionState::Failed(e) => ProvisionState::Failed(e),
    }
}

/// The status with which the call is answered once `state` is terminal.
pub open spec fn status_of(state: ProvisionState) -> Option<u16> {
    match state {
        ProvisionState::Done => Some(STATUS_OK),
        ProvisionState::Rejected => Some(STATUS_BAD_REQUEST),
        ProvisionState::Failed(_) => Some(STATUS_INTERNAL_ERROR),
        _ => None,
    }
}

/// The namespace manifest of a request: its generated name, and the
/// injection annotation if the request asks for it.
pub open spec fn namespace_view_of(name: Seq<char>, inject: bool) -> crate::manifest::NamespaceManifestView {
    if inject {
        crate::manifest::NamespaceManifestView {
            name,
            annotations: Some(seq![inject_annotation()]),
        }
    } else {
        bare_namespace(name)
    }
}

/// Classifies a failure by the status that the control plane answered with.
pub fn classify(code: u16) -> (e: ControlPlaneError)
    ensures
        e == classified(code),
{
    if code == 401 {
        ControlPlaneError::Unauthorized
    } else if code == 429 {
        ControlPlaneError::Throttled
    } else {
        ControlPlaneError::Other
    }
}

impl ControlPlaneError {
    /// The treatment that this failure calls for.
    pub fn class(&self) -> (c: ErrorClass)
        ensures
            c == class_of(*self),
    {
        match self {
            ControlPlaneError::Unauthorized => ErrorClass::Fatal,
            ControlPlaneError::Throttled => ErrorClass::Retryable,
            ControlPlaneError::Other => ErrorClass::Fatal,
        }
    }
}

/// Whether the injection flag, as read from the configuration, asks for
/// injection: only the value `true` does.
pub fn inject_enabled(flag: Option<&str>) -> (on: bool)
    ensures
        on == (flag matches Some(v) && v@ == "true"@),
{
    match flag {
        Some(v) => {
            let wanted = crate::text::owned("true");
            let given = crate::text::owned(v);
            given == wanted
        },
        None => false,
    }
}

/// Generates the name of a job's namespace: eight characters drawn from the
/// ASCII letters and digits, letters folded to lower case.
pub fn gen_target_ns() -> (ns: String)
    ensures
        is_namespace_name(ns@),
{
    let mut ns = String::new();
    let mut i: usize = 0;
    while i < NAMESPACE_NAME_LEN
        invariant
            i <= NAMESPACE_NAME_LEN,
            ns@.len() == i,
            forall|j: int| 0 <= j < ns@.len() ==> is_lower_alnum(#[trigger] ns@[j]),
        decreases NAMESPACE_NAME_LEN - i,
    {
        let b: u8 = to_lower_byte(sample_alphanumeric());
        ns.push(b as char);
        i += 1;
    }
    ns
}

impl OrchestrationRequest {
    /// Takes up an inbound call: keeps the count as it was asked for, valid
    /// or not, generates the namespace name and draws the grace period.
    pub fn new(workload: WorkloadConfig, inject: bool) -> (req: OrchestrationRequest)
        ensures
            req.wf(),
            req.count == workload.count,
            req.inject == inject,
    {
        OrchestrationRequest {
            count: workload.count,
            namespace: gen_target_ns(),
            inject,
            grace_ms: random_between(GRACE_MIN_MS, GRACE_MAX_MS),
        }
    }

    /// The manifest of the job's namespace.
    pub fn namespace_manifest(&self) -> (ns: NamespaceManifest)
        ensures
            ns@ == namespace_view_of(self.namespace@, self.inject),
            annotations_are_a_map(ns@),
    {
        let mut ns = namespace_manifest(self.namespace.as_str());
        if self.inject {
            add_inject_annotation_to_ns(&mut ns);
        }
        ns
    }

    /// The manifests of the job's coordinator, for the image that the
    /// configuration names.
    pub fn coordinator_manifests(&self, config: &OrchestratorConfig) -> (m: CoordinatorManifests)
        ensures
            m.deployment@ == coordinator_deployment(
                self.namespace@,
                image_reference_of(config.registry_base@, config.instance_image@),
            ),
            m.service@ == discovery_service(self.namespace@),
    {
        let image = config.coordinator_image();
        deploy_instance_service(self.namespace.as_str(), image.as_str())
    }

    /// The manifest of the job's worker with the given index, for the image
    /// that the configuration names.
    pub fn worker_manifest(&self, config: &OrchestratorConfig, index: u64) -> (p: PodManifest)
        ensures
            p@ == worker_unit(
                self.namespace@,
                image_reference_of(config.registry_base@, config.sieve_image@),
                index as nat,
            ),
    {
        let image = config.worker_image();
        worker_manifest(self.namespace.as_str(), image.as_str(), index)
    }

    /// The action that is pending in `state`, if the state has one.
    pub fn pending_action(&self, state: ProvisionState) -> (action: Option<ProvisionAction>)
        ensures
            action == action_of(self.count, self.grace_ms, state),
    {
        match state {
            ProvisionState::NamespaceCreating => Some(ProvisionAction::CreateNamespace),
            ProvisionState::CoordinatorDeploying(step) => match step {
                CoordinatorStep::Deployment => Some(ProvisionAction::CreateDeployment),
                CoordinatorStep::Service => Some(ProvisionAction::CreateService),
                CoordinatorStep::Grace => Some(ProvisionAction::Pause(self.grace_ms)),
            },
            ProvisionState::WorkersCreating { created, pausing } => {
                if pausing {
                    Some(ProvisionAction::Pause(WORKER_PAUSE_MS))
                } else if self.has_more(created) {
                    Some(ProvisionAction::CreateWorker(created))
                } else {
                    None
                }
            },
            _ => None,
        }
    }

    fn has_more(&self, created: u64) -> (more: bool)
        ensures
            more == (created < self.count),
    {
        self.count > 0 && created < self.count as u64
    }
}

fn settle(outcome: Outcome, then: ProvisionState) -> (next: ProvisionState)
    ensures
        next == after_creation(outcome, then),
{
    match outcome {
        Outcome::Succeeded => then,
        Outcome::ApiError(code) => ProvisionState::Failed(classify(code)),
        Outcome::TransportError => ProvisionState::Failed(ControlPlaneError::Other),
    }
}

/// One step of a provisioning call: from the state whose pending action has
/// ended with `outcome` to the state that follows.
///
/// A call with a count below zero is rejected in its first step. The
/// namespace is created before the worker count is looked at, so a call with
/// a count of zero is rejected once its namespace exists.
pub fn init_workload(req: &OrchestrationRequest, state: ProvisionState, outcome: Outcome) -> (next:
    ProvisionState)
    ensures
        next == next_state(req.count, state, outcome),
{
    match state {
        ProvisionState::Start => {
            if req.count < 0 {
                ProvisionState::Rejected
            } else {
                ProvisionState::NamespaceCreating
            }
        },
        ProvisionState::NamespaceCreating => settle(outcome, ProvisionState::NamespaceReady),
        ProvisionState::NamespaceReady => {
            if req.count > 0 {
                ProvisionState::CoordinatorDeploying(CoordinatorStep::Deployment)
            } else {
                ProvisionState::Rejected
            }
        },
        ProvisionState::CoordinatorDeploying(step) => match step {
            CoordinatorStep::Deployment => settle(
                outcome,
                ProvisionState::CoordinatorDeploying(CoordinatorStep::Service),
            ),
            CoordinatorStep::Service => settle(
                outcome,
                ProvisionState::CoordinatorDeploying(CoordinatorStep::Grace),
            ),
            CoordinatorStep::Grace => ProvisionState::CoordinatorReady,
        },
        ProvisionState::CoordinatorReady => ProvisionState::WorkersCreating {
            created: 0,
            pausing: false,
        },
        ProvisionState::WorkersCreating { created, pausing } => {
            if !req.has_more(created) {
                ProvisionState::Done
            } else if pausing {
                ProvisionState::WorkersCreating { created, pausing: false }
            } else {
                settle(outcome, ProvisionState::WorkersCreating { created: created + 1, pausing: true })
            }
        },
        ProvisionState::Done => ProvisionState::Done,
        ProvisionState::Rejected => ProvisionState::Rejected,
        ProvisionState::Failed(e) => ProvisionState::Failed(e),
    }
}

/// The status with which the call is answered: `200` when all was created,
/// `400` when the count was rejected, `500` after a failure of the control
/// plane, and none while the call is under way.
pub fn response_status(state: ProvisionState) -> (status: Option<u16>)
    ensures
        status == status_of(state),
        status is Some <==> is_terminal(state),
{
    match state {
        ProvisionState::Done => Some(STATUS_OK),
        ProvisionState::Rejected => Some(STATUS_BAD_REQUEST),
        ProvisionState::Failed(_) => Some(STATUS_INTERNAL_ERROR),
        _ => None,
    }
}

} // verus!
