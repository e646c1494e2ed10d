use sieve_fanout::config::OrchestratorConfig;
use sieve_fanout::manifest::Annotation;
use sieve_fanout::orchestrator::{
    classify, gen_target_ns, init_workload, inject_enabled, response_status, ControlPlaneError,
    CoordinatorStep, ErrorClass, OrchestrationRequest, Outcome, ProvisionAction, ProvisionState,
    WorkloadConfig,
};

fn request(count: i64) -> OrchestrationRequest {
    OrchestrationRequest::new(WorkloadConfig { count }, false)
}

/// Runs a call to its end; `answer` decides how each action ends.
fn drive(
    req: &OrchestrationRequest,
    answer: &dyn Fn(usize, ProvisionAction) -> Outcome,
) -> (ProvisionState, Vec<ProvisionAction>) {
    let mut state = ProvisionState::Start;
    let mut actions = Vec::new();
    let mut steps = 0;
    while response_status(state).is_none() {
        let outcome = match req.pending_action(state) {
            Some(action) => {
                actions.push(action);
                answer(actions.len() - 1, action)
            }
            None => Outcome::Succeeded,
        };
        state = init_workload(req, state, outcome);
        steps += 1;
        assert!(steps < 10_000);
    }
    (state, actions)
}

#[test]
fn three_workers_are_created_after_namespace_and_coordinator() {
    let req = request(3);
    let (state, actions) = drive(&req, &|_, _| Outcome::Succeeded);
    assert_eq!(state, ProvisionState::Done);
    assert_eq!(response_status(state), Some(200));
    assert_eq!(
        actions,
        vec![
            ProvisionAction::CreateNamespace,
            ProvisionAction::CreateDeployment,
            ProvisionAction::CreateService,
            ProvisionAction::Pause(req.grace_ms),
            ProvisionAction::CreateWorker(0),
            ProvisionAction::Pause(150),
            ProvisionAction::CreateWorker(1),
            ProvisionAction::Pause(150),
            ProvisionAction::CreateWorker(2),
            ProvisionAction::Pause(150),
        ]
    );
}

#[test]
fn a_count_of_zero_is_rejected_once_the_namespace_exists() {
    let req = request(0);
    let (state, actions) = drive(&req, &|_, _| Outcome::Succeeded);
    assert_eq!(state, ProvisionState::Rejected);
    assert_eq!(response_status(state), Some(400));
    assert_eq!(actions, vec![ProvisionAction::CreateNamespace]);
}

#[test]
fn a_negative_count_is_rejected_before_anything_is_created() {
    for count in [-1, -7, i64::MIN] {
        let req = request(count);
        let (state, actions) = drive(&req, &|_, _| Outcome::Succeeded);
        assert_eq!(state, ProvisionState::Rejected);
        assert_eq!(response_status(state), Some(400));
        assert_eq!(actions, Vec::<ProvisionAction>::new());
        assert_eq!(
            init_workload(&req, ProvisionState::Start, Outcome::ApiError(401)),
            ProvisionState::Rejected
        );
    }
}

#[test]
fn a_count_of_zero_whose_namespace_fails_is_a_failure() {
    let req = request(0);
    let (state, actions) = drive(&req, &|_, _| Outcome::ApiError(401));
    assert_eq!(state, ProvisionState::Failed(ControlPlaneError::Unauthorized));
    assert_eq!(response_status(state), Some(500));
    assert_eq!(actions, vec![ProvisionAction::CreateNamespace]);
}

#[test]
fn an_unauthorized_namespace_creation_aborts_the_call() {
    let req = request(5);
    let (state, actions) = drive(&req, &|_, _| Outcome::ApiError(401));
    assert_eq!(state, ProvisionState::Failed(ControlPlaneError::Unauthorized));
    assert_eq!(response_status(state), Some(500));
    assert_eq!(actions, vec![ProvisionAction::CreateNamespace]);
}

#[test]
fn a_throttled_namespace_creation_fails_the_call() {
    let req = request(5);
    let (state, actions) = drive(&req, &|_, _| Outcome::ApiError(429));
    assert_eq!(state, ProvisionState::Failed(ControlPlaneError::Throttled));
    assert_eq!(response_status(state), Some(500));
    assert_eq!(actions.len(), 1);
}

#[test]
fn a_failure_without_status_is_classified_and_fails_the_call() {
    let req = request(5);
    let (state, _) = drive(&req, &|_, _| Outcome::TransportError);
    assert_eq!(state, ProvisionState::Failed(ControlPlaneError::Other));
    let (state, _) = drive(&req, &|_, _| Outcome::ApiError(503));
    assert_eq!(state, ProvisionState::Failed(ControlPlaneError::Other));
}

#[test]
fn a_failed_deployment_stops_before_the_service() {
    let req = request(2);
    let (state, actions) = drive(&req, &|_, action| match action {
        ProvisionAction::CreateDeployment => Outcome::ApiError(500),
        _ => Outcome::Succeeded,
    });
    assert_eq!(state, ProvisionState::Failed(ControlPlaneError::Other));
    assert_eq!(
        actions,
        vec![ProvisionAction::CreateNamespace, ProvisionAction::CreateDeployment]
    );
}

#[test]
fn a_failed_worker_stops_the_loop_and_nothing_is_rolled_back() {
    let req = request(4);
    let (state, actions) = drive(&req, &|_, action| match action {
        ProvisionAction::CreateWorker(1) => Outcome::ApiError(429),
        _ => Outcome::Succeeded,
    });
    assert_eq!(state, ProvisionState::Failed(ControlPlaneError::Throttled));
    assert_eq!(
        actions,
        vec![
            ProvisionAction::CreateNamespace,
            ProvisionAction::CreateDeployment,
            ProvisionAction::CreateService,
            ProvisionAction::Pause(req.grace_ms),
            ProvisionAction::CreateWorker(0),
            ProvisionAction::Pause(150),
            ProvisionAction::CreateWorker(1),
        ]
    );
}

#[test]
fn single_steps_pass_through_every_state() {
    let req = request(1);
    let ok = Outcome::Succeeded;
    let mut s = ProvisionState::Start;
    assert_eq!(req.pending_action(s), None);
    s = init_workload(&req, s, ok);
    assert_eq!(s, ProvisionState::NamespaceCreating);
    s = init_workload(&req, s, ok);
    assert_eq!(s, ProvisionState::NamespaceReady);
    s = init_workload(&req, s, ok);
    assert_eq!(s, ProvisionState::CoordinatorDeploying(CoordinatorStep::Deployment));
    s = init_workload(&req, s, ok);
    assert_eq!(s, ProvisionState::CoordinatorDeploying(CoordinatorStep::Service));
    s = init_workload(&req, s, ok);
    assert_eq!(s, ProvisionState::CoordinatorDeploying(CoordinatorStep::Grace));
    s = init_workload(&req, s, Outcome::TransportError);
    assert_eq!(s, ProvisionState::CoordinatorReady);
    s = init_workload(&req, s, ok);
    assert_eq!(s, ProvisionState::WorkersCreating { created: 0, pausing: false });
    s = init_workload(&req, s, ok);
    assert_eq!(s, ProvisionState::WorkersCreating { created: 1, pausing: true });
    s = init_workload(&req, s, ok);
    assert_eq!(s, ProvisionState::Done);
    assert_eq!(init_workload(&req, s, Outcome::ApiError(401)), ProvisionState::Done);
}

#[test]
fn terminal_states_are_never_left() {
    let req = request(2);
    for s in [
        ProvisionState::Done,
        ProvisionState::Rejected,
        ProvisionState::Failed(ControlPlaneError::Throttled),
    ] {
        assert_eq!(init_workload(&req, s, Outcome::Succeeded), s);
        assert_eq!(req.pending_action(s), None);
    }
}

#[test]
fn statuses_are_classified() {
    assert_eq!(classify(401), ControlPlaneError::Unauthorized);
    assert_eq!(classify(429), ControlPlaneError::Throttled);
    assert_eq!(classify(403), ControlPlaneError::Other);
    assert_eq!(classify(500), ControlPlaneError::Other);
    assert_eq!(ControlPlaneError::Unauthorized.class(), ErrorClass::Fatal);
    assert_eq!(ControlPlaneError::Throttled.class(), ErrorClass::Retryable);
    assert_eq!(ControlPlaneError::Other.class(), ErrorClass::Fatal);
}

#[test]
fn no_answer_while_a_call_is_under_way() {
    assert_eq!(response_status(ProvisionState::Start), None);
    assert_eq!(response_status(ProvisionState::NamespaceReady), None);
    assert_eq!(
        response_status(ProvisionState::WorkersCreating { created: 1, pausing: true }),
        None
    );
}

#[test]
fn namespace_names_are_eight_lower_case_letters_or_digits() {
    let mut seen = std::collections::BTreeSet::new();
    for _ in 0..200 {
        let ns = gen_target_ns();
        assert_eq!(ns.len(), 8);
        assert!(ns.chars().all(|c| c.is_ascii_lowercase() || c.is_ascii_digit()));
        seen.insert(ns);
    }
    assert!(seen.len() > 1);
}

#[test]
fn a_request_keeps_the_count_and_draws_the_rest() {
    let mut graces = std::collections::BTreeSet::new();
    for _ in 0..200 {
        let req = OrchestrationRequest::new(WorkloadConfig { count: -3 }, true);
        assert_eq!(req.count, -3);
        assert!(req.inject);
        assert_eq!(req.namespace.len(), 8);
        assert!((5000..=7000).contains(&req.grace_ms));
        graces.insert(req.grace_ms);
    }
    assert!(graces.len() > 1);
}

#[test]
fn injection_is_asked_for_by_the_value_true_only() {
    assert!(inject_enabled(Some("true")));
    assert!(!inject_enabled(Some("True")));
    assert!(!inject_enabled(Some("false")));
    assert!(!inject_enabled(Some("")));
    assert!(!inject_enabled(None));
}

#[test]
fn the_namespace_manifest_carries_the_annotation_on_request() {
    let plain = OrchestrationRequest::new(WorkloadConfig { count: 1 }, false);
    let ns = plain.namespace_manifest();
    assert_eq!(ns.name, plain.namespace);
    assert_eq!(ns.annotations, None);
    let marked = OrchestrationRequest::new(WorkloadConfig { count: 1 }, true);
    let ns = marked.namespace_manifest();
    assert_eq!(ns.name, marked.namespace);
    assert_eq!(
        ns.annotations,
        Some(vec![Annotation {
            key: "linkerd.io/inject".to_string(),
            value: "enabled".to_string()
        }])
    );
}

#[test]
fn manifests_of_a_request_use_its_namespace_and_the_configured_images() {
    let config = OrchestratorConfig {
        registry_base: "registry.local/team".to_string(),
        instance_image: "coordinator:2".to_string(),
        sieve_image: "sieve:3".to_string(),
        inject: false,
    };
    let req = request(2);
    let m = req.coordinator_manifests(&config);
    assert_eq!(m.deployment.namespace, req.namespace);
    assert_eq!(m.service.namespace, req.namespace);
    assert_eq!(m.deployment.containers[0].image, "registry.local/team/coordinator:2");
    let pod = req.worker_manifest(&config, 1);
    assert_eq!(pod.namespace, req.namespace);
    assert_eq!(pod.name, "prime-sieve-instance-1");
    assert_eq!(pod.container.image, "registry.local/team/sieve:3");
}
