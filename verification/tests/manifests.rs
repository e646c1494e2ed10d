use sieve_fanout::manifest::{
    add_inject_annotation_to_ns, deploy_instance_service, image_reference, namespace_manifest,
    worker_manifest, Annotation, ContainerPort, EnvVar, RestartPolicy,
};

fn env(name: &str, value: &str) -> EnvVar {
    EnvVar { name: name.to_string(), value: value.to_string() }
}

#[test]
fn worker_unit_is_named_by_its_index() {
    let pod = worker_manifest("abcd1234", "registry.local/sieve:1", 12);
    assert_eq!(pod.name, "prime-sieve-instance-12");
    assert_eq!(pod.namespace, "abcd1234");
    assert_eq!(pod.container.image, "registry.local/sieve:1");
    assert_eq!(pod.restart_policy, RestartPolicy::Never);
}

#[test]
fn worker_names_render_the_index_in_decimal() {
    assert_eq!(worker_manifest("n", "i", 0).name, "prime-sieve-instance-0");
    assert_eq!(worker_manifest("n", "i", 9).name, "prime-sieve-instance-9");
    assert_eq!(worker_manifest("n", "i", 10).name, "prime-sieve-instance-10");
    assert_eq!(worker_manifest("n", "i", 1234567890).name, "prime-sieve-instance-1234567890");
    assert_eq!(
        worker_manifest("n", "i", u64::MAX).name,
        "prime-sieve-instance-18446744073709551615"
    );
}

#[test]
fn worker_unit_declares_its_container() {
    let c = worker_manifest("abcd1234", "registry.local/sieve:1", 0).container;
    assert_eq!(c.name, "prime-generator");
    assert_eq!(c.image_pull_policy, Some("Always".to_string()));
    assert_eq!(c.env, vec![env("RUST_LOG", "info")]);
    assert_eq!(c.port, None);
    assert_eq!(c.liveness, None);
    assert_eq!(c.readiness, None);
    assert_eq!(c.resources.cpu_limit, "500m");
    assert_eq!(c.resources.memory_limit, "100Mi");
    assert_eq!(c.resources.cpu_request, "100m");
    assert_eq!(c.resources.memory_request, "50Mi");
}

#[test]
fn coordinator_runs_as_one_replica_behind_a_headless_service() {
    let m = deploy_instance_service("abcd1234", "registry.local/coordinator:1");
    assert_eq!(m.deployment.name, "instance-service");
    assert_eq!(m.deployment.replicas, 1);
    assert_eq!(m.deployment.namespace, "abcd1234");
    assert_eq!(m.deployment.app, "instance-service");
    assert_eq!(m.deployment.containers.len(), 2);
    assert_eq!(m.deployment.containers[0].image, "registry.local/coordinator:1");
    assert!(m.service.headless);
    assert_eq!(m.service.name, "instance-service-headless");
    assert_eq!(m.service.namespace, "abcd1234");
    assert_eq!(m.service.app, "instance-service");
    assert_eq!(m.service.protocol, "TCP");
    assert_eq!(m.service.port, 8080);
    assert_eq!(m.service.target_port, 8080);
}

#[test]
fn coordinator_is_probed_on_its_health_endpoint() {
    let m = deploy_instance_service("abcd1234", "img");
    let c = &m.deployment.containers[0];
    assert_eq!(c.name, "instance-service");
    assert_eq!(
        c.env,
        vec![
            env("RUST_LOG", "info"),
            env("REDIS_URL", "localhost"),
            env("REDIS_PORT", "6379"),
            env("REDIS_DB", "primes"),
        ]
    );
    assert_eq!(c.port, Some(ContainerPort { container_port: 8080, name: None, protocol: None }));
    let live = c.liveness.clone().unwrap();
    assert_eq!(live.path, "/health");
    assert_eq!(live.port, 8080);
    assert_eq!(live.scheme, "HTTP");
    assert_eq!(live.failure_threshold, 5);
    assert_eq!(live.period_seconds, None);
    let ready = c.readiness.clone().unwrap();
    assert_eq!(ready.path, "/health");
    assert_eq!(ready.port, 8080);
    assert_eq!(ready.failure_threshold, 5);
    assert_eq!(ready.period_seconds, Some(30));
    assert_eq!(ready.success_threshold, Some(1));
    assert_eq!(ready.timeout_seconds, Some(5));
    assert_eq!(c.resources.memory_limit, "500Mi");
    assert_eq!(c.resources.memory_request, "250Mi");
}

#[test]
fn the_mirror_runs_beside_the_coordinator() {
    let m = deploy_instance_service("abcd1234", "img");
    let c = &m.deployment.containers[1];
    assert_eq!(c.name, "redis");
    assert_eq!(c.image, "redis:6.2.6");
    assert!(c.env.is_empty());
    assert_eq!(
        c.port,
        Some(ContainerPort {
            container_port: 6379,
            name: Some("redis".to_string()),
            protocol: Some("TCP".to_string())
        })
    );
    assert_eq!(c.liveness, None);
}

#[test]
fn the_annotation_replaces_what_was_there() {
    let mut ns = namespace_manifest("abcd1234");
    assert_eq!(ns.annotations, None);
    ns.annotations = Some(vec![Annotation { key: "k".to_string(), value: "v".to_string() }]);
    add_inject_annotation_to_ns(&mut ns);
    assert_eq!(ns.name, "abcd1234");
    assert_eq!(
        ns.annotations,
        Some(vec![Annotation {
            key: "linkerd.io/inject".to_string(),
            value: "enabled".to_string()
        }])
    );
}

#[test]
fn image_references_join_base_and_tag() {
    assert_eq!(image_reference("registry.local/team", "sieve:1"), "registry.local/team/sieve:1");
    assert_eq!(image_reference("", ""), "/");
}
