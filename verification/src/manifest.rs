//! The cluster resources of one job as typed values: the namespace, the
//! coordinator deployment, its discovery service and the worker units.
//!
//! Each value has a view made of plain sequences and numbers. The builders
//! state their result as one spec function of the inputs, so that a caller
//! knows every field of what will be submitted to the control plane.

use crate::text::{decimal, join3, owned, push_decimal};
use vstd::prelude::*;

verus! {

/// One environment variable of a container.
#[derive(Debug, Clone, PartialEq, Eq)]
pub struct EnvVar {
    pub name: String,
    pub value: String,
}

pub struct EnvVarView {
    pub name: Seq<char>,
    pub value: Seq<char>,
}

impl View for EnvVar {
    type V = EnvVarView;

    open spec fn view(&self) -> EnvVarView {
        EnvVarView { name: self.name@, value: self.value@ }
    }
}

/// CPU and memory that a container asks for and may not exceed.
#[derive(Debug, Clone, PartialEq, Eq)]
pub struct ResourceBounds {
    pub cpu_limit: String,
    pub memory_limit: String,
    pub cpu_request: String,
    pub memory_request: String,
}

pub struct ResourceBoundsView {
    pub cpu_limit: Seq<char>,
    pub memory_limit: Seq<char>,
    pub cpu_request: Seq<char>,
    pub memory_request: Seq<char>,
}

impl View for ResourceBounds {
    type V = ResourceBoundsView;

    open spec fn view(&self) -> ResourceBoundsView {
        ResourceBoundsView {
            cpu_limit: self.cpu_limit@,
            memory_limit: self.memory_limit@,
            cpu_request: self.cpu_request@,
            memory_request: self.memory_request@,
        }
    }
}

/// An HTTP GET check that the control plane runs against a container.
#[derive(Debug, Clone, PartialEq, Eq)]
pub struct HealthProbe {
    pub path: String,
    pub port: u16,
    pub scheme: String,
    pub failure_threshold: u32,
    pub period_seconds: Option<u32>,
    pub success_threshold: Option<u32>,
    pub timeout_seconds: Option<u32>,
}

pub struct HealthProbeView {
    pub path: Seq<char>,
    pub port: u16,
    pub scheme: Seq<char>,
    pub failure_threshold: u32,
    pub period_seconds: Option<u32>,
    pub success_threshold: Option<u32>,
    pub timeout_seconds: Option<u32>,
}

impl View for HealthProbe {
    type V = HealthProbeView;

    open spec fn view(&self) -> HealthProbeView {
        HealthProbeView {
            path: self.path@,
            port: self.port,
            scheme: self.scheme@,
            failure_threshold: self.failure_threshold,
            period_seconds: self.period_seconds,
            success_threshold: self.success_threshold,
            timeout_seconds: self.timeout_seconds,
        }
    }
}

/// A port that a container listens on.
#[derive(Debug, Clone, PartialEq, Eq)]
pub struct ContainerPort {
    pub container_port: u16,
    pub name: Option<String>,
    pub protocol: Option<String>,
}

pub struct ContainerPortView {
    pub container_port: u16,
    pub name: Option<Seq<char>>,
    pub protocol: Option<Seq<char>>,
}

/// The view of an optional string.
pub open spec fn text_of(o: Option<String>) -> Option<Seq<char>> {
    match o {
        Some(s) => Some(s@),
        None => None,
    }
}

impl View for ContainerPort {
    type V = ContainerPortView;

    open spec fn view(&self) -> ContainerPortView {
        ContainerPortView {
            container_port: self.container_port,
            name: text_of(self.name),
            protocol: text_of(self.protocol),
        }
    }
}

/// One container of a deployment or of a worker unit.
#[derive(Debug, Clone, PartialEq, Eq)]
pub struct Container {
    pub name: String,
    pub image: String,
    pub image_pull_policy: Option<String>,
    pub env: Vec<EnvVar>,
    pub port: Option<ContainerPort>,
    pub liveness: Option<HealthProbe>,
    pub readiness: Option<HealthProbe>,
    pub resources: ResourceBounds,
}

pub struct ContainerView {
    pub name: Seq<char>,
    pub image: Seq<char>,
    pub image_pull_policy: Option<Seq<char>>,
    pub env: Seq<EnvVarView>,
    pub port: Option<ContainerPortView>,
    pub liveness: Option<HealthProbeView>,
    pub readiness: Option<HealthProbeView>,
    pub resources: ResourceBoundsView,
}

impl View for Container {
    type V = ContainerView;

    open spec fn view(&self) -> ContainerView {
        ContainerView {
            name: self.name@,
            image: self.image@,
            image_pull_policy: text_of(self.image_pull_policy),
            env: Seq::new(self.env@.len(), |i: int| self.env@[i]@),
            port: match self.port {
                Some(p) => Some(p@),
                None => None,
            },
            liveness: match self.liveness {
                Some(p) => Some(p@),
                None => None,
            },
            readiness: match self.readiness {
                Some(p) => Some(p@),
                None => None,
            },
            resources: self.resources@,
        }
    }
}

/// One annotation of a resource's metadata. A resource holds its
/// annotations in a list in which no key occurs twice.
#[derive(Debug, Clone, PartialEq, Eq)]
pub struct Annotation {
    pub key: String,
    pub value: String,
}

pub struct AnnotationView {
    pub key: Seq<char>,
    pub value: Seq<char>,
}

impl View for Annotation {
    type V = AnnotationView;

    open spec fn view(&self) -> AnnotationView {
        AnnotationView { key: self.key@, value: self.value@ }
    }
}

/// The namespace that isolates one job.
#[derive(Debug, Clone, PartialEq, Eq)]
pub struct NamespaceManifest {
    pub name: String,
    pub annotations: Option<Vec<Annotation>>,
}

pub struct NamespaceManifestView {
    pub name: Seq<char>,
    pub annotations: Option<Seq<AnnotationView>>,
}

impl View for NamespaceManifest {
    type V = NamespaceManifestView;

    open spec fn view(&self) -> NamespaceManifestView {
        NamespaceManifestView {
            name: self.name@,
            annotations: match self.annotations {
                Some(a) => Some(Seq::new(a@.len(), |i: int| a@[i]@)),
                None => None,
            },
        }
    }
}

/// The deployment that runs the coordinator.
#[derive(Debug, Clone, PartialEq, Eq)]
pub struct DeploymentManifest {
    pub name: String,
    pub namespace: String,
    pub replicas: u32,
    /// Value of the `app` label, on the pod template and in the selector.
    pub app: String,
    pub containers: Vec<Container>,
}

pub struct DeploymentManifestView {
    pub name: Seq<char>,
    pub namespace: Seq<char>,
    pub replicas: u32,
    pub app: Seq<char>,
    pub containers: Seq<ContainerView>,
}

impl View for DeploymentManifest {
    type V = DeploymentManifestView;

    open spec fn view(&self) -> DeploymentManifestView {
        DeploymentManifestView {
            name: self.name@,
            namespace: self.namespace@,
            replicas: self.replicas,
            app: self.app@,
            containers: Seq::new(self.containers@.len(), |i: int| self.containers@[i]@),
        }
    }
}

/// The service under whose name the workers find the coordinator.
#[derive(Debug, Clone, PartialEq, Eq)]
pub struct ServiceManifest {
    pub name: String,
    /// The namespace in which the service is created.
    pub namespace: String,
    /// A headless service has no virtual address: its name resolves to the
    /// addresses of the selected instances.
    pub headless: bool,
    /// Value of the `app` label that the service selects.
    pub app: String,
    pub protocol: String,
    pub port: u16,
    pub target_port: u16,
}

pub struct ServiceManifestView {
    pub name: Seq<char>,
    pub namespace: Seq<char>,
    pub headless: bool,
    pub app: Seq<char>,
    pub protocol: Seq<char>,
    pub port: u16,
    pub target_port: u16,
}

impl View for ServiceManifest {
    type V = ServiceManifestView;

    open spec fn view(&self) -> ServiceManifestView {
        ServiceManifestView {
            name: self.name@,
            namespace: self.namespace@,
            headless: self.headless,
            app: self.app@,
            protocol: self.protocol@,
            port: self.port,
            target_port: self.target_port,
        }
    }
}

/// What the control plane does when a unit's container ends.
#[derive(Debug, Clone, Copy, PartialEq, Eq)]
pub enum RestartPolicy {
    Always,
    OnFailure,
    Never,
}

/// One worker unit: a single container that runs once.
#[derive(Debug, Clone, PartialEq, Eq)]
pub struct PodManifest {
    pub name: String,
    pub namespace: String,
    pub container: Container,
    pub restart_policy: RestartPolicy,
}

pub struct PodManifestView {
    pub name: Seq<char>,
    pub namespace: Seq<char>,
    pub container: ContainerView,
    pub restart_policy: RestartPolicy,
}

impl View for PodManifest {
    type V = PodManifestView;

    open spec fn view(&self) -> PodManifestView {
        PodManifestView {
            name: self.name@,
            namespace: self.namespace@,
            container: self.container@,
            restart_policy: self.restart_policy,
        }
    }
}

/// The coordinator's deployment together with its discovery service, in the
/// order in which they are submitted.
#[derive(Debug, Clone, PartialEq, Eq)]
pub struct CoordinatorManifests {
    pub deployment: DeploymentManifest,
    pub service: ServiceManifest,
}

/// Port on which the coordinator serves.
pub const COORDINATOR_PORT: u16 = 8080;

/// Port of the durable mirror beside the coordinator.
pub const MIRROR_PORT: u16 = 6379;

pub open spec fn env_var_view(name: Seq<char>, value: Seq<char>) -> EnvVarView {
    EnvVarView { name, value }
}

pub open spec fn bounds_view(
    cpu_limit: Seq<char>,
    memory_limit: Seq<char>,
    cpu_request: Seq<char>,
    memory_request: Seq<char>,
) -> ResourceBoundsView {
    ResourceBoundsView { cpu_limit, memory_limit, cpu_request, memory_request }
}

/// The image reference `base/tag`.
pub open spec fn image_reference_of(base: Seq<char>, tag: Seq<char>) -> Seq<char> {
    base + "/"@ + tag
}

/// No key occurs twice among the annotations.
pub open spec fn distinct_keys(annotations: Seq<AnnotationView>) -> bool {
    forall|i: int, j: int|
        0 <= i < j < annotations.len() ==> (#[trigger] annotations[i]).key
            != (#[trigger] annotations[j]).key
}

/// A namespace's annotations, where it has any, hold each key once: they
/// stand for a map from key to value.
pub open spec fn annotations_are_a_map(ns: NamespaceManifestView) -> bool {
    ns.annotations matches Some(a) ==> distinct_keys(a)
}

/// The namespace manifest before any annotation is attached.
pub open spec fn bare_namespace(name: Seq<char>) -> NamespaceManifestView {
    NamespaceManifestView { name, annotations: None }
}

/// The annotation that asks the discovery mesh to inject its sidecar.
pub open spec fn inject_annotation() -> AnnotationView {
    AnnotationView { key: "linkerd.io/inject"@, value: "enabled"@ }
}

/// The check against the coordinator's health endpoint that decides whether
/// the container is restarted.
pub open spec fn liveness_probe() -> HealthProbeView {
    HealthProbeView {
        path: "/health"@,
        port: COORDINATOR_PORT,
        scheme: "HTTP"@,
        failure_threshold: 5,
        period_seconds: None,
        success_threshold: None,
        timeout_seconds: None,
    }
}

/// The check against the coordinator's health endpoint that decides whether
/// the container receives traffic.
pub open spec fn readiness_probe() -> HealthProbeView {
    HealthProbeView {
        path: "/health"@,
        port: COORDINATOR_PORT,
        scheme: "HTTP"@,
        failure_threshold: 5,
        period_seconds: Some(30u32),
        success_threshold: Some(1u32),
        timeout_seconds: Some(5u32),
    }
}

/// The coordinator's own container.
pub open spec fn coordinator_container(image: Seq<char>) -> ContainerView {
    ContainerView {
        name: "instance-service"@,
        image,
        image_pull_policy: None,
        env: seq![
            env_var_view("RUST_LOG"@, "info"@),
            env_var_view("REDIS_URL"@, "localhost"@),
            env_var_view("REDIS_PORT"@, "6379"@),
            env_var_view("REDIS_DB"@, "primes"@),
        ],
        port: Some(ContainerPortView { container_port: COORDINATOR_PORT, name: None, protocol: None }),
        liveness: Some(liveness_probe()),
        readiness: Some(readiness_probe()),
        resources: bounds_view("500m"@, "500Mi"@, "100m"@, "250Mi"@),
    }
}

/// The container of the durable mirror that runs beside the coordinator.
pub open spec fn mirror_container() -> ContainerView {
    ContainerView {
        name: "redis"@,
        image: "redis:6.2.6"@,
        image_pull_policy: None,
        env: Seq::empty(),
        port: Some(
            ContainerPortView {
                container_port: MIRROR_PORT,
                name: Some("redis"@),
                protocol: Some("TCP"@),
            },
        ),
        liveness: None,
        readiness: None,
        resources: bounds_view("500m"@, "500Mi"@, "100m"@, "250Mi"@),
    }
}

/// The coordinator deployment of a job: one replica, labelled
/// `app=instance-service`, the coordinator container first and the mirror
/// second.
pub open spec fn coordinator_deployment(
    namespace: Seq<char>,
    image: Seq<char>,
) -> DeploymentManifestView {
    DeploymentManifestView {
        name: "instance-service"@,
        namespace,
        replicas: 1,
        app: "instance-service"@,
        containers: seq![coordinator_container(image), mirror_container()],
    }
}

/// The headless service that selects the coordinator, in the namespace of
/// the coordinator's deployment.
pub open spec fn discovery_service(namespace: Seq<char>) -> ServiceManifestView {
    ServiceManifestView {
        name: "instance-service-headless"@,
        namespace,
        headless: true,
        app: "instance-service"@,
        protocol: "TCP"@,
        port: COORDINATOR_PORT,
        target_port: COORDINATOR_PORT,
    }
}

/// The name of the worker unit with the given index.
pub open spec fn worker_name(index: nat) -> Seq<char> {
    "prime-sieve-instance-"@ + decimal(index)
}

/// The single container of a worker unit.
pub open spec fn worker_container(image: Seq<char>) -> ContainerView {
    ContainerView {
        name: "prime-generator"@,
        image,
        image_pull_policy: Some("Always"@),
        env: seq![env_var_view("RUST_LOG"@, "info"@)],
        port: None,
        liveness: None,
        readiness: None,
        resources: bounds_view("500m"@, "100Mi"@, "100m"@, "50Mi"@),
    }
}

/// The worker unit with the given index: one container, never restarted.
pub open spec fn worker_unit(namespace: Seq<char>, image: Seq<char>, index: nat) -> PodManifestView {
    PodManifestView {
        name: worker_name(index),
        namespace,
        container: worker_container(image),
        restart_policy: RestartPolicy::Never,
    }
}

fn env_var(name: &str, value: &str) -> (e: EnvVar)
    ensures
        e@ == env_var_view(name@, value@),
{
    EnvVar { name: owned(name), value: owned(value) }
}

fn bounds(cpu_limit: &str, memory_limit: &str, cpu_request: &str, memory_request: &str) -> (b:
    ResourceBounds)
    ensures
        b@ == bounds_view(cpu_limit@, memory_limit@, cpu_request@, memory_request@),
{
    ResourceBounds {
        cpu_limit: owned(cpu_limit),
        memory_limit: owned(memory_limit),
        cpu_request: owned(cpu_request),
        memory_request: owned(memory_request),
    }
}

/// Assembles an image reference from the registry's base path and a tag.
pub fn image_reference(base: &str, tag: &str) -> (r: String)
    ensures
        r@ == image_reference_of(base@, tag@),
{
    join3(base, "/", tag)
}

/// The manifest of the namespace `name`, without annotations.
pub fn namespace_manifest(name: &str) -> (ns: NamespaceManifest)
    ensures
        ns@ == bare_namespace(name@),
        annotations_are_a_map(ns@),
{
    NamespaceManifest { name: owned(name), annotations: None }
}

/// Marks the namespace for sidecar injection. The annotations that the
/// manifest held before are replaced by this single one.
pub fn add_inject_annotation_to_ns(ns: &mut NamespaceManifest)
    ensures
        final(ns)@.name == old(ns)@.name,
        final(ns)@.annotations == Some(seq![inject_annotation()]),
        annotations_are_a_map(final(ns)@),
{
    let mut annotations: Vec<Annotation> = Vec::new();
    annotations.push(Annotation { key: owned("linkerd.io/inject"), value: owned("enabled") });
    proof {
        assert(Seq::new(annotations@.len(), |i: int| annotations@[i]@) =~= seq![
            inject_annotation(),
        ]);
    }
    ns.annotations = Some(annotations);
}

fn build_liveness_probe() -> (p: HealthProbe)
    ensures
        p@ == liveness_probe(),
{
    HealthProbe {
        path: owned("/health"),
        port: COORDINATOR_PORT,
        scheme: owned("HTTP"),
        failure_threshold: 5,
        period_seconds: None,
        success_threshold: None,
        timeout_seconds: None,
    }
}

fn build_readiness_probe() -> (p: HealthProbe)
    ensures
        p@ == readiness_probe(),
{
    HealthProbe {
        path: owned("/health"),
        port: COORDINATOR_PORT,
        scheme: owned("HTTP"),
        failure_threshold: 5,
        period_seconds: Some(30),
        success_threshold: Some(1),
        timeout_seconds: Some(5),
    }
}

fn build_coordinator_container(image: &str) -> (c: Container)
    ensures
        c@ == coordinator_container(image@),
{
    let mut env: Vec<EnvVar> = Vec::new();
    env.push(env_var("RUST_LOG", "info"));
    env.push(env_var("REDIS_URL", "localhost"));
    env.push(env_var("REDIS_PORT", "6379"));
    env.push(env_var("REDIS_DB", "primes"));
    let c = Container {
        name: owned("instance-service"),
        image: owned(image),
        image_pull_policy: None,
        env,
        port: Some(ContainerPort { container_port: COORDINATOR_PORT, name: None, protocol: None }),
        liveness: Some(build_liveness_probe()),
        readiness: Some(build_readiness_probe()),
        resources: bounds("500m", "500Mi", "100m", "250Mi"),
    };
    proof {
        assert(c@.env =~= coordinator_container(image@).env);
    }
    c
}

fn build_mirror_container() -> (c: Container)
    ensures
        c@ == mirror_container(),
{
    let c = Container {
        name: owned("redis"),
        image: owned("redis:6.2.6"),
        image_pull_policy: None,
        env: Vec::new(),
        port: Some(
            ContainerPort {
                container_port: MIRROR_PORT,
                name: Some(owned("redis")),
                protocol: Some(owned("TCP")),
            },
        ),
        liveness: None,
        readiness: None,
        resources: bounds("500m", "500Mi", "100m", "250Mi"),
    };
    proof {
        assert(c@.env =~= mirror_container().env);
    }
    c
}

/// Builds what runs the coordinator in `target_ns`: a single-replica
/// deployment of `instance_image`, probed on its health endpoint, and the
/// headless service that gives it a stable name, both in `target_ns`. The
/// deployment is to be submitted before the service.
pub fn deploy_instance_service(target_ns: &str, instance_image: &str) -> (m: CoordinatorManifests)
    ensures
        m.deployment@ == coordinator_deployment(target_ns@, instance_image@),
        m.service@ == discovery_service(target_ns@),
        m.service@.namespace == m.deployment@.namespace,
{
    let mut containers: Vec<Container> = Vec::new();
    containers.push(build_coordinator_container(instance_image));
    containers.push(build_mirror_container());
    let deployment = DeploymentManifest {
        name: owned("instance-service"),
        namespace: owned(target_ns),
        replicas: 1,
        app: owned("instance-service"),
        containers,
    };
    proof {
        assert(deployment@.containers =~= coordinator_deployment(
            target_ns@,
            instance_image@,
        ).containers);
    }
    let service = ServiceManifest {
        name: owned("instance-service-headless"),
        namespace: owned(target_ns),
        headless: true,
        app: owned("instance-service"),
        protocol: owned("TCP"),
        port: COORDINATOR_PORT,
        target_port: COORDINATOR_PORT,
    };
    CoordinatorManifests { deployment, service }
}

/// Builds the worker unit with the given index for the namespace
/// `target_ns`, running `sieve_image`.
pub fn worker_manifest(target_ns: &str, sieve_image: &str, index: u64) -> (p: PodManifest)
    ensures
        p@ == worker_unit(target_ns@, sieve_image@, index as nat),
{
    let mut name = owned("prime-sieve-instance-");
    push_decimal(&mut name, index);
    let mut env: Vec<EnvVar> = Vec::new();
    env.push(env_var("RUST_LOG", "info"));
    let container = Container {
        name: owned("prime-generator"),
        image: owned(sieve_image),
        image_pull_policy: Some(owned("Always")),
        env,
        port: None,
        liveness: None,
        readiness: None,
        resources: bounds("500m", "100Mi", "100m", "50Mi"),
    };
    proof {
        assert(container@.env =~= worker_container(sieve_image@).env);
    }
    PodManifest {
        name,
        namespace: owned(target_ns),
        container,
        restart_policy: RestartPolicy::Never,
    }
}

} // verus!
