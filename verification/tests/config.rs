use sieve_fanout::config::{
    ConfigError, ConfigKey, CoordinatorConfig, OrchestratorConfig, INJECT_VARIABLE,
};

fn some(s: &str) -> Option<String> {
    Some(s.to_string())
}

#[test]
fn coordinator_needs_address_and_port() {
    assert_eq!(
        CoordinatorConfig::from_env(None, None),
        Err(ConfigError::Missing(ConfigKey::RedisUrl))
    );
    assert_eq!(
        CoordinatorConfig::from_env(None, some("6379")),
        Err(ConfigError::Missing(ConfigKey::RedisUrl))
    );
    assert_eq!(
        CoordinatorConfig::from_env(some("localhost"), None),
        Err(ConfigError::Missing(ConfigKey::RedisPort))
    );
    let c = CoordinatorConfig::from_env(some("localhost"), some("6379")).unwrap();
    assert_eq!(c.redis_url, "localhost");
    assert_eq!(c.redis_port, "6379");
}

#[test]
fn connection_string_is_assembled_from_address_and_port() {
    let c = CoordinatorConfig::from_env(some("cache.internal"), some("6380")).unwrap();
    assert_eq!(c.connection_string(), "redis://cache.internal:6380/");
}

#[test]
fn orchestrator_needs_registry_and_both_images() {
    assert_eq!(
        OrchestratorConfig::from_env(None, None, None, None),
        Err(ConfigError::Missing(ConfigKey::RegistryBasePath))
    );
    assert_eq!(
        OrchestratorConfig::from_env(some("r"), None, None, some("true")),
        Err(ConfigError::Missing(ConfigKey::InstanceImage))
    );
    assert_eq!(
        OrchestratorConfig::from_env(some("r"), some("i"), None, None),
        Err(ConfigError::Missing(ConfigKey::SieveImage))
    );
    let c = OrchestratorConfig::from_env(some("r"), some("i"), some("s"), None).unwrap();
    assert_eq!(c.registry_base, "r");
    assert_eq!(c.instance_image, "i");
    assert_eq!(c.sieve_image, "s");
    assert!(!c.inject);
    assert_eq!(c.coordinator_image(), "r/i");
    assert_eq!(c.worker_image(), "r/s");
}

#[test]
fn injection_follows_the_flag() {
    let on = OrchestratorConfig::from_env(some("r"), some("i"), some("s"), some("true")).unwrap();
    assert!(on.inject);
    let off = OrchestratorConfig::from_env(some("r"), some("i"), some("s"), some("yes")).unwrap();
    assert!(!off.inject);
}

#[test]
fn every_value_has_its_variable() {
    assert_eq!(ConfigKey::RedisUrl.variable(), "REDIS_URL");
    assert_eq!(ConfigKey::RedisPort.variable(), "REDIS_PORT");
    assert_eq!(ConfigKey::RegistryBasePath.variable(), "CONTAINER_REGISTRY_BASE_PATH");
    assert_eq!(ConfigKey::InstanceImage.variable(), "INSTANCE_IMAGE");
    assert_eq!(ConfigKey::SieveImage.variable(), "SIEVE_IMAGE");
    assert_eq!(INJECT_VARIABLE, "LINKERD_INJECT");
}
