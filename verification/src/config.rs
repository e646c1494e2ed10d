//! What the services are configured with. The caller reads the environment
//! and hands in what it found; whether that is enough is decided here, once,
//! before any request is served.

use crate::manifest::{image_reference, image_reference_of};
use crate::orchestrator::inject_enabled;
use crate::text::owned;
use vstd::prelude::*;
use vstd::string::*;

verus! {

/// A value that a service cannot start without.
#[derive(Debug, Clone, Copy, PartialEq, Eq)]
pub enum ConfigKey {
    RedisUrl,
    RedisPort,
    RegistryBasePath,
    InstanceImage,
    SieveImage,
}

/// A required value is absent.
#[derive(Debug, Clone, Copy, PartialEq, Eq)]
pub enum ConfigError {
    Missing(ConfigKey),
}

/// Name of the environment variable that may switch sidecar injection on.
pub const INJECT_VARIABLE: &'static str = "LINKERD_INJECT";

/// Where the coordinator finds its durable mirror.
#[derive(Debug, Clone, PartialEq, Eq)]
pub struct CoordinatorConfig {
    pub redis_url: String,
    pub redis_port: String,
}

/// Where the orchestrator finds the images, and whether namespaces are
/// marked for sidecar injection.
#[derive(Debug, Clone, PartialEq, Eq)]
pub struct OrchestratorConfig {
    pub registry_base: String,
    pub instance_image: String,
    pub sieve_image: String,
    pub inject: bool,
}

/// The name of the environment variable that holds each value.
pub open spec fn variable_of(key: ConfigKey) -> Seq<char> {
    match key {
        ConfigKey::RedisUrl => "REDIS_URL"@,
        ConfigKey::RedisPort => "REDIS_PORT"@,
        ConfigKey::RegistryBasePath => "CONTAINER_REGISTRY_BASE_PATH"@,
        ConfigKey::InstanceImage => "INSTANCE_IMAGE"@,
        ConfigKey::SieveImage => "SIEVE_IMAGE"@,
    }
}

/// The address under which the mirror is reached.
pub open spec fn connection_string_of(host: Seq<char>, port: Seq<char>) -> Seq<char> {
    "redis://"@ + host + ":"@ + port + "/"@
}

/// The view of an optional string.
pub open spec fn given(o: Option<String>) -> Option<Seq<char>> {
    match o {
        Some(s) => Some(s@),
        None => None,
    }
}

/// The first of the coordinator's values that is absent, if any is.
pub open spec fn coordinator_gap(redis_url: Option<String>, redis_port: Option<String>) -> Option<
    ConfigKey,
> {
    if redis_url is None {
        Some(ConfigKey::RedisUrl)
    } else if redis_port is None {
        Some(ConfigKey::RedisPort)
    } else {
        None
    }
}

/// The first of the orchestrator's values that is absent, if any is.
pub open spec fn orchestrator_gap(
    registry_base: Option<String>,
    instance_image: Option<String>,
    sieve_image: Option<String>,
) -> Option<ConfigKey> {
    if registry_base is None {
        Some(ConfigKey::RegistryBasePath)
    } else if instance_image is None {
        Some(ConfigKey::InstanceImage)
    } else if sieve_image is None {
        Some(ConfigKey::SieveImage)
    } else {
        None
    }
}

impl ConfigKey {
    /// The name of the environment variable that holds this value.
    pub fn variable(&self) -> (name: &'static str)
        ensures
            name@ == variable_of(*self),
    {
        match self {
            ConfigKey::RedisUrl => "REDIS_URL",
            ConfigKey::RedisPort => "REDIS_PORT",
            ConfigKey::RegistryBasePath => "CONTAINER_REGISTRY_BASE_PATH",
            ConfigKey::InstanceImage => "INSTANCE_IMAGE",
            ConfigKey::SieveImage => "SIEVE_IMAGE",
        }
    }
}

impl CoordinatorConfig {
    /// Takes what the environment held. Both values are required; the
    /// address is asked for first.
    pub fn from_env(redis_url: Option<String>, redis_port: Option<String>) -> (r: Result<
        CoordinatorConfig,
        ConfigError,
    >)
        ensures
            match r {
                Ok(c) => coordinator_gap(redis_url, redis_port) is None && Some(c.redis_url@)
                    == given(redis_url) && Some(c.redis_port@) == given(redis_port),
                Err(ConfigError::Missing(key)) => coordinator_gap(redis_url, redis_port) == Some(
                    key,
                ),
            },
    {
        match redis_url {
            None => Err(ConfigError::Missing(ConfigKey::RedisUrl)),
            Some(url) => match redis_port {
                None => Err(ConfigError::Missing(ConfigKey::RedisPort)),
                Some(port) => Ok(CoordinatorConfig { redis_url: url, redis_port: port }),
            },
        }
    }

    /// The address under which the mirror is reached.
    pub fn connection_string(&self) -> (s: String)
        ensures
            s@ == connection_string_of(self.redis_url@, self.redis_port@),
    {
        let mut s = owned("redis://");
        s.append(self.redis_url.as_str());
        s.append(":");
        s.append(self.redis_port.as_str());
        s.append("/");
        s
    }
}

impl OrchestratorConfig {
    /// Takes what the environment held. The registry's base path and the
    /// two image tags are required and asked for in that order; injection
    /// is on only where the flag is present and reads `true`.
    pub fn from_env(
        registry_base: Option<String>,
        instance_image: Option<String>,
        sieve_image: Option<String>,
        inject_flag: Option<String>,
    ) -> (r: Result<OrchestratorConfig, ConfigError>)
        ensures
            match r {
                Ok(c) => {
                    &&& orchestrator_gap(registry_base, instance_image, sieve_image) is None
                    &&& Some(c.registry_base@) == given(registry_base)
                    &&& Some(c.instance_image@) == given(instance_image)
                    &&& Some(c.sieve_image@) == given(sieve_image)
                    &&& c.inject == (inject_flag matches Some(v) && v@ == "true"@)
                },
                Err(ConfigError::Missing(key)) => orchestrator_gap(
                    registry_base,
                    instance_image,
                    sieve_image,
                ) == Some(key),
            },
    {
        let inject = match &inject_flag {
            Some(v) => inject_enabled(Some(v.as_str())),
            None => inject_enabled(None),
        };
        match registry_base {
            None => Err(ConfigError::Missing(ConfigKey::RegistryBasePath)),
            Some(base) => match instance_image {
                None => Err(ConfigError::Missing(ConfigKey::InstanceImage)),
                Some(instance) => match sieve_image {
                    None => Err(ConfigError::Missing(ConfigKey::SieveImage)),
                    Some(sieve) => Ok(
                        OrchestratorConfig {
                            registry_base: base,
                            instance_image: instance,
                            sieve_image: sieve,
                            inject,
                        },
                    ),
                },
            },
        }
    }

    /// The image that the coordinator runs.
    pub fn coordinator_image(&self) -> (r: String)
        ensures
            r@ == image_reference_of(self.registry_base@, self.instance_image@),
    {
        image_reference(self.registry_base.as_str(), self.instance_image.as_str())
    }

    /// The image that every worker runs.
    pub fn worker_image(&self) -> (r: String)
        ensures
            r@ == image_reference_of(self.registry_base@, self.sieve_image@),
    {
        image_reference(self.registry_base.as_str(), self.sieve_image.as_str())
    }
}

} // verus!
