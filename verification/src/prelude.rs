//! What most users need, for one import.

pub use crate::config::{
    Backend, FerronConfig, FerronConfigBuilder, LoadBalanceStrategy, LoadBalancer, Location,
    RateLimitConfig, TlsConfig,
};
pub use crate::error::{FerronError, Result};
pub use crate::health::{HealthCheck, HealthCheckConfig, HealthStatus};
pub use crate::manager::FerronManager;
pub use crate::process::{FerronProcess, ProcessConfig, ProcessStatus};
pub use crate::registry::{ServiceInstance, ServiceRegistry};
