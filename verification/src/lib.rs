//! # Armature Ferron integration
//!
//! The verified core of the integration between Armature web applications and
//! the [Ferron](https://ferron.sh) reverse proxy server.
//!
//! - [`config`]: Ferron configurations and their builder
//! - [`process`]: from when the server process is started to when it is stopped,
//!   restarted or given up
//! - [`health`], [`http_check`]: the health of backends, from the results of
//!   checks
//! - [`registry`]: registration and discovery of service instances
//! - [`manager`]: what is to be done as configuration and services change
//! - [`watcher`]: when a change of the configuration file leads to a reload
//!
//! Nothing here performs I/O. A function that stands between two pieces of I/O
//! takes what came of the first and says what the next is.

pub mod config;
pub mod error;
pub mod health;
pub mod http_check;
pub mod manager;
pub mod path;
pub mod prelude;
pub mod process;
pub mod registry;
pub mod string_map;
pub mod text;
pub mod time;
pub mod watcher;

pub use config::{
    Backend, FerronConfig, FerronConfigBuilder, LoadBalanceStrategy, LoadBalancer, Location,
    RateLimitConfig, TlsConfig,
};
pub use error::{FerronError, Result};
pub use health::{HealthCheck, HealthCheckConfig, HealthStatus};
pub use manager::FerronManager;
pub use process::{FerronProcess, ProcessConfig, ProcessStatus};
pub use registry::{ServiceInstance, ServiceRegistry};
