//! Errors of configuration, process management, health checking and discovery.

use crate::text::{decimal_text, joined};
use vstd::prelude::*;

pub mod laws;

verus! {

/// The I/O error of the standard library, carried as it is.
#[verifier::external_type_specification]
#[verifier::external_body]
pub struct ExIoError(std::io::Error);

/// The URL parsing error of `url`, carried as it is.
#[verifier::external_type_specification]
#[verifier::external_body]
pub struct ExUrlParseError(url::ParseError);

/// The request error of `reqwest`, carried as it is.
#[verifier::external_type_specification]
#[verifier::external_body]
pub struct ExReqwestError(reqwest::Error);

/// The serialization error of `serde_json`, carried as it is.
#[verifier::external_type_specification]
#[verifier::external_body]
pub struct ExJsonError(serde_json::Error);

/// Result of a Ferron operation.
pub type Result<T> = core::result::Result<T, FerronError>;

/// Errors that can occur during Ferron operations.
#[derive(Debug)]
pub enum FerronError {
    /// Configuration error
    Config(String),
    /// Invalid configuration value
    InvalidConfig { field: String, message: String },
    /// Process management error
    Process(String),
    /// Ferron process not found
    ProcessNotFound(String),
    /// Process failed to start
    StartFailed(String),
    /// Process failed to stop
    StopFailed(String),
    /// Configuration reload failed
    ReloadFailed(String),
    /// Health check error
    HealthCheck(String),
    /// Backend unreachable
    BackendUnreachable { url: String },
    /// Service registry error
    Registry(String),
    /// Service not found in registry
    ServiceNotFound(String),
    /// IO error
    Io(std::io::Error),
    /// URL parsing error
    UrlParse(url::ParseError),
    /// HTTP request error
    Http(reqwest::Error),
    /// JSON serialization error
    Json(serde_json::Error),
    /// Template rendering error
    Template(String),
    /// File watching error
    Watch(String),
    /// Timeout error
    Timeout(String),
    /// Permission denied
    PermissionDenied(String),
    /// Already running
    AlreadyRunning(u32),
    /// Not running
    NotRunning,
}

impl From<std::io::Error> for FerronError {
    fn from(e: std::io::Error) -> (r: Self) {
        FerronError::Io(e)
    }
}

impl vstd::std_specs::convert::FromSpecImpl<std::io::Error> for FerronError {
    open spec fn obeys_from_spec() -> bool {
        true
    }

    open spec fn from_spec(e: std::io::Error) -> Self {
        FerronError::Io(e)
    }
}

impl From<url::ParseError> for FerronError {
    fn from(e: url::ParseError) -> (r: Self) {
        FerronError::UrlParse(e)
    }
}

impl vstd::std_specs::convert::FromSpecImpl<url::ParseError> for FerronError {
    open spec fn obeys_from_spec() -> bool {
        true
    }

    open spec fn from_spec(e: url::ParseError) -> Self {
        FerronError::UrlParse(e)
    }
}

impl From<reqwest::Error> for FerronError {
    fn from(e: reqwest::Error) -> (r: Self) {
        FerronError::Http(e)
    }
}

impl vstd::std_specs::convert::FromSpecImpl<reqwest::Error> for FerronError {
    open spec fn obeys_from_spec() -> bool {
        true
    }

    open spec fn from_spec(e: reqwest::Error) -> Self {
        FerronError::Http(e)
    }
}

impl From<serde_json::Error> for FerronError {
    fn from(e: serde_json::Error) -> (r: Self) {
        FerronError::Json(e)
    }
}

impl vstd::std_specs::convert::FromSpecImpl<serde_json::Error> for FerronError {
    open spec fn obeys_from_spec() -> bool {
        true
    }

    open spec fn from_spec(e: serde_json::Error) -> Self {
        FerronError::Json(e)
    }
}

impl FerronError {
    /// What the error says of itself. The variants that carry an error of
    /// another crate end in whatever that error displays.
    pub open spec fn says(self, text: Seq<char>) -> bool {
        match self {
            FerronError::Config(m) => text == "Configuration error: "@ + m@,
            FerronError::InvalidConfig { field, message } => text
                == "Invalid configuration value for '"@ + field@ + "': "@ + message@,
            FerronError::Process(m) => text == "Process error: "@ + m@,
            FerronError::ProcessNotFound(m) => text == "Ferron process not found at path: "@ + m@,
            FerronError::StartFailed(m) => text == "Failed to start Ferron: "@ + m@,
            FerronError::StopFailed(m) => text == "Failed to stop Ferron: "@ + m@,
            FerronError::ReloadFailed(m) => text == "Failed to reload configuration: "@ + m@,
            FerronError::HealthCheck(m) => text == "Health check failed: "@ + m@,
            FerronError::BackendUnreachable { url } => text == "Backend unreachable: "@ + url@,
            FerronError::Registry(m) => text == "Service registry error: "@ + m@,
            FerronError::ServiceNotFound(m) => text == "Service not found: "@ + m@,
            FerronError::Io(e) => exists|s: String| #[trigger]
                vstd::string::to_string_from_display_ensures(&e, s) && text == "IO error: "@ + s@,
            FerronError::UrlParse(e) => exists|s: String| #[trigger]
                vstd::string::to_string_from_display_ensures(&e, s) && text == "Invalid URL: "@ + s@,
            FerronError::Http(e) => exists|s: String| #[trigger]
                vstd::string::to_string_from_display_ensures(&e, s) && text == "HTTP error: "@ + s@,
            FerronError::Json(e) => exists|s: String| #[trigger]
                vstd::string::to_string_from_display_ensures(&e, s) && text == "JSON error: "@ + s@,
            FerronError::Template(m) => text == "Template error: "@ + m@,
            FerronError::Watch(m) => text == "File watch error: "@ + m@,
            FerronError::Timeout(m) => text == "Operation timed out: "@ + m@,
            FerronError::PermissionDenied(m) => text == "Permission denied: "@ + m@,
            FerronError::AlreadyRunning(pid) => text == "Ferron is already running with PID "@
                + crate::text::decimal(pid as nat),
            FerronError::NotRunning => text == "Ferron is not currently running"@,
        }
    }

    /// The message of the error.
    pub fn to_string(&self) -> (r: String)
        ensures
            self.says(r@),
    {
        match self {
            FerronError::Config(m) => joined("Configuration error: ", m.as_str()),
            FerronError::InvalidConfig { field, message } => {
                let head = joined("Invalid configuration value for '", field.as_str());
                let middle = joined(head.as_str(), "': ");
                joined(middle.as_str(), message.as_str())
            },
            FerronError::Process(m) => joined("Process error: ", m.as_str()),
            FerronError::ProcessNotFound(m) => {
                joined("Ferron process not found at path: ", m.as_str())
            },
            FerronError::StartFailed(m) => joined("Failed to start Ferron: ", m.as_str()),
            FerronError::StopFailed(m) => joined("Failed to stop Ferron: ", m.as_str()),
            FerronError::ReloadFailed(m) => joined("Failed to reload configuration: ", m.as_str()),
            FerronError::HealthCheck(m) => joined("Health check failed: ", m.as_str()),
            FerronError::BackendUnreachable { url } => {
                joined("Backend unreachable: ", url.as_str())
            },
            FerronError::Registry(m) => joined("Service registry error: ", m.as_str()),
            FerronError::ServiceNotFound(m) => joined("Service not found: ", m.as_str()),
            FerronError::Io(e) => joined("IO error: ", e.to_string().as_str()),
            FerronError::UrlParse(e) => joined("Invalid URL: ", e.to_string().as_str()),
            FerronError::Http(e) => joined("HTTP error: ", e.to_string().as_str()),
            FerronError::Json(e) => joined("JSON error: ", e.to_string().as_str()),
            FerronError::Template(m) => joined("Template error: ", m.as_str()),
            FerronError::Watch(m) => joined("File watch error: ", m.as_str()),
            FerronError::Timeout(m) => joined("Operation timed out: ", m.as_str()),
            FerronError::PermissionDenied(m) => joined("Permission denied: ", m.as_str()),
            FerronError::AlreadyRunning(pid) => {
                joined("Ferron is already running with PID ", decimal_text(*pid as u64).as_str())
            },
            FerronError::NotRunning => "Ferron is not currently running".to_owned(),
        }
    }

    /// Creates a configuration error.
    pub fn config(msg: &str) -> (r: Self)
        ensures
            r matches FerronError::Config(m) && m@ == msg@,
    {
        FerronError::Config(msg.to_owned())
    }

    /// Creates an invalid configuration error.
    pub fn invalid_config(field: &str, message: &str) -> (r: Self)
        ensures
            r matches FerronError::InvalidConfig { field: f, message: m } && f@ == field@ && m@
                == message@,
    {
        FerronError::InvalidConfig { field: field.to_owned(), message: message.to_owned() }
    }

    /// Creates a process error.
    pub fn process(msg: &str) -> (r: Self)
        ensures
            r matches FerronError::Process(m) && m@ == msg@,
    {
        FerronError::Process(msg.to_owned())
    }

    /// Creates a health check error.
    pub fn health_check(msg: &str) -> (r: Self)
        ensures
            r matches FerronError::HealthCheck(m) && m@ == msg@,
    {
        FerronError::HealthCheck(msg.to_owned())
    }

    /// Creates a registry error.
    pub fn registry(msg: &str) -> (r: Self)
        ensures
            r matches FerronError::Registry(m) && m@ == msg@,
    {
        FerronError::Registry(msg.to_owned())
    }

    /// Creates a template error.
    pub fn template(msg: &str) -> (r: Self)
        ensures
            r matches FerronError::Template(m) && m@ == msg@,
    {
        FerronError::Template(msg.to_owned())
    }

    /// Creates a timeout error.
    pub fn timeout(msg: &str) -> (r: Self)
        ensures
            r matches FerronError::Timeout(m) && m@ == msg@,
    {
        FerronError::Timeout(msg.to_owned())
    }

    /// The errors after which it is worth trying again.
    pub open spec fn recoverable(self) -> bool {
        self is BackendUnreachable || self is HealthCheck || self is Timeout || self is ReloadFailed
    }

    /// The errors about the configuration.
    pub open spec fn about_config(self) -> bool {
        self is Config || self is InvalidConfig
    }

    /// The errors about the Ferron process.
    pub open spec fn about_process(self) -> bool {
        self is Process || self is ProcessNotFound || self is StartFailed || self is StopFailed
            || self is AlreadyRunning || self is NotRunning
    }

    /// Checks if the error is recoverable.
    pub fn is_recoverable(&self) -> (r: bool)
        ensures
            r == self.recoverable(),
    {
        matches!(
            self,
            FerronError::BackendUnreachable { .. }
                | FerronError::HealthCheck(_)
                | FerronError::Timeout(_)
                | FerronError::ReloadFailed(_)
        )
    }

    /// Checks if the error is a configuration error.
    pub fn is_config_error(&self) -> (r: bool)
        ensures
            r == self.about_config(),
    {
        matches!(self, FerronError::Config(_) | FerronError::InvalidConfig { .. })
    }

    /// Checks if the error is a process error.
    pub fn is_process_error(&self) -> (r: bool)
        ensures
            r == self.about_process(),
    {
        matches!(
            self,
            FerronError::Process(_)
                | FerronError::ProcessNotFound(_)
                | FerronError::StartFailed(_)
                | FerronError::StopFailed(_)
                | FerronError::AlreadyRunning(_)
                | FerronError::NotRunning
        )
    }
}

/// No error belongs to two of the three categories: what is recoverable is
/// neither about the configuration nor about the process, and a configuration
/// error is not a process error.
pub proof fn law_error_categories_disjoint(e: FerronError)
    ensures
        !(e.recoverable() && e.about_config()),
        !(e.recoverable() && e.about_process()),
        !(e.about_config() && e.about_process()),
{
}

} // verus!
