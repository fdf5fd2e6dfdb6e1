use armature_ferron::error::FerronError;

#[test]
fn test_error_display() {
    let err = FerronError::config("invalid domain");
    assert_eq!(err.to_string(), "Configuration error: invalid domain");

    let err = FerronError::invalid_config("port", "must be between 1 and 65535");
    assert_eq!(
        err.to_string(),
        "Invalid configuration value for 'port': must be between 1 and 65535"
    );
}

#[test]
fn test_error_is_recoverable() {
    assert!(FerronError::BackendUnreachable {
        url: "http://localhost:3000".into()
    }
    .is_recoverable());
    assert!(FerronError::HealthCheck("timeout".into()).is_recoverable());
    assert!(!FerronError::Config("bad config".into()).is_recoverable());
}

#[test]
fn test_error_categories() {
    assert!(FerronError::Config("test".into()).is_config_error());
    assert!(FerronError::invalid_config("field", "msg").is_config_error());
    assert!(!FerronError::Process("test".into()).is_config_error());

    assert!(FerronError::Process("test".into()).is_process_error());
    assert!(FerronError::NotRunning.is_process_error());
    assert!(!FerronError::Config("test".into()).is_process_error());
}

#[test]
fn every_message_names_its_kind() {
    let cases = vec![
        (FerronError::process("x"), "Process error: x"),
        (
            FerronError::ProcessNotFound("x".into()),
            "Ferron process not found at path: x",
        ),
        (
            FerronError::StartFailed("x".into()),
            "Failed to start Ferron: x",
        ),
        (
            FerronError::StopFailed("x".into()),
            "Failed to stop Ferron: x",
        ),
        (
            FerronError::ReloadFailed("x".into()),
            "Failed to reload configuration: x",
        ),
        (FerronError::health_check("x"), "Health check failed: x"),
        (
            FerronError::BackendUnreachable { url: "x".into() },
            "Backend unreachable: x",
        ),
        (FerronError::registry("x"), "Service registry error: x"),
        (
            FerronError::ServiceNotFound("x".into()),
            "Service not found: x",
        ),
        (FerronError::template("x"), "Template error: x"),
        (FerronError::Watch("x".into()), "File watch error: x"),
        (FerronError::timeout("x"), "Operation timed out: x"),
        (
            FerronError::PermissionDenied("x".into()),
            "Permission denied: x",
        ),
        (
            FerronError::AlreadyRunning(4070),
            "Ferron is already running with PID 4070",
        ),
        (FerronError::NotRunning, "Ferron is not currently running"),
    ];
    for (error, message) in cases {
        assert_eq!(error.to_string(), message);
    }
}

#[test]
fn errors_of_other_crates_are_quoted() {
    let io = FerronError::from(std::io::Error::new(std::io::ErrorKind::Other, "disk full"));
    assert_eq!(io.to_string(), "IO error: disk full");

    let url = FerronError::from(url::Url::parse("").unwrap_err());
    assert_eq!(
        url.to_string(),
        "Invalid URL: relative URL without a base"
    );

    let json = serde_json::from_str::<u32>("x").unwrap_err();
    let quoted = format!("JSON error: {}", json);
    assert_eq!(FerronError::from(json).to_string(), quoted);

    let http = reqwest::Client::new().get("no url").build().unwrap_err();
    let quoted = format!("HTTP error: {}", http);
    assert_eq!(FerronError::from(http).to_string(), quoted);
}

#[test]
fn recoverable_errors_are_not_about_configuration() {
    assert!(FerronError::Timeout("t".into()).is_recoverable());
    assert!(!FerronError::Timeout("t".into()).is_config_error());
    assert!(!FerronError::NotRunning.is_recoverable());
    assert!(FerronError::AlreadyRunning(1).is_process_error());
    assert!(FerronError::StartFailed("s".into()).is_process_error());
    assert!(FerronError::StopFailed("s".into()).is_process_error());
    assert!(FerronError::ProcessNotFound("s".into()).is_process_error());
}
