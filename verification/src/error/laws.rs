//! What errors say, and which of them belong together.

use crate::error::FerronError;
use vstd::prelude::*;

verus! {

/// The message of an error names its kind and then quotes its detail, whatever
/// that is.
pub proof fn law_message_is_kind_and_detail(e: FerronError, r: String)
    requires
        call_ensures(FerronError::to_string, (&e,), r),
    ensures
        e matches FerronError::Config(m) ==> r@ == "Configuration error: "@ + m@,
        e matches FerronError::Process(m) ==> r@ == "Process error: "@ + m@,
        e matches FerronError::ProcessNotFound(m) ==> r@ == "Ferron process not found at path: "@
            + m@,
        e matches FerronError::StartFailed(m) ==> r@ == "Failed to start Ferron: "@ + m@,
        e matches FerronError::StopFailed(m) ==> r@ == "Failed to stop Ferron: "@ + m@,
        e matches FerronError::ReloadFailed(m) ==> r@ == "Failed to reload configuration: "@ + m@,
        e matches FerronError::HealthCheck(m) ==> r@ == "Health check failed: "@ + m@,
        e matches FerronError::Registry(m) ==> r@ == "Service registry error: "@ + m@,
        e matches FerronError::ServiceNotFound(m) ==> r@ == "Service not found: "@ + m@,
        e matches FerronError::Template(m) ==> r@ == "Template error: "@ + m@,
        e matches FerronError::Watch(m) ==> r@ == "File watch error: "@ + m@,
        e matches FerronError::Timeout(m) ==> r@ == "Operation timed out: "@ + m@,
        e matches FerronError::PermissionDenied(m) ==> r@ == "Permission denied: "@ + m@,
        e matches FerronError::BackendUnreachable { url } ==> r@ == "Backend unreachable: "@ + url@,
        e matches FerronError::InvalidConfig { field, message } ==> r@
            == "Invalid configuration value for '"@ + field@ + "': "@ + message@,
        e is NotRunning ==> r@ == "Ferron is not currently running"@,
{
}

/// The message of a process that already runs ends in its identifier.
pub proof fn law_message_names_the_running_process(pid: u32, r: String)
    requires
        call_ensures(FerronError::to_string, (&FerronError::AlreadyRunning(pid),), r),
    ensures
        ({
            let head = "Ferron is already running with PID "@;
            &&& r@.len() > head.len()
            &&& r@.take(head.len() as int) == head
            &&& crate::text::laws::number(r@.skip(head.len() as int)) == pid
        }),
{
    let head = "Ferron is already running with PID "@;
    let digits = crate::text::decimal(pid as nat);
    crate::text::laws::law_decimal_is_unambiguous(pid as nat, pid as nat);
    assert(r@.take(head.len() as int) =~= head);
    assert(r@.skip(head.len() as int) =~= digits);
    assert(digits.len() > 0) by {
        reveal_with_fuel(crate::text::decimal, 1);
    }
}

/// The message of an error of another crate ends in what that error displays.
pub proof fn law_message_ends_in_the_outside_error(e: FerronError, r: String) -> (quoted: String)
    requires
        call_ensures(FerronError::to_string, (&e,), r),
        e is Io || e is UrlParse || e is Http || e is Json,
    ensures
        e matches FerronError::Io(x) ==> vstd::string::to_string_from_display_ensures(&x, quoted)
            && r@ == "IO error: "@ + quoted@,
        e matches FerronError::UrlParse(x) ==> vstd::string::to_string_from_display_ensures(
            &x,
            quoted,
        ) && r@ == "Invalid URL: "@ + quoted@,
        e matches FerronError::Http(x) ==> vstd::string::to_string_from_display_ensures(&x, quoted)
            && r@ == "HTTP error: "@ + quoted@,
        e matches FerronError::Json(x) ==> vstd::string::to_string_from_display_ensures(&x, quoted)
            && r@ == "JSON error: "@ + quoted@,
{
    match e {
        FerronError::Io(x) => choose|s: String| #[trigger]
            vstd::string::to_string_from_display_ensures(&x, s) && r@ == "IO error: "@ + s@,
        FerronError::UrlParse(x) => choose|s: String| #[trigger]
            vstd::string::to_string_from_display_ensures(&x, s) && r@ == "Invalid URL: "@ + s@,
        FerronError::Http(x) => choose|s: String| #[trigger]
            vstd::string::to_string_from_display_ensures(&x, s) && r@ == "HTTP error: "@ + s@,
        FerronError::Json(x) => choose|s: String| #[trigger]
            vstd::string::to_string_from_display_ensures(&x, s) && r@ == "JSON error: "@ + s@,
        _ => r,
    }
}

/// It is worth trying again exactly when a backend, a check, a reload or the
/// time was at fault.
pub proof fn law_which_errors_are_recoverable(e: FerronError, r: bool)
    requires
        call_ensures(FerronError::is_recoverable, (&e,), r),
    ensures
        e is BackendUnreachable || e is HealthCheck || e is Timeout || e is ReloadFailed ==> r,
        e is Config || e is InvalidConfig || e is Process || e is ProcessNotFound || e is StartFailed
            || e is StopFailed || e is Registry || e is ServiceNotFound || e is Io || e is UrlParse
            || e is Http || e is Json || e is Template || e is Watch || e is PermissionDenied
            || e is AlreadyRunning || e is NotRunning ==> !r,
{
}

/// Which errors are about the configuration, and which about the process.
pub proof fn law_which_errors_are_about_what(e: FerronError, config: bool, process: bool)
    requires
        call_ensures(FerronError::is_config_error, (&e,), config),
        call_ensures(FerronError::is_process_error, (&e,), process),
    ensures
        e is Config || e is InvalidConfig ==> config && !process,
        e is Process || e is ProcessNotFound || e is StartFailed || e is StopFailed
            || e is AlreadyRunning || e is NotRunning ==> process && !config,
        e is ReloadFailed || e is HealthCheck || e is BackendUnreachable || e is Registry
            || e is ServiceNotFound || e is Io || e is UrlParse || e is Http || e is Json
            || e is Template || e is Watch || e is Timeout || e is PermissionDenied ==> !config
            && !process,
{
}

/// An error that is made of a text carries that text.
pub proof fn law_made_errors_carry_their_text(text: &str, e: FerronError)
    ensures
        call_ensures(FerronError::config, (text,), e) ==> e is Config && e->Config_0@ == text@,
        call_ensures(FerronError::process, (text,), e) ==> e is Process && e->Process_0@ == text@,
        call_ensures(FerronError::health_check, (text,), e) ==> e is HealthCheck
            && e->HealthCheck_0@ == text@,
        call_ensures(FerronError::registry, (text,), e) ==> e is Registry && e->Registry_0@ == text@,
        call_ensures(FerronError::template, (text,), e) ==> e is Template && e->Template_0@ == text@,
        call_ensures(FerronError::timeout, (text,), e) ==> e is Timeout && e->Timeout_0@ == text@,
{
}

/// An invalid value is reported with its field and what is wrong with it.
pub proof fn law_invalid_values_name_their_field(field: &str, message: &str, e: FerronError)
    requires
        call_ensures(FerronError::invalid_config, (field, message), e),
    ensures
        e matches FerronError::InvalidConfig { field: f, message: m } && f@ == field@ && m@
            == message@,
{
}

} // verus!
