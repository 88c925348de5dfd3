//! Service lifecycle orchestration behind the per-OS `ServiceController` seam,
//! and the unit files that the launchd and systemd adapters write.

use vstd::prelude::*;

use super::platform::{is_absolute_path_on, spec_is_absolute_on, windows_paths};
use crate::text::{
    chars_of, contains_text, push_signed_decimal, push_str, spec_contains, spec_signed_decimal,
    string_of,
};

verus! {

/// Fixed label of the deployed service.
pub const SERVICE_LABEL: &'static str = "com.okc.watcher";

/// Account the service runs as.
#[derive(Debug, Clone, PartialEq, Eq, Default)]
pub enum ServiceAccount {
    /// The current (logged-in) user; the default.
    #[default]
    CurrentUser,
    /// A named account.
    Named(String),
}

/// Deployment parameters of the service; paths in their textual form.
///
/// `exec_path` and `working_dir` must be absolute (checked at install).
#[derive(Debug, Clone, PartialEq, Eq)]
pub struct ServiceSpec {
    /// Absolute path of the deployed binary.
    pub exec_path: String,
    /// Absolute working (data) directory.
    pub working_dir: String,
    /// Account to run as.
    pub account: ServiceAccount,
    /// Start automatically at boot or login (default `true`).
    pub autostart: bool,
    /// Configuration the unit binds the daemon to (`<exec> run <config>`), if any.
    pub config_path: Option<String>,
}

impl ServiceSpec {
    /// A spec with the defaults: current user, autostart on, no bound configuration.
    pub fn new(exec_path: String, working_dir: String) -> (s: Self)
        ensures
            s.exec_path@ == exec_path@,
            s.working_dir@ == working_dir@,
            s.account == ServiceAccount::CurrentUser,
            s.autostart,
            s.config_path is None,
    {
        ServiceSpec {
            exec_path,
            working_dir,
            account: ServiceAccount::CurrentUser,
            autostart: true,
            config_path: None,
        }
    }

    /// Binds the generated unit to an explicit configuration path.
    pub fn with_config_path(self, config_path: String) -> (s: Self)
        ensures
            s.exec_path == self.exec_path,
            s.working_dir == self.working_dir,
            s.account == self.account,
            s.autostart == self.autostart,
            s.config_path matches Some(c) && c@ == config_path@,
    {
        ServiceSpec { config_path: Some(config_path), ..self }
    }
}

/// Result of a status query; reflects the real OS state.
///
/// Invariant of a truthful answer: running implies registered, a PID implies running.
#[derive(Debug, Clone, Copy, PartialEq, Eq)]
pub struct ServiceRegistration {
    /// A unit is registered with the OS service manager.
    pub registered: bool,
    /// The service is running.
    pub running: bool,
    /// Its PID while running.
    pub pid: Option<u32>,
}

/// Service management errors.
#[derive(Debug, Clone, PartialEq, Eq)]
pub enum ServiceError {
    /// Unknown or unsupported OS.
    UnsupportedPlatform,
    /// Insufficient privilege.
    PermissionDenied,
    /// `start`/`stop`/`status` on an unregistered service.
    NotInstalled,
    /// Underlying I/O failure, or an invalid spec.
    Io(String),
}

impl ServiceError {
    /// The message of the error.
    pub fn message(&self) -> (s: String)
        ensures
            s@ == match *self {
                ServiceError::UnsupportedPlatform => "미지원 플랫폼"@,
                ServiceError::PermissionDenied => "권한 부족"@,
                ServiceError::NotInstalled => "서비스가 설치되어 있지 않음"@,
                ServiceError::Io(d) => "서비스 I/O 실패: "@ + d@,
            },
    {
        match self {
            ServiceError::UnsupportedPlatform => string_of("미지원 플랫폼"),
            ServiceError::PermissionDenied => string_of("권한 부족"),
            ServiceError::NotInstalled => string_of("서비스가 설치되어 있지 않음"),
            ServiceError::Io(d) => {
                let mut s = string_of("서비스 I/O 실패: ");
                push_str(&mut s, d.as_str());
                s
            },
        }
    }
}

/// Per-OS service manager seam.
///
/// Each operation's result is tied to a relation of the implementation
/// (`registers`, `deregisters`, ...): the results that the operation can
/// give. By default every result is possible; an implementation may narrow
/// it. The manager's contracts say which operation's result it returns.
pub trait ServiceController: Send + Sync {
    /// `r` is a result that registering `spec` can give.
    open spec fn registers(&self, spec: ServiceSpec, r: Result<(), ServiceError>) -> bool {
        true
    }

    /// `r` is a result that deregistering can give.
    open spec fn deregisters(&self, r: Result<(), ServiceError>) -> bool {
        true
    }

    /// `r` is a result that enabling autostart can give.
    open spec fn enables_autostart(&self, r: Result<(), ServiceError>) -> bool {
        true
    }

    /// `r` is a result that starting can give.
    open spec fn starts(&self, r: Result<(), ServiceError>) -> bool {
        true
    }

    /// `r` is a result that stopping can give.
    open spec fn stops(&self, r: Result<(), ServiceError>) -> bool {
        true
    }

    /// `r` is a result that querying can give.
    open spec fn queries(&self, r: Result<ServiceRegistration, ServiceError>) -> bool {
        true
    }

    /// Registers (installs) the unit; re-registering overwrites.
    fn register(&self, spec: &ServiceSpec) -> (r: Result<(), ServiceError>)
        ensures
            self.registers(*spec, r),
    ;

    /// Deregisters the unit; succeeds when nothing is registered.
    fn deregister(&self) -> (r: Result<(), ServiceError>)
        ensures
            self.deregisters(r),
    ;

    /// Enables start at boot or login.
    fn enable_autostart(&self) -> (r: Result<(), ServiceError>)
        ensures
            self.enables_autostart(r),
    ;

    /// Starts the service; `NotInstalled` when unregistered.
    fn start(&self) -> (r: Result<(), ServiceError>)
        ensures
            self.starts(r),
    ;

    /// Stops the service; `NotInstalled` when unregistered.
    fn stop(&self) -> (r: Result<(), ServiceError>)
        ensures
            self.stops(r),
    ;

    /// Queries the registration; `NotInstalled` when unregistered.
    fn query(&self) -> (r: Result<ServiceRegistration, ServiceError>)
        ensures
            self.queries(r),
    ;
}

/// Whether a path is absolute on this platform (see `spec_is_absolute_on`):
/// the result is the Unix or the Windows judgment, whichever convention the
/// platform follows.
pub fn is_absolute_path(p: &str) -> (r: bool)
    ensures
        r == spec_is_absolute_on(p@, false) || r == spec_is_absolute_on(p@, true),
{
    is_absolute_path_on(p, windows_paths())
}

/// What spec validation gives under a platform's conventions: a refusal
/// naming the first relative path.
pub open spec fn spec_validate_spec(spec: ServiceSpec, windows: bool) -> Result<(), Seq<char>> {
    if !spec_is_absolute_on(spec.exec_path@, windows) {
        Err("exec_path 는 절대 경로여야 합니다"@)
    } else if !spec_is_absolute_on(spec.working_dir@, windows) {
        Err("working_dir 는 절대 경로여야 합니다"@)
    } else {
        Ok(())
    }
}

/// Whether a validation result is the one `expected` describes.
pub open spec fn validation_matches(r: Result<(), ServiceError>, expected: Result<(), Seq<char>>) -> bool {
    match (r, expected) {
        (Ok(()), Ok(())) => true,
        (Err(ServiceError::Io(m)), Err(x)) => m@ == x,
        _ => false,
    }
}

/// Checks, under the given conventions, that `exec_path` and `working_dir`
/// are absolute; a refusal is an `Io` error.
pub fn validate_spec_on(spec: &ServiceSpec, windows: bool) -> (r: Result<(), ServiceError>)
    ensures
        validation_matches(r, spec_validate_spec(*spec, windows)),
{
    if !is_absolute_path_on(spec.exec_path.as_str(), windows) {
        return Err(ServiceError::Io(string_of("exec_path 는 절대 경로여야 합니다")));
    }
    if !is_absolute_path_on(spec.working_dir.as_str(), windows) {
        return Err(ServiceError::Io(string_of("working_dir 는 절대 경로여야 합니다")));
    }
    Ok(())
}

/// Checks the spec under this platform's conventions.
pub fn validate_spec(spec: &ServiceSpec) -> (r: Result<(), ServiceError>)
    ensures
        validation_matches(r, spec_validate_spec(*spec, false)) || validation_matches(
            r,
            spec_validate_spec(*spec, true),
        ),
{
    validate_spec_on(spec, windows_paths())
}

/// The text of an exit code as `{:?}` renders an `Option<i32>`.
pub open spec fn spec_code_text(code: Option<i32>) -> Seq<char> {
    match code {
        Some(c) => "Some("@ + spec_signed_decimal(c as int) + ")"@,
        None => "None"@,
    }
}

/// A failed service command is a privilege problem when its lower-cased
/// standard error mentions `permission`, `denied`, `root` or `administrator`.
pub open spec fn spec_privilege_failure(stderr_lower: Seq<char>) -> bool {
    spec_contains(stderr_lower, "permission"@) || spec_contains(stderr_lower, "denied"@)
        || spec_contains(stderr_lower, "root"@) || spec_contains(stderr_lower, "administrator"@)
}

/// Classifies a failed service command: `PermissionDenied` for a privilege
/// problem, else an I/O error `명령 실패(code=<code>)`.
pub fn command_failure(stderr_lower: &str, code: Option<i32>) -> (e: ServiceError)
    ensures
        spec_privilege_failure(stderr_lower@) ==> e == ServiceError::PermissionDenied,
        !spec_privilege_failure(stderr_lower@) ==> (e matches ServiceError::Io(m) && m@
            == "명령 실패(code="@ + spec_code_text(code) + ")"@),
{
    if contains_text(stderr_lower, "permission") || contains_text(stderr_lower, "denied")
        || contains_text(stderr_lower, "root") || contains_text(stderr_lower, "administrator") {
        return ServiceError::PermissionDenied;
    }
    let mut m = string_of("명령 실패(code=");
    match code {
        Some(c) => {
            push_str(&mut m, "Some(");
            push_signed_decimal(&mut m, c);
            push_str(&mut m, ")");
        },
        None => push_str(&mut m, "None"),
    }
    push_str(&mut m, ")");
    ServiceError::Io(m)
}

/// Whether `sc.exe query` output reports the service running.
pub fn sc_query_running(text: &str) -> (r: bool)
    ensures
        r == spec_contains(text@, "RUNNING"@),
{
    contains_text(text, "RUNNING")
}

/// OS-neutral service lifecycle orchestrator over an injected controller.
pub struct ServiceManager {
    controller: Box<dyn ServiceController>,
    windows: bool,
}

impl ServiceManager {
    /// A manager over the given controller.
    pub fn new(controller: Box<dyn ServiceController>) -> Self {
        ServiceManager { controller, windows: windows_paths() }
    }

    /// Whether the manager judges paths by Windows conventions (those of the
    /// platform it was made on).
    pub closed spec fn spec_windows(&self) -> bool {
        self.windows
    }

    /// `r` is a result that the controller's `register` can give for `spec`.
    pub closed spec fn registers(&self, spec: ServiceSpec, r: Result<(), ServiceError>) -> bool {
        self.controller.registers(spec, r)
    }

    /// `r` is a result that the controller's `deregister` can give.
    pub closed spec fn deregisters(&self, r: Result<(), ServiceError>) -> bool {
        self.controller.deregisters(r)
    }

    /// `r` is a result that the controller's `enable_autostart` can give.
    pub closed spec fn enables_autostart(&self, r: Result<(), ServiceError>) -> bool {
        self.controller.enables_autostart(r)
    }

    /// `r` is a result that the controller's `start` can give.
    pub closed spec fn starts(&self, r: Result<(), ServiceError>) -> bool {
        self.controller.starts(r)
    }

    /// `r` is a result that the controller's `stop` can give.
    pub closed spec fn stops(&self, r: Result<(), ServiceError>) -> bool {
        self.controller.stops(r)
    }

    /// `r` is a result that the controller's `query` can give.
    pub closed spec fn queries(&self, r: Result<ServiceRegistration, ServiceError>) -> bool {
        self.controller.queries(r)
    }

    /// Installs: validates the spec, registers, and enables autostart when asked.
    /// An invalid spec is refused before the controller is called; a
    /// registration error is returned and autostart is then not enabled.
    pub fn install(&self, spec: &ServiceSpec) -> (r: Result<(), ServiceError>)
        ensures
            spec_validate_spec(*spec, self.spec_windows()) matches Err(x) ==> (r matches Err(
                ServiceError::Io(m),
            ) && m@ == x),
            spec_validate_spec(*spec, self.spec_windows()) is Ok ==> exists|reg: Result<(), ServiceError>|
                #[trigger] self.registers(*spec, reg) && (match reg {
                    Err(e) => r == Err::<(), ServiceError>(e),
                    Ok(()) => if spec.autostart {
                        self.enables_autostart(r)
                    } else {
                        r == Ok::<(), ServiceError>(())
                    },
                }),
    {
        validate_spec_on(spec, self.windows)?;
        let reg = self.controller.register(spec);
        assert(self.registers(*spec, reg));
        match reg {
            Err(e) => {
                return Err(e);
            },
            Ok(()) => {},
        }
        if spec.autostart {
            self.controller.enable_autostart()
        } else {
            Ok(())
        }
    }

    /// Uninstalls (deregisters); the controller makes it idempotent.
    pub fn uninstall(&self) -> (r: Result<(), ServiceError>)
        ensures
            self.deregisters(r),
    {
        self.controller.deregister()
    }

    /// Starts the service.
    pub fn start(&self) -> (r: Result<(), ServiceError>)
        ensures
            self.starts(r),
    {
        self.controller.start()
    }

    /// Stops the service.
    pub fn stop(&self) -> (r: Result<(), ServiceError>)
        ensures
            self.stops(r),
    {
        self.controller.stop()
    }

    /// `r` is a result a restart can give: the error of a failed stop, or
    /// after a successful stop a result the start can give.
    pub open spec fn restarts(&self, r: Result<(), ServiceError>) -> bool {
        exists|stopped: Result<(), ServiceError>|
            #[trigger] self.stops(stopped) && (match stopped {
                Err(e) => r == Err::<(), ServiceError>(e),
                Ok(()) => self.starts(r),
            })
    }

    /// Restarts: stops, then starts; a failed stop is returned and the start skipped.
    pub fn restart(&self) -> (r: Result<(), ServiceError>)
        ensures
            self.restarts(r),
    {
        let stopped = self.controller.stop();
        assert(self.stops(stopped));
        match stopped {
            Err(e) => Err(e),
            Ok(()) => self.controller.start(),
        }
    }

    /// Queries the registration.
    pub fn status(&self) -> (r: Result<ServiceRegistration, ServiceError>)
        ensures
            self.queries(r),
    {
        self.controller.query()
    }
}

/// The `ProgramArguments` entries of the launchd plist.
pub open spec fn spec_plist_program_args(spec: ServiceSpec) -> Seq<char> {
    match spec.config_path {
        Some(config) => "<string>"@ + spec.exec_path@ + "</string>"@
            + "<string>run</string><string>"@ + config@ + "</string>"@,
        None => "<string>"@ + spec.exec_path@ + "</string>"@,
    }
}

/// The launchd LaunchAgent plist of a spec.
pub open spec fn spec_plist_contents(spec: ServiceSpec) -> Seq<char> {
    "<?xml version=\"1.0\" encoding=\"UTF-8\"?>\n<plist version=\"1.0\"><dict>\n<key>Label</key><string>"@
        + SERVICE_LABEL@ + "</string>\n<key>ProgramArguments</key><array>"@
        + spec_plist_program_args(spec) + "</array>\n<key>WorkingDirectory</key><string>"@
        + spec.working_dir@ + "</string>\n<key>RunAtLoad</key><"@ + (if spec.autostart {
        "true"@
    } else {
        "false"@
    }) + "/>\n<key>KeepAlive</key><true/>\n</dict></plist>\n"@
}

/// The launchd LaunchAgent plist: label, program arguments (`run <config>`
/// appended when a configuration is bound), working directory, run-at-load
/// from `autostart`, keep-alive.
pub fn plist_contents(spec: &ServiceSpec) -> (s: String)
    ensures
        s@ == spec_plist_contents(*spec),
{
    let mut out = string_of(
        "<?xml version=\"1.0\" encoding=\"UTF-8\"?>\n<plist version=\"1.0\"><dict>\n<key>Label</key><string>",
    );
    push_str(&mut out, SERVICE_LABEL);
    push_str(&mut out, "</string>\n<key>ProgramArguments</key><array>");
    push_str(&mut out, "<string>");
    push_str(&mut out, spec.exec_path.as_str());
    push_str(&mut out, "</string>");
    match &spec.config_path {
        Some(config) => {
            push_str(&mut out, "<string>run</string><string>");
            push_str(&mut out, config.as_str());
            push_str(&mut out, "</string>");
        },
        None => {},
    }
    push_str(&mut out, "</array>\n<key>WorkingDirectory</key><string>");
    push_str(&mut out, spec.working_dir.as_str());
    push_str(&mut out, "</string>\n<key>RunAtLoad</key><");
    if spec.autostart {
        push_str(&mut out, "true");
    } else {
        push_str(&mut out, "false");
    }
    push_str(&mut out, "/>\n<key>KeepAlive</key><true/>\n</dict></plist>\n");
    assert(out@ =~= spec_plist_contents(*spec));
    out
}

/// The `ExecStart` command of the systemd unit.
pub open spec fn spec_exec_start(spec: ServiceSpec) -> Seq<char> {
    match spec.config_path {
        Some(config) => spec.exec_path@ + " run "@ + config@,
        None => spec.exec_path@,
    }
}

/// The systemd user unit of a spec.
pub open spec fn spec_unit_contents(spec: ServiceSpec) -> Seq<char> {
    "[Unit]\nDescription=okc-hooks Watcher\n\n[Service]\nExecStart="@ + spec_exec_start(spec)
        + "\nWorkingDirectory="@ + spec.working_dir@
        + "\nRestart=on-failure\n\n[Install]\nWantedBy=default.target\n"@
}

/// The systemd user unit: `ExecStart` (with `run <config>` when a
/// configuration is bound), working directory, restart on failure.
pub fn unit_contents(spec: &ServiceSpec) -> (s: String)
    ensures
        s@ == spec_unit_contents(*spec),
{
    let mut out = string_of("[Unit]\nDescription=okc-hooks Watcher\n\n[Service]\nExecStart=");
    push_str(&mut out, spec.exec_path.as_str());
    match &spec.config_path {
        Some(config) => {
            push_str(&mut out, " run ");
            push_str(&mut out, config.as_str());
        },
        None => {},
    }
    push_str(&mut out, "\nWorkingDirectory=");
    push_str(&mut out, spec.working_dir.as_str());
    push_str(&mut out, "\nRestart=on-failure\n\n[Install]\nWantedBy=default.target\n");
    assert(out@ =~= spec_unit_contents(*spec));
    out
}

} // verus!
