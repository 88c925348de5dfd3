use std::sync::{Arc, Mutex};

use okc_hooks::lifecycle::platform::is_absolute_path_on;
use okc_hooks::lifecycle::service::{
    command_failure, sc_query_running, is_absolute_path, plist_contents, unit_contents, validate_spec, ServiceController, ServiceError,
    ServiceManager, ServiceRegistration, ServiceSpec,
};

#[derive(Debug, Default)]
struct ControllerState {
    registered: bool,
    running: bool,
    pid: Option<u32>,
    autostart_enabled: bool,
    start_count: u32,
}

#[derive(Debug, Clone, Default)]
struct FakeController {
    state: Arc<Mutex<ControllerState>>,
}

impl FakeController {
    fn empty() -> Self {
        FakeController::default()
    }

    fn running(pid: u32) -> Self {
        let c = FakeController::default();
        {
            let mut s = c.state.lock().unwrap();
            s.registered = true;
            s.running = true;
            s.pid = Some(pid);
        }
        c
    }

    fn autostart_enabled(&self) -> bool {
        self.state.lock().unwrap().autostart_enabled
    }

    fn restart_count(&self) -> u32 {
        self.state.lock().unwrap().start_count
    }
}

impl ServiceController for FakeController {
    fn register(&self, _spec: &ServiceSpec) -> Result<(), ServiceError> {
        self.state.lock().unwrap().registered = true;
        Ok(())
    }

    fn deregister(&self) -> Result<(), ServiceError> {
        let mut s = self.state.lock().unwrap();
        s.registered = false;
        s.running = false;
        s.pid = None;
        Ok(())
    }

    fn enable_autostart(&self) -> Result<(), ServiceError> {
        self.state.lock().unwrap().autostart_enabled = true;
        Ok(())
    }

    fn start(&self) -> Result<(), ServiceError> {
        let mut s = self.state.lock().unwrap();
        if !s.registered {
            return Err(ServiceError::NotInstalled);
        }
        s.running = true;
        s.pid = Some(s.pid.unwrap_or(1000));
        s.start_count = s.start_count.saturating_add(1);
        Ok(())
    }

    fn stop(&self) -> Result<(), ServiceError> {
        let mut s = self.state.lock().unwrap();
        if !s.registered {
            return Err(ServiceError::NotInstalled);
        }
        s.running = false;
        s.pid = None;
        Ok(())
    }

    fn query(&self) -> Result<ServiceRegistration, ServiceError> {
        let s = self.state.lock().unwrap();
        if !s.registered {
            return Err(ServiceError::NotInstalled);
        }
        let (running, pid) = if s.running { (true, Some(s.pid.unwrap_or(1000))) } else { (false, None) };
        Ok(ServiceRegistration { registered: true, running, pid })
    }
}

fn abs(p: &str) -> String {
    format!("/okc{p}")
}

#[test]
fn install_validates_absolute_paths() {
    let mgr = ServiceManager::new(Box::new(FakeController::empty()));
    let bad = ServiceSpec::new("relative/bin".to_string(), abs("/wd"));
    assert!(matches!(mgr.install(&bad), Err(ServiceError::Io(_))));
}

#[test]
fn install_registers_and_enables_autostart() {
    let ctrl = FakeController::empty();
    let handle = ctrl.clone();
    let mgr = ServiceManager::new(Box::new(ctrl));
    let spec = ServiceSpec::new(abs("/bin/watcher"), abs("/data"));
    mgr.install(&spec).unwrap();
    let reg = mgr.status().unwrap();
    assert!(reg.registered);
    assert!(handle.autostart_enabled());
}

#[test]
fn uninstall_is_idempotent_even_when_absent() {
    let mgr = ServiceManager::new(Box::new(FakeController::empty()));
    assert!(mgr.uninstall().is_ok());
    assert!(mgr.uninstall().is_ok());
    assert!(matches!(mgr.status(), Err(ServiceError::NotInstalled)));
}

#[test]
fn start_stop_when_not_installed_is_not_installed() {
    let mgr = ServiceManager::new(Box::new(FakeController::empty()));
    assert!(matches!(mgr.start(), Err(ServiceError::NotInstalled)));
    assert!(matches!(mgr.stop(), Err(ServiceError::NotInstalled)));
}

#[test]
fn restart_stops_then_starts() {
    let ctrl = FakeController::empty();
    let handle = ctrl.clone();
    let mgr = ServiceManager::new(Box::new(ctrl));
    mgr.install(&ServiceSpec::new(abs("/bin/w"), abs("/data"))).unwrap();
    mgr.start().unwrap();
    assert!(mgr.status().unwrap().running);
    mgr.restart().unwrap();
    assert!(mgr.status().unwrap().running);
    assert!(handle.restart_count() >= 1);
}

#[test]
fn status_invariants_hold() {
    let ctrl = FakeController::running(4321);
    let mgr = ServiceManager::new(Box::new(ctrl));
    let reg = mgr.status().unwrap();
    assert!(!reg.running || reg.registered);
    assert!(reg.pid.is_none() || reg.running);
}

#[test]
fn plist_binds_config_when_set() {
    let cfg = abs("/cfg/config.json");
    let spec = ServiceSpec::new(abs("/bin/watcher"), abs("/data")).with_config_path(cfg.clone());
    let plist = plist_contents(&spec);
    assert!(plist.contains("<string>run</string>"));
    assert!(plist.contains(&format!("<string>{}</string>", cfg)));
}

#[test]
fn plist_omits_run_arg_when_config_absent() {
    let spec = ServiceSpec::new(abs("/bin/watcher"), abs("/data"));
    let plist = plist_contents(&spec);
    assert!(!plist.contains("<string>run</string>"));
}

#[test]
fn systemd_unit_binds_config_when_set() {
    let cfg = abs("/cfg/config.json");
    let spec = ServiceSpec::new(abs("/bin/watcher"), abs("/data")).with_config_path(cfg.clone());
    let unit = unit_contents(&spec);
    assert!(unit.contains(&format!("ExecStart={} run {}", abs("/bin/watcher"), cfg)));
}

#[test]
fn systemd_unit_omits_run_arg_when_config_absent() {
    let spec = ServiceSpec::new(abs("/bin/watcher"), abs("/data"));
    let unit = unit_contents(&spec);
    assert!(unit.contains(&format!("ExecStart={}\n", abs("/bin/watcher"))));
}

#[test]
fn spec_validation_names_the_first_relative_path() {
    assert!(is_absolute_path("/usr/bin"));
    assert!(!is_absolute_path("usr/bin"));
    assert!(!is_absolute_path(""));
    assert!(is_absolute_path_on("C:\\okc\\bin", true));
    assert!(is_absolute_path_on("d:/okc/bin", true));
    assert!(is_absolute_path_on("\\\\server\\share", true));
    assert!(!is_absolute_path_on("C:okc", true));
    assert!(!is_absolute_path_on("\\x", true));
    assert!(!is_absolute_path_on("/x", true));
    assert!(is_absolute_path_on("/x", false));
    assert!(!is_absolute_path_on("\\x", false));
    assert!(!is_absolute_path_on("C:/x", false));
    let spec = ServiceSpec::new("/bin/w".to_string(), "data".to_string());
    assert_eq!(
        validate_spec(&spec),
        Err(ServiceError::Io("working_dir 는 절대 경로여야 합니다".to_string()))
    );
    let spec = ServiceSpec::new("bin/w".to_string(), "data".to_string());
    assert_eq!(
        validate_spec(&spec),
        Err(ServiceError::Io("exec_path 는 절대 경로여야 합니다".to_string()))
    );
    assert_eq!(validate_spec(&ServiceSpec::new(abs("/b"), abs("/d"))), Ok(()));
}

#[test]
fn plist_exact_text() {
    let spec = ServiceSpec::new("/b/w".to_string(), "/d".to_string());
    let expected = "<?xml version=\"1.0\" encoding=\"UTF-8\"?>\n<plist version=\"1.0\"><dict>\n<key>Label</key><string>com.okc.watcher</string>\n<key>ProgramArguments</key><array><string>/b/w</string></array>\n<key>WorkingDirectory</key><string>/d</string>\n<key>RunAtLoad</key><true/>\n<key>KeepAlive</key><true/>\n</dict></plist>\n";
    assert_eq!(plist_contents(&spec), expected);
}

#[test]
fn failed_commands_are_classified() {
    assert_eq!(command_failure("error: access denied", Some(1)), ServiceError::PermissionDenied);
    assert_eq!(command_failure("must be run as root", None), ServiceError::PermissionDenied);
    assert_eq!(command_failure("unit not found", Some(-5)), ServiceError::Io("명령 실패(code=Some(-5))".to_string()));
    assert_eq!(command_failure("", None), ServiceError::Io("명령 실패(code=None)".to_string()));
    assert!(sc_query_running("STATE : 4 RUNNING"));
    assert!(!sc_query_running("STATE : 1 STOPPED"));
    assert_eq!(ServiceError::Io("x".to_string()).message(), "서비스 I/O 실패: x");
}
