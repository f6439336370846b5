use amos_companion::scrcpy::scrcpy_version;
use amos_companion::scrcpy_server::power;
use amos_companion::agent_manager::{cwd_agent_dirs, exe_agent_dirs, find_device_agent_dir};
use amos_companion::device_agent_installer::{
    git_args, install_or_update, install_step, InstallAction, InstallEvent, InstallStage,
};
use amos_companion::adb::{
    adb_candidates, adb_candidates_in, adb_output_result, adb_spawn_error, expand_tilde, find_adb,
    adb_after_install, AdbLookup,
};
use amos_companion::dependency_manager::{CommandOutcome, OS};
use amos_companion::device_agent_installer::{
    clone_args, device_agent_dir_in, get_device_agent_dir, get_working_dir, install_dependencies,
    installed_marker, pip_program, repository_step_result, DEVICE_AGENT_REPO,
};
use amos_companion::scrcpy::{
    find_scrcpy, is_scrcpy_available, scrcpy_candidates, ProcessProbe, ScrcpyStream,
};
use amos_companion::workspace_manager::{
    device_token_url, device_url, devices_url, endpoint, failure_with_body, failure_with_status,
    get_hostname, hostname_or_unknown, register_url, sign_in_url, workspace_url,
};
use amos_companion::ws_scrcpy_server::{WsScrcpyServer, WsStartStep, DEFAULT_PORT};

fn strs(v: &[&str]) -> Vec<String> {
    v.iter().map(|s| s.to_string()).collect()
}

// ─────────────────────────────── adb ───────────────────────────────

#[test]
fn tilde_expansion() {
    assert_eq!(expand_tilde("~/x", Some("/home/u".to_string())), "/home/u/x");
    assert_eq!(expand_tilde("/a/~b", Some("/home/u".to_string())), "/a/~b");
    assert_eq!(expand_tilde("~/x~y", Some("/h".to_string())), "/h/x/hy");
    assert_eq!(expand_tilde("~/x", None), "~/x");
}

#[test]
fn adb_lookup() {
    let c = adb_candidates_in(OS::Macos, Some("/Users/u/Library/Application Support".to_string()), Some("/Users/u".to_string()));
    assert_eq!(
        c,
        strs(&[
            "/Users/u/Library/Application Support/amos-companion/platform-tools/adb",
            "/usr/local/bin/adb",
            "/opt/homebrew/bin/adb",
            "/Users/u/Library/Android/sdk/platform-tools/adb",
            "/usr/bin/adb",
        ])
    );
    assert!(matches!(find_adb(&c, &[false, false, true, false, true]), AdbLookup::Found(ref p) if p == "/opt/homebrew/bin/adb"));
    // Found nowhere: adb is to be installed, then looked for again.
    assert!(matches!(find_adb(&c, &[false; 5]), AdbLookup::InstallNeeded));
    assert_eq!(adb_after_install(&c, &[true, false, false, false, false]), c[0]);
    assert_eq!(adb_after_install(&c, &[false; 5]), "adb");
    let w = adb_candidates_in(OS::Windows, None, None);
    assert_eq!(w[0], ".\\amos-companion\\platform-tools\\adb.exe");
    assert_eq!(w[3], "~/Library/Android/sdk/platform-tools/adb");
    assert_eq!(adb_candidates(OS::Linux).len(), 5);
}

#[test]
fn adb_results() {
    assert_eq!(adb_output_result(true, "ok\n".to_string(), "warn"), Ok("ok\n".to_string()));
    assert_eq!(
        adb_output_result(false, "x".to_string(), "no device"),
        Err("ADB command failed: no device".to_string())
    );
    assert_eq!(adb_spawn_error("/p/adb", "not found"), "Failed to run adb (/p/adb): not found");
}

// ─────────────────────────────── scrcpy ───────────────────────────────

#[test]
fn scrcpy_lookup() {
    assert_eq!(
        scrcpy_candidates(),
        strs(&["/usr/local/bin/scrcpy", "/opt/homebrew/bin/scrcpy", "/usr/bin/scrcpy"])
    );
    assert_eq!(find_scrcpy(&[false, true, true], "", false), Some("/opt/homebrew/bin/scrcpy".to_string()));
    assert_eq!(find_scrcpy(&[false, false, false], "  /x/scrcpy\n", true), Some("/x/scrcpy".to_string()));
    assert_eq!(find_scrcpy(&[false, false, false], "/x/scrcpy\n", false), None);
    assert_eq!(find_scrcpy(&[false, false, false], " \n", true), None);
    assert!(!is_scrcpy_available(&[false, false, false], "", false));
    assert!(is_scrcpy_available(&[false, false, true], "", false));
}

#[test]
fn scrcpy_window() {
    let mut s = ScrcpyStream::new("R58".to_string());
    assert_eq!(s.window_title(), "AMOS - R58");
    assert_eq!(
        s.launch_args(),
        strs(&[
            "-s", "R58", "--window-title", "AMOS - R58", "--always-on-top", "--stay-awake",
            "--turn-screen-off", "--show-touches", "--prefer-text",
        ])
    );
    assert!(s.start_refused().is_none());
    let nf = s.not_found();
    assert!(!nf.success);
    assert_eq!(nf.message, "scrcpy not found. Install with: brew install scrcpy");
    assert_eq!(s.spawn_failed("denied").message, "Failed to spawn scrcpy: denied");

    s.spawned(77);
    let exited = s.after_probe(77, ProcessProbe::Exited("exit 1".to_string()), "", None);
    assert!(!exited.success);
    assert_eq!(exited.pid, Some(77));
    assert_eq!(exited.message, "scrcpy exited immediately. stderr: (empty)");
    assert!(!s.active);
    let failed = s.after_probe(77, ProcessProbe::Failed("io".to_string()), "", None);
    assert_eq!(failed.message, "Failed to verify scrcpy is running: io");

    let ok = s.after_probe(77, ProcessProbe::Running, "", Some(true));
    assert!(ok.success);
    assert!(s.active);
    assert_eq!(ok.message, "scrcpy started successfully (PID: 77). Window title: 'AMOS - R58'");
    assert!(ok.focus_attempted);
    assert_eq!(ok.focus_succeeded, Some(true));
    let refused = s.start_refused().unwrap();
    assert_eq!(refused.message, "scrcpy is already running");
    assert!(!refused.success);

    assert!(s.is_active(Some(ProcessProbe::Running)));
    assert!(s.active);
    assert!(!s.is_active(Some(ProcessProbe::Exited("0".to_string()))));
    assert!(!s.active);
    s.stop();
    assert_eq!(s.pid, None);
    assert!(!s.is_active(None));
}

#[test]
fn scrcpy_exit_keeps_stderr() {
    let mut s = ScrcpyStream::new("A".to_string());
    let r = s.after_probe(5, ProcessProbe::Exited("1".to_string()), "ERROR: no device", None);
    assert_eq!(r.message, "scrcpy exited immediately. stderr: ERROR: no device");
    assert_eq!(r.window_title, "AMOS - A");
}

// ─────────────────────────────── ws-scrcpy ───────────────────────────────

#[test]
fn ws_scrcpy_server_state() {
    let mut w = WsScrcpyServer::new();
    assert_eq!(w.port, DEFAULT_PORT);
    assert!(!w.is_running());
    assert_eq!(w.get_url(), "http://0.0.0.0:8000");
    assert!(matches!(w.start_step(false, true), WsStartStep::NotInstalled(ref e) if e == "ws-scrcpy not installed. Run install_deps() first."));
    assert!(matches!(w.start_step(true, false), WsStartStep::NpmMissing));
    assert!(matches!(w.start_step(true, true), WsStartStep::Launch));
    w.set_port(8100);
    assert_eq!(w.started(), "http://0.0.0.0:8100");
    assert!(w.is_running());
    assert!(matches!(w.start_step(false, false), WsStartStep::AlreadyRunning(ref u) if u == "http://0.0.0.0:8100"));
    assert!(w.check_alive(Some(ProcessProbe::Running)));
    assert!(w.is_running());
    assert!(!w.check_alive(None));
    assert!(w.is_running());
    assert!(!w.check_alive(Some(ProcessProbe::Failed("x".to_string()))));
    assert!(!w.is_running());
    let st = w.get_status(true);
    assert_eq!((st.running, st.port, st.installed), (false, 8100, true));
    assert_eq!(st.url, "http://0.0.0.0:8100");
    assert_eq!(
        w.launch_environment("/bin".to_string()),
        vec![
            ("PATH".to_string(), "/bin".to_string()),
            ("HOST".to_string(), "0.0.0.0".to_string()),
            ("PORT".to_string(), "8100".to_string()),
        ]
    );
    w.started();
    w.stop();
    assert!(!w.is_running());
}

// ─────────────────────────────── workspace API ───────────────────────────────

#[test]
fn endpoints() {
    assert_eq!(endpoint("https://api.x//", "/devices"), "https://api.x/devices");
    assert_eq!(sign_in_url("https://api.x"), "https://api.x/api/auth/sign-in/email-password");
    assert_eq!(workspace_url("https://api.x/"), "https://api.x/auth/workspace/default");
    assert_eq!(register_url("https://api.x"), "https://api.x/auth/device-agent/register");
    assert_eq!(device_token_url("https://api.x"), "https://api.x/auth/device-token");
    assert_eq!(devices_url("https://api.x"), "https://api.x/devices");
    assert_eq!(device_url("https://api.x/", "d-1"), "https://api.x/devices/d-1");
    assert_eq!(endpoint("https://api.x/", "/p"), endpoint("https://api.x", "/p"));
}

#[test]
fn api_failures_and_host_name() {
    assert_eq!(
        failure_with_body("Failed to register device", "409 Conflict", "exists"),
        "Failed to register device: 409 Conflict - exists"
    );
    assert_eq!(failure_with_status("Failed to list devices", "500"), "Failed to list devices: 500");
    assert_eq!(hostname_or_unknown(Some("box".to_string())), "box");
    assert_eq!(hostname_or_unknown(None), "unknown-host");
    assert!(!get_hostname().is_empty());
}

// ─────────────────────────────── device-agent install ───────────────────────────────

#[test]
fn device_agent_locations() {
    assert_eq!(
        device_agent_dir_in(OS::Linux, Some("/d".to_string()), Some("/h".to_string())),
        "/d/amos-companion/device-agent"
    );
    assert_eq!(
        device_agent_dir_in(OS::Linux, None, Some("/h".to_string())),
        "/h/amos-companion/device-agent"
    );
    assert_eq!(device_agent_dir_in(OS::Linux, None, None), "./amos-companion/device-agent");
    assert!(get_device_agent_dir(OS::Linux).ends_with("amos-companion/device-agent"));
    assert_eq!(get_working_dir(OS::Linux), get_device_agent_dir(OS::Linux));
    assert_eq!(installed_marker(OS::Linux, "/a"), "/a/amos_device_agent");
    assert_eq!(clone_args("/a"), strs(&["clone", DEVICE_AGENT_REPO, "/a"]));
    assert_eq!(DEVICE_AGENT_REPO, "https://github.com/ManotLuijiu/amos-device-agent.git");
}

#[test]
fn repository_steps() {
    assert_eq!(repository_step_result(false, &CommandOutcome::Succeeded), Ok(()));
    assert_eq!(repository_step_result(true, &CommandOutcome::Failed("conflict".to_string())), Ok(()));
    assert_eq!(
        repository_step_result(false, &CommandOutcome::Failed("auth".to_string())),
        Err("Failed to clone device-agent: auth".to_string())
    );
    assert_eq!(
        repository_step_result(true, &CommandOutcome::NotRun("no git".to_string())),
        Err("Failed to run git pull: no git".to_string())
    );
    assert_eq!(
        repository_step_result(false, &CommandOutcome::NotRun("no git".to_string())),
        Err("Failed to run git clone: no git".to_string())
    );
}

#[test]
fn dependency_install_steps() {
    assert_eq!(pip_program(true), "pip3");
    assert_eq!(pip_program(false), "pip");
    assert_eq!(install_dependencies(true, None), Ok(()));
    assert_eq!(install_dependencies(false, Some(true)), Ok(()));
    let msg = Err("Failed to install dependencies. Please install uv or pip.".to_string());
    assert_eq!(install_dependencies(false, Some(false)), msg);
    assert_eq!(install_dependencies(false, None), msg);
}

#[test]
fn scrcpy_version_is_trimmed() {
    assert_eq!(scrcpy_version(true, "scrcpy 2.4 <https://github.com>\n"), Some("scrcpy 2.4 <https://github.com>".to_string()));
    assert_eq!(scrcpy_version(true, "  \n"), Some(String::new()));
    assert_eq!(scrcpy_version(false, "scrcpy 2.4"), None);
}

#[test]
fn power_key() {
    assert_eq!(power("S"), strs(&["-s", "S", "shell", "input", "keyevent", "KEYCODE_POWER"]));
}

#[test]
fn device_agent_checkout_lookup() {
    assert_eq!(
        exe_agent_dirs(OS::Linux, "/r/src-tauri/target/debug"),
        strs(&[
            "/r/src-tauri/target/debug/../../../backend/services/device-agent",
            "/r/src-tauri/target/debug/../../backend/services/device-agent",
            "/r/src-tauri/target/debug/../backend/services/device-agent",
            "/r/src-tauri/target/debug/backend/services/device-agent",
        ])
    );
    let cwd = cwd_agent_dirs(OS::Linux, "/w");
    assert_eq!(cwd, strs(&["/w/backend/services/device-agent", "/w/../backend/services/device-agent"]));
    let resolved = strs(&["/r/backend/services/device-agent", "/x/backend/services/device-agent"]);
    assert_eq!(
        find_device_agent_dir(&resolved, &[false, true], &cwd, &[true, true]),
        Some("/x/backend/services/device-agent".to_string())
    );
    assert_eq!(
        find_device_agent_dir(&resolved, &[false, false], &cwd, &[false, true]),
        Some("/w/../backend/services/device-agent".to_string())
    );
    assert_eq!(find_device_agent_dir(&vec![], &[], &cwd, &[false, false]), None);
}

#[test]
fn device_agent_install_flow() {
    assert_eq!(git_args(true, "/d"), strs(&["pull", "origin", "main"]));
    assert_eq!(git_args(false, "/d"), strs(&["clone", DEVICE_AGENT_REPO, "/d"]));

    // Fresh install: create the parent, clone, uv fails, pip succeeds.
    let (stage, action) = install_or_update(false);
    assert_eq!(stage, InstallStage::CreatingParent);
    assert!(matches!(action, InstallAction::CreateParent));
    let (stage, action) = install_step(stage, InstallEvent::ParentCreated(Ok(())));
    assert_eq!(stage, InstallStage::Git { updating: false });
    assert!(matches!(action, InstallAction::RunGit { updating: false }));
    let (stage, action) = install_step(stage, InstallEvent::GitRan(CommandOutcome::Succeeded));
    assert_eq!(stage, InstallStage::Uv);
    assert!(matches!(action, InstallAction::RunUv));
    let (stage, action) = install_step(stage, InstallEvent::UvRan(false));
    assert_eq!(stage, InstallStage::Pip);
    assert!(matches!(action, InstallAction::RunPip));
    let (stage, action) = install_step(stage, InstallEvent::PipRan(true));
    assert_eq!(stage, InstallStage::Done);
    assert!(matches!(action, InstallAction::Finish(Ok(()))));

    // Update: a failed pull is not fatal.
    let (stage, action) = install_or_update(true);
    assert!(matches!(action, InstallAction::RunGit { updating: true }));
    let (stage, _) = install_step(stage, InstallEvent::GitRan(CommandOutcome::Failed("diverged".to_string())));
    assert_eq!(stage, InstallStage::Uv);

    // A failed clone ends the install with its error.
    let (_, action) = install_step(
        InstallStage::Git { updating: false },
        InstallEvent::GitRan(CommandOutcome::Failed("auth".to_string())),
    );
    assert!(matches!(action, InstallAction::Finish(Err(ref e)) if e == "Failed to clone device-agent: auth"));
    let (_, action) = install_step(
        InstallStage::CreatingParent,
        InstallEvent::ParentCreated(Err("read-only".to_string())),
    );
    assert!(matches!(action, InstallAction::Finish(Err(ref e)) if e == "Failed to create directory: read-only"));
    let (_, action) = install_step(InstallStage::Pip, InstallEvent::PipRan(false));
    assert!(matches!(action, InstallAction::Finish(Err(ref e)) if e == "Failed to install dependencies. Please install uv or pip."));
}
