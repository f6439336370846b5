use amos_companion::agent_manager::{
    log_file_error,
    after_registration, agent_command, agent_environment, get_connected_devices,
    next_launch_step, record_workspace, start_agent_precheck, AgentError, AgentLaunch,
    AgentState, AgentStatus, LaunchStep,
};
use amos_companion::config_store::ConfigStore;

fn store() -> ConfigStore {
    ConfigStore::with_defaults("/tmp/c.toml".to_string())
}

fn pairs(v: &[(&str, &str)]) -> Vec<(String, String)> {
    v.iter().map(|(a, b)| (a.to_string(), b.to_string())).collect()
}

#[test]
fn agent_error_messages() {
    assert_eq!(AgentError::AlreadyRunning.message(), "Agent is already running");
    assert_eq!(AgentError::SpawnFailed("no uv".to_string()).message(), "Failed to spawn agent: no uv");
    assert_eq!(AgentError::NotRunning.message(), "Agent is not running");
    assert_eq!(
        AgentError::StartupFailed("exit 1".to_string()).message(),
        "Agent exited immediately after startup: exit 1"
    );
}

#[test]
fn lifecycle() {
    let mut s = AgentState::new();
    assert!(!s.is_running());
    assert!(s.begin_start().is_ok());
    s.spawned(Some(4242));
    assert!(s.is_running());
    assert_eq!(s.pid, Some(4242));
    assert!(matches!(s.begin_start(), Err(AgentError::AlreadyRunning)));
    assert!(s.is_running());
    s.stopped();
    assert!(!s.is_running());
    assert_eq!(s.pid, None);
    assert!(!s.has_process);
}

#[test]
fn failed_spawn_is_remembered_until_next_start() {
    let mut s = AgentState::new();
    s.begin_start().unwrap();
    let e = s.spawn_failed("not found".to_string());
    assert!(matches!(e, AgentError::SpawnFailed(ref m) if m == "not found"));
    assert_eq!(s.error_message, Some("Failed to spawn agent: not found".to_string()));
    assert!(!s.is_running());
    assert!(s.begin_start().is_ok());
    assert_eq!(s.error_message, None);
}

#[test]
fn status() {
    let d = AgentStatus::default("linux".to_string(), "0.1.0".to_string());
    assert!(d.agent_online && !d.agent_running);
    assert!(d.connected_devices.is_empty());
    assert_eq!(d.adb_version, "");
    let mut s = AgentState::new();
    s.spawned(Some(7));
    let st = s.get_status(vec!["P (X)".to_string()], "macos".to_string(), "1.2".to_string());
    assert!(st.agent_running);
    assert_eq!(st.agent_pid, Some(7));
    assert_eq!(st.connected_devices, vec!["P (X)".to_string()]);
    assert_eq!(st.platform, "macos");
    assert_eq!(st.companion_version, "1.2");
    assert_eq!(st.error_message, None);
}

#[test]
fn connected_devices_are_labelled() {
    let out = "List of devices attached\nR58 device usb:1 model:SM_A50 device:a50\nEMU offline\n\nZY2 device\n";
    assert_eq!(get_connected_devices(out), vec!["SM_A50 (R58)".to_string(), "ZY2 (ZY2)".to_string()]);
    assert!(get_connected_devices("List of devices attached\n").is_empty());
    assert_eq!(get_connected_devices("h\nlonely\n"), vec!["lonely".to_string()]);
}

#[test]
fn precheck() {
    let mut s = store();
    s.set_api_url("   ".to_string());
    assert_eq!(
        start_agent_precheck(&s),
        Err("API URL not configured \u{2014} sign in first".to_string())
    );
    s.set_api_url("https://api".to_string());
    assert_eq!(start_agent_precheck(&s), Err("Please sign in first using sign_in()".to_string()));
    s.set_user_id(Some("u".to_string()));
    assert_eq!(start_agent_precheck(&s), Ok(("https://api".to_string(), "u".to_string())));
}

#[test]
fn workspace_is_recorded() {
    let mut s = store();
    assert_eq!(record_workspace(&mut s, Ok("w1".to_string())), Ok(()));
    assert_eq!(s.get_workspace_id(), Some("w1".to_string()));
    assert_eq!(
        record_workspace(&mut s, Err("500".to_string())),
        Err("Failed to create workspace: 500".to_string())
    );
    assert_eq!(s.get_workspace_id(), Some("w1".to_string()));
}

#[test]
fn launch_needs_credentials() {
    let mut s = store();
    s.set_workspace_id(Some("w".to_string()));
    match next_launch_step(&s, "https://api".to_string(), "u".to_string()) {
        LaunchStep::Register { workspace_id } => assert_eq!(workspace_id, "w"),
        LaunchStep::Start(_) => panic!("credentials are missing"),
    }
    s.set_device_agent_key(Some("k".to_string()));
    s.set_device_agent_secret(Some("s".to_string()));
    match next_launch_step(&s, "https://api".to_string(), "u".to_string()) {
        LaunchStep::Start(l) => {
            assert_eq!(l.api_url, "https://api");
            assert_eq!(l.agent_id, s.get_agent_id());
            assert_eq!(l.device_key, Some("k".to_string()));
            assert_eq!(l.device_secret, Some("s".to_string()));
            assert_eq!(l.workspace_id, Some("w".to_string()));
            assert_eq!(l.user_id, Some("u".to_string()));
        }
        LaunchStep::Register { .. } => panic!("credentials are there"),
    }
}

#[test]
fn registration_outcome() {
    let mut s = store();
    let l = after_registration(
        &mut s,
        "https://api".to_string(),
        "u".to_string(),
        "w".to_string(),
        Ok(("k".to_string(), "sec".to_string(), "agent-7".to_string())),
    )
    .unwrap();
    assert_eq!(l.agent_id, "agent-7");
    assert_eq!(l.device_key, Some("k".to_string()));
    assert_eq!(s.get_device_agent_key(), Some("k".to_string()));
    assert_eq!(s.get_device_agent_secret(), Some("sec".to_string()));
    let mut t = store();
    assert_eq!(
        after_registration(&mut t, "a".to_string(), "u".to_string(), "w".to_string(), Err("403".to_string()))
            .unwrap_err(),
        "Failed to register device-agent: 403"
    );
    assert_eq!(t.get_device_agent_key(), None);
}

#[test]
fn environment_and_command() {
    let full = AgentLaunch {
        api_url: "https://api".to_string(),
        agent_id: "a1".to_string(),
        device_key: Some("k".to_string()),
        device_secret: Some("s".to_string()),
        workspace_id: Some("w".to_string()),
        user_id: Some("u".to_string()),
    };
    assert_eq!(
        agent_environment(&full),
        pairs(&[
            ("AMOS_API_URL", "https://api"),
            ("AMOS_AGENT_ID", "a1"),
            ("AMOS_API_KEY", "k"),
            ("AMOS_API_SECRET", "s"),
            ("AMOS_WORKSPACE_ID", "w"),
            ("AMOS_USER_ID", "u"),
        ])
    );
    let bare = AgentLaunch { device_key: None, device_secret: None, workspace_id: None, user_id: None, ..full };
    assert_eq!(agent_environment(&bare), pairs(&[("AMOS_API_URL", "https://api"), ("AMOS_AGENT_ID", "a1")]));
    // Python runs the agent itself, so the spawned process is the agent.
    assert_eq!(
        agent_command(),
        ("python3".to_string(), vec!["-m".to_string(), "amos_device_agent".to_string()])
    );
}

#[test]
fn log_file_errors_leave_state_alone() {
    let s = AgentState::new();
    let e = log_file_error("stdout", "read-only fs");
    assert_eq!(e.message(), "Failed to spawn agent: Failed to create stdout log: read-only fs");
    assert_eq!(s.error_message, None);
}
