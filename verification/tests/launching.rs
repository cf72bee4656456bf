use cursor_manager::{
    Command, Config, CursorManager, CursorManagerError, ElectronApp, LaunchPlan, Timestamp,
};

fn launch_config() -> Config {
    Config {
        cursor_app: "/opt/cursor/cursor".to_string(),
        profile_base: "/data/profiles".to_string(),
        archive_base: "/data/archives".to_string(),
        workspace_base: "/data/projects".to_string(),
        network_interface: "en0".to_string(),
        max_sessions: 50,
        session_timeout_minutes: 1440,
        auto_cleanup_archives: true,
        enable_system_monitoring: true,
    }
}

fn plan_for(spoof: bool, vpn: bool) -> LaunchPlan {
    let mut manager = CursorManager::new(Some(launch_config()), "/work");
    let now = Timestamp::parse("20240131-120000").unwrap();
    manager.create_session_at("alice", None, &now).unwrap();
    manager.launch_session("alice", spoof, vpn).unwrap()
}

#[test]
fn launch_of_an_absent_session_fails_not_found() {
    let manager = CursorManager::new(Some(launch_config()), "/work");
    let r = manager.launch_session("alice", false, false);
    assert_eq!(r, Err(CursorManagerError::SessionNotFound { name: "alice".to_string() }));
}

#[test]
fn launch_runs_the_default_application_in_the_session_directory() {
    let plan = plan_for(true, false);
    assert_eq!(plan.session, "alice");
    assert!(plan.spoof_first);
    assert!(!plan.vpn_prompt);
    assert_eq!(
        plan.command,
        Command {
            program: "/opt/cursor/cursor".to_string(),
            args: vec![
                "--user-data-dir=/data/profiles/alice".to_string(),
                "--new-window".to_string()
            ],
        }
    );
}

#[test]
fn launch_runs_the_application_of_the_session() {
    let mut manager = CursorManager::new(Some(launch_config()), "/work");
    let now = Timestamp::parse("20240131-120000").unwrap();
    let app = ElectronApp {
        name: "Editor".to_string(),
        exec_path: "/opt/editor/editor".to_string(),
        icon_path: None,
    };
    manager.create_session_at("alice", Some(app), &now).unwrap();
    manager.record_session("bare", None).unwrap();
    let plan = manager.launch_session("alice", false, true).unwrap();
    assert_eq!(plan.command.program, "/opt/editor/editor");
    assert!(plan.vpn_prompt);
    let bare = manager.launch_session("bare", false, false).unwrap();
    assert_eq!(bare.command.program, "/opt/cursor/cursor");
}

#[test]
fn report_of_a_plain_launch() {
    let plan = plan_for(false, false);
    let report = plan.report(None, Ok(4711));
    assert_eq!(report, Ok("Launched Electron app with session 'alice'\nPID: 4711".to_string()));
}

#[test]
fn report_writes_the_process_identifier_in_decimal() {
    let plan = plan_for(false, false);
    for pid in [0u32, 7, 10, 99, 100, 65535, 4294967295] {
        let report = plan.report(None, Ok(pid)).unwrap();
        assert_eq!(report, format!("Launched Electron app with session 'alice'\nPID: {}", pid));
    }
}

#[test]
fn report_with_spoofing_and_vpn() {
    let plan = plan_for(true, true);
    let spoof = Ok("MAC address for en0 changed to 02:41:42:43:44:45".to_string());
    let report = plan.report(Some(spoof), Ok(12));
    assert_eq!(
        report,
        Ok("MAC address for en0 changed to 02:41:42:43:44:45\n\
            Connect to your VPN now for a new IP before continuing.\n\
            Launched Electron app with session 'alice'\n\
            PID: 12"
            .to_string())
    );
}

#[test]
fn failed_spoofing_is_a_warning_and_the_launch_succeeds() {
    let plan = plan_for(true, false);
    let failure = CursorManagerError::CommandFailed {
        command: "MAC address change command timed out".to_string(),
    };
    let report = plan.report(Some(Err(failure)), Ok(4711)).unwrap();
    assert_eq!(
        report,
        "Warning: MAC spoofing failed: System command failed: MAC address change command timed out\n\
         Launched Electron app with session 'alice'\n\
         PID: 4711"
    );
    assert!(report.contains("4711"));
}

#[test]
fn spoofing_that_was_not_asked_for_is_not_reported() {
    let plan = plan_for(false, false);
    let spoof = Ok("MAC address for en0 changed to 02:41:42:43:44:45".to_string());
    let report = plan.report(Some(spoof), Ok(1));
    assert_eq!(report, Ok("Launched Electron app with session 'alice'\nPID: 1".to_string()));
}

#[test]
fn failed_start_is_a_failed_command() {
    let plan = plan_for(true, true);
    let spoof = Ok("MAC address for en0 changed to 02:41:42:43:44:45".to_string());
    let report = plan.report(Some(spoof), Err("No such file or directory".to_string()));
    assert_eq!(
        report,
        Err(CursorManagerError::CommandFailed {
            command: "Failed to launch Electron app: No such file or directory".to_string()
        })
    );
}
