use cursor_manager::{Config, CursorManager, CursorManagerError};

#[test]
fn settings_of_a_home_directory() {
    let config = Config::with_home(Some("/home/u"));
    assert_eq!(config.cursor_app, "/Applications/Cursor.app/Contents/MacOS/Cursor");
    assert_eq!(config.profile_base, "/home/u/cursor-profiles");
    assert_eq!(config.archive_base, "/home/u/cursor-archives");
    assert_eq!(config.workspace_base, "/home/u/projects");
    assert_eq!(config.network_interface, "en0");
    assert_eq!(config.max_sessions, 50);
    assert_eq!(config.session_timeout_minutes, 1440);
    assert!(config.auto_cleanup_archives);
    assert!(config.enable_system_monitoring);
}

#[test]
fn settings_without_a_home_directory() {
    let config = Config::with_home(None);
    assert_eq!(config.profile_base, "./cursor-profiles");
    assert_eq!(config.archive_base, "./cursor-archives");
    assert_eq!(config.workspace_base, "./projects");
}

#[test]
fn default_settings_follow_the_home_directory() {
    let config = Config::default();
    assert!(config.profile_base.ends_with("cursor-profiles"));
    assert!(config.archive_base.ends_with("cursor-archives"));
    assert!(config.workspace_base.ends_with("projects"));
    let stem = &config.profile_base[..config.profile_base.len() - "cursor-profiles".len()];
    assert_eq!(config.archive_base, format!("{}cursor-archives", stem));
    assert_eq!(config.network_interface, "en0");
    let manager = CursorManager::new(None, "/work");
    assert_eq!(manager.config(), &config);
}

#[test]
fn copy_of_settings_is_equal() {
    let config = Config::with_home(Some("/home/u"));
    assert_eq!(config.clone(), config);
}

#[test]
fn settings_in_order_pass() {
    assert_eq!(Config::with_home(Some("/home/u")).validate("/work"), Ok(()));
    assert_eq!(Config::with_home(None).validate("/work"), Ok(()));
}

#[test]
fn first_field_out_of_order_is_reported() {
    let good = Config::with_home(Some("/home/u"));
    let mut config = good.clone();
    config.cursor_app = String::new();
    config.profile_base = "../x".to_string();
    assert_eq!(
        config.validate("/work"),
        Err(CursorManagerError::Validation {
            message: "Cursor app path cannot be empty".to_string()
        })
    );
    let mut config = good.clone();
    config.profile_base = "/home/u/../x".to_string();
    config.archive_base = "~/a".to_string();
    assert_eq!(
        config.validate("/work"),
        Err(CursorManagerError::PathSecurityViolation { path: "/home/u/../x".to_string() })
    );
    let mut config = good.clone();
    config.archive_base = "~/a".to_string();
    assert_eq!(
        config.validate("/work"),
        Err(CursorManagerError::PathSecurityViolation { path: "~/a".to_string() })
    );
    let mut config = good.clone();
    config.workspace_base = "a/../../b".to_string();
    config.network_interface = String::new();
    assert_eq!(
        config.validate("/work"),
        Err(CursorManagerError::PathSecurityViolation { path: "a/../../b".to_string() })
    );
    let mut config = good;
    config.network_interface = String::new();
    assert_eq!(
        config.validate("/work"),
        Err(CursorManagerError::Validation {
            message: "Network interface cannot be empty".to_string()
        })
    );
}
