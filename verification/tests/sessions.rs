use cursor_manager::{
    Config, CursorManager, CursorManagerError, ElectronApp, FsAction, SessionInfo, Timestamp,
};

fn store_config() -> Config {
    Config {
        cursor_app: "/opt/cursor/cursor".to_string(),
        profile_base: "/data/profiles".to_string(),
        archive_base: "/data/archives".to_string(),
        workspace_base: "/data/projects".to_string(),
        network_interface: "en0".to_string(),
        max_sessions: 50,
        session_timeout_minutes: 1440,
        auto_cleanup_archives: true,
        enable_system_monitoring: true,
    }
}

fn empty_manager() -> CursorManager {
    CursorManager::new(Some(store_config()), "/work")
}

fn manager_with_roots(profile_base: &str, archive_base: &str) -> CursorManager {
    let mut config = store_config();
    config.profile_base = profile_base.to_string();
    config.archive_base = archive_base.to_string();
    CursorManager::new(Some(config), "/work")
}

fn noon() -> Timestamp {
    Timestamp::parse("20240131-120000").unwrap()
}

fn names_of(list: &[SessionInfo]) -> Vec<String> {
    list.iter().map(|s| s.name.clone()).collect()
}

#[test]
fn new_manager_knows_nothing_and_asks_for_both_roots() {
    let manager = empty_manager();
    assert_eq!(manager.session_count(), 0);
    assert!(manager.list_sessions_at(&noon()).is_empty());
    assert!(manager.list_archives().is_empty());
    assert_eq!(
        manager.startup_actions(),
        Ok(vec![
            FsAction::CreateDir { path: "/data/profiles".to_string() },
            FsAction::CreateDir { path: "/data/archives".to_string() },
        ])
    );
    assert_eq!(manager.check_roots(), Ok(()));
    assert_eq!(manager.config().profile_base, "/data/profiles");
    assert_eq!(manager.safe_root(), "/work");
}

#[test]
fn create_then_list_holds_the_session_once() {
    let mut manager = empty_manager();
    manager.create_session_at("bob", None, &noon()).unwrap();
    let out = manager.create_session_at("alice", None, &noon()).unwrap();
    assert_eq!(out.message, "Session 'alice' created at /data/profiles/alice");
    let list = manager.list_sessions_at(&noon());
    let count = list.iter().filter(|s| s.name == "alice").count();
    assert_eq!(count, 1);
    assert_eq!(manager.session_count(), 2);
    assert!(manager.has_session("alice"));
}

#[test]
fn create_says_what_to_write() {
    let mut manager = empty_manager();
    let app = ElectronApp {
        name: "Editor".to_string(),
        exec_path: "/opt/editor/editor".to_string(),
        icon_path: Some("/opt/editor/icon.icns".to_string()),
    };
    let out = manager.create_session_at("alice", Some(app.clone()), &noon()).unwrap();
    let info = SessionInfo {
        name: "alice".to_string(),
        path: "/data/profiles/alice".to_string(),
        created: "2024-01-31".to_string(),
        electron_app: Some(app),
    };
    assert_eq!(
        out.actions,
        vec![
            FsAction::CreateDir { path: "/data/profiles/alice".to_string() },
            FsAction::WriteDescriptor {
                path: "/data/profiles/alice/session.json".to_string(),
                info: info.clone(),
            },
        ]
    );
    assert_eq!(manager.list_sessions_at(&noon()), vec![info]);
}

#[test]
fn second_create_fails_already_exists() {
    let mut manager = empty_manager();
    manager.create_session_at("alice", None, &noon()).unwrap();
    let again = manager.create_session_at("alice", None, &noon());
    assert_eq!(again, Err(CursorManagerError::AlreadyExists { name: "alice".to_string() }));
    assert_eq!(manager.session_count(), 1);
}

#[test]
fn create_with_empty_name_fails_invalid_name() {
    let mut manager = empty_manager();
    let r = manager.create_session_at("", None, &noon());
    assert_eq!(
        r,
        Err(CursorManagerError::InvalidSessionName {
            message: "Session name cannot be empty".to_string()
        })
    );
    assert_eq!(manager.session_count(), 0);
}

#[test]
fn create_with_the_clock_of_the_machine() {
    let mut manager = empty_manager();
    let out = manager.create_session("alice", None).unwrap();
    assert_eq!(out.message, "Session 'alice' created at /data/profiles/alice");
    let list = manager.list_sessions().unwrap();
    assert_eq!(list.len(), 1);
    let created = &list[0].created;
    assert_eq!(created.len(), 10);
    assert_eq!(&created[4..5], "-");
    assert_eq!(&created[7..8], "-");
}

#[test]
fn delete_removes_the_session_from_the_list() {
    let mut manager = empty_manager();
    manager.create_session_at("alice", None, &noon()).unwrap();
    manager.create_session_at("bob", None, &noon()).unwrap();
    let out = manager.delete_session("alice").unwrap();
    assert_eq!(out.message, "Session 'alice' deleted");
    assert_eq!(
        out.actions,
        vec![FsAction::RemoveTree { path: "/data/profiles/alice".to_string() }]
    );
    assert_eq!(names_of(&manager.list_sessions_at(&noon())), vec!["bob".to_string()]);
    assert!(!manager.has_session("alice"));
}

#[test]
fn delete_of_an_absent_session_fails_not_found() {
    let mut manager = empty_manager();
    manager.create_session_at("bob", None, &noon()).unwrap();
    let r = manager.delete_session("alice");
    assert_eq!(r, Err(CursorManagerError::SessionNotFound { name: "alice".to_string() }));
    assert_eq!(manager.session_count(), 1);
}

#[test]
fn delete_of_an_absent_archive_fails_not_found() {
    let mut manager = empty_manager();
    let r = manager.delete_archive("alice-20240131-120000");
    assert_eq!(
        r,
        Err(CursorManagerError::ArchiveNotFound { name: "alice-20240131-120000".to_string() })
    );
}

#[test]
fn archive_is_named_after_session_and_time() {
    let mut manager = empty_manager();
    manager.create_session_at("alice", None, &noon()).unwrap();
    let out = manager.archive_session_at("alice", &noon()).unwrap();
    assert_eq!(out.message, "Session 'alice' archived to 'alice-20240131-120000'");
    assert_eq!(
        out.actions,
        vec![
            FsAction::CreateDir { path: "/data/archives/alice-20240131-120000".to_string() },
            FsAction::CopyContents {
                from: "/data/profiles/alice".to_string(),
                to: "/data/archives/alice-20240131-120000".to_string(),
            },
        ]
    );
    let archives = manager.list_archives();
    assert_eq!(archives.len(), 1);
    assert_eq!(archives[0].name, "alice-20240131-120000");
    assert_eq!(archives[0].path, "/data/archives/alice-20240131-120000");
    assert_eq!(archives[0].created, "2024-01-31");
    assert_eq!(archives[0].original_session, "alice");
    assert!(manager.has_session("alice"));
    assert!(manager.has_archive("alice-20240131-120000"));
}

#[test]
fn archive_of_an_absent_session_fails_not_found() {
    let mut manager = empty_manager();
    let r = manager.archive_session_at("alice", &noon());
    assert_eq!(r, Err(CursorManagerError::SessionNotFound { name: "alice".to_string() }));
    assert!(manager.list_archives().is_empty());
}

#[test]
fn archive_twice_in_one_second_fails_already_exists() {
    let mut manager = empty_manager();
    manager.create_session_at("alice", None, &noon()).unwrap();
    manager.archive_session_at("alice", &noon()).unwrap();
    let again = manager.archive_session_at("alice", &noon());
    assert_eq!(
        again,
        Err(CursorManagerError::AlreadyExists { name: "alice-20240131-120000".to_string() })
    );
    let later = Timestamp::parse("20240131-120001").unwrap();
    assert!(manager.archive_session_at("alice", &later).is_ok());
    assert_eq!(manager.list_archives().len(), 2);
}

#[test]
fn archive_with_the_clock_of_the_machine() {
    let mut manager = empty_manager();
    manager.create_session_at("alice", None, &noon()).unwrap();
    manager.archive_session("alice").unwrap();
    let archives = manager.list_archives();
    assert_eq!(archives.len(), 1);
    assert_eq!(archives[0].original_session, "alice");
    assert_eq!(archives[0].name.len(), "alice".len() + 16);
}

#[test]
fn restore_without_new_name_gives_back_the_session() {
    let mut manager = empty_manager();
    let app = ElectronApp {
        name: "Editor".to_string(),
        exec_path: "/opt/editor/editor".to_string(),
        icon_path: None,
    };
    manager.create_session_at("alice", Some(app), &noon()).unwrap();
    let before = manager.list_sessions_at(&noon());
    manager.archive_session_at("alice", &noon()).unwrap();
    manager.delete_session("alice").unwrap();
    let later = Timestamp::parse("20250101-000000").unwrap();
    let out = manager.restore_archive("alice-20240131-120000", None).unwrap();
    assert_eq!(out.message, "Archive 'alice-20240131-120000' restored to session 'alice'");
    assert_eq!(
        out.actions,
        vec![
            FsAction::CreateDir { path: "/data/profiles/alice".to_string() },
            FsAction::CopyContents {
                from: "/data/archives/alice-20240131-120000".to_string(),
                to: "/data/profiles/alice".to_string(),
            },
        ]
    );
    assert_eq!(manager.list_sessions_at(&later), before);
    assert!(manager.has_archive("alice-20240131-120000"));
}

#[test]
fn restore_keeps_hyphens_of_the_session_name() {
    let mut manager = empty_manager();
    manager.create_session_at("team-alice", None, &noon()).unwrap();
    manager.archive_session_at("team-alice", &noon()).unwrap();
    manager.delete_session("team-alice").unwrap();
    manager.restore_archive("team-alice-20240131-120000", None).unwrap();
    assert_eq!(names_of(&manager.list_sessions_at(&noon())), vec!["team-alice".to_string()]);
}

#[test]
fn restore_with_new_name_checks_the_new_name_only() {
    let mut manager = empty_manager();
    manager.create_session_at("alice", None, &noon()).unwrap();
    manager.archive_session_at("alice", &noon()).unwrap();
    let out = manager.restore_archive("alice-20240131-120000", Some("carol")).unwrap();
    assert_eq!(out.message, "Archive 'alice-20240131-120000' restored to session 'carol'");
    assert_eq!(
        names_of(&manager.list_sessions_at(&noon())),
        vec!["alice".to_string(), "carol".to_string()]
    );
    let again = manager.restore_archive("alice-20240131-120000", Some("carol"));
    assert_eq!(again, Err(CursorManagerError::AlreadyExists { name: "carol".to_string() }));
    manager.delete_session("alice").unwrap();
    let third = manager.restore_archive("alice-20240131-120000", Some("carol"));
    assert_eq!(third, Err(CursorManagerError::AlreadyExists { name: "carol".to_string() }));
}

#[test]
fn restore_of_an_absent_archive_fails_not_found() {
    let mut manager = empty_manager();
    let r = manager.restore_archive("alice-20240131-120000", None);
    assert_eq!(
        r,
        Err(CursorManagerError::ArchiveNotFound { name: "alice-20240131-120000".to_string() })
    );
}

#[test]
fn restore_of_an_archive_without_timestamp_needs_a_name() {
    let mut manager = empty_manager();
    manager.record_archive("snapshot", None).unwrap();
    let r = manager.restore_archive("snapshot", None);
    assert_eq!(
        r,
        Err(CursorManagerError::InvalidSessionName {
            message: "Cannot determine original session name from archive 'snapshot'".to_string()
        })
    );
    assert!(manager.restore_archive("snapshot", Some("alice")).is_ok());
    let empty = manager.restore_archive("snapshot", Some(""));
    assert_eq!(
        empty,
        Err(CursorManagerError::InvalidSessionName {
            message: "Session name cannot be empty".to_string()
        })
    );
}

#[test]
fn end_to_end_create_archive_restore() {
    let mut manager = empty_manager();
    manager.create_session_at("alice", None, &noon()).unwrap();
    manager.archive_session_at("alice", &noon()).unwrap();
    assert_eq!(manager.list_archives()[0].name, "alice-20240131-120000");
    let blocked = manager.restore_archive("alice-20240131-120000", None);
    assert_eq!(blocked, Err(CursorManagerError::AlreadyExists { name: "alice".to_string() }));
    manager.delete_session("alice").unwrap();
    assert!(manager.list_sessions_at(&noon()).is_empty());
    manager.restore_archive("alice-20240131-120000", None).unwrap();
    let list = manager.list_sessions_at(&noon());
    assert_eq!(list.len(), 1);
    assert_eq!(list[0].name, "alice");
    assert_eq!(list[0].path, "/data/profiles/alice");
    assert_eq!(list[0].created, "2024-01-31");
    manager.delete_archive("alice-20240131-120000").unwrap();
    assert!(manager.list_archives().is_empty());
}

#[test]
fn unsafe_names_are_refused_by_every_operation() {
    let mut manager = empty_manager();
    manager.create_session_at("alice", None, &noon()).unwrap();
    manager.archive_session_at("alice", &noon()).unwrap();
    for name in ["../escape", "a/../../b", "~", "~/secret", "/etc", "/data/profiles/../x", ".."] {
        let refused = || Some(CursorManagerError::PathSecurityViolation { path: name.to_string() });
        assert_eq!(manager.create_session_at(name, None, &noon()).err(), refused());
        assert_eq!(manager.create_session(name, None).err(), refused());
        assert_eq!(manager.delete_session(name).err(), refused());
        assert_eq!(manager.archive_session_at(name, &noon()).err(), refused());
        assert_eq!(manager.archive_session(name).err(), refused());
        assert_eq!(manager.delete_archive(name).err(), refused());
        assert_eq!(manager.restore_archive(name, None).err(), refused());
        assert_eq!(manager.restore_archive("alice-20240131-120000", Some(name)).err(), refused());
        assert_eq!(manager.launch_session(name, false, false).err(), refused());
    }
    assert_eq!(manager.session_count(), 1);
    assert_eq!(manager.list_archives().len(), 1);
}

#[test]
fn empty_name_and_root_itself_name_nothing() {
    let mut manager = empty_manager();
    manager.create_session_at("alice", None, &noon()).unwrap();
    manager.archive_session_at("alice", &noon()).unwrap();
    for name in ["", ".", "./", "/data/profiles", "/data/profiles/."] {
        let no_session = || Some(CursorManagerError::SessionNotFound { name: name.to_string() });
        assert_eq!(manager.delete_session(name).err(), no_session());
        assert_eq!(manager.archive_session_at(name, &noon()).err(), no_session());
        assert_eq!(manager.archive_session(name).err(), no_session());
        assert_eq!(manager.launch_session(name, true, true).err(), no_session());
    }
    for name in ["", ".", "./", "/data/archives", "/data/archives/."] {
        let no_archive = || Some(CursorManagerError::ArchiveNotFound { name: name.to_string() });
        assert_eq!(manager.delete_archive(name).err(), no_archive());
        assert_eq!(manager.restore_archive(name, None).err(), no_archive());
        assert_eq!(manager.restore_archive(name, Some("bob")).err(), no_archive());
    }
    assert_eq!(
        manager.create_session_at(".", None, &noon()),
        Err(CursorManagerError::PathSecurityViolation { path: ".".to_string() })
    );
    assert_eq!(
        manager.restore_archive("alice-20240131-120000", Some(".")),
        Err(CursorManagerError::PathSecurityViolation { path: ".".to_string() })
    );
    let names: Vec<String> =
        manager.list_sessions_at(&noon()).into_iter().map(|s| s.name).collect();
    assert_eq!(names, vec!["alice".to_string()]);
    assert_eq!(manager.list_archives().len(), 1);
}

#[test]
fn recorded_root_is_still_no_session() {
    let mut manager = empty_manager();
    manager.record_session(".", None).unwrap();
    assert_eq!(
        manager.delete_session("."),
        Err(CursorManagerError::SessionNotFound { name: ".".to_string() })
    );
    assert_eq!(manager.session_count(), 1);
}

fn is_violation<T>(result: Result<T, CursorManagerError>) -> bool {
    matches!(result, Err(CursorManagerError::PathSecurityViolation { .. }))
}

#[test]
fn unsafe_roots_are_refused_before_anything_is_done() {
    for root in ["/srv/../etc", "~/profiles", "../profiles", "profiles/..", "/data/~"] {
        let refused = || Some(CursorManagerError::PathSecurityViolation { path: root.to_string() });
        let mut manager = manager_with_roots(root, "/data/archives");
        manager.record_session("alice", None).unwrap();
        manager.record_archive("alice-20240131-120000", None).unwrap();
        assert_eq!(manager.startup_actions().err(), refused());
        assert_eq!(manager.check_roots().err(), refused());
        assert!(is_violation(manager.create_session_at("bob", None, &noon())));
        assert!(is_violation(manager.create_session("bob", None)));
        assert!(is_violation(manager.archive_session_at("alice", &noon())));
        assert!(is_violation(manager.archive_session("alice")));
        assert!(is_violation(manager.restore_archive("alice-20240131-120000", Some("bob"))));
        assert!(is_violation(manager.delete_session("alice")));
        assert!(is_violation(manager.launch_session("alice", false, false)));
        assert_eq!(manager.session_count(), 1);
        assert_eq!(manager.list_archives().len(), 1);

        let mut manager = manager_with_roots("/data/profiles", root);
        manager.record_session("alice", None).unwrap();
        manager.record_archive("alice-20240131-120000", None).unwrap();
        assert_eq!(manager.startup_actions().err(), refused());
        assert!(is_violation(manager.archive_session_at("alice", &noon())));
        assert!(is_violation(manager.restore_archive("alice-20240131-120000", Some("bob"))));
        assert!(is_violation(manager.delete_archive("alice-20240131-120000")));
        assert!(manager.delete_session("alice").is_ok());
        assert_eq!(manager.list_archives().len(), 1);
    }
}

#[test]
fn operation_under_an_unsafe_root_names_the_root() {
    let refused = || Some(CursorManagerError::PathSecurityViolation { path: "/srv/../etc".to_string() });
    let mut manager = manager_with_roots("/srv/../etc", "/data/archives");
    manager.record_session("alice", None).unwrap();
    manager.record_archive("alice-20240131-120000", None).unwrap();
    assert_eq!(manager.create_session_at("bob", None, &noon()).err(), refused());
    assert_eq!(manager.create_session("bob", None).err(), refused());
    assert_eq!(manager.archive_session_at("alice", &noon()).err(), refused());
    assert_eq!(manager.archive_session("alice").err(), refused());
    assert_eq!(manager.restore_archive("alice-20240131-120000", Some("bob")).err(), refused());
    assert_eq!(manager.delete_session("alice").err(), refused());
    assert_eq!(manager.launch_session("alice", false, false).err(), refused());
    let mut manager = manager_with_roots("/data/profiles", "/srv/../etc");
    manager.record_archive("alice-20240131-120000", None).unwrap();
    assert_eq!(manager.delete_archive("alice-20240131-120000").err(), refused());
}

#[test]
fn relative_roots_inside_the_safe_root_are_accepted() {
    let mut manager = manager_with_roots("profiles", "./archives");
    assert_eq!(
        manager.startup_actions(),
        Ok(vec![
            FsAction::CreateDir { path: "profiles".to_string() },
            FsAction::CreateDir { path: "./archives".to_string() },
        ])
    );
    let out = manager.create_session_at("alice", None, &noon()).unwrap();
    assert_eq!(out.actions[0], FsAction::CreateDir { path: "profiles/alice".to_string() });
}

#[test]
fn refusals_come_before_the_root_is_judged() {
    let mut manager = manager_with_roots("/srv/../etc", "/data/archives");
    manager.record_session("alice", None).unwrap();
    assert_eq!(
        manager.create_session_at("", None, &noon()),
        Err(CursorManagerError::InvalidSessionName {
            message: "Session name cannot be empty".to_string()
        })
    );
    assert_eq!(
        manager.create_session_at("alice", None, &noon()),
        Err(CursorManagerError::AlreadyExists { name: "alice".to_string() })
    );
    assert_eq!(
        manager.delete_session("bob"),
        Err(CursorManagerError::SessionNotFound { name: "bob".to_string() })
    );
}

#[test]
fn listing_needs_no_clock_where_every_session_has_a_descriptor() {
    let mut manager = empty_manager();
    assert!(!manager.needs_day());
    assert_eq!(manager.list_sessions(), Ok(Vec::new()));
    manager.create_session_at("alice", None, &noon()).unwrap();
    assert!(!manager.needs_day());
    let listed = manager.list_sessions().unwrap();
    assert_eq!(listed, manager.list_sessions_at(&noon()));
    assert_eq!(listed[0].created, "2024-01-31");
    manager.record_session("bare", None).unwrap();
    assert!(manager.needs_day());
    let listed = manager.list_sessions().unwrap();
    assert_eq!(listed[0].created, "2024-01-31");
    assert_eq!(listed[1].name, "bare");
    assert_eq!(listed[1].created.len(), 10);
}

#[test]
fn absolute_name_inside_the_root_is_accepted() {
    let mut manager = empty_manager();
    let out = manager.create_session_at("/data/profiles/alice", None, &noon()).unwrap();
    assert_eq!(
        out.actions[0],
        FsAction::CreateDir { path: "/data/profiles/alice".to_string() }
    );
}

#[test]
fn recorded_directories_are_listed() {
    let mut manager = empty_manager();
    let descriptor = SessionInfo {
        name: "alice".to_string(),
        path: "/data/profiles/alice".to_string(),
        created: "2023-05-06".to_string(),
        electron_app: None,
    };
    manager.record_session("alice", Some(descriptor.clone())).unwrap();
    manager.record_session("bare", None).unwrap();
    manager.record_archive("alice-20230506-010203", None).unwrap();
    manager.record_archive("loose", None).unwrap();
    let sessions = manager.list_sessions_at(&noon());
    assert_eq!(sessions.len(), 2);
    assert_eq!(sessions[0], descriptor);
    assert_eq!(
        sessions[1],
        SessionInfo {
            name: "bare".to_string(),
            path: "/data/profiles/bare".to_string(),
            created: "2024-01-31".to_string(),
            electron_app: None,
        }
    );
    let archives = manager.list_archives();
    assert_eq!(archives[0].original_session, "alice");
    assert_eq!(archives[0].created, "2023-05-06");
    assert_eq!(archives[1].name, "loose");
    assert_eq!(archives[1].path, "/data/archives/loose");
    assert_eq!(archives[1].original_session, "Unknown");
    assert_eq!(archives[1].created, "Unknown");
}

#[test]
fn listing_takes_name_and_path_from_the_directory() {
    let mut manager = empty_manager();
    let descriptor = SessionInfo {
        name: "alice".to_string(),
        path: "/elsewhere/alice".to_string(),
        created: "2023-05-06".to_string(),
        electron_app: None,
    };
    manager.record_session("carol", Some(descriptor)).unwrap();
    let sessions = manager.list_sessions_at(&noon());
    assert_eq!(sessions[0].name, "carol");
    assert_eq!(sessions[0].path, "/data/profiles/carol");
    assert_eq!(sessions[0].created, "2023-05-06");
}

#[test]
fn recording_refuses_empty_and_known_names() {
    let mut manager = empty_manager();
    manager.record_session("alice", None).unwrap();
    assert_eq!(
        manager.record_session("alice", None),
        Err(CursorManagerError::AlreadyExists { name: "alice".to_string() })
    );
    assert_eq!(
        manager.record_session("", None),
        Err(CursorManagerError::InvalidSessionName {
            message: "Session name cannot be empty".to_string()
        })
    );
    assert_eq!(
        manager.record_archive("", None),
        Err(CursorManagerError::InvalidSessionName {
            message: "Session name cannot be empty".to_string()
        })
    );
    assert_eq!(manager.session_count(), 1);
}
