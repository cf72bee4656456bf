use cursor_manager::path_safety::{
    contains_dot_dot, contains_traversal, judge_path, judge_standing, locate_entry, resolve_entry,
    resolves_within, Standing,
};
use cursor_manager::{validate_path, CursorManagerError, PathViolation};

#[test]
fn dot_dot_and_tilde_are_found() {
    assert!(contains_dot_dot(".."));
    assert!(contains_dot_dot("a/../b"));
    assert!(contains_dot_dot("a..b"));
    assert!(!contains_dot_dot("a.b.c"));
    assert!(!contains_dot_dot(""));
    assert!(!contains_dot_dot("."));
    assert!(contains_traversal("~"));
    assert!(contains_traversal("/home/~user"));
    assert!(contains_traversal("../x"));
    assert!(!contains_traversal("/home/user/profiles"));
}

#[test]
fn paths_with_traversal_are_refused_relative_or_absolute() {
    assert_eq!(validate_path("../outside", "/safe"), Err(PathViolation::Traversal));
    assert_eq!(validate_path("/abs/../outside", "/safe"), Err(PathViolation::Traversal));
    assert_eq!(validate_path("~/profiles", "/safe"), Err(PathViolation::Traversal));
    assert_eq!(validate_path("/home/~/profiles", "/safe"), Err(PathViolation::Traversal));
}

#[test]
fn plain_paths_are_accepted() {
    assert_eq!(validate_path("profiles", "/safe"), Ok(()));
    assert_eq!(validate_path("a/./b//c", "/safe"), Ok(()));
    assert_eq!(validate_path("/home/user/profiles", "/safe"), Ok(()));
    assert_eq!(validate_path("", "/safe"), Ok(()));
}

#[test]
fn verdict_on_a_path_from_its_findings() {
    assert_eq!(judge_path(true, true, true), Err(PathViolation::Traversal));
    assert_eq!(judge_path(true, false, false), Err(PathViolation::Traversal));
    assert_eq!(judge_path(false, true, false), Err(PathViolation::Escape));
    assert_eq!(judge_path(false, true, true), Ok(()));
    assert_eq!(judge_path(false, false, false), Ok(()));
    assert_eq!(judge_path(false, false, true), Ok(()));
}

#[test]
fn standing_of_an_entry_from_its_findings() {
    assert_eq!(judge_standing(false, true, false), Standing::Inside);
    assert_eq!(judge_standing(false, true, true), Standing::Root);
    assert_eq!(judge_standing(true, true, false), Standing::Outside);
    assert_eq!(judge_standing(true, true, true), Standing::Outside);
    assert_eq!(judge_standing(false, false, false), Standing::Outside);
    assert_eq!(judge_standing(false, false, true), Standing::Outside);
}

#[test]
fn entries_are_located_under_their_root() {
    assert_eq!(
        locate_entry("/root/store", "alice"),
        (Standing::Inside, "/root/store/alice".to_string())
    );
    assert_eq!(locate_entry("/root/store", "."), (Standing::Root, "/root/store/.".to_string()));
    assert_eq!(locate_entry("/root/store", ""), (Standing::Root, "/root/store/".to_string()));
    assert_eq!(locate_entry("/root/store", "/etc"), (Standing::Outside, "/etc".to_string()));
    assert_eq!(
        locate_entry("/root/store", "a/../b"),
        (Standing::Outside, "/root/store/a/../b".to_string())
    );
    assert_eq!(locate_entry("/root/store", "~"), (Standing::Outside, "/root/store/~".to_string()));
}

#[test]
fn violations_have_codes() {
    assert_eq!(PathViolation::Traversal.code(), "path_traversal");
    assert_eq!(PathViolation::Escape.code(), "path_escape");
}

#[test]
fn entries_resolve_under_their_root() {
    assert_eq!(resolve_entry("/root/store", "alice"), Ok("/root/store/alice".to_string()));
    assert_eq!(resolve_entry("/root/store", "team/alice"), Ok("/root/store/team/alice".to_string()));
    assert_eq!(resolve_entry("./store", "alice"), Ok("./store/alice".to_string()));
    assert_eq!(resolve_entry("store//", "alice"), Ok("store//alice".to_string()));
}

#[test]
fn entries_outside_their_root_are_refused() {
    for name in ["/etc/passwd", "/root", "/root/storage", "..", "x/../../y", "~root"] {
        assert_eq!(
            resolve_entry("/root/store", name),
            Err(CursorManagerError::PathSecurityViolation { path: name.to_string() })
        );
    }
}

#[test]
fn the_root_itself_is_no_entry() {
    for name in [".", "", "./", "/root/store", "/root/store/."] {
        assert_eq!(
            resolve_entry("/root/store", name),
            Err(CursorManagerError::PathSecurityViolation { path: name.to_string() })
        );
    }
}

#[test]
fn resolving_goes_by_whole_components() {
    assert!(resolves_within("/root/store", "alice"));
    assert!(resolves_within("/root/store", "/root/store/alice"));
    assert!(!resolves_within("/root/store", "/root/storefront"));
    assert!(!resolves_within("/root/store", "/"));
    assert!(resolves_within("./store/", "./alice"));
}
