use cursor_manager::process::StepOutcome;
use cursor_manager::text::{append_one_line, contains_char, decimal_text, hex_pair_text, same_text};
use cursor_manager::{CursorManagerError, ErrorKind};

fn text(s: &str) -> String {
    s.to_string()
}

#[test]
fn every_error_has_kind_subject_and_message() {
    let cases = vec![
        (CursorManagerError::Io { message: text("disk full") }, ErrorKind::Io, "IO error: disk full"),
        (
            CursorManagerError::Serialization { message: text("bad json") },
            ErrorKind::Serialization,
            "Serialization error: bad json",
        ),
        (
            CursorManagerError::InvalidSessionName { message: text("empty") },
            ErrorKind::InvalidSessionName,
            "Invalid session name: empty",
        ),
        (
            CursorManagerError::SessionNotFound { name: text("alice") },
            ErrorKind::SessionNotFound,
            "Session not found: alice",
        ),
        (
            CursorManagerError::ArchiveNotFound { name: text("alice-1") },
            ErrorKind::ArchiveNotFound,
            "Archive not found: alice-1",
        ),
        (
            CursorManagerError::AlreadyExists { name: text("alice") },
            ErrorKind::AlreadyExists,
            "Already exists: alice",
        ),
        (
            CursorManagerError::PathSecurityViolation { path: text("../x") },
            ErrorKind::PathSecurityViolation,
            "Path security violation: ../x",
        ),
        (
            CursorManagerError::PermissionDenied { operation: text("sudo") },
            ErrorKind::PermissionDenied,
            "Permission denied: sudo",
        ),
        (
            CursorManagerError::CommandFailed { command: text("ifconfig") },
            ErrorKind::CommandFailed,
            "System command failed: ifconfig",
        ),
        (
            CursorManagerError::NetworkInterfaceError { interface: text("en9") },
            ErrorKind::NetworkInterfaceError,
            "Network interface error: en9",
        ),
        (
            CursorManagerError::Validation { message: text("empty field") },
            ErrorKind::Validation,
            "Validation error: empty field",
        ),
        (
            CursorManagerError::SystemMonitoring { message: text("no clock") },
            ErrorKind::SystemMonitoring,
            "System monitoring error: no clock",
        ),
    ];
    for (error, kind, message) in cases {
        assert_eq!(error.kind(), kind);
        assert_eq!(error.message(), message);
        assert!(message.ends_with(error.detail()));
        assert!(!error.message().contains('\n'));
    }
}

#[test]
fn outcomes_describe_their_failure() {
    let mut line = text("step");
    StepOutcome::Succeeded.append_failure(&mut line);
    assert_eq!(line, "step");
    assert!(StepOutcome::Succeeded.succeeded());
    StepOutcome::Failed { stderr: text("boom") }.append_failure(&mut line);
    assert_eq!(line, "step failed: boom");
    let mut line = text("step");
    StepOutcome::TransportError { message: text("absent") }.append_failure(&mut line);
    assert_eq!(line, "step could not be run: absent");
    let mut line = text("step");
    StepOutcome::TimedOut.append_failure(&mut line);
    assert_eq!(line, "step timed out");
    assert!(!StepOutcome::TimedOut.succeeded());
}

#[test]
fn numbers_are_written_in_decimal_and_hex() {
    assert_eq!(decimal_text(0), "0");
    assert_eq!(decimal_text(9), "9");
    assert_eq!(decimal_text(10), "10");
    assert_eq!(decimal_text(1203), "1203");
    assert_eq!(decimal_text(u32::MAX), "4294967295");
    assert_eq!(hex_pair_text(0), "00");
    assert_eq!(hex_pair_text(0x0f), "0f");
    assert_eq!(hex_pair_text(0xa0), "a0");
    assert_eq!(hex_pair_text(0xff), "ff");
}

#[test]
fn texts_are_compared_by_their_characters() {
    assert!(same_text("", ""));
    assert!(same_text("été", "été"));
    assert!(!same_text("abc", "abd"));
    assert!(!same_text("abc", "ab"));
    assert!(contains_char("a~b", '~'));
    assert!(!contains_char("ab", '~'));
    assert!(!contains_char("", '~'));
}

#[test]
fn message_of_an_error_is_a_single_line() {
    let error = CursorManagerError::CommandFailed { command: text("first\nsecond\r\nthird\n") };
    assert_eq!(error.message(), "System command failed: first second  third ");
    assert_eq!(error.detail(), "first\nsecond\r\nthird\n");
    let mut line = text("step");
    StepOutcome::Failed { stderr: text("a\nb") }.append_failure(&mut line);
    assert_eq!(line, "step failed: a b");
    let mut line = text("step");
    StepOutcome::TransportError { message: text("\n") }.append_failure(&mut line);
    assert_eq!(line, "step could not be run:  ");
}

#[test]
fn line_breaks_become_spaces() {
    for (given, expected) in [
        ("", "> "),
        ("plain", "> plain"),
        ("\n", ">  "),
        ("a\nb", "> a b"),
        ("\ra\n\nb\r", ">  a  b "),
        ("tab\tstays", "> tab\tstays"),
        ("é\nü", "> é ü"),
    ] {
        let mut line = text("> ");
        append_one_line(&mut line, given);
        assert_eq!(line, expected);
    }
}
