//! The failures that the manager reports, each with the subject it concerns.

use vstd::prelude::*;
use vstd::string::*;
use crate::text::{append_one_line, is_line_break, lemma_one_line_has_no_break, one_line};

verus! {

/// The class of a failure, without its subject.
#[derive(Clone, Copy, Debug, PartialEq, Eq, Structural)]
pub enum ErrorKind {
    Io,
    Serialization,
    InvalidSessionName,
    SessionNotFound,
    ArchiveNotFound,
    AlreadyExists,
    PathSecurityViolation,
    PermissionDenied,
    CommandFailed,
    NetworkInterfaceError,
    Validation,
    SystemMonitoring,
}

/// A failure of one operation of the manager.
#[derive(Debug, PartialEq, Eq)]
pub enum CursorManagerError {
    /// The filesystem refused an action.
    Io { message: String },
    /// A session descriptor could not be read or written.
    Serialization { message: String },
    /// The session name cannot be used.
    InvalidSessionName { message: String },
    /// No session of that name exists.
    SessionNotFound { name: String },
    /// No archive of that name exists.
    ArchiveNotFound { name: String },
    /// The name is already taken in the store it was meant for.
    AlreadyExists { name: String },
    /// The input would lead outside the directory it must stay in.
    PathSecurityViolation { path: String },
    /// Elevated rights are not available without a prompt.
    PermissionDenied { operation: String },
    /// An external command that the operation depends on failed or timed out.
    CommandFailed { command: String },
    /// The network interface cannot be used.
    NetworkInterfaceError { interface: String },
    /// A configuration field holds a value that is not accepted.
    Validation { message: String },
    /// The machine's state could not be read.
    SystemMonitoring { message: String },
}

/// A failure as a plain value: its class and the text of its subject.
pub struct ErrorView {
    pub kind: ErrorKind,
    pub detail: Seq<char>,
}

impl View for CursorManagerError {
    type V = ErrorView;

    open spec fn view(&self) -> ErrorView {
        match self {
            CursorManagerError::Io { message } => ErrorView { kind: ErrorKind::Io, detail: message@ },
            CursorManagerError::Serialization { message } => ErrorView {
                kind: ErrorKind::Serialization,
                detail: message@,
            },
            CursorManagerError::InvalidSessionName { message } => ErrorView {
                kind: ErrorKind::InvalidSessionName,
                detail: message@,
            },
            CursorManagerError::SessionNotFound { name } => ErrorView {
                kind: ErrorKind::SessionNotFound,
                detail: name@,
            },
            CursorManagerError::ArchiveNotFound { name } => ErrorView {
                kind: ErrorKind::ArchiveNotFound,
                detail: name@,
            },
            CursorManagerError::AlreadyExists { name } => ErrorView {
                kind: ErrorKind::AlreadyExists,
                detail: name@,
            },
            CursorManagerError::PathSecurityViolation { path } => ErrorView {
                kind: ErrorKind::PathSecurityViolation,
                detail: path@,
            },
            CursorManagerError::PermissionDenied { operation } => ErrorView {
                kind: ErrorKind::PermissionDenied,
                detail: operation@,
            },
            CursorManagerError::CommandFailed { command } => ErrorView {
                kind: ErrorKind::CommandFailed,
                detail: command@,
            },
            CursorManagerError::NetworkInterfaceError { interface } => ErrorView {
                kind: ErrorKind::NetworkInterfaceError,
                detail: interface@,
            },
            CursorManagerError::Validation { message } => ErrorView {
                kind: ErrorKind::Validation,
                detail: message@,
            },
            CursorManagerError::SystemMonitoring { message } => ErrorView {
                kind: ErrorKind::SystemMonitoring,
                detail: message@,
            },
        }
    }
}

/// The words that a message of the given class begins with.
pub open spec fn kind_prefix(kind: ErrorKind) -> Seq<char> {
    match kind {
        ErrorKind::Io => "IO error: "@,
        ErrorKind::Serialization => "Serialization error: "@,
        ErrorKind::InvalidSessionName => "Invalid session name: "@,
        ErrorKind::SessionNotFound => "Session not found: "@,
        ErrorKind::ArchiveNotFound => "Archive not found: "@,
        ErrorKind::AlreadyExists => "Already exists: "@,
        ErrorKind::PathSecurityViolation => "Path security violation: "@,
        ErrorKind::PermissionDenied => "Permission denied: "@,
        ErrorKind::CommandFailed => "System command failed: "@,
        ErrorKind::NetworkInterfaceError => "Network interface error: "@,
        ErrorKind::Validation => "Validation error: "@,
        ErrorKind::SystemMonitoring => "System monitoring error: "@,
    }
}

/// The text shown to the user for a failure: what kind of failure it is,
/// and its subject on one line.
pub open spec fn error_message(e: ErrorView) -> Seq<char> {
    kind_prefix(e.kind) + one_line(e.detail)
}

impl CursorManagerError {
    /// The class of this failure.
    pub fn kind(&self) -> (k: ErrorKind)
        ensures
            k == self@.kind,
    {
        match self {
            CursorManagerError::Io { .. } => ErrorKind::Io,
            CursorManagerError::Serialization { .. } => ErrorKind::Serialization,
            CursorManagerError::InvalidSessionName { .. } => ErrorKind::InvalidSessionName,
            CursorManagerError::SessionNotFound { .. } => ErrorKind::SessionNotFound,
            CursorManagerError::ArchiveNotFound { .. } => ErrorKind::ArchiveNotFound,
            CursorManagerError::AlreadyExists { .. } => ErrorKind::AlreadyExists,
            CursorManagerError::PathSecurityViolation { .. } => ErrorKind::PathSecurityViolation,
            CursorManagerError::PermissionDenied { .. } => ErrorKind::PermissionDenied,
            CursorManagerError::CommandFailed { .. } => ErrorKind::CommandFailed,
            CursorManagerError::NetworkInterfaceError { .. } => ErrorKind::NetworkInterfaceError,
            CursorManagerError::Validation { .. } => ErrorKind::Validation,
            CursorManagerError::SystemMonitoring { .. } => ErrorKind::SystemMonitoring,
        }
    }

    /// The subject of this failure: a name, a path, a command or a free text.
    pub fn detail(&self) -> (d: &str)
        ensures
            d@ == self@.detail,
    {
        match self {
            CursorManagerError::Io { message } => message.as_str(),
            CursorManagerError::Serialization { message } => message.as_str(),
            CursorManagerError::InvalidSessionName { message } => message.as_str(),
            CursorManagerError::SessionNotFound { name } => name.as_str(),
            CursorManagerError::ArchiveNotFound { name } => name.as_str(),
            CursorManagerError::AlreadyExists { name } => name.as_str(),
            CursorManagerError::PathSecurityViolation { path } => path.as_str(),
            CursorManagerError::PermissionDenied { operation } => operation.as_str(),
            CursorManagerError::CommandFailed { command } => command.as_str(),
            CursorManagerError::NetworkInterfaceError { interface } => interface.as_str(),
            CursorManagerError::Validation { message } => message.as_str(),
            CursorManagerError::SystemMonitoring { message } => message.as_str(),
        }
    }

    /// The one-line text shown to the user.
    pub fn message(&self) -> (text: String)
        ensures
            text@ == error_message(self@),
    {
        let prefix: &str = match self.kind() {
            ErrorKind::Io => "IO error: ",
            ErrorKind::Serialization => "Serialization error: ",
            ErrorKind::InvalidSessionName => "Invalid session name: ",
            ErrorKind::SessionNotFound => "Session not found: ",
            ErrorKind::ArchiveNotFound => "Archive not found: ",
            ErrorKind::AlreadyExists => "Already exists: ",
            ErrorKind::PathSecurityViolation => "Path security violation: ",
            ErrorKind::PermissionDenied => "Permission denied: ",
            ErrorKind::CommandFailed => "System command failed: ",
            ErrorKind::NetworkInterfaceError => "Network interface error: ",
            ErrorKind::Validation => "Validation error: ",
            ErrorKind::SystemMonitoring => "System monitoring error: ",
        };
        let mut text = prefix.to_owned();
        append_one_line(&mut text, self.detail());
        text
    }
}

/// The text shown for a failure is a single line, whatever its subject holds.
pub proof fn lemma_message_is_one_line(e: ErrorView)
    ensures
        forall|i: int|
            0 <= i < error_message(e).len() ==> !is_line_break(#[trigger] error_message(e)[i]),
{
    reveal_strlit("IO error: ");
    reveal_strlit("Serialization error: ");
    reveal_strlit("Invalid session name: ");
    reveal_strlit("Session not found: ");
    reveal_strlit("Archive not found: ");
    reveal_strlit("Already exists: ");
    reveal_strlit("Path security violation: ");
    reveal_strlit("Permission denied: ");
    reveal_strlit("System command failed: ");
    reveal_strlit("Network interface error: ");
    reveal_strlit("Validation error: ");
    reveal_strlit("System monitoring error: ");
    lemma_one_line_has_no_break(e.detail);
    let prefix = kind_prefix(e.kind);
    let text = error_message(e);
    assert forall|i: int| 0 <= i < text.len() implies !is_line_break(#[trigger] text[i]) by {
        if i < prefix.len() {
            assert(text[i] == prefix[i]);
        } else {
            assert(text[i] == one_line(e.detail)[i - prefix.len()]);
        }
    }
}

} // verus!
