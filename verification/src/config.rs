//! The settings that every operation of the manager reads.

use vstd::prelude::*;
use vstd::string::*;
use crate::error::{CursorManagerError, ErrorKind, ErrorView};
use crate::path_safety::{join_path, joined_path, path_violation, validate_path};

verus! {

/// The settings of the manager. An operation works on the settings it was
/// given; replacing them makes a new value and changes none that is in use.
#[derive(Debug, PartialEq, Eq)]
pub struct Config {
    /// The executable that sessions without an application of their own start.
    pub cursor_app: String,
    /// The directory that holds one directory per session.
    pub profile_base: String,
    /// The directory that holds one directory per archive.
    pub archive_base: String,
    /// The directory of the user's projects.
    pub workspace_base: String,
    /// The network interface whose address is changed where none is named.
    pub network_interface: String,
    pub max_sessions: u32,
    pub session_timeout_minutes: u32,
    pub auto_cleanup_archives: bool,
    pub enable_system_monitoring: bool,
}

/// The settings as a plain value.
pub struct ConfigView {
    pub cursor_app: Seq<char>,
    pub profile_base: Seq<char>,
    pub archive_base: Seq<char>,
    pub workspace_base: Seq<char>,
    pub network_interface: Seq<char>,
    pub max_sessions: u32,
    pub session_timeout_minutes: u32,
    pub auto_cleanup_archives: bool,
    pub enable_system_monitoring: bool,
}

impl View for Config {
    type V = ConfigView;

    open spec fn view(&self) -> ConfigView {
        ConfigView {
            cursor_app: self.cursor_app@,
            profile_base: self.profile_base@,
            archive_base: self.archive_base@,
            workspace_base: self.workspace_base@,
            network_interface: self.network_interface@,
            max_sessions: self.max_sessions,
            session_timeout_minutes: self.session_timeout_minutes,
            auto_cleanup_archives: self.auto_cleanup_archives,
            enable_system_monitoring: self.enable_system_monitoring,
        }
    }
}

/// The settings of a user whose home directory is `home`.
pub open spec fn default_config(home: Seq<char>) -> ConfigView {
    ConfigView {
        cursor_app: "/Applications/Cursor.app/Contents/MacOS/Cursor"@,
        profile_base: joined_path(home, "cursor-profiles"@),
        archive_base: joined_path(home, "cursor-archives"@),
        workspace_base: joined_path(home, "projects"@),
        network_interface: "en0"@,
        max_sessions: 50,
        session_timeout_minutes: 1440,
        auto_cleanup_archives: true,
        enable_system_monitoring: true,
    }
}

/// The first thing that is wrong with the settings, going through the fields
/// in their order; `None` where they are in order. The three directories are
/// checked as paths against `safe_root`.
pub open spec fn config_rejection(c: ConfigView, safe_root: Seq<char>) -> Option<ErrorView> {
    if c.cursor_app.len() == 0 {
        Some(ErrorView { kind: ErrorKind::Validation, detail: "Cursor app path cannot be empty"@ })
    } else if path_violation(c.profile_base, safe_root) is Some {
        Some(ErrorView { kind: ErrorKind::PathSecurityViolation, detail: c.profile_base })
    } else if path_violation(c.archive_base, safe_root) is Some {
        Some(ErrorView { kind: ErrorKind::PathSecurityViolation, detail: c.archive_base })
    } else if path_violation(c.workspace_base, safe_root) is Some {
        Some(ErrorView { kind: ErrorKind::PathSecurityViolation, detail: c.workspace_base })
    } else if c.network_interface.len() == 0 {
        Some(
            ErrorView { kind: ErrorKind::Validation, detail: "Network interface cannot be empty"@ },
        )
    } else {
        None
    }
}

/// `dirs::home_dir`: the home directory of the user, from the environment
/// and the user database. Nothing is claimed of the answer.
#[verifier::external_body]
fn home_directory() -> (home: Option<String>) {
    match dirs::home_dir() {
        Some(path) => Some(path.to_string_lossy().into_owned()),
        None => None,
    }
}

/// The refusal of a directory of the settings.
fn refuse_path(path: &String) -> (e: CursorManagerError)
    ensures
        e@ == (ErrorView { kind: ErrorKind::PathSecurityViolation, detail: path@ }),
{
    CursorManagerError::PathSecurityViolation { path: path.clone() }
}

impl Config {
    /// The settings of a user whose home directory is `home`; of the current
    /// directory where there is none.
    pub fn with_home(home: Option<&str>) -> (config: Config)
        ensures
            config@ == default_config(
                match home {
                    Some(h) => h@,
                    None => "."@,
                },
            ),
    {
        let base: &str = match home {
            Some(h) => h,
            None => ".",
        };
        Config {
            cursor_app: "/Applications/Cursor.app/Contents/MacOS/Cursor".to_owned(),
            profile_base: join_path(base, "cursor-profiles"),
            archive_base: join_path(base, "cursor-archives"),
            workspace_base: join_path(base, "projects"),
            network_interface: "en0".to_owned(),
            max_sessions: 50,
            session_timeout_minutes: 1440,
            auto_cleanup_archives: true,
            enable_system_monitoring: true,
        }
    }

    /// Checks the settings: the application and the interface are named, and
    /// each of the three directories passes the check of paths against
    /// `safe_root`. The first field that fails, in the order of the fields,
    /// gives the error.
    pub fn validate(&self, safe_root: &str) -> (verdict: Result<(), CursorManagerError>)
        ensures
            match verdict {
                Ok(_) => config_rejection(self@, safe_root@) is None,
                Err(e) => config_rejection(self@, safe_root@) == Some(e@),
            },
    {
        if self.cursor_app.as_str().unicode_len() == 0 {
            return Err(
                CursorManagerError::Validation {
                    message: "Cursor app path cannot be empty".to_owned(),
                },
            );
        }
        if validate_path(self.profile_base.as_str(), safe_root).is_err() {
            return Err(refuse_path(&self.profile_base));
        }
        if validate_path(self.archive_base.as_str(), safe_root).is_err() {
            return Err(refuse_path(&self.archive_base));
        }
        if validate_path(self.workspace_base.as_str(), safe_root).is_err() {
            return Err(refuse_path(&self.workspace_base));
        }
        if self.network_interface.as_str().unicode_len() == 0 {
            return Err(
                CursorManagerError::Validation {
                    message: "Network interface cannot be empty".to_owned(),
                },
            );
        }
        Ok(())
    }
}

impl Clone for Config {
    fn clone(&self) -> (copy: Self)
        ensures
            copy@ == self@,
    {
        Config {
            cursor_app: self.cursor_app.clone(),
            profile_base: self.profile_base.clone(),
            archive_base: self.archive_base.clone(),
            workspace_base: self.workspace_base.clone(),
            network_interface: self.network_interface.clone(),
            max_sessions: self.max_sessions,
            session_timeout_minutes: self.session_timeout_minutes,
            auto_cleanup_archives: self.auto_cleanup_archives,
            enable_system_monitoring: self.enable_system_monitoring,
        }
    }
}

impl Default for Config {
    /// The settings of the current user: those of `with_home` for the home
    /// directory that the system names, if it names one.
    fn default() -> (config: Config)
        ensures
            exists|home: Seq<char>| config@ == #[trigger] default_config(home),
    {
        let home = home_directory();
        match &home {
            Some(h) => Config::with_home(Some(h.as_str())),
            None => Config::with_home(None),
        }
    }
}

} // verus!
