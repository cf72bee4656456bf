//! Session and archive lifecycle management for isolated application
//! profiles: the manager of sessions and archives, the checks that keep every
//! path inside its root, the sequence that gives a network interface a new
//! hardware address, and the start of a session's application.
//!
//! The library decides and describes; it touches neither the file system nor
//! any process. Every operation hands back what is to be done, and takes what
//! came of it as plain values.

pub mod config;
pub mod error;
pub mod launch;
pub mod lifecycle;
pub mod mac;
pub mod manager;
pub mod path_safety;
pub mod process;
pub mod session;
pub mod spoof;
pub mod store;
pub mod text;
pub mod timestamp;

pub use config::Config;
pub use error::{CursorManagerError, ErrorKind};
pub use launch::LaunchPlan;
pub use mac::MacAddress;
pub use manager::CursorManager;
pub use path_safety::{validate_path, PathViolation};
pub use process::{Command, StepOutcome};
pub use session::{ArchiveInfo, ElectronApp, SessionInfo};
pub use spoof::{PlannedStep, Severity, SpoofRun, SpoofStep};
pub use store::{FsAction, Outcome};
pub use timestamp::Timestamp;
