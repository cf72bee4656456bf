//! What the manager tells of sessions and archives.

use vstd::prelude::*;
use vstd::string::*;

verus! {

/// The external application that a session is bound to.
#[derive(Debug, PartialEq, Eq)]
pub struct ElectronApp {
    pub name: String,
    pub exec_path: String,
    pub icon_path: Option<String>,
}

/// An application as a plain value.
pub struct ElectronAppView {
    pub name: Seq<char>,
    pub exec_path: Seq<char>,
    pub icon_path: Option<Seq<char>>,
}

/// The text of an optional string.
pub open spec fn text_of(s: Option<String>) -> Option<Seq<char>> {
    match s {
        Some(t) => Some(t@),
        None => None,
    }
}

impl View for ElectronApp {
    type V = ElectronAppView;

    open spec fn view(&self) -> ElectronAppView {
        ElectronAppView {
            name: self.name@,
            exec_path: self.exec_path@,
            icon_path: text_of(self.icon_path),
        }
    }
}

/// The view of an optional application.
pub open spec fn app_view(app: Option<ElectronApp>) -> Option<ElectronAppView> {
    match app {
        Some(a) => Some(a@),
        None => None,
    }
}

impl Clone for ElectronApp {
    fn clone(&self) -> (copy: Self)
        ensures
            copy@ == self@,
    {
        ElectronApp {
            name: self.name.clone(),
            exec_path: self.exec_path.clone(),
            icon_path: match &self.icon_path {
                Some(p) => Some(p.clone()),
                None => None,
            },
        }
    }
}

/// The descriptor of a session: its name, its directory, the day it was
/// made and the application it is bound to.
#[derive(Debug, PartialEq, Eq)]
pub struct SessionInfo {
    pub name: String,
    pub path: String,
    pub created: String,
    pub electron_app: Option<ElectronApp>,
}

/// A session's descriptor as a plain value.
pub struct SessionInfoView {
    pub name: Seq<char>,
    pub path: Seq<char>,
    pub created: Seq<char>,
    pub electron_app: Option<ElectronAppView>,
}

impl View for SessionInfo {
    type V = SessionInfoView;

    open spec fn view(&self) -> SessionInfoView {
        SessionInfoView {
            name: self.name@,
            path: self.path@,
            created: self.created@,
            electron_app: app_view(self.electron_app),
        }
    }
}

/// The view of an optional descriptor.
pub open spec fn info_view(info: Option<SessionInfo>) -> Option<SessionInfoView> {
    match info {
        Some(i) => Some(i@),
        None => None,
    }
}

/// A copy of an optional application.
pub fn clone_app(app: &Option<ElectronApp>) -> (copy: Option<ElectronApp>)
    ensures
        app_view(copy) == app_view(*app),
{
    match app {
        Some(a) => Some(a.clone()),
        None => None,
    }
}

impl Clone for SessionInfo {
    fn clone(&self) -> (copy: Self)
        ensures
            copy@ == self@,
    {
        SessionInfo {
            name: self.name.clone(),
            path: self.path.clone(),
            created: self.created.clone(),
            electron_app: clone_app(&self.electron_app),
        }
    }
}

/// A copy of an optional descriptor.
pub fn clone_info(info: &Option<SessionInfo>) -> (copy: Option<SessionInfo>)
    ensures
        info_view(copy) == info_view(*info),
{
    match info {
        Some(i) => Some(i.clone()),
        None => None,
    }
}

/// What is told of an archive: its name, its directory, the day it was made
/// and the session it was made of.
#[derive(Debug, PartialEq, Eq)]
pub struct ArchiveInfo {
    pub name: String,
    pub path: String,
    pub created: String,
    pub original_session: String,
}

/// An archive's description as a plain value.
pub struct ArchiveInfoView {
    pub name: Seq<char>,
    pub path: Seq<char>,
    pub created: Seq<char>,
    pub original_session: Seq<char>,
}

impl View for ArchiveInfo {
    type V = ArchiveInfoView;

    open spec fn view(&self) -> ArchiveInfoView {
        ArchiveInfoView {
            name: self.name@,
            path: self.path@,
            created: self.created@,
            original_session: self.original_session@,
        }
    }
}

impl Clone for ArchiveInfo {
    fn clone(&self) -> (copy: Self)
        ensures
            copy@ == self@,
    {
        ArchiveInfo {
            name: self.name.clone(),
            path: self.path.clone(),
            created: self.created.clone(),
            original_session: self.original_session.clone(),
        }
    }
}

} // verus!
