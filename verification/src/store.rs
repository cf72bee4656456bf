//! The directories of sessions and archives as the manager knows them, and
//! what each operation makes of them, stated over plain values.

use vstd::prelude::*;
use vstd::string::*;
use crate::config::ConfigView;
use crate::error::{ErrorKind, ErrorView};
use crate::path_safety::{
    entry_safe,
    joined_path,
    leaves_root,
    path_violation,
    resolves_to_root,
};
use crate::process::CommandView;
use crate::session::{
    clone_info,
    info_view,
    ArchiveInfoView,
    ElectronAppView,
    SessionInfo,
    SessionInfoView,
};
use crate::timestamp::{archive_name_of, date_of, original_session_of, stamp_of};

verus! {

/// What a directory of a session or of an archive holds: the descriptor,
/// where there is one, and the other files by their paths inside the
/// directory.
pub struct Content {
    pub descriptor: Option<SessionInfoView>,
    pub files: Map<Seq<char>, Seq<u8>>,
}

/// A directory of a session or of an archive as a plain value.
pub struct DirView {
    pub name: Seq<char>,
    pub content: Content,
}

/// A directory of a session or of an archive. The descriptor is held as it
/// was read; the other files are known to proofs only.
pub struct DirEntry {
    pub name: String,
    pub descriptor: Option<SessionInfo>,
    pub files: Ghost<Map<Seq<char>, Seq<u8>>>,
}

impl View for DirEntry {
    type V = DirView;

    open spec fn view(&self) -> DirView {
        DirView {
            name: self.name@,
            content: Content { descriptor: info_view(self.descriptor), files: self.files@ },
        }
    }
}

/// The views of a list of directories.
pub open spec fn dir_views(entries: Seq<DirEntry>) -> Seq<DirView> {
    Seq::new(entries.len(), |i: int| entries[i]@)
}

/// Whether a directory of that name is among the entries.
pub open spec fn has_entry(entries: Seq<DirView>, name: Seq<char>) -> bool {
    exists|i: int| 0 <= i < entries.len() && (#[trigger] entries[i]).name == name
}

/// Whether `i` is the first position at which a directory of that name stands.
pub open spec fn is_first_index(entries: Seq<DirView>, name: Seq<char>, i: int) -> bool {
    &&& 0 <= i < entries.len()
    &&& entries[i].name == name
    &&& forall|j: int| 0 <= j < i ==> (#[trigger] entries[j]).name != name
}

/// The first position at which a directory of that name stands.
pub open spec fn index_of(entries: Seq<DirView>, name: Seq<char>) -> int
    recommends
        has_entry(entries, name),
{
    choose|i: int| is_first_index(entries, name, i)
}

/// No two directories have the same name, and none has the empty name.
pub open spec fn names_in_order(entries: Seq<DirView>) -> bool {
    &&& forall|i: int, j: int|
        0 <= i < j < entries.len() ==> (#[trigger] entries[i]).name != (#[trigger] entries[j]).name
    &&& forall|i: int| 0 <= i < entries.len() ==> (#[trigger] entries[i]).name.len() > 0
}

/// The manager as a plain value: its settings, the directory that relative
/// settings are resolved against, and the directories it knows.
pub struct ManagerView {
    pub config: ConfigView,
    pub safe_root: Seq<char>,
    pub sessions: Seq<DirView>,
    pub archives: Seq<DirView>,
}

impl ManagerView {
    /// No two sessions share a name, no two archives do, and no name is
    /// empty.
    pub open spec fn wf(self) -> bool {
        names_in_order(self.sessions) && names_in_order(self.archives)
    }

    /// The directory of the session `name`.
    pub open spec fn session_path(self, name: Seq<char>) -> Seq<char> {
        joined_path(self.config.profile_base, name)
    }

    /// The directory of the archive `name`.
    pub open spec fn archive_path(self, name: Seq<char>) -> Seq<char> {
        joined_path(self.config.archive_base, name)
    }

    /// The content of the session `name`.
    pub open spec fn session_content(self, name: Seq<char>) -> Content
        recommends
            has_entry(self.sessions, name),
    {
        self.sessions[index_of(self.sessions, name)].content
    }

    /// The content of the archive `name`.
    pub open spec fn archive_content(self, name: Seq<char>) -> Content
        recommends
            has_entry(self.archives, name),
    {
        self.archives[index_of(self.archives, name)].content
    }
}

/// One thing to do in the file system. The library decides on these and
/// leaves the doing to its caller.
#[derive(Debug, PartialEq, Eq)]
pub enum FsAction {
    /// Make the directory, with the directories above it where they are missing.
    CreateDir { path: String },
    /// Write the descriptor of a session to the file at `path`.
    WriteDescriptor { path: String, info: SessionInfo },
    /// Copy all that the directory `from` holds into the directory `to`.
    CopyContents { from: String, to: String },
    /// Remove the directory with all that it holds.
    RemoveTree { path: String },
}

/// A thing to do in the file system as a plain value.
pub enum FsActionView {
    CreateDir { path: Seq<char> },
    WriteDescriptor { path: Seq<char>, info: SessionInfoView },
    CopyContents { from: Seq<char>, to: Seq<char> },
    RemoveTree { path: Seq<char> },
}

impl View for FsAction {
    type V = FsActionView;

    open spec fn view(&self) -> FsActionView {
        match self {
            FsAction::CreateDir { path } => FsActionView::CreateDir { path: path@ },
            FsAction::WriteDescriptor { path, info } => FsActionView::WriteDescriptor {
                path: path@,
                info: info@,
            },
            FsAction::CopyContents { from, to } => FsActionView::CopyContents {
                from: from@,
                to: to@,
            },
            FsAction::RemoveTree { path } => FsActionView::RemoveTree { path: path@ },
        }
    }
}

/// The views of a list of actions.
pub open spec fn action_views(actions: Seq<FsAction>) -> Seq<FsActionView> {
    Seq::new(actions.len(), |i: int| actions[i]@)
}

/// What an operation that succeeded hands back: the line for the user, and
/// what is to be done in the file system, in that order.
#[derive(Debug, PartialEq, Eq)]
pub struct Outcome {
    pub message: String,
    pub actions: Vec<FsAction>,
}

/// An outcome as a plain value.
pub struct OutcomeView {
    pub message: Seq<char>,
    pub actions: Seq<FsActionView>,
}

impl View for Outcome {
    type V = OutcomeView;

    open spec fn view(&self) -> OutcomeView {
        OutcomeView { message: self.message@, actions: action_views(self.actions@) }
    }
}

/// The name of the descriptor's file inside the directory of a session.
pub open spec fn descriptor_file() -> Seq<char> {
    "session.json"@
}

/// What is told of a session's directory: name and path from the directory,
/// the day and the application from the descriptor; where there is no
/// descriptor, `today` and no application.
pub open spec fn listed_session(root: Seq<char>, entry: DirView, today: Seq<char>) -> SessionInfoView {
    SessionInfoView {
        name: entry.name,
        path: joined_path(root, entry.name),
        created: match entry.content.descriptor {
            Some(d) => d.created,
            None => today,
        },
        electron_app: match entry.content.descriptor {
            Some(d) => d.electron_app,
            None => None,
        },
    }
}

/// What is told of all sessions, in the order of the directories.
pub open spec fn listed_sessions(m: ManagerView, today: Seq<char>) -> Seq<SessionInfoView> {
    Seq::new(
        m.sessions.len(),
        |i: int| listed_session(m.config.profile_base, m.sessions[i], today),
    )
}

/// Whether a directory is without a descriptor, so that the day of the
/// listing is told as the day it was made.
pub open spec fn needs_day(entries: Seq<DirView>) -> bool {
    exists|i: int| 0 <= i < entries.len() && (#[trigger] entries[i]).content.descriptor is None
}

/// Where every directory has its descriptor, what is told of the sessions
/// is the same on every day.
pub proof fn lemma_listing_without_day(m: ManagerView, first: Seq<char>, second: Seq<char>)
    requires
        !needs_day(m.sessions),
    ensures
        listed_sessions(m, first) == listed_sessions(m, second),
{
    assert forall|i: int| 0 <= i < m.sessions.len() implies listed_session(
        m.config.profile_base,
        m.sessions[i],
        first,
    ) == listed_session(m.config.profile_base, m.sessions[i], second) by {
        assert((#[trigger] m.sessions[i]).content.descriptor is Some);
    }
    assert(listed_sessions(m, first) =~= listed_sessions(m, second));
}

/// What is told of an archive's directory: the day and the session's name
/// are read from the directory's name, and are `Unknown` where that name
/// does not end in a timestamp.
pub open spec fn listed_archive(root: Seq<char>, entry: DirView) -> ArchiveInfoView {
    ArchiveInfoView {
        name: entry.name,
        path: joined_path(root, entry.name),
        created: match stamp_of(entry.name) {
            Some(stamp) => date_of(stamp),
            None => "Unknown"@,
        },
        original_session: match original_session_of(entry.name) {
            Some(session) => session,
            None => "Unknown"@,
        },
    }
}

/// What is told of all archives, in the order of the directories.
pub open spec fn listed_archives(m: ManagerView) -> Seq<ArchiveInfoView> {
    Seq::new(m.archives.len(), |i: int| listed_archive(m.config.archive_base, m.archives[i]))
}

/// An error of the given class about the given subject.
pub open spec fn failure(kind: ErrorKind, detail: Seq<char>) -> ErrorView {
    ErrorView { kind, detail }
}

/// Why a directory cannot be taken into the manager's knowledge: its name
/// is empty or already known.
pub open spec fn record_rejection(entries: Seq<DirView>, name: Seq<char>) -> Option<ErrorView> {
    if name.len() == 0 {
        Some(failure(ErrorKind::InvalidSessionName, "Session name cannot be empty"@))
    } else if has_entry(entries, name) {
        Some(failure(ErrorKind::AlreadyExists, name))
    } else {
        None
    }
}

/// What is wrong with a root of the settings as a path: it holds `..` or
/// `~`, or it is relative and leaves the safe root.
pub open spec fn root_rejection(root: Seq<char>, safe_root: Seq<char>) -> Option<ErrorView> {
    if path_violation(root, safe_root) is Some {
        Some(failure(ErrorKind::PathSecurityViolation, root))
    } else {
        None
    }
}

/// What is wrong with the two roots of the settings: the violation of the
/// sessions' root, else that of the archives' root.
pub open spec fn roots_rejection(m: ManagerView) -> Option<ErrorView> {
    if root_rejection(m.config.profile_base, m.safe_root) is Some {
        root_rejection(m.config.profile_base, m.safe_root)
    } else {
        root_rejection(m.config.archive_base, m.safe_root)
    }
}

/// Why no directory of that name is to be had under a root. The empty name
/// is the name of none, whatever the root. A name that leads out of the root
/// is a violation. A name that resolves to the root itself is the name of
/// none, and so is one that is not among the entries. `missing` is the kind
/// of the error that says that there is none.
pub open spec fn lookup_rejection(
    root: Seq<char>,
    entries: Seq<DirView>,
    name: Seq<char>,
    missing: ErrorKind,
) -> Option<ErrorView> {
    if name.len() == 0 {
        Some(failure(missing, name))
    } else if leaves_root(root, name) {
        Some(failure(ErrorKind::PathSecurityViolation, name))
    } else if resolves_to_root(root, name) || !has_entry(entries, name) {
        Some(failure(missing, name))
    } else {
        None
    }
}

/// Why a session of that name cannot be created: the name is empty, it is
/// not safe under the sessions' root, it is taken, or the sessions' root is
/// itself no safe path. The root is judged last, before anything is done.
pub open spec fn create_rejection(m: ManagerView, name: Seq<char>) -> Option<ErrorView> {
    if name.len() == 0 {
        Some(failure(ErrorKind::InvalidSessionName, "Session name cannot be empty"@))
    } else if !entry_safe(m.config.profile_base, name) {
        Some(failure(ErrorKind::PathSecurityViolation, name))
    } else if has_entry(m.sessions, name) {
        Some(failure(ErrorKind::AlreadyExists, name))
    } else {
        root_rejection(m.config.profile_base, m.safe_root)
    }
}

/// The descriptor of a session created on the day `today`.
pub open spec fn created_info(
    m: ManagerView,
    name: Seq<char>,
    app: Option<ElectronAppView>,
    today: Seq<char>,
) -> SessionInfoView {
    SessionInfoView { name, path: m.session_path(name), created: today, electron_app: app }
}

/// The manager after the session was created: its directory comes last and
/// holds the descriptor and nothing else.
pub open spec fn after_create(
    m: ManagerView,
    name: Seq<char>,
    app: Option<ElectronAppView>,
    today: Seq<char>,
) -> ManagerView {
    ManagerView {
        sessions: m.sessions.push(
            DirView {
                name,
                content: Content {
                    descriptor: Some(created_info(m, name, app, today)),
                    files: Map::empty(),
                },
            },
        ),
        ..m
    }
}

/// What creating the session hands back.
pub open spec fn create_outcome(
    m: ManagerView,
    name: Seq<char>,
    app: Option<ElectronAppView>,
    today: Seq<char>,
) -> OutcomeView {
    OutcomeView {
        message: "Session '"@ + name + "' created at "@ + m.session_path(name),
        actions: seq![
            FsActionView::CreateDir { path: m.session_path(name) },
            FsActionView::WriteDescriptor {
                path: joined_path(m.session_path(name), descriptor_file()),
                info: created_info(m, name, app, today),
            },
        ],
    }
}

/// Why the session cannot be archived at whatever time: there is no such
/// session, its name leads out of the sessions' root, or one of the two
/// roots is itself no safe path.
pub open spec fn archive_source_rejection(m: ManagerView, session: Seq<char>) -> Option<ErrorView> {
    let source = lookup_rejection(
        m.config.profile_base,
        m.sessions,
        session,
        ErrorKind::SessionNotFound,
    );
    if source is Some {
        source
    } else {
        roots_rejection(m)
    }
}

/// Why the session cannot be archived at the time `stamp`: for a reason
/// that holds at whatever time (see `archive_source_rejection`), or because
/// the archive's name is not safe under the archives' root or an archive of
/// that name exists. What needs no time is judged first.
pub open spec fn archive_rejection(m: ManagerView, session: Seq<char>, stamp: Seq<char>) -> Option<
    ErrorView,
> {
    let archive = archive_name_of(session, stamp);
    if archive_source_rejection(m, session) is Some {
        archive_source_rejection(m, session)
    } else if !entry_safe(m.config.archive_base, archive) {
        Some(failure(ErrorKind::PathSecurityViolation, archive))
    } else if has_entry(m.archives, archive) {
        Some(failure(ErrorKind::AlreadyExists, archive))
    } else {
        None
    }
}

/// The manager after the session was archived: the archive comes last and
/// holds what the session holds. The session stays as it is.
pub open spec fn after_archive(m: ManagerView, session: Seq<char>, stamp: Seq<char>) -> ManagerView {
    ManagerView {
        archives: m.archives.push(
            DirView { name: archive_name_of(session, stamp), content: m.session_content(session) },
        ),
        ..m
    }
}

/// What archiving the session hands back.
pub open spec fn archive_outcome(m: ManagerView, session: Seq<char>, stamp: Seq<char>) -> OutcomeView {
    let archive = archive_name_of(session, stamp);
    OutcomeView {
        message: "Session '"@ + session + "' archived to '"@ + archive + "'"@,
        actions: seq![
            FsActionView::CreateDir { path: m.archive_path(archive) },
            FsActionView::CopyContents {
                from: m.session_path(session),
                to: m.archive_path(archive),
            },
        ],
    }
}

/// The name of the session that restoring makes: the new name where one is
/// given, else the archive's name without its timestamp.
pub open spec fn restore_target(archive: Seq<char>, new_name: Option<Seq<char>>) -> Option<
    Seq<char>,
> {
    match new_name {
        Some(name) => Some(name),
        None => original_session_of(archive),
    }
}

/// Why the archive cannot be restored: there is no such archive or its name
/// leads out of the archives' root, the session's name cannot be told or is
/// empty or not safe, a session of that name exists, or one of the two roots
/// is itself no safe path. Only the name of the session to be made is looked
/// up among the sessions. The roots are judged last, before anything is done.
pub open spec fn restore_rejection(
    m: ManagerView,
    archive: Seq<char>,
    new_name: Option<Seq<char>>,
) -> Option<ErrorView> {
    let source = lookup_rejection(
        m.config.archive_base,
        m.archives,
        archive,
        ErrorKind::ArchiveNotFound,
    );
    if source is Some {
        source
    } else {
        match restore_target(archive, new_name) {
            None => Some(
                failure(
                    ErrorKind::InvalidSessionName,
                    "Cannot determine original session name from archive '"@ + archive + "'"@,
                ),
            ),
            Some(target) => if target.len() == 0 {
                Some(failure(ErrorKind::InvalidSessionName, "Session name cannot be empty"@))
            } else if !entry_safe(m.config.profile_base, target) {
                Some(failure(ErrorKind::PathSecurityViolation, target))
            } else if has_entry(m.sessions, target) {
                Some(failure(ErrorKind::AlreadyExists, target))
            } else {
                roots_rejection(m)
            },
        }
    }
}

/// The manager after the archive was restored as the session `target`: the
/// session comes last and holds what the archive holds. The archive stays.
pub open spec fn after_restore(m: ManagerView, archive: Seq<char>, target: Seq<char>) -> ManagerView {
    ManagerView {
        sessions: m.sessions.push(DirView { name: target, content: m.archive_content(archive) }),
        ..m
    }
}

/// What restoring the archive hands back.
pub open spec fn restore_outcome(m: ManagerView, archive: Seq<char>, target: Seq<char>) -> OutcomeView {
    OutcomeView {
        message: "Archive '"@ + archive + "' restored to session '"@ + target + "'"@,
        actions: seq![
            FsActionView::CreateDir { path: m.session_path(target) },
            FsActionView::CopyContents {
                from: m.archive_path(archive),
                to: m.session_path(target),
            },
        ],
    }
}

/// Why nothing can be done with the session of that name: there is no such
/// session, its name leads out of the sessions' root, or that root is itself
/// no safe path. The root is judged last, before anything is done.
pub open spec fn known_session_rejection(m: ManagerView, session: Seq<char>) -> Option<ErrorView> {
    let source = lookup_rejection(
        m.config.profile_base,
        m.sessions,
        session,
        ErrorKind::SessionNotFound,
    );
    if source is Some {
        source
    } else {
        root_rejection(m.config.profile_base, m.safe_root)
    }
}

/// The manager after the session was deleted.
pub open spec fn after_delete_session(m: ManagerView, session: Seq<char>) -> ManagerView {
    ManagerView { sessions: m.sessions.remove(index_of(m.sessions, session)), ..m }
}

/// What deleting the session hands back.
pub open spec fn delete_session_outcome(m: ManagerView, session: Seq<char>) -> OutcomeView {
    OutcomeView {
        message: "Session '"@ + session + "' deleted"@,
        actions: seq![FsActionView::RemoveTree { path: m.session_path(session) }],
    }
}

/// Why nothing can be done with the archive of that name: there is no such
/// archive, its name leads out of the archives' root, or that root is itself
/// no safe path. The root is judged last, before anything is done.
pub open spec fn known_archive_rejection(m: ManagerView, archive: Seq<char>) -> Option<ErrorView> {
    let source = lookup_rejection(
        m.config.archive_base,
        m.archives,
        archive,
        ErrorKind::ArchiveNotFound,
    );
    if source is Some {
        source
    } else {
        root_rejection(m.config.archive_base, m.safe_root)
    }
}

/// The manager after the archive was deleted.
pub open spec fn after_delete_archive(m: ManagerView, archive: Seq<char>) -> ManagerView {
    ManagerView { archives: m.archives.remove(index_of(m.archives, archive)), ..m }
}

/// What deleting the archive hands back.
pub open spec fn delete_archive_outcome(m: ManagerView, archive: Seq<char>) -> OutcomeView {
    OutcomeView {
        message: "Archive '"@ + archive + "' deleted"@,
        actions: seq![FsActionView::RemoveTree { path: m.archive_path(archive) }],
    }
}

/// The executable that a session starts: that of the application in its
/// descriptor, else the one that the settings name.
pub open spec fn launch_executable(m: ManagerView, session: Seq<char>) -> Seq<char>
    recommends
        has_entry(m.sessions, session),
{
    match m.session_content(session).descriptor {
        Some(d) => match d.electron_app {
            Some(app) => app.exec_path,
            None => m.config.cursor_app,
        },
        None => m.config.cursor_app,
    }
}

/// The command that starts a session: the executable, told to keep its data
/// in the session's directory and to open a new window.
pub open spec fn launch_command(m: ManagerView, session: Seq<char>) -> CommandView {
    CommandView {
        program: launch_executable(m, session),
        args: seq!["--user-data-dir="@ + m.session_path(session), "--new-window"@],
    }
}

/// Any first position of a name is the one that `index_of` gives.
pub proof fn lemma_first_index_is_index_of(entries: Seq<DirView>, name: Seq<char>, i: int)
    requires
        is_first_index(entries, name, i),
    ensures
        index_of(entries, name) == i,
        has_entry(entries, name),
{
    let k = index_of(entries, name);
    assert(is_first_index(entries, name, k));
    if k < i {
        assert(entries[k].name != name);
    } else if i < k {
        assert(entries[i].name != name);
    }
}

/// A name that is among the entries has a first position.
pub proof fn lemma_has_entry_gives_index(entries: Seq<DirView>, name: Seq<char>)
    requires
        has_entry(entries, name),
    ensures
        is_first_index(entries, name, index_of(entries, name)),
{
    let w = choose|i: int| 0 <= i < entries.len() && (#[trigger] entries[i]).name == name;
    lemma_first_before(entries, name, w);
}

/// Below any position of a name there is a first one.
proof fn lemma_first_before(entries: Seq<DirView>, name: Seq<char>, w: int)
    requires
        0 <= w < entries.len(),
        entries[w].name == name,
    ensures
        exists|i: int| is_first_index(entries, name, i),
    decreases w,
{
    if exists|j: int| 0 <= j < w && (#[trigger] entries[j]).name == name {
        let j = choose|j: int| 0 <= j < w && (#[trigger] entries[j]).name == name;
        lemma_first_before(entries, name, j);
    } else {
        assert(is_first_index(entries, name, w));
    }
}

/// Finds the directory of that name.
pub fn find_entry(entries: &Vec<DirEntry>, name: &str) -> (found: Option<usize>)
    ensures
        match found {
            Some(i) => is_first_index(dir_views(entries@), name@, i as int) && index_of(
                dir_views(entries@),
                name@,
            ) == i && has_entry(dir_views(entries@), name@),
            None => !has_entry(dir_views(entries@), name@),
        },
{
    let wanted = name.to_owned();
    let mut i: usize = 0;
    while i < entries.len()
        invariant
            i <= entries.len(),
            wanted@ == name@,
            forall|j: int| 0 <= j < i ==> (#[trigger] dir_views(entries@)[j]).name != name@,
        decreases entries.len() - i,
    {
        if entries[i].name == wanted {
            proof {
                assert(dir_views(entries@)[i as int].name == name@);
                lemma_first_index_is_index_of(dir_views(entries@), name@, i as int);
            }
            return Some(i);
        }
        assert(dir_views(entries@)[i as int].name != name@);
        i = i + 1;
    }
    None
}

/// A copy of a directory's entry under another name.
pub fn copy_entry_as(entry: &DirEntry, name: &str) -> (copy: DirEntry)
    ensures
        copy@ == (DirView { name: name@, content: entry@.content }),
{
    DirEntry {
        name: name.to_owned(),
        descriptor: clone_info(&entry.descriptor),
        files: Ghost(entry.files@),
    }
}

/// Appending a directory whose name is new and not empty keeps the names
/// in order.
pub proof fn lemma_push_keeps_order(before: Seq<DirView>, entry: DirView)
    requires
        names_in_order(before),
        !has_entry(before, entry.name),
        entry.name.len() > 0,
    ensures
        names_in_order(before.push(entry)),
{
    let after = before.push(entry);
    assert forall|i: int, j: int| 0 <= i < j < after.len() implies (#[trigger] after[i]).name != (
    #[trigger] after[j]).name by {
        assert(after[i] == before[i]);
        if j < before.len() {
            assert(after[j] == before[j]);
        }
    }
    assert forall|i: int| 0 <= i < after.len() implies (#[trigger] after[i]).name.len() > 0 by {
        if i < before.len() {
            assert(after[i] == before[i]);
        }
    }
}

/// Removing a directory keeps the names in order.
pub proof fn lemma_remove_keeps_order(before: Seq<DirView>, at: int)
    requires
        names_in_order(before),
        0 <= at < before.len(),
    ensures
        names_in_order(before.remove(at)),
{
    let after = before.remove(at);
    assert forall|i: int, j: int| 0 <= i < j < after.len() implies (#[trigger] after[i]).name != (
    #[trigger] after[j]).name by {
        let a = if i < at {
            i
        } else {
            i + 1
        };
        let b = if j < at {
            j
        } else {
            j + 1
        };
        assert(after[i] == before[a]);
        assert(after[j] == before[b]);
    }
    assert forall|i: int| 0 <= i < after.len() implies (#[trigger] after[i]).name.len() > 0 by {
        let a = if i < at {
            i
        } else {
            i + 1
        };
        assert(after[i] == before[a]);
    }
}

} // verus!
