//! The manager of sessions and archives. It knows the directories that the
//! two roots hold, decides on every operation whether it may proceed, and
//! says what is then to be done in the file system.

use vstd::prelude::*;
use vstd::string::*;
use crate::config::{default_config, Config};
use crate::error::{CursorManagerError, ErrorKind, ErrorView};
use crate::launch::{LaunchPlan, LaunchPlanView};
use crate::mac::{is_mac_text, mac_text, MacAddress};
use crate::path_safety::{join_path, joined_path, locate_entry, resolve_entry, validate_path, Standing};
use crate::process::{Command, StepOutcomeView};
use crate::session::{
    app_view,
    clone_app,
    info_view,
    ArchiveInfo,
    ArchiveInfoView,
    ElectronApp,
    SessionInfo,
    SessionInfoView,
};
use crate::spoof::SpoofRun;
use crate::store::{
    action_views,
    after_archive,
    after_create,
    after_delete_archive,
    after_delete_session,
    after_restore,
    archive_source_rejection,
    archive_outcome,
    archive_rejection,
    copy_entry_as,
    create_outcome,
    create_rejection,
    delete_archive_outcome,
    known_archive_rejection,
    delete_session_outcome,
    known_session_rejection,
    dir_views,
    failure,
    find_entry,
    has_entry,
    index_of,
    is_first_index,
    launch_command,
    lemma_listing_without_day,
    lemma_push_keeps_order,
    lemma_remove_keeps_order,
    listed_archive,
    listed_archives,
    listed_session,
    listed_sessions,
    lookup_rejection,
    names_in_order,
    needs_day,
    record_rejection,
    restore_outcome,
    restore_rejection,
    restore_target,
    root_rejection,
    roots_rejection,
    DirEntry,
    FsAction,
    FsActionView,
    ManagerView,
    Outcome,
};
use crate::timestamp::{
    archive_date,
    archive_name,
    date_of,
    is_stamp,
    original_session,
    Timestamp,
};

verus! {

/// The manager: its settings, and the directories of sessions and of
/// archives that it knows.
pub struct CursorManager {
    config: Config,
    safe_root: String,
    sessions: Vec<DirEntry>,
    archives: Vec<DirEntry>,
}

impl View for CursorManager {
    type V = ManagerView;

    closed spec fn view(&self) -> ManagerView {
        ManagerView {
            config: self.config@,
            safe_root: self.safe_root@,
            sessions: dir_views(self.sessions@),
            archives: dir_views(self.archives@),
        }
    }
}

/// The views of a list of descriptors.
pub open spec fn session_views(list: Seq<SessionInfo>) -> Seq<SessionInfoView> {
    Seq::new(list.len(), |i: int| list[i]@)
}

/// The views of a list of archives' descriptions.
pub open spec fn archive_views(list: Seq<ArchiveInfo>) -> Seq<ArchiveInfoView> {
    Seq::new(list.len(), |i: int| list[i]@)
}

/// The error of an operation that needs the time, where the clock of the
/// machine gives none that can be written down.
pub open spec fn clock_failure() -> ErrorView {
    failure(ErrorKind::SystemMonitoring, "The system clock gives no usable time"@)
}

/// The error that says so.
fn clock_error() -> (e: CursorManagerError)
    ensures
        e@ == clock_failure(),
{
    CursorManagerError::SystemMonitoring {
        message: "The system clock gives no usable time".to_owned(),
    }
}

/// The error for a name that is empty.
fn empty_name_error() -> (e: CursorManagerError)
    ensures
        e@ == failure(ErrorKind::InvalidSessionName, "Session name cannot be empty"@),
{
    CursorManagerError::InvalidSessionName { message: "Session name cannot be empty".to_owned() }
}

/// The two actions that make a directory and fill it with what another holds.
fn copy_actions(from: &String, to: &String) -> (actions: Vec<FsAction>)
    ensures
        action_views(actions@) == seq![
            FsActionView::CreateDir { path: to@ },
            FsActionView::CopyContents { from: from@, to: to@ },
        ],
{
    let mut actions: Vec<FsAction> = Vec::new();
    actions.push(FsAction::CreateDir { path: to.clone() });
    actions.push(FsAction::CopyContents { from: from.clone(), to: to.clone() });
    assert(action_views(actions@) =~= seq![
        FsActionView::CreateDir { path: to@ },
        FsActionView::CopyContents { from: from@, to: to@ },
    ]);
    actions
}

/// The one action that removes a directory.
fn remove_actions(path: String) -> (actions: Vec<FsAction>)
    ensures
        action_views(actions@) == seq![FsActionView::RemoveTree { path: path@ }],
{
    let mut actions: Vec<FsAction> = Vec::new();
    actions.push(FsAction::RemoveTree { path });
    assert(action_views(actions@) =~= seq![FsActionView::RemoveTree { path: path@ }]);
    actions
}

/// The kind of the error that says that there is no such session, or no
/// such archive.
pub open spec fn missing_kind(archive: bool) -> ErrorKind {
    if archive {
        ErrorKind::ArchiveNotFound
    } else {
        ErrorKind::SessionNotFound
    }
}

/// The error that says that there is no such session, or no such archive.
fn missing_error(archive: bool, name: &str) -> (e: CursorManagerError)
    ensures
        e@ == failure(missing_kind(archive), name@),
{
    if archive {
        CursorManagerError::ArchiveNotFound { name: name.to_owned() }
    } else {
        CursorManagerError::SessionNotFound { name: name.to_owned() }
    }
}

/// Checks a root of the settings as a path.
fn check_root(root: &String, safe_root: &str) -> (r: Result<(), CursorManagerError>)
    ensures
        match r {
            Ok(_) => root_rejection(root@, safe_root@) is None,
            Err(e) => root_rejection(root@, safe_root@) == Some(e@),
        },
{
    if validate_path(root.as_str(), safe_root).is_err() {
        Err(CursorManagerError::PathSecurityViolation { path: root.clone() })
    } else {
        Ok(())
    }
}

/// Finds the directory of that name under a root: its position among the
/// entries and its path. The empty name and a name that resolves to the root
/// are the name of none; a name that leads out of the root is a violation.
fn locate(root: &str, entries: &Vec<DirEntry>, name: &str, archive: bool) -> (r: Result<
    (usize, String),
    CursorManagerError,
>)
    ensures
        match r {
            Ok(found) => {
                &&& lookup_rejection(root@, dir_views(entries@), name@, missing_kind(archive))
                    is None
                &&& found.0 < entries@.len()
                &&& is_first_index(dir_views(entries@), name@, found.0 as int)
                &&& index_of(dir_views(entries@), name@) == found.0
                &&& found.1@ == joined_path(root@, name@)
            },
            Err(e) => lookup_rejection(root@, dir_views(entries@), name@, missing_kind(archive))
                == Some(e@),
        },
{
    if name.is_empty() {
        return Err(missing_error(archive, name));
    }
    let (standing, path) = locate_entry(root, name);
    match standing {
        Standing::Outside => Err(
            CursorManagerError::PathSecurityViolation { path: name.to_owned() },
        ),
        Standing::Root => Err(missing_error(archive, name)),
        Standing::Inside => match find_entry(entries, name) {
            Some(at) => Ok((at, path)),
            None => Err(missing_error(archive, name)),
        },
    }
}

/// Takes a directory into a list; refuses an empty name and one that the
/// list holds already.
fn record_entry(entries: &mut Vec<DirEntry>, name: &str, descriptor: Option<SessionInfo>) -> (r:
    Result<(), CursorManagerError>)
    ensures
        names_in_order(dir_views(old(entries)@)) ==> names_in_order(dir_views(final(entries)@)),
        match r {
            Ok(_) => {
                &&& record_rejection(dir_views(old(entries)@), name@) is None
                &&& dir_views(final(entries)@).len() == dir_views(old(entries)@).len() + 1
                &&& dir_views(final(entries)@).drop_last() == dir_views(old(entries)@)
                &&& dir_views(final(entries)@).last().name == name@
                &&& dir_views(final(entries)@).last().content.descriptor == info_view(descriptor)
            },
            Err(e) => {
                &&& record_rejection(dir_views(old(entries)@), name@) == Some(e@)
                &&& dir_views(final(entries)@) == dir_views(old(entries)@)
            },
        },
{
    if name.is_empty() {
        return Err(empty_name_error());
    }
    if find_entry(entries, name).is_some() {
        return Err(CursorManagerError::AlreadyExists { name: name.to_owned() });
    }
    let ghost files: Map<Seq<char>, Seq<u8>> = arbitrary();
    entries.push(DirEntry { name: name.to_owned(), descriptor, files: Ghost(files) });
    proof {
        let before = dir_views(old(entries)@);
        let after = dir_views(entries@);
        assert(after.drop_last() =~= before);
        assert(after =~= before.push(after.last()));
        if names_in_order(before) {
            lemma_push_keeps_order(before, after.last());
        }
    }
    Ok(())
}

/// The views of a list of entries after one was appended.
proof fn lemma_views_push(before: Seq<DirEntry>, entry: DirEntry)
    ensures
        dir_views(before.push(entry)) == dir_views(before).push(entry@),
{
    assert(dir_views(before.push(entry)) =~= dir_views(before).push(entry@));
}

/// The views of a list of entries after one was removed.
proof fn lemma_views_remove(before: Seq<DirEntry>, at: int)
    requires
        0 <= at < before.len(),
    ensures
        dir_views(before.remove(at)) == dir_views(before).remove(at),
{
    assert(dir_views(before.remove(at)) =~= dir_views(before).remove(at));
}

impl CursorManager {
    /// A manager that knows no directory yet, with the given settings or,
    /// where none are given, those of the current user. Relative roots of the
    /// settings are judged against `safe_root`. The settings are taken as
    /// they are: they are judged before anything is done with them.
    pub fn new(config: Option<Config>, safe_root: &str) -> (manager: CursorManager)
        ensures
            manager@.sessions.len() == 0,
            manager@.archives.len() == 0,
            manager@.safe_root == safe_root@,
            manager@.wf(),
            match config {
                Some(c) => manager@.config == c@,
                None => exists|home: Seq<char>| manager@.config == #[trigger] default_config(home),
            },
    {
        let config = match config {
            Some(c) => c,
            None => Config::default(),
        };
        CursorManager {
            config,
            safe_root: safe_root.to_owned(),
            sessions: Vec::new(),
            archives: Vec::new(),
        }
    }

    /// The settings that this manager works with.
    pub fn config(&self) -> (config: &Config)
        ensures
            config@ == self@.config,
    {
        &self.config
    }

    /// The directory that relative roots of the settings are judged against.
    pub fn safe_root(&self) -> (root: &str)
        ensures
            root@ == self@.safe_root,
    {
        self.safe_root.as_str()
    }

    /// Checks the two roots of the settings as paths: a root that holds `..`
    /// or `~`, and a relative root that leaves the safe root, is refused. The
    /// sessions' root is judged first.
    pub fn check_roots(&self) -> (r: Result<(), CursorManagerError>)
        ensures
            match r {
                Ok(_) => roots_rejection(self@) is None,
                Err(e) => roots_rejection(self@) == Some(e@),
            },
    {
        match check_root(&self.config.profile_base, self.safe_root.as_str()) {
            Ok(_) => check_root(&self.config.archive_base, self.safe_root.as_str()),
            Err(e) => Err(e),
        }
    }

    /// What is to be done before the manager is used: the two roots are made
    /// where they are missing. Nothing is to be done where one of the roots
    /// is no safe path: the first such root is refused.
    pub fn startup_actions(&self) -> (r: Result<Vec<FsAction>, CursorManagerError>)
        ensures
            match r {
                Ok(actions) => {
                    &&& roots_rejection(self@) is None
                    &&& action_views(actions@) == seq![
                        FsActionView::CreateDir { path: self@.config.profile_base },
                        FsActionView::CreateDir { path: self@.config.archive_base },
                    ]
                },
                Err(e) => roots_rejection(self@) == Some(e@),
            },
    {
        match self.check_roots() {
            Ok(_) => {},
            Err(e) => {
                return Err(e);
            },
        }
        let mut actions: Vec<FsAction> = Vec::new();
        actions.push(FsAction::CreateDir { path: self.config.profile_base.clone() });
        actions.push(FsAction::CreateDir { path: self.config.archive_base.clone() });
        assert(action_views(actions@) =~= seq![
            FsActionView::CreateDir { path: self@.config.profile_base },
            FsActionView::CreateDir { path: self@.config.archive_base },
        ]);
        Ok(actions)
    }

    /// The number of sessions that the manager knows.
    pub fn session_count(&self) -> (n: usize)
        ensures
            n == self@.sessions.len(),
    {
        self.sessions.len()
    }

    /// Whether the manager knows a session of that name.
    pub fn has_session(&self, name: &str) -> (known: bool)
        ensures
            known == has_entry(self@.sessions, name@),
    {
        find_entry(&self.sessions, name).is_some()
    }

    /// Whether the manager knows an archive of that name.
    pub fn has_archive(&self, name: &str) -> (known: bool)
        ensures
            known == has_entry(self@.archives, name@),
    {
        find_entry(&self.archives, name).is_some()
    }

    /// Takes a session's directory that was found under the sessions' root
    /// into the manager's knowledge, with the descriptor that was read in it,
    /// if there was one. An empty name and a name that is known are refused.
    pub fn record_session(&mut self, name: &str, descriptor: Option<SessionInfo>) -> (r: Result<
        (),
        CursorManagerError,
    >)
        ensures
            old(self)@.wf() ==> final(self)@.wf(),
            final(self)@.config == old(self)@.config,
            final(self)@.safe_root == old(self)@.safe_root,
            final(self)@.archives == old(self)@.archives,
            match r {
                Ok(_) => {
                    &&& record_rejection(old(self)@.sessions, name@) is None
                    &&& final(self)@.sessions.len() == old(self)@.sessions.len() + 1
                    &&& final(self)@.sessions.drop_last() == old(self)@.sessions
                    &&& final(self)@.sessions.last().name == name@
                    &&& final(self)@.sessions.last().content.descriptor == info_view(descriptor)
                },
                Err(e) => {
                    &&& record_rejection(old(self)@.sessions, name@) == Some(e@)
                    &&& final(self)@.sessions == old(self)@.sessions
                },
            },
    {
        record_entry(&mut self.sessions, name, descriptor)
    }

    /// Takes an archive's directory that was found under the archives' root
    /// into the manager's knowledge, with the descriptor that was read in it,
    /// if there was one. An empty name and a name that is known are refused.
    pub fn record_archive(&mut self, name: &str, descriptor: Option<SessionInfo>) -> (r: Result<
        (),
        CursorManagerError,
    >)
        ensures
            old(self)@.wf() ==> final(self)@.wf(),
            final(self)@.config == old(self)@.config,
            final(self)@.safe_root == old(self)@.safe_root,
            final(self)@.sessions == old(self)@.sessions,
            match r {
                Ok(_) => {
                    &&& record_rejection(old(self)@.archives, name@) is None
                    &&& final(self)@.archives.len() == old(self)@.archives.len() + 1
                    &&& final(self)@.archives.drop_last() == old(self)@.archives
                    &&& final(self)@.archives.last().name == name@
                    &&& final(self)@.archives.last().content.descriptor == info_view(descriptor)
                },
                Err(e) => {
                    &&& record_rejection(old(self)@.archives, name@) == Some(e@)
                    &&& final(self)@.archives == old(self)@.archives
                },
            },
    {
        record_entry(&mut self.archives, name, descriptor)
    }

    /// What is told of every session, in the order of the directories, where
    /// `day` is the day of the listing.
    fn list_on(&self, day: &str) -> (list: Vec<SessionInfo>)
        ensures
            session_views(list@) == listed_sessions(self@, day@),
    {
        let mut list: Vec<SessionInfo> = Vec::new();
        let mut i: usize = 0;
        while i < self.sessions.len()
            invariant
                i <= self.sessions.len(),
                list@.len() == i,
                forall|j: int|
                    0 <= j < i ==> (#[trigger] list@[j])@ == listed_session(
                        self@.config.profile_base,
                        self@.sessions[j],
                        day@,
                    ),
            decreases self.sessions.len() - i,
        {
            let entry = &self.sessions[i];
            let path = join_path(self.config.profile_base.as_str(), entry.name.as_str());
            let info = match &entry.descriptor {
                Some(d) => SessionInfo {
                    name: entry.name.clone(),
                    path,
                    created: d.created.clone(),
                    electron_app: clone_app(&d.electron_app),
                },
                None => SessionInfo {
                    name: entry.name.clone(),
                    path,
                    created: day.to_owned(),
                    electron_app: None,
                },
            };
            assert(info@ == listed_session(
                self@.config.profile_base,
                self@.sessions[i as int],
                day@,
            ));
            list.push(info);
            i = i + 1;
        }
        assert(session_views(list@) =~= listed_sessions(self@, day@));
        list
    }

    /// Whether a session is without a descriptor, so that the day of the
    /// listing has to be told in its place.
    pub fn needs_day(&self) -> (needed: bool)
        ensures
            needed == needs_day(self@.sessions),
    {
        let mut i: usize = 0;
        while i < self.sessions.len()
            invariant
                i <= self.sessions.len(),
                forall|j: int|
                    0 <= j < i ==> (#[trigger] self@.sessions[j]).content.descriptor is Some,
            decreases self.sessions.len() - i,
        {
            if self.sessions[i].descriptor.is_none() {
                assert(self@.sessions[i as int].content.descriptor is None);
                return true;
            }
            assert(self@.sessions[i as int].content.descriptor is Some);
            i = i + 1;
        }
        false
    }

    /// What is told of every session, in the order of the directories, on
    /// the day of `now`.
    pub fn list_sessions_at(&self, now: &Timestamp) -> (list: Vec<SessionInfo>)
        ensures
            session_views(list@) == listed_sessions(self@, date_of(now@)),
    {
        let day = now.date();
        self.list_on(day.as_str())
    }

    /// What is told of every session today. Where every session has its
    /// descriptor, the answer needs no day and is always given. Otherwise the
    /// day is read from the clock of the machine, and nothing is told where
    /// the clock gives no usable time.
    pub fn list_sessions(&self) -> (r: Result<Vec<SessionInfo>, CursorManagerError>)
        ensures
            !needs_day(self@.sessions) ==> r is Ok,
            match r {
                Ok(list) => {
                    &&& exists|stamp: Seq<char>|
                        is_stamp(stamp) && session_views(list@) == #[trigger] listed_sessions(
                            self@,
                            date_of(stamp),
                        )
                    &&& !needs_day(self@.sessions) ==> forall|day: Seq<char>|
                        session_views(list@) == #[trigger] listed_sessions(self@, day)
                },
                Err(e) => needs_day(self@.sessions) && e@ == clock_failure(),
            },
    {
        if !self.needs_day() {
            let list = self.list_on("");
            proof {
                let stamp = "00000000-000000"@;
                reveal_strlit("00000000-000000");
                assert(is_stamp(stamp));
                lemma_listing_without_day(self@, ""@, date_of(stamp));
                assert forall|day: Seq<char>|
                    session_views(list@) == #[trigger] listed_sessions(self@, day) by {
                    lemma_listing_without_day(self@, ""@, day);
                }
                assert(is_stamp(stamp) && session_views(list@) == listed_sessions(
                    self@,
                    date_of(stamp),
                ));
            }
            return Ok(list);
        }
        match Timestamp::now() {
            Some(now) => {
                let list = self.list_sessions_at(&now);
                assert(is_stamp(now@) && session_views(list@) == listed_sessions(
                    self@,
                    date_of(now@),
                ));
                Ok(list)
            },
            None => Err(clock_error()),
        }
    }

    /// What is told of every archive, in the order of the directories.
    pub fn list_archives(&self) -> (list: Vec<ArchiveInfo>)
        ensures
            archive_views(list@) == listed_archives(self@),
    {
        let mut list: Vec<ArchiveInfo> = Vec::new();
        let mut i: usize = 0;
        while i < self.archives.len()
            invariant
                i <= self.archives.len(),
                list@.len() == i,
                forall|j: int|
                    0 <= j < i ==> (#[trigger] list@[j])@ == listed_archive(
                        self@.config.archive_base,
                        self@.archives[j],
                    ),
            decreases self.archives.len() - i,
        {
            let entry = &self.archives[i];
            let path = join_path(self.config.archive_base.as_str(), entry.name.as_str());
            let created = match archive_date(entry.name.as_str()) {
                Some(day) => day,
                None => "Unknown".to_owned(),
            };
            let session = match original_session(entry.name.as_str()) {
                Some(s) => s,
                None => "Unknown".to_owned(),
            };
            let info = ArchiveInfo {
                name: entry.name.clone(),
                path,
                created,
                original_session: session,
            };
            assert(info@ == listed_archive(self@.config.archive_base, self@.archives[i as int]));
            list.push(info);
            i = i + 1;
        }
        assert(archive_views(list@) =~= listed_archives(self@));
        list
    }

    /// A fresh locally administered hardware address, as text.
    pub fn random_mac(&self) -> (text: String)
        ensures
            is_mac_text(text@),
            exists|address: MacAddress|
                address.is_locally_administered() && text@ == #[trigger] mac_text(address.octets@),
    {
        let address = MacAddress::random();
        let text = address.to_text();
        assert(address.is_locally_administered() && text@ == mac_text(address.octets@));
        text
    }

    /// Begins the sequence that gives `address` to the named interface, or to
    /// the interface of the settings where none is named. Nothing has run
    /// yet: the run says what to run.
    pub fn spoof_mac_with(&self, interface: Option<String>, address: &MacAddress) -> (run: SpoofRun)
        ensures
            run@.interface == match interface {
                Some(name) => name@,
                None => self@.config.network_interface,
            },
            run@.address == mac_text(address.octets@),
            run@.outcomes == Seq::<StepOutcomeView>::empty(),
            run@.wf(),
    {
        let text = address.to_text();
        match &interface {
            Some(name) => SpoofRun::new(name.as_str(), text.as_str()),
            None => SpoofRun::new(self.config.network_interface.as_str(), text.as_str()),
        }
    }

    /// Begins the sequence that gives a fresh locally administered address to
    /// the named interface, or to the interface of the settings where none is
    /// named.
    pub fn spoof_mac(&self, interface: Option<String>) -> (run: SpoofRun)
        ensures
            run@.interface == match interface {
                Some(name) => name@,
                None => self@.config.network_interface,
            },
            is_mac_text(run@.address),
            exists|address: MacAddress|
                address.is_locally_administered() && run@.address == #[trigger] mac_text(
                    address.octets@,
                ),
            run@.outcomes == Seq::<StepOutcomeView>::empty(),
            run@.wf(),
    {
        let address = MacAddress::random();
        let run = self.spoof_mac_with(interface, &address);
        proof {
            crate::mac::lemma_mac_text_shape(address.octets@);
            assert(address.is_locally_administered() && run@.address == mac_text(address.octets@));
        }
        run
    }

    /// Decides whether the session `name` may be created, and gives its
    /// directory where it may.
    fn check_create(&self, name: &str) -> (r: Result<String, CursorManagerError>)
        ensures
            match r {
                Ok(dir) => create_rejection(self@, name@) is None && dir@ == self@.session_path(
                    name@,
                ),
                Err(e) => create_rejection(self@, name@) == Some(e@),
            },
    {
        if name.is_empty() {
            return Err(empty_name_error());
        }
        let dir = match resolve_entry(self.config.profile_base.as_str(), name) {
            Ok(path) => path,
            Err(e) => {
                return Err(e);
            },
        };
        if find_entry(&self.sessions, name).is_some() {
            return Err(CursorManagerError::AlreadyExists { name: name.to_owned() });
        }
        match check_root(&self.config.profile_base, self.safe_root.as_str()) {
            Ok(_) => Ok(dir),
            Err(e) => Err(e),
        }
    }

    /// Creates the session `name` on the day of `now`, bound to the given
    /// application if there is one. On success the manager knows the session,
    /// and the directory and its descriptor are to be written.
    pub fn create_session_at(
        &mut self,
        name: &str,
        electron_app: Option<ElectronApp>,
        now: &Timestamp,
    ) -> (r: Result<Outcome, CursorManagerError>)
        ensures
            old(self)@.wf() ==> final(self)@.wf(),
            match r {
                Ok(out) => {
                    &&& create_rejection(old(self)@, name@) is None
                    &&& final(self)@ == after_create(
                        old(self)@,
                        name@,
                        app_view(electron_app),
                        date_of(now@),
                    )
                    &&& out@ == create_outcome(
                        old(self)@,
                        name@,
                        app_view(electron_app),
                        date_of(now@),
                    )
                },
                Err(e) => {
                    &&& create_rejection(old(self)@, name@) == Some(e@)
                    &&& final(self)@ == old(self)@
                },
            },
    {
        let dir = match self.check_create(name) {
            Ok(path) => path,
            Err(e) => {
                return Err(e);
            },
        };
        let ghost app = app_view(electron_app);
        let info = SessionInfo {
            name: name.to_owned(),
            path: dir.clone(),
            created: now.date(),
            electron_app,
        };
        let mut message = "Session '".to_owned();
        message.append(name);
        message.append("' created at ");
        message.append(dir.as_str());
        let mut actions: Vec<FsAction> = Vec::new();
        actions.push(FsAction::CreateDir { path: dir.clone() });
        actions.push(
            FsAction::WriteDescriptor {
                path: join_path(dir.as_str(), "session.json"),
                info: info.clone(),
            },
        );
        let out = Outcome { message, actions };
        assert(out@.actions =~= create_outcome(old(self)@, name@, app, date_of(now@)).actions);
        let entry = DirEntry {
            name: name.to_owned(),
            descriptor: Some(info),
            files: Ghost(Map::empty()),
        };
        proof {
            lemma_views_push(self.sessions@, entry);
            if self@.wf() {
                lemma_push_keeps_order(self@.sessions, entry@);
            }
        }
        self.sessions.push(entry);
        assert(self@.sessions == after_create(old(self)@, name@, app, date_of(now@)).sessions);
        Ok(out)
    }

    /// Creates the session `name` today. Whether the session may be created
    /// is decided first, and needs no time: a refusal is the same on every
    /// day. Only then the day is read from the clock of the machine; where
    /// the clock gives no usable time, nothing is created.
    pub fn create_session(&mut self, name: &str, electron_app: Option<ElectronApp>) -> (r: Result<
        Outcome,
        CursorManagerError,
    >)
        ensures
            old(self)@.wf() ==> final(self)@.wf(),
            create_rejection(old(self)@, name@) is Some ==> r is Err,
            match r {
                Ok(out) => {
                    &&& create_rejection(old(self)@, name@) is None
                    &&& exists|stamp: Seq<char>|
                        {
                            &&& is_stamp(stamp)
                            &&& final(self)@ == #[trigger] after_create(
                                old(self)@,
                                name@,
                                app_view(electron_app),
                                date_of(stamp),
                            )
                            &&& out@ == create_outcome(
                                old(self)@,
                                name@,
                                app_view(electron_app),
                                date_of(stamp),
                            )
                        }
                },
                Err(e) => {
                    &&& final(self)@ == old(self)@
                    &&& match create_rejection(old(self)@, name@) {
                        Some(refusal) => e@ == refusal,
                        None => e@ == clock_failure(),
                    }
                },
            },
    {
        match self.check_create(name) {
            Ok(_) => {},
            Err(e) => {
                return Err(e);
            },
        }
        match Timestamp::now() {
            Some(now) => {
                let ghost app = app_view(electron_app);
                let r = self.create_session_at(name, electron_app, &now);
                proof {
                    if r is Ok {
                        assert(is_stamp(now@) && self@ == after_create(
                            old(self)@,
                            name@,
                            app,
                            date_of(now@),
                        ));
                    }
                }
                r
            },
            None => Err(clock_error()),
        }
    }

    /// Decides on the start of the session's application: the session must
    /// be known. The command runs the application of the session's
    /// descriptor, or the one of the settings where the session has none.
    pub fn launch_session(&self, session: &str, spoof_mac: bool, connect_vpn: bool) -> (r: Result<
        LaunchPlan,
        CursorManagerError,
    >)
        ensures
            match r {
                Ok(plan) => {
                    &&& known_session_rejection(self@, session@) is None
                    &&& plan@ == (LaunchPlanView {
                        session: session@,
                        command: launch_command(self@, session@),
                        spoof_first: spoof_mac,
                        vpn_prompt: connect_vpn,
                    })
                },
                Err(e) => known_session_rejection(self@, session@) == Some(e@),
            },
    {
        let (at, dir) = match locate(
            self.config.profile_base.as_str(),
            &self.sessions,
            session,
            false,
        ) {
            Ok(found) => found,
            Err(e) => {
                return Err(e);
            },
        };
        match check_root(&self.config.profile_base, self.safe_root.as_str()) {
            Ok(_) => {},
            Err(e) => {
                return Err(e);
            },
        }
        let entry = &self.sessions[at];
        let program = match &entry.descriptor {
            Some(d) => match &d.electron_app {
                Some(app) => app.exec_path.clone(),
                None => self.config.cursor_app.clone(),
            },
            None => self.config.cursor_app.clone(),
        };
        let mut data_dir = "--user-data-dir=".to_owned();
        data_dir.append(dir.as_str());
        let mut args: Vec<String> = Vec::new();
        args.push(data_dir);
        args.push("--new-window".to_owned());
        let command = Command { program, args };
        assert(command@.args =~= launch_command(self@, session@).args);
        assert(command@.program == launch_command(self@, session@).program);
        Ok(
            LaunchPlan {
                session: session.to_owned(),
                command,
                spoof_first: spoof_mac,
                vpn_prompt: connect_vpn,
            },
        )
    }

    /// Decides what of archiving the session needs no time: the session must
    /// be known, and the two roots must be safe paths. Gives the session's
    /// position and directory.
    fn check_archive_source(&self, session: &str) -> (r: Result<(usize, String), CursorManagerError>)
        ensures
            match r {
                Ok(found) => {
                    &&& archive_source_rejection(self@, session@) is None
                    &&& found.0 < self@.sessions.len()
                    &&& index_of(self@.sessions, session@) == found.0
                    &&& found.1@ == self@.session_path(session@)
                },
                Err(e) => archive_source_rejection(self@, session@) == Some(e@),
            },
    {
        let found = match locate(
            self.config.profile_base.as_str(),
            &self.sessions,
            session,
            false,
        ) {
            Ok(found) => found,
            Err(e) => {
                return Err(e);
            },
        };
        match self.check_roots() {
            Ok(_) => Ok(found),
            Err(e) => Err(e),
        }
    }

    /// Archives the session at the time `now`: the archive is named after
    /// the session and the time, and holds what the session holds.
    pub fn archive_session_at(&mut self, session: &str, now: &Timestamp) -> (r: Result<
        Outcome,
        CursorManagerError,
    >)
        ensures
            old(self)@.wf() ==> final(self)@.wf(),
            match r {
                Ok(out) => {
                    &&& archive_rejection(old(self)@, session@, now@) is None
                    &&& final(self)@ == after_archive(old(self)@, session@, now@)
                    &&& out@ == archive_outcome(old(self)@, session@, now@)
                },
                Err(e) => {
                    &&& archive_rejection(old(self)@, session@, now@) == Some(e@)
                    &&& final(self)@ == old(self)@
                },
            },
    {
        let (at, from) = match self.check_archive_source(session) {
            Ok(found) => found,
            Err(e) => {
                return Err(e);
            },
        };
        let name = archive_name(session, now);
        let to = match resolve_entry(self.config.archive_base.as_str(), name.as_str()) {
            Ok(path) => path,
            Err(e) => {
                return Err(e);
            },
        };
        if find_entry(&self.archives, name.as_str()).is_some() {
            return Err(CursorManagerError::AlreadyExists { name });
        }
        let mut message = "Session '".to_owned();
        message.append(session);
        message.append("' archived to '");
        message.append(name.as_str());
        message.append("'");
        let out = Outcome { message, actions: copy_actions(&from, &to) };
        let entry = copy_entry_as(&self.sessions[at], name.as_str());
        proof {
            lemma_views_push(self.archives@, entry);
            if self@.wf() {
                lemma_push_keeps_order(self@.archives, entry@);
            }
            assert(name@.len() > 0);
        }
        self.archives.push(entry);
        assert(self@.archives == after_archive(old(self)@, session@, now@).archives);
        Ok(out)
    }

    /// Archives the session now. What needs no time is decided first: a
    /// session that is not known, and a root that is no safe path, is refused
    /// without a look at the clock. Only then the time is read from the clock
    /// of the machine; where the clock gives no usable time, nothing is
    /// archived.
    pub fn archive_session(&mut self, session: &str) -> (r: Result<Outcome, CursorManagerError>)
        ensures
            old(self)@.wf() ==> final(self)@.wf(),
            archive_source_rejection(old(self)@, session@) is Some ==> r is Err,
            match r {
                Ok(out) => exists|stamp: Seq<char>|
                    {
                        &&& is_stamp(stamp)
                        &&& archive_rejection(old(self)@, session@, stamp) is None
                        &&& final(self)@ == #[trigger] after_archive(old(self)@, session@, stamp)
                        &&& out@ == archive_outcome(old(self)@, session@, stamp)
                    },
                Err(e) => {
                    &&& final(self)@ == old(self)@
                    &&& match archive_source_rejection(old(self)@, session@) {
                        Some(refusal) => e@ == refusal,
                        None => e@ == clock_failure() || exists|stamp: Seq<char>|
                            is_stamp(stamp) && #[trigger] archive_rejection(
                                old(self)@,
                                session@,
                                stamp,
                            ) == Some(e@),
                    }
                },
            },
    {
        match self.check_archive_source(session) {
            Ok(_) => {},
            Err(e) => {
                return Err(e);
            },
        }
        match Timestamp::now() {
            Some(now) => {
                let r = self.archive_session_at(session, &now);
                proof {
                    if r is Ok {
                        assert(is_stamp(now@) && self@ == after_archive(
                            old(self)@,
                            session@,
                            now@,
                        ));
                    } else {
                        assert(is_stamp(now@) && archive_rejection(old(self)@, session@, now@)
                            == Some(r->Err_0@));
                    }
                }
                r
            },
            None => Err(clock_error()),
        }
    }

    /// Restores the archive as a session: under the new name where one is
    /// given, else under the archive's name without its timestamp. The
    /// session holds what the archive holds; the archive stays.
    pub fn restore_archive(&mut self, archive: &str, new_session_name: Option<&str>) -> (r: Result<
        Outcome,
        CursorManagerError,
    >)
        ensures
            old(self)@.wf() ==> final(self)@.wf(),
            match r {
                Ok(out) => {
                    &&& restore_rejection(old(self)@, archive@, name_view(new_session_name))
                        is None
                    &&& restore_target(archive@, name_view(new_session_name)) matches Some(target)
                        && final(self)@ == after_restore(old(self)@, archive@, target) && out@
                        == restore_outcome(old(self)@, archive@, target)
                },
                Err(e) => {
                    &&& restore_rejection(old(self)@, archive@, name_view(new_session_name))
                        == Some(e@)
                    &&& final(self)@ == old(self)@
                },
            },
    {
        let (at, from) = match locate(
            self.config.archive_base.as_str(),
            &self.archives,
            archive,
            true,
        ) {
            Ok(found) => found,
            Err(e) => {
                return Err(e);
            },
        };
        let target: String = match new_session_name {
            Some(name) => name.to_owned(),
            None => match original_session(archive) {
                Some(name) => name,
                None => {
                    let mut message = "Cannot determine original session name from archive '"
                        .to_owned();
                    message.append(archive);
                    message.append("'");
                    return Err(CursorManagerError::InvalidSessionName { message });
                },
            },
        };
        assert(restore_target(archive@, name_view(new_session_name)) == Some(target@));
        if target.as_str().is_empty() {
            return Err(empty_name_error());
        }
        let to = match resolve_entry(self.config.profile_base.as_str(), target.as_str()) {
            Ok(path) => path,
            Err(e) => {
                return Err(e);
            },
        };
        if find_entry(&self.sessions, target.as_str()).is_some() {
            return Err(CursorManagerError::AlreadyExists { name: target });
        }
        match self.check_roots() {
            Ok(_) => {},
            Err(e) => {
                return Err(e);
            },
        }
        let mut message = "Archive '".to_owned();
        message.append(archive);
        message.append("' restored to session '");
        message.append(target.as_str());
        message.append("'");
        let out = Outcome { message, actions: copy_actions(&from, &to) };
        let entry = copy_entry_as(&self.archives[at], target.as_str());
        proof {
            lemma_views_push(self.sessions@, entry);
            if self@.wf() {
                lemma_push_keeps_order(self@.sessions, entry@);
            }
        }
        self.sessions.push(entry);
        assert(self@.sessions == after_restore(old(self)@, archive@, target@).sessions);
        Ok(out)
    }

    /// Deletes the session: the manager forgets it, and its directory is to
    /// be removed with all that it holds.
    pub fn delete_session(&mut self, session: &str) -> (r: Result<Outcome, CursorManagerError>)
        ensures
            old(self)@.wf() ==> final(self)@.wf(),
            match r {
                Ok(out) => {
                    &&& known_session_rejection(old(self)@, session@) is None
                    &&& final(self)@ == after_delete_session(old(self)@, session@)
                    &&& out@ == delete_session_outcome(old(self)@, session@)
                },
                Err(e) => {
                    &&& known_session_rejection(old(self)@, session@) == Some(e@)
                    &&& final(self)@ == old(self)@
                },
            },
    {
        let (at, dir) = match locate(
            self.config.profile_base.as_str(),
            &self.sessions,
            session,
            false,
        ) {
            Ok(found) => found,
            Err(e) => {
                return Err(e);
            },
        };
        match check_root(&self.config.profile_base, self.safe_root.as_str()) {
            Ok(_) => {},
            Err(e) => {
                return Err(e);
            },
        }
        let mut message = "Session '".to_owned();
        message.append(session);
        message.append("' deleted");
        let out = Outcome { message, actions: remove_actions(dir) };
        proof {
            lemma_views_remove(self.sessions@, at as int);
            if self@.wf() {
                lemma_remove_keeps_order(self@.sessions, at as int);
            }
        }
        self.sessions.remove(at);
        assert(self@.sessions == after_delete_session(old(self)@, session@).sessions);
        Ok(out)
    }

    /// Deletes the archive: the manager forgets it, and its directory is to
    /// be removed with all that it holds.
    pub fn delete_archive(&mut self, archive: &str) -> (r: Result<Outcome, CursorManagerError>)
        ensures
            old(self)@.wf() ==> final(self)@.wf(),
            match r {
                Ok(out) => {
                    &&& known_archive_rejection(old(self)@, archive@) is None
                    &&& final(self)@ == after_delete_archive(old(self)@, archive@)
                    &&& out@ == delete_archive_outcome(old(self)@, archive@)
                },
                Err(e) => {
                    &&& known_archive_rejection(old(self)@, archive@) == Some(e@)
                    &&& final(self)@ == old(self)@
                },
            },
    {
        let (at, dir) = match locate(
            self.config.archive_base.as_str(),
            &self.archives,
            archive,
            true,
        ) {
            Ok(found) => found,
            Err(e) => {
                return Err(e);
            },
        };
        match check_root(&self.config.archive_base, self.safe_root.as_str()) {
            Ok(_) => {},
            Err(e) => {
                return Err(e);
            },
        }
        let mut message = "Archive '".to_owned();
        message.append(archive);
        message.append("' deleted");
        let out = Outcome { message, actions: remove_actions(dir) };
        proof {
            lemma_views_remove(self.archives@, at as int);
            if self@.wf() {
                lemma_remove_keeps_order(self@.archives, at as int);
            }
        }
        self.archives.remove(at);
        assert(self@.archives == after_delete_archive(old(self)@, archive@).archives);
        Ok(out)
    }
}

/// The text of an optional name.
pub open spec fn name_view(name: Option<&str>) -> Option<Seq<char>> {
    match name {
        Some(n) => Some(n@),
        None => None,
    }
}

} // verus!
