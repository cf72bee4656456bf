//! What holds of the operations of the manager taken together.

use vstd::prelude::*;
use crate::error::ErrorKind;
use crate::path_safety::{entry_safe, leaves_root, path_violation, resolves_to_root};
use crate::session::{ElectronAppView, SessionInfoView};
use crate::store::{
    after_archive,
    after_create,
    after_delete_archive,
    after_delete_session,
    after_restore,
    archive_rejection,
    archive_source_rejection,
    create_rejection,
    failure,
    has_entry,
    index_of,
    is_first_index,
    known_archive_rejection,
    known_session_rejection,
    lemma_first_index_is_index_of,
    lemma_has_entry_gives_index,
    lemma_push_keeps_order,
    lemma_remove_keeps_order,
    listed_archives,
    listed_sessions,
    names_in_order,
    restore_rejection,
    roots_rejection,
    restore_target,
    DirView,
    ManagerView,
};
use crate::timestamp::{archive_name_of, is_stamp, lemma_archive_name_round_trip};

verus! {

/// Whether exactly one of the descriptors carries the name.
pub open spec fn listed_once(list: Seq<SessionInfoView>, name: Seq<char>) -> bool {
    exists|i: int|
        {
            &&& 0 <= i < list.len()
            &&& (#[trigger] list[i]).name == name
            &&& forall|j: int| 0 <= j < list.len() && (#[trigger] list[j]).name == name ==> j == i
        }
}

/// Whether none of the descriptors carries the name.
pub open spec fn not_listed(list: Seq<SessionInfoView>, name: Seq<char>) -> bool {
    forall|i: int| 0 <= i < list.len() ==> (#[trigger] list[i]).name != name
}

/// A directory appended under a new name is found at the last position.
pub proof fn lemma_pushed_entry_is_found(entries: Seq<DirView>, entry: DirView)
    requires
        !has_entry(entries, entry.name),
    ensures
        has_entry(entries.push(entry), entry.name),
        index_of(entries.push(entry), entry.name) == entries.len(),
        forall|other: Seq<char>|
            has_entry(entries, other) ==> has_entry(entries.push(entry), other) && index_of(
                entries.push(entry),
                other,
            ) == index_of(entries, other),
{
    let after = entries.push(entry);
    assert forall|j: int| 0 <= j < entries.len() implies (#[trigger] after[j]).name
        != entry.name by {
        assert(after[j] == entries[j]);
    }
    assert(after[entries.len() as int] == entry);
    assert(is_first_index(after, entry.name, entries.len() as int));
    lemma_first_index_is_index_of(after, entry.name, entries.len() as int);
    assert forall|other: Seq<char>| has_entry(entries, other) implies has_entry(after, other)
        && index_of(after, other) == index_of(entries, other) by {
        lemma_has_entry_gives_index(entries, other);
        let k = index_of(entries, other);
        assert(after[k] == entries[k]);
        assert forall|j: int| 0 <= j < k implies (#[trigger] after[j]).name != other by {
            assert(after[j] == entries[j]);
        }
        assert(is_first_index(after, other, k));
        lemma_first_index_is_index_of(after, other, k);
    }
}

/// After the directory of a name was removed, no directory has that name,
/// and every other directory is still there.
pub proof fn lemma_removed_entry_is_gone(entries: Seq<DirView>, name: Seq<char>)
    requires
        names_in_order(entries),
        has_entry(entries, name),
    ensures
        !has_entry(entries.remove(index_of(entries, name)), name),
        forall|other: Seq<char>|
            other != name ==> (has_entry(entries, other) <==> has_entry(
                entries.remove(index_of(entries, name)),
                other,
            )),
{
    lemma_has_entry_gives_index(entries, name);
    let k = index_of(entries, name);
    let after = entries.remove(k);
    assert forall|j: int| 0 <= j < after.len() implies (#[trigger] after[j]).name != name by {
        if j < k {
            assert(after[j] == entries[j]);
        } else {
            assert(after[j] == entries[j + 1]);
        }
    }
    assert forall|other: Seq<char>| other != name implies (has_entry(entries, other) <==> has_entry(
        after,
        other,
    )) by {
        if has_entry(entries, other) {
            let w = choose|i: int| 0 <= i < entries.len() && (#[trigger] entries[i]).name == other;
            if w < k {
                assert(after[w] == entries[w]);
            } else {
                assert(after[w - 1] == entries[w]);
            }
        }
        if has_entry(after, other) {
            let w = choose|i: int| 0 <= i < after.len() && (#[trigger] after[i]).name == other;
            if w < k {
                assert(after[w] == entries[w]);
            } else {
                assert(after[w] == entries[w + 1]);
            }
        }
    }
}

/// After a session was created, the list of sessions holds exactly one
/// entry of its name, whatever the day of the listing, and creating a session
/// of that name again fails because the name is taken.
pub proof fn lemma_create_then_list(
    m: ManagerView,
    name: Seq<char>,
    app: Option<ElectronAppView>,
    today: Seq<char>,
    day: Seq<char>,
)
    requires
        m.wf(),
        create_rejection(m, name) is None,
    ensures
        after_create(m, name, app, today).wf(),
        listed_once(listed_sessions(after_create(m, name, app, today), day), name),
        create_rejection(after_create(m, name, app, today), name) == Some(
            failure(ErrorKind::AlreadyExists, name),
        ),
{
    let after = after_create(m, name, app, today);
    let entry = after.sessions.last();
    assert(after.sessions =~= m.sessions.push(entry));
    lemma_push_keeps_order(m.sessions, entry);
    lemma_pushed_entry_is_found(m.sessions, entry);
    let list = listed_sessions(after, day);
    let last = m.sessions.len() as int;
    assert(list[last].name == name);
    assert forall|j: int| 0 <= j < list.len() && (#[trigger] list[j]).name == name implies j
        == last by {
        if j < last {
            assert(after.sessions[j] == m.sessions[j]);
            assert(m.sessions[j].name == name);
        }
    }
}

/// After a session was deleted, the list of sessions holds no entry of its
/// name, whatever the day of the listing, and deleting it again fails because
/// there is no such session.
pub proof fn lemma_delete_session_then_list(m: ManagerView, name: Seq<char>, day: Seq<char>)
    requires
        m.wf(),
        known_session_rejection(m, name) is None,
    ensures
        after_delete_session(m, name).wf(),
        not_listed(listed_sessions(after_delete_session(m, name), day), name),
        known_session_rejection(after_delete_session(m, name), name) == Some(
            failure(ErrorKind::SessionNotFound, name),
        ),
{
    lemma_has_entry_gives_index(m.sessions, name);
    lemma_removed_entry_is_gone(m.sessions, name);
    lemma_remove_keeps_order(m.sessions, index_of(m.sessions, name));
    let after = after_delete_session(m, name);
    let list = listed_sessions(after, day);
    assert forall|i: int| 0 <= i < list.len() implies (#[trigger] list[i]).name != name by {
        assert(after.sessions[i].name == list[i].name);
    }
}

/// After an archive was deleted, the list of archives holds no entry of its
/// name, and deleting it again fails because there is no such archive.
pub proof fn lemma_delete_archive_then_list(m: ManagerView, name: Seq<char>)
    requires
        m.wf(),
        known_archive_rejection(m, name) is None,
    ensures
        after_delete_archive(m, name).wf(),
        forall|i: int|
            0 <= i < listed_archives(after_delete_archive(m, name)).len() ==> (
            #[trigger] listed_archives(after_delete_archive(m, name))[i]).name != name,
        known_archive_rejection(after_delete_archive(m, name), name) == Some(
            failure(ErrorKind::ArchiveNotFound, name),
        ),
{
    lemma_has_entry_gives_index(m.archives, name);
    lemma_removed_entry_is_gone(m.archives, name);
    lemma_remove_keeps_order(m.archives, index_of(m.archives, name));
    let after = after_delete_archive(m, name);
    let list = listed_archives(after);
    assert forall|i: int| 0 <= i < list.len() implies (#[trigger] list[i]).name != name by {
        assert(after.archives[i].name == list[i].name);
    }
}

/// Deleting a session or an archive that is not there fails because it is
/// not found: so for the empty name, for a name that resolves to the root
/// itself, and for every other name that does not lead out of the root. The
/// same holds of archiving a session and of restoring an archive that is not
/// there.
pub proof fn lemma_absent_is_not_found(
    m: ManagerView,
    name: Seq<char>,
    stamp: Seq<char>,
    new_name: Option<Seq<char>>,
)
    ensures
        name.len() == 0 || (!leaves_root(m.config.profile_base, name) && (resolves_to_root(
            m.config.profile_base,
            name,
        ) || !has_entry(m.sessions, name))) ==> {
            &&& known_session_rejection(m, name) == Some(
                failure(ErrorKind::SessionNotFound, name),
            )
            &&& archive_source_rejection(m, name) == Some(
                failure(ErrorKind::SessionNotFound, name),
            )
            &&& archive_rejection(m, name, stamp) == Some(
                failure(ErrorKind::SessionNotFound, name),
            )
        },
        name.len() == 0 || (!leaves_root(m.config.archive_base, name) && (resolves_to_root(
            m.config.archive_base,
            name,
        ) || !has_entry(m.archives, name))) ==> {
            &&& known_archive_rejection(m, name) == Some(
                failure(ErrorKind::ArchiveNotFound, name),
            )
            &&& restore_rejection(m, name, new_name) == Some(
                failure(ErrorKind::ArchiveNotFound, name),
            )
        },
{
}

/// The archive of a session made at a time is named after the session and
/// the time, and holds what the session holds. While the session exists,
/// restoring the archive under no new name fails because the name is taken.
/// Once the session is deleted, restoring succeeds: the session is there
/// again under its own name, with all that it held when it was archived, and
/// the archive is still there.
pub proof fn lemma_archive_delete_restore(m: ManagerView, session: Seq<char>, stamp: Seq<char>)
    requires
        m.wf(),
        is_stamp(stamp),
        archive_rejection(m, session, stamp) is None,
    ensures
        ({
            let archive = archive_name_of(session, stamp);
            let archived = after_archive(m, session, stamp);
            let deleted = after_delete_session(archived, session);
            let restored = after_restore(deleted, archive, session);
            &&& archived.wf()
            &&& has_entry(archived.archives, archive)
            &&& archived.archive_content(archive) == m.session_content(session)
            &&& archived.sessions == m.sessions
            &&& restore_target(archive, None) == Some(session)
            &&& restore_rejection(archived, archive, None) == Some(
                failure(ErrorKind::AlreadyExists, session),
            )
            &&& known_session_rejection(archived, session) is None
            &&& !has_entry(deleted.sessions, session)
            &&& restore_rejection(deleted, archive, None) is None
            &&& restored.wf()
            &&& has_entry(restored.sessions, session)
            &&& restored.session_content(session) == m.session_content(session)
            &&& has_entry(restored.archives, archive)
            &&& restored.archive_content(archive) == m.session_content(session)
        }),
{
    let archive = archive_name_of(session, stamp);
    let archived = after_archive(m, session, stamp);
    let deleted = after_delete_session(archived, session);
    let restored = after_restore(deleted, archive, session);
    lemma_archive_name_round_trip(session, stamp);
    lemma_has_entry_gives_index(m.sessions, session);
    assert(session.len() > 0);
    let copy = DirView { name: archive, content: m.session_content(session) };
    assert(archived.archives =~= m.archives.push(copy));
    lemma_push_keeps_order(m.archives, copy);
    lemma_pushed_entry_is_found(m.archives, copy);
    lemma_removed_entry_is_gone(archived.sessions, session);
    lemma_remove_keeps_order(archived.sessions, index_of(archived.sessions, session));
    assert(deleted.archives == archived.archives);
    let back = DirView { name: session, content: deleted.archive_content(archive) };
    assert(restored.sessions =~= deleted.sessions.push(back));
    lemma_push_keeps_order(deleted.sessions, back);
    lemma_pushed_entry_is_found(deleted.sessions, back);
}

/// Restoring under a new name looks that name up among the sessions and no
/// other: it fails because a name is taken exactly where the new name is
/// taken, whether or not a session of the archive's own name exists. Where
/// the new name is free, only a root that is no safe path stands in the way.
pub proof fn lemma_restore_checks_new_name_only(
    m: ManagerView,
    archive: Seq<char>,
    new_name: Seq<char>,
)
    requires
        known_archive_rejection(m, archive) is None,
        new_name.len() > 0,
        entry_safe(m.config.profile_base, new_name),
    ensures
        has_entry(m.sessions, new_name) ==> restore_rejection(m, archive, Some(new_name)) == Some(
            failure(ErrorKind::AlreadyExists, new_name),
        ),
        !has_entry(m.sessions, new_name) ==> restore_rejection(m, archive, Some(new_name))
            == roots_rejection(m),
        restore_rejection(m, archive, Some(new_name)) matches Some(e) && e.kind
            == ErrorKind::AlreadyExists ==> has_entry(m.sessions, new_name),
{
}

/// Two managers that differ in their sessions only, and agree on whether the
/// new name is taken, give the same answer to a restore under that name.
pub proof fn lemma_restore_ignores_other_sessions(
    first: ManagerView,
    second: ManagerView,
    archive: Seq<char>,
    new_name: Seq<char>,
)
    requires
        first.config == second.config,
        first.safe_root == second.safe_root,
        first.archives == second.archives,
        has_entry(first.sessions, new_name) == has_entry(second.sessions, new_name),
    ensures
        restore_rejection(first, archive, Some(new_name)) == restore_rejection(
            second,
            archive,
            Some(new_name),
        ),
{
}

/// No operation goes ahead with a name that leads out of its root. A name
/// that holds `..` or `~`, and one that resolves outside the root, relative
/// or absolute, is refused as a violation by every operation that is given
/// it; the manager stays as it is and nothing is to be done in the file
/// system.
pub proof fn lemma_unsafe_names_are_refused(
    m: ManagerView,
    name: Seq<char>,
    stamp: Seq<char>,
    new_name: Option<Seq<char>>,
)
    requires
        name.len() > 0,
    ensures
        leaves_root(m.config.profile_base, name) ==> {
            &&& create_rejection(m, name) == Some(
                failure(ErrorKind::PathSecurityViolation, name),
            )
            &&& archive_rejection(m, name, stamp) == Some(
                failure(ErrorKind::PathSecurityViolation, name),
            )
            &&& known_session_rejection(m, name) == Some(
                failure(ErrorKind::PathSecurityViolation, name),
            )
        },
        leaves_root(m.config.archive_base, name) ==> {
            &&& known_archive_rejection(m, name) == Some(
                failure(ErrorKind::PathSecurityViolation, name),
            )
            &&& restore_rejection(m, name, new_name) == Some(
                failure(ErrorKind::PathSecurityViolation, name),
            )
        },
        !entry_safe(m.config.profile_base, name) ==> create_rejection(m, name) == Some(
            failure(ErrorKind::PathSecurityViolation, name),
        ),
{
}

/// No operation goes ahead under a root that is no safe path: a root of the
/// settings that holds `..` or `~`, or that is relative and leaves the safe
/// root, makes every operation that would act under it fail, and leaves
/// nothing to be done before the manager is used.
pub proof fn lemma_unsafe_roots_are_refused(
    m: ManagerView,
    name: Seq<char>,
    stamp: Seq<char>,
    new_name: Option<Seq<char>>,
)
    ensures
        path_violation(m.config.profile_base, m.safe_root) is Some ==> {
            &&& roots_rejection(m) == Some(
                failure(ErrorKind::PathSecurityViolation, m.config.profile_base),
            )
            &&& create_rejection(m, name) is Some
            &&& known_session_rejection(m, name) is Some
            &&& archive_rejection(m, name, stamp) is Some
            &&& restore_rejection(m, name, new_name) is Some
        },
        path_violation(m.config.archive_base, m.safe_root) is Some ==> {
            &&& roots_rejection(m) is Some
            &&& known_archive_rejection(m, name) is Some
            &&& archive_rejection(m, name, stamp) is Some
            &&& restore_rejection(m, name, new_name) is Some
        },
{
}

/// An operation that goes ahead has checked every name and every root that
/// a path of its actions is made of: each name is safe under the root it is
/// joined to, and each such root is a safe path.
pub proof fn lemma_accepted_names_are_safe(
    m: ManagerView,
    name: Seq<char>,
    stamp: Seq<char>,
    new_name: Option<Seq<char>>,
)
    ensures
        create_rejection(m, name) is None ==> entry_safe(m.config.profile_base, name)
            && path_violation(m.config.profile_base, m.safe_root) is None,
        known_session_rejection(m, name) is None ==> entry_safe(m.config.profile_base, name)
            && path_violation(m.config.profile_base, m.safe_root) is None,
        known_archive_rejection(m, name) is None ==> entry_safe(m.config.archive_base, name)
            && path_violation(m.config.archive_base, m.safe_root) is None,
        archive_rejection(m, name, stamp) is None ==> entry_safe(m.config.profile_base, name)
            && entry_safe(m.config.archive_base, archive_name_of(name, stamp)) && roots_rejection(
            m,
        ) is None,
        restore_rejection(m, name, new_name) is None ==> entry_safe(m.config.archive_base, name)
            && restore_target(name, new_name) is Some && entry_safe(
            m.config.profile_base,
            restore_target(name, new_name)->Some_0,
        ) && roots_rejection(m) is None,
        roots_rejection(m) is None <==> path_violation(m.config.profile_base, m.safe_root) is None
            && path_violation(m.config.archive_base, m.safe_root) is None,
{
}

/// After a directory was removed, every other directory that was there is
/// still there with what it held.
pub proof fn lemma_remove_keeps_others(entries: Seq<DirView>, name: Seq<char>, other: Seq<char>)
    requires
        has_entry(entries, name),
        has_entry(entries, other),
        other != name,
    ensures
        has_entry(entries.remove(index_of(entries, name)), other),
        entries.remove(index_of(entries, name))[index_of(
            entries.remove(index_of(entries, name)),
            other,
        )].content == entries[index_of(entries, other)].content,
{
    lemma_has_entry_gives_index(entries, name);
    lemma_has_entry_gives_index(entries, other);
    let k = index_of(entries, name);
    let j = index_of(entries, other);
    let after = entries.remove(k);
    let at = if j < k {
        j
    } else {
        j - 1
    };
    assert(after[at] == entries[j]);
    assert forall|i: int| 0 <= i < at implies (#[trigger] after[i]).name != other by {
        if i < k {
            assert(after[i] == entries[i]);
        } else {
            assert(after[i] == entries[i + 1]);
        }
    }
    assert(is_first_index(after, other, at));
    lemma_first_index_is_index_of(after, other, at);
}

/// An archive is written once: whatever is done afterwards, an archive that
/// is still there holds what it held. Creating, archiving, restoring and
/// deleting a session leave every archive as it was; archiving adds one
/// under a new name; deleting an archive takes that one away and no other.
pub proof fn lemma_archives_are_write_once(
    m: ManagerView,
    archive: Seq<char>,
    name: Seq<char>,
    app: Option<ElectronAppView>,
    today: Seq<char>,
    stamp: Seq<char>,
    target: Seq<char>,
)
    requires
        has_entry(m.archives, archive),
    ensures
        after_create(m, name, app, today).archives == m.archives,
        after_delete_session(m, name).archives == m.archives,
        after_restore(m, name, target).archives == m.archives,
        archive_rejection(m, name, stamp) is None ==> has_entry(
            after_archive(m, name, stamp).archives,
            archive,
        ) && after_archive(m, name, stamp).archive_content(archive) == m.archive_content(archive),
        known_archive_rejection(m, name) is None && name != archive ==> has_entry(
            after_delete_archive(m, name).archives,
            archive,
        ) && after_delete_archive(m, name).archive_content(archive) == m.archive_content(archive),
{
    if archive_rejection(m, name, stamp) is None {
        let copy = DirView { name: archive_name_of(name, stamp), content: m.session_content(name) };
        assert(after_archive(m, name, stamp).archives =~= m.archives.push(copy));
        lemma_pushed_entry_is_found(m.archives, copy);
        assert(index_of(m.archives.push(copy), archive) == index_of(m.archives, archive));
        lemma_has_entry_gives_index(m.archives, archive);
    }
    if known_archive_rejection(m, name) is None && name != archive {
        lemma_remove_keeps_others(m.archives, name, archive);
    }
}

} // verus!
