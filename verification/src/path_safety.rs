//! The checks that keep every path of the library inside the directory it
//! belongs to. No operation touches a directory whose path has not passed
//! them.

use vstd::prelude::*;
use vstd::string::*;
use crate::error::{CursorManagerError, ErrorKind, ErrorView};
use crate::text::{chars_of, contains_char, has_char, same_text};

verus! {

/// Whether `s` holds two dots next to each other.
pub open spec fn has_dot_dot(s: Seq<char>) -> bool {
    exists|i: int| 0 <= i && i + 1 < s.len() && s[i] == '.' && #[trigger] s[i + 1] == '.'
}

/// Whether `s` holds a step to a parent directory (`..`) or the shorthand of
/// a home directory (`~`).
pub open spec fn has_traversal(s: Seq<char>) -> bool {
    has_dot_dot(s) || has_char(s, '~')
}

/// `child` adjoined to `base`, as `std::path::Path::join` gives it.
pub uninterp spec fn joined_path(base: Seq<char>, child: Seq<char>) -> Seq<char>;

/// `path` in its shortest lexical form, as `path_clean::clean` gives it.
pub uninterp spec fn cleaned_path(path: Seq<char>) -> Seq<char>;

/// Whether the components of `base` begin those of `path`, as
/// `std::path::Path::starts_with` tells.
pub uninterp spec fn path_within(path: Seq<char>, base: Seq<char>) -> bool;

/// Whether `path` is relative, as `std::path::Path::is_relative` tells.
pub uninterp spec fn path_is_relative(path: Seq<char>) -> bool;

/// `std::path::Path::join`: the path `base` with `child` adjoined. The result
/// is named, not described; it depends on the two texts alone.
#[verifier::external_body]
pub(crate) fn join_path(base: &str, child: &str) -> (joined: String)
    ensures
        joined@ == joined_path(base@, child@),
{
    std::path::Path::new(base).join(child).to_string_lossy().into_owned()
}

/// `path_clean::clean`: the path without `.` components, repeated separators
/// and, where a component precedes them, `..` components. The work is
/// lexical: the file system is not asked. The result is named, not described.
#[verifier::external_body]
pub(crate) fn clean_path(path: &str) -> (cleaned: String)
    ensures
        cleaned@ == cleaned_path(path@),
{
    path_clean::clean(path).to_string_lossy().into_owned()
}

/// `std::path::Path::starts_with`: whether `base` is a prefix of `path`,
/// whole components only. The answer is named, not described.
#[verifier::external_body]
pub(crate) fn starts_with_path(path: &str, base: &str) -> (within: bool)
    ensures
        within == path_within(path@, base@),
{
    std::path::Path::new(path).starts_with(base)
}

/// `std::path::Path::is_relative`: whether the path does not start at a root.
/// The answer is named, not described.
#[verifier::external_body]
pub(crate) fn is_relative_path(path: &str) -> (relative: bool)
    ensures
        relative == path_is_relative(path@),
{
    std::path::Path::new(path).is_relative()
}

/// Why a path was refused.
#[derive(Clone, Copy, Debug, PartialEq, Eq, Structural)]
pub enum PathViolation {
    /// The path holds `..` or `~`.
    Traversal,
    /// The path, resolved against the safe root, lies outside that root.
    Escape,
}

/// Whether `input`, resolved against `root`, stays inside `root`: the
/// cleaned form of the two joined begins with the cleaned form of `root`.
pub open spec fn stays_within(root: Seq<char>, input: Seq<char>) -> bool {
    path_within(cleaned_path(joined_path(root, input)), cleaned_path(root))
}

/// Whether `input`, resolved against `root`, is `root` itself.
pub open spec fn resolves_to_root(root: Seq<char>, input: Seq<char>) -> bool {
    cleaned_path(joined_path(root, input)) == cleaned_path(root)
}

/// What is wrong with `path` as a directory that the configuration names:
/// it holds `..` or `~`, or it is relative and leaves `safe_root`.
pub open spec fn path_violation(path: Seq<char>, safe_root: Seq<char>) -> Option<PathViolation> {
    if has_traversal(path) {
        Some(PathViolation::Traversal)
    } else if path_is_relative(path) && !stays_within(safe_root, path) {
        Some(PathViolation::Escape)
    } else {
        None
    }
}

/// Whether `name` leads out of `root`: it holds `..` or `~`, or resolved
/// against `root` it lies outside `root`. This holds of relative and of
/// absolute names.
pub open spec fn leaves_root(root: Seq<char>, name: Seq<char>) -> bool {
    has_traversal(name) || !stays_within(root, name)
}

/// Where a name stands with regard to a root.
#[derive(Clone, Copy, Debug, PartialEq, Eq, Structural)]
pub enum Standing {
    /// The name leads out of the root.
    Outside,
    /// The name resolves to the root itself.
    Root,
    /// The name resolves to a path below the root.
    Inside,
}

/// Where `name` stands with regard to `root`.
pub open spec fn standing_of(root: Seq<char>, name: Seq<char>) -> Standing {
    if leaves_root(root, name) {
        Standing::Outside
    } else if resolves_to_root(root, name) {
        Standing::Root
    } else {
        Standing::Inside
    }
}

/// Whether `name` may be used as the name of an entry under `root`: it holds
/// neither `..` nor `~`, and resolved against `root` it lies inside `root`
/// and is not `root` itself. This holds of relative and of absolute names.
pub open spec fn entry_safe(root: Seq<char>, name: Seq<char>) -> bool {
    &&& !has_traversal(name)
    &&& stays_within(root, name)
    &&& !resolves_to_root(root, name)
}

impl PathViolation {
    /// The short code of the violation.
    pub fn code(&self) -> (code: &'static str)
        ensures
            code@ == match *self {
                PathViolation::Traversal => "path_traversal"@,
                PathViolation::Escape => "path_escape"@,
            },
    {
        match self {
            PathViolation::Traversal => "path_traversal",
            PathViolation::Escape => "path_escape",
        }
    }
}

/// Tells whether `s` holds two dots next to each other.
pub fn contains_dot_dot(s: &str) -> (found: bool)
    ensures
        found == has_dot_dot(s@),
{
    let v = chars_of(s);
    if v.len() < 2 {
        return false;
    }
    let mut i: usize = 0;
    while i + 1 < v.len()
        invariant
            v.len() >= 2,
            i + 1 <= v.len(),
            v@ == s@,
            forall|j: int| 0 <= j < i ==> !(s@[j] == '.' && #[trigger] s@[j + 1] == '.'),
        decreases v.len() - i,
    {
        if v[i] == '.' && v[i + 1] == '.' {
            return true;
        }
        i = i + 1;
    }
    false
}

/// Tells whether `s` holds `..` or `~`.
pub fn contains_traversal(s: &str) -> (found: bool)
    ensures
        found == has_traversal(s@),
{
    contains_dot_dot(s) || contains_char(s, '~')
}

/// The verdict on a path of which the three findings are known: whether it
/// holds `..` or `~`, whether it is relative, and whether it stays inside the
/// safe root once resolved.
pub fn judge_path(traversal: bool, relative: bool, within: bool) -> (verdict: Result<
    (),
    PathViolation,
>)
    ensures
        verdict == if traversal {
            Err::<(), PathViolation>(PathViolation::Traversal)
        } else if relative && !within {
            Err::<(), PathViolation>(PathViolation::Escape)
        } else {
            Ok::<(), PathViolation>(())
        },
{
    if traversal {
        Err(PathViolation::Traversal)
    } else if relative && !within {
        Err(PathViolation::Escape)
    } else {
        Ok(())
    }
}

/// Tells whether `input`, resolved against `root`, stays inside `root`.
pub fn resolves_within(root: &str, input: &str) -> (within: bool)
    ensures
        within == stays_within(root@, input@),
{
    let joined = join_path(root, input);
    let resolved = clean_path(joined.as_str());
    let base = clean_path(root);
    starts_with_path(resolved.as_str(), base.as_str())
}

/// Checks a directory that the configuration names. A path that holds `..`
/// or `~` is refused, relative or absolute; a relative path is resolved
/// against `safe_root` and refused where it leaves it.
pub fn validate_path(path: &str, safe_root: &str) -> (verdict: Result<(), PathViolation>)
    ensures
        match verdict {
            Ok(_) => path_violation(path@, safe_root@) is None,
            Err(v) => path_violation(path@, safe_root@) == Some(v),
        },
{
    let traversal = contains_traversal(path);
    let relative = is_relative_path(path);
    let within = resolves_within(safe_root, path);
    judge_path(traversal, relative, within)
}

/// The standing of `name` under `root` where the three findings are known:
/// whether the name holds `..` or `~`, whether it stays inside the root once
/// resolved, and whether it resolves to the root itself.
pub fn judge_standing(traversal: bool, within: bool, is_root: bool) -> (standing: Standing)
    ensures
        standing == if traversal || !within {
            Standing::Outside
        } else if is_root {
            Standing::Root
        } else {
            Standing::Inside
        },
{
    if traversal || !within {
        Standing::Outside
    } else if is_root {
        Standing::Root
    } else {
        Standing::Inside
    }
}

/// Where `name` stands under `root`, and the path of the two joined, as
/// given.
pub fn locate_entry(root: &str, name: &str) -> (found: (Standing, String))
    ensures
        found.0 == standing_of(root@, name@),
        found.1@ == joined_path(root@, name@),
{
    let traversal = contains_traversal(name);
    let joined = join_path(root, name);
    let resolved = clean_path(joined.as_str());
    let base = clean_path(root);
    let within = starts_with_path(resolved.as_str(), base.as_str());
    let is_root = same_text(resolved.as_str(), base.as_str());
    (judge_standing(traversal, within, is_root), joined)
}

/// The path of the entry `name` under `root`, where the name is safe; the
/// refusal of the name where it is not. The path is `name` adjoined to
/// `root`, as given.
pub fn resolve_entry(root: &str, name: &str) -> (resolved: Result<String, CursorManagerError>)
    ensures
        match resolved {
            Ok(path) => entry_safe(root@, name@) && path@ == joined_path(root@, name@),
            Err(e) => !entry_safe(root@, name@) && e@ == (ErrorView {
                kind: ErrorKind::PathSecurityViolation,
                detail: name@,
            }),
        },
{
    let (standing, joined) = locate_entry(root, name);
    match standing {
        Standing::Inside => Ok(joined),
        _ => Err(CursorManagerError::PathSecurityViolation { path: name.to_owned() }),
    }
}

/// A name that holds `..` or `~` is never safe, under whatever root and in
/// relative or absolute form; nor is one that resolves outside the root.
pub proof fn lemma_traversal_is_never_safe(root: Seq<char>, name: Seq<char>)
    ensures
        has_dot_dot(name) ==> !entry_safe(root, name),
        has_char(name, '~') ==> !entry_safe(root, name),
        !stays_within(root, name) ==> !entry_safe(root, name),
        has_traversal(name) ==> path_violation(name, root) == Some(PathViolation::Traversal),
        entry_safe(root, name) <==> standing_of(root, name) == Standing::Inside,
        leaves_root(root, name) <==> standing_of(root, name) == Standing::Outside,
{
}

} // verus!
