//! Workspace isolation: the declared context files are copied into an
//! OS temp directory (`a2a-<32 hex>`) that cursor-agent gets as its
//! workspace. Which entries are copied, and what is skipped, is decided
//! here; the copying itself is the program's part.
use vstd::prelude::*;
use crate::{A2aError, ErrView, other_err};
use crate::paths::{PathComponent, joined, path_join, has_parent_segment, path_components, path_is_absolute, rooted, simple_path};
use crate::runner::{is_lower_hex, is_skipped_dir, new_uuid_simple, random_msg, skip_dir_spec};
use crate::runner::history::is_a2a_temp_name_spec;
use crate::text::is_ascii_hex;

verus! {

/// A mirror directory in use by one run; the program removes it when
/// the run ends.
pub struct IsolatedWorkspace {
    root: String,
}

impl View for IsolatedWorkspace {
    type V = Seq<char>;

    closed spec fn view(&self) -> Seq<char> {
        self.root@
    }
}

pub open spec fn workspace_gone_msg(root: Seq<char>) -> Seq<char> {
    "isolation workspace "@ + root
        + " no longer exists \u{2014} another a2a process likely deleted it (e.g. `a2a clean --yes` while this run was in flight). Aborting this model alias."@
}

impl IsolatedWorkspace {
    pub fn new(root: String) -> (w: Self)
        ensures
            w@ == root@,
    {
        IsolatedWorkspace { root }
    }

    /// The mirror's root directory.
    pub fn root(&self) -> (r: &str)
        ensures
            r@ == self@,
    {
        self.root.as_str()
    }

    /// The run cannot go on once its workspace has been removed (most
    /// often by a concurrent `a2a clean --yes`); `root_exists` says
    /// whether the root is still there.
    pub fn assert_alive(&self, root_exists: bool) -> (r: Result<(), A2aError>)
        ensures
            root_exists ==> r is Ok,
            !root_exists ==> (r matches Err(e) && e@ == ErrView::Other(workspace_gone_msg(self@))),
    {
        if !root_exists {
            let mut m = String::from_str("isolation workspace ");
            m.append(self.root.as_str());
            m.append(
                " no longer exists \u{2014} another a2a process likely deleted it (e.g. `a2a clean --yes` while this run was in flight). Aborting this model alias.",
            );
            return Err(other_err(m));
        }
        Ok(())
    }
}

/// The shape of a mirror directory's name: `a2a-` and 32 lowercase
/// hexadecimal digits.
pub open spec fn mirror_name_shape(n: Seq<char>) -> bool {
    &&& n.len() == 36
    &&& n.take(4) == "a2a-"@
    &&& forall|i: int| 4 <= i < 36 ==> is_lower_hex(#[trigger] n[i])
}

/// The name of a fresh mirror directory: `a2a-` and a random id; `None`
/// when the random source fails.
pub fn mirror_dir_name() -> (r: Option<String>)
    ensures
        r matches Some(n) ==> mirror_name_shape(n@),
{
    let id = match new_uuid_simple() {
        Some(id) => id,
        None => {
            return None;
        },
    };
    let mut s = String::from_str("a2a-");
    s.append(id.as_str());
    proof {
        reveal_strlit("a2a-");
        assert(s@.take(4) =~= "a2a-"@);
        assert forall|i: int| 4 <= i < 36 implies is_lower_hex(#[trigger] s@[i]) by {
            assert(s@[i] == id@[i - 4]);
        }
    }
    Some(s)
}

/// A fresh mirror workspace directly under `temp_dir` (the OS temp
/// directory), named `a2a-<32 hex>`; the program creates the directory.
/// Fails when the random source fails.
pub fn workspace_in(temp_dir: &str) -> (r: Result<IsolatedWorkspace, A2aError>)
    ensures
        r matches Ok(w) ==> exists|name: Seq<char>|
            #[trigger] mirror_name_shape(name) && is_a2a_temp_name_spec(name) && joined(
                temp_dir@,
                name,
                w@,
            ),
        r matches Err(e) ==> e@ == ErrView::Other(random_msg()),
{
    match mirror_dir_name() {
        None => Err(
            other_err(
                String::from_str(
                    "could not read random bytes from the operating system for a fresh id",
                ),
            ),
        ),
        Some(name) => {
            proof {
                law_mirror_names_are_cleanable(name@);
                reveal_strlit("a2a-");
                reveal_strlit(".");
                reveal_strlit("..");
                assert forall|i: int| 0 <= i < name@.len() implies #[trigger] name@[i] != '/'
                    && name@[i] != '\\' && name@[i] != ':' by {
                    if i < 4 {
                        assert(name@.take(4)[i] == "a2a-"@[i]);
                    } else {
                        assert(is_lower_hex(name@[i]));
                    }
                }
                assert(name@ != "."@);
                assert(name@ != ".."@);
            }
            let root = path_join(temp_dir, name.as_str());
            let w = IsolatedWorkspace::new(root);
            assert(mirror_name_shape(name@) && is_a2a_temp_name_spec(name@) && joined(
                temp_dir@,
                name@,
                w@,
            ));
            Ok(w)
        },
    }
}

/// Every mirror directory a run creates is one `a2a clean` recognises
/// as its own leftover, and nothing else it might meet in the temp
/// directory is taken for one unless it has that exact shape.
pub proof fn law_mirror_names_are_cleanable(name: Seq<char>)
    requires
        name.len() == 36,
        name.take(4) == "a2a-"@,
        forall|i: int| 4 <= i < 36 ==> is_lower_hex(#[trigger] name[i]),
    ensures
        is_a2a_temp_name_spec(name),
{
    assert forall|i: int| 4 <= i < 36 implies is_ascii_hex(#[trigger] name[i]) by {
        assert(is_lower_hex(name[i]));
    }
}

// ---------------------------------------------------------------------
// Declared context entries
// ---------------------------------------------------------------------

/// Why a declared entry is refused before the file system is touched.
#[derive(Debug, Clone, Copy, PartialEq, Eq, Structural)]
pub enum EntrySyntax {
    Absolute,
    ParentTraversal,
    Relative,
}

/// An absolute entry is refused; so is one with a `..` component.
pub fn classify_entry(is_absolute: bool, components: &Vec<PathComponent>) -> (r: EntrySyntax)
    ensures
        r == (if is_absolute {
            EntrySyntax::Absolute
        } else if components@.contains(PathComponent::ParentDir) {
            EntrySyntax::ParentTraversal
        } else {
            EntrySyntax::Relative
        }),
{
    if is_absolute {
        return EntrySyntax::Absolute;
    }
    if crate::runner::entry_shape_ok(false, components) {
        EntrySyntax::Relative
    } else {
        EntrySyntax::ParentTraversal
    }
}

/// [`classify_entry`] of `entry` as the platform parses it. For a simple
/// path (no `\\`, no `:`, not starting with `//`) that does not start
/// with `/`, the entry is refused for parent traversal exactly when one
/// of its `/`-separated segments is `..`, and is relative otherwise; a
/// simple path with a `..` segment is never relative. Whether a path
/// starting with `/` is absolute is the platform's to say.
pub fn classify_entry_path(entry: &str) -> (r: EntrySyntax)
    ensures
        simple_path(entry@) && !rooted(entry@) ==> r == (if has_parent_segment(entry@) {
            EntrySyntax::ParentTraversal
        } else {
            EntrySyntax::Relative
        }),
        simple_path(entry@) && has_parent_segment(entry@) ==> r != EntrySyntax::Relative,
{
    let a = path_is_absolute(entry);
    let cs = path_components(entry);
    classify_entry(a, &cs)
}

pub open spec fn rejected_absolute_msg(e: Seq<char>) -> Seq<char> {
    "context entry rejected (absolute path): "@ + e
}

pub open spec fn rejected_parent_msg(e: Seq<char>) -> Seq<char> {
    "context entry rejected (parent traversal): "@ + e
}

pub open spec fn missing_entry_msg(p: Seq<char>) -> Seq<char> {
    "context entry missing, skipping: "@ + p
}

pub open spec fn escaping_entry_msg(p: Seq<char>) -> Seq<char> {
    "context entry rejected (escapes project root): "@ + p
}

/// The warning for a refused entry.
pub fn entry_warning(syntax: EntrySyntax, entry: &str) -> (r: Option<String>)
    ensures
        match syntax {
            EntrySyntax::Absolute => r matches Some(s) && s@ == rejected_absolute_msg(entry@),
            EntrySyntax::ParentTraversal => r matches Some(s) && s@ == rejected_parent_msg(entry@),
            EntrySyntax::Relative => r is None,
        },
{
    match syntax {
        EntrySyntax::Absolute => {
            let mut s = String::from_str("context entry rejected (absolute path): ");
            s.append(entry);
            Some(s)
        },
        EntrySyntax::ParentTraversal => {
            let mut s = String::from_str("context entry rejected (parent traversal): ");
            s.append(entry);
            Some(s)
        },
        EntrySyntax::Relative => None,
    }
}

pub fn missing_entry_warning(path: &str) -> (r: String)
    ensures
        r@ == missing_entry_msg(path@),
{
    let mut s = String::from_str("context entry missing, skipping: ");
    s.append(path);
    s
}

pub fn escaping_entry_warning(path: &str) -> (r: String)
    ensures
        r@ == escaping_entry_msg(path@),
{
    let mut s = String::from_str("context entry rejected (escapes project root): ");
    s.append(path);
    s
}

// ---------------------------------------------------------------------
// Walking a declared directory
// ---------------------------------------------------------------------

/// A walk enters everything below the declared directory except the
/// skipped directory names (`target`, `node_modules`, `.git`, `.a2a`,
/// `consultations`), at any depth; the declared directory itself is
/// always entered.
pub open spec fn walk_keeps_spec(depth: nat, is_dir: bool, name: Seq<char>) -> bool {
    depth == 0 || !is_dir || !skip_dir_spec(name)
}

pub fn walk_keeps(depth: usize, is_dir: bool, name: &str) -> (b: bool)
    ensures
        b == walk_keeps_spec(depth as nat, is_dir, name@),
{
    depth == 0 || !is_dir || !is_skipped_dir(name)
}

/// What the mirror does with one walked entry.
#[derive(Debug, Clone, Copy, PartialEq, Eq, Structural)]
pub enum WalkAction {
    /// The declared directory itself: nothing to do.
    Root,
    /// Create the directory in the mirror.
    MakeDir,
    /// Copy the regular file.
    CopyFile,
    /// A symbolic link: copied only after it is checked.
    CheckLink,
    /// Anything else is left out.
    Ignore,
}

pub fn walk_action(rel_is_empty: bool, is_dir: bool, is_file: bool, is_symlink: bool) -> (a: WalkAction)
    ensures
        a == (if rel_is_empty {
            WalkAction::Root
        } else if is_dir {
            WalkAction::MakeDir
        } else if is_symlink {
            WalkAction::CheckLink
        } else if is_file {
            WalkAction::CopyFile
        } else {
            WalkAction::Ignore
        }),
{
    if rel_is_empty {
        WalkAction::Root
    } else if is_dir {
        WalkAction::MakeDir
    } else if is_symlink {
        WalkAction::CheckLink
    } else if is_file {
        WalkAction::CopyFile
    } else {
        WalkAction::Ignore
    }
}

/// The fate of a symbolic link met inside a declared directory. It is
/// followed only when it resolves, stays inside the project and points
/// at a file (copying cannot take a directory, and following one could
/// loop).
#[derive(Debug, Clone, Copy, PartialEq, Eq, Structural)]
pub enum LinkVerdict {
    Broken,
    Escapes,
    ToDirectory,
    Copy,
}

/// `resolved`: the link could be canonicalised; `inside`: its target is
/// under the project root; `target_is_dir`: the target is a directory.
pub fn link_verdict(resolved: bool, inside: bool, target_is_dir: bool) -> (v: LinkVerdict)
    ensures
        v == (if !resolved {
            LinkVerdict::Broken
        } else if !inside {
            LinkVerdict::Escapes
        } else if target_is_dir {
            LinkVerdict::ToDirectory
        } else {
            LinkVerdict::Copy
        }),
{
    if !resolved {
        LinkVerdict::Broken
    } else if !inside {
        LinkVerdict::Escapes
    } else if target_is_dir {
        LinkVerdict::ToDirectory
    } else {
        LinkVerdict::Copy
    }
}

/// Whether a walked entry adds to the budget estimate: a file, or a
/// link whose target is inside the project.
pub fn budget_counts_entry(is_file: bool, is_symlink: bool, link_inside: bool) -> (b: bool)
    ensures
        b == ((is_file || is_symlink) && (!is_symlink || link_inside)),
{
    (is_file || is_symlink) && (!is_symlink || link_inside)
}

pub open spec fn link_warning_spec(v: LinkVerdict, link: Seq<char>, target: Seq<char>) -> Option<Seq<char>> {
    match v {
        LinkVerdict::Broken => Some("skipping broken / unresolvable symlink: "@ + link),
        LinkVerdict::Escapes => Some(
            "skipping symlink that escapes project root: "@ + link + " -> "@ + target,
        ),
        LinkVerdict::ToDirectory => Some(
            "skipping symlink-to-directory inside declared dir: "@ + link + " -> "@ + target
                + " (declare the target directory explicitly in `context_files` if needed)"@,
        ),
        LinkVerdict::Copy => None,
    }
}

pub fn link_warning(v: LinkVerdict, link: &str, target: &str) -> (r: Option<String>)
    ensures
        crate::runner::meta::opt_view(r) == link_warning_spec(v, link@, target@),
{
    match v {
        LinkVerdict::Broken => {
            let mut s = String::from_str("skipping broken / unresolvable symlink: ");
            s.append(link);
            Some(s)
        },
        LinkVerdict::Escapes => {
            let mut s = String::from_str("skipping symlink that escapes project root: ");
            s.append(link);
            s.append(" -> ");
            s.append(target);
            Some(s)
        },
        LinkVerdict::ToDirectory => {
            let mut s = String::from_str("skipping symlink-to-directory inside declared dir: ");
            s.append(link);
            s.append(" -> ");
            s.append(target);
            s.append(" (declare the target directory explicitly in `context_files` if needed)");
            Some(s)
        },
        LinkVerdict::Copy => None,
    }
}

} // verus!
