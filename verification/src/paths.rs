//! Path shapes and the fixed locations a2a uses inside a project and in
//! the user's data directory.
use vstd::prelude::*;

verus! {

/// The kind of one component of a path, as `std::path::Component`
/// reports it.
#[derive(Debug, Clone, Copy, PartialEq, Eq, Structural)]
pub enum PathComponent {
    /// A Windows prefix such as `C:` or `\\server\share`.
    Prefix,
    /// The root separator.
    RootDir,
    /// `.`
    CurDir,
    /// `..`
    ParentDir,
    /// Any other name.
    Normal,
}

/// A path string that every platform reads without a prefix: no `\\`,
/// no `:` (so no drive letter), and not starting with `//` (so no UNC or
/// device prefix). For such a string `/` is the only separator both on
/// Unix and on Windows.
pub open spec fn simple_path(p: Seq<char>) -> bool {
    &&& forall|i: int| 0 <= i < p.len() ==> #[trigger] p[i] != '\\' && p[i] != ':'
    &&& !crate::text::starts_with(p, seq!['/', '/'])
}

/// The path starts at the root separator.
pub open spec fn rooted(p: Seq<char>) -> bool {
    p.len() > 0 && p[0] == '/'
}

/// One of the `/`-separated segments of `p` is `..`.
pub open spec fn has_parent_segment(p: Seq<char>) -> bool {
    crate::text::split_char(p, '/').contains(seq!['.', '.'])
}

/// `Path::is_absolute`. What counts as absolute depends on the platform
/// (a leading `/` on Unix; a prefix and a root on Windows). What holds on
/// every platform: a simple path that does not start with `/` is not
/// absolute. A rooted simple path is absolute on Unix only, so nothing is
/// said of it.
#[verifier::external_body]
pub(crate) fn path_is_absolute(p: &str) -> (b: bool)
    ensures
        simple_path(p@) && !rooted(p@) ==> !b,
{
    std::path::Path::new(p).is_absolute()
}

/// `Path::components`, each component taken by its kind. The split
/// depends on the platform's separators and prefixes. For a simple path
/// both platforms agree on what the checks here read: there is no
/// prefix, a root component exactly when it starts with `/`, and a `..`
/// component exactly when one `/`-separated segment is `..` (`..` is never
/// folded away; `.` and empty segments never become `..`).
#[verifier::external_body]
pub(crate) fn path_components(p: &str) -> (r: Vec<PathComponent>)
    ensures
        simple_path(p@) ==> {
            &&& !r@.contains(PathComponent::Prefix)
            &&& (r@.contains(PathComponent::RootDir) <==> rooted(p@))
            &&& (r@.contains(PathComponent::ParentDir) <==> has_parent_segment(p@))
        },
{
    std::path::Path::new(p).components().map(|c| match c {
        std::path::Component::Prefix(_) => PathComponent::Prefix,
        std::path::Component::RootDir => PathComponent::RootDir,
        std::path::Component::CurDir => PathComponent::CurDir,
        std::path::Component::ParentDir => PathComponent::ParentDir,
        std::path::Component::Normal(_) => PathComponent::Normal,
    }).collect()
}

/// `Path::starts_with`: `base` is a prefix of `p` in whole components.
/// What holds on every platform: a path starts with itself, and a simple
/// path starts with any simple path that it extends after a `/` (the
/// extra `/` only ends the last component of `base`).
#[verifier::external_body]
fn path_starts_with(p: &str, base: &str) -> (b: bool)
    ensures
        p@ == base@ ==> b,
        simple_path(p@) && simple_path(base@) && (exists|rest: Seq<char>|
            p@ == base@ + seq!['/'] + rest) ==> b,
{
    std::path::Path::new(p).starts_with(base)
}

/// Whether `path` lies at or below `root`, comparing whole components as
/// the platform parses them (the guard against a symlink leading out of
/// the project, applied to canonical paths).
pub fn is_within(path: &str, root: &str) -> (b: bool)
    ensures
        path@ == root@ ==> b,
        simple_path(path@) && simple_path(root@) && (exists|rest: Seq<char>|
            path@ == root@ + seq!['/'] + rest) ==> b,
{
    path_starts_with(path, root)
}

/// A single file or directory name: not empty, without a separator,
/// a drive colon, or a dot-only name.
pub open spec fn plain_name(n: Seq<char>) -> bool {
    &&& n.len() > 0
    &&& n != "."@
    &&& n != ".."@
    &&& forall|i: int| 0 <= i < n.len() ==> #[trigger] n[i] != '/' && n[i] != '\\' && n[i] != ':'
}

/// A Windows verbatim path (`\\?\...`). Joining onto one normalises the
/// result (`.` and `..` are removed), so nothing is said of it here.
pub open spec fn is_verbatim(base: Seq<char>) -> bool {
    crate::text::starts_with(base, seq!['\\', '\\', '?', '\\'])
}

/// `Path::join` with a plain name: the name is appended, after the
/// platform's separator when `base` does not already end with one. A
/// verbatim base is left open.
pub open spec fn joined(base: Seq<char>, name: Seq<char>, r: Seq<char>) -> bool {
    ||| is_verbatim(base)
    ||| r == base + name
    ||| r == base + seq!['/'] + name
    ||| r == base + seq!['\\'] + name
}

/// `Path::join` of a plain name onto `base`. For such a name `join`
/// appends it, inserting the platform's main separator (`/` or `\`)
/// when one is needed; which one, and whether, is left open here. On a
/// verbatim base (Windows `\\?\` paths) `join` normalises the whole
/// path, and nothing is promised.
#[verifier::external_body]
pub(crate) fn path_join(base: &str, name: &str) -> (r: String)
    requires
        plain_name(name@),
    ensures
        joined(base@, name@, r@),
{
    std::path::Path::new(base).join(name).to_string_lossy().into_owned()
}

/// `<project>/.a2a/`: the project marker directory.
pub fn project_config_dir(project_root: &str) -> (r: String)
    ensures
        joined(project_root@, ".a2a"@, r@),
{
    proof {
        reveal_strlit(".a2a");
        reveal_strlit(".");
        reveal_strlit("..");
    }
    path_join(project_root, ".a2a")
}

/// `<project>/consultations/`.
pub fn project_consultations_dir(project_root: &str) -> (r: String)
    ensures
        joined(project_root@, "consultations"@, r@),
{
    proof {
        reveal_strlit("consultations");
        reveal_strlit(".");
        reveal_strlit("..");
    }
    path_join(project_root, "consultations")
}

/// `<data dir>/state.toml`, given the user data directory (`~/.a2a`).
pub fn user_state_path(user_data_dir: &str) -> (r: String)
    ensures
        joined(user_data_dir@, "state.toml"@, r@),
{
    proof {
        reveal_strlit("state.toml");
        reveal_strlit(".");
        reveal_strlit("..");
    }
    path_join(user_data_dir, "state.toml")
}

/// `<data dir>/credentials.db`.
pub fn credentials_db_path(user_data_dir: &str) -> (r: String)
    ensures
        joined(user_data_dir@, "credentials.db"@, r@),
{
    proof {
        reveal_strlit("credentials.db");
        reveal_strlit(".");
        reveal_strlit("..");
    }
    path_join(user_data_dir, "credentials.db")
}

/// A directory on the walk from the working directory up to the file
/// system root: whether it holds a `.a2a/` directory, and whether it is
/// the user's home (whose `.a2a/` is the credential store, not a
/// project).
pub struct RootCandidate {
    pub path: String,
    pub has_marker: bool,
    pub is_home: bool,
}

pub open spec fn project_root_spec(cs: Seq<RootCandidate>) -> Option<Seq<char>>
    decreases cs.len(),
{
    if cs.len() == 0 {
        None
    } else if cs[0].has_marker && !cs[0].is_home {
        Some(cs[0].path@)
    } else {
        project_root_spec(cs.drop_first())
    }
}

/// The nearest directory, walking up, with a `.a2a/` marker that is not
/// the home directory; `None` when the walk reaches the root.
pub fn find_project_root(candidates: &Vec<RootCandidate>) -> (r: Option<String>)
    ensures
        crate::runner::meta::opt_view(r) == project_root_spec(candidates@),
{
    let mut i: usize = 0;
    assert(candidates@.skip(0) =~= candidates@);
    while i < candidates.len()
        invariant
            i <= candidates@.len(),
            project_root_spec(candidates@) == project_root_spec(candidates@.skip(i as int)),
        decreases candidates@.len() - i,
    {
        proof {
            assert(candidates@.skip(i as int).drop_first() =~= candidates@.skip(i + 1));
            assert(candidates@.skip(i as int)[0] == candidates@[i as int]);
        }
        if candidates[i].has_marker && !candidates[i].is_home {
            return Some(candidates[i].path.clone());
        }
        i += 1;
    }
    None
}

} // verus!
