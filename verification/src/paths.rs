//! Validation of the frontend's subdirectory and the paths derived from it.
use vstd::prelude::*;
use vstd::string::*;

verus! {

/// A component `..` starts at index `i` of `s`: two dots, with a separator or
/// an end of the text on either side.
pub open spec fn parent_component_at(s: Seq<char>, i: int) -> bool {
    &&& 0 <= i
    &&& i + 2 <= s.len()
    &&& s[i] == '.'
    &&& s[i + 1] == '.'
    &&& (i == 0 || s[i - 1] == '/')
    &&& (i + 2 == s.len() || s[i + 2] == '/')
}

/// Some component of `s` is the parent directory.
pub open spec fn has_parent_component(s: Seq<char>) -> bool {
    exists|i: int| parent_component_at(s, i)
}

/// `s` holds the wildcard character.
pub open spec fn has_wildcard(s: Seq<char>) -> bool {
    exists|i: int| 0 <= i < s.len() && s[i] == '*'
}

/// A subdirectory is accepted when no component of it is `..` and it holds no
/// `*`.
pub open spec fn is_safe_subdirectory(s: Seq<char>) -> bool {
    !has_parent_component(s) && !has_wildcard(s)
}

/// Decides whether a subdirectory name is accepted.
pub fn subdirectory_is_safe(subdirectory: &str) -> (safe: bool)
    ensures
        safe == is_safe_subdirectory(subdirectory@),
{
    let n: usize = subdirectory.unicode_len();
    let mut i: usize = 0;
    while i < n
        invariant
            n == subdirectory@.len(),
            i <= n,
            forall|k: int|
                0 <= k < i ==> subdirectory@[k] != '*' && !parent_component_at(subdirectory@, k),
        decreases n - i,
    {
        let c = subdirectory.get_char(i);
        if c == '*' {
            return false;
        }
        if c == '.' && i + 1 < n && (i == 0 || subdirectory.get_char(i - 1) == '/')
            && subdirectory.get_char(i + 1) == '.' && (i + 2 == n || subdirectory.get_char(i + 2)
            == '/') {
            assert(parent_component_at(subdirectory@, i as int));
            return false;
        }
        i += 1;
    }
    true
}

/// How strictly a subdirectory name is validated.
#[derive(Clone, Copy, Debug, PartialEq, Eq, Structural)]
pub enum ValidationPolicy {
    /// Only safe subdirectory names are accepted.
    Strict,
    /// Every subdirectory name is accepted. This is the weaker policy: a
    /// path resolved under it may leave the project root.
    Permissive,
}

/// Whether `subdirectory` is accepted under `policy`.
pub open spec fn accepts_subdirectory(policy: ValidationPolicy, subdirectory: Seq<char>) -> bool {
    match policy {
        ValidationPolicy::Strict => is_safe_subdirectory(subdirectory),
        ValidationPolicy::Permissive => true,
    }
}

/// Decides whether a subdirectory name is accepted under `policy`.
pub fn validate_subdirectory(policy: ValidationPolicy, subdirectory: &str) -> (accepted: bool)
    ensures
        accepted == accepts_subdirectory(policy, subdirectory@),
{
    match policy {
        ValidationPolicy::Strict => subdirectory_is_safe(subdirectory),
        ValidationPolicy::Permissive => true,
    }
}

/// Whether a separator is put between `root` and what is joined to it: not
/// after an empty root, nor after one that already ends in a separator.
pub open spec fn separator_needed(root: Seq<char>) -> bool {
    root.len() > 0 && root.last() != '/'
}

/// The separator that follows `root` in a joined path, if any.
pub open spec fn separator_after(root: Seq<char>) -> Seq<char> {
    if separator_needed(root) {
        seq!['/']
    } else {
        Seq::empty()
    }
}

/// `root`, a separator where one is needed, `subdirectory`, and a fixed
/// suffix.
pub open spec fn joined(root: Seq<char>, subdirectory: Seq<char>, suffix: Seq<char>) -> Seq<char> {
    root + separator_after(root) + subdirectory + suffix
}

/// The file whose presence shows that the frontend was built before.
pub open spec fn sentinel_path(root: Seq<char>, subdirectory: Seq<char>) -> Seq<char> {
    joined(root, subdirectory, "/build/index.html"@)
}

/// The frontend's source directory.
pub open spec fn source_dir_path(root: Seq<char>, subdirectory: Seq<char>) -> Seq<char> {
    joined(root, subdirectory, "/src/"@)
}

/// The frontend's manifest file.
pub open spec fn manifest_path(root: Seq<char>, subdirectory: Seq<char>) -> Seq<char> {
    joined(root, subdirectory, "/package.json"@)
}

/// The directory in which the package manager is run.
pub open spec fn work_dir_path(root: Seq<char>, subdirectory: Seq<char>) -> Seq<char> {
    joined(root, subdirectory, "/"@)
}

/// The four paths that one build works with.
pub struct ResolvedPaths {
    pub sentinel: String,
    pub source_dir: String,
    pub manifest: String,
    pub work_dir: String,
}

impl ResolvedPaths {
    /// Every path is the project root joined with the subdirectory and the
    /// path's own suffix.
    pub open spec fn resolves(&self, root: Seq<char>, subdirectory: Seq<char>) -> bool {
        &&& self.sentinel@ == sentinel_path(root, subdirectory)
        &&& self.source_dir@ == source_dir_path(root, subdirectory)
        &&& self.manifest@ == manifest_path(root, subdirectory)
        &&& self.work_dir@ == work_dir_path(root, subdirectory)
    }
}

/// Joins a root, a subdirectory and a suffix into one path.
pub fn join_path(root: &str, subdirectory: &str, suffix: &str) -> (path: String)
    ensures
        path@ == joined(root@, subdirectory@, suffix@),
{
    let mut path = String::from_str(root);
    let n: usize = root.unicode_len();
    if n > 0 && root.get_char(n - 1) != '/' {
        proof {
            reveal_strlit("/");
        }
        path.append("/");
        assert(path@ =~= root@ + seq!['/']);
    } else {
        assert(path@ =~= root@ + Seq::<char>::empty());
    }
    path.append(subdirectory);
    path.append(suffix);
    path
}

/// Computes the four paths of a build from the project root and the
/// subdirectory.
pub fn resolve_paths(project_root: &str, subdirectory: &str) -> (paths: ResolvedPaths)
    ensures
        paths.resolves(project_root@, subdirectory@),
{
    ResolvedPaths {
        sentinel: join_path(project_root, subdirectory, "/build/index.html"),
        source_dir: join_path(project_root, subdirectory, "/src/"),
        manifest: join_path(project_root, subdirectory, "/package.json"),
        work_dir: join_path(project_root, subdirectory, "/"),
    }
}

/// `path` lies under `root`: it begins with `root`, and no component of what
/// follows is the parent directory.
pub open spec fn stays_under(path: Seq<char>, root: Seq<char>) -> bool {
    &&& root.len() <= path.len()
    &&& path.subrange(0, root.len() as int) == root
    &&& !has_parent_component(path.subrange(root.len() as int, path.len() as int))
}

/// A safe subdirectory joined to a root, with a suffix that begins with a
/// separator and has no parent-directory component, gives a path under the
/// root.
pub proof fn lemma_joined_stays_under(root: Seq<char>, subdirectory: Seq<char>, suffix: Seq<char>)
    requires
        is_safe_subdirectory(subdirectory),
        suffix.len() > 0,
        suffix[0] == '/',
        !has_parent_component(suffix),
    ensures
        stays_under(joined(root, subdirectory, suffix), root),
{
    let path = joined(root, subdirectory, suffix);
    let separator = separator_after(root);
    let rest = path.subrange(root.len() as int, path.len() as int);
    let shift = separator.len() as int;
    let end = shift + subdirectory.len();
    assert(path.subrange(0, root.len() as int) =~= root);
    assert(rest =~= separator + subdirectory + suffix);
    assert forall|k: int| !parent_component_at(rest, k) by {
        if parent_component_at(rest, k) {
            if k < shift {
                assert(rest[k] == '/');
            } else if k + 1 < end {
                assert(rest[k] == subdirectory[k - shift]);
                assert(rest[k + 1] == subdirectory[k + 1 - shift]);
                if k > shift {
                    assert(rest[k - 1] == subdirectory[k - 1 - shift]);
                }
                if k + 2 < end {
                    assert(rest[k + 2] == subdirectory[k + 2 - shift]);
                }
                assert(parent_component_at(subdirectory, k - shift));
            } else if k + 1 == end {
                assert(rest[k + 1] == suffix[0]);
            } else {
                assert(rest[k] == suffix[k - end]);
                assert(rest[k + 1] == suffix[k + 1 - end]);
                assert(rest[k - 1] == suffix[k - 1 - end]);
                if k + 2 < rest.len() {
                    assert(rest[k + 2] == suffix[k + 2 - end]);
                }
                assert(parent_component_at(suffix, k - end));
            }
        }
    }
}

/// Whatever the project root, the four paths resolved for a safe
/// subdirectory lie under the root.
pub proof fn law_resolved_paths_stay_under_root(root: Seq<char>, subdirectory: Seq<char>)
    requires
        is_safe_subdirectory(subdirectory),
    ensures
        stays_under(sentinel_path(root, subdirectory), root),
        stays_under(source_dir_path(root, subdirectory), root),
        stays_under(manifest_path(root, subdirectory), root),
        stays_under(work_dir_path(root, subdirectory), root),
{
    reveal_strlit("/build/index.html");
    reveal_strlit("/src/");
    reveal_strlit("/package.json");
    reveal_strlit("/");
    lemma_joined_stays_under(root, subdirectory, "/build/index.html"@);
    lemma_joined_stays_under(root, subdirectory, "/src/"@);
    lemma_joined_stays_under(root, subdirectory, "/package.json"@);
    lemma_joined_stays_under(root, subdirectory, "/"@);
}

} // verus!
