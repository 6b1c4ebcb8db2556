use vstd::prelude::*;

verus! {

/// The directory, relative to the project root, that holds the checkouts.
pub const MODULES_DIR: &'static str = "lua_modules";

/// The first directory searched for a dependency's library code.
pub const LIBRARY_DIR: &'static str = "library";

/// The second directory searched for a dependency's library code.
pub const LIB_DIR: &'static str = "lib";

/// `base` and `seg` joined by a separator.
pub open spec fn joined(base: Seq<char>, seg: Seq<char>) -> Seq<char> {
    base + seq!['/'] + seg
}

/// Whether `s` starts with `p`.
pub fn has_prefix(s: &str, p: &str) -> (r: bool)
    ensures
        r == p@.is_prefix_of(s@),
{
    let n = s.unicode_len();
    let m = p.unicode_len();
    if m > n {
        return false;
    }
    let mut i: usize = 0;
    while i < m
        invariant
            m == p@.len(),
            n == s@.len(),
            m <= n,
            i <= m,
            forall|j: int| 0 <= j < i ==> p@[j] == s@[j],
        decreases m - i,
    {
        if p.get_char(i) != s.get_char(i) {
            assert(p@ != s@.subrange(0, m as int));
            return false;
        }
        i = i + 1;
    }
    assert(p@ =~= s@.subrange(0, m as int));
    true
}

/// Whether two strings hold the same characters.
pub fn str_eq(a: &str, b: &str) -> (r: bool)
    ensures
        r == (a@ == b@),
{
    if a.unicode_len() != b.unicode_len() {
        return false;
    }
    let same = has_prefix(a, b);
    proof {
        if same {
            assert(a@ =~= b@);
        }
    }
    same
}

/// Joins a path segment onto a base path.
pub fn join_path(base: &str, seg: &str) -> (r: String)
    ensures
        r@ == joined(base@, seg@),
{
    let mut r = String::from_str(base);
    r.append("/");
    r.append(seg);
    proof {
        reveal_strlit("/");
        assert(r@ =~= joined(base@, seg@));
    }
    r
}

/// The full remote address of a repository: an `https://` address or a
/// `git@github.com` one is taken as it is, anything else names a
/// repository on GitHub.
pub open spec fn github_url(url: Seq<char>) -> Seq<char> {
    if "https://"@.is_prefix_of(url) || "git@github.com"@.is_prefix_of(url) {
        url
    } else {
        "https://github.com/"@ + url
    }
}

/// Expands a repository reference into the address to clone from.
pub fn resolve_github_url(url: &str) -> (r: String)
    ensures
        r@ == github_url(url@),
{
    if has_prefix(url, "https://") || has_prefix(url, "git@github.com") {
        String::from_str(url)
    } else {
        let mut r = String::from_str("https://github.com/");
        r.append(url);
        r
    }
}

/// Where a dependency's checkout lives: the override path verbatim when
/// there is one, else `<modules>/<name>`, followed by `/<version>` when a
/// version is declared.
pub open spec fn repo_path_of(
    name: Seq<char>,
    version: Option<Seq<char>>,
    path: Option<Seq<char>>,
) -> Seq<char> {
    match path {
        Some(p) => p,
        None => match version {
            Some(v) => joined(joined(MODULES_DIR@, name), v),
            None => joined(MODULES_DIR@, name),
        },
    }
}

/// Resolves the on-disk location of a dependency's checkout.
pub fn find_repo_path(name: &str, version: Option<String>, path: Option<String>) -> (r: String)
    ensures
        r@ == repo_path_of(name@, crate::dependency::opt_view(version), crate::dependency::opt_view(path)),
{
    match path {
        Some(p) => p,
        None => {
            let base = join_path(MODULES_DIR, name);
            match version {
                Some(v) => join_path(base.as_str(), v.as_str()),
                None => base,
            }
        },
    }
}

/// Where the library code of a project rooted at `base` lives: under the
/// declared path when there is one, else in `library` or `lib` when such
/// a directory exists, else the root itself.
pub open spec fn library_path_of(
    base: Seq<char>,
    path: Option<Seq<char>>,
    library_exists: bool,
    lib_exists: bool,
) -> Seq<char> {
    match path {
        Some(p) => joined(base, p),
        None => if library_exists {
            joined(base, LIBRARY_DIR@)
        } else if lib_exists {
            joined(base, LIB_DIR@)
        } else {
            base
        },
    }
}

/// Chooses the library directory of a project, given which of the
/// candidate directories exist on disk.
pub fn find_library_path(
    base: &str,
    path: Option<String>,
    library_exists: bool,
    lib_exists: bool,
) -> (r: String)
    ensures
        r@ == library_path_of(base@, crate::dependency::opt_view(path), library_exists, lib_exists),
{
    match path {
        Some(p) => join_path(base, p.as_str()),
        None => if library_exists {
            join_path(base, LIBRARY_DIR)
        } else if lib_exists {
            join_path(base, LIB_DIR)
        } else {
            String::from_str(base)
        },
    }
}

/// Path resolution is a function of its arguments alone, and an override
/// path is returned exactly, whatever the name and version.
pub proof fn lemma_override_path_wins(
    name1: Seq<char>,
    version1: Option<Seq<char>>,
    name2: Seq<char>,
    version2: Option<Seq<char>>,
    path: Seq<char>,
)
    ensures
        repo_path_of(name1, version1, Some(path)) == path,
        repo_path_of(name1, version1, Some(path)) == repo_path_of(name2, version2, Some(path)),
{
}

} // verus!
