use vstd::prelude::*;

verus! {

/// What an optional string stands for.
pub open spec fn opt_view(o: Option<String>) -> Option<Seq<char>> {
    match o {
        Some(s) => Some(s@),
        None => None,
    }
}

/// The value of a field after merging: the manifest's own value when it has
/// one, the locked value otherwise.
pub open spec fn fill(mine: Option<Seq<char>>, locked: Option<Seq<char>>) -> Option<Seq<char>> {
    if mine is Some {
        mine
    } else {
        locked
    }
}

/// A copy of an optional string.
pub fn clone_opt(o: &Option<String>) -> (r: Option<String>)
    ensures
        r == *o,
{
    match o {
        Some(s) => Some(s.clone()),
        None => None,
    }
}

/// Keeps `mine` when it is set, else takes a copy of `locked`.
pub fn fill_opt(mine: &Option<String>, locked: &Option<String>) -> (r: Option<String>)
    ensures
        opt_view(r) == fill(opt_view(*mine), opt_view(*locked)),
{
    if mine.is_some() {
        clone_opt(mine)
    } else {
        clone_opt(locked)
    }
}

/// A declared dependency: a bare string, or a detailed record.
#[derive(Debug, PartialEq, Eq)]
pub enum Dependency {
    Simple(String),
    Detailed {
        url: String,
        tag: Option<String>,
        branch: Option<String>,
        hash: Option<String>,
        version: Option<String>,
        path: Option<String>,
    },
}

/// The mathematical model of a [`Dependency`].
pub enum DependencyView {
    Simple(Seq<char>),
    Detailed {
        url: Seq<char>,
        tag: Option<Seq<char>>,
        branch: Option<Seq<char>>,
        hash: Option<Seq<char>>,
        version: Option<Seq<char>>,
        path: Option<Seq<char>>,
    },
}

impl View for Dependency {
    type V = DependencyView;

    open spec fn view(&self) -> DependencyView {
        match self {
            Dependency::Simple(url) => DependencyView::Simple(url@),
            Dependency::Detailed { url, tag, branch, hash, version, path } => DependencyView::Detailed {
                url: url@,
                tag: opt_view(*tag),
                branch: opt_view(*branch),
                hash: opt_view(*hash),
                version: opt_view(*version),
                path: opt_view(*path),
            },
        }
    }
}

impl Clone for Dependency {
    fn clone(&self) -> (r: Self)
        ensures
            r == *self,
    {
        match self {
            Dependency::Simple(url) => Dependency::Simple(url.clone()),
            Dependency::Detailed { url, tag, branch, hash, version, path } => Dependency::Detailed {
                url: url.clone(),
                tag: clone_opt(tag),
                branch: clone_opt(branch),
                hash: clone_opt(hash),
                version: clone_opt(version),
                path: clone_opt(path),
            },
        }
    }
}

/// A bare entry read as a detailed one: its string is the remote, and no
/// other field is set.
pub open spec fn promoted(d: DependencyView) -> DependencyView {
    match d {
        DependencyView::Simple(url) => DependencyView::Detailed {
            url,
            tag: None,
            branch: None,
            hash: None,
            version: None,
            path: None,
        },
        _ => d,
    }
}

/// A manifest entry with a lock entry folded in. A bare lock entry carries
/// nothing to fold; otherwise each field the manifest leaves unset is taken
/// from the lock, and no field the manifest sets is changed.
pub open spec fn merged(m: DependencyView, l: DependencyView) -> DependencyView {
    match l {
        DependencyView::Simple(_) => m,
        DependencyView::Detailed { tag, branch, hash, version, path, .. } => match promoted(m) {
            DependencyView::Detailed {
                url,
                tag: mt,
                branch: mb,
                hash: mh,
                version: mv,
                path: mp,
            } => DependencyView::Detailed {
                url,
                tag: fill(mt, tag),
                branch: fill(mb, branch),
                hash: fill(mh, hash),
                version: fill(mv, version),
                path: fill(mp, path),
            },
            DependencyView::Simple(_) => m,
        },
    }
}

/// The remote revision wanted for a dependency.
#[derive(Debug, PartialEq, Eq)]
pub struct GithubDependency {
    pub url: String,
    pub tag: Option<String>,
    pub branch: Option<String>,
    pub hash: Option<String>,
}

/// The mathematical model of a [`GithubDependency`].
pub struct GithubView {
    pub url: Seq<char>,
    pub tag: Option<Seq<char>>,
    pub branch: Option<Seq<char>>,
    pub hash: Option<Seq<char>>,
}

impl View for GithubDependency {
    type V = GithubView;

    open spec fn view(&self) -> GithubView {
        GithubView {
            url: self.url@,
            tag: opt_view(self.tag),
            branch: opt_view(self.branch),
            hash: opt_view(self.hash),
        }
    }
}

impl Clone for GithubDependency {
    fn clone(&self) -> (r: Self)
        ensures
            r == *self,
    {
        GithubDependency {
            url: self.url.clone(),
            tag: clone_opt(&self.tag),
            branch: clone_opt(&self.branch),
            hash: clone_opt(&self.hash),
        }
    }
}

/// The remote of an entry: the string of a bare entry, the url of a
/// detailed one.
pub open spec fn url_of(d: DependencyView) -> Seq<char> {
    match d {
        DependencyView::Simple(url) => url,
        DependencyView::Detailed { url, .. } => url,
    }
}

/// The tag a detailed entry pins.
pub open spec fn tag_of(d: DependencyView) -> Option<Seq<char>> {
    match d {
        DependencyView::Simple(_) => None,
        DependencyView::Detailed { tag, .. } => tag,
    }
}

/// The branch a detailed entry pins.
pub open spec fn branch_of(d: DependencyView) -> Option<Seq<char>> {
    match d {
        DependencyView::Simple(_) => None,
        DependencyView::Detailed { branch, .. } => branch,
    }
}

/// The hash a detailed entry pins.
pub open spec fn hash_of(d: DependencyView) -> Option<Seq<char>> {
    match d {
        DependencyView::Simple(_) => None,
        DependencyView::Detailed { hash, .. } => hash,
    }
}

/// The version a detailed entry declares.
pub open spec fn version_of(d: DependencyView) -> Option<Seq<char>> {
    match d {
        DependencyView::Simple(_) => None,
        DependencyView::Detailed { version, .. } => version,
    }
}

/// The override path a detailed entry declares.
pub open spec fn path_of(d: DependencyView) -> Option<Seq<char>> {
    match d {
        DependencyView::Simple(_) => None,
        DependencyView::Detailed { path, .. } => path,
    }
}

/// The revision an entry asks for.
pub open spec fn github_of(d: DependencyView) -> GithubView {
    GithubView { url: url_of(d), tag: tag_of(d), branch: branch_of(d), hash: hash_of(d) }
}

impl Dependency {
    /// The remote revision this entry asks for; a bare entry asks for the
    /// default branch of its remote.
    pub fn get_github_dependency(&self) -> (r: GithubDependency)
        ensures
            r@ == github_of(self@),
    {
        match self {
            Dependency::Simple(url) => GithubDependency {
                url: url.clone(),
                tag: None,
                branch: None,
                hash: None,
            },
            Dependency::Detailed { url, tag, branch, hash, .. } => GithubDependency {
                url: url.clone(),
                tag: clone_opt(tag),
                branch: clone_opt(branch),
                hash: clone_opt(hash),
            },
        }
    }

    /// The override path of a detailed entry.
    pub fn get_path(&self) -> (r: Option<String>)
        ensures
            opt_view(r) == path_of(self@),
    {
        match self {
            Dependency::Simple(_) => None,
            Dependency::Detailed { path, .. } => clone_opt(path),
        }
    }

    /// The version string of a detailed entry.
    pub fn get_version(&self) -> (r: Option<String>)
        ensures
            opt_view(r) == version_of(self@),
    {
        match self {
            Dependency::Simple(_) => None,
            Dependency::Detailed { version, .. } => clone_opt(version),
        }
    }

    /// The remote of this entry.
    pub fn get_url(&self) -> (r: String)
        ensures
            r@ == url_of(self@),
    {
        match self {
            Dependency::Simple(url) => url.clone(),
            Dependency::Detailed { url, .. } => url.clone(),
        }
    }

    /// Folds a lock entry into this manifest entry: every field this entry
    /// leaves unset is copied from the lock entry, nothing set is changed.
    pub fn try_merge_lock_dependency(&mut self, lock_dep: &Dependency)
        ensures
            final(self)@ == merged(old(self)@, lock_dep@),
    {
        if let Dependency::Detailed { url: _, tag, branch, hash, version, path } = lock_dep {
            let next = match self {
                Dependency::Simple(url) => Dependency::Detailed {
                    url: url.clone(),
                    tag: clone_opt(tag),
                    branch: clone_opt(branch),
                    hash: clone_opt(hash),
                    version: clone_opt(version),
                    path: clone_opt(path),
                },
                Dependency::Detailed {
                    url,
                    tag: self_tag,
                    branch: self_branch,
                    hash: self_hash,
                    version: self_version,
                    path: self_path,
                } => Dependency::Detailed {
                    url: url.clone(),
                    tag: fill_opt(self_tag, tag),
                    branch: fill_opt(self_branch, branch),
                    hash: fill_opt(self_hash, hash),
                    version: fill_opt(self_version, version),
                    path: fill_opt(self_path, path),
                },
            };
            *self = next;
        }
    }
}

/// Merging fills only what the manifest leaves unset: a manifest entry
/// with a tag and no branch or hash, merged with a lock entry that has a
/// branch and no tag, keeps its own tag and takes the locked branch.
pub proof fn lemma_lock_fills_unset_fields(
    m: DependencyView,
    l: DependencyView,
    tag: Seq<char>,
    branch: Seq<char>,
)
    requires
        hash_of(m) is None,
        branch_of(m) is None,
        tag_of(m) == Some(tag),
        tag_of(l) is None,
        branch_of(l) == Some(branch),
    ensures
        tag_of(merged(m, l)) == Some(tag),
        branch_of(merged(m, l)) == Some(branch),
{
}

/// Merging is idempotent: folding the same lock entry in a second time
/// changes nothing.
pub proof fn lemma_merge_idempotent(m: DependencyView, l: DependencyView)
    ensures
        merged(merged(m, l), l) == merged(m, l),
{
}

} // verus!
