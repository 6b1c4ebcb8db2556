use vstd::prelude::*;
use crate::config::{
    deps_view, lemma_present_key_found, lookup, with_entry, without_entry, Package, WorkspaceConfig,
};
use crate::dependency::{
    opt_view, path_of, url_of, version_of, Dependency, DependencyView, GithubDependency, GithubView,
};
use crate::paths::{find_repo_path, repo_path_of};
use crate::walker::all_entries;

verus! {

/// The commands of the package manager.
#[derive(Debug, PartialEq, Eq)]
pub enum CommandOpt {
    Install { dump_library: bool },
    Check { dump_library: bool },
    Add {
        package: String,
        github: String,
        dev: bool,
        hash: Option<String>,
        tag: Option<String>,
        branch: Option<String>,
    },
    Remove { package: String, dev: bool },
    Update {
        package: Option<String>,
        hash: Option<String>,
        tag: Option<String>,
        branch: Option<String>,
    },
    Init,
}

/// The manifest of a freshly initialised project named `dir_name`:
/// version `0.1.0` and two empty dependency tables.
pub fn init_package(dir_name: String) -> (r: WorkspaceConfig)
    ensures
        r.package is Some,
        opt_view(r.package->0.name) == Some(dir_name@),
        opt_view(r.package->0.version) == Some("0.1.0"@),
        r.package->0.path is None,
        r.dependencies is Some,
        r.dev_dependencies is Some,
        deps_view(r.dependencies).len() == 0,
        deps_view(r.dev_dependencies).len() == 0,
{
    let mut config = WorkspaceConfig::new();
    config.package = Some(
        Package { name: Some(dir_name), version: Some(String::from_str("0.1.0")), path: None },
    );
    config.dependencies = Some(Vec::new());
    config.dev_dependencies = Some(Vec::new());
    config
}

/// The entry `add` declares for a repository.
pub open spec fn declared(
    url: Seq<char>,
    branch: Option<Seq<char>>,
    tag: Option<Seq<char>>,
    hash: Option<Seq<char>>,
) -> DependencyView {
    DependencyView::Detailed { url, tag, branch, hash, version: None, path: None }
}

/// Declares the repository `github_repo` as dependency `package_name`
/// (a development dependency when `dev`), pinned as given.
pub fn inner_add_package(
    config: &mut WorkspaceConfig,
    package_name: String,
    github_repo: String,
    branch: Option<String>,
    tag: Option<String>,
    hash: Option<String>,
    dev: bool,
)
    ensures
        final(config).package == old(config).package,
        dev ==> final(config).dependencies == old(config).dependencies,
        dev ==> deps_view(final(config).dev_dependencies) == with_entry(
            deps_view(old(config).dev_dependencies),
            package_name@,
            declared(github_repo@, opt_view(branch), opt_view(tag), opt_view(hash)),
        ),
        !dev ==> final(config).dev_dependencies == old(config).dev_dependencies,
        !dev ==> deps_view(final(config).dependencies) == with_entry(
            deps_view(old(config).dependencies),
            package_name@,
            declared(github_repo@, opt_view(branch), opt_view(tag), opt_view(hash)),
        ),
{
    let dep = Dependency::Detailed { url: github_repo, tag, branch, hash, version: None, path: None };
    if dev {
        config.add_dev_dependency(package_name, dep);
    } else {
        config.add_dependency(package_name, dep);
    }
}

/// Removes dependency `package_name` from the manifest, and returns the
/// resolved path of its checkout, which is to be deleted; `None` when no
/// such dependency is declared.
pub fn remove_package(config: &mut WorkspaceConfig, package_name: &str) -> (r: Option<String>)
    ensures
        final(config).package == old(config).package,
        final(config).dev_dependencies == old(config).dev_dependencies,
        final(config).dependencies is Some <==> old(config).dependencies is Some,
        deps_view(final(config).dependencies) == without_entry(
            deps_view(old(config).dependencies),
            package_name@,
        ),
        match lookup(deps_view(old(config).dependencies), package_name@) {
            Some(d) => r is Some && r->0@ == repo_path_of(package_name@, version_of(d), path_of(d)),
            None => r is None,
        },
{
    let path = match config.get_dependency(package_name) {
        Some(dep) => Some(find_repo_path(package_name, dep.get_version(), dep.get_path())),
        None => None,
    };
    config.remove_dependency(package_name);
    path
}

/// Removes development dependency `package_name` from the manifest, and
/// returns the resolved path of its checkout, which is to be deleted;
/// `None` when no such development dependency is declared.
pub fn remove_dev_package(config: &mut WorkspaceConfig, package_name: &str) -> (r: Option<String>)
    ensures
        final(config).package == old(config).package,
        final(config).dependencies == old(config).dependencies,
        final(config).dev_dependencies is Some <==> old(config).dev_dependencies is Some,
        deps_view(final(config).dev_dependencies) == without_entry(
            deps_view(old(config).dev_dependencies),
            package_name@,
        ),
        match lookup(deps_view(old(config).dev_dependencies), package_name@) {
            Some(d) => r is Some && r->0@ == repo_path_of(package_name@, version_of(d), path_of(d)),
            None => r is None,
        },
{
    let path = match config.get_dev_dependency(package_name) {
        Some(dep) => Some(find_repo_path(package_name, dep.get_version(), dep.get_path())),
        None => None,
    };
    config.remove_dev_dependency(package_name);
    path
}

/// What updating one dependency takes.
#[derive(Debug, PartialEq, Eq)]
pub enum UpdateRequest {
    /// No dependency of that name is declared.
    NotFound,
    /// Move the checkout at `repo_path` to the tip of its remote branch.
    ToLatest { repo_path: String },
    /// Remediate the checkout at `repo_path` towards `github`.
    ToSpecial { repo_path: String, github: GithubDependency },
}

/// The entry `update` acts on: the dependency of that name, else the
/// development dependency.
pub open spec fn declared_entry(c: WorkspaceConfig, name: Seq<char>) -> Option<DependencyView> {
    match lookup(deps_view(c.dependencies), name) {
        Some(d) => Some(d),
        None => lookup(deps_view(c.dev_dependencies), name),
    }
}

/// `r` is the request for updating `name` with the given pins: to the
/// latest revision when none is given, else to exactly the given ones.
pub open spec fn answers(
    r: UpdateRequest,
    c: WorkspaceConfig,
    name: Seq<char>,
    branch: Option<Seq<char>>,
    tag: Option<Seq<char>>,
    hash: Option<Seq<char>>,
) -> bool {
    match declared_entry(c, name) {
        None => r is NotFound,
        Some(d) => match r {
            UpdateRequest::NotFound => false,
            UpdateRequest::ToLatest { repo_path } => {
                &&& branch is None && tag is None && hash is None
                &&& repo_path@ == repo_path_of(name, version_of(d), path_of(d))
            },
            UpdateRequest::ToSpecial { repo_path, github } => {
                &&& !(branch is None && tag is None && hash is None)
                &&& repo_path@ == repo_path_of(name, version_of(d), path_of(d))
                &&& github@ == (GithubView { url: url_of(d), tag, branch, hash })
            },
        },
    }
}

/// Decides how to update dependency `package_name`.
pub fn update_one_package(
    config: &WorkspaceConfig,
    package_name: &str,
    branch: Option<String>,
    tag: Option<String>,
    hash: Option<String>,
) -> (r: UpdateRequest)
    ensures
        answers(r, *config, package_name@, opt_view(branch), opt_view(tag), opt_view(hash)),
{
    let dep = match config.get_dependency(package_name) {
        Some(d) => d,
        None => match config.get_dev_dependency(package_name) {
            Some(d) => d,
            None => return UpdateRequest::NotFound,
        },
    };
    let repo_path = find_repo_path(package_name, dep.get_version(), dep.get_path());
    if branch.is_some() || tag.is_some() || hash.is_some() {
        UpdateRequest::ToSpecial {
            repo_path,
            github: GithubDependency { url: dep.get_url(), branch, tag, hash },
        }
    } else {
        UpdateRequest::ToLatest { repo_path }
    }
}

/// The update of every declared name to its latest revision: dependencies
/// first, then development dependencies, in declaration order.
pub fn update_all_package(config: &WorkspaceConfig) -> (r: Vec<UpdateRequest>)
    ensures
        r@.len() == all_entries(*config).len(),
        forall|i: int|
            0 <= i < r@.len() ==> answers(#[trigger] r@[i], *config, all_entries(*config)[i].0, None, None, None),
        forall|i: int| 0 <= i < r@.len() ==> #[trigger] r@[i] is ToLatest,
{
    let ghost all = all_entries(*config);
    let mut out: Vec<UpdateRequest> = Vec::new();
    if let Some(deps) = &config.dependencies {
        let mut i: usize = 0;
        while i < deps.len()
            invariant
                all == all_entries(*config),
                config.dependencies == Some(*deps),
                i <= deps@.len(),
                out@.len() == i,
                forall|j: int| 0 <= j < i ==> answers(#[trigger] out@[j], *config, all[j].0, None, None, None),
                forall|j: int| 0 <= j < i ==> #[trigger] out@[j] is ToLatest,
            decreases deps@.len() - i,
        {
            assert(all[i as int].0 == deps@[i as int].0@);
            proof {
                lemma_present_key_found(deps_view(config.dependencies), all[i as int].0, i as int);
            }
            out.push(update_one_package(config, deps[i].0.as_str(), None, None, None));
            i = i + 1;
        }
    }
    let ghost p = out@.len();
    assert(p == deps_view(config.dependencies).len());
    if let Some(dev) = &config.dev_dependencies {
        let mut j: usize = 0;
        while j < dev.len()
            invariant
                all == all_entries(*config),
                config.dev_dependencies == Some(*dev),
                p == deps_view(config.dependencies).len(),
                j <= dev@.len(),
                out@.len() == p + j,
                forall|q: int| 0 <= q < p + j ==> answers(#[trigger] out@[q], *config, all[q].0, None, None, None),
                forall|q: int| 0 <= q < p + j ==> #[trigger] out@[q] is ToLatest,
            decreases dev@.len() - j,
        {
            assert(all[p + j].0 == dev@[j as int].0@);
            proof {
                lemma_present_key_found(deps_view(config.dev_dependencies), all[p + j].0, j as int);
            }
            out.push(update_one_package(config, dev[j].0.as_str(), None, None, None));
            j = j + 1;
        }
    }
    out
}

} // verus!
