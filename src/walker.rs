use vstd::prelude::*;
use crate::config::{deps_view, table_view, with_entry, TableView, WorkspaceConfig, WorkspaceLock};
use crate::dependency::{
    github_of, hash_of, merged, opt_view, path_of, version_of, Dependency, DependencyView, GithubDependency,
    GithubView,
};
use crate::paths::{find_repo_path, join_path, joined, repo_path_of};
use crate::reconcile::{
    check_github_repo_version, classify_node, clone_plan, recorded, version_matches, ClonePlan,
    HeadView, NodeState, RepoHead,
};

verus! {

/// One dependency of a manifest, as the walker visits it.
#[derive(Debug, PartialEq, Eq)]
pub struct NodePlan {
    pub name: String,
    /// Where its checkout lives.
    pub repo_path: String,
    /// The revision to reconcile against; none for a bare entry, which has
    /// no remote to reconcile.
    pub remote: Option<GithubDependency>,
    /// Whether the walker goes on into its own manifest: so for a
    /// dependency, not for a development dependency, which is a leaf.
    pub descend: bool,
}

/// The remote revision a detailed entry asks for; a bare entry has none.
pub open spec fn remote_of(d: DependencyView) -> Option<GithubView> {
    match d {
        DependencyView::Simple(_) => None,
        DependencyView::Detailed { .. } => Some(github_of(d)),
    }
}

/// The model of an optional remote revision.
pub open spec fn remote_view(r: Option<GithubDependency>) -> Option<GithubView> {
    match r {
        Some(g) => Some(g@),
        None => None,
    }
}

/// Where the checkout of entry `d`, declared as `name` in the manifest at
/// `base` (none for the project's own manifest), lives relative to the
/// project root: an override path is taken relative to the manifest's
/// directory.
pub open spec fn node_location(base: Option<Seq<char>>, name: Seq<char>, d: DependencyView) -> Seq<char> {
    match (base, path_of(d)) {
        (Some(b), Some(p)) => joined(b, p),
        _ => repo_path_of(name, version_of(d), path_of(d)),
    }
}

/// `n` is the visit of the entry `d` declared as `name` in the manifest
/// at `base`.
pub open spec fn plans_entry(
    n: NodePlan,
    base: Option<Seq<char>>,
    name: Seq<char>,
    d: DependencyView,
    dev: bool,
) -> bool {
    &&& n.name@ == name
    &&& n.repo_path@ == node_location(base, name, d)
    &&& remote_view(n.remote) == remote_of(d)
    &&& n.descend == !dev
}

/// Every entry of a manifest: its dependencies, then its development
/// dependencies.
pub open spec fn all_entries(c: WorkspaceConfig) -> TableView {
    deps_view(c.dependencies) + deps_view(c.dev_dependencies)
}

/// The visit of one entry.
pub fn plan_node(base: &Option<String>, name: &String, dep: &Dependency, dev: bool) -> (r: NodePlan)
    ensures
        plans_entry(r, opt_view(*base), name@, dep@, dev),
{
    let remote = match dep {
        Dependency::Simple(_) => None,
        Dependency::Detailed { .. } => Some(dep.get_github_dependency()),
    };
    NodePlan {
        name: name.clone(),
        repo_path: match (base, dep.get_path()) {
            (Some(b), Some(p)) => join_path(b.as_str(), p.as_str()),
            (_, path) => find_repo_path(name.as_str(), dep.get_version(), path),
        },
        remote,
        descend: !dev,
    }
}

fn plan_table(
    base: &Option<String>,
    entries: &Option<Vec<(String, Dependency)>>,
    dev: bool,
    out: &mut Vec<NodePlan>,
)
    ensures
        final(out)@.len() == old(out)@.len() + deps_view(*entries).len(),
        forall|i: int| 0 <= i < old(out)@.len() ==> final(out)@[i] == old(out)@[i],
        forall|i: int|
            0 <= i < deps_view(*entries).len() ==> plans_entry(
                #[trigger] final(out)@[old(out)@.len() + i],
                opt_view(*base),
                deps_view(*entries)[i].0,
                deps_view(*entries)[i].1,
                dev,
            ),
{
    if let Some(v) = entries {
        let ghost t = table_view(v@);
        let ghost start = old(out)@.len();
        let mut i: usize = 0;
        while i < v.len()
            invariant
                t == table_view(v@),
                t == deps_view(*entries),
                start == old(out)@.len(),
                i <= v@.len(),
                out@.len() == start + i,
                forall|j: int| 0 <= j < start ==> out@[j] == old(out)@[j],
                forall|j: int| 0 <= j < i ==> plans_entry(#[trigger] out@[start + j], opt_view(*base), t[j].0, t[j].1, dev),
            decreases v@.len() - i,
        {
            let n = plan_node(base, &v[i].0, &v[i].1, dev);
            out.push(n);
            assert(out@[start + i] == n);
            i = i + 1;
        }
    }
}

/// The nodes of the manifest at `base` (none for the project's own),
/// dependencies first, then development dependencies, each in declaration
/// order.
pub fn plan_level(config: &WorkspaceConfig, base: &Option<String>) -> (r: Vec<NodePlan>)
    ensures
        r@.len() == all_entries(*config).len(),
        forall|i: int|
            0 <= i < deps_view(config.dependencies).len() ==> plans_entry(
                #[trigger] r@[i],
                opt_view(*base),
                deps_view(config.dependencies)[i].0,
                deps_view(config.dependencies)[i].1,
                false,
            ),
        forall|i: int|
            deps_view(config.dependencies).len() <= i < r@.len() ==> plans_entry(
                #[trigger] r@[i],
                opt_view(*base),
                all_entries(*config)[i].0,
                all_entries(*config)[i].1,
                true,
            ),
{
    let mut out: Vec<NodePlan> = Vec::new();
    plan_table(base, &config.dependencies, false, &mut out);
    let ghost p = deps_view(config.dependencies).len();
    assert forall|i: int| 0 <= i < p implies plans_entry(
        #[trigger] out@[i],
        opt_view(*base),
        deps_view(config.dependencies)[i].0,
        deps_view(config.dependencies)[i].1,
        false,
    ) by {
        assert(out@[0 + i] == out@[i]);
    }
    plan_table(base, &config.dev_dependencies, true, &mut out);
    assert forall|i: int| p <= i < out@.len() implies plans_entry(
        #[trigger] out@[i],
        opt_view(*base),
        all_entries(*config)[i].0,
        all_entries(*config)[i].1,
        true,
    ) by {
        assert(out@[p + (i - p)] == out@[i]);
    }
    out
}

/// The check of one node: a node with no remote is not checked and
/// passes; any other passes when its checkout matches.
pub fn inner_check_package(node: &NodePlan, head: &Option<RepoHead>) -> (r: bool)
    ensures
        r == match node.remote {
            Some(g) => head is Some && version_matches(g@, head->0@),
            None => true,
        },
{
    match &node.remote {
        Some(g) => check_github_repo_version(g, head),
        None => true,
    }
}

/// Every verdict in `v` holds.
pub open spec fn all_hold(v: Seq<bool>) -> bool {
    forall|i: int| 0 <= i < v.len() ==> v[i]
}

fn all_true(v: &Vec<bool>) -> (r: bool)
    ensures
        r == all_hold(v@),
{
    let mut i: usize = 0;
    while i < v.len()
        invariant
            i <= v@.len(),
            forall|j: int| 0 <= j < i ==> v@[j],
        decreases v@.len() - i,
    {
        if !v[i] {
            return false;
        }
        i = i + 1;
    }
    true
}

/// The verdict of a checked level: it passes when every node of it
/// matched (see [`inner_check_package`]) and every nested level descended
/// into passed.
pub fn level_verdict(matched: &Vec<bool>, nested: &Vec<bool>) -> (r: bool)
    ensures
        r == (all_hold(matched@) && all_hold(nested@)),
{
    all_true(matched) && all_true(nested)
}

/// What installing one node takes.
#[derive(Debug, PartialEq, Eq)]
pub enum NodeAction {
    /// The node has no remote: nothing to reconcile.
    Skip,
    /// The checkout is absent: clone it.
    Clone(ClonePlan),
    /// The checkout already matches.
    Keep,
    /// The checkout has diverged: remediate it towards this revision.
    Remediate(GithubDependency),
}

/// Decides how to install a node, from whether its path exists and what
/// its checkout shows.
pub fn check_and_install_github_package(node: &NodePlan, exists: bool, head: &Option<RepoHead>) -> (r:
    NodeAction)
    ensures
        node.remote is None ==> r is Skip,
        node.remote is Some && !exists ==> (r matches NodeAction::Clone(p) && p.url@
            == crate::paths::github_url(node.remote->0.url@) && p.branch == node.remote->0.branch
            && p.reset_to == crate::reconcile::reset_target(node.remote->0)),
        node.remote is Some && exists && head is Some && version_matches(node.remote->0@, head->0@)
            ==> r is Keep,
        node.remote is Some && exists && !(head is Some && version_matches(node.remote->0@, head->0@))
            ==> r == NodeAction::Remediate(node.remote->0),
{
    match &node.remote {
        None => NodeAction::Skip,
        Some(g) => match classify_node(g, exists, head) {
            NodeState::Absent => NodeAction::Clone(clone_plan(g)),
            NodeState::Matching => NodeAction::Keep,
            NodeState::Diverged => NodeAction::Remediate(g.clone()),
        },
    }
}

/// The lock entry of a dependency: the revision observed in its checkout,
/// with the version and override path the manifest declares.
pub open spec fn lock_entry_view(d: DependencyView, o: GithubView) -> DependencyView {
    DependencyView::Detailed {
        url: o.url,
        tag: o.tag,
        branch: o.branch,
        hash: o.hash,
        version: version_of(d),
        path: path_of(d),
    }
}

/// Builds the lock entry of a dependency from what its checkout shows.
pub fn lock_entry(dep: &Dependency, observed: &GithubDependency) -> (r: Dependency)
    ensures
        r@ == lock_entry_view(dep@, observed@),
{
    let o = observed.clone();
    Dependency::Detailed {
        url: o.url,
        tag: o.tag,
        branch: o.branch,
        hash: o.hash,
        version: dep.get_version(),
        path: dep.get_path(),
    }
}

/// The models of the observed revisions, in order.
pub open spec fn observed_views(o: Seq<Option<GithubDependency>>) -> Seq<Option<GithubView>> {
    o.map_values(|g: Option<GithubDependency>| remote_view(g))
}

/// The lock of one level after its first `n` entries in order: each entry
/// with an observed revision is recorded, and a name recorded twice keeps
/// its last entry.
pub open spec fn lock_table(t: TableView, obs: Seq<Option<GithubView>>, n: nat) -> TableView
    decreases n,
{
    if n == 0 {
        Seq::empty()
    } else if obs[n - 1] is Some {
        with_entry(
            lock_table(t, obs, (n - 1) as nat),
            t[n - 1].0,
            lock_entry_view(t[n - 1].1, obs[n - 1]->0),
        )
    } else {
        lock_table(t, obs, (n - 1) as nat)
    }
}

/// Some of the first `n` observations holds a revision.
pub open spec fn any_observed(obs: Seq<Option<GithubView>>, n: nat) -> bool {
    exists|i: int| 0 <= i < n && #[trigger] obs[i] is Some
}

fn record(lock: &mut WorkspaceLock, name: &String, dep: &Dependency, observed: &Option<GithubDependency>)
    ensures
        observed is Some ==> final(lock).dependencies is Some,
        observed is None ==> *final(lock) == *old(lock),
        deps_view(final(lock).dependencies) == match observed {
            Some(o) => with_entry(deps_view(old(lock).dependencies), name@, lock_entry_view(dep@, o@)),
            None => deps_view(old(lock).dependencies),
        },
{
    if let Some(o) = observed {
        lock.add_dependency(name.clone(), lock_entry(dep, o));
    }
}

/// The lock of one manifest level, from what was observed in the checkout
/// of each of its nodes, in the order of [`plan_level`]; a node with
/// nothing observed (one with no remote) is not recorded.
pub fn gen_lock_file(config: &WorkspaceConfig, observed: &Vec<Option<GithubDependency>>) -> (r:
    WorkspaceLock)
    requires
        observed@.len() == all_entries(*config).len(),
    ensures
        r.dependencies is Some <==> any_observed(
            observed_views(observed@),
            all_entries(*config).len(),
        ),
        deps_view(r.dependencies) == lock_table(
            all_entries(*config),
            observed_views(observed@),
            all_entries(*config).len(),
        ),
{
    let ghost all = all_entries(*config);
    let ghost obs = observed_views(observed@);
    let mut lock = WorkspaceLock::new();
    let n = observed.len();
    let mut k: usize = 0;
    if let Some(deps) = &config.dependencies {
        let mut i: usize = 0;
        while i < deps.len()
            invariant
                all == all_entries(*config),
                obs == observed_views(observed@),
                observed@.len() == all.len(),
                n == observed@.len(),
                config.dependencies == Some(*deps),
                k == i,
                i <= deps@.len(),
                lock.dependencies is Some <==> any_observed(obs, k as nat),
                deps_view(lock.dependencies) == lock_table(all, obs, k as nat),
            decreases deps@.len() - i,
        {
            assert(all[k as int] == (deps@[i as int].0@, deps@[i as int].1@));
            assert(obs[k as int] == remote_view(observed@[k as int]));
            record(&mut lock, &deps[i].0, &deps[i].1, &observed[k]);
            assert(any_observed(obs, (k + 1) as nat) <==> any_observed(obs, k as nat) || obs[k as int] is Some);
            i = i + 1;
            k = k + 1;
        }
    }
    let ghost p = k;
    assert(p == deps_view(config.dependencies).len());
    if let Some(dev) = &config.dev_dependencies {
        let mut j: usize = 0;
        while j < dev.len()
            invariant
                all == all_entries(*config),
                obs == observed_views(observed@),
                observed@.len() == all.len(),
                n == observed@.len(),
                config.dev_dependencies == Some(*dev),
                p == deps_view(config.dependencies).len(),
                k == p + j,
                j <= dev@.len(),
                all.len() == p + dev@.len(),
                lock.dependencies is Some <==> any_observed(obs, k as nat),
                deps_view(lock.dependencies) == lock_table(all, obs, k as nat),
            decreases dev@.len() - j,
        {
            assert(all[k as int] == (dev@[j as int].0@, dev@[j as int].1@));
            assert(obs[k as int] == remote_view(observed@[k as int]));
            record(&mut lock, &dev[j].0, &dev[j].1, &observed[k]);
            assert(any_observed(obs, (k + 1) as nat) <==> any_observed(obs, k as nat) || obs[k as int] is Some);
            j = j + 1;
            k = k + 1;
        }
    }
    lock
}

/// A manifest entry with its hash pin cleared.
pub open spec fn without_hash(d: DependencyView) -> DependencyView {
    match d {
        DependencyView::Simple(_) => d,
        DependencyView::Detailed { url, tag, branch, version, path, .. } => DependencyView::Detailed {
            url,
            tag,
            branch,
            hash: None,
            version,
            path,
        },
    }
}

/// Lock round trip: when a dependency pinned to a hash was installed so
/// that its checkout matches, the lock entry recorded from that checkout,
/// merged into the same entry with its hash cleared, still matches the
/// checkout.
pub proof fn lemma_lock_round_trip(d: DependencyView, h: HeadView, origin: Seq<char>)
    requires
        hash_of(d) is Some,
        version_matches(github_of(d), h),
    ensures
        version_matches(
            github_of(merged(without_hash(d), lock_entry_view(d, recorded(origin, h.commit)))),
            h,
        ),
{
}

} // verus!
