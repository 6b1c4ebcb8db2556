use vstd::prelude::*;
use crate::dependency::{clone_opt, opt_view, GithubDependency, GithubView};
use crate::paths::{github_url, resolve_github_url, str_eq};

verus! {

/// What was read from a checkout: the short name of the branch its head is
/// on (none when detached), the revision of its head, and the revision the
/// requested tag resolves to (none when no tag was requested or it could
/// not be resolved).
#[derive(Debug, PartialEq, Eq)]
pub struct RepoHead {
    pub branch: Option<String>,
    pub commit: String,
    pub tag_commit: Option<String>,
}

/// The mathematical model of a [`RepoHead`].
pub struct HeadView {
    pub branch: Option<Seq<char>>,
    pub commit: Seq<char>,
    pub tag_commit: Option<Seq<char>>,
}

impl View for RepoHead {
    type V = HeadView;

    open spec fn view(&self) -> HeadView {
        HeadView {
            branch: opt_view(self.branch),
            commit: self.commit@,
            tag_commit: opt_view(self.tag_commit),
        }
    }
}

/// The branch names accepted as a remote's default branch.
pub open spec fn is_default_branch(b: Option<Seq<char>>) -> bool {
    b == Some("main"@) || b == Some("master"@)
}

/// The branch axis: the named branch exactly, or a default branch when
/// none is named.
pub open spec fn branch_matches(want: Option<Seq<char>>, head: Option<Seq<char>>) -> bool {
    match want {
        Some(b) => head == Some(b),
        None => is_default_branch(head),
    }
}

/// A checkout satisfies a specifier when every axis the specifier sets
/// holds: the branch, the exact hash, and the revision of the tag.
pub open spec fn version_matches(g: GithubView, h: HeadView) -> bool {
    &&& branch_matches(g.branch, h.branch)
    &&& (g.hash is Some ==> h.commit == g.hash->0)
    &&& (g.tag is Some ==> h.tag_commit == Some(h.commit))
}

/// Whether the checkout matches what `github_config` asks for; `None`
/// stands for a checkout that could not be opened.
pub fn check_github_repo_version(github_config: &GithubDependency, head: &Option<RepoHead>) -> (r:
    bool)
    ensures
        r == match head {
            Some(h) => version_matches(github_config@, h@),
            None => false,
        },
{
    let h = match head {
        Some(h) => h,
        None => return false,
    };
    let branch_ok = match &github_config.branch {
        Some(b) => match &h.branch {
            Some(hb) => str_eq(hb.as_str(), b.as_str()),
            None => false,
        },
        None => match &h.branch {
            Some(hb) => str_eq(hb.as_str(), "main") || str_eq(hb.as_str(), "master"),
            None => false,
        },
    };
    if !branch_ok {
        return false;
    }
    if let Some(hash) = &github_config.hash {
        if !str_eq(h.commit.as_str(), hash.as_str()) {
            return false;
        }
    }
    if github_config.tag.is_some() {
        match &h.tag_commit {
            Some(tc) => {
                if !str_eq(tc.as_str(), h.commit.as_str()) {
                    return false;
                }
            },
            None => return false,
        }
    }
    true
}

/// Matching is a strict conjunction: a checkout on the right branch whose
/// head is not the pinned hash does not match.
pub proof fn lemma_match_needs_every_axis(g: GithubView, h: HeadView)
    requires
        branch_matches(g.branch, h.branch),
        g.hash is Some,
        h.commit != g.hash->0,
    ensures
        !version_matches(g, h),
{
}

/// Where a dependency node stands against its specifier.
#[derive(Debug, PartialEq, Eq)]
pub enum NodeState {
    Absent,
    Matching,
    Diverged,
}

/// Classifies a node from whether its path exists and what its checkout
/// shows.
pub fn classify_node(github_config: &GithubDependency, exists: bool, head: &Option<RepoHead>) -> (r:
    NodeState)
    ensures
        !exists ==> r is Absent,
        exists ==> (r is Matching <==> (head is Some && version_matches(github_config@, head->0@))),
        exists ==> (r is Diverged <==> !(head is Some && version_matches(github_config@, head->0@))),
{
    if !exists {
        NodeState::Absent
    } else if check_github_repo_version(github_config, head) {
        NodeState::Matching
    } else {
        NodeState::Diverged
    }
}

/// The revision a specifier designates.
#[derive(Debug, PartialEq, Eq)]
pub enum RevisionTarget {
    Hash(String),
    Tag(String),
    Branch(String),
    DefaultBranch,
}

/// The target of a specifier: hash before tag before branch, and the
/// remote's default branch when none is set.
pub fn resolve_target(github_config: &GithubDependency) -> (r: RevisionTarget)
    ensures
        match github_config.hash {
            Some(h) => r == RevisionTarget::Hash(h),
            None => match github_config.tag {
                Some(t) => r == RevisionTarget::Tag(t),
                None => match github_config.branch {
                    Some(b) => r == RevisionTarget::Branch(b),
                    None => r is DefaultBranch,
                },
            },
        },
{
    match &github_config.hash {
        Some(h) => RevisionTarget::Hash(h.clone()),
        None => match &github_config.tag {
            Some(t) => RevisionTarget::Tag(t.clone()),
            None => match &github_config.branch {
                Some(b) => RevisionTarget::Branch(b.clone()),
                None => RevisionTarget::DefaultBranch,
            },
        },
    }
}

/// The revision a checkout is reset to once its branch is right: the hash
/// when one is set, else the tag.
pub open spec fn reset_target(g: GithubDependency) -> Option<String> {
    if g.hash is Some {
        g.hash
    } else {
        g.tag
    }
}

/// The revision a checkout is reset to once its branch is right.
pub fn reset_target_of(github_config: &GithubDependency) -> (r: Option<String>)
    ensures
        r == reset_target(*github_config),
{
    match resolve_target(github_config) {
        RevisionTarget::Hash(h) => Some(h),
        RevisionTarget::Tag(t) => Some(t),
        RevisionTarget::Branch(_) => None,
        RevisionTarget::DefaultBranch => None,
    }
}

/// How to install an absent node: clone `url` on `branch` (the remote's
/// default when none), then reset hard to `reset_to` when set, then bring
/// in the submodules.
#[derive(Debug, PartialEq, Eq)]
pub struct ClonePlan {
    pub url: String,
    pub branch: Option<String>,
    pub reset_to: Option<String>,
}

/// Plans the clone of an absent node.
pub fn clone_plan(github_config: &GithubDependency) -> (r: ClonePlan)
    ensures
        r.url@ == github_url(github_config.url@),
        r.branch == github_config.branch,
        r.reset_to == reset_target(*github_config),
{
    ClonePlan {
        url: resolve_github_url(github_config.url.as_str()),
        branch: clone_opt(&github_config.branch),
        reset_to: reset_target_of(github_config),
    }
}

/// The specifier recorded for a checkout whose `origin` remote is
/// `origin` and whose head is at `commit`.
pub open spec fn recorded(origin: Seq<char>, commit: Seq<char>) -> GithubView {
    GithubView { url: github_url(origin), tag: None, branch: None, hash: Some(commit) }
}

/// The specifier recorded for a checkout: its origin's address and the
/// exact revision of its head.
pub fn get_dep_from_repo(origin_url: &str, head_commit: &str) -> (r: GithubDependency)
    ensures
        r@ == recorded(origin_url@, head_commit@),
{
    GithubDependency {
        url: resolve_github_url(origin_url),
        tag: None,
        branch: None,
        hash: Some(String::from_str(head_commit)),
    }
}

} // verus!
