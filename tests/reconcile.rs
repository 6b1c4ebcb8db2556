use luap::dependency::GithubDependency;
use luap::reconcile::{
    check_github_repo_version, classify_node, clone_plan, get_dep_from_repo, resolve_target,
    ClonePlan, NodeState, RepoHead, RevisionTarget,
};

fn gh(branch: Option<&str>, tag: Option<&str>, hash: Option<&str>) -> GithubDependency {
    GithubDependency {
        url: "org/repo".to_string(),
        tag: tag.map(|t| t.to_string()),
        branch: branch.map(|b| b.to_string()),
        hash: hash.map(|h| h.to_string()),
    }
}

fn head(branch: Option<&str>, commit: &str, tag_commit: Option<&str>) -> Option<RepoHead> {
    Some(RepoHead {
        branch: branch.map(|b| b.to_string()),
        commit: commit.to_string(),
        tag_commit: tag_commit.map(|t| t.to_string()),
    })
}

#[test]
fn branch_match_with_wrong_hash_fails() {
    let g = gh(Some("dev"), None, Some("abc123"));
    assert!(!check_github_repo_version(&g, &head(Some("dev"), "fff000", None)));
    assert!(check_github_repo_version(&g, &head(Some("dev"), "abc123", None)));
    assert!(!check_github_repo_version(&g, &head(Some("main"), "abc123", None)));
}

#[test]
fn default_branch_accepts_only_main_or_master() {
    let g = gh(None, None, None);
    assert!(check_github_repo_version(&g, &head(Some("main"), "c1", None)));
    assert!(check_github_repo_version(&g, &head(Some("master"), "c1", None)));
    assert!(!check_github_repo_version(&g, &head(Some("trunk"), "c1", None)));
    assert!(!check_github_repo_version(&g, &head(None, "c1", None)));
}

#[test]
fn tag_must_resolve_to_head() {
    let g = gh(None, Some("v1"), None);
    assert!(check_github_repo_version(&g, &head(Some("main"), "c1", Some("c1"))));
    assert!(!check_github_repo_version(&g, &head(Some("main"), "c1", Some("c2"))));
    assert!(!check_github_repo_version(&g, &head(Some("main"), "c1", None)));
}

#[test]
fn unopened_checkout_does_not_match() {
    assert!(!check_github_repo_version(&gh(None, None, None), &None));
}

#[test]
fn node_states() {
    let g = gh(None, None, Some("abc"));
    assert_eq!(classify_node(&g, false, &None), NodeState::Absent);
    assert_eq!(classify_node(&g, true, &head(Some("main"), "abc", None)), NodeState::Matching);
    assert_eq!(classify_node(&g, true, &head(Some("main"), "zzz", None)), NodeState::Diverged);
    assert_eq!(classify_node(&g, true, &None), NodeState::Diverged);
}

#[test]
fn target_precedence() {
    assert_eq!(resolve_target(&gh(Some("b"), Some("t"), Some("h"))), RevisionTarget::Hash("h".to_string()));
    assert_eq!(resolve_target(&gh(Some("b"), Some("t"), None)), RevisionTarget::Tag("t".to_string()));
    assert_eq!(resolve_target(&gh(Some("b"), None, None)), RevisionTarget::Branch("b".to_string()));
    assert_eq!(resolve_target(&gh(None, None, None)), RevisionTarget::DefaultBranch);
}

#[test]
fn clone_plans() {
    assert_eq!(
        clone_plan(&gh(Some("dev"), Some("v1"), Some("abc"))),
        ClonePlan {
            url: "https://github.com/org/repo".to_string(),
            branch: Some("dev".to_string()),
            reset_to: Some("abc".to_string()),
        }
    );
    assert_eq!(
        clone_plan(&gh(None, Some("v1"), None)),
        ClonePlan { url: "https://github.com/org/repo".to_string(), branch: None, reset_to: Some("v1".to_string()) }
    );
}

#[test]
fn recorded_dependency_from_checkout() {
    assert_eq!(
        get_dep_from_repo("org/repo", "0123abcd"),
        GithubDependency {
            url: "https://github.com/org/repo".to_string(),
            tag: None,
            branch: None,
            hash: Some("0123abcd".to_string()),
        }
    );
}
