use luap::dependency::{Dependency, GithubDependency};

fn s(v: &str) -> String {
    v.to_string()
}

fn detailed(
    url: &str,
    tag: Option<&str>,
    branch: Option<&str>,
    hash: Option<&str>,
    version: Option<&str>,
    path: Option<&str>,
) -> Dependency {
    Dependency::Detailed {
        url: s(url),
        tag: tag.map(s),
        branch: branch.map(s),
        hash: hash.map(s),
        version: version.map(s),
        path: path.map(s),
    }
}

#[test]
fn merge_keeps_manifest_tag_and_takes_locked_branch() {
    let mut m = detailed("org/repo", Some("v1"), None, None, None, None);
    let l = detailed("org/repo", None, Some("main"), Some("abc"), Some("2.0"), Some("vendor/x"));
    m.try_merge_lock_dependency(&l);
    assert_eq!(
        m,
        detailed("org/repo", Some("v1"), Some("main"), Some("abc"), Some("2.0"), Some("vendor/x"))
    );
}

#[test]
fn merge_never_overrides_manifest_fields() {
    let mut m = detailed("a/b", Some("t1"), Some("dev"), Some("h1"), Some("1.0"), Some("p1"));
    let l = detailed("c/d", Some("t2"), Some("main"), Some("h2"), Some("2.0"), Some("p2"));
    m.try_merge_lock_dependency(&l);
    assert_eq!(m, detailed("a/b", Some("t1"), Some("dev"), Some("h1"), Some("1.0"), Some("p1")));
}

#[test]
fn merge_is_idempotent_on_values() {
    let l = detailed("org/repo", None, Some("main"), Some("abc123"), None, None);
    let mut once = detailed("org/repo", Some("v1"), None, None, None, None);
    once.try_merge_lock_dependency(&l);
    let mut twice = once.clone();
    twice.try_merge_lock_dependency(&l);
    assert_eq!(once, twice);
}

#[test]
fn merge_promotes_simple_entry() {
    let mut m = Dependency::Simple(s("org/repo"));
    let l = detailed("https://github.com/org/repo", None, None, Some("deadbeef"), None, None);
    m.try_merge_lock_dependency(&l);
    assert_eq!(m, detailed("org/repo", None, None, Some("deadbeef"), None, None));
}

#[test]
fn merge_with_simple_lock_entry_changes_nothing() {
    let mut m = detailed("org/repo", Some("v1"), None, None, None, None);
    m.try_merge_lock_dependency(&Dependency::Simple(s("other")));
    assert_eq!(m, detailed("org/repo", Some("v1"), None, None, None, None));
}

#[test]
fn github_dependency_of_entries() {
    let d = detailed("org/repo", Some("v1"), Some("main"), Some("abc"), Some("1.0"), Some("p"));
    assert_eq!(
        d.get_github_dependency(),
        GithubDependency { url: s("org/repo"), tag: Some(s("v1")), branch: Some(s("main")), hash: Some(s("abc")) }
    );
    assert_eq!(d.get_version(), Some(s("1.0")));
    assert_eq!(d.get_path(), Some(s("p")));
    assert_eq!(d.get_url(), s("org/repo"));
    let simple = Dependency::Simple(s("1.0"));
    assert_eq!(
        simple.get_github_dependency(),
        GithubDependency { url: s("1.0"), tag: None, branch: None, hash: None }
    );
    assert_eq!(simple.get_version(), None);
    assert_eq!(simple.get_path(), None);
}
