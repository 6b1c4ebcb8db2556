use luap::commands::{
    init_package, inner_add_package, remove_dev_package, remove_package, update_all_package,
    update_one_package, UpdateRequest,
};
use luap::config::{Package, WorkspaceConfig};
use luap::dependency::{Dependency, GithubDependency};

fn s(v: &str) -> String {
    v.to_string()
}

fn sample() -> WorkspaceConfig {
    let mut c = WorkspaceConfig::new();
    c.add_dependency(s("a"), Dependency::Simple(s("org/a")));
    c.add_dependency(
        s("b"),
        Dependency::Detailed { url: s("org/b"), tag: None, branch: None, hash: None, version: Some(s("2")), path: None },
    );
    c.add_dependency(
        s("c"),
        Dependency::Detailed { url: s("org/c"), tag: None, branch: None, hash: None, version: None, path: Some(s("vendor/c")) },
    );
    c.add_dev_dependency(s("t"), Dependency::Simple(s("org/t")));
    c
}

#[test]
fn remove_returns_resolved_path_and_keeps_others() {
    let mut c = sample();
    assert_eq!(remove_package(&mut c, "b"), Some(s("lua_modules/b/2")));
    assert_eq!(c.get_dependency("b"), None);
    assert_eq!(c.get_dependency("a"), Some(&Dependency::Simple(s("org/a"))));
    assert!(c.get_dependency("c").is_some());
    assert!(c.get_dev_dependency("t").is_some());
    assert_eq!(remove_package(&mut c, "c"), Some(s("vendor/c")));
    assert_eq!(remove_package(&mut c, "missing"), None);
    assert_eq!(c.dependencies.as_ref().unwrap().len(), 1);
}

#[test]
fn remove_dev_only_touches_dev_table() {
    let mut c = sample();
    assert_eq!(remove_dev_package(&mut c, "a"), None);
    assert_eq!(remove_dev_package(&mut c, "t"), Some(s("lua_modules/t")));
    assert_eq!(c.dev_dependencies, Some(vec![]));
    assert_eq!(c.dependencies.as_ref().unwrap().len(), 3);
}

#[test]
fn init_creates_named_package() {
    let c = init_package(s("proj"));
    assert_eq!(c.package, Some(Package { name: Some(s("proj")), version: Some(s("0.1.0")), path: None }));
    assert_eq!(c.dependencies, Some(vec![]));
    assert_eq!(c.dev_dependencies, Some(vec![]));
}

#[test]
fn add_declares_pinned_entry() {
    let mut c = init_package(s("proj"));
    inner_add_package(&mut c, s("x"), s("org/x"), Some(s("dev")), None, Some(s("h")), false);
    assert_eq!(
        c.get_dependency("x"),
        Some(&Dependency::Detailed { url: s("org/x"), tag: None, branch: Some(s("dev")), hash: Some(s("h")), version: None, path: None })
    );
    inner_add_package(&mut c, s("y"), s("org/y"), None, Some(s("v1")), None, true);
    assert!(c.get_dependency("y").is_none());
    assert!(c.get_dev_dependency("y").is_some());
}

#[test]
fn update_requests() {
    let c = sample();
    assert_eq!(update_one_package(&c, "zzz", None, None, None), UpdateRequest::NotFound);
    assert_eq!(update_one_package(&c, "b", None, None, None), UpdateRequest::ToLatest { repo_path: s("lua_modules/b/2") });
    assert_eq!(
        update_one_package(&c, "t", None, Some(s("v3")), None),
        UpdateRequest::ToSpecial {
            repo_path: s("lua_modules/t"),
            github: GithubDependency { url: s("org/t"), tag: Some(s("v3")), branch: None, hash: None },
        }
    );
    assert_eq!(
        update_all_package(&c),
        vec![
            UpdateRequest::ToLatest { repo_path: s("lua_modules/a") },
            UpdateRequest::ToLatest { repo_path: s("lua_modules/b/2") },
            UpdateRequest::ToLatest { repo_path: s("vendor/c") },
            UpdateRequest::ToLatest { repo_path: s("lua_modules/t") },
        ]
    );
}
