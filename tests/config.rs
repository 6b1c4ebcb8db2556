use luap::config::{WorkspaceConfig, WorkspaceLock};
use luap::dependency::Dependency;

fn s(v: &str) -> String {
    v.to_string()
}

fn pinned(url: &str, hash: &str) -> Dependency {
    Dependency::Detailed { url: s(url), tag: None, branch: None, hash: Some(s(hash)), version: None, path: None }
}

#[test]
fn add_then_get() {
    let mut c = WorkspaceConfig::new();
    assert_eq!(c.get_dependency("a"), None);
    c.add_dependency(s("a"), Dependency::Simple(s("1.0")));
    c.add_dependency(s("b"), pinned("org/b", "h"));
    assert_eq!(c.get_dependency("a"), Some(&Dependency::Simple(s("1.0"))));
    assert_eq!(c.get_dependency("b"), Some(&pinned("org/b", "h")));
    assert_eq!(c.get_dev_dependency("a"), None);
}

#[test]
fn add_replaces_same_name() {
    let mut c = WorkspaceConfig::new();
    c.add_dependency(s("a"), Dependency::Simple(s("1.0")));
    c.add_dependency(s("a"), Dependency::Simple(s("2.0")));
    assert_eq!(c.dependencies.as_ref().unwrap().len(), 1);
    assert_eq!(c.get_dependency("a"), Some(&Dependency::Simple(s("2.0"))));
}

#[test]
fn dev_table_is_independent() {
    let mut c = WorkspaceConfig::new();
    c.add_dependency(s("a"), Dependency::Simple(s("1.0")));
    c.add_dev_dependency(s("a"), Dependency::Simple(s("9.0")));
    assert_eq!(c.get_dependency("a"), Some(&Dependency::Simple(s("1.0"))));
    assert_eq!(c.get_dev_dependency("a"), Some(&Dependency::Simple(s("9.0"))));
    c.remove_dev_dependency("a");
    assert_eq!(c.get_dev_dependency("a"), None);
    assert_eq!(c.get_dependency("a"), Some(&Dependency::Simple(s("1.0"))));
}

#[test]
fn remove_keeps_other_entries() {
    let mut c = WorkspaceConfig::new();
    c.add_dependency(s("a"), Dependency::Simple(s("1")));
    c.add_dependency(s("b"), Dependency::Simple(s("2")));
    c.add_dependency(s("c"), Dependency::Simple(s("3")));
    c.remove_dependency("b");
    assert_eq!(c.get_dependency("b"), None);
    assert_eq!(
        c.dependencies,
        Some(vec![(s("a"), Dependency::Simple(s("1"))), (s("c"), Dependency::Simple(s("3")))])
    );
    c.remove_dependency("zzz");
    assert_eq!(c.dependencies.as_ref().unwrap().len(), 2);
}

#[test]
fn remove_from_absent_table_keeps_it_absent() {
    let mut c = WorkspaceConfig::new();
    c.remove_dependency("a");
    c.remove_dev_dependency("a");
    assert_eq!(c.dependencies, None);
    assert_eq!(c.dev_dependencies, None);
}

#[test]
fn lock_file_merges_into_both_tables() {
    let mut c = WorkspaceConfig::new();
    c.add_dependency(s("a"), Dependency::Simple(s("org/a")));
    c.add_dependency(s("b"), pinned("org/b", "mine"));
    c.add_dev_dependency(s("d"), Dependency::Simple(s("org/d")));
    let mut lock = WorkspaceLock::new();
    lock.add_dependency(s("a"), pinned("https://github.com/org/a", "ha"));
    lock.add_dependency(s("b"), pinned("https://github.com/org/b", "hb"));
    lock.add_dependency(s("d"), pinned("https://github.com/org/d", "hd"));
    c.try_merge_lock_file(&lock);
    assert_eq!(c.get_dependency("a"), Some(&pinned("org/a", "ha")));
    assert_eq!(c.get_dependency("b"), Some(&pinned("org/b", "mine")));
    assert_eq!(c.get_dev_dependency("d"), Some(&pinned("org/d", "hd")));
}

#[test]
fn empty_lock_changes_nothing() {
    let mut c = WorkspaceConfig::new();
    c.add_dependency(s("a"), Dependency::Simple(s("org/a")));
    c.try_merge_lock_file(&WorkspaceLock::new());
    assert_eq!(c.get_dependency("a"), Some(&Dependency::Simple(s("org/a"))));
    assert_eq!(c.dev_dependencies, None);
}

#[test]
fn lock_add_replaces() {
    let mut lock = WorkspaceLock::new();
    assert_eq!(lock.dependencies, None);
    lock.add_dependency(s("a"), pinned("u", "1"));
    lock.add_dependency(s("a"), pinned("u", "2"));
    assert_eq!(lock.dependencies, Some(vec![(s("a"), pinned("u", "2"))]));
}
