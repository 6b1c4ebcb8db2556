use luap::paths::{find_library_path, find_repo_path, join_path, resolve_github_url};

#[test]
fn github_url_expansion() {
    assert_eq!(resolve_github_url("org/repo"), "https://github.com/org/repo");
    assert_eq!(resolve_github_url("https://example.com/x.git"), "https://example.com/x.git");
    assert_eq!(resolve_github_url("git@github.com:org/repo.git"), "git@github.com:org/repo.git");
    assert_eq!(resolve_github_url(""), "https://github.com/");
    assert_eq!(resolve_github_url("http://x"), "https://github.com/http://x");
}

#[test]
fn repo_path_is_pure_and_versioned() {
    let a = find_repo_path("dep", Some("1.0".to_string()), None);
    let b = find_repo_path("dep", Some("1.0".to_string()), None);
    assert_eq!(a, b);
    assert_eq!(a, "lua_modules/dep/1.0");
    assert_eq!(find_repo_path("dep", None, None), "lua_modules/dep");
    assert_ne!(
        find_repo_path("dep", Some("1.0".to_string()), None),
        find_repo_path("dep", Some("2.0".to_string()), None)
    );
}

#[test]
fn override_path_wins_over_name_and_version() {
    let p = Some("vendor/foo".to_string());
    assert_eq!(find_repo_path("dep", None, p.clone()), "vendor/foo");
    assert_eq!(find_repo_path("other", Some("9.9".to_string()), p), "vendor/foo");
}

#[test]
fn library_path_choice() {
    assert_eq!(find_library_path("base", Some("src".to_string()), true, true), "base/src");
    assert_eq!(find_library_path("base", None, true, true), "base/library");
    assert_eq!(find_library_path("base", None, false, true), "base/lib");
    assert_eq!(find_library_path("base", None, false, false), "base");
    assert_eq!(join_path("a", "b"), "a/b");
}
