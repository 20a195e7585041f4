use git_cache::submodules::{submodule_commits, submodule_urls, GitRepo, SubmoduleDecl, SubmoduleSpec};

const GITMODULES: &str = "[submodule \"a\"]\n\tpath = libs/a\n\turl = https://example.com/a.git\n[submodule \"b\"]\n\tpath = libs/b\n\turl = https://example.com/b.git\n\tbranch = main\n";

fn status_lines() -> Vec<String> {
    vec![
        " f47ce7b5fbbb3aa43d33d2be1f6cd3746b13d5bf libs/b".to_string(),
        "-0123456789012345678901234567890123456789 other".to_string(),
    ]
}

#[test]
fn status_lines_parse_into_path_and_commit() {
    let e = submodule_commits(&status_lines());
    assert_eq!(e.len(), 2);
    assert_eq!(e[0].0, "libs/b");
    assert_eq!(e[0].1, "f47ce7b5fbbb3aa43d33d2be1f6cd3746b13d5bf");
    assert_eq!(e[1].0, "other");
}

#[test]
fn short_status_lines_are_passed_over() {
    let e = submodule_commits(&vec!["".to_string(), " abc path".to_string()]);
    assert!(e.is_empty());
}

#[test]
fn gitmodules_values_are_read() {
    let repo = GitRepo { path: "work".to_string() };
    let lines = vec![
        " 1111111111111111111111111111111111111111 libs/a".to_string(),
        " 2222222222222222222222222222222222222222 libs/b".to_string(),
    ];
    let s = repo.get_submodules(Some(GITMODULES.as_bytes()), &lines, None).ok().unwrap();
    assert_eq!(s[0].path, "libs/a");
    assert_eq!(s[0].url, "https://example.com/a.git");
    assert_eq!(s[0].branch, None);
    assert_eq!(s[1].url, "https://example.com/b.git");
    assert_eq!(s[1].branch.as_deref(), Some("main"));
}

#[test]
fn unpinned_submodule_is_skipped_and_others_kept() {
    let repo = GitRepo { path: "work".to_string() };
    let s = repo.get_submodules(Some(GITMODULES.as_bytes()), &status_lines(), None).ok().unwrap();
    assert_eq!(s.len(), 1);
    assert_eq!(s[0].path, "libs/b");
    assert_eq!(s[0].url, "https://example.com/b.git");
    assert_eq!(s[0].commit, "f47ce7b5fbbb3aa43d33d2be1f6cd3746b13d5bf");
    assert_eq!(s[0].branch.as_deref(), Some("main"));
}

#[test]
fn absent_gitmodules_gives_no_submodules() {
    let repo = GitRepo { path: "work".to_string() };
    let s = repo.get_submodules(None, &status_lines(), None).ok().unwrap();
    assert!(s.is_empty());
}

#[test]
fn filter_keeps_only_named_paths() {
    let repo = GitRepo { path: "work".to_string() };
    let lines = vec![
        " 1111111111111111111111111111111111111111 libs/a".to_string(),
        " 2222222222222222222222222222222222222222 libs/b".to_string(),
    ];
    let all = repo.get_submodules(Some(GITMODULES.as_bytes()), &lines, None).ok().unwrap();
    assert_eq!(all.len(), 2);
    let filter = vec!["libs/a".to_string()];
    let some = repo.get_submodules(Some(GITMODULES.as_bytes()), &lines, Some(&filter)).ok().unwrap();
    assert_eq!(some.len(), 1);
    assert_eq!(some[0].path, "libs/a");
    assert_eq!(some[0].commit, "1111111111111111111111111111111111111111");
}

#[test]
fn declaration_without_url_is_skipped() {
    let repo = GitRepo { path: "work".to_string() };
    let data = "[submodule \"x\"]\n\tpath = libs/b\n";
    let s = repo.get_submodules(Some(data.as_bytes()), &status_lines(), None).ok().unwrap();
    assert!(s.is_empty());
}

#[test]
fn unparsable_gitmodules_is_an_error() {
    let repo = GitRepo { path: "work".to_string() };
    assert!(repo.get_submodules(Some(b"[submodule \"a\"\n\tpath"), &status_lines(), None).is_err());
}

#[test]
fn submodule_urls_in_order() {
    let decls = vec![
        SubmoduleDecl { path: Some("a".to_string()), url: Some("u1".to_string()), branch: None },
        SubmoduleDecl { path: Some("b".to_string()), url: None, branch: None },
        SubmoduleDecl { path: None, url: Some("u3".to_string()), branch: None },
    ];
    assert_eq!(submodule_urls(&decls), vec!["u1".to_string(), "u3".to_string()]);
}

#[test]
fn submodule_spec_new_keeps_fields() {
    let s = SubmoduleSpec::new("p".to_string(), "u".to_string(), "c".to_string(), None);
    assert_eq!(s.path, "p");
    assert_eq!(s.url, "u");
    assert_eq!(s.commit, "c");
    assert!(s.branch.is_none());
}
