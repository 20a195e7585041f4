use git_cache::clone_flow::{CloneAction, CloneError, CloneRun, Outcome, Phase};
use git_cache::config::GitCache;

fn ok() -> Outcome {
    Outcome { success: true, output: Vec::new() }
}

fn fail() -> Outcome {
    Outcome { success: false, output: Vec::new() }
}

fn printed(s: &str) -> Outcome {
    Outcome { success: true, output: s.as_bytes().to_vec() }
}

fn begin(url: &str, target: &str, commit: Option<&str>) -> (CloneRun, CloneAction) {
    GitCache::new("/cache".to_string())
        .cloner()
        .repository_url(url.to_string())
        .target_path(Some(target.to_string()))
        .commit(commit.map(|c| c.to_string()))
        .do_clone()
        .ok()
        .unwrap()
}

#[test]
fn occupied_target_fails_before_any_change() {
    let (run, action) = begin("https://example.com/project.git", "work", None);
    match &action {
        CloneAction::CheckTarget { path } => assert_eq!(path, "work"),
        _ => panic!("the target is checked first"),
    }
    let (run, action) = run.step(&fail());
    match action {
        CloneAction::Finish { result: Err(CloneError::DestinationExists { path }) } => assert_eq!(path, "work"),
        _ => panic!("expected DestinationExists"),
    }
    assert!(matches!(run.phase, Phase::Finished));
}

#[test]
fn fresh_cached_clone_mirrors_and_points_origin_upstream() {
    let url = "https://example.com/project.git";
    let (run, _) = begin(url, "work", None);
    let (run, a) = run.step(&ok());
    match &a {
        CloneAction::LockWrite { lock_path } => assert_eq!(lock_path, "/cache/example.com/project.git.lock"),
        _ => panic!("write lock expected"),
    }
    let (run, a) = run.step(&ok());
    assert!(matches!(a, CloneAction::ProbeRepository { .. }));
    // the cache entry is not a repository yet
    let (run, a) = run.step(&Outcome { success: false, output: Vec::new() });
    assert!(matches!(a, CloneAction::CreateDir { .. }));
    let (run, a) = run.step(&ok());
    match &a {
        CloneAction::Mirror { url: u, dest } => {
            assert_eq!(u, url);
            assert_eq!(dest, "/cache/example.com/project.git");
        },
        _ => panic!("mirror expected"),
    }
    let (run, a) = run.step(&ok());
    assert!(matches!(a, CloneAction::Unlock));
    let (run, a) = run.step(&ok());
    assert!(matches!(a, CloneAction::LockRead { .. }));
    let (run, a) = run.step(&ok());
    match &a {
        CloneAction::SharedClone { src, dest, extra } => {
            assert_eq!(src, "/cache/example.com/project.git");
            assert_eq!(dest, "work");
            assert!(extra.is_none());
        },
        _ => panic!("clone-out expected"),
    }
    let (run, a) = run.step(&ok());
    match &a {
        CloneAction::SetRemoteUrl { repo, url: u } => {
            assert_eq!(repo, "work");
            assert_eq!(u, url);
        },
        _ => panic!("origin rewrite expected"),
    }
    let (run, a) = run.step(&ok());
    assert!(matches!(a, CloneAction::Unlock));
    let (run, a) = run.step(&ok());
    assert!(matches!(a, CloneAction::Finish { result: Ok(()) }));
    assert!(matches!(run.phase, Phase::Finished));
}

#[test]
fn missing_commit_updates_once_then_fails() {
    let (run, _) = begin("https://example.com/project.git", "work", Some("abc123"));
    let (run, _) = run.step(&ok()); // target free -> write lock
    let (run, _) = run.step(&ok()); // locked -> probe
    let (run, a) = run.step(&printed(".\n")); // a mirror exists
    assert!(matches!(a, CloneAction::HasCommit { .. }));
    let mut updates = 0;
    let (run, a) = run.step(&fail()); // commit absent
    if matches!(a, CloneAction::Update { .. }) {
        updates += 1;
    }
    let (run, a) = run.step(&ok()); // update done
    match &a {
        CloneAction::HasCommit { commit, .. } => assert_eq!(commit, "abc123"),
        _ => panic!("second commit check expected"),
    }
    let (run, a) = run.step(&fail()); // still absent
    assert!(matches!(a, CloneAction::Unlock));
    let (run, a) = run.step(&ok());
    match a {
        CloneAction::Finish { result: Err(CloneError::CommitNotFound { url, commit }) } => {
            assert_eq!(url, "https://example.com/project.git");
            assert_eq!(commit, "abc123");
        },
        _ => panic!("CommitNotFound expected"),
    }
    assert_eq!(updates, 1);
    assert!(matches!(run.phase, Phase::Finished));
}

#[test]
fn present_commit_needs_no_update_and_is_checked_out() {
    let (run, _) = begin("https://example.com/project.git", "work", Some("abc123"));
    let (run, _) = run.step(&ok());
    let (run, _) = run.step(&ok());
    let (run, _) = run.step(&printed(".git\n"));
    let (run, a) = run.step(&ok()); // commit present
    assert!(matches!(a, CloneAction::Unlock));
    let (run, _) = run.step(&ok()); // read lock asked
    let (run, _) = run.step(&ok()); // shared clone
    let (run, _) = run.step(&ok()); // set url
    let (run, _) = run.step(&ok()); // unlock
    let (run, a) = run.step(&ok());
    assert!(matches!(a, CloneAction::QuietDetachedHead { .. }));
    let (run, a) = run.step(&ok());
    match &a {
        CloneAction::Checkout { repo, commit } => {
            assert_eq!(repo, "work");
            assert_eq!(commit, "abc123");
        },
        _ => panic!("checkout expected"),
    }
    let (_, a) = run.step(&ok());
    assert!(matches!(a, CloneAction::Finish { result: Ok(()) }));
}

#[test]
fn forced_update_on_existing_mirror() {
    let (run, _) = GitCache::new("/cache".to_string())
        .cloner()
        .repository_url("git@example.com:org/p.git".to_string())
        .target_path(Some("w".to_string()))
        .update(true)
        .do_clone()
        .ok()
        .unwrap();
    let (run, _) = run.step(&ok());
    let (run, _) = run.step(&ok());
    let (run, a) = run.step(&printed(".\n"));
    match &a {
        CloneAction::Update { repo } => assert_eq!(repo, "/cache/example.com/org/p.git"),
        _ => panic!("update expected"),
    }
    let (run, a) = run.step(&fail());
    assert!(matches!(a, CloneAction::Unlock));
    let (_, a) = run.step(&ok());
    assert!(matches!(a, CloneAction::Finish { result: Err(CloneError::Update { .. }) }));
}

#[test]
fn lock_discipline_over_a_whole_clone() {
    let (mut run, mut action) = begin("https://example.com/project.git", "work", Some("c1"));
    // outcomes: target ok, lock ok, probe finds nothing, mkdir, mirror, unlock, read lock, clone, set-url,
    // unlock, config, checkout
    let outcomes = vec![ok(), ok(), fail(), ok(), ok(), ok(), ok(), ok(), ok(), ok(), ok(), ok()];
    let mut held: Option<bool> = None; // Some(true) = write, Some(false) = read
    for o in outcomes {
        let (r, a) = run.step(&o);
        match (&action, o.success) {
            (CloneAction::LockWrite { .. }, true) => held = Some(true),
            (CloneAction::LockRead { .. }, true) => held = Some(false),
            (CloneAction::Unlock, _) => held = None,
            _ => {},
        }
        match &a {
            CloneAction::Mirror { .. } | CloneAction::Update { .. } | CloneAction::CreateDir { .. } => {
                assert_eq!(held, Some(true))
            },
            CloneAction::SharedClone { .. } => assert_eq!(held, Some(false)),
            CloneAction::LockWrite { .. } | CloneAction::LockRead { .. } => assert_eq!(held, None),
            CloneAction::Finish { .. } => assert_eq!(held, None),
            _ => {},
        }
        run = r;
        action = a;
    }
    assert!(matches!(action, CloneAction::Finish { result: Ok(()) }));
}

#[test]
fn direct_clone_of_local_path() {
    let (run, a) = GitCache::new("/cache".to_string())
        .cloner()
        .repository_url("/srv/repo".to_string())
        .do_clone()
        .ok()
        .unwrap();
    match &a {
        CloneAction::CheckTarget { path } => assert_eq!(path, "repo"),
        _ => panic!("target check expected"),
    }
    assert!(!run.cached);
    let (run, a) = run.step(&ok());
    match &a {
        CloneAction::SharedClone { src, dest, .. } => {
            assert_eq!(src, "/srv/repo");
            assert_eq!(dest, "repo");
        },
        _ => panic!("direct clone expected"),
    }
    let (_, a) = run.step(&fail());
    assert!(matches!(a, CloneAction::Finish { result: Err(CloneError::Clone { .. }) }));
}

#[test]
fn sparse_and_submodules_follow_the_clone() {
    let (run, _) = GitCache::new("/cache".to_string())
        .cloner()
        .repository_url("/srv/repo".to_string())
        .target_path(Some("t".to_string()))
        .sparse_paths(Some(vec!["docs".to_string()]))
        .recurse_all_submodules(true)
        .do_clone()
        .ok()
        .unwrap();
    let (run, _) = run.step(&ok());
    let (run, a) = run.step(&ok());
    match &a {
        CloneAction::SparseCheckout { repo, paths } => {
            assert_eq!(repo, "t");
            assert_eq!(paths, &vec!["docs".to_string()]);
        },
        _ => panic!("sparse checkout expected"),
    }
    let (run, a) = run.step(&ok());
    match &a {
        CloneAction::CloneSubmodules { repo, filter } => {
            assert_eq!(repo, "t");
            assert!(filter.is_none());
        },
        _ => panic!("submodules expected"),
    }
    let (_, a) = run.step(&fail());
    assert!(matches!(a, CloneAction::Finish { result: Err(CloneError::Submodules { .. }) }));
}

#[test]
fn cached_clone_of_local_reference_is_a_configuration_error() {
    let (run, a) = GitCache::new("/cache".to_string())
        .cloner()
        .cached(true)
        .repository_url("/srv/repo".to_string())
        .do_clone()
        .ok()
        .unwrap();
    assert!(matches!(a, CloneAction::Finish { result: Err(CloneError::Configuration { .. }) }));
    assert!(matches!(run.phase, Phase::Finished));
}

#[test]
fn missing_repository_is_a_build_error() {
    assert!(GitCache::new("/cache".to_string()).cloner().do_clone().is_err());
}

#[test]
fn lock_failure_ends_the_request() {
    let (run, _) = begin("https://example.com/project.git", "work", None);
    let (run, _) = run.step(&ok());
    let (_, a) = run.step(&fail());
    match a {
        CloneAction::Finish { result: Err(CloneError::Lock { path }) } => {
            assert_eq!(path, "/cache/example.com/project.git.lock")
        },
        _ => panic!("lock error expected"),
    }
}

fn to_clone_out(commit: Option<&str>) -> CloneRun {
    // an existing mirror, commit present where pinned, up to the clone-out
    let (run, _) = begin("https://example.com/project.git", "work", commit);
    let (run, _) = run.step(&ok());
    let (run, _) = run.step(&ok());
    let (run, _) = run.step(&printed(".\n"));
    let run = if commit.is_some() { run.step(&ok()).0 } else { run };
    let (run, _) = run.step(&ok()); // unlock -> read lock
    let (run, a) = run.step(&ok()); // read lock -> clone-out
    assert!(matches!(a, CloneAction::SharedClone { .. }));
    run
}

#[test]
fn mirror_failure_releases_lock_then_fails() {
    let (run, _) = begin("https://example.com/project.git", "work", None);
    let (run, _) = run.step(&ok());
    let (run, _) = run.step(&ok());
    let (run, _) = run.step(&fail());
    let (run, _) = run.step(&ok());
    let (run, a) = run.step(&fail());
    assert!(matches!(a, CloneAction::Unlock));
    let (_, a) = run.step(&ok());
    assert!(matches!(a, CloneAction::Finish { result: Err(CloneError::Mirror { .. }) }));
}

#[test]
fn clone_out_failure_releases_read_lock() {
    let run = to_clone_out(None);
    let (run, a) = run.step(&fail());
    assert!(matches!(a, CloneAction::Unlock));
    let (_, a) = run.step(&ok());
    assert!(matches!(a, CloneAction::Finish { result: Err(CloneError::Clone { .. }) }));
}

#[test]
fn origin_rewrite_failure() {
    let run = to_clone_out(None);
    let (run, _) = run.step(&ok());
    let (run, a) = run.step(&fail());
    assert!(matches!(a, CloneAction::Unlock));
    let (_, a) = run.step(&ok());
    match a {
        CloneAction::Finish { result: Err(CloneError::RemoteUrl { path }) } => assert_eq!(path, "work"),
        _ => panic!("RemoteUrl expected"),
    }
}

#[test]
fn config_and_checkout_failures() {
    let run = to_clone_out(Some("c1"));
    let (run, _) = run.step(&ok()); // set-url
    let (run, _) = run.step(&ok()); // unlock
    let (run2, _) = run.step(&ok()); // config asked
    let (_, a) = run2.step(&fail());
    assert!(matches!(a, CloneAction::Finish { result: Err(CloneError::Config { .. }) }));

    let run = to_clone_out(Some("c1"));
    let (run, _) = run.step(&ok());
    let (run, _) = run.step(&ok());
    let (run, _) = run.step(&ok());
    let (run, a) = run.step(&ok());
    assert!(matches!(a, CloneAction::Checkout { .. }));
    let (_, a) = run.step(&fail());
    match a {
        CloneAction::Finish { result: Err(CloneError::Checkout { path, commit }) } => {
            assert_eq!(path, "work");
            assert_eq!(commit, "c1");
        },
        _ => panic!("Checkout expected"),
    }
}

#[test]
fn sparse_checkout_failure() {
    let (run, _) = GitCache::new("/cache".to_string())
        .cloner()
        .repository_url("/srv/repo".to_string())
        .sparse_paths(Some(vec!["a".to_string()]))
        .do_clone()
        .ok()
        .unwrap();
    let (run, _) = run.step(&ok());
    let (run, _) = run.step(&ok());
    let (_, a) = run.step(&fail());
    assert!(matches!(a, CloneAction::Finish { result: Err(CloneError::SparseCheckout { .. }) }));
}

#[test]
fn filtered_submodules_keep_their_filter() {
    let (run, _) = GitCache::new("/cache".to_string())
        .cloner()
        .repository_url("/srv/repo".to_string())
        .recurse_submodules(Some(vec!["libs/a".to_string()]))
        .do_clone()
        .ok()
        .unwrap();
    let (run, _) = run.step(&ok());
    let (_, a) = run.step(&ok());
    match a {
        CloneAction::CloneSubmodules { filter: Some(f), .. } => assert_eq!(f, vec!["libs/a".to_string()]),
        _ => panic!("filtered submodules expected"),
    }
}
