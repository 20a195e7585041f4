use git_cache::config::GitCache;
use git_cache::prefetch::{Coordinator, JobPhase, Prefetch, PrefetchAction, PrefetchError, PrefetchJob};

fn url(u: &str) -> Prefetch {
    Prefetch::Url(u.to_string())
}

#[test]
fn three_seeds_without_recursion_terminate() {
    let prefetcher = GitCache::new("/cache".to_string())
        .prefetcher()
        .repository_urls(vec![
            "https://example.com/a.git".to_string(),
            "https://example.com/b.git".to_string(),
            "https://example.com/c.git".to_string(),
        ])
        .jobs(Some(2))
        .do_prefetch()
        .ok()
        .unwrap();
    assert_eq!(prefetcher.workers(), 2);
    let mut c = Coordinator::new();
    let mut handed_out = Vec::new();
    for m in prefetcher.seed() {
        if let Some(u) = c.handle(m) {
            handed_out.push(u);
        }
    }
    assert_eq!(handed_out.len(), 3);
    assert!(!c.finished());
    c.handle(Prefetch::Done);
    c.handle(Prefetch::Done);
    assert!(!c.finished());
    c.handle(Prefetch::Done);
    assert!(c.finished());
    assert_eq!(c.total(), 3);
}

#[test]
fn discovered_submodule_is_prefetched_too() {
    let mut c = Coordinator::new();
    assert_eq!(c.handle(url("https://example.com/a.git")).as_deref(), Some("https://example.com/a.git"));
    // A's worker announces B before reporting A done
    assert_eq!(c.handle(url("https://example.com/b.git")).as_deref(), Some("https://example.com/b.git"));
    assert!(c.handle(Prefetch::Done).is_none());
    assert!(!c.finished());
    // B declares no submodules
    c.handle(Prefetch::Done);
    assert!(c.finished());
    assert_eq!(c.total(), 2);
}

#[test]
fn url_seen_twice_is_handed_out_once() {
    let mut c = Coordinator::new();
    assert!(c.handle(url("u")).is_some());
    assert!(c.handle(url("u")).is_none());
    assert_eq!(c.total(), 1);
    c.handle(Prefetch::Done);
    assert!(c.finished());
}

#[test]
fn empty_run_is_finished_at_once() {
    let c = Coordinator::new();
    assert!(c.finished());
    assert_eq!(c.total(), 0);
}

#[test]
fn local_seed_is_refused() {
    let b = GitCache::new("/cache".to_string())
        .prefetcher()
        .repository_urls(vec!["https://example.com/a.git".to_string(), "./local".to_string()]);
    match b.validate() {
        Err(m) => assert_eq!(m, "can only cache remote repositories, './local' is local"),
        Ok(()) => panic!("a local seed must be refused"),
    }
    assert!(b.do_prefetch().is_err());
}

#[test]
fn prefetcher_defaults() {
    let p = GitCache::new("/cache".to_string())
        .prefetcher()
        .repository_urls(vec!["https://example.com/a.git".to_string()])
        .do_prefetch()
        .ok()
        .unwrap();
    assert!(!p.update);
    assert!(!p.recurse_all_submodules);
    assert_eq!(p.workers(), 1);
    assert_eq!(p.cache().cache_base_dir, "/cache");
}

#[test]
fn prefetch_job_mirrors_absent_entry_and_announces_submodules() {
    let (job, a) = PrefetchJob::start("/cache", "https://example.com/a.git", false, true);
    match &a {
        PrefetchAction::LockWrite { lock_path } => assert_eq!(lock_path, "/cache/example.com/a.git.lock"),
        _ => panic!("write lock expected"),
    }
    let (job, a) = job.step(true, &Vec::new());
    assert!(matches!(a, PrefetchAction::ProbeRepository { .. }));
    let (job, a) = job.step(false, &Vec::new());
    assert!(matches!(a, PrefetchAction::CreateDir { .. }));
    let (job, a) = job.step(true, &Vec::new());
    match &a {
        PrefetchAction::Mirror { url, dest } => {
            assert_eq!(url, "https://example.com/a.git");
            assert_eq!(dest, "/cache/example.com/a.git");
        },
        _ => panic!("mirror expected"),
    }
    let (job, a) = job.step(true, &Vec::new());
    assert!(matches!(a, PrefetchAction::Unlock));
    let (job, a) = job.step(true, &Vec::new());
    assert!(matches!(a, PrefetchAction::LockRead { .. }));
    let (job, a) = job.step(true, &Vec::new());
    assert!(matches!(a, PrefetchAction::ShowGitmodules { .. }));
    let gitmodules = b"[submodule \"b\"]\n\tpath = b\n\turl = https://example.com/b.git\n".to_vec();
    let (job, a) = job.step(true, &gitmodules);
    match &a {
        PrefetchAction::Announce { urls } => assert_eq!(urls, &vec!["https://example.com/b.git".to_string()]),
        _ => panic!("announce expected"),
    }
    let (job, a) = job.step(true, &Vec::new());
    assert!(matches!(a, PrefetchAction::Unlock));
    let (job, a) = job.step(true, &Vec::new());
    assert!(matches!(a, PrefetchAction::Finish { result: Ok(()) }));
    assert!(matches!(job.phase, JobPhase::Finished));
}

#[test]
fn prefetch_job_updates_existing_entry_when_asked() {
    let (job, _) = PrefetchJob::start("/cache", "https://example.com/a.git", true, false);
    let (job, _) = job.step(true, &Vec::new());
    let (job, a) = job.step(true, &b".\n".to_vec());
    assert!(matches!(a, PrefetchAction::Update { .. }));
    let (job, a) = job.step(true, &Vec::new());
    assert!(matches!(a, PrefetchAction::Unlock));
    let (_, a) = job.step(true, &Vec::new());
    assert!(matches!(a, PrefetchAction::Finish { result: Ok(()) }));
}

#[test]
fn prefetch_job_leaves_existing_entry_alone_without_update() {
    let (job, _) = PrefetchJob::start("/cache", "https://example.com/a.git", false, false);
    let (job, _) = job.step(true, &Vec::new());
    let (job, a) = job.step(true, &b".\n".to_vec());
    assert!(matches!(a, PrefetchAction::Unlock));
    let (_, a) = job.step(true, &Vec::new());
    assert!(matches!(a, PrefetchAction::Finish { result: Ok(()) }));
}

#[test]
fn prefetch_job_mirror_failure_releases_then_fails() {
    let (job, _) = PrefetchJob::start("/cache", "https://example.com/a.git", false, false);
    let (job, _) = job.step(true, &Vec::new());
    let (job, _) = job.step(false, &Vec::new());
    let (job, _) = job.step(true, &Vec::new());
    let (job, a) = job.step(false, &Vec::new());
    assert!(matches!(a, PrefetchAction::Unlock));
    let (_, a) = job.step(true, &Vec::new());
    assert!(matches!(a, PrefetchAction::Finish { result: Err(PrefetchError::Mirror { .. }) }));
}

#[test]
fn prefetch_job_of_local_reference_is_refused() {
    let (job, a) = PrefetchJob::start("/cache", "./x", false, false);
    assert!(matches!(a, PrefetchAction::Finish { result: Err(PrefetchError::Configuration { .. }) }));
    assert!(matches!(job.phase, JobPhase::Finished));
}

#[test]
fn prefetch_job_lock_failure() {
    let (job, _) = PrefetchJob::start("/cache", "https://example.com/a.git", false, false);
    let (_, a) = job.step(false, &Vec::new());
    match a {
        PrefetchAction::Finish { result: Err(PrefetchError::Lock { path }) } => assert_eq!(path, "/cache/example.com/a.git.lock"),
        _ => panic!("lock error expected"),
    }
}

#[test]
fn prefetch_job_update_failure() {
    let (job, _) = PrefetchJob::start("/cache", "https://example.com/a.git", true, false);
    let (job, _) = job.step(true, &Vec::new());
    let (job, _) = job.step(true, &b".git\n".to_vec());
    let (job, a) = job.step(false, &Vec::new());
    assert!(matches!(a, PrefetchAction::Unlock));
    let (_, a) = job.step(true, &Vec::new());
    assert!(matches!(a, PrefetchAction::Finish { result: Err(PrefetchError::Update { .. }) }));
}

#[test]
fn prefetch_job_bad_gitmodules() {
    let (job, _) = PrefetchJob::start("/cache", "https://example.com/a.git", false, true);
    let (job, _) = job.step(true, &Vec::new());
    let (job, _) = job.step(true, &b".\n".to_vec());
    let (job, _) = job.step(true, &Vec::new()); // unlock -> read lock
    let (job, a) = job.step(true, &Vec::new());
    assert!(matches!(a, PrefetchAction::ShowGitmodules { .. }));
    let (job, a) = job.step(true, &b"[submodule \"b\"\n\turl".to_vec());
    assert!(matches!(a, PrefetchAction::Unlock));
    let (_, a) = job.step(true, &Vec::new());
    assert!(matches!(a, PrefetchAction::Finish { result: Err(PrefetchError::Declarations { .. }) }));
}

#[test]
fn prefetch_job_without_gitmodules_announces_nothing() {
    let (job, _) = PrefetchJob::start("/cache", "https://example.com/b.git", false, true);
    let (job, _) = job.step(true, &Vec::new());
    let (job, _) = job.step(true, &b".\n".to_vec());
    let (job, _) = job.step(true, &Vec::new());
    let (job, _) = job.step(true, &Vec::new());
    let (_, a) = job.step(false, &Vec::new());
    match a {
        PrefetchAction::Announce { urls } => assert!(urls.is_empty()),
        _ => panic!("an empty announcement expected"),
    }
}

#[test]
fn first_failure_is_kept_and_reported() {
    let mut c = Coordinator::new();
    c.handle(url("a"));
    c.handle(url("b"));
    c.handle(Prefetch::Failed(PrefetchError::Mirror { url: "a".to_string() }));
    c.handle(Prefetch::Done);
    c.handle(Prefetch::Failed(PrefetchError::Update { url: "b".to_string() }));
    c.handle(Prefetch::Done);
    assert!(c.finished());
    match c.into_outcome() {
        Err(PrefetchError::Mirror { url }) => assert_eq!(url, "a"),
        _ => panic!("the first failure is reported"),
    }
}

#[test]
fn run_without_failures_reports_its_count() {
    let mut c = Coordinator::new();
    c.handle(url("a"));
    c.handle(Prefetch::Done);
    assert!(matches!(c.into_outcome(), Ok(1)));
}

#[test]
fn local_seed_fails_validation_before_anything_else() {
    let r = GitCache::new("/cache".to_string())
        .prefetcher()
        .repository_urls(vec!["./x".to_string(), "/y".to_string()])
        .do_prefetch();
    match r {
        Err(git_cache::config::BuildError::Validation { message }) => {
            assert_eq!(message, "can only cache remote repositories, './x' is local")
        },
        _ => panic!("validation error expected"),
    }
}
