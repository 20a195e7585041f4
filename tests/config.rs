use git_cache::config::{GitCache, GitCacheRepo};
use git_cache::submodules::{GitRepo, SubmoduleSpec};

#[test]
fn cloner_defaults_from_locality() {
    let remote = GitCache::new("/c".to_string()).cloner().repository_url("https://e.com/x.git".to_string()).build().ok().unwrap();
    assert!(remote.cached);
    assert!(!remote.update);
    assert!(remote.target_path.is_none());
    let local = GitCache::new("/c".to_string()).cloner().repository_url("./x".to_string()).build().ok().unwrap();
    assert!(!local.cached);
    let forced = GitCache::new("/c".to_string()).cloner().cached(true).repository_url("./x".to_string()).build().ok().unwrap();
    assert!(forced.cached);
}

#[test]
fn cloner_workers_and_cache() {
    let c = GitCache::new("/c".to_string()).cloner().repository_url("https://e.com/x.git".to_string()).jobs(Some(0)).build().ok().unwrap();
    assert_eq!(c.workers(), 1);
    assert_eq!(c.cache().cache_base_dir, "/c");
}

#[test]
fn cache_repo_paths() {
    let r = GitCacheRepo::new("/c", "https://example.com/org/p.git").unwrap();
    assert_eq!(r.repo.path, "/c/example.com/org/p.git");
    assert_eq!(r.lock_path(), "/c/example.com/org/p.git.lock");
    assert_eq!(r.target_path(None).unwrap(), "p.git");
    let t = "dest".to_string();
    assert_eq!(r.target_path(Some(&t)).unwrap(), "dest");
    assert!(GitCacheRepo::new("/c", "./local").is_none());
}

#[test]
fn submodule_request() {
    let parent = GitRepo { path: "work".to_string() };
    let sub = SubmoduleSpec::new("libs/a".to_string(), "https://e.com/a.git".to_string(), "c0ffee".to_string(), None);
    let cache = GitCache::new("/c".to_string());
    let req = parent.clone_submodule(&sub, &cache, false, true).build().ok().unwrap();
    assert_eq!(req.repository_url, "https://e.com/a.git");
    assert_eq!(req.target_path.as_deref(), Some("work/libs/a"));
    assert_eq!(req.commit.as_deref(), Some("c0ffee"));
    assert!(req.cached);
    assert!(req.update);
    assert!(req.recurse_all_submodules);
}
