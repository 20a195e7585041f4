use vstd::prelude::*;
use crate::clone_flow::{lock_ext, started, target_path_from_url_maybe, CloneAction, CloneRun, GitCacheCloner};
use crate::locality::{cache_key, is_local, repo_is_local, repo_is_local_with, repo_path_from_url};
use crate::pathops::{join, path_file_name, path_join, path_with_extension, with_extension};
use crate::prefetch::Prefetch;
use crate::submodules::{GitRepo, SubmoduleSpec};

verus! {

/// A builder was asked to build with a required field unset.
pub enum BuildError {
    UninitializedField { field: String },
    /// A prefetch seed names a local repository.
    Validation { message: String },
}

/// The cache: a base directory under which each remote has its mirror.
pub struct GitCache {
    pub cache_base_dir: String,
}

/// Collects the fields of a clone request.
pub struct GitCacheClonerBuilder {
    pub cache_base_dir: Option<String>,
    pub repository_url: Option<String>,
    pub cached: Option<bool>,
    pub update: Option<bool>,
    pub target_path: Option<Option<String>>,
    pub sparse_paths: Option<Option<Vec<String>>>,
    pub recurse_submodules: Option<Option<Vec<String>>>,
    pub recurse_all_submodules: Option<bool>,
    pub shallow_submodules: Option<bool>,
    pub commit: Option<Option<String>>,
    pub extra_clone_args: Option<Option<Vec<String>>>,
    pub jobs: Option<Option<usize>>,
}

/// A prefetch request: the seed URLs and how to treat them.
pub struct GitCachePrefetcher {
    pub cache_base_dir: String,
    pub repository_urls: Vec<String>,
    pub update: bool,
    pub recurse_all_submodules: bool,
    pub jobs: Option<usize>,
}

/// Collects the fields of a prefetch request.
pub struct GitCachePrefetcherBuilder {
    pub cache_base_dir: Option<String>,
    pub repository_urls: Option<Vec<String>>,
    pub update: Option<bool>,
    pub recurse_all_submodules: Option<bool>,
    pub jobs: Option<Option<usize>>,
}

impl GitCache {
    pub fn new(cache_base_dir: String) -> (r: Self)
        ensures
            r.cache_base_dir == cache_base_dir,
    {
        GitCache { cache_base_dir }
    }

    /// A clone request on this cache, with nothing else set.
    pub fn cloner(&self) -> (r: GitCacheClonerBuilder)
        ensures
            r.cache_base_dir == Some(self.cache_base_dir),
            r.repository_url is None && r.cached is None && r.update is None && r.target_path is None,
            r.sparse_paths is None && r.recurse_submodules is None && r.recurse_all_submodules is None,
            r.shallow_submodules is None && r.commit is None && r.extra_clone_args is None && r.jobs is None,
    {
        GitCacheClonerBuilder {
            cache_base_dir: Some(self.cache_base_dir.clone()),
            repository_url: None,
            cached: None,
            update: None,
            target_path: None,
            sparse_paths: None,
            recurse_submodules: None,
            recurse_all_submodules: None,
            shallow_submodules: None,
            commit: None,
            extra_clone_args: None,
            jobs: None,
        }
    }

    /// A prefetch request on this cache, with nothing else set.
    pub fn prefetcher(&self) -> (r: GitCachePrefetcherBuilder)
        ensures
            r.cache_base_dir == Some(self.cache_base_dir),
            r.repository_urls is None && r.update is None && r.recurse_all_submodules is None && r.jobs is None,
    {
        GitCachePrefetcherBuilder {
            cache_base_dir: Some(self.cache_base_dir.clone()),
            repository_urls: None,
            update: None,
            recurse_all_submodules: None,
            jobs: None,
        }
    }
}

/// The request that a builder makes: `None` where the cache directory or
/// the repository is unset; else its fields, with the defaults filled in:
/// cached, no update, no target, no sparse paths, no submodules, no commit,
/// no extra arguments, no job count.
pub open spec fn built_cloner(b: GitCacheClonerBuilder) -> Option<GitCacheCloner> {
    match (b.cache_base_dir, b.repository_url) {
        (Some(base), Some(url)) => Some(GitCacheCloner {
            cache_base_dir: base,
            repository_url: url,
            cached: match b.cached { Some(v) => v, None => true },
            update: match b.update { Some(v) => v, None => false },
            target_path: match b.target_path { Some(v) => v, None => None },
            sparse_paths: match b.sparse_paths { Some(v) => v, None => None },
            recurse_submodules: match b.recurse_submodules { Some(v) => v, None => None },
            recurse_all_submodules: match b.recurse_all_submodules { Some(v) => v, None => false },
            shallow_submodules: match b.shallow_submodules { Some(v) => v, None => false },
            commit: match b.commit { Some(v) => v, None => None },
            extra_clone_args: match b.extra_clone_args { Some(v) => v, None => None },
            jobs: match b.jobs { Some(v) => v, None => None },
        }),
        _ => None,
    }
}

impl GitCacheClonerBuilder {
    /// Sets the repository to clone. Where `cached` is not set yet, it
    /// becomes whether the repository is remote.
    pub fn repository_url(self, url: String) -> (r: Self)
        ensures
            r.repository_url == Some(url),
            r == (GitCacheClonerBuilder { repository_url: Some(url), cached: r.cached, ..self }),
            match self.cached {
                Some(c) => r.cached == Some(c),
                None => r.cached matches Some(c) && (is_local(url@, false) ==> !c) && (!is_local(url@, true) ==> c),
            },
    {
        let cached = match self.cached {
            Some(c) => Some(c),
            None => Some(!repo_is_local(url.as_str())),
        };
        GitCacheClonerBuilder { repository_url: Some(url), cached, ..self }
    }

    /// Sets the repository to clone, given whether it exists as a path on
    /// disk. Where `cached` is not set yet, it becomes whether the repository
    /// is remote.
    pub fn repository_url_with(self, url: String, path_exists_on_disk: bool) -> (r: Self)
        ensures
            r == (GitCacheClonerBuilder {
                repository_url: Some(url),
                cached: match self.cached {
                    Some(c) => Some(c),
                    None => Some(!is_local(url@, path_exists_on_disk)),
                },
                ..self
            }),
    {
        let cached = match self.cached {
            Some(c) => Some(c),
            None => Some(!repo_is_local_with(url.as_str(), path_exists_on_disk)),
        };
        GitCacheClonerBuilder { repository_url: Some(url), cached, ..self }
    }

    pub fn cached(self, v: bool) -> (r: Self)
        ensures r == (GitCacheClonerBuilder { cached: Some(v), ..self }),
    {
        GitCacheClonerBuilder { cached: Some(v), ..self }
    }

    pub fn update(self, v: bool) -> (r: Self)
        ensures r == (GitCacheClonerBuilder { update: Some(v), ..self }),
    {
        GitCacheClonerBuilder { update: Some(v), ..self }
    }

    pub fn target_path(self, v: Option<String>) -> (r: Self)
        ensures r == (GitCacheClonerBuilder { target_path: Some(v), ..self }),
    {
        GitCacheClonerBuilder { target_path: Some(v), ..self }
    }

    pub fn sparse_paths(self, v: Option<Vec<String>>) -> (r: Self)
        ensures r == (GitCacheClonerBuilder { sparse_paths: Some(v), ..self }),
    {
        GitCacheClonerBuilder { sparse_paths: Some(v), ..self }
    }

    pub fn recurse_submodules(self, v: Option<Vec<String>>) -> (r: Self)
        ensures r == (GitCacheClonerBuilder { recurse_submodules: Some(v), ..self }),
    {
        GitCacheClonerBuilder { recurse_submodules: Some(v), ..self }
    }

    pub fn recurse_all_submodules(self, v: bool) -> (r: Self)
        ensures r == (GitCacheClonerBuilder { recurse_all_submodules: Some(v), ..self }),
    {
        GitCacheClonerBuilder { recurse_all_submodules: Some(v), ..self }
    }

    pub fn shallow_submodules(self, v: bool) -> (r: Self)
        ensures r == (GitCacheClonerBuilder { shallow_submodules: Some(v), ..self }),
    {
        GitCacheClonerBuilder { shallow_submodules: Some(v), ..self }
    }

    pub fn commit(self, v: Option<String>) -> (r: Self)
        ensures r == (GitCacheClonerBuilder { commit: Some(v), ..self }),
    {
        GitCacheClonerBuilder { commit: Some(v), ..self }
    }

    pub fn extra_clone_args(self, v: Option<Vec<String>>) -> (r: Self)
        ensures r == (GitCacheClonerBuilder { extra_clone_args: Some(v), ..self }),
    {
        GitCacheClonerBuilder { extra_clone_args: Some(v), ..self }
    }

    pub fn jobs(self, v: Option<usize>) -> (r: Self)
        ensures r == (GitCacheClonerBuilder { jobs: Some(v), ..self }),
    {
        GitCacheClonerBuilder { jobs: Some(v), ..self }
    }

    /// The request, with the defaults filled in: cached, no update, no
    /// target, no sparse paths, no submodules, no commit, no extra
    /// arguments, no job count. Fails where the cache directory or the
    /// repository is unset.
    pub fn build(self) -> (r: Result<GitCacheCloner, BuildError>)
        ensures
            match built_cloner(self) {
                Some(c) => r == Ok::<GitCacheCloner, BuildError>(c),
                None => r is Err,
            },
    {
        let base = match self.cache_base_dir {
            Some(b) => b,
            None => return Err(BuildError::UninitializedField { field: "cache_base_dir".to_string() }),
        };
        let url = match self.repository_url {
            Some(u) => u,
            None => return Err(BuildError::UninitializedField { field: "repository_url".to_string() }),
        };
        Ok(GitCacheCloner {
            cache_base_dir: base,
            repository_url: url,
            cached: match self.cached { Some(v) => v, None => true },
            update: match self.update { Some(v) => v, None => false },
            target_path: match self.target_path { Some(v) => v, None => None },
            sparse_paths: match self.sparse_paths { Some(v) => v, None => None },
            recurse_submodules: match self.recurse_submodules { Some(v) => v, None => None },
            recurse_all_submodules: match self.recurse_all_submodules { Some(v) => v, None => false },
            shallow_submodules: match self.shallow_submodules { Some(v) => v, None => false },
            commit: match self.commit { Some(v) => v, None => None },
            extra_clone_args: match self.extra_clone_args { Some(v) => v, None => None },
            jobs: match self.jobs { Some(v) => v, None => None },
        })
    }

    /// Builds the request and begins it: the first state and the first
    /// action, which the caller carries out and feeds back through
    /// `CloneRun::step` until the action is `Finish`.
    pub fn do_clone(self) -> (r: Result<(CloneRun, CloneAction), BuildError>)
        ensures
            match built_cloner(self) {
                Some(c) => r matches Ok(p) && started(c, p),
                None => r is Err,
            },
    {
        match self.build() {
            Ok(c) => Ok(c.start()),
            Err(e) => Err(e),
        }
    }
}

impl GitCacheCloner {
    /// The cache that this request uses.
    pub fn cache(&self) -> (r: GitCache)
        ensures
            r.cache_base_dir == self.cache_base_dir,
    {
        GitCache::new(self.cache_base_dir.clone())
    }

    /// How many submodules are cloned at once: the job count, at least one,
    /// one where none is given.
    pub fn workers(&self) -> (r: usize)
        ensures
            r == match self.jobs { Some(j) => if j == 0 { 1 } else { j }, None => 1 },
    {
        match self.jobs {
            Some(j) => if j == 0 { 1 } else { j },
            None => 1,
        }
    }
}

pub open spec fn local_refusal(url: Seq<char>) -> Seq<char> {
    "can only cache remote repositories, '"@ + url + "' is local"@
}

/// The first of `urls` that names a local repository.
fn first_local(urls: &Vec<String>) -> (r: Option<usize>)
    ensures
        match r {
            None => forall|i: int| 0 <= i < urls@.len() ==> !is_local(#[trigger] urls@[i]@, false),
            Some(i) => i < urls@.len() && is_local(urls@[i as int]@, true)
                && forall|j: int| 0 <= j < i ==> !is_local(#[trigger] urls@[j]@, false),
        },
{
    let mut i: usize = 0;
    while i < urls.len()
        invariant
            i <= urls@.len(),
            forall|j: int| 0 <= j < i ==> !is_local(#[trigger] urls@[j]@, false),
        decreases urls@.len() - i,
    {
        if repo_is_local(urls[i].as_str()) {
            return Some(i);
        }
        i = i + 1;
    }
    None
}

impl GitCachePrefetcherBuilder {
    pub fn repository_urls(self, v: Vec<String>) -> (r: Self)
        ensures r == (GitCachePrefetcherBuilder { repository_urls: Some(v), ..self }),
    {
        GitCachePrefetcherBuilder { repository_urls: Some(v), ..self }
    }

    pub fn update(self, v: bool) -> (r: Self)
        ensures r == (GitCachePrefetcherBuilder { update: Some(v), ..self }),
    {
        GitCachePrefetcherBuilder { update: Some(v), ..self }
    }

    pub fn recurse_all_submodules(self, v: bool) -> (r: Self)
        ensures r == (GitCachePrefetcherBuilder { recurse_all_submodules: Some(v), ..self }),
    {
        GitCachePrefetcherBuilder { recurse_all_submodules: Some(v), ..self }
    }

    pub fn jobs(self, v: Option<usize>) -> (r: Self)
        ensures r == (GitCachePrefetcherBuilder { jobs: Some(v), ..self }),
    {
        GitCachePrefetcherBuilder { jobs: Some(v), ..self }
    }

    /// Refuses a seed list that names a local repository, with a message
    /// that names the first such seed.
    pub fn validate(&self) -> (r: Result<(), String>)
        ensures
            match self.repository_urls {
                None => r is Ok,
                Some(urls) => {
                    &&& r is Ok ==> forall|i: int| 0 <= i < urls@.len() ==> !is_local(#[trigger] urls@[i]@, false)
                    &&& r matches Err(m) ==> exists|i: int| 0 <= i < urls@.len() && is_local(#[trigger] urls@[i]@, true)
                        && m@ == local_refusal(urls@[i]@)
                        && forall|j: int| 0 <= j < i ==> !is_local(#[trigger] urls@[j]@, false)
                },
            },
    {
        match &self.repository_urls {
            None => Ok(()),
            Some(urls) => match first_local(urls) {
                None => Ok(()),
                Some(i) => {
                    let url = urls[i].as_str();
                    let m = "can only cache remote repositories, '".to_string().concat(url).concat("' is local");
                    assert(m@ == local_refusal(urls@[i as int]@));
                    Err(m)
                },
            },
        }
    }

    /// The request, after `validate`, with no update, no recursion and no
    /// job count by default. Fails where the cache directory or the seed
    /// list is unset, or where `validate` fails.
    pub fn build(self) -> (r: Result<GitCachePrefetcher, BuildError>)
        ensures
            r matches Ok(p) ==> {
                &&& self.cache_base_dir == Some(p.cache_base_dir)
                &&& self.repository_urls == Some(p.repository_urls)
                &&& p.update == match self.update { Some(v) => v, None => false }
                &&& p.recurse_all_submodules == match self.recurse_all_submodules { Some(v) => v, None => false }
                &&& p.jobs == match self.jobs { Some(v) => v, None => None }
                &&& forall|i: int| 0 <= i < p.repository_urls@.len() ==> !is_local(#[trigger] p.repository_urls@[i]@, false)
            },
            (self.cache_base_dir is None || self.repository_urls is None) ==> r is Err,
            self.repository_urls matches Some(urls) && (forall|i: int| 0 <= i < urls@.len()
                ==> !is_local(#[trigger] urls@[i]@, true)) && self.cache_base_dir is Some ==> r is Ok,
            (self.repository_urls matches Some(urls) && exists|i: int| 0 <= i < urls@.len()
                && is_local(#[trigger] urls@[i]@, false)) ==> (r matches Err(BuildError::Validation { .. })),
    {
        match self.validate() {
            Ok(()) => {},
            Err(message) => return Err(BuildError::Validation { message }),
        }
        let base = match self.cache_base_dir {
            Some(b) => b,
            None => return Err(BuildError::UninitializedField { field: "cache_base_dir".to_string() }),
        };
        let urls = match self.repository_urls {
            Some(u) => u,
            None => return Err(BuildError::UninitializedField { field: "repository_urls".to_string() }),
        };
        Ok(GitCachePrefetcher {
            cache_base_dir: base,
            repository_urls: urls,
            update: match self.update { Some(v) => v, None => false },
            recurse_all_submodules: match self.recurse_all_submodules { Some(v) => v, None => false },
            jobs: match self.jobs { Some(v) => v, None => None },
        })
    }

    /// Builds and checks the request; the caller then runs it (see
    /// `GitCachePrefetcher::seed` and `Coordinator`).
    pub fn do_prefetch(self) -> (r: Result<GitCachePrefetcher, BuildError>)
        ensures
            r matches Ok(p) ==> {
                &&& self.cache_base_dir == Some(p.cache_base_dir)
                &&& self.repository_urls == Some(p.repository_urls)
                &&& p.update == match self.update { Some(v) => v, None => false }
                &&& p.recurse_all_submodules == match self.recurse_all_submodules { Some(v) => v, None => false }
                &&& p.jobs == match self.jobs { Some(v) => v, None => None }
                &&& forall|i: int| 0 <= i < p.repository_urls@.len() ==> !is_local(#[trigger] p.repository_urls@[i]@, false)
            },
            (self.cache_base_dir is None || self.repository_urls is None) ==> r is Err,
            self.repository_urls matches Some(urls) && (forall|i: int| 0 <= i < urls@.len()
                ==> !is_local(#[trigger] urls@[i]@, true)) && self.cache_base_dir is Some ==> r is Ok,
            (self.repository_urls matches Some(urls) && exists|i: int| 0 <= i < urls@.len()
                && is_local(#[trigger] urls@[i]@, false)) ==> (r matches Err(BuildError::Validation { .. })),
    {
        self.build()
    }
}

impl GitCachePrefetcher {
    /// The cache that this request uses.
    pub fn cache(&self) -> (r: GitCache)
        ensures
            r.cache_base_dir == self.cache_base_dir,
    {
        GitCache::new(self.cache_base_dir.clone())
    }

    /// How many workers prefetch at once: the job count, at least one, one
    /// where none is given.
    pub fn workers(&self) -> (r: usize)
        ensures
            r == match self.jobs { Some(j) => if j == 0 { 1 } else { j }, None => 1 },
    {
        match self.jobs {
            Some(j) => if j == 0 { 1 } else { j },
            None => 1,
        }
    }

    /// The messages that start a run: one `Url` per seed, in order.
    pub fn seed(&self) -> (r: Vec<Prefetch>)
        ensures
            r@.len() == self.repository_urls@.len(),
            forall|i: int| 0 <= i < r@.len() ==> (#[trigger] r@[i] matches Prefetch::Url(u)
                && u == self.repository_urls@[i]),
    {
        let mut r: Vec<Prefetch> = Vec::new();
        let mut i: usize = 0;
        while i < self.repository_urls.len()
            invariant
                i <= self.repository_urls@.len(),
                r@.len() == i,
                forall|j: int| 0 <= j < i ==> (#[trigger] r@[j] matches Prefetch::Url(u)
                    && u == self.repository_urls@[j]),
            decreases self.repository_urls@.len() - i,
        {
            r.push(Prefetch::Url(self.repository_urls[i].clone()));
            i = i + 1;
        }
        r
    }
}

/// A mirror in the cache, with the URL it mirrors.
pub struct GitCacheRepo {
    pub url: String,
    pub repo: GitRepo,
}

impl GitCacheRepo {
    /// The cache entry of `url` under `base_path`, or `None` where `url`
    /// names no cacheable remote.
    pub fn new(base_path: &str, url: &str) -> (r: Option<Self>)
        ensures
            match cache_key(url@) {
                Some(k) => r matches Some(c) && c.url@ == url@ && c.repo.path@ == path_join(base_path@, k),
                None => r is None,
            },
    {
        match repo_path_from_url(url) {
            Some(key) => Some(GitCacheRepo { url: url.to_string(), repo: GitRepo { path: join(base_path, key.as_str()) } }),
            None => None,
        }
    }

    /// The lock file beside the mirror.
    pub fn lock_path(&self) -> (r: String)
        ensures
            r@ == path_with_extension(self.repo.path@, lock_ext()),
    {
        proof { reveal_strlit("git.lock"); }
        assert("git.lock"@ =~= lock_ext());
        with_extension(self.repo.path.as_str(), "git.lock")
    }

    /// The working copy that a clone of this entry goes to: `target_path`
    /// where given, else the last component of the URL.
    pub fn target_path(&self, target_path: Option<&String>) -> (r: Option<String>)
        ensures
            match target_path {
                Some(t) => r == Some(*t),
                None => match r {
                    Some(p) => path_file_name(self.url@) == Some(p@),
                    None => path_file_name(self.url@) is None,
                },
            },
    {
        target_path_from_url_maybe(self.url.as_str(), target_path)
    }
}

impl GitRepo {
    /// The request that clones `submodule` into its place in this working
    /// copy: through the cache, at its pinned commit, with all of its own
    /// submodules, and with the given shallow and update flags.
    pub fn clone_submodule(&self, submodule: &SubmoduleSpec, cache: &GitCache, shallow_submodules: bool, update: bool) -> (r: GitCacheClonerBuilder)
        ensures
            r.cache_base_dir == Some(cache.cache_base_dir),
            r.repository_url == Some(submodule.url),
            r.cached == Some(true),
            r.target_path matches Some(Some(t)) && t@ == path_join(self.path@, submodule.path@),
            r.recurse_all_submodules == Some(true),
            r.recurse_submodules is None,
            r.shallow_submodules == Some(shallow_submodules),
            r.commit == Some(Some(submodule.commit)),
            r.update == Some(update),
            r.sparse_paths is None && r.extra_clone_args is None && r.jobs is None,
    {
        let target = join(self.path.as_str(), submodule.path.as_str());
        cache.cloner()
            .cached(true)
            .repository_url(submodule.url.clone())
            .target_path(Some(target))
            .recurse_all_submodules(true)
            .shallow_submodules(shallow_submodules)
            .commit(Some(submodule.commit.clone()))
            .update(update)
    }
}

} // verus!
