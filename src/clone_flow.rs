use vstd::prelude::*;
use crate::locality::{cache_key, repo_path_from_url};
use crate::pathops::{file_name, join, path_file_name, path_join, path_with_extension, with_extension};

verus! {

/// Why a clone request failed; each names the URL or path it concerns.
pub enum CloneError {
    /// The request cannot be carried out as given (no target can be derived,
    /// or a cached clone of a reference that names no remote).
    Configuration { url: String },
    /// The target exists and is not an empty directory.
    DestinationExists { path: String },
    /// The cache entry's lock file could not be created or locked.
    Lock { path: String },
    Mirror { url: String },
    Update { url: String },
    /// The pinned commit is missing from the cache even after an update.
    CommitNotFound { url: String, commit: String },
    Clone { url: String },
    RemoteUrl { path: String },
    Config { path: String },
    Checkout { path: String, commit: String },
    SparseCheckout { path: String },
    Submodules { path: String },
}

/// One piece of outside work that a clone request asks for next.
pub enum CloneAction {
    /// Is `path` absent or an empty directory?
    CheckTarget { path: String },
    /// Create the lock file and take it exclusively.
    LockWrite { lock_path: String },
    /// Take the lock file shared.
    LockRead { lock_path: String },
    /// Release the lock that is held.
    Unlock,
    /// Is `path` a directory, and what does `git rev-parse --git-dir` print there?
    ProbeRepository { path: String },
    CreateDir { path: String },
    /// `git clone --mirror -- url dest`
    Mirror { url: String, dest: String },
    /// `git -C repo remote update`
    Update { repo: String },
    /// `git -C repo cat-file -e commit^{commit}`
    HasCommit { repo: String, commit: String },
    /// `git clone --shared [extra] -- src dest`
    SharedClone { src: String, dest: String, extra: Option<Vec<String>> },
    /// `git -C repo remote set-url origin url`
    SetRemoteUrl { repo: String, url: String },
    /// `git -C repo config advice.detachedHead false`
    QuietDetachedHead { repo: String },
    /// `git -C repo checkout commit`
    Checkout { repo: String, commit: String },
    /// `git -C repo sparse-checkout set paths...`
    SparseCheckout { repo: String, paths: Vec<String> },
    /// Resolve the submodules of `repo`, keep those in `filter` (all where it
    /// is `None`), and clone them.
    CloneSubmodules { repo: String, filter: Option<Vec<String>> },
    /// The request is over.
    Finish { result: Result<(), CloneError> },
}

/// What came of the last action: whether it succeeded, and what it printed.
pub struct Outcome {
    pub success: bool,
    pub output: Vec<u8>,
}

/// Which action's outcome a clone request waits for.
pub enum Phase {
    AwaitTarget,
    AwaitWriteLock,
    AwaitProbe,
    AwaitCreateDir,
    AwaitMirror,
    AwaitFirstHasCommit,
    AwaitUpdate,
    AwaitSecondHasCommit,
    AwaitWriteUnlock,
    AwaitReadLock,
    AwaitSharedClone,
    AwaitSetUrl,
    AwaitReadUnlock,
    AwaitDirectClone,
    AwaitConfig,
    AwaitCheckout,
    AwaitSparse,
    AwaitSubmodules,
    AwaitFailUnlock,
    Finished,
}

pub enum LockHeld {
    Unlocked,
    Write,
    Read,
}

/// The lock on the cache entry that is held while a phase waits.
pub open spec fn held(p: Phase) -> LockHeld {
    match p {
        Phase::AwaitProbe | Phase::AwaitCreateDir | Phase::AwaitMirror | Phase::AwaitFirstHasCommit
        | Phase::AwaitUpdate | Phase::AwaitSecondHasCommit => LockHeld::Write,
        Phase::AwaitSharedClone | Phase::AwaitSetUrl => LockHeld::Read,
        _ => LockHeld::Unlocked,
    }
}

/// Whether `git rev-parse --git-dir` printed that it stands at the top of a
/// repository.
pub open spec fn is_top_git_dir(out: Seq<u8>) -> bool {
    out == seq![46u8, 10u8] || out == seq![46u8, 103u8, 105u8, 116u8, 10u8]
}

pub fn probe_says_initialized(is_dir: bool, out: &Vec<u8>) -> (r: bool)
    ensures
        r == (is_dir && is_top_git_dir(out@)),
{
    if !is_dir {
        return false;
    }
    let n = out.len();
    if n == 2 {
        let r = out[0] == 46u8 && out[1] == 10u8;
        assert(r ==> out@ =~= seq![46u8, 10u8]);
        r
    } else if n == 5 {
        let r = out[0] == 46u8 && out[1] == 103u8 && out[2] == 105u8 && out[3] == 116u8 && out[4] == 10u8;
        assert(r ==> out@ =~= seq![46u8, 103u8, 105u8, 116u8, 10u8]);
        r
    } else {
        false
    }
}

/// A clone request, as the builder hands it over.
pub struct GitCacheCloner {
    pub cache_base_dir: String,
    pub repository_url: String,
    pub cached: bool,
    pub update: bool,
    pub target_path: Option<String>,
    pub sparse_paths: Option<Vec<String>>,
    pub recurse_submodules: Option<Vec<String>>,
    pub recurse_all_submodules: bool,
    pub shallow_submodules: bool,
    pub commit: Option<String>,
    pub extra_clone_args: Option<Vec<String>>,
    pub jobs: Option<usize>,
}

/// A clone request on its way: what it was asked to do, where it stands,
/// and which outcome it waits for.
pub struct CloneRun {
    pub url: String,
    pub target: String,
    pub cached: bool,
    pub update: bool,
    pub commit: Option<String>,
    pub sparse_paths: Option<Vec<String>>,
    pub recurse: bool,
    pub submodule_filter: Option<Vec<String>>,
    pub extra_clone_args: Option<Vec<String>>,
    pub mirror_path: String,
    pub lock_path: String,
    pub phase: Phase,
    /// The pinned commit was missing from the mirror before any update.
    pub try_update: bool,
    /// An update of the mirror has been asked for in this run.
    pub updated: bool,
    pub failure: Option<CloneError>,
}

/// The working copy that a request clones into: the given target, else the
/// last component of the URL.
pub open spec fn target_of(target_path: Option<String>, url: Seq<char>) -> Option<Seq<char>> {
    match target_path {
        Some(t) => Some(t@),
        None => path_file_name(url),
    }
}

pub open spec fn lock_ext() -> Seq<char> {
    seq!['g', 'i', 't', '.', 'l', 'o', 'c', 'k']
}

/// The working copy that a request clones into (see `target_of`), or
/// `None` where the URL has no last component.
pub fn target_path_from_url_maybe(url: &str, target_path: Option<&String>) -> (r: Option<String>)
    ensures
        match target_path {
            Some(t) => r == Some(*t),
            None => match r {
                Some(p) => path_file_name(url@) == Some(p@),
                None => path_file_name(url@) is None,
            },
        },
{
    match target_path {
        Some(t) => Some(t.clone()),
        None => file_name(url),
    }
}

/// What beginning a request gives: where no target can be derived, or a
/// cached request names no cacheable remote, the `Configuration` error;
/// else the run waits on the check of its target, with the request's fields
/// carried over and, for a cached request, the mirror and lock paths of the
/// cache entry.
pub open spec fn started(c: GitCacheCloner, r: (CloneRun, CloneAction)) -> bool {
    &&& r.0.wf()
    &&& r.0.url == c.repository_url
    &&& r.0.cached == c.cached
    &&& r.0.update == c.update
    &&& (r.1 is CheckTarget || r.1 is Finish)
    &&& match target_of(c.target_path, c.repository_url@) {
        None => r.1 == (CloneAction::Finish { result: Err(CloneError::Configuration { url: c.repository_url }) })
            && r.0.phase is Finished,
        Some(t) => if c.cached && cache_key(c.repository_url@) is None {
            r.1 == (CloneAction::Finish { result: Err(CloneError::Configuration { url: c.repository_url }) })
                && r.0.phase is Finished
        } else {
            &&& r.1 == (CloneAction::CheckTarget { path: r.0.target })
            &&& r.0.target@ == t
            &&& r.0.phase is AwaitTarget
            &&& r.0.commit == c.commit
            &&& r.0.sparse_paths == c.sparse_paths
            &&& r.0.extra_clone_args == c.extra_clone_args
            &&& r.0.recurse == (c.recurse_all_submodules || c.recurse_submodules is Some)
            &&& r.0.submodule_filter == (if c.recurse_all_submodules { None } else { c.recurse_submodules })
            &&& !r.0.updated
            &&& r.0.failure is None
            &&& c.cached ==> {
                &&& cache_key(c.repository_url@) matches Some(k)
                &&& r.0.mirror_path@ == path_join(c.cache_base_dir@, k)
                &&& r.0.lock_path@ == path_with_extension(r.0.mirror_path@, lock_ext())
            }
        },
    }
}

impl GitCacheCloner {
    /// Begins the request: fails with `Configuration` where no target can be
    /// derived, or where a cached clone is asked of a reference that names
    /// no remote; else first asks whether the target may be cloned into.
    #[verifier::rlimit(40)]
    pub fn start(self) -> (r: (CloneRun, CloneAction))
        ensures
            started(self, r),
    {
        let target = target_path_from_url_maybe(self.repository_url.as_str(), self.target_path.as_ref());
        match target {
            None => {
                let url = self.repository_url.clone();
                let run = self.into_run(String::new(), String::new(), String::new(), Phase::Finished);
                (run, CloneAction::Finish { result: Err(CloneError::Configuration { url }) })
            },
            Some(t) => {
                if self.cached {
                    match repo_path_from_url(self.repository_url.as_str()) {
                        Some(key) => {
                            proof { reveal_strlit("git.lock"); }
                            assert("git.lock"@ =~= lock_ext());
                            let mirror_path = join(self.cache_base_dir.as_str(), key.as_str());
                            let lock_path = with_extension(mirror_path.as_str(), "git.lock");
                            let path = t.clone();
                            let run = self.into_run(t, mirror_path, lock_path, Phase::AwaitTarget);
                            (run, CloneAction::CheckTarget { path })
                        },
                        None => {
                            let url = self.repository_url.clone();
                            let run = self.into_run(t, String::new(), String::new(), Phase::Finished);
                            (run, CloneAction::Finish { result: Err(CloneError::Configuration { url }) })
                        },
                    }
                } else {
                    let path = t.clone();
                    let run = self.into_run(t, String::new(), String::new(), Phase::AwaitTarget);
                    (run, CloneAction::CheckTarget { path })
                }
            },
        }
    }

    fn into_run(self, target: String, mirror_path: String, lock_path: String, phase: Phase) -> (r: CloneRun)
        ensures
            r.url == self.repository_url,
            r.target == target,
            r.cached == self.cached,
            r.update == self.update,
            r.commit == self.commit,
            r.sparse_paths == self.sparse_paths,
            r.extra_clone_args == self.extra_clone_args,
            r.recurse == (self.recurse_all_submodules || self.recurse_submodules is Some),
            r.submodule_filter == (if self.recurse_all_submodules { None } else { self.recurse_submodules }),
            r.mirror_path == mirror_path,
            r.lock_path == lock_path,
            r.phase == phase,
            !r.updated,
            !r.try_update,
            r.failure is None,
    {
        let submodule_filter = if self.recurse_all_submodules { None } else { self.recurse_submodules };
        let recurse = self.recurse_all_submodules || submodule_filter.is_some();
        CloneRun {
            url: self.repository_url,
            target,
            cached: self.cached,
            update: self.update,
            commit: self.commit,
            sparse_paths: self.sparse_paths,
            recurse,
            submodule_filter,
            extra_clone_args: self.extra_clone_args,
            mirror_path,
            lock_path,
            phase,
            try_update: false,
            updated: false,
            failure: None,
        }
    }
}

/// Fails after the held lock has been released.
pub open spec fn fail_unlocking(s: CloneRun, e: CloneError, r: (CloneRun, CloneAction)) -> bool {
    r == (CloneRun { phase: Phase::AwaitFailUnlock, failure: Some(e), ..s }, CloneAction::Unlock)
}

pub open spec fn finish(s: CloneRun, res: Result<(), CloneError>, r: (CloneRun, CloneAction)) -> bool {
    r == (CloneRun { phase: Phase::Finished, ..s }, CloneAction::Finish { result: res })
}

/// Once submodules are due: clone them where asked, else succeed.
pub open spec fn after_sparse(s: CloneRun, r: (CloneRun, CloneAction)) -> bool {
    if s.recurse {
        r == (CloneRun { phase: Phase::AwaitSubmodules, submodule_filter: None, ..s },
            CloneAction::CloneSubmodules { repo: s.target, filter: s.submodule_filter })
    } else {
        finish(s, Ok(()), r)
    }
}

/// Once a sparse checkout is due: set it up where asked.
pub open spec fn after_checkout(s: CloneRun, r: (CloneRun, CloneAction)) -> bool {
    match s.sparse_paths {
        Some(p) => r == (CloneRun { phase: Phase::AwaitSparse, sparse_paths: None, ..s },
            CloneAction::SparseCheckout { repo: s.target, paths: p }),
        None => after_sparse(s, r),
    }
}

/// Once the working copy exists: check out the pinned commit where asked.
pub open spec fn after_populate(s: CloneRun, r: (CloneRun, CloneAction)) -> bool {
    match s.commit {
        Some(_) => r == (CloneRun { phase: Phase::AwaitConfig, ..s }, CloneAction::QuietDetachedHead { repo: s.target }),
        None => after_checkout(s, r),
    }
}

/// Releases the write lock.
pub open spec fn release_write(s: CloneRun, r: (CloneRun, CloneAction)) -> bool {
    r == (CloneRun { phase: Phase::AwaitWriteUnlock, ..s }, CloneAction::Unlock)
}

/// Asks for the one update of the mirror.
pub open spec fn start_update(s: CloneRun, try_update: bool, r: (CloneRun, CloneAction)) -> bool {
    r == (CloneRun { phase: Phase::AwaitUpdate, try_update, updated: true, ..s },
        CloneAction::Update { repo: s.mirror_path })
}

/// What a clone request does next, given whether the last action succeeded
/// and, after a probe, whether the cache entry holds a repository.
pub open spec fn next_step(s: CloneRun, ok: bool, initialized: bool, r: (CloneRun, CloneAction)) -> bool {
    match s.phase {
        Phase::AwaitTarget => if !ok {
            finish(s, Err(CloneError::DestinationExists { path: s.target }), r)
        } else if s.cached {
            r == (CloneRun { phase: Phase::AwaitWriteLock, ..s }, CloneAction::LockWrite { lock_path: s.lock_path })
        } else {
            r == (CloneRun { phase: Phase::AwaitDirectClone, extra_clone_args: None, ..s },
                CloneAction::SharedClone { src: s.url, dest: s.target, extra: s.extra_clone_args })
        },
        Phase::AwaitWriteLock => if !ok {
            finish(s, Err(CloneError::Lock { path: s.lock_path }), r)
        } else {
            r == (CloneRun { phase: Phase::AwaitProbe, ..s }, CloneAction::ProbeRepository { path: s.mirror_path })
        },
        Phase::AwaitProbe => if !initialized {
            r == (CloneRun { phase: Phase::AwaitCreateDir, ..s }, CloneAction::CreateDir { path: s.mirror_path })
        } else {
            match s.commit {
                Some(c) => r == (CloneRun { phase: Phase::AwaitFirstHasCommit, ..s },
                    CloneAction::HasCommit { repo: s.mirror_path, commit: c }),
                None => if s.update { start_update(s, false, r) } else { release_write(s, r) },
            }
        },
        Phase::AwaitCreateDir => if !ok {
            fail_unlocking(s, CloneError::Mirror { url: s.url }, r)
        } else {
            r == (CloneRun { phase: Phase::AwaitMirror, ..s }, CloneAction::Mirror { url: s.url, dest: s.mirror_path })
        },
        Phase::AwaitMirror => if !ok {
            fail_unlocking(s, CloneError::Mirror { url: s.url }, r)
        } else {
            release_write(s, r)
        },
        Phase::AwaitFirstHasCommit => if s.update || !ok {
            start_update(s, !ok, r)
        } else {
            release_write(s, r)
        },
        Phase::AwaitUpdate => if !ok {
            fail_unlocking(s, CloneError::Update { url: s.url }, r)
        } else {
            match s.commit {
                Some(c) => if s.try_update {
                    r == (CloneRun { phase: Phase::AwaitSecondHasCommit, ..s },
                        CloneAction::HasCommit { repo: s.mirror_path, commit: c })
                } else {
                    release_write(s, r)
                },
                None => release_write(s, r),
            }
        },
        Phase::AwaitSecondHasCommit => match s.commit {
            Some(c) => if !ok {
                fail_unlocking(s, CloneError::CommitNotFound { url: s.url, commit: c }, r)
            } else {
                release_write(s, r)
            },
            None => release_write(s, r),
        },
        Phase::AwaitWriteUnlock => r == (CloneRun { phase: Phase::AwaitReadLock, ..s },
            CloneAction::LockRead { lock_path: s.lock_path }),
        Phase::AwaitReadLock => if !ok {
            finish(s, Err(CloneError::Lock { path: s.lock_path }), r)
        } else {
            r == (CloneRun { phase: Phase::AwaitSharedClone, extra_clone_args: None, ..s },
                CloneAction::SharedClone { src: s.mirror_path, dest: s.target, extra: s.extra_clone_args })
        },
        Phase::AwaitSharedClone => if !ok {
            fail_unlocking(s, CloneError::Clone { url: s.url }, r)
        } else {
            r == (CloneRun { phase: Phase::AwaitSetUrl, ..s }, CloneAction::SetRemoteUrl { repo: s.target, url: s.url })
        },
        Phase::AwaitSetUrl => if !ok {
            fail_unlocking(s, CloneError::RemoteUrl { path: s.target }, r)
        } else {
            r == (CloneRun { phase: Phase::AwaitReadUnlock, ..s }, CloneAction::Unlock)
        },
        Phase::AwaitReadUnlock => after_populate(s, r),
        Phase::AwaitDirectClone => if !ok {
            finish(s, Err(CloneError::Clone { url: s.url }), r)
        } else {
            after_populate(s, r)
        },
        Phase::AwaitConfig => if !ok {
            finish(s, Err(CloneError::Config { path: s.target }), r)
        } else {
            match s.commit {
                Some(c) => r == (CloneRun { phase: Phase::AwaitCheckout, ..s }, CloneAction::Checkout { repo: s.target, commit: c }),
                None => after_checkout(s, r),
            }
        },
        Phase::AwaitCheckout => if !ok {
            match s.commit {
                Some(c) => finish(s, Err(CloneError::Checkout { path: s.target, commit: c }), r),
                None => finish(s, Err(CloneError::Checkout { path: s.target, commit: s.url }), r),
            }
        } else {
            after_checkout(s, r)
        },
        Phase::AwaitSparse => if !ok {
            finish(s, Err(CloneError::SparseCheckout { path: s.target }), r)
        } else {
            after_sparse(s, r)
        },
        Phase::AwaitSubmodules => if !ok {
            finish(s, Err(CloneError::Submodules { path: s.target }), r)
        } else {
            finish(s, Ok(()), r)
        },
        Phase::AwaitFailUnlock => match s.failure {
            Some(e) => r == (CloneRun { phase: Phase::Finished, failure: None, ..s }, CloneAction::Finish { result: Err(e) }),
            None => finish(s, Ok(()), r),
        },
        Phase::Finished => false,
    }
}

impl CloneRun {
    /// The run's own invariant: a failure waits to be reported exactly in
    /// the phase that releases the lock before reporting it, and the phases
    /// that speak of the pinned commit have one.
    pub open spec fn wf(&self) -> bool {
        &&& (self.phase is AwaitFailUnlock <==> self.failure is Some)
        &&& (self.phase is AwaitFirstHasCommit || self.phase is AwaitSecondHasCommit || self.phase is AwaitConfig
            || self.phase is AwaitCheckout) ==> self.commit is Some
        &&& self.phase is AwaitSecondHasCommit ==> self.try_update && self.updated
        &&& self.phase is AwaitUpdate ==> self.updated
        &&& (self.phase is AwaitTarget || self.phase is AwaitWriteLock || self.phase is AwaitProbe
            || self.phase is AwaitFirstHasCommit) ==> !self.updated
    }

    fn finish(self, result: Result<(), CloneError>) -> (r: (CloneRun, CloneAction))
        ensures
            finish(self, result, r),
    {
        (CloneRun { phase: Phase::Finished, ..self }, CloneAction::Finish { result })
    }

    fn fail_unlocking(self, e: CloneError) -> (r: (CloneRun, CloneAction))
        ensures
            fail_unlocking(self, e, r),
    {
        (CloneRun { phase: Phase::AwaitFailUnlock, failure: Some(e), ..self }, CloneAction::Unlock)
    }

    fn release_write(self) -> (r: (CloneRun, CloneAction))
        ensures
            release_write(self, r),
    {
        (CloneRun { phase: Phase::AwaitWriteUnlock, ..self }, CloneAction::Unlock)
    }

    fn start_update(self, try_update: bool) -> (r: (CloneRun, CloneAction))
        ensures
            start_update(self, try_update, r),
    {
        let repo = self.mirror_path.clone();
        (CloneRun { phase: Phase::AwaitUpdate, try_update, updated: true, ..self }, CloneAction::Update { repo })
    }

    fn after_sparse(self) -> (r: (CloneRun, CloneAction))
        ensures
            after_sparse(self, r),
    {
        if self.recurse {
            let repo = self.target.clone();
            let filter = self.submodule_filter;
            (CloneRun { phase: Phase::AwaitSubmodules, submodule_filter: None, ..self },
                CloneAction::CloneSubmodules { repo, filter })
        } else {
            self.finish(Ok(()))
        }
    }

    fn after_checkout(self) -> (r: (CloneRun, CloneAction))
        ensures
            after_checkout(self, r),
    {
        match self.sparse_paths {
            Some(paths) => {
                let repo = self.target.clone();
                (CloneRun { phase: Phase::AwaitSparse, sparse_paths: None, ..self },
                    CloneAction::SparseCheckout { repo, paths })
            },
            None => self.after_sparse(),
        }
    }

    fn after_populate(self) -> (r: (CloneRun, CloneAction))
        ensures
            after_populate(self, r),
    {
        if self.commit.is_some() {
            let repo = self.target.clone();
            (CloneRun { phase: Phase::AwaitConfig, ..self }, CloneAction::QuietDetachedHead { repo })
        } else {
            self.after_checkout()
        }
    }
}

impl CloneRun {
    /// Takes the outcome of the last action and gives the next state and the
    /// next action (see `next_step`).
    ///
    /// Along the way: the target is checked before anything is written, and a
    /// target in use ends the request at once; the mirror is created or
    /// updated only under the write lock, and the working copy is cloned from
    /// it only under the read lock; a lock is taken only where none is held,
    /// and none is held when the request ends; the mirror is updated at most
    /// once per request; a pinned commit still missing after that update
    /// fails the request; and a clone from the cache has its `origin` set to
    /// the requested URL.
    #[verifier::rlimit(60)]
    pub fn step(self, o: &Outcome) -> (r: (CloneRun, CloneAction))
        requires
            self.wf(),
            !(self.phase is Finished),
        ensures
            next_step(self, o.success, o.success && is_top_git_dir(o.output@), r),
            r.0.wf(),
            self.phase is AwaitTarget && !o.success ==> r.1 == (CloneAction::Finish {
                result: Err(CloneError::DestinationExists { path: self.target }),
            }),
            (r.1 is Mirror || r.1 is Update || r.1 is CreateDir) ==> held(r.0.phase) is Write,
            (r.1 is SharedClone && self.cached) ==> held(r.0.phase) is Read && r.1 == (CloneAction::SharedClone {
                src: self.mirror_path, dest: self.target, extra: self.extra_clone_args,
            }),
            (r.1 is LockWrite || r.1 is LockRead) ==> held(self.phase) is Unlocked,
            r.1 is Finish ==> r.0.phase is Finished && held(r.0.phase) is Unlocked,
            r.1 is Update ==> !self.updated,
            r.0.updated == (self.updated || r.1 is Update),
            self.phase is AwaitSecondHasCommit && !o.success ==> r.0.failure == Some(CloneError::CommitNotFound {
                url: self.url, commit: self.commit->0,
            }),
            self.phase is AwaitSharedClone && o.success ==> r.1 == (CloneAction::SetRemoteUrl {
                repo: self.target, url: self.url,
            }),
    {
        let ok = o.success;
        match self.phase {
            Phase::AwaitTarget => {
                if !ok {
                    let path = self.target.clone();
                    self.finish(Err(CloneError::DestinationExists { path }))
                } else if self.cached {
                    let lock_path = self.lock_path.clone();
                    (CloneRun { phase: Phase::AwaitWriteLock, ..self }, CloneAction::LockWrite { lock_path })
                } else {
                    let src = self.url.clone();
                    let dest = self.target.clone();
                    let extra = self.extra_clone_args;
                    (CloneRun { phase: Phase::AwaitDirectClone, extra_clone_args: None, ..self },
                        CloneAction::SharedClone { src, dest, extra })
                }
            },
            Phase::AwaitWriteLock => {
                if !ok {
                    let path = self.lock_path.clone();
                    self.finish(Err(CloneError::Lock { path }))
                } else {
                    let path = self.mirror_path.clone();
                    (CloneRun { phase: Phase::AwaitProbe, ..self }, CloneAction::ProbeRepository { path })
                }
            },
            Phase::AwaitProbe => {
                if !probe_says_initialized(ok, &o.output) {
                    let path = self.mirror_path.clone();
                    (CloneRun { phase: Phase::AwaitCreateDir, ..self }, CloneAction::CreateDir { path })
                } else {
                    match &self.commit {
                        Some(c) => {
                            let commit = c.clone();
                            let repo = self.mirror_path.clone();
                            (CloneRun { phase: Phase::AwaitFirstHasCommit, ..self }, CloneAction::HasCommit { repo, commit })
                        },
                        None => if self.update { self.start_update(false) } else { self.release_write() },
                    }
                }
            },
            Phase::AwaitCreateDir => {
                if !ok {
                    let url = self.url.clone();
                    self.fail_unlocking(CloneError::Mirror { url })
                } else {
                    let url = self.url.clone();
                    let dest = self.mirror_path.clone();
                    (CloneRun { phase: Phase::AwaitMirror, ..self }, CloneAction::Mirror { url, dest })
                }
            },
            Phase::AwaitMirror => {
                if !ok {
                    let url = self.url.clone();
                    self.fail_unlocking(CloneError::Mirror { url })
                } else {
                    self.release_write()
                }
            },
            Phase::AwaitFirstHasCommit => {
                if self.update || !ok { self.start_update(!ok) } else { self.release_write() }
            },
            Phase::AwaitUpdate => {
                if !ok {
                    let url = self.url.clone();
                    self.fail_unlocking(CloneError::Update { url })
                } else {
                    match &self.commit {
                        Some(c) => if self.try_update {
                            let commit = c.clone();
                            let repo = self.mirror_path.clone();
                            (CloneRun { phase: Phase::AwaitSecondHasCommit, ..self }, CloneAction::HasCommit { repo, commit })
                        } else {
                            self.release_write()
                        },
                        None => self.release_write(),
                    }
                }
            },
            Phase::AwaitSecondHasCommit => {
                match &self.commit {
                    Some(c) => if !ok {
                        let commit = c.clone();
                        let url = self.url.clone();
                        self.fail_unlocking(CloneError::CommitNotFound { url, commit })
                    } else {
                        self.release_write()
                    },
                    None => self.release_write(),
                }
            },
            Phase::AwaitWriteUnlock => {
                let lock_path = self.lock_path.clone();
                (CloneRun { phase: Phase::AwaitReadLock, ..self }, CloneAction::LockRead { lock_path })
            },
            Phase::AwaitReadLock => {
                if !ok {
                    let path = self.lock_path.clone();
                    self.finish(Err(CloneError::Lock { path }))
                } else {
                    let src = self.mirror_path.clone();
                    let dest = self.target.clone();
                    let extra = self.extra_clone_args;
                    (CloneRun { phase: Phase::AwaitSharedClone, extra_clone_args: None, ..self },
                        CloneAction::SharedClone { src, dest, extra })
                }
            },
            Phase::AwaitSharedClone => {
                if !ok {
                    let url = self.url.clone();
                    self.fail_unlocking(CloneError::Clone { url })
                } else {
                    let repo = self.target.clone();
                    let url = self.url.clone();
                    (CloneRun { phase: Phase::AwaitSetUrl, ..self }, CloneAction::SetRemoteUrl { repo, url })
                }
            },
            Phase::AwaitSetUrl => {
                if !ok {
                    let path = self.target.clone();
                    self.fail_unlocking(CloneError::RemoteUrl { path })
                } else {
                    (CloneRun { phase: Phase::AwaitReadUnlock, ..self }, CloneAction::Unlock)
                }
            },
            Phase::AwaitReadUnlock => self.after_populate(),
            Phase::AwaitDirectClone => {
                if !ok {
                    let url = self.url.clone();
                    self.finish(Err(CloneError::Clone { url }))
                } else {
                    self.after_populate()
                }
            },
            Phase::AwaitConfig => {
                if !ok {
                    let path = self.target.clone();
                    self.finish(Err(CloneError::Config { path }))
                } else {
                    match &self.commit {
                        Some(c) => {
                            let commit = c.clone();
                            let repo = self.target.clone();
                            (CloneRun { phase: Phase::AwaitCheckout, ..self }, CloneAction::Checkout { repo, commit })
                        },
                        None => self.after_checkout(),
                    }
                }
            },
            Phase::AwaitCheckout => {
                if !ok {
                    let path = self.target.clone();
                    let commit = match &self.commit {
                        Some(c) => c.clone(),
                        None => self.url.clone(),
                    };
                    self.finish(Err(CloneError::Checkout { path, commit }))
                } else {
                    self.after_checkout()
                }
            },
            Phase::AwaitSparse => {
                if !ok {
                    let path = self.target.clone();
                    self.finish(Err(CloneError::SparseCheckout { path }))
                } else {
                    self.after_sparse()
                }
            },
            Phase::AwaitSubmodules => {
                if !ok {
                    let path = self.target.clone();
                    self.finish(Err(CloneError::Submodules { path }))
                } else {
                    self.finish(Ok(()))
                }
            },
            Phase::AwaitFailUnlock => {
                let failure = self.failure;
                match failure {
                    Some(e) => (CloneRun { phase: Phase::Finished, failure: None, ..self }, CloneAction::Finish { result: Err(e) }),
                    None => (CloneRun { phase: Phase::Finished, failure: None, ..self }, CloneAction::Finish { result: Ok(()) }),
                }
            },
            Phase::Finished => {
                self.finish(Ok(()))
            },
        }
    }
}

/// Once a request has updated the mirror, no later step updates it again.
pub proof fn lemma_no_second_update(s: CloneRun, ok: bool, initialized: bool, r: (CloneRun, CloneAction))
    requires
        s.wf(),
        s.updated,
        next_step(s, ok, initialized, r),
    ensures
        !(r.1 is Update),
        r.0.updated,
{
}

/// A pinned commit missing from an existing mirror leads to exactly one
/// update; where the commit is still missing after it, the request releases
/// the write lock and fails with `CommitNotFound`, and nothing is cloned.
pub proof fn lemma_missing_commit_fails_after_one_update(
    s: CloneRun,
    r1: (CloneRun, CloneAction),
    r2: (CloneRun, CloneAction),
    r3: (CloneRun, CloneAction),
    r4: (CloneRun, CloneAction),
    init2: bool,
    init3: bool,
    ok4: bool,
    init4: bool,
)
    requires
        s.wf(),
        s.phase is AwaitFirstHasCommit,
        next_step(s, false, false, r1),
        next_step(r1.0, true, init2, r2),
        next_step(r2.0, false, init3, r3),
        next_step(r3.0, ok4, init4, r4),
    ensures
        r1.1 == (CloneAction::Update { repo: s.mirror_path }),
        r2.1 == (CloneAction::HasCommit { repo: s.mirror_path, commit: s.commit->0 }),
        r3.1 is Unlock,
        r4.1 == (CloneAction::Finish {
            result: Err(CloneError::CommitNotFound { url: s.url, commit: s.commit->0 }),
        }),
        r4.0.phase is Finished,
        !(r2.1 is Update) && !(r3.1 is Update) && !(r4.1 is Update),
{
}

/// A target that is in use ends the request at once with
/// `DestinationExists`; the target check comes before any other action.
pub proof fn lemma_occupied_target_fails(s: CloneRun, initialized: bool, r: (CloneRun, CloneAction))
    requires
        s.phase is AwaitTarget,
        next_step(s, false, initialized, r),
    ensures
        r.1 == (CloneAction::Finish { result: Err(CloneError::DestinationExists { path: s.target }) }),
        r.0.phase is Finished,
{
}

/// Where the cache entry holds no repository yet, a cached request mirrors
/// the URL into the entry, releases the write lock, takes the read lock,
/// clones the working copy from the mirror, and sets its `origin` to the
/// requested URL, not to the mirror.
pub proof fn lemma_fresh_cached_clone(
    s: CloneRun,
    r1: (CloneRun, CloneAction),
    r2: (CloneRun, CloneAction),
    r3: (CloneRun, CloneAction),
    r4: (CloneRun, CloneAction),
    r5: (CloneRun, CloneAction),
    r6: (CloneRun, CloneAction),
    i2: bool,
    i3: bool,
    i4: bool,
    i5: bool,
    i6: bool,
    ok4: bool,
)
    requires
        s.wf(),
        s.phase is AwaitProbe,
        next_step(s, false, false, r1),
        next_step(r1.0, true, i2, r2),
        next_step(r2.0, true, i3, r3),
        next_step(r3.0, ok4, i4, r4),
        next_step(r4.0, true, i5, r5),
        next_step(r5.0, true, i6, r6),
    ensures
        r1.1 == (CloneAction::CreateDir { path: s.mirror_path }),
        r2.1 == (CloneAction::Mirror { url: s.url, dest: s.mirror_path }),
        r3.1 is Unlock,
        r4.1 == (CloneAction::LockRead { lock_path: s.lock_path }),
        r5.1 == (CloneAction::SharedClone { src: s.mirror_path, dest: s.target, extra: s.extra_clone_args }),
        r6.1 == (CloneAction::SetRemoteUrl { repo: s.target, url: s.url }),
        held(r2.0.phase) is Write,
        held(r5.0.phase) is Read && held(r6.0.phase) is Read,
{
}

/// The mirror is created or updated only under the write lock; a cached
/// working copy is cloned from it only under the read lock; a lock is asked
/// for only where none is held; and none is held when the request ends.
pub proof fn lemma_lock_discipline(s: CloneRun, ok: bool, initialized: bool, r: (CloneRun, CloneAction))
    requires
        s.wf(),
        next_step(s, ok, initialized, r),
    ensures
        (r.1 is Mirror || r.1 is Update || r.1 is CreateDir || r.1 is HasCommit) ==> held(r.0.phase) is Write,
        (r.1 is SharedClone && s.cached) ==> held(r.0.phase) is Read,
        (r.1 is LockWrite || r.1 is LockRead) ==> held(s.phase) is Unlocked,
        r.1 is Finish ==> held(r.0.phase) is Unlocked,
{
}

/// A request whose target can be derived, and which is direct or names a
/// cacheable remote, first asks whether its target may be cloned into; where
/// it may not, the request ends with `DestinationExists` naming that target,
/// with no other action taken.
pub proof fn lemma_started_request_checks_target_first(
    c: GitCacheCloner,
    p: (CloneRun, CloneAction),
    initialized: bool,
    r: (CloneRun, CloneAction),
)
    requires
        started(c, p),
        target_of(c.target_path, c.repository_url@) is Some,
        !c.cached || cache_key(c.repository_url@) is Some,
        next_step(p.0, false, initialized, r),
    ensures
        p.1 == (CloneAction::CheckTarget { path: p.0.target }),
        p.0.target@ == target_of(c.target_path, c.repository_url@)->0,
        r.1 == (CloneAction::Finish { result: Err(CloneError::DestinationExists { path: p.0.target }) }),
{
}

} // verus!
