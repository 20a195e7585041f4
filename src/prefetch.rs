use vstd::prelude::*;
use crate::clone_flow::{is_top_git_dir, lock_ext, probe_says_initialized};
use crate::locality::{cache_key, repo_path_from_url};
use crate::pathops::{join, path_join, path_with_extension, with_extension};
use crate::submodules::{contains_string, declared_urls, gitmodules_decls, parse_gitmodules, strings_view, submodule_urls};

verus! {

/// A message to the coordinator of a prefetch run.
pub enum Prefetch {
    /// One unit of work that was handed out has completed.
    Done,
    /// A URL to mirror, from the seed list or found as a submodule.
    Url(String),
    /// A unit that was handed out failed; its `Done` follows.
    Failed(PrefetchError),
}

/// Counts the units of a prefetch run that are handed out and not yet done;
/// the run is over when that count is back to zero. A URL already seen in
/// this run is not handed out again.
pub struct Coordinator {
    seen: Vec<String>,
    left: usize,
    completed: usize,
    failure: Option<PrefetchError>,
}

impl Coordinator {
    /// The URLs handed out so far, in order.
    pub closed spec fn dispatched(&self) -> Seq<Seq<char>> {
        strings_view(self.seen@)
    }

    /// How many units handed out are done.
    pub closed spec fn completed(&self) -> nat {
        self.completed as nat
    }

    /// How many units are handed out and not yet done.
    pub closed spec fn outstanding(&self) -> nat {
        self.left as nat
    }

    /// The first failure reported in this run.
    pub closed spec fn first_failure(&self) -> Option<PrefetchError> {
        self.failure
    }

    pub closed spec fn wf(&self) -> bool {
        &&& self.completed + self.left == self.seen@.len()
        &&& forall|i: int, j: int| 0 <= i < j < self.seen@.len() ==> self.seen@[i]@ != self.seen@[j]@
    }

    pub fn new() -> (r: Self)
        ensures
            r.wf(),
            r.dispatched() == Seq::<Seq<char>>::empty(),
            r.completed() == 0,
            r.outstanding() == 0,
            r.first_failure() is None,
    {
        let c = Coordinator { seen: Vec::new(), left: 0, completed: 0, failure: None };
        assert(c.dispatched() =~= Seq::<Seq<char>>::empty());
        c
    }

    /// Takes one message and returns the URL to hand to the workers, if any.
    /// `Done` counts one unit as done; `Failed` keeps the failure where it is
    /// the first one and changes nothing else. `Url` of a URL not yet seen hands it
    /// out and counts one more unit outstanding; one already seen changes
    /// nothing.
    pub fn handle(&mut self, msg: Prefetch) -> (r: Option<String>)
        requires
            old(self).wf(),
            msg is Done ==> old(self).outstanding() > 0,
        ensures
            final(self).wf(),
            final(self).outstanding() + final(self).completed() == final(self).dispatched().len(),
            match msg {
                Prefetch::Failed(e) => {
                    &&& r is None
                    &&& final(self).dispatched() == old(self).dispatched()
                    &&& final(self).completed() == old(self).completed()
                    &&& final(self).outstanding() == old(self).outstanding()
                    &&& final(self).first_failure() == match old(self).first_failure() {
                        Some(f) => Some(f),
                        None => Some(e),
                    }
                },
                Prefetch::Done => {
                    &&& r is None
                    &&& final(self).first_failure() == old(self).first_failure()
                    &&& final(self).dispatched() == old(self).dispatched()
                    &&& final(self).completed() == old(self).completed() + 1
                    &&& final(self).outstanding() == old(self).outstanding() - 1
                },
                Prefetch::Url(u) => if old(self).dispatched().contains(u@) {
                    &&& r is None
                    &&& final(self).dispatched() == old(self).dispatched()
                    &&& final(self).completed() == old(self).completed()
                    &&& final(self).outstanding() == old(self).outstanding()
                    &&& final(self).first_failure() == old(self).first_failure()
                } else {
                    &&& r == Some(u)
                    &&& final(self).dispatched() == old(self).dispatched().push(u@)
                    &&& final(self).completed() == old(self).completed()
                    &&& final(self).outstanding() == old(self).outstanding() + 1
                    &&& final(self).first_failure() == old(self).first_failure()
                },
            },
    {
        match msg {
            Prefetch::Failed(e) => {
                if self.failure.is_none() {
                    self.failure = Some(e);
                }
                None
            },
            Prefetch::Done => {
                // the length of a vector fits a usize, and it bounds both counters
                let handed_out = self.seen.len();
                assert(self.completed + self.left == handed_out);
                self.left = self.left - 1;
                self.completed = self.completed + 1;
                None
            },
            Prefetch::Url(u) => {
                if contains_string(&self.seen, &u) {
                    return None;
                }
                let ghost before = self.dispatched();
                assert forall|j: int| 0 <= j < self.seen@.len() implies self.seen@[j]@ != u@ by {
                    assert(self.dispatched()[j] == self.seen@[j]@);
                }
                self.seen.push(u.clone());
                assert(self.dispatched() =~= before.push(u@));
                let handed_out = self.seen.len();
                assert(self.left < handed_out);
                self.left = self.left + 1;
                Some(u)
            },
        }
    }

    /// Whether the run is over: nothing handed out is still outstanding.
    pub fn finished(&self) -> (r: bool)
        requires
            self.wf(),
        ensures
            r == (self.outstanding() == 0),
            r == (self.completed() == self.dispatched().len()),
    {
        self.left == 0
    }

    /// How the run ended: the first failure reported, else how many
    /// repositories it handed out.
    pub fn into_outcome(self) -> (r: Result<usize, PrefetchError>)
        ensures
            match self.first_failure() {
                Some(e) => r == Err::<usize, PrefetchError>(e),
                None => r == Ok::<usize, PrefetchError>(self.dispatched().len() as usize),
            },
    {
        match self.failure {
            Some(e) => Err(e),
            None => Ok(self.seen.len()),
        }
    }

    /// How many repositories the run has handed out.
    pub fn total(&self) -> (r: usize)
        ensures
            r == self.dispatched().len(),
    {
        self.seen.len()
    }
}

/// No URL is handed out twice in one run.
pub proof fn lemma_dispatched_distinct(c: Coordinator)
    requires
        c.wf(),
    ensures
        forall|i: int, j: int| 0 <= i < j < c.dispatched().len() ==> c.dispatched()[i] != c.dispatched()[j],
{
}

/// Why prefetching one URL failed; each names the URL or path it concerns.
pub enum PrefetchError {
    /// The URL names no remote that can be cached.
    Configuration { url: String },
    Lock { path: String },
    Mirror { url: String },
    Update { url: String },
    /// The mirror's `.gitmodules` does not parse.
    Declarations { url: String },
}

/// One piece of outside work that prefetching a URL asks for next.
pub enum PrefetchAction {
    LockWrite { lock_path: String },
    LockRead { lock_path: String },
    Unlock,
    ProbeRepository { path: String },
    CreateDir { path: String },
    Mirror { url: String, dest: String },
    Update { repo: String },
    /// `git -C repo show HEAD:.gitmodules`
    ShowGitmodules { repo: String },
    /// Send each URL to the coordinator.
    Announce { urls: Vec<String> },
    /// Prefetching this URL is over; the coordinator is told `Done` either way.
    Finish { result: Result<(), PrefetchError> },
}

pub enum JobPhase {
    AwaitWriteLock,
    AwaitProbe,
    AwaitCreateDir,
    AwaitMirror,
    AwaitUpdate,
    AwaitWriteUnlock,
    AwaitReadLock,
    AwaitGitmodules,
    AwaitAnnounce,
    AwaitReadUnlock,
    AwaitFailUnlock,
    Finished,
}

/// The lock on the cache entry that is held while a prefetch phase waits.
pub open spec fn job_held(p: JobPhase) -> bool {
    !(p is AwaitWriteLock || p is AwaitWriteUnlock || p is AwaitReadLock || p is AwaitReadUnlock
        || p is Finished)
}

/// Prefetching one URL: mirror it if the cache lacks it, else update it
/// where asked; then, where asked, read its submodule URLs under the read
/// lock and announce them.
pub struct PrefetchJob {
    pub url: String,
    pub mirror_path: String,
    pub lock_path: String,
    pub update: bool,
    pub recurse: bool,
    pub phase: JobPhase,
    pub failure: Option<PrefetchError>,
}

pub open spec fn job_fail(s: PrefetchJob, e: PrefetchError, r: (PrefetchJob, PrefetchAction)) -> bool {
    r == (PrefetchJob { phase: JobPhase::AwaitFailUnlock, failure: Some(e), ..s }, PrefetchAction::Unlock)
}

pub open spec fn job_finish(s: PrefetchJob, res: Result<(), PrefetchError>, r: (PrefetchJob, PrefetchAction)) -> bool {
    r == (PrefetchJob { phase: JobPhase::Finished, failure: None, ..s }, PrefetchAction::Finish { result: res })
}

pub open spec fn job_release_write(s: PrefetchJob, r: (PrefetchJob, PrefetchAction)) -> bool {
    r == (PrefetchJob { phase: JobPhase::AwaitWriteUnlock, ..s }, PrefetchAction::Unlock)
}

/// What prefetching a URL does next, given whether the last action
/// succeeded, whether a probe found a repository, and what the last action
/// printed.
pub open spec fn next_job_step(s: PrefetchJob, ok: bool, initialized: bool, out: Seq<u8>, r: (PrefetchJob, PrefetchAction)) -> bool {
    match s.phase {
        JobPhase::AwaitWriteLock => if !ok {
            job_finish(s, Err(PrefetchError::Lock { path: s.lock_path }), r)
        } else {
            r == (PrefetchJob { phase: JobPhase::AwaitProbe, ..s }, PrefetchAction::ProbeRepository { path: s.mirror_path })
        },
        JobPhase::AwaitProbe => if !initialized {
            r == (PrefetchJob { phase: JobPhase::AwaitCreateDir, ..s }, PrefetchAction::CreateDir { path: s.mirror_path })
        } else if s.update {
            r == (PrefetchJob { phase: JobPhase::AwaitUpdate, ..s }, PrefetchAction::Update { repo: s.mirror_path })
        } else {
            job_release_write(s, r)
        },
        JobPhase::AwaitCreateDir => if !ok {
            job_fail(s, PrefetchError::Mirror { url: s.url }, r)
        } else {
            r == (PrefetchJob { phase: JobPhase::AwaitMirror, ..s }, PrefetchAction::Mirror { url: s.url, dest: s.mirror_path })
        },
        JobPhase::AwaitMirror => if !ok {
            job_fail(s, PrefetchError::Mirror { url: s.url }, r)
        } else {
            job_release_write(s, r)
        },
        JobPhase::AwaitUpdate => if !ok {
            job_fail(s, PrefetchError::Update { url: s.url }, r)
        } else {
            job_release_write(s, r)
        },
        JobPhase::AwaitWriteUnlock => if s.recurse {
            r == (PrefetchJob { phase: JobPhase::AwaitReadLock, ..s }, PrefetchAction::LockRead { lock_path: s.lock_path })
        } else {
            job_finish(s, Ok(()), r)
        },
        JobPhase::AwaitReadLock => if !ok {
            job_finish(s, Err(PrefetchError::Lock { path: s.lock_path }), r)
        } else {
            r == (PrefetchJob { phase: JobPhase::AwaitGitmodules, ..s }, PrefetchAction::ShowGitmodules { repo: s.mirror_path })
        },
        JobPhase::AwaitGitmodules => match gitmodules_decls(out) {
            Some(d) => r.0 == (PrefetchJob { phase: JobPhase::AwaitAnnounce, ..s })
                && (r.1 matches PrefetchAction::Announce { urls } && strings_view(urls@) == declared_urls(d)),
            None => job_fail(s, PrefetchError::Declarations { url: s.url }, r),
        },
        JobPhase::AwaitAnnounce => r == (PrefetchJob { phase: JobPhase::AwaitReadUnlock, ..s }, PrefetchAction::Unlock),
        JobPhase::AwaitReadUnlock => job_finish(s, Ok(()), r),
        JobPhase::AwaitFailUnlock => match s.failure {
            Some(e) => job_finish(s, Err(e), r),
            None => job_finish(s, Ok(()), r),
        },
        JobPhase::Finished => false,
    }
}

impl PrefetchJob {
    pub open spec fn wf(&self) -> bool {
        self.phase is AwaitFailUnlock <==> self.failure is Some
    }

    /// Begins prefetching `url` into the cache under `cache_base_dir`: fails
    /// with `Configuration` where `url` names no cacheable remote, else first
    /// takes the entry's write lock.
    #[verifier::rlimit(60)]
    pub fn start(cache_base_dir: &str, url: &str, update: bool, recurse: bool) -> (r: (PrefetchJob, PrefetchAction))
        ensures
            r.0.wf(),
            r.0.url@ == url@,
            r.0.update == update,
            r.0.recurse == recurse,
            match cache_key(url@) {
                None => r.0.phase is Finished && (r.1 matches PrefetchAction::Finish { result: Err(PrefetchError::Configuration { url: u }) }
                    && u@ == url@),
                Some(k) => {
                    &&& r.0.phase is AwaitWriteLock
                    &&& r.0.mirror_path@ == path_join(cache_base_dir@, k)
                    &&& r.0.lock_path@ == path_with_extension(r.0.mirror_path@, lock_ext())
                    &&& r.1 == (PrefetchAction::LockWrite { lock_path: r.0.lock_path })
                },
            },
    {
        let u = url.to_string();
        match repo_path_from_url(url) {
            Some(key) => {
                proof { reveal_strlit("git.lock"); }
                assert("git.lock"@ =~= lock_ext());
                let mirror_path = join(cache_base_dir, key.as_str());
                let lock_path = with_extension(mirror_path.as_str(), "git.lock");
                let l = lock_path.clone();
                (PrefetchJob { url: u, mirror_path, lock_path, update, recurse, phase: JobPhase::AwaitWriteLock, failure: None },
                    PrefetchAction::LockWrite { lock_path: l })
            },
            None => {
                let u2 = u.clone();
                (PrefetchJob { url: u, mirror_path: String::new(), lock_path: String::new(), update, recurse,
                    phase: JobPhase::Finished, failure: None },
                    PrefetchAction::Finish { result: Err(PrefetchError::Configuration { url: u2 }) })
            },
        }
    }

    fn finish(self, result: Result<(), PrefetchError>) -> (r: (PrefetchJob, PrefetchAction))
        ensures
            job_finish(self, result, r),
    {
        (PrefetchJob { phase: JobPhase::Finished, failure: None, ..self }, PrefetchAction::Finish { result })
    }

    fn fail(self, e: PrefetchError) -> (r: (PrefetchJob, PrefetchAction))
        ensures
            job_fail(self, e, r),
    {
        (PrefetchJob { phase: JobPhase::AwaitFailUnlock, failure: Some(e), ..self }, PrefetchAction::Unlock)
    }

    fn release_write(self) -> (r: (PrefetchJob, PrefetchAction))
        ensures
            job_release_write(self, r),
    {
        (PrefetchJob { phase: JobPhase::AwaitWriteUnlock, ..self }, PrefetchAction::Unlock)
    }

    /// Takes the outcome of the last action and gives the next state and the
    /// next action (see `next_job_step`). The mirror is created or updated
    /// only under the write lock, `.gitmodules` is read only under the read
    /// lock, and no lock is held when the job ends.
    #[verifier::rlimit(40)]
    pub fn step(self, ok: bool, output: &Vec<u8>) -> (r: (PrefetchJob, PrefetchAction))
        requires
            self.wf(),
            !(self.phase is Finished),
        ensures
            next_job_step(self, ok, ok && is_top_git_dir(output@), output@, r),
            r.0.wf(),
            (r.1 is Mirror || r.1 is Update || r.1 is CreateDir || r.1 is ShowGitmodules) ==> job_held(r.0.phase),
            r.1 is Finish ==> r.0.phase is Finished,
            (r.1 is LockWrite || r.1 is LockRead) ==> !job_held(self.phase),
    {
        match self.phase {
            JobPhase::AwaitWriteLock => {
                if !ok {
                    let path = self.lock_path.clone();
                    self.finish(Err(PrefetchError::Lock { path }))
                } else {
                    let path = self.mirror_path.clone();
                    (PrefetchJob { phase: JobPhase::AwaitProbe, ..self }, PrefetchAction::ProbeRepository { path })
                }
            },
            JobPhase::AwaitProbe => {
                if !probe_says_initialized(ok, output) {
                    let path = self.mirror_path.clone();
                    (PrefetchJob { phase: JobPhase::AwaitCreateDir, ..self }, PrefetchAction::CreateDir { path })
                } else if self.update {
                    let repo = self.mirror_path.clone();
                    (PrefetchJob { phase: JobPhase::AwaitUpdate, ..self }, PrefetchAction::Update { repo })
                } else {
                    self.release_write()
                }
            },
            JobPhase::AwaitCreateDir => {
                let url = self.url.clone();
                if !ok {
                    self.fail(PrefetchError::Mirror { url })
                } else {
                    let dest = self.mirror_path.clone();
                    (PrefetchJob { phase: JobPhase::AwaitMirror, ..self }, PrefetchAction::Mirror { url, dest })
                }
            },
            JobPhase::AwaitMirror => {
                if !ok {
                    let url = self.url.clone();
                    self.fail(PrefetchError::Mirror { url })
                } else {
                    self.release_write()
                }
            },
            JobPhase::AwaitUpdate => {
                if !ok {
                    let url = self.url.clone();
                    self.fail(PrefetchError::Update { url })
                } else {
                    self.release_write()
                }
            },
            JobPhase::AwaitWriteUnlock => {
                if self.recurse {
                    let lock_path = self.lock_path.clone();
                    (PrefetchJob { phase: JobPhase::AwaitReadLock, ..self }, PrefetchAction::LockRead { lock_path })
                } else {
                    self.finish(Ok(()))
                }
            },
            JobPhase::AwaitReadLock => {
                if !ok {
                    let path = self.lock_path.clone();
                    self.finish(Err(PrefetchError::Lock { path }))
                } else {
                    let repo = self.mirror_path.clone();
                    (PrefetchJob { phase: JobPhase::AwaitGitmodules, ..self }, PrefetchAction::ShowGitmodules { repo })
                }
            },
            JobPhase::AwaitGitmodules => {
                match parse_gitmodules(output.as_slice()) {
                    Some(decls) => {
                        let urls = submodule_urls(&decls);
                        (PrefetchJob { phase: JobPhase::AwaitAnnounce, ..self }, PrefetchAction::Announce { urls })
                    },
                    None => {
                        let url = self.url.clone();
                        self.fail(PrefetchError::Declarations { url })
                    },
                }
            },
            JobPhase::AwaitAnnounce => (PrefetchJob { phase: JobPhase::AwaitReadUnlock, ..self }, PrefetchAction::Unlock),
            JobPhase::AwaitReadUnlock => self.finish(Ok(())),
            JobPhase::AwaitFailUnlock => {
                let failure = self.failure;
                match failure {
                    Some(e) => (PrefetchJob { phase: JobPhase::Finished, failure: None, ..self }, PrefetchAction::Finish { result: Err(e) }),
                    None => (PrefetchJob { phase: JobPhase::Finished, failure: None, ..self }, PrefetchAction::Finish { result: Ok(()) }),
                }
            },
            JobPhase::Finished => self.finish(Ok(())),
        }
    }
}

} // verus!
