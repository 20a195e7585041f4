//! A cache of mirrored git repositories: clones through the cache, the
//! locking protocol around each entry, submodule resolution and bulk
//! prefetching, each as verified decisions that a caller carries out.

pub mod cli;
pub mod clone_flow;
pub mod config;
pub mod git_args;
pub mod locality;
pub mod pathops;
pub mod prefetch;
pub mod submodules;
pub mod urlparse;
