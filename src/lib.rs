//! Lifecycle orchestration for capsules: named, task-scoped environments
//! layered on an external container runtime.
//!
//! The library derives each capsule's on-disk layout and runtime invocation
//! and sequences the steps of every operation. Performing a step (touching
//! the filesystem, spawning the runtime) is left to the caller.
use vstd::prelude::*;

pub mod text;
pub mod bootstrap;
pub mod config;
pub mod layout;
pub mod volumes;
pub mod invocation;
pub mod lifecycle;
pub mod listing;

verus! {

/// The ways an operation on a capsule can fail.
#[derive(Debug, Clone, PartialEq, Eq)]
pub enum CapsuleError {
    /// The invoking user's name or home directory could not be determined.
    Configuration(String),
    /// The bootstrap source is missing while initialisation was requested.
    Precondition(String),
    /// Creating a directory or copying a file failed.
    Io(String),
    /// The runtime process could not be spawned at all.
    RuntimeInvocation(String),
    /// The runtime ran and exited unsuccessfully; its report is kept verbatim.
    RuntimeReported(String),
}

} // verus!
