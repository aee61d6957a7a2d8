//! The error taxonomy of the dispatch runtime. Every failure is returned
//! synchronously to the immediate caller; nothing here retries, falls back
//! or logs.

use vstd::prelude::*;

verus! {

/// A failure while obtaining a compiled library or pipeline.
///
/// Each variant names one distinct failure source; the payload carries the
/// device compiler's own message where one exists.
#[derive(Clone, Debug)]
pub enum MetalKernelError {
    /// A cache's guarding lock was poisoned by an earlier panic. Unrecoverable:
    /// the registry must be treated as unusable. The verified caches in this
    /// crate cannot panic while holding their locks, so they never produce
    /// this variant themselves; it remains part of the taxonomy for callers
    /// that layer their own locking on top.
    LockError(String),
    /// A module failed to compile from source text or to load from a
    /// precompiled binary blob (malformed or incompatible asset).
    LoadLibraryError(String),
    /// The library loaded, but the named function was not found or its
    /// specialization constants were rejected.
    LoadFunctionError(String),
    /// The device produced no compute function object for the entry point.
    FailedToCreateComputeFunction,
    /// The device refused to materialize the compiled pipeline object
    /// (resource limits and kin).
    FailedToCreatePipeline(String),
}

} // verus!
