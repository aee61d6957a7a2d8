//! The kernels registry: two independently guarded, monotonically growing
//! caches — module to compiled library, specialization key to compiled
//! pipeline. For a fixed registry, at most one library exists per module and
//! at most one pipeline per key-equivalence class, and every caller observes
//! the same compiled object thereafter.
//!
//! Lookup-then-insert runs as a single exclusive critical section per cache:
//! a caller takes the write lock, checks for an entry, and on a miss
//! compiles and inserts before releasing. The cache therefore never holds
//! two entries for equivalent keys and no key is compiled twice; the price
//! is that concurrent misses for *different* keys serialize while one
//! compilation is in flight — a deliberate simplicity-over-throughput
//! tradeoff.
//!
//! Compilation itself is the device's job, so each fetch takes the compile
//! step as a callback; the contracts state what holds of the cache whatever
//! the callback returns.

use vstd::prelude::*;
use vstd::rwlock::{RwLock, RwLockPredicate};

use crate::error::MetalKernelError;
use crate::key::{
    key_eq, key_equiv, lemma_key_equiv_reflexive, lemma_key_equiv_symmetric,
    lemma_key_equiv_transitive, KernelKey,
};
use crate::pipeline::Pipeline;
use crate::source::{LibraryDefinition, Source};

verus! {

/// The library-compile callback accepts every compilation path.
pub open spec fn lib_callback_callable<
    L,
    FL: FnOnce(LibraryDefinition) -> Result<L, MetalKernelError>,
>(fl: FL) -> bool {
    forall|d: LibraryDefinition| #[trigger] call_requires(fl, (d,))
}

/// Whatever the library-compile callback returns is a success.
pub open spec fn lib_callback_infallible<
    L,
    FL: FnOnce(LibraryDefinition) -> Result<L, MetalKernelError>,
>(fl: FL) -> bool {
    forall|d: LibraryDefinition, o: Result<L, MetalKernelError>|
        #[trigger] call_ensures(fl, (d,), o) ==> o is Ok
}

/// The pipeline-build callback accepts every library and key.
pub open spec fn fn_callback_callable<
    L,
    H,
    FP: FnOnce(L, KernelKey) -> Result<Pipeline<H>, MetalKernelError>,
>(fp: FP) -> bool {
    forall|l: L, k: KernelKey| #[trigger] call_requires(fp, (l, k))
}

/// Whatever the pipeline-build callback returns is a success.
pub open spec fn fn_callback_infallible<
    L,
    H,
    FP: FnOnce(L, KernelKey) -> Result<Pipeline<H>, MetalKernelError>,
>(fp: FP) -> bool {
    forall|l: L, k: KernelKey, o: Result<Pipeline<H>, MetalKernelError>|
        #[trigger] call_ensures(fp, (l, k), o) ==> o is Ok
}

/// The error `e` is one of the two callbacks' own: either the library
/// compile refused this module's compilation path, or the pipeline build
/// refused some library/key pair.
pub open spec fn callback_error<
    L,
    H,
    FL: FnOnce(LibraryDefinition) -> Result<L, MetalKernelError>,
    FP: FnOnce(L, KernelKey) -> Result<Pipeline<H>, MetalKernelError>,
>(fl: FL, fp: FP, source: Source, e: MetalKernelError) -> bool {
    ||| call_ensures(fl, (source.library_definition(),), Result::Err(e))
    ||| exists|l: L, k: KernelKey|
        #[trigger] call_ensures(fp, (l, k), Result::<Pipeline<H>, MetalKernelError>::Err(e))
}

/// The library cache holds at most one entry per module.
pub open spec fn lib_cache_wf<L>(entries: Seq<(Source, L)>) -> bool {
    forall|i: int, j: int|
        0 <= i < j < entries.len() ==> (#[trigger] entries[i]).0 != (#[trigger] entries[j]).0
}

/// A library for `source` is cached.
pub open spec fn lib_cache_has<L>(entries: Seq<(Source, L)>, source: Source) -> bool {
    exists|i: int| 0 <= i < entries.len() && (#[trigger] entries[i]).0 == source
}

/// The index of the entry for `source` (meaningful when one exists).
pub open spec fn lib_cache_index_of<L>(entries: Seq<(Source, L)>, source: Source) -> int {
    choose|i: int| 0 <= i < entries.len() && (#[trigger] entries[i]).0 == source
}

/// The cached library for `source` (meaningful when one exists).
pub open spec fn lib_cache_at<L>(entries: Seq<(Source, L)>, source: Source) -> L {
    entries[lib_cache_index_of(entries, source)].1
}

/// In a well-formed library cache the entry for a module is unique: all
/// lookups for one module observe one library.
pub proof fn lemma_lib_cache_entry_unique<L>(entries: Seq<(Source, L)>, source: Source, i: int)
    requires
        lib_cache_wf(entries),
        0 <= i < entries.len(),
        entries[i].0 == source,
    ensures
        lib_cache_has(entries, source),
        lib_cache_index_of(entries, source) == i,
        lib_cache_at(entries, source) == entries[i].1,
{
    let k = lib_cache_index_of(entries, source);
    assert(0 <= k < entries.len() && entries[k].0 == source);
}

fn lib_cache_lookup<L: Copy>(entries: &Vec<(Source, L)>, source: Source) -> (r: Option<L>)
    requires
        lib_cache_wf(entries@),
    ensures
        r is Some <==> lib_cache_has(entries@, source),
        r matches Some(l) ==> l == lib_cache_at(entries@, source),
{
    let n = entries.len();
    let mut i: usize = 0;
    while i < n
        invariant
            i <= n,
            n == entries@.len(),
            lib_cache_wf(entries@),
            forall|j: int| 0 <= j < i ==> (#[trigger] entries@[j]).0 != source,
        decreases n - i,
    {
        if entries[i].0 == source {
            proof {
                lemma_lib_cache_entry_unique(entries@, source, i as int);
            }
            return Option::Some(entries[i].1);
        }
        i += 1;
    }
    Option::None
}

fn lib_cache_insert<L: Copy>(entries: &mut Vec<(Source, L)>, source: Source, lib: L)
    requires
        lib_cache_wf(old(entries)@),
        !lib_cache_has(old(entries)@, source),
    ensures
        final(entries)@ == old(entries)@.push((source, lib)),
        lib_cache_wf(final(entries)@),
        lib_cache_has(final(entries)@, source),
        lib_cache_at(final(entries)@, source) == lib,
        forall|s2: Source|
            lib_cache_has(old(entries)@, s2) ==> #[trigger] lib_cache_has(final(entries)@, s2)
                && lib_cache_at(final(entries)@, s2) == lib_cache_at(old(entries)@, s2),
{
    let ghost olds = entries@;
    let n = entries.len();
    entries.push((source, lib));
    proof {
        let news = entries@;
        assert forall|i: int, j: int| 0 <= i < j < news.len() implies (#[trigger] news[i]).0 != (
        #[trigger] news[j]).0 by {
            if j < olds.len() {
                assert(olds[i].0 != olds[j].0);
            } else {
                assert(news[j].0 == source);
                assert(olds[i].0 != source);
            }
        }
        lemma_lib_cache_entry_unique(news, source, n as int);
        assert forall|s2: Source| lib_cache_has(olds, s2) implies #[trigger] lib_cache_has(
            news,
            s2,
        ) && lib_cache_at(news, s2) == lib_cache_at(olds, s2) by {
            let i = lib_cache_index_of(olds, s2);
            assert(0 <= i < olds.len() && olds[i].0 == s2);
            lemma_lib_cache_entry_unique(news, s2, i);
        }
    }
}

/// The pipeline cache holds at most one entry per key-equivalence class.
pub open spec fn pipe_cache_wf<H>(entries: Seq<(KernelKey, Pipeline<H>)>) -> bool {
    forall|i: int, j: int|
        0 <= i < j < entries.len() ==> !key_equiv(
            (#[trigger] entries[i]).0,
            (#[trigger] entries[j]).0,
        )
}

/// A pipeline for a key equivalent to `key` is cached.
pub open spec fn pipe_cache_has<H>(entries: Seq<(KernelKey, Pipeline<H>)>, key: KernelKey) -> bool {
    exists|i: int| 0 <= i < entries.len() && key_equiv((#[trigger] entries[i]).0, key)
}

/// The index of the entry for `key` (meaningful when one exists).
pub open spec fn pipe_cache_index_of<H>(
    entries: Seq<(KernelKey, Pipeline<H>)>,
    key: KernelKey,
) -> int {
    choose|i: int| 0 <= i < entries.len() && key_equiv((#[trigger] entries[i]).0, key)
}

/// The cached pipeline for `key` (meaningful when one exists).
pub open spec fn pipe_cache_at<H>(
    entries: Seq<(KernelKey, Pipeline<H>)>,
    key: KernelKey,
) -> Pipeline<H> {
    entries[pipe_cache_index_of(entries, key)].1
}

/// In a well-formed pipeline cache the entry for a key is unique: all
/// lookups for equivalent keys observe one pipeline.
pub proof fn lemma_pipe_cache_entry_unique<H>(
    entries: Seq<(KernelKey, Pipeline<H>)>,
    key: KernelKey,
    i: int,
)
    requires
        pipe_cache_wf(entries),
        0 <= i < entries.len(),
        key_equiv(entries[i].0, key),
    ensures
        pipe_cache_has(entries, key),
        pipe_cache_index_of(entries, key) == i,
        pipe_cache_at(entries, key) == entries[i].1,
{
    let k = pipe_cache_index_of(entries, key);
    assert(0 <= k < entries.len() && key_equiv(entries[k].0, key));
    if k != i {
        lemma_key_equiv_symmetric(entries[k].0, key);
        lemma_key_equiv_transitive(entries[i].0, key, entries[k].0);
        lemma_key_equiv_symmetric(entries[i].0, entries[k].0);
        assert(false);
    }
}

/// Cache idempotence: in a well-formed cache, two equivalent keys (for
/// instance two keys that differ only in a float constant's value) are
/// served by the same underlying pipeline instance.
pub proof fn lemma_pipe_cache_idempotent<H>(
    entries: Seq<(KernelKey, Pipeline<H>)>,
    k1: KernelKey,
    k2: KernelKey,
)
    requires
        pipe_cache_wf(entries),
        key_equiv(k1, k2),
        pipe_cache_has(entries, k1),
    ensures
        pipe_cache_has(entries, k2),
        pipe_cache_at(entries, k1) == pipe_cache_at(entries, k2),
{
    let i = pipe_cache_index_of(entries, k1);
    assert(0 <= i < entries.len() && key_equiv(entries[i].0, k1));
    lemma_key_equiv_transitive(entries[i].0, k1, k2);
    lemma_pipe_cache_entry_unique(entries, k2, i);
}

fn pipe_cache_lookup<H: Copy>(entries: &Vec<(KernelKey, Pipeline<H>)>, key: &KernelKey) -> (r:
    Option<Pipeline<H>>)
    requires
        pipe_cache_wf(entries@),
    ensures
        r is Some <==> pipe_cache_has(entries@, *key),
        r matches Some(p) ==> p == pipe_cache_at(entries@, *key),
{
    let n = entries.len();
    let mut i: usize = 0;
    while i < n
        invariant
            i <= n,
            n == entries@.len(),
            pipe_cache_wf(entries@),
            forall|j: int| 0 <= j < i ==> !key_equiv((#[trigger] entries@[j]).0, *key),
        decreases n - i,
    {
        if key_eq(&entries[i].0, key) {
            proof {
                lemma_pipe_cache_entry_unique(entries@, *key, i as int);
            }
            return Option::Some(entries[i].1);
        }
        i += 1;
    }
    Option::None
}

fn pipe_cache_insert<H: Copy>(
    entries: &mut Vec<(KernelKey, Pipeline<H>)>,
    key: KernelKey,
    pipeline: Pipeline<H>,
)
    requires
        pipe_cache_wf(old(entries)@),
        !pipe_cache_has(old(entries)@, key),
    ensures
        final(entries)@ == old(entries)@.push((key, pipeline)),
        pipe_cache_wf(final(entries)@),
        pipe_cache_has(final(entries)@, key),
        pipe_cache_at(final(entries)@, key) == pipeline,
        forall|k2: KernelKey|
            pipe_cache_has(old(entries)@, k2) ==> #[trigger] pipe_cache_has(final(entries)@, k2)
                && pipe_cache_at(final(entries)@, k2) == pipe_cache_at(old(entries)@, k2),
{
    let ghost olds = entries@;
    let ghost keyv = key;
    let n = entries.len();
    entries.push((key, pipeline));
    proof {
        let news = entries@;
        assert forall|i: int, j: int| 0 <= i < j < news.len() implies !key_equiv(
            (#[trigger] news[i]).0,
            (#[trigger] news[j]).0,
        ) by {
            if j < olds.len() {
                assert(!key_equiv(olds[i].0, olds[j].0));
            } else {
                assert(news[j].0 == keyv);
            }
        }
        lemma_key_equiv_reflexive(keyv);
        lemma_pipe_cache_entry_unique(news, keyv, n as int);
        assert forall|k2: KernelKey| pipe_cache_has(olds, k2) implies #[trigger] pipe_cache_has(
            news,
            k2,
        ) && pipe_cache_at(news, k2) == pipe_cache_at(olds, k2) by {
            let i = pipe_cache_index_of(olds, k2);
            assert(0 <= i < olds.len() && key_equiv(olds[i].0, k2));
            lemma_pipe_cache_entry_unique(news, k2, i);
        }
    }
}

/// The invariant the library cache's lock maintains.
pub struct LibrariesInv;

impl<L> RwLockPredicate<Vec<(Source, L)>> for LibrariesInv {
    open spec fn inv(self, v: Vec<(Source, L)>) -> bool {
        lib_cache_wf(v@)
    }
}

/// The invariant the pipeline cache's lock maintains.
pub struct PipelinesInv;

impl<H> RwLockPredicate<Vec<(KernelKey, Pipeline<H>)>> for PipelinesInv {
    open spec fn inv(self, v: Vec<(KernelKey, Pipeline<H>)>) -> bool {
        pipe_cache_wf(v@)
    }
}

/// The registry. `L` is the caller's handle type for a compiled library,
/// `H` its handle type for a compiled pipeline; both are opaque here.
///
/// Constructable with no arguments and safely shareable across threads: the
/// two caches are the only mutable state, each guarded by its own verified
/// reader-writer lock, and they only ever grow.
pub struct Kernels<L, H> {
    libraries: RwLock<Vec<(Source, L)>, LibrariesInv>,
    pipelines: RwLock<Vec<(KernelKey, Pipeline<H>)>, PipelinesInv>,
}

impl<L: Copy, H: Copy> Kernels<L, H> {
    /// A fresh registry with both caches empty.
    pub fn new() -> (r: Self) {
        let libraries: Vec<(Source, L)> = Vec::new();
        let pipelines: Vec<(KernelKey, Pipeline<H>)> = Vec::new();
        Kernels {
            libraries: RwLock::new(libraries, Ghost(LibrariesInv)),
            pipelines: RwLock::new(pipelines, Ghost(PipelinesInv)),
        }
    }

    /// Fetches the compiled library for `source`, compiling it on first use
    /// through `compile`, which receives the module's compilation path.
    ///
    /// Lookup and compile-and-insert form one exclusive critical section, so
    /// the compile step runs at most once per module per registry; every
    /// error is the callback's own, and if the callback cannot fail, neither
    /// does this call.
    pub fn load_library<FL: FnOnce(LibraryDefinition) -> Result<
        L,
        MetalKernelError,
    >>(&self, source: Source, compile: FL) -> (r: Result<L, MetalKernelError>)
        requires
            lib_callback_callable(compile),
        ensures
            r matches Err(e) ==> call_ensures(compile, (source.library_definition(),), Err(e)),
            lib_callback_infallible(compile) ==> r is Ok,
    {
        let (mut cache, handle) = self.libraries.acquire_write();
        match lib_cache_lookup(&cache, source) {
            Option::Some(lib) => {
                handle.release_write(cache);
                Result::Ok(lib)
            },
            Option::None => {
                let def = source.get_library_source();
                match compile(def) {
                    Result::Ok(lib) => {
                        lib_cache_insert(&mut cache, source, lib);
                        handle.release_write(cache);
                        Result::Ok(lib)
                    },
                    Result::Err(e) => {
                        handle.release_write(cache);
                        Result::Err(e)
                    },
                }
            },
        }
    }

    /// Fetches the compiled pipeline for `key`, compiling it on first use:
    /// the module's library comes through the library cache (compiled by
    /// `compile_library` if absent), then `compile_function` builds the
    /// pipeline from the library and the key.
    ///
    /// Lookup and compile-and-insert form one exclusive critical section per
    /// registry, so at most one pipeline is ever created per key-equivalence
    /// class and all callers observe that one instance. Every error is one
    /// of the callbacks' own, and if neither callback can fail, neither does
    /// this call.
    pub fn load_pipeline<FL, FP>(
        &self,
        source: Source,
        key: KernelKey,
        compile_library: FL,
        compile_function: FP,
    ) -> (r: Result<Pipeline<H>, MetalKernelError>) where
        FL: FnOnce(LibraryDefinition) -> Result<L, MetalKernelError>,
        FP: FnOnce(L, KernelKey) -> Result<Pipeline<H>, MetalKernelError>,

        requires
            lib_callback_callable(compile_library),
            fn_callback_callable(compile_function),
        ensures
            r matches Err(e) ==> callback_error(compile_library, compile_function, source, e),
            lib_callback_infallible(compile_library) && fn_callback_infallible(compile_function)
                ==> r is Ok,
    {
        let (mut cache, handle) = self.pipelines.acquire_write();
        match pipe_cache_lookup(&cache, &key) {
            Option::Some(pipeline) => {
                handle.release_write(cache);
                Result::Ok(pipeline)
            },
            Option::None => {
                match self.load_library(source, compile_library) {
                    Result::Err(e) => {
                        handle.release_write(cache);
                        Result::Err(e)
                    },
                    Result::Ok(lib) => {
                        match compile_function(lib, key.clone()) {
                            Result::Err(e) => {
                                handle.release_write(cache);
                                Result::Err(e)
                            },
                            Result::Ok(pipeline) => {
                                pipe_cache_insert(&mut cache, key, pipeline);
                                handle.release_write(cache);
                                Result::Ok(pipeline)
                            },
                        }
                    },
                }
            },
        }
    }
}

impl<L: Copy, H: Copy> Default for Kernels<L, H> {
    /// Same as `new`: a registry with both caches empty.
    fn default() -> Self {
        Self::new()
    }
}

} // verus!
