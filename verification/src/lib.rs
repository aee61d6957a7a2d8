//! A compute-kernel dispatch runtime for a tensor library: it lazily
//! compiles and caches kernel libraries and specialized pipelines, derives
//! dispatch-grid geometry for the supported operation families, and marshals
//! heterogeneous call arguments into positional binding slots.
//!
//! The device itself (compiler, buffers, command streams) stays outside this
//! crate: callers hand in compile callbacks and opaque handles, and each
//! dispatch entry point returns a fully-determined plan that the caller
//! records into its command stream.

pub mod cache;
pub mod dispatch;
pub mod encoder;
pub mod error;
pub mod grid;
pub mod key;
pub mod ops;
pub mod pipeline;
pub mod shape;
pub mod source;
pub mod stable_diffusion;
