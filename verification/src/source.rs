//! The fixed set of kernel source modules. Each module's kernel text or
//! binary is a static, process-embedded asset held by the caller that owns
//! the device; this crate only tracks module identity and which compilation
//! path each module takes.

use vstd::prelude::*;

verus! {

/// A named kernel domain. Exactly one compiled library exists per module per
/// registry instance, created on first use and never evicted.
#[derive(Clone, Copy, PartialEq, Eq, Structural, Debug)]
pub enum Source {
    Affine,
    Indexing,
    Unary,
    Binary,
    Ternary,
    Cast,
    Reduce,
    MetalFlashAttention,
}

/// Which compilation path a module uses: runtime compilation of textual
/// kernel source, or direct load of a precompiled binary blob. Both paths
/// are interchangeable from the caller's perspective once loaded.
#[derive(Clone, Copy, PartialEq, Eq, Structural, Debug)]
pub enum LibraryDefinition {
    Source,
    Data,
}

impl Source {
    /// Module identity alone determines the path: the flash-attention module
    /// ships as a precompiled binary, every other module as source text.
    pub open spec fn library_definition(self) -> LibraryDefinition {
        match self {
            Source::MetalFlashAttention => LibraryDefinition::Data,
            _ => LibraryDefinition::Source,
        }
    }

    /// The compilation path for this module's embedded asset.
    pub fn get_library_source(self) -> (r: LibraryDefinition)
        ensures
            r == self.library_definition(),
    {
        match self {
            Source::MetalFlashAttention => LibraryDefinition::Data,
            _ => LibraryDefinition::Source,
        }
    }
}

} // verus!
