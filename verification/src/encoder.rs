//! The parameter encoder: binds a heterogeneous, ordered argument list to
//! the positional slots of a pipeline invocation. Slots are assigned in
//! strict call order starting at 0 — the element at position `i` of the
//! list is bound to slot `i`. This is the only place where argument order
//! (and so ABI compatibility with a kernel's declared signature) is
//! decided; nothing else in the crate inspects slot numbers.
//!
//! Each argument kind has a single canonical binding rule, named by the
//! `Param` variant that carries it.

use vstd::prelude::*;

verus! {

/// One argument of a dispatch, with its binding rule. `B` is the caller's
/// opaque device-buffer handle type.
#[derive(Clone, Debug, PartialEq)]
pub enum Param<B> {
    /// A size/count scalar, bound by value as the raw bytes of one `usize`.
    Size(usize),
    /// A 32-bit float scalar carried by its bit pattern, bound by value as
    /// its four raw bytes.
    Float(u32),
    /// An ordered extent or stride vector, bound by value as its raw byte
    /// span.
    Sizes(Vec<usize>),
    /// A device buffer bound at the given element offset (0 when the caller
    /// gave none).
    Buffer(B, usize),
}

/// The mathematical shape of one bound argument: as `Param`, with the
/// vector payload abstracted to its sequence.
pub enum ParamModel<B> {
    Size(usize),
    Float(u32),
    Sizes(Seq<usize>),
    Buffer(B, usize),
}

/// What one argument binds, mathematically.
pub open spec fn param_model<B>(p: Param<B>) -> ParamModel<B> {
    match p {
        Param::Size(v) => ParamModel::Size(v),
        Param::Float(bits) => ParamModel::Float(bits),
        Param::Sizes(v) => ParamModel::Sizes(v@),
        Param::Buffer(b, offset) => ParamModel::Buffer(b, offset),
    }
}

/// The positional argument list of one dispatch: slot `i` of the kernel's
/// declared signature receives `self@[i]`.
#[derive(Clone, Debug)]
pub struct ParamList<B> {
    items: Vec<Param<B>>,
}

impl<B> View for ParamList<B> {
    type V = Seq<ParamModel<B>>;

    closed spec fn view(&self) -> Seq<ParamModel<B>> {
        Seq::new(self.items@.len(), |i: int| param_model(self.items@[i]))
    }
}

impl<B: Copy> ParamList<B> {
    /// An empty argument list; the first push lands in slot 0.
    pub fn new() -> (r: Self)
        ensures
            r@ =~= Seq::<ParamModel<B>>::empty(),
    {
        ParamList { items: Vec::new() }
    }

    /// Slots bound so far.
    pub fn len(&self) -> (r: usize)
        ensures
            r == self@.len(),
    {
        self.items.len()
    }

    /// The argument bound to slot `i`.
    pub fn get(&self, i: usize) -> (r: &Param<B>)
        requires
            i < self@.len(),
        ensures
            param_model(*r) == self@[i as int],
    {
        &self.items[i]
    }

    /// Binds a size/count scalar to the next slot.
    pub fn push_size(&mut self, v: usize)
        ensures
            final(self)@ =~= old(self)@.push(ParamModel::Size(v)),
    {
        self.items.push(Param::Size(v));
    }

    /// Binds a 32-bit float scalar, given by bit pattern, to the next slot.
    pub fn push_float_bits(&mut self, bits: u32)
        ensures
            final(self)@ =~= old(self)@.push(ParamModel::Float(bits)),
    {
        self.items.push(Param::Float(bits));
    }

    /// Binds an extent/stride vector, by raw byte span, to the next slot.
    pub fn push_sizes(&mut self, v: &[usize])
        ensures
            final(self)@ =~= old(self)@.push(ParamModel::Sizes(v@)),
    {
        let copy = vstd::slice::slice_to_vec(v);
        self.items.push(Param::Sizes(copy));
    }

    /// Binds a device buffer at an element offset to the next slot.
    pub fn push_buffer(&mut self, buffer: B, offset: usize)
        ensures
            final(self)@ =~= old(self)@.push(ParamModel::Buffer(buffer, offset)),
    {
        self.items.push(Param::Buffer(buffer, offset));
    }
}

} // verus!
