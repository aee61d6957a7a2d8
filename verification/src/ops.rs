//! The kernel symbol table: one entry-point name per elementwise operation,
//! datatype variant, and addressing layout. A single lookup replaces the
//! many near-identical per-op name constants; call sites index the table
//! with the operation and variant they need.

use vstd::prelude::*;
use vstd::string::StringExecFns;

verus! {

/// Datatype variants a kernel symbol can be specialized for. The integer
/// variants exist only for `copy`.
#[derive(Clone, Copy, PartialEq, Eq, Structural, Debug)]
pub enum KernelDType {
    Float,
    Half,
    Bfloat,
    U32,
    U8,
}

/// The elementwise unary operations, plus `copy`.
#[derive(Clone, Copy, PartialEq, Eq, Structural, Debug)]
pub enum UnaryOp {
    Cos,
    Sin,
    Exp,
    Sqr,
    Sqrt,
    Neg,
    Log,
    Gelu,
    Ceil,
    Floor,
    Round,
    Erf,
    GeluErf,
    Copy,
}

/// The elementwise binary operations.
#[derive(Clone, Copy, PartialEq, Eq, Structural, Debug)]
pub enum BinaryOp {
    Add,
    Sub,
    Mul,
    Div,
}

/// Contiguous or strided addressing variant of a kernel.
#[derive(Clone, Copy, PartialEq, Eq, Structural, Debug)]
pub enum KernelLayout {
    Contiguous,
    Strided,
}

/// The symbol stem of a unary operation.
pub open spec fn unary_stem(op: UnaryOp) -> Seq<char> {
    match op {
        UnaryOp::Cos => "cos"@,
        UnaryOp::Sin => "sin"@,
        UnaryOp::Exp => "exp"@,
        UnaryOp::Sqr => "sqr"@,
        UnaryOp::Sqrt => "sqrt"@,
        UnaryOp::Neg => "neg"@,
        UnaryOp::Log => "log"@,
        UnaryOp::Gelu => "gelu"@,
        UnaryOp::Ceil => "ceil"@,
        UnaryOp::Floor => "floor"@,
        UnaryOp::Round => "round"@,
        UnaryOp::Erf => "erf"@,
        UnaryOp::GeluErf => "gelu_erf"@,
        UnaryOp::Copy => "copy"@,
    }
}

/// The symbol stem of a binary operation.
pub open spec fn binary_stem(op: BinaryOp) -> Seq<char> {
    match op {
        BinaryOp::Add => "add"@,
        BinaryOp::Sub => "sub"@,
        BinaryOp::Mul => "mul"@,
        BinaryOp::Div => "div"@,
    }
}

/// The datatype part of a symbol.
pub open spec fn dtype_suffix(t: KernelDType) -> Seq<char> {
    match t {
        KernelDType::Float => "_float"@,
        KernelDType::Half => "_half"@,
        KernelDType::Bfloat => "_bfloat"@,
        KernelDType::U32 => "_u32"@,
        KernelDType::U8 => "_u8"@,
    }
}

/// The addressing part of a symbol: strided kernels carry a marker,
/// contiguous ones none.
pub open spec fn layout_suffix(l: KernelLayout) -> Seq<char> {
    match l {
        KernelLayout::Contiguous => Seq::<char>::empty(),
        KernelLayout::Strided => "_strided"@,
    }
}

/// Which datatypes a unary operation exists for: `copy` for all of them,
/// the arithmetic operations for the float family only.
pub open spec fn unary_supports(op: UnaryOp, t: KernelDType) -> bool {
    op is Copy || t is Float || t is Half || t is Bfloat
}

/// Which datatypes a binary operation exists for: the float family.
pub open spec fn binary_supports(op: BinaryOp, t: KernelDType) -> bool {
    t is Float || t is Half || t is Bfloat
}

fn unary_stem_str(op: UnaryOp) -> (r: &'static str)
    ensures
        r@ == unary_stem(op),
{
    match op {
        UnaryOp::Cos => "cos",
        UnaryOp::Sin => "sin",
        UnaryOp::Exp => "exp",
        UnaryOp::Sqr => "sqr",
        UnaryOp::Sqrt => "sqrt",
        UnaryOp::Neg => "neg",
        UnaryOp::Log => "log",
        UnaryOp::Gelu => "gelu",
        UnaryOp::Ceil => "ceil",
        UnaryOp::Floor => "floor",
        UnaryOp::Round => "round",
        UnaryOp::Erf => "erf",
        UnaryOp::GeluErf => "gelu_erf",
        UnaryOp::Copy => "copy",
    }
}

fn binary_stem_str(op: BinaryOp) -> (r: &'static str)
    ensures
        r@ == binary_stem(op),
{
    match op {
        BinaryOp::Add => "add",
        BinaryOp::Sub => "sub",
        BinaryOp::Mul => "mul",
        BinaryOp::Div => "div",
    }
}

fn dtype_suffix_str(t: KernelDType) -> (r: &'static str)
    ensures
        r@ == dtype_suffix(t),
{
    match t {
        KernelDType::Float => "_float",
        KernelDType::Half => "_half",
        KernelDType::Bfloat => "_bfloat",
        KernelDType::U32 => "_u32",
        KernelDType::U8 => "_u8",
    }
}

/// The entry-point name of a unary kernel: stem, datatype, layout.
pub fn unary_kernel_name(op: UnaryOp, t: KernelDType, l: KernelLayout) -> (r: String)
    requires
        unary_supports(op, t),
    ensures
        r@ =~= unary_stem(op) + dtype_suffix(t) + layout_suffix(l),
{
    let mut s = unary_stem_str(op).to_owned();
    s.append(dtype_suffix_str(t));
    match l {
        KernelLayout::Contiguous => {},
        KernelLayout::Strided => {
            s.append("_strided");
        },
    }
    s
}

/// The entry-point name of a binary kernel: stem, datatype, layout.
pub fn binary_kernel_name(op: BinaryOp, t: KernelDType, l: KernelLayout) -> (r: String)
    requires
        binary_supports(op, t),
    ensures
        r@ =~= binary_stem(op) + dtype_suffix(t) + layout_suffix(l),
{
    let mut s = binary_stem_str(op).to_owned();
    s.append(dtype_suffix_str(t));
    match l {
        KernelLayout::Contiguous => {},
        KernelLayout::Strided => {
            s.append("_strided");
        },
    }
    s
}

} // verus!
