use candle_metal_kernels::ops::{
    binary_kernel_name, unary_kernel_name, BinaryOp, KernelDType, KernelLayout, UnaryOp,
};

#[test]
fn unary_symbols_contiguous() {
    assert_eq!(
        unary_kernel_name(UnaryOp::Cos, KernelDType::Float, KernelLayout::Contiguous),
        "cos_float"
    );
    assert_eq!(
        unary_kernel_name(UnaryOp::GeluErf, KernelDType::Bfloat, KernelLayout::Contiguous),
        "gelu_erf_bfloat"
    );
    assert_eq!(
        unary_kernel_name(UnaryOp::Sqrt, KernelDType::Half, KernelLayout::Contiguous),
        "sqrt_half"
    );
}

#[test]
fn unary_symbols_strided() {
    assert_eq!(
        unary_kernel_name(UnaryOp::Neg, KernelDType::Float, KernelLayout::Strided),
        "neg_float_strided"
    );
    assert_eq!(
        unary_kernel_name(UnaryOp::Copy, KernelDType::Bfloat, KernelLayout::Strided),
        "copy_bfloat_strided"
    );
}

#[test]
fn copy_supports_integer_dtypes() {
    assert_eq!(
        unary_kernel_name(UnaryOp::Copy, KernelDType::U32, KernelLayout::Contiguous),
        "copy_u32"
    );
    assert_eq!(
        unary_kernel_name(UnaryOp::Copy, KernelDType::U8, KernelLayout::Strided),
        "copy_u8_strided"
    );
}

#[test]
fn binary_symbols() {
    assert_eq!(
        binary_kernel_name(BinaryOp::Add, KernelDType::Float, KernelLayout::Contiguous),
        "add_float"
    );
    assert_eq!(
        binary_kernel_name(BinaryOp::Div, KernelDType::Half, KernelLayout::Strided),
        "div_half_strided"
    );
    assert_eq!(
        binary_kernel_name(BinaryOp::Sub, KernelDType::Bfloat, KernelLayout::Contiguous),
        "sub_bfloat"
    );
    assert_eq!(
        binary_kernel_name(BinaryOp::Mul, KernelDType::Float, KernelLayout::Strided),
        "mul_float_strided"
    );
}
