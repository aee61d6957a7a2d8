use std::cell::Cell;

use candle_metal_kernels::cache::Kernels;
use candle_metal_kernels::dispatch::{
    call_affine, call_binary_contiguous, call_cast_contiguous, call_index_select,
    call_last_softmax, call_mfa_gemm, call_reduce_contiguous, call_unary_contiguous,
    call_unary_strided, call_where_cond_strided, DispatchPlan,
};
use candle_metal_kernels::encoder::Param;
use candle_metal_kernels::error::MetalKernelError;
use candle_metal_kernels::pipeline::Pipeline;
use candle_metal_kernels::source::LibraryDefinition;

type Buf = u32;

fn registry() -> Kernels<u64, u64> {
    Kernels::new()
}

fn ok_lib(_d: LibraryDefinition) -> Result<u64, MetalKernelError> {
    Ok(1)
}

fn pso256(
    _lib: u64,
    _key: candle_metal_kernels::key::KernelKey,
) -> Result<Pipeline<u64>, MetalKernelError> {
    Ok(Pipeline::new(0, 256))
}

fn params_of(plan: &DispatchPlan<Buf, u64>) -> Vec<Param<Buf>> {
    let mut v = Vec::new();
    for i in 0..plan.params.len() {
        v.push(plan.params.get(i).clone());
    }
    v
}

#[test]
fn unary_contiguous_plan() {
    let kernels = registry();
    let plan =
        call_unary_contiguous(&kernels, ok_lib, pso256, "cos_float", 1000, 10u32, 20u32).unwrap();
    assert_eq!(
        params_of(&plan),
        vec![Param::Size(1000), Param::Buffer(10, 0), Param::Buffer(20, 0)]
    );
    assert_eq!(plan.group_size.width, 256);
    assert_eq!(plan.group_count.width, 4);
}

#[test]
fn unary_strided_row_major_matches_contiguous_grid() {
    // A row-major view with zero offsets covers the same flat domain, so
    // the grid is identical to the contiguous dispatch over length 32.
    let kernels = registry();
    let strided = call_unary_strided(
        &kernels, ok_lib, pso256, "cos_float_strided", &[4, 8], 1u32, &[8, 1], 0, 2u32, 0,
    )
    .unwrap();
    let contiguous =
        call_unary_contiguous(&kernels, ok_lib, pso256, "cos_float", 32, 1u32, 2u32).unwrap();
    assert_eq!(strided.group_count, contiguous.group_count);
    assert_eq!(strided.group_size, contiguous.group_size);
    assert_eq!(
        params_of(&strided),
        vec![
            Param::Size(32),
            Param::Size(2),
            Param::Sizes(vec![4, 8]),
            Param::Sizes(vec![8, 1]),
            Param::Buffer(1, 0),
            Param::Buffer(2, 0),
        ]
    );
}

#[test]
fn binary_contiguous_plan() {
    let kernels = registry();
    let plan =
        call_binary_contiguous(&kernels, ok_lib, pso256, "add_float", 100, 1u32, 2u32, 3u32)
            .unwrap();
    assert_eq!(
        params_of(&plan),
        vec![
            Param::Size(100),
            Param::Buffer(1, 0),
            Param::Buffer(2, 0),
            Param::Buffer(3, 0),
        ]
    );
    assert_eq!(plan.group_size.width, 100);
    assert_eq!(plan.group_count.width, 1);
}

#[test]
fn cast_contiguous_plan_keeps_input_offset() {
    let kernels = registry();
    let plan =
        call_cast_contiguous(&kernels, ok_lib, pso256, "cast_u32_f32", 64, 1u32, 16, 2u32)
            .unwrap();
    assert_eq!(
        params_of(&plan),
        vec![Param::Size(64), Param::Buffer(1, 16), Param::Buffer(2, 0)]
    );
}

#[test]
fn affine_plan_carries_float_bits() {
    let kernels = registry();
    let mul = 1.5f32;
    let add = -0.25f32;
    let plan = call_affine(
        &kernels,
        ok_lib,
        pso256,
        "affine_float",
        100,
        1u32,
        2u32,
        mul.to_bits(),
        add.to_bits(),
    )
    .unwrap();
    assert_eq!(
        params_of(&plan),
        vec![
            Param::Size(100),
            Param::Float(mul.to_bits()),
            Param::Float(add.to_bits()),
            Param::Buffer(1, 0),
            Param::Buffer(2, 0),
        ]
    );
}

#[test]
fn reduce_plan_uses_tree_policy() {
    let kernels = registry();
    let plan = call_reduce_contiguous(
        &kernels, ok_lib, pso256, "fast_sum_float", 1024, 4, 1u32, 0, 2u32,
    )
    .unwrap();
    assert_eq!(
        params_of(&plan),
        vec![
            Param::Size(1024),
            Param::Size(256),
            Param::Buffer(1, 0),
            Param::Buffer(2, 0),
        ]
    );
    assert_eq!(plan.group_count.width, 4);
    assert_eq!(plan.group_size.width, 128);
}

#[test]
fn softmax_plan_uses_grouped_policy() {
    let kernels = registry();
    let plan =
        call_last_softmax(&kernels, ok_lib, pso256, "softmax_float", 4096, 1024, 1u32, 2u32)
            .unwrap();
    assert_eq!(
        params_of(&plan),
        vec![
            Param::Size(4096),
            Param::Size(1024),
            Param::Buffer(1, 0),
            Param::Buffer(2, 0),
        ]
    );
    assert_eq!(plan.group_count.width, 4);
    assert_eq!(plan.group_size.width, 256);
}

#[test]
fn where_cond_plan_slot_order() {
    let kernels = registry();
    let plan = call_where_cond_strided(
        &kernels,
        ok_lib,
        pso256,
        "where_u8_f32",
        &[2, 3],
        7u32,
        &[3, 1],
        1,
        8u32,
        &[3, 1],
        2,
        9u32,
        &[3, 1],
        3,
        10u32,
    )
    .unwrap();
    assert_eq!(
        params_of(&plan),
        vec![
            Param::Size(6),
            Param::Size(2),
            Param::Sizes(vec![2, 3]),
            Param::Sizes(vec![3, 1]),
            Param::Sizes(vec![3, 1]),
            Param::Sizes(vec![3, 1]),
            Param::Buffer(7, 1),
            Param::Buffer(8, 2),
            Param::Buffer(9, 3),
            Param::Buffer(10, 0),
        ]
    );
}

#[test]
fn index_select_plan() {
    let kernels = registry();
    let plan = call_index_select(
        &kernels, ok_lib, pso256, "is_u32_f32", &[2, 3, 4], 5, 1, 1u32, 2u32, 3u32,
    )
    .unwrap();
    assert_eq!(
        params_of(&plan),
        vec![
            Param::Size(40),
            Param::Size(2),
            Param::Size(3),
            Param::Size(4),
            Param::Size(5),
            Param::Buffer(1, 0),
            Param::Buffer(2, 0),
            Param::Buffer(3, 0),
        ]
    );
    assert_eq!(plan.group_size.width, 40);
    assert_eq!(plan.group_count.width, 1);
}

#[test]
fn mfa_gemm_resolves_to_binary_library() {
    let kernels = registry();
    let plan = call_mfa_gemm(
        &kernels,
        |d| {
            assert_eq!(d, LibraryDefinition::Data);
            Ok(1u64)
        },
        pso256,
        "sgemm",
        &[16, 16],
        1u32,
        &[16, 1],
        0,
        2u32,
        0,
    )
    .unwrap();
    assert_eq!(plan.group_size.width, 256);
    assert_eq!(plan.group_count.width, 1);
}

#[test]
fn failed_compile_yields_no_plan() {
    let kernels = registry();
    let r = call_unary_contiguous(
        &kernels,
        |_d| Err(MetalKernelError::LoadLibraryError("nope".to_string())),
        pso256,
        "cos_float",
        1000,
        1u32,
        2u32,
    );
    assert!(matches!(r, Err(MetalKernelError::LoadLibraryError(_))));
}

#[test]
fn dispatches_share_cached_pipeline() {
    let kernels = registry();
    let compiles = Cell::new(0u32);
    for _ in 0..2 {
        let plan = call_unary_contiguous(
            &kernels,
            ok_lib,
            |_lib, _key| {
                compiles.set(compiles.get() + 1);
                Ok(Pipeline::new(3, 64))
            },
            "exp_float",
            100,
            1u32,
            2u32,
        )
        .unwrap();
        assert_eq!(*plan.pipeline.handle(), 3);
    }
    assert_eq!(compiles.get(), 1);
}
