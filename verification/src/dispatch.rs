//! The operation dispatch layer: one entry point per operation family.
//!
//! Each entry resolves its `(module, key)` pair, fetches or compiles the
//! pipeline through the registry's caches, binds the family's argument list
//! in its canonical slot order, computes the dispatch grid under the
//! pipeline's hardware limit, and returns the whole as one plan. The caller
//! records the plan into its command stream; a call that fails returns
//! before producing a plan, so the stream is left exactly as it was.
//!
//! No entry retries: every failure is one of the compile callbacks' own and
//! aborts that single call.

use vstd::prelude::*;

use crate::cache::{
    callback_error, fn_callback_callable, fn_callback_infallible, lib_callback_callable,
    lib_callback_infallible, Kernels,
};
use crate::encoder::{ParamList, ParamModel};
use crate::error::MetalKernelError;
use crate::grid::{
    grouped_reduction_split, is_power_of_two, linear_group_count, linear_group_width, linear_split,
    tree_reduction_split, GridDim,
};
use crate::key::KernelKey;
use crate::pipeline::Pipeline;
use crate::shape::{index_select_dims, prefix_products_bounded, prod, product};
use crate::source::{LibraryDefinition, Source};

verus! {

/// A fully determined dispatch: the compiled pipeline, the positional
/// argument bindings, and the grid. To record it, the caller opens one
/// compute-encoding scope, sets the pipeline, binds `params` slot by slot,
/// dispatches `group_count` thread groups of `group_size` threads, and
/// closes the scope.
pub struct DispatchPlan<B, H> {
    pub pipeline: Pipeline<H>,
    pub params: ParamList<B>,
    pub group_count: GridDim,
    pub group_size: GridDim,
}

/// The plan's grid follows the linear policy for `length` elements: the
/// group width is `min(limit, length)`, the group count the matching
/// ceiling division, and together they cover the domain exactly.
pub open spec fn linear_grid_ok<B, H>(plan: DispatchPlan<B, H>, length: u64) -> bool {
    let m = plan.pipeline.spec_max_total_threads();
    &&& plan.group_size.width == linear_group_width(m, length)
    &&& plan.group_count.width == linear_group_count(m, length)
    &&& plan.group_count.width * plan.group_size.width >= length
    &&& (plan.group_count.width - 1) * plan.group_size.width < length
    &&& plan.group_count.height == 1 && plan.group_count.depth == 1
    &&& plan.group_size.height == 1 && plan.group_size.depth == 1
}

/// Strided/contiguous equivalence of the grid: a strided dispatch over a
/// shape whose extents multiply to `length` and a contiguous dispatch over
/// `length` elements partition the device identically whenever they run on
/// pipelines with the same hardware limit. Together with the row-major
/// addressing identity (`shape::lemma_row_major_identity`), a row-major,
/// zero-offset strided dispatch covers exactly the elements of the
/// contiguous one.
pub proof fn lemma_same_length_same_grid<B, H>(
    p1: DispatchPlan<B, H>,
    p2: DispatchPlan<B, H>,
    length: u64,
)
    requires
        linear_grid_ok(p1, length),
        linear_grid_ok(p2, length),
        p1.pipeline.spec_max_total_threads() == p2.pipeline.spec_max_total_threads(),
    ensures
        p1.group_count == p2.group_count,
        p1.group_size == p2.group_size,
{
}

/// An elementwise kernel over a contiguous domain of `length` elements:
/// arguments are the length, the input buffer, the output buffer.
pub fn call_unary_contiguous<L: Copy, H: Copy, B: Copy, FL, FP>(
    kernels: &Kernels<L, H>,
    compile_library: FL,
    compile_function: FP,
    kernel_name: &str,
    length: usize,
    input: B,
    output: B,
) -> (r: Result<DispatchPlan<B, H>, MetalKernelError>) where
    FL: FnOnce(LibraryDefinition) -> Result<L, MetalKernelError>,
    FP: FnOnce(L, KernelKey) -> Result<Pipeline<H>, MetalKernelError>,

    requires
        lib_callback_callable(compile_library),
        fn_callback_callable(compile_function),
        1 <= length <= 0x8000_0000_0000_0000u64,
    ensures
        r matches Ok(plan) ==> ({
            &&& plan.params@ =~= seq![
                ParamModel::<B>::Size(length),
                ParamModel::<B>::Buffer(input, 0),
                ParamModel::<B>::Buffer(output, 0),
            ]
            &&& linear_grid_ok(plan, length as u64)
        }),
        r matches Err(e) ==> callback_error(compile_library, compile_function, Source::Unary, e),
        lib_callback_infallible(compile_library) && fn_callback_infallible(compile_function)
            ==> r is Ok,
{
    let key = KernelKey { name: kernel_name.to_owned(), constants: Option::None };
    let pipeline = match kernels.load_pipeline(
        Source::Unary,
        key,
        compile_library,
        compile_function,
    ) {
        Result::Ok(p) => p,
        Result::Err(e) => {
            return Result::Err(e);
        },
    };
    let mut params = ParamList::new();
    params.push_size(length);
    params.push_buffer(input, 0);
    params.push_buffer(output, 0);
    let m = pipeline.max_total_threads_per_threadgroup();
    let (group_count, group_size) = linear_split(m, length);
    Result::Ok(DispatchPlan { pipeline, params, group_count, group_size })
}

/// An elementwise kernel combining two contiguous operands of `length`
/// elements each: arguments are the length, both inputs, the output.
pub fn call_binary_contiguous<L: Copy, H: Copy, B: Copy, FL, FP>(
    kernels: &Kernels<L, H>,
    compile_library: FL,
    compile_function: FP,
    kernel_name: &str,
    length: usize,
    left: B,
    right: B,
    output: B,
) -> (r: Result<DispatchPlan<B, H>, MetalKernelError>) where
    FL: FnOnce(LibraryDefinition) -> Result<L, MetalKernelError>,
    FP: FnOnce(L, KernelKey) -> Result<Pipeline<H>, MetalKernelError>,

    requires
        lib_callback_callable(compile_library),
        fn_callback_callable(compile_function),
        1 <= length <= 0x8000_0000_0000_0000u64,
    ensures
        r matches Ok(plan) ==> ({
            &&& plan.params@ =~= seq![
                ParamModel::<B>::Size(length),
                ParamModel::<B>::Buffer(left, 0),
                ParamModel::<B>::Buffer(right, 0),
                ParamModel::<B>::Buffer(output, 0),
            ]
            &&& linear_grid_ok(plan, length as u64)
        }),
        r matches Err(e) ==> callback_error(compile_library, compile_function, Source::Binary, e),
        lib_callback_infallible(compile_library) && fn_callback_infallible(compile_function)
            ==> r is Ok,
{
    let key = KernelKey { name: kernel_name.to_owned(), constants: Option::None };
    let pipeline = match kernels.load_pipeline(
        Source::Binary,
        key,
        compile_library,
        compile_function,
    ) {
        Result::Ok(p) => p,
        Result::Err(e) => {
            return Result::Err(e);
        },
    };
    let mut params = ParamList::new();
    params.push_size(length);
    params.push_buffer(left, 0);
    params.push_buffer(right, 0);
    params.push_buffer(output, 0);
    let m = pipeline.max_total_threads_per_threadgroup();
    let (group_count, group_size) = linear_split(m, length);
    Result::Ok(DispatchPlan { pipeline, params, group_count, group_size })
}

/// A datatype-cast kernel over a contiguous domain: arguments are the
/// length, the input buffer at its element offset, the output.
pub fn call_cast_contiguous<L: Copy, H: Copy, B: Copy, FL, FP>(
    kernels: &Kernels<L, H>,
    compile_library: FL,
    compile_function: FP,
    kernel_name: &str,
    length: usize,
    input: B,
    input_offset: usize,
    output: B,
) -> (r: Result<DispatchPlan<B, H>, MetalKernelError>) where
    FL: FnOnce(LibraryDefinition) -> Result<L, MetalKernelError>,
    FP: FnOnce(L, KernelKey) -> Result<Pipeline<H>, MetalKernelError>,

    requires
        lib_callback_callable(compile_library),
        fn_callback_callable(compile_function),
        1 <= length <= 0x8000_0000_0000_0000u64,
    ensures
        r matches Ok(plan) ==> ({
            &&& plan.params@ =~= seq![
                ParamModel::<B>::Size(length),
                ParamModel::<B>::Buffer(input, input_offset),
                ParamModel::<B>::Buffer(output, 0),
            ]
            &&& linear_grid_ok(plan, length as u64)
        }),
        r matches Err(e) ==> callback_error(compile_library, compile_function, Source::Cast, e),
        lib_callback_infallible(compile_library) && fn_callback_infallible(compile_function)
            ==> r is Ok,
{
    let key = KernelKey { name: kernel_name.to_owned(), constants: Option::None };
    let pipeline = match kernels.load_pipeline(
        Source::Cast,
        key,
        compile_library,
        compile_function,
    ) {
        Result::Ok(p) => p,
        Result::Err(e) => {
            return Result::Err(e);
        },
    };
    let mut params = ParamList::new();
    params.push_size(length);
    params.push_buffer(input, input_offset);
    params.push_buffer(output, 0);
    let m = pipeline.max_total_threads_per_threadgroup();
    let (group_count, group_size) = linear_split(m, length);
    Result::Ok(DispatchPlan { pipeline, params, group_count, group_size })
}

/// An affine map `x * mul + add` over a contiguous domain. The two float
/// coefficients travel as bit patterns; arguments are the size, both
/// coefficients, the input, the output.
pub fn call_affine<L: Copy, H: Copy, B: Copy, FL, FP>(
    kernels: &Kernels<L, H>,
    compile_library: FL,
    compile_function: FP,
    kernel_name: &str,
    size: usize,
    input: B,
    output: B,
    mul_bits: u32,
    add_bits: u32,
) -> (r: Result<DispatchPlan<B, H>, MetalKernelError>) where
    FL: FnOnce(LibraryDefinition) -> Result<L, MetalKernelError>,
    FP: FnOnce(L, KernelKey) -> Result<Pipeline<H>, MetalKernelError>,

    requires
        lib_callback_callable(compile_library),
        fn_callback_callable(compile_function),
        1 <= size <= 0x8000_0000_0000_0000u64,
    ensures
        r matches Ok(plan) ==> ({
            &&& plan.params@ =~= seq![
                ParamModel::<B>::Size(size),
                ParamModel::<B>::Float(mul_bits),
                ParamModel::<B>::Float(add_bits),
                ParamModel::<B>::Buffer(input, 0),
                ParamModel::<B>::Buffer(output, 0),
            ]
            &&& linear_grid_ok(plan, size as u64)
        }),
        r matches Err(e) ==> callback_error(compile_library, compile_function, Source::Affine, e),
        lib_callback_infallible(compile_library) && fn_callback_infallible(compile_function)
            ==> r is Ok,
{
    let key = KernelKey { name: kernel_name.to_owned(), constants: Option::None };
    let pipeline = match kernels.load_pipeline(
        Source::Affine,
        key,
        compile_library,
        compile_function,
    ) {
        Result::Ok(p) => p,
        Result::Err(e) => {
            return Result::Err(e);
        },
    };
    let mut params = ParamList::new();
    params.push_size(size);
    params.push_float_bits(mul_bits);
    params.push_float_bits(add_bits);
    params.push_buffer(input, 0);
    params.push_buffer(output, 0);
    let m = pipeline.max_total_threads_per_threadgroup();
    let (group_count, group_size) = linear_split(m, size);
    Result::Ok(DispatchPlan { pipeline, params, group_count, group_size })
}

/// A contiguous reduction: `length` elements fold down to `out_length`
/// outputs, each group summing `length / out_length` consecutive elements
/// (tree policy). Arguments are the length, the per-output element count,
/// the input at its offset, the output.
pub fn call_reduce_contiguous<L: Copy, H: Copy, B: Copy, FL, FP>(
    kernels: &Kernels<L, H>,
    compile_library: FL,
    compile_function: FP,
    kernel_name: &str,
    length: usize,
    out_length: usize,
    input: B,
    input_offset: usize,
    output: B,
) -> (r: Result<DispatchPlan<B, H>, MetalKernelError>) where
    FL: FnOnce(LibraryDefinition) -> Result<L, MetalKernelError>,
    FP: FnOnce(L, KernelKey) -> Result<Pipeline<H>, MetalKernelError>,

    requires
        lib_callback_callable(compile_library),
        fn_callback_callable(compile_function),
        1 <= out_length <= length,
        length as int % out_length as int == 0,
        length <= 0x8000_0000_0000_0000u64,
    ensures
        r matches Ok(plan) ==> ({
            let elements_to_sum = length as int / out_length as int;
            let target = vstd::math::min(
                plan.pipeline.spec_max_total_threads() as int,
                (elements_to_sum + 1) / 2,
            );
            &&& plan.params@ =~= seq![
                ParamModel::<B>::Size(length),
                ParamModel::<B>::Size(elements_to_sum as usize),
                ParamModel::<B>::Buffer(input, input_offset),
                ParamModel::<B>::Buffer(output, 0),
            ]
            &&& plan.group_count.width == out_length
            &&& is_power_of_two(plan.group_size.width as int)
            &&& target <= plan.group_size.width < 2 * target
            &&& plan.group_count.height == 1 && plan.group_count.depth == 1
            &&& plan.group_size.height == 1 && plan.group_size.depth == 1
        }),
        r matches Err(e) ==> callback_error(compile_library, compile_function, Source::Reduce, e),
        lib_callback_infallible(compile_library) && fn_callback_infallible(compile_function)
            ==> r is Ok,
{
    let key = KernelKey { name: kernel_name.to_owned(), constants: Option::None };
    let pipeline = match kernels.load_pipeline(
        Source::Reduce,
        key,
        compile_library,
        compile_function,
    ) {
        Result::Ok(p) => p,
        Result::Err(e) => {
            return Result::Err(e);
        },
    };
    let elements_to_sum = length / out_length;
    let mut params = ParamList::new();
    params.push_size(length);
    params.push_size(elements_to_sum);
    params.push_buffer(input, input_offset);
    params.push_buffer(output, 0);
    let m = pipeline.max_total_threads_per_threadgroup();
    let (group_count, group_size) = tree_reduction_split(m, length, out_length);
    Result::Ok(DispatchPlan { pipeline, params, group_count, group_size })
}

/// A grouped last-axis reduction (softmax-style): every `elements_to_sum`
/// consecutive elements form one group, producing `length / elements_to_sum`
/// outputs (grouped policy). Arguments are the length, the group span, the
/// input, the output.
pub fn call_last_softmax<L: Copy, H: Copy, B: Copy, FL, FP>(
    kernels: &Kernels<L, H>,
    compile_library: FL,
    compile_function: FP,
    kernel_name: &str,
    length: usize,
    elements_to_sum: usize,
    input: B,
    output: B,
) -> (r: Result<DispatchPlan<B, H>, MetalKernelError>) where
    FL: FnOnce(LibraryDefinition) -> Result<L, MetalKernelError>,
    FP: FnOnce(L, KernelKey) -> Result<Pipeline<H>, MetalKernelError>,

    requires
        lib_callback_callable(compile_library),
        fn_callback_callable(compile_function),
        1 <= elements_to_sum <= length,
        length as int % elements_to_sum as int == 0,
        length <= 0x8000_0000_0000_0000u64,
    ensures
        r matches Ok(plan) ==> ({
            let target = vstd::math::min(
                plan.pipeline.spec_max_total_threads() as int,
                elements_to_sum as int,
            );
            &&& plan.params@ =~= seq![
                ParamModel::<B>::Size(length),
                ParamModel::<B>::Size(elements_to_sum),
                ParamModel::<B>::Buffer(input, 0),
                ParamModel::<B>::Buffer(output, 0),
            ]
            &&& plan.group_count.width == length as int / elements_to_sum as int
            &&& is_power_of_two(plan.group_size.width as int)
            &&& target <= plan.group_size.width < 2 * target
            &&& plan.group_count.height == 1 && plan.group_count.depth == 1
            &&& plan.group_size.height == 1 && plan.group_size.depth == 1
        }),
        r matches Err(e) ==> callback_error(compile_library, compile_function, Source::Reduce, e),
        lib_callback_infallible(compile_library) && fn_callback_infallible(compile_function)
            ==> r is Ok,
{
    let key = KernelKey { name: kernel_name.to_owned(), constants: Option::None };
    let pipeline = match kernels.load_pipeline(
        Source::Reduce,
        key,
        compile_library,
        compile_function,
    ) {
        Result::Ok(p) => p,
        Result::Err(e) => {
            return Result::Err(e);
        },
    };
    let mut params = ParamList::new();
    params.push_size(length);
    params.push_size(elements_to_sum);
    params.push_buffer(input, 0);
    params.push_buffer(output, 0);
    let m = pipeline.max_total_threads_per_threadgroup();
    let (group_count, group_size) = grouped_reduction_split(m, length, elements_to_sum);
    Result::Ok(DispatchPlan { pipeline, params, group_count, group_size })
}

/// An elementwise kernel over a strided view: the operand is addressed
/// through `shape`, a stride vector of the same rank, and a base element
/// offset, so transposed/broadcast/sliced views work without a dense copy.
/// Arguments are the flat length, the rank, the shape, the strides, the
/// input at its offset, the output at its offset.
pub fn call_unary_strided<L: Copy, H: Copy, B: Copy, FL, FP>(
    kernels: &Kernels<L, H>,
    compile_library: FL,
    compile_function: FP,
    kernel_name: &str,
    shape: &[usize],
    input: B,
    strides: &[usize],
    offset: usize,
    output: B,
    output_offset: usize,
) -> (r: Result<DispatchPlan<B, H>, MetalKernelError>) where
    FL: FnOnce(LibraryDefinition) -> Result<L, MetalKernelError>,
    FP: FnOnce(L, KernelKey) -> Result<Pipeline<H>, MetalKernelError>,

    requires
        lib_callback_callable(compile_library),
        fn_callback_callable(compile_function),
        strides@.len() == shape@.len(),
        prefix_products_bounded(shape@, 0, shape@.len() as int),
        1 <= prod(shape@) <= 0x8000_0000_0000_0000u64,
    ensures
        r matches Ok(plan) ==> ({
            &&& plan.params@ =~= seq![
                ParamModel::<B>::Size(prod(shape@) as usize),
                ParamModel::<B>::Size(shape@.len() as usize),
                ParamModel::<B>::Sizes(shape@),
                ParamModel::<B>::Sizes(strides@),
                ParamModel::<B>::Buffer(input, offset),
                ParamModel::<B>::Buffer(output, output_offset),
            ]
            &&& linear_grid_ok(plan, prod(shape@) as u64)
        }),
        r matches Err(e) ==> callback_error(compile_library, compile_function, Source::Unary, e),
        lib_callback_infallible(compile_library) && fn_callback_infallible(compile_function)
            ==> r is Ok,
{
    let key = KernelKey { name: kernel_name.to_owned(), constants: Option::None };
    let pipeline = match kernels.load_pipeline(
        Source::Unary,
        key,
        compile_library,
        compile_function,
    ) {
        Result::Ok(p) => p,
        Result::Err(e) => {
            return Result::Err(e);
        },
    };
    let num_dims = shape.len();
    let length = product(shape);
    let mut params = ParamList::new();
    params.push_size(length);
    params.push_size(num_dims);
    params.push_sizes(shape);
    params.push_sizes(strides);
    params.push_buffer(input, offset);
    params.push_buffer(output, output_offset);
    let m = pipeline.max_total_threads_per_threadgroup();
    let (group_count, group_size) = linear_split(m, length);
    Result::Ok(DispatchPlan { pipeline, params, group_count, group_size })
}

/// An elementwise kernel combining two independently strided operands that
/// share one shape (broadcast resolution is the caller's job). Arguments
/// are the flat length, the rank, the shape, both stride vectors, both
/// inputs at their offsets, the contiguous output.
pub fn call_binary_strided<L: Copy, H: Copy, B: Copy, FL, FP>(
    kernels: &Kernels<L, H>,
    compile_library: FL,
    compile_function: FP,
    kernel_name: &str,
    shape: &[usize],
    left_input: B,
    left_strides: &[usize],
    left_offset: usize,
    right_input: B,
    right_strides: &[usize],
    right_offset: usize,
    output: B,
) -> (r: Result<DispatchPlan<B, H>, MetalKernelError>) where
    FL: FnOnce(LibraryDefinition) -> Result<L, MetalKernelError>,
    FP: FnOnce(L, KernelKey) -> Result<Pipeline<H>, MetalKernelError>,

    requires
        lib_callback_callable(compile_library),
        fn_callback_callable(compile_function),
        left_strides@.len() == shape@.len(),
        right_strides@.len() == shape@.len(),
        prefix_products_bounded(shape@, 0, shape@.len() as int),
        1 <= prod(shape@) <= 0x8000_0000_0000_0000u64,
    ensures
        r matches Ok(plan) ==> ({
            &&& plan.params@ =~= seq![
                ParamModel::<B>::Size(prod(shape@) as usize),
                ParamModel::<B>::Size(shape@.len() as usize),
                ParamModel::<B>::Sizes(shape@),
                ParamModel::<B>::Sizes(left_strides@),
                ParamModel::<B>::Sizes(right_strides@),
                ParamModel::<B>::Buffer(left_input, left_offset),
                ParamModel::<B>::Buffer(right_input, right_offset),
                ParamModel::<B>::Buffer(output, 0),
            ]
            &&& linear_grid_ok(plan, prod(shape@) as u64)
        }),
        r matches Err(e) ==> callback_error(compile_library, compile_function, Source::Binary, e),
        lib_callback_infallible(compile_library) && fn_callback_infallible(compile_function)
            ==> r is Ok,
{
    let key = KernelKey { name: kernel_name.to_owned(), constants: Option::None };
    let pipeline = match kernels.load_pipeline(
        Source::Binary,
        key,
        compile_library,
        compile_function,
    ) {
        Result::Ok(p) => p,
        Result::Err(e) => {
            return Result::Err(e);
        },
    };
    let num_dims = shape.len();
    let length = product(shape);
    let mut params = ParamList::new();
    params.push_size(length);
    params.push_size(num_dims);
    params.push_sizes(shape);
    params.push_sizes(left_strides);
    params.push_sizes(right_strides);
    params.push_buffer(left_input, left_offset);
    params.push_buffer(right_input, right_offset);
    params.push_buffer(output, 0);
    let m = pipeline.max_total_threads_per_threadgroup();
    let (group_count, group_size) = linear_split(m, length);
    Result::Ok(DispatchPlan { pipeline, params, group_count, group_size })
}

/// A datatype-cast kernel over a strided view. Arguments are the flat
/// length, the rank, the shape, the input strides, the input at its
/// offset, the contiguous output.
pub fn call_cast_strided<L: Copy, H: Copy, B: Copy, FL, FP>(
    kernels: &Kernels<L, H>,
    compile_library: FL,
    compile_function: FP,
    kernel_name: &str,
    shape: &[usize],
    input: B,
    input_strides: &[usize],
    input_offset: usize,
    output: B,
) -> (r: Result<DispatchPlan<B, H>, MetalKernelError>) where
    FL: FnOnce(LibraryDefinition) -> Result<L, MetalKernelError>,
    FP: FnOnce(L, KernelKey) -> Result<Pipeline<H>, MetalKernelError>,

    requires
        lib_callback_callable(compile_library),
        fn_callback_callable(compile_function),
        input_strides@.len() == shape@.len(),
        prefix_products_bounded(shape@, 0, shape@.len() as int),
        1 <= prod(shape@) <= 0x8000_0000_0000_0000u64,
    ensures
        r matches Ok(plan) ==> ({
            &&& plan.params@ =~= seq![
                ParamModel::<B>::Size(prod(shape@) as usize),
                ParamModel::<B>::Size(shape@.len() as usize),
                ParamModel::<B>::Sizes(shape@),
                ParamModel::<B>::Sizes(input_strides@),
                ParamModel::<B>::Buffer(input, input_offset),
                ParamModel::<B>::Buffer(output, 0),
            ]
            &&& linear_grid_ok(plan, prod(shape@) as u64)
        }),
        r matches Err(e) ==> callback_error(compile_library, compile_function, Source::Cast, e),
        lib_callback_infallible(compile_library) && fn_callback_infallible(compile_function)
            ==> r is Ok,
{
    let key = KernelKey { name: kernel_name.to_owned(), constants: Option::None };
    let pipeline = match kernels.load_pipeline(
        Source::Cast,
        key,
        compile_library,
        compile_function,
    ) {
        Result::Ok(p) => p,
        Result::Err(e) => {
            return Result::Err(e);
        },
    };
    let num_dims = shape.len();
    let length = product(shape);
    let mut params = ParamList::new();
    params.push_size(length);
    params.push_size(num_dims);
    params.push_sizes(shape);
    params.push_sizes(input_strides);
    params.push_buffer(input, input_offset);
    params.push_buffer(output, 0);
    let m = pipeline.max_total_threads_per_threadgroup();
    let (group_count, group_size) = linear_split(m, length);
    Result::Ok(DispatchPlan { pipeline, params, group_count, group_size })
}

/// An affine map over a strided view. Arguments are the flat size, the
/// rank, the shape, the strides, both float coefficients by bit pattern,
/// the input at its offset, the contiguous output.
pub fn call_affine_strided<L: Copy, H: Copy, B: Copy, FL, FP>(
    kernels: &Kernels<L, H>,
    compile_library: FL,
    compile_function: FP,
    kernel_name: &str,
    shape: &[usize],
    input: B,
    input_stride: &[usize],
    input_offset: usize,
    output: B,
    mul_bits: u32,
    add_bits: u32,
) -> (r: Result<DispatchPlan<B, H>, MetalKernelError>) where
    FL: FnOnce(LibraryDefinition) -> Result<L, MetalKernelError>,
    FP: FnOnce(L, KernelKey) -> Result<Pipeline<H>, MetalKernelError>,

    requires
        lib_callback_callable(compile_library),
        fn_callback_callable(compile_function),
        input_stride@.len() == shape@.len(),
        prefix_products_bounded(shape@, 0, shape@.len() as int),
        1 <= prod(shape@) <= 0x8000_0000_0000_0000u64,
    ensures
        r matches Ok(plan) ==> ({
            &&& plan.params@ =~= seq![
                ParamModel::<B>::Size(prod(shape@) as usize),
                ParamModel::<B>::Size(shape@.len() as usize),
                ParamModel::<B>::Sizes(shape@),
                ParamModel::<B>::Sizes(input_stride@),
                ParamModel::<B>::Float(mul_bits),
                ParamModel::<B>::Float(add_bits),
                ParamModel::<B>::Buffer(input, input_offset),
                ParamModel::<B>::Buffer(output, 0),
            ]
            &&& linear_grid_ok(plan, prod(shape@) as u64)
        }),
        r matches Err(e) ==> callback_error(compile_library, compile_function, Source::Affine, e),
        lib_callback_infallible(compile_library) && fn_callback_infallible(compile_function)
            ==> r is Ok,
{
    let key = KernelKey { name: kernel_name.to_owned(), constants: Option::None };
    let pipeline = match kernels.load_pipeline(
        Source::Affine,
        key,
        compile_library,
        compile_function,
    ) {
        Result::Ok(p) => p,
        Result::Err(e) => {
            return Result::Err(e);
        },
    };
    let num_dims = shape.len();
    let size = product(shape);
    let mut params = ParamList::new();
    params.push_size(size);
    params.push_size(num_dims);
    params.push_sizes(shape);
    params.push_sizes(input_stride);
    params.push_float_bits(mul_bits);
    params.push_float_bits(add_bits);
    params.push_buffer(input, input_offset);
    params.push_buffer(output, 0);
    let m = pipeline.max_total_threads_per_threadgroup();
    let (group_count, group_size) = linear_split(m, size);
    Result::Ok(DispatchPlan { pipeline, params, group_count, group_size })
}

/// A ternary select: per element, the condition operand picks the left or
/// right operand. All three operands are independently strided views of
/// one shape; the output is contiguous. Arguments are the flat size, the
/// rank, the shape, the three stride vectors, the three inputs at their
/// offsets, the output.
pub fn call_where_cond_strided<L: Copy, H: Copy, B: Copy, FL, FP>(
    kernels: &Kernels<L, H>,
    compile_library: FL,
    compile_function: FP,
    kernel_name: &str,
    shape: &[usize],
    cond: B,
    cond_stride: &[usize],
    cond_offset: usize,
    left: B,
    left_stride: &[usize],
    left_offset: usize,
    right: B,
    right_stride: &[usize],
    right_offset: usize,
    output: B,
) -> (r: Result<DispatchPlan<B, H>, MetalKernelError>) where
    FL: FnOnce(LibraryDefinition) -> Result<L, MetalKernelError>,
    FP: FnOnce(L, KernelKey) -> Result<Pipeline<H>, MetalKernelError>,

    requires
        lib_callback_callable(compile_library),
        fn_callback_callable(compile_function),
        cond_stride@.len() == shape@.len(),
        left_stride@.len() == shape@.len(),
        right_stride@.len() == shape@.len(),
        prefix_products_bounded(shape@, 0, shape@.len() as int),
        1 <= prod(shape@) <= 0x8000_0000_0000_0000u64,
    ensures
        r matches Ok(plan) ==> ({
            &&& plan.params@ =~= seq![
                ParamModel::<B>::Size(prod(shape@) as usize),
                ParamModel::<B>::Size(shape@.len() as usize),
                ParamModel::<B>::Sizes(shape@),
                ParamModel::<B>::Sizes(cond_stride@),
                ParamModel::<B>::Sizes(left_stride@),
                ParamModel::<B>::Sizes(right_stride@),
                ParamModel::<B>::Buffer(cond, cond_offset),
                ParamModel::<B>::Buffer(left, left_offset),
                ParamModel::<B>::Buffer(right, right_offset),
                ParamModel::<B>::Buffer(output, 0),
            ]
            &&& linear_grid_ok(plan, prod(shape@) as u64)
        }),
        r matches Err(e) ==> callback_error(compile_library, compile_function, Source::Ternary, e),
        lib_callback_infallible(compile_library) && fn_callback_infallible(compile_function)
            ==> r is Ok,
{
    let key = KernelKey { name: kernel_name.to_owned(), constants: Option::None };
    let pipeline = match kernels.load_pipeline(
        Source::Ternary,
        key,
        compile_library,
        compile_function,
    ) {
        Result::Ok(p) => p,
        Result::Err(e) => {
            return Result::Err(e);
        },
    };
    let rank = shape.len();
    let size = product(shape);
    let mut params = ParamList::new();
    params.push_size(size);
    params.push_size(rank);
    params.push_sizes(shape);
    params.push_sizes(cond_stride);
    params.push_sizes(left_stride);
    params.push_sizes(right_stride);
    params.push_buffer(cond, cond_offset);
    params.push_buffer(left, left_offset);
    params.push_buffer(right, right_offset);
    params.push_buffer(output, 0);
    let m = pipeline.max_total_threads_per_threadgroup();
    let (group_count, group_size) = linear_split(m, size);
    Result::Ok(DispatchPlan { pipeline, params, group_count, group_size })
}

/// A gather along axis `dim`: for each of `ids_size` indices read from the
/// device-resident `ids` buffer, one `left_size x right_size` slab is
/// copied, giving `ids_size * left_size * right_size` output elements.
/// Indices are not bounds-checked here: an out-of-range index is undefined
/// behavior at the kernel level and must be validated by the caller.
/// Arguments are the output element count, the three slab extents, the
/// index count, the input, the index buffer, the output.
pub fn call_index_select<L: Copy, H: Copy, B: Copy, FL, FP>(
    kernels: &Kernels<L, H>,
    compile_library: FL,
    compile_function: FP,
    kernel_name: &str,
    shape: &[usize],
    ids_size: usize,
    dim: usize,
    input: B,
    ids: B,
    output: B,
) -> (r: Result<DispatchPlan<B, H>, MetalKernelError>) where
    FL: FnOnce(LibraryDefinition) -> Result<L, MetalKernelError>,
    FP: FnOnce(L, KernelKey) -> Result<Pipeline<H>, MetalKernelError>,

    requires
        lib_callback_callable(compile_library),
        fn_callback_callable(compile_function),
        dim < shape@.len(),
        prefix_products_bounded(shape@, 0, dim as int),
        prefix_products_bounded(shape@, dim + 1, shape@.len() as int),
        prod(shape@.subrange(0, dim as int)) * prod(
            shape@.subrange(dim + 1, shape@.len() as int),
        ) <= usize::MAX,
        1 <= ids_size * (prod(shape@.subrange(0, dim as int)) * prod(
            shape@.subrange(dim + 1, shape@.len() as int),
        )) <= usize::MAX,
        ids_size * (prod(shape@.subrange(0, dim as int)) * prod(
            shape@.subrange(dim + 1, shape@.len() as int),
        )) <= 0x8000_0000_0000_0000u64,
    ensures
        r matches Ok(plan) ==> ({
            let left_size = prod(shape@.subrange(0, dim as int));
            let right_size = prod(shape@.subrange(dim + 1, shape@.len() as int));
            let dst_el = ids_size * (left_size * right_size);
            &&& plan.params@ =~= seq![
                ParamModel::<B>::Size(dst_el as usize),
                ParamModel::<B>::Size(left_size as usize),
                ParamModel::<B>::Size(shape@[dim as int]),
                ParamModel::<B>::Size(right_size as usize),
                ParamModel::<B>::Size(ids_size),
                ParamModel::<B>::Buffer(input, 0),
                ParamModel::<B>::Buffer(ids, 0),
                ParamModel::<B>::Buffer(output, 0),
            ]
            &&& linear_grid_ok(plan, dst_el as u64)
        }),
        r matches Err(e) ==> callback_error(compile_library, compile_function, Source::Indexing, e),
        lib_callback_infallible(compile_library) && fn_callback_infallible(compile_function)
            ==> r is Ok,
{
    let dims = index_select_dims(shape, dim, ids_size);
    proof {
        crate::shape::lemma_prod_nonneg(shape@.subrange(0, dim as int));
        crate::shape::lemma_prod_nonneg(shape@.subrange(dim + 1, shape@.len() as int));
        assert(ids_size * dims.left_size * dims.right_size == ids_size * (dims.left_size
            * dims.right_size)) by (nonlinear_arith);
    }
    let key = KernelKey { name: kernel_name.to_owned(), constants: Option::None };
    let pipeline = match kernels.load_pipeline(
        Source::Indexing,
        key,
        compile_library,
        compile_function,
    ) {
        Result::Ok(p) => p,
        Result::Err(e) => {
            return Result::Err(e);
        },
    };
    let mut params = ParamList::new();
    params.push_size(dims.dst_el);
    params.push_size(dims.left_size);
    params.push_size(dims.src_dim_size);
    params.push_size(dims.right_size);
    params.push_size(ids_size);
    params.push_buffer(input, 0);
    params.push_buffer(ids, 0);
    params.push_buffer(output, 0);
    let m = pipeline.max_total_threads_per_threadgroup();
    let (group_count, group_size) = linear_split(m, dims.dst_el);
    Result::Ok(DispatchPlan { pipeline, params, group_count, group_size })
}

/// A specialized matrix-multiply / attention dispatch. Its dispatch shape
/// is that of the strided elementwise path, but the module always resolves
/// to the precompiled-binary library, never textual compilation, and its
/// specialization constants (chosen by the caller in the key it compiles
/// under) select tile sizes and datatypes at pipeline-build time.
pub fn call_mfa_gemm<L: Copy, H: Copy, B: Copy, FL, FP>(
    kernels: &Kernels<L, H>,
    compile_library: FL,
    compile_function: FP,
    kernel_name: &str,
    shape: &[usize],
    input: B,
    strides: &[usize],
    offset: usize,
    output: B,
    output_offset: usize,
) -> (r: Result<DispatchPlan<B, H>, MetalKernelError>) where
    FL: FnOnce(LibraryDefinition) -> Result<L, MetalKernelError>,
    FP: FnOnce(L, KernelKey) -> Result<Pipeline<H>, MetalKernelError>,

    requires
        lib_callback_callable(compile_library),
        fn_callback_callable(compile_function),
        strides@.len() == shape@.len(),
        prefix_products_bounded(shape@, 0, shape@.len() as int),
        1 <= prod(shape@) <= 0x8000_0000_0000_0000u64,
    ensures
        r matches Ok(plan) ==> ({
            &&& plan.params@ =~= seq![
                ParamModel::<B>::Size(prod(shape@) as usize),
                ParamModel::<B>::Size(shape@.len() as usize),
                ParamModel::<B>::Sizes(shape@),
                ParamModel::<B>::Sizes(strides@),
                ParamModel::<B>::Buffer(input, offset),
                ParamModel::<B>::Buffer(output, output_offset),
            ]
            &&& linear_grid_ok(plan, prod(shape@) as u64)
        }),
        r matches Err(e) ==> callback_error(
            compile_library,
            compile_function,
            Source::MetalFlashAttention,
            e,
        ),
        lib_callback_infallible(compile_library) && fn_callback_infallible(compile_function)
            ==> r is Ok,
{
    let key = KernelKey { name: kernel_name.to_owned(), constants: Option::None };
    let pipeline = match kernels.load_pipeline(
        Source::MetalFlashAttention,
        key,
        compile_library,
        compile_function,
    ) {
        Result::Ok(p) => p,
        Result::Err(e) => {
            return Result::Err(e);
        },
    };
    let num_dims = shape.len();
    let length = product(shape);
    let mut params = ParamList::new();
    params.push_size(length);
    params.push_size(num_dims);
    params.push_sizes(shape);
    params.push_sizes(strides);
    params.push_buffer(input, offset);
    params.push_buffer(output, output_offset);
    let m = pipeline.max_total_threads_per_threadgroup();
    let (group_count, group_size) = linear_split(m, length);
    Result::Ok(DispatchPlan { pipeline, params, group_count, group_size })
}

} // verus!
