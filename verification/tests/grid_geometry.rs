use candle_metal_kernels::grid::{
    grouped_reduction_split, linear_split, next_power_of_two, tree_reduction_split,
};
use candle_metal_kernels::shape::{index_select_dims, product, range_product};

#[test]
fn linear_split_covers_thousand() {
    // 1000 elements under a limit of 256: four groups of 256 cover 1024 >= 1000.
    let (count, size) = linear_split(256, 1000);
    assert_eq!(size.width, 256);
    assert_eq!(count.width, 4);
    assert_eq!(count.height, 1);
    assert_eq!(count.depth, 1);
    assert_eq!(size.height, 1);
    assert_eq!(size.depth, 1);
}

#[test]
fn linear_split_fits_one_group() {
    let (count, size) = linear_split(256, 10);
    assert_eq!(size.width, 10);
    assert_eq!(count.width, 1);
}

#[test]
fn linear_split_exact_multiple() {
    let (count, size) = linear_split(256, 512);
    assert_eq!(size.width, 256);
    assert_eq!(count.width, 2);
}

#[test]
fn next_power_of_two_rounds_up_never_down() {
    assert_eq!(next_power_of_two(1), 1);
    assert_eq!(next_power_of_two(2), 2);
    assert_eq!(next_power_of_two(3), 4);
    assert_eq!(next_power_of_two(5), 8);
    assert_eq!(next_power_of_two(128), 128);
    assert_eq!(next_power_of_two(129), 256);
    assert_eq!(next_power_of_two(1000), 1024);
}

#[test]
fn tree_reduction_grid() {
    // 1024 elements into 4 outputs: 256 per output, half of that is 128
    // threads, already a power of two.
    let (count, size) = tree_reduction_split(256, 1024, 4);
    assert_eq!(count.width, 4);
    assert_eq!(size.width, 128);
}

#[test]
fn tree_reduction_grid_rounds_group_size_up() {
    // 600 elements into 4 outputs: 150 per output, 75 threads, rounded up
    // to 128.
    let (count, size) = tree_reduction_split(256, 600, 4);
    assert_eq!(count.width, 4);
    assert_eq!(size.width, 128);
}

#[test]
fn grouped_reduction_grid() {
    // 4096 elements summed 1024 at a time: 4 groups; the span exceeds the
    // limit of 256, which is already a power of two.
    let (count, size) = grouped_reduction_split(256, 4096, 1024);
    assert_eq!(count.width, 4);
    assert_eq!(size.width, 256);
}

#[test]
fn grouped_reduction_grid_small_span() {
    // A span of 6 below the limit rounds up to 8.
    let (count, size) = grouped_reduction_split(256, 24, 6);
    assert_eq!(count.width, 4);
    assert_eq!(size.width, 8);
}

#[test]
fn index_select_sizing() {
    let dims = index_select_dims(&[2, 3, 4], 1, 5);
    assert_eq!(dims.left_size, 2);
    assert_eq!(dims.right_size, 4);
    assert_eq!(dims.src_dim_size, 3);
    assert_eq!(dims.dst_el, 40);
}

#[test]
fn index_select_sizing_first_axis() {
    let dims = index_select_dims(&[7, 5], 0, 3);
    assert_eq!(dims.left_size, 1);
    assert_eq!(dims.right_size, 5);
    assert_eq!(dims.src_dim_size, 7);
    assert_eq!(dims.dst_el, 15);
}

#[test]
fn extent_products() {
    assert_eq!(product(&[2, 3, 4]), 24);
    assert_eq!(product(&[]), 1);
    assert_eq!(range_product(&[2, 3, 4], 1, 3), 12);
    assert_eq!(range_product(&[2, 3, 4], 2, 2), 1);
}
