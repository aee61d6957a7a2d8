use std::cell::Cell;

use candle_metal_kernels::cache::Kernels;
use candle_metal_kernels::error::MetalKernelError;
use candle_metal_kernels::key::{key_eq, ConstantValue, ConstantValueId, ConstantValues, KernelKey};
use candle_metal_kernels::pipeline::Pipeline;
use candle_metal_kernels::source::{LibraryDefinition, Source};

fn plain_key(name: &str) -> KernelKey {
    KernelKey { name: name.to_string(), constants: None }
}

#[test]
fn identical_keys_are_equal() {
    let k1 = KernelKey {
        name: "softmax_float".to_string(),
        constants: Some(ConstantValues(vec![
            (ConstantValueId::Index(0), ConstantValue::Uint(32)),
            (ConstantValueId::Name("wide".to_string()), ConstantValue::Bool(true)),
        ])),
    };
    let k2 = KernelKey {
        name: "softmax_float".to_string(),
        constants: Some(ConstantValues(vec![
            (ConstantValueId::Index(0), ConstantValue::Uint(32)),
            (ConstantValueId::Name("wide".to_string()), ConstantValue::Bool(true)),
        ])),
    };
    assert!(key_eq(&k1, &k2));
}

#[test]
fn float_constants_do_not_distinguish_keys() {
    // Two keys that differ only in a float constant's value fall into one
    // cache bucket: float entries contribute no information.
    let k1 = KernelKey {
        name: "gemm".to_string(),
        constants: Some(ConstantValues(vec![
            (ConstantValueId::Index(0), ConstantValue::Float(1.5f32.to_bits())),
            (ConstantValueId::Index(1), ConstantValue::Uint(64)),
        ])),
    };
    let k2 = KernelKey {
        name: "gemm".to_string(),
        constants: Some(ConstantValues(vec![
            (ConstantValueId::Index(0), ConstantValue::Float((-7.25f32).to_bits())),
            (ConstantValueId::Index(1), ConstantValue::Uint(64)),
        ])),
    };
    assert!(key_eq(&k1, &k2));
}

#[test]
fn discrete_constants_distinguish_keys() {
    let k1 = KernelKey {
        name: "gemm".to_string(),
        constants: Some(ConstantValues(vec![(
            ConstantValueId::Index(0),
            ConstantValue::Uint(32),
        )])),
    };
    let k2 = KernelKey {
        name: "gemm".to_string(),
        constants: Some(ConstantValues(vec![(
            ConstantValueId::Index(0),
            ConstantValue::Uint(64),
        )])),
    };
    assert!(!key_eq(&k1, &k2));
}

#[test]
fn names_distinguish_keys() {
    assert!(!key_eq(&plain_key("cos_float"), &plain_key("sin_float")));
    assert!(!key_eq(
        &plain_key("cos_float"),
        &KernelKey { name: "cos_float".to_string(), constants: Some(ConstantValues(vec![])) },
    ));
}

#[test]
fn mismatched_id_kinds_distinguish_keys() {
    let k1 = KernelKey {
        name: "gemm".to_string(),
        constants: Some(ConstantValues(vec![(
            ConstantValueId::Index(0),
            ConstantValue::Bool(true),
        )])),
    };
    let k2 = KernelKey {
        name: "gemm".to_string(),
        constants: Some(ConstantValues(vec![(
            ConstantValueId::Name("0".to_string()),
            ConstantValue::Bool(true),
        )])),
    };
    assert!(!key_eq(&k1, &k2));
}

#[test]
fn pipeline_compiles_once_per_key() {
    // Cache idempotence: repeated loads of one key return the same handle
    // and invoke the compile step exactly once.
    let kernels: Kernels<u64, u64> = Kernels::new();
    let compiles = Cell::new(0u32);
    let lib_compiles = Cell::new(0u32);

    let mut handles = Vec::new();
    for _ in 0..3 {
        let p = kernels
            .load_pipeline(
                Source::Unary,
                plain_key("cos_float"),
                |_d| {
                    lib_compiles.set(lib_compiles.get() + 1);
                    Ok(11u64)
                },
                |lib, key| {
                    assert_eq!(lib, 11u64);
                    assert_eq!(key.name, "cos_float");
                    compiles.set(compiles.get() + 1);
                    Ok(Pipeline::new(42u64, 256))
                },
            )
            .unwrap();
        handles.push(*p.handle());
        assert_eq!(p.max_total_threads_per_threadgroup(), 256);
    }
    assert_eq!(compiles.get(), 1);
    assert_eq!(lib_compiles.get(), 1);
    assert_eq!(handles, vec![42, 42, 42]);
}

#[test]
fn float_equivalent_keys_share_one_pipeline() {
    let kernels: Kernels<u64, u64> = Kernels::new();
    let compiles = Cell::new(0u32);
    let key_with_float = |bits: u32| KernelKey {
        name: "gemm".to_string(),
        constants: Some(ConstantValues(vec![(
            ConstantValueId::Index(0),
            ConstantValue::Float(bits),
        )])),
    };
    for bits in [1.0f32.to_bits(), 2.0f32.to_bits()] {
        let p = kernels
            .load_pipeline(
                Source::MetalFlashAttention,
                key_with_float(bits),
                |_d| Ok(1u64),
                |_lib, _key| {
                    compiles.set(compiles.get() + 1);
                    Ok(Pipeline::new(7u64, 1024))
                },
            )
            .unwrap();
        assert_eq!(*p.handle(), 7);
    }
    assert_eq!(compiles.get(), 1);
}

#[test]
fn distinct_keys_compile_separately() {
    let kernels: Kernels<u64, u64> = Kernels::new();
    let compiles = Cell::new(0u32);
    for (i, name) in ["cos_float", "sin_float"].iter().enumerate() {
        let p = kernels
            .load_pipeline(
                Source::Unary,
                plain_key(name),
                |_d| Ok(0u64),
                |_lib, _key| {
                    compiles.set(compiles.get() + 1);
                    Ok(Pipeline::new(i as u64, 128))
                },
            )
            .unwrap();
        assert_eq!(*p.handle(), i as u64);
    }
    assert_eq!(compiles.get(), 2);
}

#[test]
fn library_compiles_once_per_module() {
    let kernels: Kernels<u64, u64> = Kernels::new();
    let compiles = Cell::new(0u32);
    for _ in 0..3 {
        let lib = kernels
            .load_library(Source::Reduce, |d| {
                assert_eq!(d, LibraryDefinition::Source);
                compiles.set(compiles.get() + 1);
                Ok(5u64)
            })
            .unwrap();
        assert_eq!(lib, 5);
    }
    assert_eq!(compiles.get(), 1);
}

#[test]
fn flash_attention_module_uses_binary_path() {
    assert_eq!(
        Source::MetalFlashAttention.get_library_source(),
        LibraryDefinition::Data
    );
    for s in [
        Source::Affine,
        Source::Indexing,
        Source::Unary,
        Source::Binary,
        Source::Ternary,
        Source::Cast,
        Source::Reduce,
    ] {
        assert_eq!(s.get_library_source(), LibraryDefinition::Source);
    }
}

#[test]
fn library_error_propagates() {
    let kernels: Kernels<u64, u64> = Kernels::new();
    let r = kernels.load_library(Source::Unary, |_d| {
        Err(MetalKernelError::LoadLibraryError("bad asset".to_string()))
    });
    assert!(matches!(r, Err(MetalKernelError::LoadLibraryError(_))));
    // The failure was not cached: a later compile succeeds.
    let lib = kernels.load_library(Source::Unary, |_d| Ok(9u64)).unwrap();
    assert_eq!(lib, 9);
}

#[test]
fn function_error_propagates() {
    let kernels: Kernels<u64, u64> = Kernels::new();
    let r = kernels.load_pipeline(
        Source::Unary,
        plain_key("cos_float"),
        |_d| Ok(0u64),
        |_lib, _key| Err(MetalKernelError::LoadFunctionError("no such function".to_string())),
    );
    assert!(matches!(r, Err(MetalKernelError::LoadFunctionError(_))));
}

#[test]
fn pipeline_error_propagates() {
    let kernels: Kernels<u64, u64> = Kernels::new();
    let r = kernels.load_pipeline(
        Source::Unary,
        plain_key("cos_float"),
        |_d| Ok(0u64),
        |_lib, _key| Err(MetalKernelError::FailedToCreatePipeline("resources".to_string())),
    );
    assert!(matches!(r, Err(MetalKernelError::FailedToCreatePipeline(_))));
    let r = kernels.load_pipeline(
        Source::Unary,
        plain_key("cos_float"),
        |_d| Ok(0u64),
        |_lib, _key| Err(MetalKernelError::FailedToCreateComputeFunction),
    );
    assert!(matches!(r, Err(MetalKernelError::FailedToCreateComputeFunction)));
    let r = kernels.load_pipeline(
        Source::Unary,
        plain_key("cos_float"),
        |_d| Ok(0u64),
        |_lib, _key| Err(MetalKernelError::LockError("poisoned".to_string())),
    );
    assert!(matches!(r, Err(MetalKernelError::LockError(_))));
}
