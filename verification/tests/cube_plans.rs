use mote::backend::cube::{
    contiguous_strides, cube_allocation_size, cube_matmul_plan, cube_storage_alignment,
    cube_upload_size, cube_vector_add_plan, CubeError, CubeMatmulMode, CubeVectorAddLaunch,
};
use mote::storage::{CpuOwnedStorage, Storage, StorageError, StorageIds};
use mote::tensor::Tensor;
use mote::types::{DType, Device, Encoding, Layout, Shape, Strides, TensorDesc};

const RUNTIME: &str = "cpu";

fn plain_desc(shape: &[usize], dtype: DType) -> TensorDesc {
    TensorDesc::new(Shape::new(shape), Encoding::Plain(dtype), Layout::Contiguous).unwrap()
}

fn empty(ids: &mut StorageIds, desc: TensorDesc) -> Tensor<CpuOwnedStorage> {
    let bytes = CpuOwnedStorage::zeroed(desc.required_span_bytes()).unwrap();
    Tensor::new(desc, Storage::new(bytes, ids).unwrap(), 0).unwrap()
}

#[test]
fn rejects_upload_with_the_wrong_byte_length() {
    let error = cube_upload_size(&plain_desc(&[2], DType::F32), 4).unwrap_err();

    assert!(matches!(
        error,
        CubeError::ByteLengthMismatch {
            expected: 8,
            actual: 4,
        }
    ));
}

#[test]
fn rejects_non_contiguous_allocation() {
    let desc = TensorDesc::new(
        Shape::new(&[2]),
        Encoding::Plain(DType::F32),
        Layout::Strided(Strides::new(&[2])),
    )
    .unwrap();

    let error = cube_allocation_size(&desc).unwrap_err();

    assert!(matches!(error, CubeError::UnsupportedLayout { .. }));
}

#[test]
fn rejects_non_cube_storage() {
    let mut ids = StorageIds::new();
    let tensor = empty(&mut ids, plain_desc(&[2], DType::F32));

    let error = cube_vector_add_plan(Device::cpu(), RUNTIME, &tensor, false, &tensor, false, &tensor, false)
        .unwrap_err();

    assert!(matches!(
        error,
        CubeError::WrongStorageRuntime {
            expected_runtime: "cpu"
        }
    ));
}

#[test]
fn rejects_mismatched_shapes() {
    let mut ids = StorageIds::new();
    let lhs = empty(&mut ids, plain_desc(&[4], DType::F32));
    let rhs = empty(&mut ids, plain_desc(&[3], DType::F32));
    let output = empty(&mut ids, plain_desc(&[4], DType::F32));

    let error = cube_vector_add_plan(Device::cpu(), RUNTIME, &lhs, true, &rhs, true, &output, true)
        .unwrap_err();

    assert!(matches!(error, CubeError::ShapeMismatch { tensor: "rhs", .. }));
}

#[test]
fn rejects_non_f32_tensors() {
    let mut ids = StorageIds::new();
    let lhs = empty(&mut ids, plain_desc(&[4], DType::I32));
    let rhs = empty(&mut ids, plain_desc(&[4], DType::I32));
    let output = empty(&mut ids, plain_desc(&[4], DType::I32));

    let error = cube_vector_add_plan(Device::cpu(), RUNTIME, &lhs, true, &rhs, true, &output, true)
        .unwrap_err();

    assert!(matches!(
        error,
        CubeError::DTypeMismatch {
            tensor: "lhs",
            expected: DType::F32,
            actual: DType::I32,
        }
    ));
}

#[test]
fn vector_add_launches_enough_cubes() {
    let mut ids = StorageIds::new();
    let lhs = empty(&mut ids, plain_desc(&[1000], DType::F32));
    let rhs = empty(&mut ids, plain_desc(&[1000], DType::F32));
    let output = empty(&mut ids, plain_desc(&[1000], DType::F32));

    assert_eq!(
        cube_vector_add_plan(Device::cpu(), RUNTIME, &lhs, true, &rhs, true, &output, true).unwrap(),
        Some(CubeVectorAddLaunch {
            numel: 1000,
            cube_count: 4
        })
    );
    let empty_lhs = empty(&mut ids, plain_desc(&[0], DType::F32));
    assert_eq!(
        cube_vector_add_plan(Device::cpu(), RUNTIME, &empty_lhs, true, &empty_lhs, true, &empty_lhs, true)
            .unwrap(),
        None
    );
}

#[test]
fn multiplies_f32_matrices_on_cpu() {
    let mut ids = StorageIds::new();
    let lhs = empty(&mut ids, plain_desc(&[2, 3], DType::F32));
    let rhs = empty(&mut ids, plain_desc(&[3, 2], DType::F32));
    let output = empty(&mut ids, plain_desc(&[2, 2], DType::F32));

    let launch = cube_matmul_plan(
        CubeMatmulMode::F32,
        Device::cpu(),
        RUNTIME,
        &lhs,
        true,
        &rhs,
        true,
        &output,
        true,
    )
    .unwrap()
    .unwrap();
    assert_eq!(launch.lhs_strides, vec![3, 1]);
    assert_eq!(launch.rhs_strides, vec![2, 1]);
    assert_eq!(launch.output_strides, vec![2, 1]);

    let error = cube_matmul_plan(
        CubeMatmulMode::CmmaF16F32,
        Device::cpu(),
        RUNTIME,
        &lhs,
        true,
        &rhs,
        true,
        &output,
        true,
    )
    .unwrap_err();
    assert!(matches!(
        error,
        CubeError::DTypeMismatch {
            tensor: "lhs",
            expected: DType::F16,
            actual: DType::F32
        }
    ));
    assert_eq!(CubeMatmulMode::default(), CubeMatmulMode::F32);
}

#[test]
fn contiguous_strides_step_over_later_axes() {
    assert_eq!(contiguous_strides(&[2, 3, 4]), vec![12, 4, 1]);
    assert_eq!(contiguous_strides(&[5]), vec![1]);
    assert_eq!(contiguous_strides(&[7, 0]), vec![0, 1]);
    assert!(contiguous_strides(&[]).is_empty());
}

#[test]
fn storage_alignment_must_be_a_power_of_two() {
    assert_eq!(cube_storage_alignment(64).unwrap(), 64);
    assert!(matches!(
        cube_storage_alignment(48),
        Err(CubeError::Storage(StorageError::InvalidAlignment { alignment: 48 }))
    ));
    assert!(matches!(
        cube_storage_alignment(0),
        Err(CubeError::Storage(StorageError::InvalidAlignment { alignment: 0 }))
    ));
}
