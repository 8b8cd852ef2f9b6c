use mote::backend::vulkan::{
    vulkan_allocation_size, vulkan_buffer_size, vulkan_check_bindings, vulkan_compute_queue_family,
    vulkan_device_order, vulkan_elapsed_ticks, vulkan_matmul_cmma_plan, vulkan_matmul_plan,
    vulkan_select_device, vulkan_supports_cooperative_matrix, vulkan_upload_size,
    vulkan_vector_add_plan, CooperativeMatrixCaps, DeviceChoice, PhysicalDeviceInfo,
    PhysicalDeviceKind, QueueFamilyCaps, VectorAddLaunch, VulkanContextOptions, VulkanError,
    VulkanMatmulLaunch, VulkanMemoryMode,
};
use mote::storage::{Storage, StorageIds, StorageImpl};
use mote::tensor::Tensor;
use mote::types::{BackendKind, DType, Device, Encoding, Layout, QuantFormat, Shape, Strides, TensorDesc};

#[derive(Debug)]
struct Buffer {
    device: Device,
    size_bytes: usize,
}

impl StorageImpl for Buffer {
    fn device(&self) -> &Device {
        &self.device
    }

    fn size_bytes(&self) -> usize {
        self.size_bytes
    }

    fn alignment(&self) -> usize {
        4
    }
}

fn vulkan_device() -> Device {
    Device::new(BackendKind::Vulkan, 0)
}

fn plain_desc(shape: &[usize], dtype: DType) -> TensorDesc {
    TensorDesc::new(Shape::new(shape), Encoding::Plain(dtype), Layout::Contiguous).unwrap()
}

fn empty(ids: &mut StorageIds, desc: TensorDesc) -> Tensor<Buffer> {
    let buffer = Buffer {
        device: vulkan_device(),
        size_bytes: desc.required_span_bytes(),
    };
    Tensor::new(desc, Storage::new(buffer, ids).unwrap(), 0).unwrap()
}

#[test]
fn multiplies_non_tile_aligned_f32_matrices() {
    let mut ids = StorageIds::new();
    let lhs = empty(&mut ids, plain_desc(&[3, 17], DType::F32));
    let rhs = empty(&mut ids, plain_desc(&[17, 4], DType::F32));
    let output = empty(&mut ids, plain_desc(&[3, 4], DType::F32));

    assert_eq!(
        vulkan_matmul_plan(&lhs, &rhs, &output).unwrap(),
        Some(VulkanMatmulLaunch {
            m: 3,
            n: 4,
            k: 17,
            groups_x: 1,
            groups_y: 1
        })
    );
    assert!(vulkan_check_bindings(vulkan_device(), &lhs, true, &rhs, true, &output, true).is_ok());
    assert!(matches!(
        vulkan_check_bindings(vulkan_device(), &lhs, true, &rhs, true, &output, false),
        Err(VulkanError::WrongStorage)
    ));
}

#[test]
fn tiled_matmul_covers_partial_tiles_and_rejects_bad_operands() {
    let mut ids = StorageIds::new();
    let lhs = empty(&mut ids, plain_desc(&[33, 5], DType::F32));
    let rhs = empty(&mut ids, plain_desc(&[5, 17], DType::F32));
    let output = empty(&mut ids, plain_desc(&[33, 17], DType::F32));
    let launch = vulkan_matmul_plan(&lhs, &rhs, &output).unwrap().unwrap();
    assert_eq!((launch.groups_x, launch.groups_y), (2, 3));

    let f16_lhs = empty(&mut ids, plain_desc(&[33, 5], DType::F16));
    assert!(matches!(
        vulkan_matmul_plan(&f16_lhs, &rhs, &output),
        Err(VulkanError::DTypeMismatch { tensor: "lhs", expected: DType::F32, actual: DType::F16 })
    ));
    let vector = empty(&mut ids, plain_desc(&[5], DType::F32));
    assert!(matches!(
        vulkan_matmul_plan(&lhs, &vector, &output),
        Err(VulkanError::RankMismatch { tensor: "rhs", expected: 2, actual: 1 })
    ));
    let empty_output = empty(&mut ids, plain_desc(&[0, 17], DType::F32));
    let empty_lhs = empty(&mut ids, plain_desc(&[0, 5], DType::F32));
    assert_eq!(vulkan_matmul_plan(&empty_lhs, &rhs, &empty_output).unwrap(), None);
}

#[test]
fn cooperative_matmul_needs_support_and_aligned_shapes() {
    let mut ids = StorageIds::new();
    let lhs = empty(&mut ids, plain_desc(&[64, 64], DType::F16));
    let rhs = empty(&mut ids, plain_desc(&[64, 64], DType::F16));
    let output = empty(&mut ids, plain_desc(&[64, 64], DType::F32));

    assert!(matches!(
        vulkan_matmul_cmma_plan(false, &lhs, &rhs, &output),
        Err(VulkanError::CooperativeMatrixUnsupported)
    ));
    assert_eq!(
        vulkan_matmul_cmma_plan(true, &lhs, &rhs, &output).unwrap(),
        Some(VulkanMatmulLaunch {
            m: 64,
            n: 64,
            k: 64,
            groups_x: 1,
            groups_y: 4
        })
    );

    let narrow_rhs = empty(&mut ids, plain_desc(&[64, 32], DType::F16));
    let narrow_output = empty(&mut ids, plain_desc(&[64, 32], DType::F32));
    assert!(matches!(
        vulkan_matmul_cmma_plan(true, &lhs, &narrow_rhs, &narrow_output),
        Err(VulkanError::CooperativeMatrixShapeUnsupported { m: 64, n: 32, k: 64 })
    ));
}

#[test]
fn vector_add_dispatches_one_invocation_per_element() {
    let mut ids = StorageIds::new();
    let desc = || plain_desc(&[1000], DType::F32);
    let lhs = empty(&mut ids, desc());
    let rhs = empty(&mut ids, desc());
    let output = empty(&mut ids, desc());

    assert_eq!(
        vulkan_vector_add_plan(vulkan_device(), &lhs, true, &rhs, true, &output, true, 3).unwrap(),
        Some(VectorAddLaunch {
            numel: 1000,
            group_count: 4,
            dispatches: 3
        })
    );
    assert_eq!(
        vulkan_vector_add_plan(vulkan_device(), &lhs, false, &rhs, false, &output, false, 0)
            .unwrap(),
        None
    );

    let short = empty(&mut ids, plain_desc(&[999], DType::F32));
    assert!(matches!(
        vulkan_vector_add_plan(vulkan_device(), &lhs, true, &short, true, &output, true, 1),
        Err(VulkanError::ShapeMismatch { tensor: "rhs", .. })
    ));
    let other_device = Device::new(BackendKind::Vulkan, 1);
    assert!(matches!(
        vulkan_vector_add_plan(other_device, &lhs, true, &rhs, true, &output, true, 1),
        Err(VulkanError::DeviceMismatch { .. })
    ));
}

#[test]
fn supports_host_visible_storage_when_requested() {
    let options = VulkanContextOptions {
        memory_mode: VulkanMemoryMode::HostVisible,
    };
    assert_eq!(options.memory_mode, VulkanMemoryMode::HostVisible);
    assert_eq!(VulkanContextOptions::default().memory_mode, VulkanMemoryMode::DeviceLocal);
    assert_eq!(VulkanMemoryMode::default(), VulkanMemoryMode::DeviceLocal);
}

#[test]
fn allocation_accepts_plain_contiguous_descriptors_only() {
    assert_eq!(vulkan_allocation_size(&plain_desc(&[16], DType::F32)).unwrap(), 64);
    let quantized = TensorDesc::new(
        Shape::new(&[32]),
        Encoding::Quantized(QuantFormat::Q8_0),
        Layout::Contiguous,
    )
    .unwrap();
    assert!(matches!(
        vulkan_allocation_size(&quantized),
        Err(VulkanError::UnsupportedEncoding { .. })
    ));
    let strided = TensorDesc::new(
        Shape::new(&[2]),
        Encoding::Plain(DType::F32),
        Layout::Strided(Strides::new(&[2])),
    )
    .unwrap();
    assert!(matches!(
        vulkan_allocation_size(&strided),
        Err(VulkanError::UnsupportedLayout { .. })
    ));
    assert!(matches!(
        vulkan_upload_size(&plain_desc(&[2], DType::F32), 4),
        Err(VulkanError::ByteLengthMismatch {
            expected: 8,
            actual: 4
        })
    ));
    assert_eq!(vulkan_upload_size(&plain_desc(&[2], DType::F32), 8).unwrap(), 8);
    assert_eq!(vulkan_buffer_size(0), 4);
    assert_eq!(vulkan_buffer_size(13), 13);
}

#[test]
fn elapsed_ticks_survive_counter_wraparound() {
    assert_eq!(vulkan_elapsed_ticks(100, 350, 64), 250);
    assert_eq!(vulkan_elapsed_ticks(u64::MAX - 9, 5, 64), 15);
    assert_eq!(vulkan_elapsed_ticks((1 << 36) - 10, 6, 36), 16);
    assert_eq!(vulkan_elapsed_ticks(7, 7, 0), 0);
}

#[test]
fn compute_queue_prefers_families_without_graphics() {
    let graphics = QueueFamilyCaps { compute: true, graphics: true };
    let compute_only = QueueFamilyCaps { compute: true, graphics: false };
    let transfer = QueueFamilyCaps { compute: false, graphics: false };

    assert_eq!(vulkan_compute_queue_family(&[graphics, transfer, compute_only]), Some(2));
    assert_eq!(vulkan_compute_queue_family(&[transfer, graphics]), Some(1));
    assert_eq!(vulkan_compute_queue_family(&[transfer]), None);
}

fn device_info(kind: PhysicalDeviceKind, compute: bool) -> PhysicalDeviceInfo {
    PhysicalDeviceInfo {
        kind,
        queue_families: vec![QueueFamilyCaps { compute, graphics: true }],
    }
}

#[test]
fn devices_are_ordered_by_kind_then_enumeration() {
    let devices = vec![
        device_info(PhysicalDeviceKind::Cpu, true),
        device_info(PhysicalDeviceKind::IntegratedGpu, true),
        device_info(PhysicalDeviceKind::DiscreteGpu, false),
        device_info(PhysicalDeviceKind::DiscreteGpu, true),
        device_info(PhysicalDeviceKind::IntegratedGpu, true),
    ];

    assert_eq!(vulkan_device_order(&devices), vec![3, 1, 4, 0]);
    assert_eq!(
        vulkan_select_device(&devices, 1).unwrap(),
        DeviceChoice {
            device_index: 1,
            queue_family_index: 0
        }
    );
    assert!(matches!(
        vulkan_select_device(&devices, 4),
        Err(VulkanError::DeviceUnavailable {
            ordinal: 4,
            available: 4
        })
    ));
    let none = vec![device_info(PhysicalDeviceKind::DiscreteGpu, false)];
    assert!(matches!(vulkan_select_device(&none, 0), Err(VulkanError::NoComputeDevice)));
}

#[test]
fn cooperative_matrix_needs_every_capability() {
    let caps = CooperativeMatrixCaps {
        khr_cooperative_matrix: true,
        cooperative_matrix: true,
        shader_float16: true,
        uniform_and_storage_buffer16_bit_access: true,
        vulkan_memory_model: true,
        vulkan_memory_model_device_scope: true,
        subgroup_size_control: true,
        compute_subgroup_size_required: true,
        min_subgroup_size: Some(32),
        max_subgroup_size: Some(64),
    };
    assert!(vulkan_supports_cooperative_matrix(&caps));
    assert!(!vulkan_supports_cooperative_matrix(&CooperativeMatrixCaps {
        max_subgroup_size: Some(32),
        ..caps
    }));
    assert!(!vulkan_supports_cooperative_matrix(&CooperativeMatrixCaps {
        min_subgroup_size: None,
        ..caps
    }));
    assert!(!vulkan_supports_cooperative_matrix(&CooperativeMatrixCaps {
        shader_float16: false,
        ..caps
    }));
}
