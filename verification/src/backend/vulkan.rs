//! Decisions of the raw Vulkan compute backend: device and queue selection, which calls
//! are well formed, and the dispatch each one leads to. The Vulkan calls stay outside.
use vstd::prelude::*;
use vstd::arithmetic::power2::{lemma2_to64, lemma2_to64_rest, lemma_pow2_adds, pow2};
use vstd::arithmetic::div_mod::lemma_mod_multiples_vanish;
use vstd::bits::{lemma_u64_low_bits_mask_is_mod, lemma_u64_pow2_no_overflow, lemma_u64_shl_is_mul};
use crate::backend::{
    workgroups, binding_error, check_plain_matrix, first_of, matrix_error, check_binding, check_plain_dtype, check_same_shape, check_shape,
    plain_dtype_error, shape_error, TensorCheckError, TensorCheckErrorView,
};
use crate::storage::StorageError;
use crate::tensor::{Tensor, TensorError, TensorView};
use crate::types::{DType, Device, Encoding, Layout, Shape, TensorDesc, TensorDescView};

verus! {

/// Where a context places its storage buffers.
#[derive(Debug, Clone, Copy, PartialEq, Eq, Structural)]
pub enum VulkanMemoryMode {
    DeviceLocal,
    HostVisible,
}

impl Default for VulkanMemoryMode {
    fn default() -> (r: Self)
        ensures
            r == VulkanMemoryMode::DeviceLocal,
    {
        VulkanMemoryMode::DeviceLocal
    }
}

/// Options of a Vulkan context.
#[derive(Debug, Clone, Copy, PartialEq, Eq, Structural)]
pub struct VulkanContextOptions {
    pub memory_mode: VulkanMemoryMode,
}

impl Default for VulkanContextOptions {
    fn default() -> (r: Self)
        ensures
            r.memory_mode == VulkanMemoryMode::DeviceLocal,
    {
        VulkanContextOptions { memory_mode: VulkanMemoryMode::DeviceLocal }
    }
}

/// The memory type and heap that back a storage buffer.
#[derive(Debug, Clone, Copy, PartialEq, Eq, Structural)]
pub struct VulkanMemoryInfo {
    pub memory_type_index: u32,
    pub heap_index: u32,
    pub heap_size_bytes: u64,
    pub device_local: bool,
    pub host_visible: bool,
    pub host_coherent: bool,
    pub host_cached: bool,
}

#[allow(inconsistent_fields)]
#[derive(Debug)]
pub enum VulkanError {
    Backend { operation: &'static str, message: String },
    NoComputeDevice,
    DeviceUnavailable { ordinal: u32, available: usize },
    StorageSizeTooLarge { size_bytes: usize },
    ByteLengthMismatch { expected: usize, actual: usize },
    UnsupportedEncoding { actual: Encoding },
    UnsupportedLayout { actual: Layout },
    DeviceMismatch { expected: Device, actual: Device },
    UnsupportedByteOffset { byte_offset: usize },
    WrongStorage,
    UnsupportedStorageMemory,
    DTypeMismatch { tensor: &'static str, expected: DType, actual: DType },
    ShapeMismatch { tensor: &'static str, expected: Shape, actual: Shape },
    RankMismatch { tensor: &'static str, expected: usize, actual: usize },
    MatmulDimensionsTooLarge { m: usize, n: usize, k: usize },
    CooperativeMatrixUnsupported,
    CooperativeMatrixShapeUnsupported { m: usize, n: usize, k: usize },
    TimestampQueriesUnsupported,
    TimestampResultsUnavailable,
    LaunchGeometryOverflow { numel: usize },
    Storage(StorageError),
    Tensor(TensorError),
}

/// Model of a Vulkan error: operand rejections are described by the shared check model.
#[allow(inconsistent_fields)]
pub enum VulkanErrorView {
    Check(TensorCheckErrorView),
    Backend { operation: &'static str, message: Seq<char> },
    NoComputeDevice,
    DeviceUnavailable { ordinal: u32, available: usize },
    StorageSizeTooLarge { size_bytes: usize },
    ByteLengthMismatch { expected: usize, actual: usize },
    UnsupportedStorageMemory,
    MatmulDimensionsTooLarge { m: usize, n: usize, k: usize },
    CooperativeMatrixUnsupported,
    CooperativeMatrixShapeUnsupported { m: usize, n: usize, k: usize },
    TimestampQueriesUnsupported,
    TimestampResultsUnavailable,
    LaunchGeometryOverflow { numel: usize },
    Storage(StorageError),
    Tensor(TensorError),
}

impl View for VulkanError {
    type V = VulkanErrorView;

    open spec fn view(&self) -> VulkanErrorView {
        match self {
            VulkanError::Backend { operation, message } => VulkanErrorView::Backend {
                operation: *operation,
                message: message@,
            },
            VulkanError::NoComputeDevice => VulkanErrorView::NoComputeDevice,
            VulkanError::DeviceUnavailable { ordinal, available } => {
                VulkanErrorView::DeviceUnavailable { ordinal: *ordinal, available: *available }
            },
            VulkanError::StorageSizeTooLarge { size_bytes } => VulkanErrorView::StorageSizeTooLarge {
                size_bytes: *size_bytes,
            },
            VulkanError::ByteLengthMismatch { expected, actual } => {
                VulkanErrorView::ByteLengthMismatch { expected: *expected, actual: *actual }
            },
            VulkanError::UnsupportedEncoding { actual } => VulkanErrorView::Check(
                TensorCheckErrorView::UnsupportedEncoding { actual: *actual },
            ),
            VulkanError::UnsupportedLayout { actual } => VulkanErrorView::Check(
                TensorCheckErrorView::UnsupportedLayout { actual: actual@ },
            ),
            VulkanError::DeviceMismatch { expected, actual } => VulkanErrorView::Check(
                TensorCheckErrorView::DeviceMismatch { expected: *expected, actual: *actual },
            ),
            VulkanError::UnsupportedByteOffset { byte_offset } => VulkanErrorView::Check(
                TensorCheckErrorView::UnsupportedByteOffset { byte_offset: *byte_offset },
            ),
            VulkanError::WrongStorage => VulkanErrorView::Check(TensorCheckErrorView::WrongStorage),
            VulkanError::UnsupportedStorageMemory => VulkanErrorView::UnsupportedStorageMemory,
            VulkanError::DTypeMismatch { tensor, expected, actual } => VulkanErrorView::Check(
                TensorCheckErrorView::DTypeMismatch {
                    tensor: *tensor,
                    expected: *expected,
                    actual: *actual,
                },
            ),
            VulkanError::ShapeMismatch { tensor, expected, actual } => VulkanErrorView::Check(
                TensorCheckErrorView::ShapeMismatch {
                    tensor: *tensor,
                    expected: expected@,
                    actual: actual@,
                },
            ),
            VulkanError::RankMismatch { tensor, expected, actual } => VulkanErrorView::Check(
                TensorCheckErrorView::RankMismatch {
                    tensor: *tensor,
                    expected: *expected,
                    actual: *actual,
                },
            ),
            VulkanError::MatmulDimensionsTooLarge { m, n, k } => {
                VulkanErrorView::MatmulDimensionsTooLarge { m: *m, n: *n, k: *k }
            },
            VulkanError::CooperativeMatrixUnsupported => VulkanErrorView::CooperativeMatrixUnsupported,
            VulkanError::CooperativeMatrixShapeUnsupported { m, n, k } => {
                VulkanErrorView::CooperativeMatrixShapeUnsupported { m: *m, n: *n, k: *k }
            },
            VulkanError::TimestampQueriesUnsupported => VulkanErrorView::TimestampQueriesUnsupported,
            VulkanError::TimestampResultsUnavailable => VulkanErrorView::TimestampResultsUnavailable,
            VulkanError::LaunchGeometryOverflow { numel } => VulkanErrorView::LaunchGeometryOverflow {
                numel: *numel,
            },
            VulkanError::Storage(e) => VulkanErrorView::Storage(*e),
            VulkanError::Tensor(e) => VulkanErrorView::Tensor(*e),
        }
    }
}

/// A Vulkan operand check that cannot produce a rank-too-small error, which no Vulkan
/// entry point asks for.
pub open spec fn vulkan_check(e: TensorCheckErrorView) -> bool {
    !(e is RankTooSmall) && !(e is AliasedStorage)
}

impl VulkanError {
    /// The Vulkan error reporting a rejected operand.
    pub fn from_check(e: TensorCheckError) -> (r: VulkanError)
        requires
            vulkan_check(e@),
        ensures
            r@ == VulkanErrorView::Check(e@),
    {
        match e {
            TensorCheckError::DTypeMismatch { tensor, expected, actual } => {
                VulkanError::DTypeMismatch { tensor, expected, actual }
            },
            TensorCheckError::UnsupportedEncoding { actual } => VulkanError::UnsupportedEncoding {
                actual,
            },
            TensorCheckError::RankMismatch { tensor, expected, actual } => {
                VulkanError::RankMismatch { tensor, expected, actual }
            },
            TensorCheckError::ShapeMismatch { tensor, expected, actual } => {
                VulkanError::ShapeMismatch { tensor, expected, actual }
            },
            TensorCheckError::UnsupportedLayout { actual } => VulkanError::UnsupportedLayout {
                actual,
            },
            TensorCheckError::DeviceMismatch { expected, actual } => VulkanError::DeviceMismatch {
                expected,
                actual,
            },
            TensorCheckError::UnsupportedByteOffset { byte_offset } => {
                VulkanError::UnsupportedByteOffset { byte_offset }
            },
            TensorCheckError::WrongStorage => VulkanError::WrongStorage,
            TensorCheckError::RankTooSmall { .. } => vstd::pervasive::unreached(),
            TensorCheckError::AliasedStorage { .. } => vstd::pervasive::unreached(),
        }
    }
}

/// Outcome of an operand check followed by the rest of a decision.
pub open spec fn check_then<T>(e: Option<TensorCheckErrorView>, rest: Result<T, VulkanErrorView>) -> Result<
    T,
    VulkanErrorView,
> {
    match e {
        Some(v) => Err(VulkanErrorView::Check(v)),
        None => rest,
    }
}

fn lift(r: Result<(), TensorCheckError>) -> (out: Result<(), VulkanError>)
    requires
        r matches Err(e) ==> vulkan_check(e@),
    ensures
        match r {
            Ok(()) => out is Ok,
            Err(e) => out matches Err(h) && h@ == VulkanErrorView::Check(e@),
        },
{
    match r {
        Ok(()) => Ok(()),
        Err(e) => Err(VulkanError::from_check(e)),
    }
}

/// Rejects a descriptor a Vulkan context cannot allocate: quantized or not contiguous.
pub open spec fn vulkan_desc_error(desc: TensorDescView) -> Option<TensorCheckErrorView> {
    if desc.encoding is Quantized {
        Some(TensorCheckErrorView::UnsupportedEncoding { actual: desc.encoding })
    } else if !desc.is_contiguous() {
        Some(TensorCheckErrorView::UnsupportedLayout { actual: desc.layout })
    } else {
        None
    }
}

/// Bytes to allocate for a tensor described by `desc`: plain, contiguous tensors only.
pub fn vulkan_allocation_size(desc: &TensorDesc) -> (r: Result<usize, VulkanError>)
    ensures
        match r {
            Ok(n) => vulkan_desc_error(desc@) is None && n == desc@.span_bytes(),
            Err(e) => vulkan_desc_error(desc@) matches Some(v) && e@ == VulkanErrorView::Check(v),
        },
{
    let encoding = *desc.encoding();
    if let Encoding::Quantized(_) = encoding {
        return Err(VulkanError::UnsupportedEncoding { actual: encoding });
    }
    if !desc.is_contiguous() {
        return Err(VulkanError::UnsupportedLayout { actual: desc.layout().clone() });
    }
    Ok(desc.required_span_bytes())
}

/// Bytes to allocate for uploading `bytes_len` bytes as a tensor described by `desc`:
/// the descriptor must be allocatable and the byte count must equal its span.
pub fn vulkan_upload_size(desc: &TensorDesc, bytes_len: usize) -> (r: Result<usize, VulkanError>)
    ensures
        vulkan_desc_error(desc@) matches Some(v) ==> (r matches Err(e) && e@ == VulkanErrorView::Check(v)),
        vulkan_desc_error(desc@) is None && bytes_len != desc@.span_bytes() ==> (r matches Err(e) && e@ matches
            VulkanErrorView::ByteLengthMismatch { expected, actual } && expected == desc@.span_bytes()
            && actual == bytes_len),
        vulkan_desc_error(desc@) is None && bytes_len == desc@.span_bytes() ==> r == Ok::<usize, VulkanError>(
            bytes_len,
        ),
{
    let expected = vulkan_allocation_size(desc)?;
    if bytes_len != expected {
        return Err(VulkanError::ByteLengthMismatch { expected, actual: bytes_len });
    }
    Ok(expected)
}

/// Size of the buffer backing a storage of `size_bytes`: Vulkan buffers are never
/// empty, so at least four bytes.
pub fn vulkan_buffer_size(size_bytes: usize) -> (r: u64)
    ensures
        r == if size_bytes < 4 { 4 } else { size_bytes as int },
{
    if size_bytes < 4 {
        4
    } else {
        size_bytes as u64
    }
}

/// Invocations per vector-add workgroup.
pub const VULKAN_WORKGROUP_SIZE: usize = 256;

/// A vector-add dispatch: `dispatches` times `group_count` workgroups over `numel`
/// F32 elements.
#[derive(Debug, Clone, Copy, PartialEq, Eq, Structural)]
pub struct VectorAddLaunch {
    pub numel: usize,
    pub group_count: u32,
    pub dispatches: usize,
}

/// Rejects an operand that is not plain F32.
pub open spec fn f32_error(name: &'static str, t: TensorView) -> Option<TensorCheckErrorView> {
    plain_dtype_error(name, t, DType::F32)
}

/// Decision of `vector_add_batch`: three plain F32 tensors of one shape. No dispatch,
/// or an empty `lhs` storage, needs no work; otherwise the element count is the `lhs`
/// storage size over four bytes and its workgroup count must fit `u32`.
pub open spec fn vulkan_vector_add_decision(
    device: Device,
    lhs: TensorView,
    lhs_owned: bool,
    rhs: TensorView,
    rhs_owned: bool,
    output: TensorView,
    output_owned: bool,
    dispatches: usize,
) -> Result<Option<VectorAddLaunch>, VulkanErrorView> {
    let numel = lhs.storage.size_bytes / 4;
    let groups = workgroups(numel as int, 256);
    check_then(
        f32_error("lhs", lhs),
        check_then(
            f32_error("rhs", rhs),
            check_then(
                f32_error("output", output),
                check_then(
                    shape_error("rhs", lhs.desc.dims, rhs),
                    check_then(
                        shape_error("output", lhs.desc.dims, output),
                        if dispatches == 0 {
                            Ok(None)
                        } else {
                            check_then(
                                binding_error(device, lhs, lhs_owned),
                                check_then(
                                    binding_error(device, rhs, rhs_owned),
                                    check_then(
                                        binding_error(device, output, output_owned),
                                        if numel == 0 {
                                            Ok(None)
                                        } else if groups > u32::MAX {
                                            Err(VulkanErrorView::LaunchGeometryOverflow { numel })
                                        } else {
                                            Ok(
                                                Some(
                                                    VectorAddLaunch {
                                                        numel,
                                                        group_count: groups as u32,
                                                        dispatches,
                                                    },
                                                ),
                                            )
                                        },
                                    ),
                                ),
                            )
                        },
                    ),
                ),
            ),
        ),
    )
}

fn check_f32<I>(name: &'static str, t: &Tensor<I>) -> (r: Result<(), VulkanError>)
    ensures
        match r {
            Ok(()) => f32_error(name, t@) is None,
            Err(e) => f32_error(name, t@) matches Some(v) && e@ == VulkanErrorView::Check(v),
        },
{
    lift(check_plain_dtype(name, t, DType::F32))
}

/// Decides a batch of F32 vector additions. The `*_owned` flags tell whether this
/// context allocated each operand's storage.
pub fn vulkan_vector_add_plan<I>(
    device: Device,
    lhs: &Tensor<I>,
    lhs_owned: bool,
    rhs: &Tensor<I>,
    rhs_owned: bool,
    output: &Tensor<I>,
    output_owned: bool,
    dispatches: usize,
) -> (r: Result<Option<VectorAddLaunch>, VulkanError>)
    ensures
        match r {
            Ok(plan) => vulkan_vector_add_decision(
                device,
                lhs@,
                lhs_owned,
                rhs@,
                rhs_owned,
                output@,
                output_owned,
                dispatches,
            ) == Ok::<Option<VectorAddLaunch>, VulkanErrorView>(plan),
            Err(e) => vulkan_vector_add_decision(
                device,
                lhs@,
                lhs_owned,
                rhs@,
                rhs_owned,
                output@,
                output_owned,
                dispatches,
            ) == Err::<Option<VectorAddLaunch>, VulkanErrorView>(e@),
        },
{
    check_f32("lhs", lhs)?;
    check_f32("rhs", rhs)?;
    check_f32("output", output)?;
    lift(check_same_shape("rhs", lhs, rhs))?;
    lift(check_same_shape("output", lhs, output))?;
    if dispatches == 0 {
        return Ok(None);
    }
    lift(check_binding(device, lhs, lhs_owned))?;
    lift(check_binding(device, rhs, rhs_owned))?;
    lift(check_binding(device, output, output_owned))?;
    let numel = lhs.storage().size_bytes() / 4;
    if numel == 0 {
        return Ok(None);
    }
    let groups = numel / VULKAN_WORKGROUP_SIZE + if numel % VULKAN_WORKGROUP_SIZE == 0 {
        0
    } else {
        1
    };
    assert(groups == workgroups(numel as int, 256)) by (nonlinear_arith)
        requires
            groups == numel / 256 + if numel % 256 == 0 { 0int } else { 1int },
    ;
    if groups > 4294967295usize {
        return Err(VulkanError::LaunchGeometryOverflow { numel });
    }
    Ok(Some(VectorAddLaunch { numel, group_count: groups as u32, dispatches }))
}

/// Output tile edge of the tiled matrix-multiplication shader.
pub const VULKAN_MATMUL_TILE: usize = 16;

/// Output columns covered by one cooperative-matrix workgroup.
pub const VULKAN_CMMA_COLUMNS: usize = 64;

/// A matrix-multiplication dispatch: push constants `[m, n, k]` and a
/// `groups_x` by `groups_y` grid of workgroups.
#[derive(Debug, Clone, Copy, PartialEq, Eq, Structural)]
pub struct VulkanMatmulLaunch {
    pub m: u32,
    pub n: u32,
    pub k: u32,
    pub groups_x: u32,
    pub groups_y: u32,
}

/// The `[m, k] x [k, n] -> [m, n]` shape checks shared by both multiplications.
pub open spec fn matmul_shape_error(lhs: TensorView, rhs: TensorView, output: TensorView) -> Option<
    TensorCheckErrorView,
> {
    let m = lhs.desc.dims[0];
    let k = lhs.desc.dims[1];
    let n = rhs.desc.dims[1];
    first_of(shape_error("rhs", seq![k, n], rhs), shape_error("output", seq![m, n], output))
}

fn check_matmul_shapes<I>(lhs: &Tensor<I>, rhs: &Tensor<I>, output: &Tensor<I>) -> (r: Result<
    (),
    VulkanError,
>)
    requires
        lhs@.desc.dims.len() == 2,
        rhs@.desc.dims.len() == 2,
    ensures
        match r {
            Ok(()) => matmul_shape_error(lhs@, rhs@, output@) is None,
            Err(e) => matmul_shape_error(lhs@, rhs@, output@) matches Some(v) && e@ == VulkanErrorView::Check(
                v,
            ),
        },
{
    let m = lhs.desc().shape().dims()[0];
    let k = lhs.desc().shape().dims()[1];
    let n = rhs.desc().shape().dims()[1];
    lift(check_shape("rhs", Shape::from_dims(vec![k, n]), rhs))?;
    lift(check_shape("output", Shape::from_dims(vec![m, n]), output))
}

fn check_matrix<I>(name: &'static str, t: &Tensor<I>, dtype: DType) -> (r: Result<(), VulkanError>)
    ensures
        match r {
            Ok(()) => matrix_error(name, t@, dtype) is None,
            Err(e) => matrix_error(name, t@, dtype) matches Some(v) && e@ == VulkanErrorView::Check(v),
        },
{
    lift(check_plain_matrix(name, t, dtype))
}

/// Decision of the tiled `matmul`: F32 `[m, k] x [k, n]` into F32 `[m, n]`. An empty
/// output needs no dispatch; otherwise `m`, `n` and `k` must fit `u32`, and the grid
/// covers the output in 16 x 16 tiles.
pub open spec fn vulkan_matmul_decision(lhs: TensorView, rhs: TensorView, output: TensorView) -> Result<
    Option<VulkanMatmulLaunch>,
    VulkanErrorView,
> {
    let m = lhs.desc.dims[0];
    let k = lhs.desc.dims[1];
    let n = rhs.desc.dims[1];
    check_then(
        matrix_error("lhs", lhs, DType::F32),
        check_then(
            matrix_error("rhs", rhs, DType::F32),
            check_then(
                matrix_error("output", output, DType::F32),
                check_then(
                    matmul_shape_error(lhs, rhs, output),
                    if output.desc.numel() == 0 {
                        Ok(None)
                    } else if m > u32::MAX || n > u32::MAX || k > u32::MAX {
                        Err(VulkanErrorView::MatmulDimensionsTooLarge { m, n, k })
                    } else {
                        Ok(
                            Some(
                                VulkanMatmulLaunch {
                                    m: m as u32,
                                    n: n as u32,
                                    k: k as u32,
                                    groups_x: workgroups(n as int, 16) as u32,
                                    groups_y: workgroups(m as int, 16) as u32,
                                },
                            ),
                        )
                    },
                ),
            ),
        ),
    )
}

fn tiles(extent: usize, tile: usize) -> (r: u32)
    requires
        extent <= u32::MAX,
        tile == 16,
    ensures
        r == workgroups(extent as int, tile as int),
{
    let groups = extent / tile + if extent % tile == 0 {
        0
    } else {
        1
    };
    assert(groups == workgroups(extent as int, 16)) by (nonlinear_arith)
        requires
            groups == extent / 16 + if extent % 16 == 0 { 0int } else { 1int },
    ;
    groups as u32
}

/// Decides a tiled F32 matrix multiplication. The operands' storage is checked
/// afterwards, by `vulkan_check_bindings`.
pub fn vulkan_matmul_plan<I>(lhs: &Tensor<I>, rhs: &Tensor<I>, output: &Tensor<I>) -> (r: Result<
    Option<VulkanMatmulLaunch>,
    VulkanError,
>)
    ensures
        match r {
            Ok(plan) => vulkan_matmul_decision(lhs@, rhs@, output@) == Ok::<
                Option<VulkanMatmulLaunch>,
                VulkanErrorView,
            >(plan),
            Err(e) => vulkan_matmul_decision(lhs@, rhs@, output@) == Err::<
                Option<VulkanMatmulLaunch>,
                VulkanErrorView,
            >(e@),
        },
{
    check_matrix("lhs", lhs, DType::F32)?;
    check_matrix("rhs", rhs, DType::F32)?;
    check_matrix("output", output, DType::F32)?;
    check_matmul_shapes(lhs, rhs, output)?;
    if output.desc().numel() == 0 {
        return Ok(None);
    }
    let m = lhs.desc().shape().dims()[0];
    let k = lhs.desc().shape().dims()[1];
    let n = rhs.desc().shape().dims()[1];
    if m > 4294967295usize || n > 4294967295usize || k > 4294967295usize {
        return Err(VulkanError::MatmulDimensionsTooLarge { m, n, k });
    }
    Ok(
        Some(
            VulkanMatmulLaunch {
                m: m as u32,
                n: n as u32,
                k: k as u32,
                groups_x: tiles(n, VULKAN_MATMUL_TILE),
                groups_y: tiles(m, VULKAN_MATMUL_TILE),
            },
        ),
    )
}

/// Decision of `matmul_cmma_f16_f32`: the device must support cooperative matrices;
/// F16 `[m, k] x [k, n]` into F32 `[m, n]`. An empty output needs no dispatch;
/// otherwise `m` and `k` must be multiples of 16 and `n` of 64, `m`, `n` and `k` must
/// fit `u32`, and each workgroup covers 16 rows by 64 columns.
pub open spec fn vulkan_matmul_cmma_decision(
    supports_cooperative_matrix: bool,
    lhs: TensorView,
    rhs: TensorView,
    output: TensorView,
) -> Result<Option<VulkanMatmulLaunch>, VulkanErrorView> {
    let m = lhs.desc.dims[0];
    let k = lhs.desc.dims[1];
    let n = rhs.desc.dims[1];
    if !supports_cooperative_matrix {
        Err(VulkanErrorView::CooperativeMatrixUnsupported)
    } else {
        check_then(
            matrix_error("lhs", lhs, DType::F16),
            check_then(
                matrix_error("rhs", rhs, DType::F16),
                check_then(
                    matrix_error("output", output, DType::F32),
                    check_then(
                        matmul_shape_error(lhs, rhs, output),
                        if output.desc.numel() == 0 {
                            Ok(None)
                        } else if m % 16 != 0 || n % 64 != 0 || k % 16 != 0 {
                            Err(VulkanErrorView::CooperativeMatrixShapeUnsupported { m, n, k })
                        } else if m > u32::MAX || n > u32::MAX || k > u32::MAX {
                            Err(VulkanErrorView::MatmulDimensionsTooLarge { m, n, k })
                        } else {
                            Ok(
                                Some(
                                    VulkanMatmulLaunch {
                                        m: m as u32,
                                        n: n as u32,
                                        k: k as u32,
                                        groups_x: (n / 64) as u32,
                                        groups_y: (m / 16) as u32,
                                    },
                                ),
                            )
                        },
                    ),
                ),
            ),
        )
    }
}

/// Decides an F16 x F16 cooperative-matrix multiplication with F32 accumulation. The
/// operands' storage is checked afterwards, by `vulkan_check_bindings`.
pub fn vulkan_matmul_cmma_plan<I>(
    supports_cooperative_matrix: bool,
    lhs: &Tensor<I>,
    rhs: &Tensor<I>,
    output: &Tensor<I>,
) -> (r: Result<Option<VulkanMatmulLaunch>, VulkanError>)
    ensures
        match r {
            Ok(plan) => vulkan_matmul_cmma_decision(supports_cooperative_matrix, lhs@, rhs@, output@)
                == Ok::<Option<VulkanMatmulLaunch>, VulkanErrorView>(plan),
            Err(e) => vulkan_matmul_cmma_decision(supports_cooperative_matrix, lhs@, rhs@, output@)
                == Err::<Option<VulkanMatmulLaunch>, VulkanErrorView>(e@),
        },
{
    if !supports_cooperative_matrix {
        return Err(VulkanError::CooperativeMatrixUnsupported);
    }
    check_matrix("lhs", lhs, DType::F16)?;
    check_matrix("rhs", rhs, DType::F16)?;
    check_matrix("output", output, DType::F32)?;
    check_matmul_shapes(lhs, rhs, output)?;
    if output.desc().numel() == 0 {
        return Ok(None);
    }
    let m = lhs.desc().shape().dims()[0];
    let k = lhs.desc().shape().dims()[1];
    let n = rhs.desc().shape().dims()[1];
    if m % VULKAN_MATMUL_TILE != 0 || n % VULKAN_CMMA_COLUMNS != 0 || k % VULKAN_MATMUL_TILE != 0 {
        return Err(VulkanError::CooperativeMatrixShapeUnsupported { m, n, k });
    }
    if m > 4294967295usize || n > 4294967295usize || k > 4294967295usize {
        return Err(VulkanError::MatmulDimensionsTooLarge { m, n, k });
    }
    Ok(
        Some(
            VulkanMatmulLaunch {
                m: m as u32,
                n: n as u32,
                k: k as u32,
                groups_x: (n / VULKAN_CMMA_COLUMNS) as u32,
                groups_y: (m / VULKAN_MATMUL_TILE) as u32,
            },
        ),
    )
}

/// The first operand, in order, that a context on `device` cannot bind.
pub open spec fn bindings_error(
    device: Device,
    lhs: TensorView,
    lhs_owned: bool,
    rhs: TensorView,
    rhs_owned: bool,
    output: TensorView,
    output_owned: bool,
) -> Option<TensorCheckErrorView> {
    first_of(
        binding_error(device, lhs, lhs_owned),
        first_of(binding_error(device, rhs, rhs_owned), binding_error(device, output, output_owned)),
    )
}

/// Checks that a context on `device` can bind the three operands of a dispatch; the
/// `*_owned` flags tell whether the context allocated each operand's storage.
pub fn vulkan_check_bindings<I>(
    device: Device,
    lhs: &Tensor<I>,
    lhs_owned: bool,
    rhs: &Tensor<I>,
    rhs_owned: bool,
    output: &Tensor<I>,
    output_owned: bool,
) -> (r: Result<(), VulkanError>)
    ensures
        match r {
            Ok(()) => bindings_error(device, lhs@, lhs_owned, rhs@, rhs_owned, output@, output_owned) is None,
            Err(e) => bindings_error(device, lhs@, lhs_owned, rhs@, rhs_owned, output@, output_owned) matches Some(
                v,
            ) && e@ == VulkanErrorView::Check(v),
        },
{
    lift(check_binding(device, lhs, lhs_owned))?;
    lift(check_binding(device, rhs, rhs_owned))?;
    lift(check_binding(device, output, output_owned))
}

/// Ticks between two readings of a timestamp counter with `valid_bits` significant
/// bits: their difference modulo `2^valid_bits`, so a counter that wrapped between the
/// readings still yields the ticks that passed.
pub open spec fn elapsed_ticks(start: u64, end: u64, valid_bits: nat) -> int {
    (end - start) % (pow2(valid_bits) as int)
}

/// Ticks between two timestamp readings of a counter with `valid_bits` (at most 64)
/// significant bits.
pub fn vulkan_elapsed_ticks(start: u64, end: u64, valid_bits: u32) -> (r: u64)
    requires
        valid_bits <= 64,
    ensures
        r == elapsed_ticks(start, end, valid_bits as nat),
{
    let diff = end.wrapping_sub(start);
    let ghost d: int = end - start;
    proof {
        lemma2_to64();
        lemma2_to64_rest();
    }
    if valid_bits == 64 {
        let r = diff & 18446744073709551615u64;
        assert(diff & 18446744073709551615u64 == diff) by (bit_vector);
        proof {
            if d < 0 {
                lemma_mod_multiples_vanish(1, d, pow2(64) as int);
            } else {
                lemma_mod_multiples_vanish(0, d, pow2(64) as int);
            }
        }
        return r;
    }
    let b = valid_bits as u64;
    proof {
        lemma_u64_pow2_no_overflow(b as nat);
        lemma_u64_shl_is_mul(1, b);
    }
    let mask = (1u64 << b) - 1;
    let r = diff & mask;
    proof {
        lemma_u64_low_bits_mask_is_mod(diff, b as nat);
    }
    proof {
        let p = pow2(b as nat) as int;
        let q = pow2((64 - b) as nat) as int;
        lemma_pow2_adds(b as nat, (64 - b) as nat);
        assert(p * q == pow2(64) as int);
        if d < 0 {
            lemma_mod_multiples_vanish(q, d, p);
            assert(diff == d + p * q);
        } else {
            lemma_mod_multiples_vanish(0, d, p);
        }
    }
    r
}

/// What the backend reads of a queue family.
#[derive(Debug, Clone, Copy, PartialEq, Eq, Structural)]
pub struct QueueFamilyCaps {
    pub compute: bool,
    pub graphics: bool,
}

/// A compute family; with `dedicated`, one without graphics.
pub open spec fn family_fits(family: QueueFamilyCaps, dedicated: bool) -> bool {
    family.compute && (!dedicated || !family.graphics)
}

/// `i` is the first family that fits.
pub open spec fn is_first_fit(families: Seq<QueueFamilyCaps>, dedicated: bool, i: int) -> bool {
    &&& 0 <= i < families.len()
    &&& family_fits(families[i], dedicated)
    &&& forall|j: int| 0 <= j < i ==> !family_fits(#[trigger] families[j], dedicated)
}

/// Some family fits.
pub open spec fn some_fit(families: Seq<QueueFamilyCaps>, dedicated: bool) -> bool {
    exists|i: int| 0 <= i < families.len() && family_fits(#[trigger] families[i], dedicated)
}

/// The queue family a context uses: the first compute family without graphics,
/// else the first compute family.
pub open spec fn chosen_family(families: Seq<QueueFamilyCaps>) -> Option<int> {
    if some_fit(families, true) {
        Some(choose|i: int| is_first_fit(families, true, i))
    } else if some_fit(families, false) {
        Some(choose|i: int| is_first_fit(families, false, i))
    } else {
        None
    }
}

fn first_fit(families: &[QueueFamilyCaps], dedicated: bool) -> (r: Option<usize>)
    ensures
        match r {
            Some(i) => is_first_fit(families@, dedicated, i as int),
            None => !some_fit(families@, dedicated),
        },
{
    let mut i: usize = 0;
    while i < families.len()
        invariant
            i <= families@.len(),
            forall|j: int| 0 <= j < i ==> !family_fits(#[trigger] families@[j], dedicated),
        decreases families@.len() - i,
    {
        let family = families[i];
        if family.compute && (!dedicated || !family.graphics) {
            return Some(i);
        }
        i = i + 1;
    }
    None
}

proof fn lemma_first_fit_unique(families: Seq<QueueFamilyCaps>, dedicated: bool, i: int, j: int)
    requires
        is_first_fit(families, dedicated, i),
        is_first_fit(families, dedicated, j),
    ensures
        i == j,
{
    if i < j {
        assert(!family_fits(families[i], dedicated));
    } else if j < i {
        assert(!family_fits(families[j], dedicated));
    }
}

/// Picks the queue family for compute work: the first compute-only family, else the
/// first family with compute; `None` when no family has compute.
pub fn vulkan_compute_queue_family(families: &[QueueFamilyCaps]) -> (r: Option<usize>)
    ensures
        match r {
            Some(i) => chosen_family(families@) == Some(i as int),
            None => chosen_family(families@) is None,
        },
{
    match first_fit(families, true) {
        Some(i) => {
            proof {
                let c = choose|k: int| is_first_fit(families@, true, k);
                lemma_first_fit_unique(families@, true, i as int, c);
            }
            Some(i)
        },
        None => match first_fit(families, false) {
            Some(i) => {
                proof {
                    let c = choose|k: int| is_first_fit(families@, false, k);
                    lemma_first_fit_unique(families@, false, i as int, c);
                }
                Some(i)
            },
            None => None,
        },
    }
}

/// Capabilities a device needs for the cooperative-matrix shader, with the
/// subgroup sizes it reports (if any).
#[derive(Debug, Clone, Copy, PartialEq, Eq, Structural)]
pub struct CooperativeMatrixCaps {
    pub khr_cooperative_matrix: bool,
    pub cooperative_matrix: bool,
    pub shader_float16: bool,
    pub uniform_and_storage_buffer16_bit_access: bool,
    pub vulkan_memory_model: bool,
    pub vulkan_memory_model_device_scope: bool,
    pub subgroup_size_control: bool,
    pub compute_subgroup_size_required: bool,
    pub min_subgroup_size: Option<u32>,
    pub max_subgroup_size: Option<u32>,
}

/// The extension, every feature the shader uses, a required subgroup size for
/// compute, and a subgroup-size range that contains 64.
pub open spec fn cooperative_matrix_usable(caps: CooperativeMatrixCaps) -> bool {
    &&& caps.khr_cooperative_matrix
    &&& caps.cooperative_matrix
    &&& caps.shader_float16
    &&& caps.uniform_and_storage_buffer16_bit_access
    &&& caps.vulkan_memory_model
    &&& caps.vulkan_memory_model_device_scope
    &&& caps.subgroup_size_control
    &&& caps.compute_subgroup_size_required
    &&& caps.min_subgroup_size matches Some(min) && min <= 64
    &&& caps.max_subgroup_size matches Some(max) && max >= 64
}

/// Whether a device with these capabilities runs the cooperative-matrix shader.
pub fn vulkan_supports_cooperative_matrix(caps: &CooperativeMatrixCaps) -> (r: bool)
    ensures
        r == cooperative_matrix_usable(*caps),
{
    let min_ok = match caps.min_subgroup_size {
        Some(min) => min <= 64,
        None => false,
    };
    let max_ok = match caps.max_subgroup_size {
        Some(max) => max >= 64,
        None => false,
    };
    caps.khr_cooperative_matrix && caps.cooperative_matrix && caps.shader_float16
        && caps.uniform_and_storage_buffer16_bit_access && caps.vulkan_memory_model
        && caps.vulkan_memory_model_device_scope && caps.subgroup_size_control
        && caps.compute_subgroup_size_required && min_ok && max_ok
}

/// Kind of a physical device, as its driver reports it.
#[derive(Debug, Clone, Copy, PartialEq, Eq, Structural)]
pub enum PhysicalDeviceKind {
    DiscreteGpu,
    IntegratedGpu,
    VirtualGpu,
    Cpu,
    Other,
    Unknown,
}

/// Preference of a device kind: discrete GPUs first, unknown kinds last.
pub open spec fn kind_rank(kind: PhysicalDeviceKind) -> nat {
    match kind {
        PhysicalDeviceKind::DiscreteGpu => 0,
        PhysicalDeviceKind::IntegratedGpu => 1,
        PhysicalDeviceKind::VirtualGpu => 2,
        PhysicalDeviceKind::Cpu => 3,
        PhysicalDeviceKind::Other => 4,
        PhysicalDeviceKind::Unknown => 5,
    }
}

fn device_kind_rank(kind: PhysicalDeviceKind) -> (r: u8)
    ensures
        r == kind_rank(kind),
{
    match kind {
        PhysicalDeviceKind::DiscreteGpu => 0,
        PhysicalDeviceKind::IntegratedGpu => 1,
        PhysicalDeviceKind::VirtualGpu => 2,
        PhysicalDeviceKind::Cpu => 3,
        PhysicalDeviceKind::Other => 4,
        PhysicalDeviceKind::Unknown => 5,
    }
}

/// What the backend reads of a physical device.
#[derive(Debug)]
pub struct PhysicalDeviceInfo {
    pub kind: PhysicalDeviceKind,
    pub queue_families: Vec<QueueFamilyCaps>,
}

/// A device a context can use: one with a compute queue family.
pub open spec fn is_candidate(device: PhysicalDeviceInfo) -> bool {
    chosen_family(device.queue_families@) is Some
}

/// Indices below `n` of the candidate devices, ascending.
pub open spec fn candidates(devices: Seq<PhysicalDeviceInfo>, n: int) -> Seq<usize>
    decreases n,
{
    if n <= 0 {
        seq![]
    } else if is_candidate(devices[n - 1]) {
        candidates(devices, n - 1).push((n - 1) as usize)
    } else {
        candidates(devices, n - 1)
    }
}

/// Indices below `n` of the candidate devices of preference `rank`, ascending.
pub open spec fn rank_class(devices: Seq<PhysicalDeviceInfo>, rank: nat, n: int) -> Seq<usize>
    decreases n,
{
    if n <= 0 {
        seq![]
    } else if is_candidate(devices[n - 1]) && kind_rank(devices[n - 1].kind) == rank {
        rank_class(devices, rank, n - 1).push((n - 1) as usize)
    } else {
        rank_class(devices, rank, n - 1)
    }
}

/// The candidates below `n` of preference below `rank`: by preference, then by index.
pub open spec fn ranks_below(devices: Seq<PhysicalDeviceInfo>, rank: nat, n: int) -> Seq<usize>
    decreases rank,
{
    if rank == 0 {
        seq![]
    } else {
        ranks_below(devices, (rank - 1) as nat, n) + rank_class(devices, (rank - 1) as nat, n)
    }
}

/// The order in which device ordinals name the candidates: by kind preference,
/// ties in enumeration order.
pub open spec fn device_order(devices: Seq<PhysicalDeviceInfo>) -> Seq<usize> {
    ranks_below(devices, 6, devices.len() as int)
}

proof fn lemma_rank_class_step(devices: Seq<PhysicalDeviceInfo>, rank: nat, n: int)
    requires
        0 <= n < devices.len(),
    ensures
        rank_class(devices, rank, n + 1).len() == rank_class(devices, rank, n).len() + if is_candidate(
            devices[n],
        ) && kind_rank(devices[n].kind) == rank {
            1int
        } else {
            0int
        },
{
}

proof fn lemma_ranks_below_step(devices: Seq<PhysicalDeviceInfo>, rank: nat, n: int)
    requires
        0 <= n < devices.len(),
    ensures
        ranks_below(devices, rank, n + 1).len() == ranks_below(devices, rank, n).len() + if is_candidate(
            devices[n],
        ) && kind_rank(devices[n].kind) < rank {
            1int
        } else {
            0int
        },
    decreases rank,
{
    if rank > 0 {
        lemma_ranks_below_step(devices, (rank - 1) as nat, n);
        lemma_rank_class_step(devices, (rank - 1) as nat, n);
    }
}

/// Every candidate takes exactly one place in the device order.
proof fn lemma_order_len(devices: Seq<PhysicalDeviceInfo>, n: int)
    requires
        0 <= n <= devices.len(),
    ensures
        ranks_below(devices, 6, n).len() == candidates(devices, n).len(),
    decreases n,
{
    if n == 0 {
        assert(ranks_below(devices, 0, 0).len() == 0);
        assert(ranks_below(devices, 6, 0).len() == 0) by {
            reveal_with_fuel(ranks_below, 7);
        }
    } else {
        lemma_order_len(devices, n - 1);
        lemma_ranks_below_step(devices, 6, n - 1);
    }
}

/// The candidate devices in ordinal order: by kind preference, ties in enumeration
/// order.
pub fn vulkan_device_order(devices: &[PhysicalDeviceInfo]) -> (r: Vec<usize>)
    ensures
        r@ == device_order(devices@),
        r@.len() == candidates(devices@, devices@.len() as int).len(),
{
    let n = devices.len();
    let mut usable: Vec<bool> = Vec::new();
    let mut i: usize = 0;
    while i < n
        invariant
            n == devices@.len(),
            i <= n,
            usable@.len() == i,
            forall|j: int| 0 <= j < i ==> usable@[j] == is_candidate(#[trigger] devices@[j]),
        decreases n - i,
    {
        let family = vulkan_compute_queue_family(devices[i].queue_families.as_slice());
        usable.push(family.is_some());
        i = i + 1;
    }
    let mut order: Vec<usize> = Vec::new();
    let mut rank: u8 = 0;
    while rank < 6
        invariant
            n == devices@.len(),
            usable@.len() == n,
            forall|j: int| 0 <= j < n ==> usable@[j] == is_candidate(#[trigger] devices@[j]),
            rank <= 6,
            order@ == ranks_below(devices@, rank as nat, n as int),
        decreases 6 - rank,
    {
        let mut k: usize = 0;
        while k < n
            invariant
                n == devices@.len(),
                usable@.len() == n,
                forall|j: int| 0 <= j < n ==> usable@[j] == is_candidate(#[trigger] devices@[j]),
                rank < 6,
                k <= n,
                order@ == ranks_below(devices@, rank as nat, n as int) + rank_class(
                    devices@,
                    rank as nat,
                    k as int,
                ),
            decreases n - k,
        {
            if usable[k] && device_kind_rank(devices[k].kind) == rank {
                order.push(k);
            }
            k = k + 1;
        }
        rank = rank + 1;
    }
    proof {
        lemma_order_len(devices@, n as int);
    }
    order
}

/// The physical device and queue family a context opens.
#[derive(Debug, Clone, Copy, PartialEq, Eq, Structural)]
pub struct DeviceChoice {
    pub device_index: usize,
    pub queue_family_index: usize,
}

/// Decision of opening Vulkan device `ordinal`: the `ordinal`-th candidate in device
/// order, on its chosen queue family.
pub open spec fn device_choice(devices: Seq<PhysicalDeviceInfo>, ordinal: u32) -> Result<
    DeviceChoice,
    VulkanErrorView,
> {
    let order = device_order(devices);
    let available = candidates(devices, devices.len() as int).len();
    if available == 0 {
        Err(VulkanErrorView::NoComputeDevice)
    } else if ordinal >= available {
        Err(VulkanErrorView::DeviceUnavailable { ordinal, available: available as usize })
    } else {
        let d = order[ordinal as int];
        Ok(
            DeviceChoice {
                device_index: d,
                queue_family_index: chosen_family(devices[d as int].queue_families@)->0 as usize,
            },
        )
    }
}

/// Chooses the physical device and queue family for Vulkan device `ordinal`.
pub fn vulkan_select_device(devices: &[PhysicalDeviceInfo], ordinal: u32) -> (r: Result<
    DeviceChoice,
    VulkanError,
>)
    ensures
        match r {
            Ok(c) => device_choice(devices@, ordinal) == Ok::<DeviceChoice, VulkanErrorView>(c),
            Err(e) => device_choice(devices@, ordinal) == Err::<DeviceChoice, VulkanErrorView>(e@),
        },
{
    let order = vulkan_device_order(devices);
    let available = order.len();
    if available == 0 {
        return Err(VulkanError::NoComputeDevice);
    }
    if ordinal as usize >= available {
        return Err(VulkanError::DeviceUnavailable { ordinal, available });
    }
    let d = order[ordinal as usize];
    let total = devices.len();
    proof {
        lemma_order_members(devices@, 6, devices@.len() as int, ordinal as int);
    }
    match vulkan_compute_queue_family(devices[d].queue_families.as_slice()) {
        Some(family) => Ok(DeviceChoice { device_index: d, queue_family_index: family }),
        None => vstd::pervasive::unreached(),
    }
}

/// Every entry of the device order below `n` is a candidate below `n`.
proof fn lemma_order_members(devices: Seq<PhysicalDeviceInfo>, rank: nat, n: int, i: int)
    requires
        0 <= n <= devices.len() <= usize::MAX,
        0 <= i < ranks_below(devices, rank, n).len(),
    ensures
        0 <= ranks_below(devices, rank, n)[i] < n,
        is_candidate(devices[ranks_below(devices, rank, n)[i] as int]),
        kind_rank(devices[ranks_below(devices, rank, n)[i] as int].kind) < rank,
    decreases rank,
{
    let prev = ranks_below(devices, (rank - 1) as nat, n);
    if i < prev.len() {
        lemma_order_members(devices, (rank - 1) as nat, n, i);
    } else {
        lemma_class_members(devices, (rank - 1) as nat, n, i - prev.len());
    }
}

proof fn lemma_class_members(devices: Seq<PhysicalDeviceInfo>, rank: nat, n: int, i: int)
    requires
        0 <= n <= devices.len() <= usize::MAX,
        0 <= i < rank_class(devices, rank, n).len(),
    ensures
        0 <= rank_class(devices, rank, n)[i] < n,
        is_candidate(devices[rank_class(devices, rank, n)[i] as int]),
        kind_rank(devices[rank_class(devices, rank, n)[i] as int].kind) == rank,
    decreases n,
{
    if n > 0 {
        let prev = rank_class(devices, rank, n - 1);
        if i < prev.len() {
            lemma_class_members(devices, rank, n - 1, i);
        }
    }
}

proof fn lemma_class_ascending(devices: Seq<PhysicalDeviceInfo>, rank: nat, n: int, i: int, j: int)
    requires
        0 <= n <= devices.len() <= usize::MAX,
        0 <= i < j < rank_class(devices, rank, n).len(),
    ensures
        rank_class(devices, rank, n)[i] < rank_class(devices, rank, n)[j],
    decreases n,
{
    let prev = rank_class(devices, rank, n - 1);
    if j < prev.len() {
        lemma_class_ascending(devices, rank, n - 1, i, j);
    } else {
        lemma_class_members(devices, rank, n - 1, i);
    }
}

proof fn lemma_ranks_below_ordered(devices: Seq<PhysicalDeviceInfo>, rank: nat, n: int, i: int, j: int)
    requires
        0 <= n <= devices.len() <= usize::MAX,
        0 <= i < j < ranks_below(devices, rank, n).len(),
    ensures
        ({
            let a = ranks_below(devices, rank, n)[i] as int;
            let b = ranks_below(devices, rank, n)[j] as int;
            kind_rank(devices[a].kind) < kind_rank(devices[b].kind) || (kind_rank(devices[a].kind)
                == kind_rank(devices[b].kind) && a < b)
        }),
    decreases rank,
{
    let r = (rank - 1) as nat;
    let prev = ranks_below(devices, r, n);
    if j < prev.len() {
        lemma_ranks_below_ordered(devices, r, n, i, j);
    } else if i < prev.len() {
        lemma_order_members(devices, r, n, i);
        lemma_class_members(devices, r, n, j - prev.len());
    } else {
        lemma_class_members(devices, r, n, i - prev.len());
        lemma_class_members(devices, r, n, j - prev.len());
        lemma_class_ascending(devices, r, n, i - prev.len(), j - prev.len());
    }
}

/// Device ordinals name the candidate devices (those with a compute queue family),
/// each once, by kind preference (discrete, integrated, virtual, CPU, other, unknown)
/// and, within a kind, in enumeration order.
pub proof fn lemma_device_order_is_stable_preference_order(devices: Seq<PhysicalDeviceInfo>)
    requires
        devices.len() <= usize::MAX,
    ensures
        device_order(devices).len() == candidates(devices, devices.len() as int).len(),
        forall|i: int|
            0 <= i < device_order(devices).len() ==> {
                let d = #[trigger] device_order(devices)[i] as int;
                0 <= d < devices.len() && is_candidate(devices[d])
            },
        forall|i: int, j: int|
            0 <= i < j < device_order(devices).len() ==> {
                let a = #[trigger] device_order(devices)[i] as int;
                let b = #[trigger] device_order(devices)[j] as int;
                kind_rank(devices[a].kind) < kind_rank(devices[b].kind) || (kind_rank(devices[a].kind)
                    == kind_rank(devices[b].kind) && a < b)
            },
{
    let n = devices.len() as int;
    lemma_order_len(devices, n);
    assert forall|i: int| 0 <= i < device_order(devices).len() implies {
        let d = #[trigger] device_order(devices)[i] as int;
        0 <= d < devices.len() && is_candidate(devices[d])
    } by {
        lemma_order_members(devices, 6, n, i);
    }
    assert forall|i: int, j: int| 0 <= i < j < device_order(devices).len() implies {
        let a = #[trigger] device_order(devices)[i] as int;
        let b = #[trigger] device_order(devices)[j] as int;
        kind_rank(devices[a].kind) < kind_rank(devices[b].kind) || (kind_rank(devices[a].kind)
            == kind_rank(devices[b].kind) && a < b)
    } by {
        lemma_ranks_below_ordered(devices, 6, n, i, j);
    }
}

/// The shape rule of the cooperative-matrix multiplication: with a supporting device,
/// well-typed `[m, k] x [k, n] -> [m, n]` operands and a non-empty output, the shape is
/// refused as unsupported exactly when `m` or `k` is not a multiple of 16 or `n` not a
/// multiple of 64; with those multiples and extents that fit `u32`, a dispatch is
/// always planned. Every dispatch carries `[m, n, k]` and a grid of 64-column by 16-row
/// workgroups that covers the output exactly.
pub proof fn lemma_cmma_shape_rule(
    supports_cooperative_matrix: bool,
    lhs: TensorView,
    rhs: TensorView,
    output: TensorView,
)
    ensures
        ({
            let r = vulkan_matmul_cmma_decision(supports_cooperative_matrix, lhs, rhs, output);
            let m = lhs.desc.dims[0];
            let k = lhs.desc.dims[1];
            let n = rhs.desc.dims[1];
            let divisible = m % 16 == 0 && n % 64 == 0 && k % 16 == 0;
            let well_typed = supports_cooperative_matrix && matrix_error("lhs", lhs, DType::F16) is None
                && matrix_error("rhs", rhs, DType::F16) is None && matrix_error(
                "output",
                output,
                DType::F32,
            ) is None && matmul_shape_error(lhs, rhs, output) is None;
            &&& r matches Err(VulkanErrorView::CooperativeMatrixShapeUnsupported { m: a, n: b, k: c }) ==> {
                &&& a == m
                &&& b == n
                &&& c == k
                &&& !divisible
            }
            &&& well_typed && output.desc.numel() != 0 ==> ((r matches Err(
                VulkanErrorView::CooperativeMatrixShapeUnsupported { .. },
            )) <==> !divisible)
            &&& well_typed && output.desc.numel() != 0 && divisible && m <= u32::MAX && n <= u32::MAX
                && k <= u32::MAX ==> (r matches Ok(Some(_)))
            &&& r matches Ok(Some(l)) ==> {
                &&& l.m == m
                &&& l.n == n
                &&& l.k == k
                &&& l.groups_x * 64 == n
                &&& l.groups_y * 16 == m
                &&& supports_cooperative_matrix
                &&& lhs.desc.encoding == Encoding::Plain(DType::F16)
                &&& rhs.desc.encoding == Encoding::Plain(DType::F16)
                &&& output.desc.encoding == Encoding::Plain(DType::F32)
                &&& rhs.desc.dims == seq![k, n]
                &&& output.desc.dims == seq![m, n]
            }
        }),
{
}

/// The documented preference among device kinds: discrete GPUs, then integrated GPUs,
/// virtual GPUs, CPU devices, other devices and devices of unknown kind.
pub proof fn lemma_kind_preference_chain()
    ensures
        kind_rank(PhysicalDeviceKind::DiscreteGpu) < kind_rank(PhysicalDeviceKind::IntegratedGpu),
        kind_rank(PhysicalDeviceKind::IntegratedGpu) < kind_rank(PhysicalDeviceKind::VirtualGpu),
        kind_rank(PhysicalDeviceKind::VirtualGpu) < kind_rank(PhysicalDeviceKind::Cpu),
        kind_rank(PhysicalDeviceKind::Cpu) < kind_rank(PhysicalDeviceKind::Other),
        kind_rank(PhysicalDeviceKind::Other) < kind_rank(PhysicalDeviceKind::Unknown),
{
}

/// Device kinds from most to least preferred.
pub open spec fn preferred_kinds() -> Seq<PhysicalDeviceKind> {
    seq![
        PhysicalDeviceKind::DiscreteGpu,
        PhysicalDeviceKind::IntegratedGpu,
        PhysicalDeviceKind::VirtualGpu,
        PhysicalDeviceKind::Cpu,
        PhysicalDeviceKind::Other,
        PhysicalDeviceKind::Unknown,
    ]
}

/// Device ordinals never put a less preferred kind before a more preferred one: a
/// device whose kind comes later in `preferred_kinds` (a CPU device, say) never
/// precedes one whose kind comes earlier (a virtual GPU) in the device order.
pub proof fn lemma_device_order_follows_preferred_kinds(devices: Seq<PhysicalDeviceInfo>)
    requires
        devices.len() <= usize::MAX,
    ensures
        forall|i: int, j: int, p: int, q: int|
            0 <= i < j < device_order(devices).len() && 0 <= p < q < 6 ==> !(
            devices[#[trigger] device_order(devices)[i] as int].kind == #[trigger] preferred_kinds()[q]
                && devices[#[trigger] device_order(devices)[j] as int].kind
                == #[trigger] preferred_kinds()[p]),
{
    lemma_device_order_is_stable_preference_order(devices);
    assert forall|x: int| 0 <= x < 6 implies kind_rank(#[trigger] preferred_kinds()[x]) == x by {
        if x == 0 {
        } else if x == 1 {
        } else if x == 2 {
        } else if x == 3 {
        } else if x == 4 {
        } else {
        }
    }
}

} // verus!
