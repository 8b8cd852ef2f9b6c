//! Decisions of the native ROCm/HIP backend: which calls are well formed and which
//! kernel launch each one leads to. The HIP runtime calls themselves stay outside.
use vstd::prelude::*;
use vstd::arithmetic::div_mod::lemma_div_by_multiple;
use crate::backend::{
    alias_error, check_plain_matrix, matrix_error, binding_error, check_binding, check_min_rank, check_not_aliased,
    check_plain_dtype, check_rank, check_shape, check_same_shape, min_rank_error,
    plain_dtype_error, rank_error, shape_error, TensorCheckError, TensorCheckErrorView,
};
use crate::reference::{epsilon_is_valid, f32_bits_finite_non_negative};
use crate::storage::StorageError;
use crate::tensor::{Tensor, TensorError, TensorView};
use crate::types::{
    dims_product, lemma_prefix_product_le, lemma_product_zero, DType, Device, Encoding, Layout,
    QuantFormat, RopeLayout, Shape, TensorDesc, TensorDescView,
};

verus! {

/// Bytes of the hipBLASLt workspace a context allocates on its first matrix multiplication.
pub const HIP_WORKSPACE_BYTES: usize = 33554432;

/// The hipBLASLt workspace of every context is 32 MiB.
pub proof fn lemma_hip_workspace_is_32_mib()
    ensures
        HIP_WORKSPACE_BYTES == 32 * 1024 * 1024,
{
}

/// Base alignment of HIP device allocations.
pub const HIP_STORAGE_ALIGNMENT: usize = 256;

/// Status value of a successful HIP runtime call.
pub const HIP_SUCCESS: i32 = 0;

/// Free and total memory of a HIP device.
#[derive(Debug, Clone, Copy, PartialEq, Eq, Structural)]
pub struct HipMemoryInfo {
    pub free_bytes: usize,
    pub total_bytes: usize,
}

#[allow(inconsistent_fields)]
#[derive(Debug)]
pub enum HipError {
    Runtime { operation: &'static str, status: i32 },
    BlasLt { operation: &'static str, status: i32, message: String },
    DeviceUnavailable { ordinal: u32, available: i32 },
    DeviceOrdinalTooLarge { ordinal: u32 },
    ByteLengthMismatch { expected: usize, actual: usize },
    UnsupportedEncoding { actual: Encoding },
    UnsupportedLayout { actual: Layout },
    DeviceMismatch { expected: Device, actual: Device },
    UnsupportedByteOffset { byte_offset: usize },
    WrongStorage,
    AliasedStorage { tensor: &'static str, other: &'static str },
    DTypeMismatch { tensor: &'static str, expected: DType, actual: DType },
    ShapeMismatch { tensor: &'static str, expected: Shape, actual: Shape },
    RankMismatch { tensor: &'static str, expected: usize, actual: usize },
    RankTooSmall { tensor: &'static str, minimum: usize, actual: usize },
    MatmulDimensionsTooLarge { m: usize, n: usize, k: usize },
    QuantizedLinearDimensionsTooLarge { rows: usize, output_features: usize, input_features: usize },
    RmsNormDimensionsTooLarge { rows: usize, hidden: usize },
    FusedAddRmsNormDimensionsTooLarge { rows: usize, hidden: usize },
    RopeDimensionsTooLarge { tokens: usize, heads: usize, head_dim: usize, rotary_dim: usize },
    InvalidRotaryDim { rotary_dim: usize, head_dim: usize },
    /// Epsilon, given by its IEEE-754 bits, was negative or not finite.
    InvalidEpsilon { epsilon_bits: u32 },
    StatePoisoned,
    Storage(StorageError),
    Tensor(TensorError),
}

/// Model of a HIP error: operand rejections are described by the shared check model.
#[allow(inconsistent_fields)]
pub enum HipErrorView {
    Check(TensorCheckErrorView),
    Runtime { operation: &'static str, status: i32 },
    BlasLt { operation: &'static str, status: i32, message: Seq<char> },
    DeviceUnavailable { ordinal: u32, available: i32 },
    DeviceOrdinalTooLarge { ordinal: u32 },
    ByteLengthMismatch { expected: usize, actual: usize },
    MatmulDimensionsTooLarge { m: usize, n: usize, k: usize },
    QuantizedLinearDimensionsTooLarge { rows: usize, output_features: usize, input_features: usize },
    RmsNormDimensionsTooLarge { rows: usize, hidden: usize },
    FusedAddRmsNormDimensionsTooLarge { rows: usize, hidden: usize },
    RopeDimensionsTooLarge { tokens: usize, heads: usize, head_dim: usize, rotary_dim: usize },
    InvalidRotaryDim { rotary_dim: usize, head_dim: usize },
    InvalidEpsilon { epsilon_bits: u32 },
    StatePoisoned,
    Storage(StorageError),
    Tensor(TensorError),
}

impl View for HipError {
    type V = HipErrorView;

    open spec fn view(&self) -> HipErrorView {
        match self {
            HipError::Runtime { operation, status } => HipErrorView::Runtime {
                operation: *operation,
                status: *status,
            },
            HipError::BlasLt { operation, status, message } => HipErrorView::BlasLt {
                operation: *operation,
                status: *status,
                message: message@,
            },
            HipError::DeviceUnavailable { ordinal, available } => HipErrorView::DeviceUnavailable {
                ordinal: *ordinal,
                available: *available,
            },
            HipError::DeviceOrdinalTooLarge { ordinal } => HipErrorView::DeviceOrdinalTooLarge {
                ordinal: *ordinal,
            },
            HipError::ByteLengthMismatch { expected, actual } => HipErrorView::ByteLengthMismatch {
                expected: *expected,
                actual: *actual,
            },
            HipError::UnsupportedEncoding { actual } => HipErrorView::Check(
                TensorCheckErrorView::UnsupportedEncoding { actual: *actual },
            ),
            HipError::UnsupportedLayout { actual } => HipErrorView::Check(
                TensorCheckErrorView::UnsupportedLayout { actual: actual@ },
            ),
            HipError::DeviceMismatch { expected, actual } => HipErrorView::Check(
                TensorCheckErrorView::DeviceMismatch { expected: *expected, actual: *actual },
            ),
            HipError::UnsupportedByteOffset { byte_offset } => HipErrorView::Check(
                TensorCheckErrorView::UnsupportedByteOffset { byte_offset: *byte_offset },
            ),
            HipError::WrongStorage => HipErrorView::Check(TensorCheckErrorView::WrongStorage),
            HipError::AliasedStorage { tensor, other } => HipErrorView::Check(
                TensorCheckErrorView::AliasedStorage { tensor: *tensor, other: *other },
            ),
            HipError::DTypeMismatch { tensor, expected, actual } => HipErrorView::Check(
                TensorCheckErrorView::DTypeMismatch {
                    tensor: *tensor,
                    expected: *expected,
                    actual: *actual,
                },
            ),
            HipError::ShapeMismatch { tensor, expected, actual } => HipErrorView::Check(
                TensorCheckErrorView::ShapeMismatch {
                    tensor: *tensor,
                    expected: expected@,
                    actual: actual@,
                },
            ),
            HipError::RankMismatch { tensor, expected, actual } => HipErrorView::Check(
                TensorCheckErrorView::RankMismatch {
                    tensor: *tensor,
                    expected: *expected,
                    actual: *actual,
                },
            ),
            HipError::RankTooSmall { tensor, minimum, actual } => HipErrorView::Check(
                TensorCheckErrorView::RankTooSmall {
                    tensor: *tensor,
                    minimum: *minimum,
                    actual: *actual,
                },
            ),
            HipError::MatmulDimensionsTooLarge { m, n, k } => HipErrorView::MatmulDimensionsTooLarge {
                m: *m,
                n: *n,
                k: *k,
            },
            HipError::QuantizedLinearDimensionsTooLarge { rows, output_features, input_features } => {
                HipErrorView::QuantizedLinearDimensionsTooLarge {
                    rows: *rows,
                    output_features: *output_features,
                    input_features: *input_features,
                }
            },
            HipError::RmsNormDimensionsTooLarge { rows, hidden } => {
                HipErrorView::RmsNormDimensionsTooLarge { rows: *rows, hidden: *hidden }
            },
            HipError::FusedAddRmsNormDimensionsTooLarge { rows, hidden } => {
                HipErrorView::FusedAddRmsNormDimensionsTooLarge { rows: *rows, hidden: *hidden }
            },
            HipError::RopeDimensionsTooLarge { tokens, heads, head_dim, rotary_dim } => {
                HipErrorView::RopeDimensionsTooLarge {
                    tokens: *tokens,
                    heads: *heads,
                    head_dim: *head_dim,
                    rotary_dim: *rotary_dim,
                }
            },
            HipError::InvalidRotaryDim { rotary_dim, head_dim } => HipErrorView::InvalidRotaryDim {
                rotary_dim: *rotary_dim,
                head_dim: *head_dim,
            },
            HipError::InvalidEpsilon { epsilon_bits } => HipErrorView::InvalidEpsilon {
                epsilon_bits: *epsilon_bits,
            },
            HipError::StatePoisoned => HipErrorView::StatePoisoned,
            HipError::Storage(e) => HipErrorView::Storage(*e),
            HipError::Tensor(e) => HipErrorView::Tensor(*e),
        }
    }
}

impl HipError {
    /// The HIP error reporting a rejected operand.
    pub fn from_check(e: TensorCheckError) -> (r: HipError)
        ensures
            r@ == HipErrorView::Check(e@),
    {
        match e {
            TensorCheckError::DTypeMismatch { tensor, expected, actual } => HipError::DTypeMismatch {
                tensor,
                expected,
                actual,
            },
            TensorCheckError::UnsupportedEncoding { actual } => HipError::UnsupportedEncoding {
                actual,
            },
            TensorCheckError::RankMismatch { tensor, expected, actual } => HipError::RankMismatch {
                tensor,
                expected,
                actual,
            },
            TensorCheckError::RankTooSmall { tensor, minimum, actual } => HipError::RankTooSmall {
                tensor,
                minimum,
                actual,
            },
            TensorCheckError::ShapeMismatch { tensor, expected, actual } => HipError::ShapeMismatch {
                tensor,
                expected,
                actual,
            },
            TensorCheckError::UnsupportedLayout { actual } => HipError::UnsupportedLayout { actual },
            TensorCheckError::DeviceMismatch { expected, actual } => HipError::DeviceMismatch {
                expected,
                actual,
            },
            TensorCheckError::UnsupportedByteOffset { byte_offset } => {
                HipError::UnsupportedByteOffset { byte_offset }
            },
            TensorCheckError::WrongStorage => HipError::WrongStorage,
            TensorCheckError::AliasedStorage { tensor, other } => HipError::AliasedStorage {
                tensor,
                other,
            },
        }
    }
}

/// Outcome of an operand check followed by the rest of a decision.
pub open spec fn check_then<T>(e: Option<TensorCheckErrorView>, rest: Result<T, HipErrorView>) -> Result<
    T,
    HipErrorView,
> {
    match e {
        Some(v) => Err(HipErrorView::Check(v)),
        None => rest,
    }
}

/// Converts the outcome of an operand check.
fn lift(r: Result<(), TensorCheckError>) -> (out: Result<(), HipError>)
    ensures
        match r {
            Ok(()) => out is Ok,
            Err(e) => out matches Err(h) && h@ == HipErrorView::Check(e@),
        },
{
    match r {
        Ok(()) => Ok(()),
        Err(e) => Err(HipError::from_check(e)),
    }
}

/// Translates a HIP runtime status.
pub fn check_hip(status: i32, operation: &'static str) -> (r: Result<(), HipError>)
    ensures
        status == HIP_SUCCESS ==> r is Ok,
        status != HIP_SUCCESS ==> (r matches Err(e) && e@ == (HipErrorView::Runtime {
            operation,
            status,
        })),
{
    if status == HIP_SUCCESS {
        Ok(())
    } else {
        Err(HipError::Runtime { operation, status })
    }
}

/// The HIP API ordinal of device `ordinal`, which must fit `i32`.
pub fn hip_device_ordinal(ordinal: u32) -> (r: Result<i32, HipError>)
    ensures
        ordinal <= i32::MAX ==> r == Ok::<i32, HipError>(ordinal as i32),
        ordinal > i32::MAX ==> (r matches Err(e) && e@ == (HipErrorView::DeviceOrdinalTooLarge {
            ordinal,
        })),
{
    if ordinal > 2147483647u32 {
        Err(HipError::DeviceOrdinalTooLarge { ordinal })
    } else {
        Ok(ordinal as i32)
    }
}

/// Checks that device `ordinal` (HIP ordinal `hip_ordinal`) is among the `available` ones.
pub fn hip_check_device_available(ordinal: u32, hip_ordinal: i32, available: i32) -> (r: Result<
    (),
    HipError,
>)
    ensures
        hip_ordinal < available ==> r is Ok,
        hip_ordinal >= available ==> (r matches Err(e) && e@ == (HipErrorView::DeviceUnavailable {
            ordinal,
            available,
        })),
{
    if hip_ordinal >= available {
        Err(HipError::DeviceUnavailable { ordinal, available })
    } else {
        Ok(())
    }
}

/// Bytes to allocate for a tensor described by `desc`; HIP accepts contiguous tensors only.
pub fn hip_allocation_size(desc: &TensorDesc) -> (r: Result<usize, HipError>)
    ensures
        desc@.is_contiguous() ==> (r matches Ok(n) && n == desc@.span_bytes()),
        !desc@.is_contiguous() ==> (r matches Err(e) && e@ == HipErrorView::Check(
            TensorCheckErrorView::UnsupportedLayout { actual: desc@.layout },
        )),
{
    if !desc.is_contiguous() {
        return Err(HipError::UnsupportedLayout { actual: desc.layout().clone() });
    }
    Ok(desc.required_span_bytes())
}

/// Bytes to allocate for uploading `bytes_len` bytes as a tensor described by `desc`:
/// the layout must be contiguous and the byte count must equal the tensor's span.
pub fn hip_upload_size(desc: &TensorDesc, bytes_len: usize) -> (r: Result<usize, HipError>)
    ensures
        !desc@.is_contiguous() ==> (r matches Err(e) && e@ == HipErrorView::Check(
            TensorCheckErrorView::UnsupportedLayout { actual: desc@.layout },
        )),
        desc@.is_contiguous() && bytes_len != desc@.span_bytes() ==> (r matches Err(e) && e@ matches
            HipErrorView::ByteLengthMismatch { expected, actual } && expected == desc@.span_bytes()
            && actual == bytes_len),
        desc@.is_contiguous() && bytes_len == desc@.span_bytes() ==> r == Ok::<usize, HipError>(
            bytes_len,
        ),
{
    let expected = match hip_allocation_size(desc) {
        Ok(n) => n,
        Err(e) => {
            return Err(e);
        },
    };
    if bytes_len != expected {
        return Err(HipError::ByteLengthMismatch { expected, actual: bytes_len });
    }
    Ok(expected)
}

/// A matrix multiplication to enqueue: `[m, k] x [k, n]`.
#[derive(Debug, Clone, Copy, PartialEq, Eq, Structural)]
pub struct MatmulLaunch {
    pub m: u64,
    pub n: u64,
    pub k: u64,
}

/// Decision of `matmul_f16_f32`: F16 `[m, k] x [k, n]` into F32 `[m, n]`. An empty
/// output needs no launch and is accepted before the operands' storage is looked at.
pub open spec fn hip_matmul_decision(
    device: Device,
    lhs: TensorView,
    lhs_owned: bool,
    rhs: TensorView,
    rhs_owned: bool,
    output: TensorView,
    output_owned: bool,
) -> Result<Option<MatmulLaunch>, HipErrorView> {
    let m = lhs.desc.dims[0];
    let k = lhs.desc.dims[1];
    let n = rhs.desc.dims[1];
    check_then(
        matrix_error("lhs", lhs, DType::F16),
        check_then(
            matrix_error("rhs", rhs, DType::F16),
            check_then(
                matrix_error("output", output, DType::F32),
                check_then(
                    shape_error("rhs", seq![k, n], rhs),
                    check_then(
                        shape_error("output", seq![m, n], output),
                        if output.desc.numel() == 0 {
                            Ok(None)
                        } else {
                            check_then(
                                binding_error(device, lhs, lhs_owned),
                                check_then(
                                    binding_error(device, rhs, rhs_owned),
                                    check_then(
                                        binding_error(device, output, output_owned),
                                        Ok(Some(MatmulLaunch { m: m as u64, n: n as u64, k: k as u64 })),
                                    ),
                                ),
                            )
                        },
                    ),
                ),
            ),
        ),
    )
}

fn check_matrix<I>(name: &'static str, t: &Tensor<I>, dtype: DType) -> (r: Result<(), HipError>)
    ensures
        match r {
            Ok(()) => matrix_error(name, t@, dtype) is None,
            Err(e) => matrix_error(name, t@, dtype) matches Some(v) && e@ == HipErrorView::Check(v),
        },
{
    lift(check_plain_matrix(name, t, dtype))
}

/// Decides a F16 x F16 matrix multiplication with F32 accumulation and output. The
/// `*_owned` flags tell whether this context allocated each operand's storage.
pub fn hip_matmul_plan<I>(
    device: Device,
    lhs: &Tensor<I>,
    lhs_owned: bool,
    rhs: &Tensor<I>,
    rhs_owned: bool,
    output: &Tensor<I>,
    output_owned: bool,
) -> (r: Result<Option<MatmulLaunch>, HipError>)
    ensures
        match r {
            Ok(plan) => hip_matmul_decision(device, lhs@, lhs_owned, rhs@, rhs_owned, output@, output_owned)
                == Ok::<Option<MatmulLaunch>, HipErrorView>(plan),
            Err(e) => hip_matmul_decision(device, lhs@, lhs_owned, rhs@, rhs_owned, output@, output_owned)
                == Err::<Option<MatmulLaunch>, HipErrorView>(e@),
        },
{
    check_matrix("lhs", lhs, DType::F16)?;
    check_matrix("rhs", rhs, DType::F16)?;
    check_matrix("output", output, DType::F32)?;
    let m = lhs.desc().shape().dims()[0];
    let k = lhs.desc().shape().dims()[1];
    let n = rhs.desc().shape().dims()[1];
    lift(check_shape("rhs", Shape::from_dims(vec![k, n]), rhs))?;
    lift(check_shape("output", Shape::from_dims(vec![m, n]), output))?;
    if output.desc().numel() == 0 {
        return Ok(None);
    }
    lift(check_binding(device, lhs, lhs_owned))?;
    lift(check_binding(device, rhs, rhs_owned))?;
    lift(check_binding(device, output, output_owned))?;
    Ok(Some(MatmulLaunch { m: m as u64, n: n as u64, k: k as u64 }))
}

/// Threads per block of the native normalization and rotary kernels.
pub const HIP_BLOCK_THREADS: u32 = 256;

/// Launch geometry of a row-wise normalization: a grid of `grid_blocks` blocks of
/// `HIP_BLOCK_THREADS` threads, one block per row of `hidden` elements.
#[derive(Debug, Clone, Copy, PartialEq, Eq, Structural)]
pub struct RowNormLaunch {
    pub rows: u64,
    pub hidden: u64,
    pub grid_blocks: u32,
}

/// Rows of a row-wise normalization over `desc`: its elements grouped by the last axis.
pub open spec fn norm_rows(desc: TensorDescView) -> nat {
    desc.numel() / (desc.dims.last() as nat)
}

/// The launch for a row-wise normalization over `desc`, once every operand is accepted:
/// none for an empty tensor, and at most one block per `u32` grid index.
pub open spec fn row_norm_launch(desc: TensorDescView, fused: bool) -> Result<
    Option<RowNormLaunch>,
    HipErrorView,
> {
    let hidden = desc.dims.last();
    let rows = norm_rows(desc);
    if desc.numel() == 0 {
        Ok(None)
    } else if rows > u32::MAX {
        if fused {
            Err(HipErrorView::FusedAddRmsNormDimensionsTooLarge { rows: rows as usize, hidden })
        } else {
            Err(HipErrorView::RmsNormDimensionsTooLarge { rows: rows as usize, hidden })
        }
    } else {
        Ok(Some(RowNormLaunch { rows: rows as u64, hidden: hidden as u64, grid_blocks: rows as u32 }))
    }
}

fn row_norm_plan(desc: &TensorDesc, fused: bool) -> (r: Result<Option<RowNormLaunch>, HipError>)
    requires
        desc@.dims.len() >= 1,
    ensures
        match r {
            Ok(plan) => row_norm_launch(desc@, fused) == Ok::<Option<RowNormLaunch>, HipErrorView>(
                plan,
            ),
            Err(e) => row_norm_launch(desc@, fused) == Err::<Option<RowNormLaunch>, HipErrorView>(
                e@,
            ),
        },
{
    let numel = desc.numel();
    if numel == 0 {
        return Ok(None);
    }
    let rank = desc.rank();
    let hidden = desc.shape().dims()[rank - 1];
    proof {
        if hidden == 0 {
            lemma_product_zero(desc@.dims, rank - 1);
        }
    }
    let rows = numel / hidden;
    if rows > 4294967295usize {
        if fused {
            return Err(HipError::FusedAddRmsNormDimensionsTooLarge { rows, hidden });
        } else {
            return Err(HipError::RmsNormDimensionsTooLarge { rows, hidden });
        }
    }
    Ok(Some(RowNormLaunch { rows: rows as u64, hidden: hidden as u64, grid_blocks: rows as u32 }))
}

fn check_plain<I>(name: &'static str, t: &Tensor<I>, dtype: DType) -> (r: Result<(), HipError>)
    ensures
        match r {
            Ok(()) => plain_dtype_error(name, t@, dtype) is None,
            Err(e) => plain_dtype_error(name, t@, dtype) matches Some(v) && e@ == HipErrorView::Check(v),
        },
{
    lift(check_plain_dtype(name, t, dtype))
}

fn check_epsilon(epsilon_bits: u32) -> (r: Result<(), HipError>)
    ensures
        f32_bits_finite_non_negative(epsilon_bits) ==> r is Ok,
        !f32_bits_finite_non_negative(epsilon_bits) ==> (r matches Err(e) && e@ == (HipErrorView::InvalidEpsilon {
            epsilon_bits,
        })),
{
    if epsilon_is_valid(epsilon_bits) {
        Ok(())
    } else {
        Err(HipError::InvalidEpsilon { epsilon_bits })
    }
}

/// Decision of `rms_norm_f16`: F16 `input` of rank >= 1 normalized per row of its last
/// axis, by a rank-1 F16 `weight` of that length, into an F16 `output` of the input's
/// shape; `epsilon` (by its IEEE-754 bits) must be finite and non-negative.
pub open spec fn hip_rms_norm_decision(
    device: Device,
    input: TensorView,
    input_owned: bool,
    weight: TensorView,
    weight_owned: bool,
    output: TensorView,
    output_owned: bool,
    epsilon_bits: u32,
) -> Result<Option<RowNormLaunch>, HipErrorView> {
    let hidden = input.desc.dims.last();
    check_then(
        plain_dtype_error("input", input, DType::F16),
        check_then(
            plain_dtype_error("weight", weight, DType::F16),
            check_then(
                plain_dtype_error("output", output, DType::F16),
                check_then(
                    min_rank_error("input", input, 1),
                    check_then(
                        rank_error("weight", weight, 1),
                        check_then(
                            shape_error("weight", seq![hidden], weight),
                            check_then(
                                shape_error("output", input.desc.dims, output),
                                if !f32_bits_finite_non_negative(epsilon_bits) {
                                    Err(HipErrorView::InvalidEpsilon { epsilon_bits })
                                } else {
                                    check_then(
                                        binding_error(device, input, input_owned),
                                        check_then(
                                            binding_error(device, weight, weight_owned),
                                            check_then(
                                                binding_error(device, output, output_owned),
                                                row_norm_launch(input.desc, false),
                                            ),
                                        ),
                                    )
                                },
                            ),
                        ),
                    ),
                ),
            ),
        ),
    )
}

/// Decides an F16 RMSNorm with F32 accumulation. The `*_owned` flags tell whether this
/// context allocated each operand's storage.
pub fn hip_rms_norm_plan<I>(
    device: Device,
    input: &Tensor<I>,
    input_owned: bool,
    weight: &Tensor<I>,
    weight_owned: bool,
    output: &Tensor<I>,
    output_owned: bool,
    epsilon_bits: u32,
) -> (r: Result<Option<RowNormLaunch>, HipError>)
    ensures
        match r {
            Ok(plan) => hip_rms_norm_decision(
                device,
                input@,
                input_owned,
                weight@,
                weight_owned,
                output@,
                output_owned,
                epsilon_bits,
            ) == Ok::<Option<RowNormLaunch>, HipErrorView>(plan),
            Err(e) => hip_rms_norm_decision(
                device,
                input@,
                input_owned,
                weight@,
                weight_owned,
                output@,
                output_owned,
                epsilon_bits,
            ) == Err::<Option<RowNormLaunch>, HipErrorView>(e@),
        },
{
    check_plain("input", input, DType::F16)?;
    check_plain("weight", weight, DType::F16)?;
    check_plain("output", output, DType::F16)?;
    lift(check_min_rank("input", input, 1))?;
    lift(check_rank("weight", weight, 1))?;
    let rank = input.desc().rank();
    let hidden = input.desc().shape().dims()[rank - 1];
    let weight_shape = Shape::from_dims(vec![hidden]);
    assert(weight_shape@ =~= seq![input@.desc.dims.last()]);
    lift(check_shape("weight", weight_shape, weight))?;
    lift(check_same_shape("output", input, output))?;
    check_epsilon(epsilon_bits)?;
    lift(check_binding(device, input, input_owned))?;
    lift(check_binding(device, weight, weight_owned))?;
    lift(check_binding(device, output, output_owned))?;
    row_norm_plan(input.desc(), false)
}

/// Decision of `fused_add_rms_norm_f16`: like RMSNorm, over `input + residual`, with the
/// sums published back into `residual`. `residual` and `output` have the input's shape;
/// `output` may alias `input` but not `residual`, and `weight` may alias neither result.
pub open spec fn hip_fused_add_rms_norm_decision(
    device: Device,
    input: TensorView,
    input_owned: bool,
    residual: TensorView,
    residual_owned: bool,
    weight: TensorView,
    weight_owned: bool,
    output: TensorView,
    output_owned: bool,
    epsilon_bits: u32,
) -> Result<Option<RowNormLaunch>, HipErrorView> {
    let hidden = input.desc.dims.last();
    check_then(
        plain_dtype_error("input", input, DType::F16),
        check_then(
            plain_dtype_error("residual", residual, DType::F16),
            check_then(
                plain_dtype_error("weight", weight, DType::F16),
                check_then(
                    plain_dtype_error("output", output, DType::F16),
                    check_then(
                        min_rank_error("input", input, 1),
                        check_then(
                            rank_error("weight", weight, 1),
                            check_then(
                                shape_error("weight", seq![hidden], weight),
                                check_then(
                                    shape_error("residual", input.desc.dims, residual),
                                    check_then(
                                        shape_error("output", input.desc.dims, output),
                                        if !f32_bits_finite_non_negative(epsilon_bits) {
                                            Err(HipErrorView::InvalidEpsilon { epsilon_bits })
                                        } else {
                                            check_then(
                                                binding_error(device, input, input_owned),
                                                check_then(
                                                    binding_error(device, residual, residual_owned),
                                                    check_then(
                                                        binding_error(device, weight, weight_owned),
                                                        check_then(
                                                            binding_error(device, output, output_owned),
                                                            check_then(
                                                                alias_error("output", output, "residual", residual),
                                                                check_then(
                                                                    alias_error("weight", weight, "output", output),
                                                                    check_then(
                                                                        alias_error(
                                                                            "weight",
                                                                            weight,
                                                                            "residual",
                                                                            residual,
                                                                        ),
                                                                        row_norm_launch(input.desc, true),
                                                                    ),
                                                                ),
                                                            ),
                                                        ),
                                                    ),
                                                ),
                                            )
                                        },
                                    ),
                                ),
                            ),
                        ),
                    ),
                ),
            ),
        ),
    )
}

/// Decides a fused F16 residual-add + RMSNorm with F32 accumulation. The `*_owned` flags
/// tell whether this context allocated each operand's storage.
pub fn hip_fused_add_rms_norm_plan<I>(
    device: Device,
    input: &Tensor<I>,
    input_owned: bool,
    residual: &Tensor<I>,
    residual_owned: bool,
    weight: &Tensor<I>,
    weight_owned: bool,
    output: &Tensor<I>,
    output_owned: bool,
    epsilon_bits: u32,
) -> (r: Result<Option<RowNormLaunch>, HipError>)
    ensures
        match r {
            Ok(plan) => hip_fused_add_rms_norm_decision(
                device,
                input@,
                input_owned,
                residual@,
                residual_owned,
                weight@,
                weight_owned,
                output@,
                output_owned,
                epsilon_bits,
            ) == Ok::<Option<RowNormLaunch>, HipErrorView>(plan),
            Err(e) => hip_fused_add_rms_norm_decision(
                device,
                input@,
                input_owned,
                residual@,
                residual_owned,
                weight@,
                weight_owned,
                output@,
                output_owned,
                epsilon_bits,
            ) == Err::<Option<RowNormLaunch>, HipErrorView>(e@),
        },
{
    check_plain("input", input, DType::F16)?;
    check_plain("residual", residual, DType::F16)?;
    check_plain("weight", weight, DType::F16)?;
    check_plain("output", output, DType::F16)?;
    lift(check_min_rank("input", input, 1))?;
    lift(check_rank("weight", weight, 1))?;
    let rank = input.desc().rank();
    let hidden = input.desc().shape().dims()[rank - 1];
    let weight_shape = Shape::from_dims(vec![hidden]);
    assert(weight_shape@ =~= seq![input@.desc.dims.last()]);
    lift(check_shape("weight", weight_shape, weight))?;
    lift(check_same_shape("residual", input, residual))?;
    lift(check_same_shape("output", input, output))?;
    check_epsilon(epsilon_bits)?;
    lift(check_binding(device, input, input_owned))?;
    lift(check_binding(device, residual, residual_owned))?;
    lift(check_binding(device, weight, weight_owned))?;
    lift(check_binding(device, output, output_owned))?;
    lift(check_not_aliased("output", output, "residual", residual))?;
    lift(check_not_aliased("weight", weight, "output", output))?;
    lift(check_not_aliased("weight", weight, "residual", residual))?;
    row_norm_plan(input.desc(), true)
}

/// Launch geometry of a rotary embedding: a grid of `grid_blocks` blocks of
/// `HIP_BLOCK_THREADS` threads, one block per (token, head) vector.
#[derive(Debug, Clone, Copy, PartialEq, Eq, Structural)]
pub struct RopeLaunch {
    pub grid_blocks: u32,
    pub tokens: u64,
    pub heads: u64,
    pub head_dim: u64,
    pub rotary_dim: u64,
    pub layout: RopeLayout,
}

/// Shape of the `cos` and `sin` caches: the leading (token) axes of the input, then
/// `rotary_dim / 2` frequencies.
pub open spec fn rope_cache_dims(dims: Seq<usize>, rotary_dim: usize) -> Seq<usize> {
    dims.take(dims.len() - 2).push((rotary_dim / 2) as usize)
}

/// Tokens of a rotary embedding: the product of the axes before `heads` and `head_dim`.
pub open spec fn rope_tokens(dims: Seq<usize>) -> nat {
    dims_product(dims.take(dims.len() - 2))
}

/// The launch for a rotary embedding over `desc`, once every operand is accepted: none
/// for an empty tensor, and at most one block per `u32` grid index.
pub open spec fn rope_launch(desc: TensorDescView, rotary_dim: usize, layout: RopeLayout) -> Result<
    Option<RopeLaunch>,
    HipErrorView,
> {
    let dims = desc.dims;
    let tokens = rope_tokens(dims);
    let heads = dims[dims.len() - 2];
    let head_dim = dims[dims.len() - 1];
    if desc.numel() == 0 {
        Ok(None)
    } else if tokens * heads > u32::MAX {
        Err(
            HipErrorView::RopeDimensionsTooLarge {
                tokens: tokens as usize,
                heads,
                head_dim,
                rotary_dim,
            },
        )
    } else {
        Ok(
            Some(
                RopeLaunch {
                    grid_blocks: (tokens * heads) as u32,
                    tokens: tokens as u64,
                    heads: heads as u64,
                    head_dim: head_dim as u64,
                    rotary_dim: rotary_dim as u64,
                    layout,
                },
            ),
        )
    }
}

fn rope_plan(desc: &TensorDesc, rotary_dim: usize, layout: RopeLayout) -> (r: Result<
    Option<RopeLaunch>,
    HipError,
>)
    requires
        desc@.dims.len() >= 2,
    ensures
        match r {
            Ok(plan) => rope_launch(desc@, rotary_dim, layout) == Ok::<Option<RopeLaunch>, HipErrorView>(
                plan,
            ),
            Err(e) => rope_launch(desc@, rotary_dim, layout) == Err::<Option<RopeLaunch>, HipErrorView>(
                e@,
            ),
        },
{
    let numel = desc.numel();
    if numel == 0 {
        return Ok(None);
    }
    let dims = desc.shape().dims();
    let rank = dims.len();
    proof {
        assert forall|j: int| 0 <= j < dims@.len() implies dims@[j] >= 1 by {
            if dims@[j] == 0 {
                lemma_product_zero(dims@, j);
            }
        }
    }
    let mut tokens: usize = 1;
    let mut i: usize = 0;
    while i < rank - 2
        invariant
            rank == dims@.len(),
            rank >= 2,
            i <= rank - 2,
            forall|j: int| 0 <= j < dims@.len() ==> dims@[j] >= 1,
            dims_product(dims@) == numel,
            tokens == dims_product(dims@.take(i as int)),
        decreases rank - 2 - i,
    {
        assert(dims@.take(i + 1).drop_last() =~= dims@.take(i as int));
        proof {
            lemma_prefix_product_le(dims@, i + 1);
        }
        tokens = tokens * dims[i];
        i = i + 1;
    }
    let heads = dims[rank - 2];
    let head_dim = dims[rank - 1];
    assert(dims@.take(rank - 1).drop_last() =~= dims@.take(rank - 2));
    proof {
        lemma_prefix_product_le(dims@, rank - 1);
    }
    let vectors = tokens * heads;
    if vectors > 4294967295usize {
        return Err(HipError::RopeDimensionsTooLarge { tokens, heads, head_dim, rotary_dim });
    }
    Ok(
        Some(
            RopeLaunch {
                grid_blocks: vectors as u32,
                tokens: tokens as u64,
                heads: heads as u64,
                head_dim: head_dim as u64,
                rotary_dim: rotary_dim as u64,
                layout,
            },
        ),
    )
}

fn rope_cache_shape(dims: &[usize], rotary_dim: usize) -> (r: Shape)
    requires
        dims@.len() >= 2,
    ensures
        r@ == rope_cache_dims(dims@, rotary_dim),
{
    let mut cache: Vec<usize> = Vec::new();
    let mut i: usize = 0;
    while i < dims.len() - 2
        invariant
            dims@.len() >= 2,
            i <= dims@.len() - 2,
            cache@ == dims@.take(i as int),
        decreases dims@.len() - 2 - i,
    {
        cache.push(dims[i]);
        i = i + 1;
        assert(cache@ =~= dims@.take(i as int));
    }
    cache.push(rotary_dim / 2);
    Shape::from_dims(cache)
}

/// Decision of `rope_f16`: F16 `input` of rank >= 2 (`[.., heads, head_dim]`), F32 `cos`
/// and `sin` caches of shape `rope_cache_dims`, into an F16 `output` of the input's
/// shape. `rotary_dim` must be even and at most `head_dim`.
pub open spec fn hip_rope_decision(
    device: Device,
    input: TensorView,
    input_owned: bool,
    cos: TensorView,
    cos_owned: bool,
    sin: TensorView,
    sin_owned: bool,
    output: TensorView,
    output_owned: bool,
    rotary_dim: usize,
    layout: RopeLayout,
) -> Result<Option<RopeLaunch>, HipErrorView> {
    let dims = input.desc.dims;
    let head_dim = dims[dims.len() - 1];
    let cache = rope_cache_dims(dims, rotary_dim);
    check_then(
        plain_dtype_error("input", input, DType::F16),
        check_then(
            plain_dtype_error("cos", cos, DType::F32),
            check_then(
                plain_dtype_error("sin", sin, DType::F32),
                check_then(
                    plain_dtype_error("output", output, DType::F16),
                    check_then(
                        min_rank_error("input", input, 2),
                        if rotary_dim % 2 != 0 || rotary_dim > head_dim {
                            Err(HipErrorView::InvalidRotaryDim { rotary_dim, head_dim })
                        } else {
                            check_then(
                                shape_error("output", dims, output),
                                check_then(
                                    shape_error("cos", cache, cos),
                                    check_then(
                                        shape_error("sin", cache, sin),
                                        check_then(
                                            binding_error(device, input, input_owned),
                                            check_then(
                                                binding_error(device, cos, cos_owned),
                                                check_then(
                                                    binding_error(device, sin, sin_owned),
                                                    check_then(
                                                        binding_error(device, output, output_owned),
                                                        rope_launch(input.desc, rotary_dim, layout),
                                                    ),
                                                ),
                                            ),
                                        ),
                                    ),
                                ),
                            )
                        },
                    ),
                ),
            ),
        ),
    )
}

/// Decides an F16 rotary position embedding with F32 `cos` / `sin` caches. The
/// `*_owned` flags tell whether this context allocated each operand's storage.
pub fn hip_rope_plan<I>(
    device: Device,
    input: &Tensor<I>,
    input_owned: bool,
    cos: &Tensor<I>,
    cos_owned: bool,
    sin: &Tensor<I>,
    sin_owned: bool,
    output: &Tensor<I>,
    output_owned: bool,
    rotary_dim: usize,
    layout: RopeLayout,
) -> (r: Result<Option<RopeLaunch>, HipError>)
    ensures
        match r {
            Ok(plan) => hip_rope_decision(
                device,
                input@,
                input_owned,
                cos@,
                cos_owned,
                sin@,
                sin_owned,
                output@,
                output_owned,
                rotary_dim,
                layout,
            ) == Ok::<Option<RopeLaunch>, HipErrorView>(plan),
            Err(e) => hip_rope_decision(
                device,
                input@,
                input_owned,
                cos@,
                cos_owned,
                sin@,
                sin_owned,
                output@,
                output_owned,
                rotary_dim,
                layout,
            ) == Err::<Option<RopeLaunch>, HipErrorView>(e@),
        },
{
    check_plain("input", input, DType::F16)?;
    check_plain("cos", cos, DType::F32)?;
    check_plain("sin", sin, DType::F32)?;
    check_plain("output", output, DType::F16)?;
    lift(check_min_rank("input", input, 2))?;
    let dims = input.desc().shape().dims();
    let rank = dims.len();
    let head_dim = dims[rank - 1];
    if rotary_dim % 2 != 0 || rotary_dim > head_dim {
        return Err(HipError::InvalidRotaryDim { rotary_dim, head_dim });
    }
    lift(check_same_shape("output", input, output))?;
    let cache = rope_cache_shape(dims, rotary_dim);
    lift(check_shape("cos", cache.clone(), cos))?;
    lift(check_shape("sin", cache, sin))?;
    lift(check_binding(device, input, input_owned))?;
    lift(check_binding(device, cos, cos_owned))?;
    lift(check_binding(device, sin, sin_owned))?;
    lift(check_binding(device, output, output_owned))?;
    rope_plan(input.desc(), rotary_dim, layout)
}

/// Launch geometry of a Q4_0 linear layer: a grid of `grid_blocks` blocks, one per
/// output element.
#[derive(Debug, Clone, Copy, PartialEq, Eq, Structural)]
pub struct QuantizedLinearLaunch {
    pub grid_blocks: u32,
    pub rows: u64,
    pub output_features: u64,
    pub input_features: u64,
}

/// Rejects weights that are not a Q4_0 matrix.
pub open spec fn q4_0_matrix_error(t: TensorView) -> Option<TensorCheckErrorView> {
    if t.desc.encoding != Encoding::Quantized(QuantFormat::Q4_0) {
        Some(TensorCheckErrorView::UnsupportedEncoding { actual: t.desc.encoding })
    } else {
        rank_error("weights", t, 2)
    }
}

/// Decision of `quantized_linear_q4_0_f16`: F16 `input` `[rows, input_features]` times
/// the transpose of Q4_0 `weights` `[output_features, input_features]` into F16 `output`
/// `[rows, output_features]`, which may alias neither input. One block runs per output
/// element, so their count must fit a `u32` grid; an empty output needs no launch.
pub open spec fn hip_quantized_linear_decision(
    device: Device,
    input: TensorView,
    input_owned: bool,
    weights: TensorView,
    weights_owned: bool,
    output: TensorView,
    output_owned: bool,
) -> Result<Option<QuantizedLinearLaunch>, HipErrorView> {
    let rows = input.desc.dims[0];
    let input_features = input.desc.dims[1];
    let output_features = weights.desc.dims[0];
    check_then(
        matrix_error("input", input, DType::F16),
        check_then(
            q4_0_matrix_error(weights),
            check_then(
                matrix_error("output", output, DType::F16),
                check_then(
                    shape_error("weights", seq![output_features, input_features], weights),
                    check_then(
                        shape_error("output", seq![rows, output_features], output),
                        check_then(
                            binding_error(device, input, input_owned),
                            check_then(
                                binding_error(device, weights, weights_owned),
                                check_then(
                                    binding_error(device, output, output_owned),
                                    check_then(
                                        alias_error("output", output, "input", input),
                                        check_then(
                                            alias_error("output", output, "weights", weights),
                                            if rows * output_features > u32::MAX {
                                                Err(
                                                    HipErrorView::QuantizedLinearDimensionsTooLarge {
                                                        rows,
                                                        output_features,
                                                        input_features,
                                                    },
                                                )
                                            } else if rows * output_features == 0 {
                                                Ok(None)
                                            } else {
                                                Ok(
                                                    Some(
                                                        QuantizedLinearLaunch {
                                                            grid_blocks: (rows * output_features) as u32,
                                                            rows: rows as u64,
                                                            output_features: output_features as u64,
                                                            input_features: input_features as u64,
                                                        },
                                                    ),
                                                )
                                            },
                                        ),
                                    ),
                                ),
                            ),
                        ),
                    ),
                ),
            ),
        ),
    )
}

fn check_q4_0_matrix<I>(t: &Tensor<I>) -> (r: Result<(), HipError>)
    ensures
        match r {
            Ok(()) => q4_0_matrix_error(t@) is None,
            Err(e) => q4_0_matrix_error(t@) matches Some(v) && e@ == HipErrorView::Check(v),
        },
{
    let actual = *t.desc().encoding();
    match actual {
        Encoding::Quantized(QuantFormat::Q4_0) => {},
        _ => {
            return Err(HipError::UnsupportedEncoding { actual });
        },
    }
    lift(check_rank("weights", t, 2))
}

/// Decides an F16 by Q4_0 linear layer with F32 accumulation. The `*_owned` flags tell
/// whether this context allocated each operand's storage.
pub fn hip_quantized_linear_plan<I>(
    device: Device,
    input: &Tensor<I>,
    input_owned: bool,
    weights: &Tensor<I>,
    weights_owned: bool,
    output: &Tensor<I>,
    output_owned: bool,
) -> (r: Result<Option<QuantizedLinearLaunch>, HipError>)
    ensures
        match r {
            Ok(plan) => hip_quantized_linear_decision(
                device,
                input@,
                input_owned,
                weights@,
                weights_owned,
                output@,
                output_owned,
            ) == Ok::<Option<QuantizedLinearLaunch>, HipErrorView>(plan),
            Err(e) => hip_quantized_linear_decision(
                device,
                input@,
                input_owned,
                weights@,
                weights_owned,
                output@,
                output_owned,
            ) == Err::<Option<QuantizedLinearLaunch>, HipErrorView>(e@),
        },
{
    check_matrix("input", input, DType::F16)?;
    check_q4_0_matrix(weights)?;
    check_matrix("output", output, DType::F16)?;
    let rows = input.desc().shape().dims()[0];
    let input_features = input.desc().shape().dims()[1];
    let output_features = weights.desc().shape().dims()[0];
    lift(check_shape("weights", Shape::from_dims(vec![output_features, input_features]), weights))?;
    lift(check_shape("output", Shape::from_dims(vec![rows, output_features]), output))?;
    lift(check_binding(device, input, input_owned))?;
    lift(check_binding(device, weights, weights_owned))?;
    lift(check_binding(device, output, output_owned))?;
    lift(check_not_aliased("output", output, "input", input))?;
    lift(check_not_aliased("output", output, "weights", weights))?;
    let grid = match rows.checked_mul(output_features) {
        Some(g) => g,
        None => {
            return Err(
                HipError::QuantizedLinearDimensionsTooLarge { rows, output_features, input_features },
            );
        },
    };
    if grid > 4294967295usize {
        return Err(
            HipError::QuantizedLinearDimensionsTooLarge { rows, output_features, input_features },
        );
    }
    if grid == 0 {
        return Ok(None);
    }
    Ok(
        Some(
            QuantizedLinearLaunch {
                grid_blocks: grid as u32,
                rows: rows as u64,
                output_features: output_features as u64,
                input_features: input_features as u64,
            },
        ),
    )
}

/// `output` may share its allocation with `input` in a fused add + RMSNorm: two
/// outputs that differ only in their allocation, neither shared with `residual` or
/// `weight`, are decided alike, so an output in `input`'s allocation is decided as a
/// fresh one.
pub proof fn lemma_fused_output_may_alias_input(
    device: Device,
    input: TensorView,
    input_owned: bool,
    residual: TensorView,
    residual_owned: bool,
    weight: TensorView,
    weight_owned: bool,
    output: TensorView,
    other_output: TensorView,
    output_owned: bool,
    epsilon_bits: u32,
)
    requires
        other_output.desc == output.desc,
        other_output.byte_offset == output.byte_offset,
        other_output.storage.device == output.storage.device,
        output.storage.id != residual.storage.id,
        output.storage.id != weight.storage.id,
        other_output.storage.id != residual.storage.id,
        other_output.storage.id != weight.storage.id,
    ensures
        hip_fused_add_rms_norm_decision(
            device,
            input,
            input_owned,
            residual,
            residual_owned,
            weight,
            weight_owned,
            output,
            output_owned,
            epsilon_bits,
        ) == hip_fused_add_rms_norm_decision(
            device,
            input,
            input_owned,
            residual,
            residual_owned,
            weight,
            weight_owned,
            other_output,
            output_owned,
            epsilon_bits,
        ),
{
}

/// A rotary embedding may run in place: the decision never depends on which
/// allocation `output` lives in, so `output` may be `input` itself.
pub proof fn lemma_rope_output_may_alias_input(
    device: Device,
    input: TensorView,
    input_owned: bool,
    cos: TensorView,
    cos_owned: bool,
    sin: TensorView,
    sin_owned: bool,
    output: TensorView,
    other_output: TensorView,
    output_owned: bool,
    rotary_dim: usize,
    layout: RopeLayout,
)
    requires
        other_output.desc == output.desc,
        other_output.byte_offset == output.byte_offset,
        other_output.storage.device == output.storage.device,
    ensures
        hip_rope_decision(
            device,
            input,
            input_owned,
            cos,
            cos_owned,
            sin,
            sin_owned,
            output,
            output_owned,
            rotary_dim,
            layout,
        ) == hip_rope_decision(
            device,
            input,
            input_owned,
            cos,
            cos_owned,
            sin,
            sin_owned,
            other_output,
            output_owned,
            rotary_dim,
            layout,
        ),
{
}

/// `input` may share its allocation with `residual` (or with `output`) in a fused add
/// + RMSNorm: the decision never depends on which allocation `input` lives in.
pub proof fn lemma_fused_input_may_alias_residual(
    device: Device,
    input: TensorView,
    other_input: TensorView,
    input_owned: bool,
    residual: TensorView,
    residual_owned: bool,
    weight: TensorView,
    weight_owned: bool,
    output: TensorView,
    output_owned: bool,
    epsilon_bits: u32,
)
    requires
        other_input.desc == input.desc,
        other_input.byte_offset == input.byte_offset,
        other_input.storage.device == input.storage.device,
    ensures
        hip_fused_add_rms_norm_decision(
            device,
            input,
            input_owned,
            residual,
            residual_owned,
            weight,
            weight_owned,
            output,
            output_owned,
            epsilon_bits,
        ) == hip_fused_add_rms_norm_decision(
            device,
            other_input,
            input_owned,
            residual,
            residual_owned,
            weight,
            weight_owned,
            output,
            output_owned,
            epsilon_bits,
        ),
{
}

/// The rows of a row-wise normalization are its flattened leading axes: with a
/// non-empty last axis, `rows` is the product of the other extents and
/// `rows * hidden` the element count.
pub proof fn lemma_norm_rows_flatten_leading_axes(desc: TensorDescView)
    requires
        desc.dims.len() >= 1,
        desc.dims.last() != 0,
    ensures
        norm_rows(desc) == dims_product(desc.dims.drop_last()),
        norm_rows(desc) * (desc.dims.last() as nat) == desc.numel(),
{
    let leading = dims_product(desc.dims.drop_last());
    let hidden = desc.dims.last() as nat;
    assert(desc.numel() == leading * hidden);
    lemma_div_by_multiple(leading as int, hidden as int);
}

/// A rotary embedding covers its whole input: `tokens * heads * head_dim` is the
/// element count, the leading axes flattening into the token count.
pub proof fn lemma_rope_vectors_cover_input(desc: TensorDescView)
    requires
        desc.dims.len() >= 2,
    ensures
        rope_tokens(desc.dims) * (desc.dims[desc.dims.len() - 2] as nat) * (desc.dims[desc.dims.len()
            - 1] as nat) == desc.numel(),
{
    let dims = desc.dims;
    let r = dims.len() as int;
    assert(dims.drop_last() =~= dims.take(r - 1));
    assert(dims.take(r - 1).drop_last() =~= dims.take(r - 2));
    assert(dims_product(dims) == dims_product(dims.take(r - 1)) * (dims[r - 1] as nat));
    assert(dims_product(dims.take(r - 1)) == dims_product(dims.take(r - 2)) * (dims[r - 2] as nat));
}

/// What a row-wise normalization launch covers: one block per row, every row
/// `hidden` (the last axis) long, and the rows are the leading axes flattened, so
/// `rows * hidden` is the element count of the input whatever its rank. An empty
/// input launches nothing.
proof fn lemma_row_norm_launch_covers_input(desc: TensorDescView, fused: bool)
    requires
        desc.dims.len() >= 1,
    ensures
        row_norm_launch(desc, fused) matches Ok(Some(l)) ==> {
            &&& l.rows == dims_product(desc.dims.drop_last())
            &&& l.hidden == desc.dims.last()
            &&& l.rows * l.hidden == desc.numel()
            &&& l.grid_blocks == l.rows
        },
        row_norm_launch(desc, fused) matches Ok(None) ==> desc.numel() == 0,
{
    if desc.numel() != 0 {
        if desc.dims.last() == 0 {
            lemma_product_zero(desc.dims, desc.dims.len() - 1);
        }
        lemma_norm_rows_flatten_leading_axes(desc);
    }
}

/// An accepted RMSNorm normalizes every row of its input: the launch has one block per
/// row, each row spans the last axis, and the row count is the product of all the
/// leading axes, so `rows * hidden` is the input's element count for every rank.
pub proof fn lemma_rms_norm_launch_counts_every_row(
    device: Device,
    input: TensorView,
    input_owned: bool,
    weight: TensorView,
    weight_owned: bool,
    output: TensorView,
    output_owned: bool,
    epsilon_bits: u32,
)
    ensures
        hip_rms_norm_decision(
            device,
            input,
            input_owned,
            weight,
            weight_owned,
            output,
            output_owned,
            epsilon_bits,
        ) matches Ok(Some(l)) ==> {
            &&& l.rows == dims_product(input.desc.dims.drop_last())
            &&& l.hidden == input.desc.dims.last()
            &&& l.rows * l.hidden == input.desc.numel()
            &&& l.grid_blocks == l.rows
            &&& weight.desc.dims == seq![input.desc.dims.last()]
            &&& output.desc.dims == input.desc.dims
        },
        hip_rms_norm_decision(
            device,
            input,
            input_owned,
            weight,
            weight_owned,
            output,
            output_owned,
            epsilon_bits,
        ) matches Ok(None) ==> input.desc.numel() == 0,
{
    if input.desc.dims.len() >= 1 {
        lemma_row_norm_launch_covers_input(input.desc, false);
    }
}

/// An accepted fused add + RMSNorm normalizes every row of its input: one block per
/// row, each row spanning the last axis, and `rows * hidden` the input's element count
/// for every rank.
pub proof fn lemma_fused_add_rms_norm_launch_counts_every_row(
    device: Device,
    input: TensorView,
    input_owned: bool,
    residual: TensorView,
    residual_owned: bool,
    weight: TensorView,
    weight_owned: bool,
    output: TensorView,
    output_owned: bool,
    epsilon_bits: u32,
)
    ensures
        hip_fused_add_rms_norm_decision(
            device,
            input,
            input_owned,
            residual,
            residual_owned,
            weight,
            weight_owned,
            output,
            output_owned,
            epsilon_bits,
        ) matches Ok(Some(l)) ==> {
            &&& l.rows == dims_product(input.desc.dims.drop_last())
            &&& l.hidden == input.desc.dims.last()
            &&& l.rows * l.hidden == input.desc.numel()
            &&& l.grid_blocks == l.rows
            &&& weight.desc.dims == seq![input.desc.dims.last()]
            &&& residual.desc.dims == input.desc.dims
            &&& output.desc.dims == input.desc.dims
        },
        hip_fused_add_rms_norm_decision(
            device,
            input,
            input_owned,
            residual,
            residual_owned,
            weight,
            weight_owned,
            output,
            output_owned,
            epsilon_bits,
        ) matches Ok(None) ==> input.desc.numel() == 0,
{
    if input.desc.dims.len() >= 1 {
        lemma_row_norm_launch_covers_input(input.desc, true);
    }
}

/// What a rotary launch covers: one block per (token, head) vector, and
/// `tokens * heads * head_dim` is the element count of the input.
proof fn lemma_rope_launch_covers_input(desc: TensorDescView, rotary_dim: usize, layout: RopeLayout)
    requires
        desc.dims.len() >= 2,
    ensures
        rope_launch(desc, rotary_dim, layout) matches Ok(Some(l)) ==> {
            &&& l.rotary_dim == rotary_dim
            &&& l.head_dim == desc.dims[desc.dims.len() - 1]
            &&& l.heads == desc.dims[desc.dims.len() - 2]
            &&& l.grid_blocks == l.tokens * l.heads
            &&& l.tokens * l.heads * l.head_dim == desc.numel()
            &&& l.layout == layout
        },
        rope_launch(desc, rotary_dim, layout) matches Ok(None) ==> desc.numel() == 0,
{
    let dims = desc.dims;
    let tokens = rope_tokens(dims);
    let heads = dims[dims.len() - 2] as nat;
    lemma_rope_vectors_cover_input(desc);
    if desc.numel() != 0 && tokens * heads <= u32::MAX {
        if heads == 0 {
            lemma_product_zero(dims, dims.len() - 2);
        }
        assert(tokens <= tokens * heads) by (nonlinear_arith)
            requires
                heads >= 1,
        ;
    }
}

/// The rotary-dimension rule of a rotary embedding: once the operands' types and the
/// input's rank are accepted, `InvalidRotaryDim` comes exactly when `rotary_dim` is odd
/// or exceeds `head_dim`, so every even `rotary_dim` up to and including `head_dim` gets
/// past it. An accepted launch rotates `rotary_dim` of each `head_dim`-long vector, has
/// one block per (token, head) vector, and covers every element of the input.
pub proof fn lemma_rope_rotary_dim_rule(
    device: Device,
    input: TensorView,
    input_owned: bool,
    cos: TensorView,
    cos_owned: bool,
    sin: TensorView,
    sin_owned: bool,
    output: TensorView,
    output_owned: bool,
    rotary_dim: usize,
    layout: RopeLayout,
)
    ensures
        ({
            let r = hip_rope_decision(
                device,
                input,
                input_owned,
                cos,
                cos_owned,
                sin,
                sin_owned,
                output,
                output_owned,
                rotary_dim,
                layout,
            );
            let dims = input.desc.dims;
            let head_dim = dims[dims.len() - 1];
            &&& r matches Err(HipErrorView::InvalidRotaryDim { rotary_dim: a, head_dim: h }) ==> {
                &&& a == rotary_dim
                &&& h == head_dim
                &&& (rotary_dim % 2 == 1 || rotary_dim > head_dim)
            }
            &&& (plain_dtype_error("input", input, DType::F16) is None
                && plain_dtype_error("cos", cos, DType::F32) is None
                && plain_dtype_error("sin", sin, DType::F32) is None
                && plain_dtype_error("output", output, DType::F16) is None
                && dims.len() >= 2) ==> ((r matches Err(HipErrorView::InvalidRotaryDim { .. })) <==> (
            rotary_dim % 2 == 1 || rotary_dim > head_dim))
            &&& r matches Ok(Some(l)) ==> {
                &&& dims.len() >= 2
                &&& l.rotary_dim == rotary_dim
                &&& l.head_dim == head_dim
                &&& l.heads == dims[dims.len() - 2]
                &&& rotary_dim % 2 == 0
                &&& rotary_dim <= head_dim
                &&& l.grid_blocks == l.tokens * l.heads
                &&& l.tokens * l.heads * l.head_dim == input.desc.numel()
                &&& l.layout == layout
                &&& output.desc.dims == dims
                &&& cos.desc.dims.len() == dims.len() - 1
                &&& sin.desc.dims == cos.desc.dims
                &&& cos.desc.dims[dims.len() - 2] == rotary_dim / 2
                &&& forall|i: int| 0 <= i < dims.len() - 2 ==> cos.desc.dims[i] == dims[i]
            }
            &&& r matches Ok(None) ==> input.desc.numel() == 0
        }),
{
    if input.desc.dims.len() >= 2 {
        lemma_rope_launch_covers_input(input.desc, rotary_dim, layout);
    }
}

} // verus!
