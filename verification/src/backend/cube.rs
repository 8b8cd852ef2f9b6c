//! Decisions of the portable CubeCL backend: which calls are well formed and which
//! launch each one leads to. The CubeCL runtime calls themselves stay outside.
use vstd::prelude::*;
use vstd::arithmetic::power2::is_pow2;
use crate::backend::{
    workgroups, binding_error, check_binding, check_plain_dtype, check_plain_matrix, check_same_shape,
    check_shape, contiguous_stride, matrix_error, plain_dtype_error, shape_error,
    TensorCheckError, TensorCheckErrorView,
};
use crate::storage::{is_power_of_two, StorageError};
use crate::tensor::{Tensor, TensorError, TensorView};
use crate::types::{
    dims_product, DType, Device, Encoding, Layout,
    Shape, TensorDesc, TensorDescView,
};

verus! {

/// Threads per cube of the vector-add kernel.
pub const CUBE_DIM: usize = 256;

#[allow(inconsistent_fields)]
#[derive(Debug)]
pub enum CubeError {
    DeviceMismatch { expected: Device, actual: Device },
    WrongStorageRuntime { expected_runtime: &'static str },
    UnsupportedEncoding { actual: Encoding },
    DTypeMismatch { tensor: &'static str, expected: DType, actual: DType },
    RankMismatch { tensor: &'static str, expected: usize, actual: usize },
    UnsupportedLayout { actual: Layout },
    ShapeMismatch { tensor: &'static str, expected: Shape, actual: Shape },
    UnsupportedByteOffset { byte_offset: usize },
    ByteLengthMismatch { expected: usize, actual: usize },
    LaunchGeometryOverflow { numel: usize },
    MatmulSetup { message: String },
    Storage(StorageError),
    Tensor(TensorError),
    StorageAlignTooLarge { align: u64 },
}

/// Model of a CubeCL error: operand rejections are described by the shared check model.
#[allow(inconsistent_fields)]
pub enum CubeErrorView {
    Check(TensorCheckErrorView),
    WrongStorageRuntime { expected_runtime: &'static str },
    ByteLengthMismatch { expected: usize, actual: usize },
    LaunchGeometryOverflow { numel: usize },
    MatmulSetup { message: Seq<char> },
    Storage(StorageError),
    Tensor(TensorError),
    StorageAlignTooLarge { align: u64 },
}

impl View for CubeError {
    type V = CubeErrorView;

    open spec fn view(&self) -> CubeErrorView {
        match self {
            CubeError::DeviceMismatch { expected, actual } => CubeErrorView::Check(
                TensorCheckErrorView::DeviceMismatch { expected: *expected, actual: *actual },
            ),
            CubeError::WrongStorageRuntime { expected_runtime } => {
                CubeErrorView::WrongStorageRuntime { expected_runtime: *expected_runtime }
            },
            CubeError::UnsupportedEncoding { actual } => CubeErrorView::Check(
                TensorCheckErrorView::UnsupportedEncoding { actual: *actual },
            ),
            CubeError::DTypeMismatch { tensor, expected, actual } => CubeErrorView::Check(
                TensorCheckErrorView::DTypeMismatch {
                    tensor: *tensor,
                    expected: *expected,
                    actual: *actual,
                },
            ),
            CubeError::RankMismatch { tensor, expected, actual } => CubeErrorView::Check(
                TensorCheckErrorView::RankMismatch {
                    tensor: *tensor,
                    expected: *expected,
                    actual: *actual,
                },
            ),
            CubeError::UnsupportedLayout { actual } => CubeErrorView::Check(
                TensorCheckErrorView::UnsupportedLayout { actual: actual@ },
            ),
            CubeError::ShapeMismatch { tensor, expected, actual } => CubeErrorView::Check(
                TensorCheckErrorView::ShapeMismatch {
                    tensor: *tensor,
                    expected: expected@,
                    actual: actual@,
                },
            ),
            CubeError::UnsupportedByteOffset { byte_offset } => CubeErrorView::Check(
                TensorCheckErrorView::UnsupportedByteOffset { byte_offset: *byte_offset },
            ),
            CubeError::ByteLengthMismatch { expected, actual } => CubeErrorView::ByteLengthMismatch {
                expected: *expected,
                actual: *actual,
            },
            CubeError::LaunchGeometryOverflow { numel } => CubeErrorView::LaunchGeometryOverflow {
                numel: *numel,
            },
            CubeError::MatmulSetup { message } => CubeErrorView::MatmulSetup { message: message@ },
            CubeError::Storage(e) => CubeErrorView::Storage(*e),
            CubeError::Tensor(e) => CubeErrorView::Tensor(*e),
            CubeError::StorageAlignTooLarge { align } => CubeErrorView::StorageAlignTooLarge {
                align: *align,
            },
        }
    }
}

/// The CubeCL error for a rejected operand: storage the context cannot bind is storage
/// of another runtime, named `runtime`.
pub open spec fn cube_rejection(e: TensorCheckErrorView, runtime: &'static str) -> CubeErrorView {
    match e {
        TensorCheckErrorView::WrongStorage => CubeErrorView::WrongStorageRuntime {
            expected_runtime: runtime,
        },
        _ => CubeErrorView::Check(e),
    }
}

/// A check whose failures CubeCL can report; it asks for no minimum rank and no
/// aliasing rule.
pub open spec fn cube_check(e: TensorCheckErrorView) -> bool {
    !(e is RankTooSmall) && !(e is AliasedStorage)
}

impl CubeError {
    /// The CubeCL error reporting a rejected operand.
    pub fn from_check(e: TensorCheckError, runtime: &'static str) -> (r: CubeError)
        requires
            cube_check(e@),
        ensures
            r@ == cube_rejection(e@, runtime),
    {
        match e {
            TensorCheckError::DTypeMismatch { tensor, expected, actual } => {
                CubeError::DTypeMismatch { tensor, expected, actual }
            },
            TensorCheckError::UnsupportedEncoding { actual } => CubeError::UnsupportedEncoding {
                actual,
            },
            TensorCheckError::RankMismatch { tensor, expected, actual } => CubeError::RankMismatch {
                tensor,
                expected,
                actual,
            },
            TensorCheckError::ShapeMismatch { tensor, expected, actual } => {
                CubeError::ShapeMismatch { tensor, expected, actual }
            },
            TensorCheckError::UnsupportedLayout { actual } => CubeError::UnsupportedLayout {
                actual,
            },
            TensorCheckError::DeviceMismatch { expected, actual } => CubeError::DeviceMismatch {
                expected,
                actual,
            },
            TensorCheckError::UnsupportedByteOffset { byte_offset } => {
                CubeError::UnsupportedByteOffset { byte_offset }
            },
            TensorCheckError::WrongStorage => CubeError::WrongStorageRuntime {
                expected_runtime: runtime,
            },
            TensorCheckError::RankTooSmall { .. } => vstd::pervasive::unreached(),
            TensorCheckError::AliasedStorage { .. } => vstd::pervasive::unreached(),
        }
    }
}

/// Outcome of an operand check followed by the rest of a decision.
pub open spec fn check_then<T>(
    e: Option<TensorCheckErrorView>,
    runtime: &'static str,
    rest: Result<T, CubeErrorView>,
) -> Result<T, CubeErrorView> {
    match e {
        Some(v) => Err(cube_rejection(v, runtime)),
        None => rest,
    }
}

fn lift(r: Result<(), TensorCheckError>, runtime: &'static str) -> (out: Result<(), CubeError>)
    requires
        r matches Err(e) ==> cube_check(e@),
    ensures
        match r {
            Ok(()) => out is Ok,
            Err(e) => out matches Err(c) && c@ == cube_rejection(e@, runtime),
        },
{
    match r {
        Ok(()) => Ok(()),
        Err(e) => Err(CubeError::from_check(e, runtime)),
    }
}

/// The base alignment a context records for its storage: the runtime's reported
/// alignment, which must fit `usize` and be a power of two.
pub open spec fn cube_alignment(raw_align: u64) -> Result<usize, CubeErrorView> {
    if raw_align > usize::MAX {
        Err(CubeErrorView::StorageAlignTooLarge { align: raw_align })
    } else if !is_pow2(raw_align as int) {
        Err(CubeErrorView::Storage(StorageError::InvalidAlignment { alignment: raw_align as usize }))
    } else {
        Ok(raw_align as usize)
    }
}

/// Validates the memory alignment a CubeCL runtime reports.
pub fn cube_storage_alignment(raw_align: u64) -> (r: Result<usize, CubeError>)
    ensures
        match r {
            Ok(a) => cube_alignment(raw_align) == Ok::<usize, CubeErrorView>(a),
            Err(e) => cube_alignment(raw_align) == Err::<usize, CubeErrorView>(e@),
        },
{
    if raw_align > usize::MAX as u64 {
        return Err(CubeError::StorageAlignTooLarge { align: raw_align });
    }
    let align = raw_align as usize;
    if !is_power_of_two(align) {
        return Err(CubeError::Storage(StorageError::InvalidAlignment { alignment: align }));
    }
    Ok(align)
}

/// Rejects a descriptor a CubeCL context cannot allocate: quantized or not contiguous.
pub open spec fn cube_desc_error(desc: TensorDescView) -> Option<TensorCheckErrorView> {
    if desc.encoding is Quantized {
        Some(TensorCheckErrorView::UnsupportedEncoding { actual: desc.encoding })
    } else if !desc.is_contiguous() {
        Some(TensorCheckErrorView::UnsupportedLayout { actual: desc.layout })
    } else {
        None
    }
}

/// Bytes to allocate for a tensor described by `desc`: plain, contiguous tensors only.
pub fn cube_allocation_size(desc: &TensorDesc) -> (r: Result<usize, CubeError>)
    ensures
        match r {
            Ok(n) => cube_desc_error(desc@) is None && n == desc@.span_bytes(),
            Err(e) => cube_desc_error(desc@) matches Some(v) && e@ == CubeErrorView::Check(v),
        },
{
    let encoding = *desc.encoding();
    if let Encoding::Quantized(_) = encoding {
        return Err(CubeError::UnsupportedEncoding { actual: encoding });
    }
    if !desc.is_contiguous() {
        return Err(CubeError::UnsupportedLayout { actual: desc.layout().clone() });
    }
    Ok(desc.required_span_bytes())
}

/// Bytes to allocate for uploading `bytes_len` bytes as a tensor described by `desc`:
/// the descriptor must be allocatable and the byte count must equal its span.
pub fn cube_upload_size(desc: &TensorDesc, bytes_len: usize) -> (r: Result<usize, CubeError>)
    ensures
        cube_desc_error(desc@) matches Some(v) ==> (r matches Err(e) && e@ == CubeErrorView::Check(v)),
        cube_desc_error(desc@) is None && bytes_len != desc@.span_bytes() ==> (r matches Err(e) && e@ matches
            CubeErrorView::ByteLengthMismatch { expected, actual } && expected == desc@.span_bytes()
            && actual == bytes_len),
        cube_desc_error(desc@) is None && bytes_len == desc@.span_bytes() ==> r == Ok::<usize, CubeError>(
            bytes_len,
        ),
{
    let expected = cube_allocation_size(desc)?;
    if bytes_len != expected {
        return Err(CubeError::ByteLengthMismatch { expected, actual: bytes_len });
    }
    Ok(expected)
}

/// A vector-add launch: `cube_count` cubes of `CUBE_DIM` threads over `numel`
/// elements.
#[derive(Debug, Clone, Copy, PartialEq, Eq, Structural)]
pub struct CubeVectorAddLaunch {
    pub numel: usize,
    pub cube_count: u32,
}

/// Decision of `vector_add`: three plain F32 tensors of one shape, each bindable by a
/// context on `device` (`*_owned`: its storage belongs to the context's runtime,
/// named `runtime`). An empty tensor needs no launch; otherwise the cube count must
/// fit `u32`.
pub open spec fn cube_vector_add_decision(
    device: Device,
    runtime: &'static str,
    lhs: TensorView,
    lhs_owned: bool,
    rhs: TensorView,
    rhs_owned: bool,
    output: TensorView,
    output_owned: bool,
) -> Result<Option<CubeVectorAddLaunch>, CubeErrorView> {
    let numel = lhs.desc.numel();
    check_then(
        plain_dtype_error("lhs", lhs, DType::F32),
        runtime,
        check_then(
            plain_dtype_error("rhs", rhs, DType::F32),
            runtime,
            check_then(
                plain_dtype_error("output", output, DType::F32),
                runtime,
                check_then(
                    shape_error("rhs", lhs.desc.dims, rhs),
                    runtime,
                    check_then(
                        shape_error("output", lhs.desc.dims, output),
                        runtime,
                        check_then(
                            binding_error(device, lhs, lhs_owned),
                            runtime,
                            check_then(
                                binding_error(device, rhs, rhs_owned),
                                runtime,
                                check_then(
                                    binding_error(device, output, output_owned),
                                    runtime,
                                    if numel == 0 {
                                        Ok(None)
                                    } else if workgroups(numel as int, 256) > u32::MAX {
                                        Err(CubeErrorView::LaunchGeometryOverflow { numel: numel as usize })
                                    } else {
                                        Ok(
                                            Some(
                                                CubeVectorAddLaunch {
                                                    numel: numel as usize,
                                                    cube_count: workgroups(numel as int, 256) as u32,
                                                },
                                            ),
                                        )
                                    },
                                ),
                            ),
                        ),
                    ),
                ),
            ),
        ),
    )
}

/// Decides an F32 vector addition.
pub fn cube_vector_add_plan<I>(
    device: Device,
    runtime: &'static str,
    lhs: &Tensor<I>,
    lhs_owned: bool,
    rhs: &Tensor<I>,
    rhs_owned: bool,
    output: &Tensor<I>,
    output_owned: bool,
) -> (r: Result<Option<CubeVectorAddLaunch>, CubeError>)
    ensures
        match r {
            Ok(plan) => cube_vector_add_decision(
                device,
                runtime,
                lhs@,
                lhs_owned,
                rhs@,
                rhs_owned,
                output@,
                output_owned,
            ) == Ok::<Option<CubeVectorAddLaunch>, CubeErrorView>(plan),
            Err(e) => cube_vector_add_decision(
                device,
                runtime,
                lhs@,
                lhs_owned,
                rhs@,
                rhs_owned,
                output@,
                output_owned,
            ) == Err::<Option<CubeVectorAddLaunch>, CubeErrorView>(e@),
        },
{
    lift(check_plain_dtype("lhs", lhs, DType::F32), runtime)?;
    lift(check_plain_dtype("rhs", rhs, DType::F32), runtime)?;
    lift(check_plain_dtype("output", output, DType::F32), runtime)?;
    lift(check_same_shape("rhs", lhs, rhs), runtime)?;
    lift(check_same_shape("output", lhs, output), runtime)?;
    lift(check_binding(device, lhs, lhs_owned), runtime)?;
    lift(check_binding(device, rhs, rhs_owned), runtime)?;
    lift(check_binding(device, output, output_owned), runtime)?;
    let numel = lhs.desc().numel();
    if numel == 0 {
        return Ok(None);
    }
    let cubes = numel / CUBE_DIM + if numel % CUBE_DIM == 0 {
        0
    } else {
        1
    };
    assert(cubes == workgroups(numel as int, 256)) by (nonlinear_arith)
        requires
            cubes == numel / 256 + if numel % 256 == 0 { 0int } else { 1int },
    ;
    if cubes > 4294967295usize {
        return Err(CubeError::LaunchGeometryOverflow { numel });
    }
    Ok(Some(CubeVectorAddLaunch { numel, cube_count: cubes as u32 }))
}

/// The product of a sequence is its first element times the product of the rest.
proof fn lemma_product_first(dims: Seq<usize>)
    requires
        dims.len() > 0,
    ensures
        dims_product(dims) == (dims[0] as nat) * dims_product(dims.drop_first()),
    decreases dims.len(),
{
    if dims.len() == 1 {
        assert(dims.drop_last() =~= seq![]);
        assert(dims.drop_first() =~= seq![]);
        assert(dims_product(dims.drop_last()) == 1);
        assert(dims_product(dims.drop_first()) == 1);
    } else {
        lemma_product_first(dims.drop_last());
        assert(dims.drop_last().drop_first() =~= dims.drop_first().drop_last());
        let a = dims[0] as nat;
        let p = dims_product(dims.drop_first().drop_last());
        let l = dims.last() as nat;
        assert(dims.drop_first().last() == dims.last());
        assert(dims_product(dims) == dims_product(dims.drop_last()) * l);
        assert(dims_product(dims.drop_first()) == p * l);
        assert(a * p * l == a * (p * l)) by (nonlinear_arith);
    }
}

/// Every product of a tail of `dims` fits `usize`.
pub open spec fn tail_products_fit(dims: Seq<usize>) -> bool {
    forall|a: int| 0 <= a <= dims.len() ==> #[trigger] dims_product(dims.subrange(a, dims.len() as int))
        <= usize::MAX
}

/// Row-major element strides of a contiguous tensor of extents `dims`: each axis
/// steps over the product of the later extents.
pub fn contiguous_strides(dims: &[usize]) -> (r: Vec<usize>)
    requires
        tail_products_fit(dims@),
    ensures
        r@.len() == dims@.len(),
        forall|a: int| 0 <= a < dims@.len() ==> r@[a] == contiguous_stride(dims@, a),
{
    let n = dims.len();
    let mut strides: Vec<usize> = Vec::new();
    let mut j: usize = 0;
    while j < n
        invariant
            n == dims@.len(),
            j <= n,
            strides@.len() == j,
        decreases n - j,
    {
        strides.push(0);
        j = j + 1;
    }
    let mut stride: usize = 1;
    let mut axis: usize = n;
    proof {
        assert(dims@.subrange(n as int, n as int) =~= seq![]);
    }
    while axis > 0
        invariant
            n == dims@.len(),
            axis <= n,
            strides@.len() == n,
            tail_products_fit(dims@),
            stride == dims_product(dims@.subrange(axis as int, n as int)),
            forall|a: int| axis <= a < n ==> strides@[a] == contiguous_stride(dims@, a),
        decreases axis,
    {
        axis = axis - 1;
        strides.set(axis, stride);
        let ghost tail = dims@.subrange(axis as int, n as int);
        proof {
            lemma_product_first(tail);
            assert(tail.drop_first() =~= dims@.subrange(axis + 1, n as int));
            assert(dims_product(tail) <= usize::MAX);
        }
        assert(stride * dims@[axis as int] == dims_product(tail)) by (nonlinear_arith)
            requires
                dims_product(tail) == (dims@[axis as int] as nat) * stride,
        ;
        stride = stride * dims[axis];
    }
    strides
}

/// Precision of a CubeCL matrix multiplication.
#[derive(Debug, Clone, Copy, PartialEq, Eq, Structural)]
pub enum CubeMatmulMode {
    /// Exact F32 inputs, staging, accumulation and output.
    F32,
    /// F16 inputs with F32 cooperative-matrix accumulation and output.
    CmmaF16F32,
}

impl Default for CubeMatmulMode {
    fn default() -> (r: Self)
        ensures
            r == CubeMatmulMode::F32,
    {
        CubeMatmulMode::F32
    }
}

/// Element type of the inputs of a multiplication in `mode`.
pub open spec fn matmul_input_dtype(mode: CubeMatmulMode) -> DType {
    match mode {
        CubeMatmulMode::F32 => DType::F32,
        CubeMatmulMode::CmmaF16F32 => DType::F16,
    }
}

/// Row-major strides of a contiguous tensor with extents `dims`.
pub open spec fn row_major_strides(dims: Seq<usize>) -> Seq<usize> {
    Seq::new(dims.len(), |a: int| contiguous_stride(dims, a) as usize)
}

/// The row-major strides of the three operands of a multiplication.
#[derive(Debug)]
pub struct CubeMatmulLaunch {
    pub lhs_strides: Vec<usize>,
    pub rhs_strides: Vec<usize>,
    pub output_strides: Vec<usize>,
}

/// Decision of `matmul_with_mode`: `[m, k] x [k, n]` inputs of the mode's element type
/// into an F32 `[m, n]` output. An empty output needs no launch; otherwise every
/// operand must be bindable. `Ok(true)`: launch.
pub open spec fn cube_matmul_decision(
    mode: CubeMatmulMode,
    device: Device,
    runtime: &'static str,
    lhs: TensorView,
    lhs_owned: bool,
    rhs: TensorView,
    rhs_owned: bool,
    output: TensorView,
    output_owned: bool,
) -> Result<bool, CubeErrorView> {
    let input = matmul_input_dtype(mode);
    let m = lhs.desc.dims[0];
    let k = lhs.desc.dims[1];
    let n = rhs.desc.dims[1];
    check_then(
        matrix_error("lhs", lhs, input),
        runtime,
        check_then(
            matrix_error("rhs", rhs, input),
            runtime,
            check_then(
                matrix_error("output", output, DType::F32),
                runtime,
                check_then(
                    shape_error("rhs", seq![k, n], rhs),
                    runtime,
                    check_then(
                        shape_error("output", seq![m, n], output),
                        runtime,
                        if output.desc.numel() == 0 {
                            Ok(false)
                        } else {
                            check_then(
                                binding_error(device, lhs, lhs_owned),
                                runtime,
                                check_then(
                                    binding_error(device, rhs, rhs_owned),
                                    runtime,
                                    check_then(
                                        binding_error(device, output, output_owned),
                                        runtime,
                                        Ok(true),
                                    ),
                                ),
                            )
                        },
                    ),
                ),
            ),
        ),
    )
}

fn matrix_strides(desc: &TensorDesc) -> (r: Vec<usize>)
    requires
        desc@.dims.len() == 2,
    ensures
        r@ == row_major_strides(desc@.dims),
{
    let numel = desc.numel();
    let dims = desc.shape().dims();
    proof {
        assert(dims@.subrange(0, 2) =~= dims@);
        let one = dims@.subrange(1, 2);
        assert(dims@.len() == 2);
        assert(one.len() == 1);
        assert(one.drop_last() =~= seq![]);
        assert(dims_product(one.drop_last()) == 1);
        assert(dims_product(one) == dims_product(one.drop_last()) * (one.last() as nat));
        assert(one.last() == dims@[1]);
        assert(dims_product(one) == dims@[1] as nat);
        assert(dims@.subrange(2, 2) =~= seq![]);
        assert forall|a: int| 0 <= a <= dims@.len() implies #[trigger] dims_product(
            dims@.subrange(a, dims@.len() as int),
        ) <= usize::MAX by {
            if a == 1 {
                assert(dims_product(one) <= usize::MAX);
            }
        }
    }
    let strides = contiguous_strides(dims);
    assert(strides@ =~= row_major_strides(desc@.dims));
    strides
}

/// Decides a CubeCL matrix multiplication in `mode`, with the operands' row-major
/// strides when a launch is needed.
pub fn cube_matmul_plan<I>(
    mode: CubeMatmulMode,
    device: Device,
    runtime: &'static str,
    lhs: &Tensor<I>,
    lhs_owned: bool,
    rhs: &Tensor<I>,
    rhs_owned: bool,
    output: &Tensor<I>,
    output_owned: bool,
) -> (r: Result<Option<CubeMatmulLaunch>, CubeError>)
    ensures
        match r {
            Ok(None) => cube_matmul_decision(
                mode,
                device,
                runtime,
                lhs@,
                lhs_owned,
                rhs@,
                rhs_owned,
                output@,
                output_owned,
            ) == Ok::<bool, CubeErrorView>(false),
            Ok(Some(launch)) => {
                &&& cube_matmul_decision(
                    mode,
                    device,
                    runtime,
                    lhs@,
                    lhs_owned,
                    rhs@,
                    rhs_owned,
                    output@,
                    output_owned,
                ) == Ok::<bool, CubeErrorView>(true)
                &&& launch.lhs_strides@ == row_major_strides(lhs@.desc.dims)
                &&& launch.rhs_strides@ == row_major_strides(rhs@.desc.dims)
                &&& launch.output_strides@ == row_major_strides(output@.desc.dims)
            },
            Err(e) => cube_matmul_decision(
                mode,
                device,
                runtime,
                lhs@,
                lhs_owned,
                rhs@,
                rhs_owned,
                output@,
                output_owned,
            ) == Err::<bool, CubeErrorView>(e@),
        },
{
    let input = match mode {
        CubeMatmulMode::F32 => DType::F32,
        CubeMatmulMode::CmmaF16F32 => DType::F16,
    };
    lift(check_plain_matrix("lhs", lhs, input), runtime)?;
    lift(check_plain_matrix("rhs", rhs, input), runtime)?;
    lift(check_plain_matrix("output", output, DType::F32), runtime)?;
    let m = lhs.desc().shape().dims()[0];
    let k = lhs.desc().shape().dims()[1];
    let n = rhs.desc().shape().dims()[1];
    lift(check_shape("rhs", Shape::from_dims(vec![k, n]), rhs), runtime)?;
    lift(check_shape("output", Shape::from_dims(vec![m, n]), output), runtime)?;
    if output.desc().numel() == 0 {
        return Ok(None);
    }
    let lhs_strides = matrix_strides(lhs.desc());
    lift(check_binding(device, lhs, lhs_owned), runtime)?;
    let rhs_strides = matrix_strides(rhs.desc());
    lift(check_binding(device, rhs, rhs_owned), runtime)?;
    let output_strides = matrix_strides(output.desc());
    lift(check_binding(device, output, output_owned), runtime)?;
    Ok(Some(CubeMatmulLaunch { lhs_strides, rhs_strides, output_strides }))
}

} // verus!
