use mote::backend::hip::{
    hip_fused_add_rms_norm_plan, hip_matmul_plan, hip_quantized_linear_plan, hip_rms_norm_plan,
    hip_rope_plan, HipError, MatmulLaunch, QuantizedLinearLaunch, RopeLaunch, RowNormLaunch,
    HIP_STORAGE_ALIGNMENT,
};
use mote::storage::{Storage, StorageIds, StorageImpl};
use mote::tensor::Tensor;
use mote::types::{
    BackendKind, DType, Device, Encoding, Layout, QuantFormat, RopeLayout, Shape, TensorDesc,
};

const ROWS: usize = 3;
const HIDDEN: usize = 513;
const EPSILON: f32 = 1e-6;

const TOKENS: usize = 2;
const HEADS: usize = 3;
const HEAD_DIM: usize = 70;
const ROTARY_DIM: usize = 66;
const FREQUENCY_COUNT: usize = ROTARY_DIM / 2;

/// Device memory as a HIP context hands it out: which context allocated it, and
/// its size.
#[derive(Debug)]
struct DeviceMemory {
    device: Device,
    context: u32,
    size_bytes: usize,
}

impl StorageImpl for DeviceMemory {
    fn device(&self) -> &Device {
        &self.device
    }

    fn size_bytes(&self) -> usize {
        self.size_bytes
    }

    fn alignment(&self) -> usize {
        HIP_STORAGE_ALIGNMENT
    }
}

type DeviceTensor = Tensor<DeviceMemory>;

/// A stand-in for a HIP context: it allocates tensors and tells its own apart.
struct Context {
    id: u32,
    device: Device,
}

impl Context {
    fn new(id: u32) -> Self {
        Context {
            id,
            device: Device::new(BackendKind::Hip, 0),
        }
    }

    fn empty(&self, ids: &mut StorageIds, desc: TensorDesc) -> DeviceTensor {
        let memory = DeviceMemory {
            device: self.device,
            context: self.id,
            size_bytes: desc.required_span_bytes(),
        };
        let storage = Storage::new(memory, ids).unwrap();
        Tensor::new(desc, storage, 0).unwrap()
    }

    fn owns(&self, tensor: &DeviceTensor) -> bool {
        tensor.storage().implementation().context == self.id
    }
}

fn desc(dims: &[usize]) -> TensorDesc {
    TensorDesc::new(Shape::new(dims), Encoding::Plain(DType::F16), Layout::Contiguous).unwrap()
}

fn f32_desc(dims: &[usize]) -> TensorDesc {
    TensorDesc::new(Shape::new(dims), Encoding::Plain(DType::F32), Layout::Contiguous).unwrap()
}

fn rms_norm(
    context: &Context,
    input: &DeviceTensor,
    weight: &DeviceTensor,
    output: &DeviceTensor,
    epsilon: f32,
) -> Result<Option<RowNormLaunch>, HipError> {
    hip_rms_norm_plan(
        context.device,
        input,
        context.owns(input),
        weight,
        context.owns(weight),
        output,
        context.owns(output),
        epsilon.to_bits(),
    )
}

fn fused(
    context: &Context,
    input: &DeviceTensor,
    residual: &DeviceTensor,
    weight: &DeviceTensor,
    output: &DeviceTensor,
    epsilon: f32,
) -> Result<Option<RowNormLaunch>, HipError> {
    hip_fused_add_rms_norm_plan(
        context.device,
        input,
        context.owns(input),
        residual,
        context.owns(residual),
        weight,
        context.owns(weight),
        output,
        context.owns(output),
        epsilon.to_bits(),
    )
}

fn rope(
    context: &Context,
    input: &DeviceTensor,
    cos: &DeviceTensor,
    sin: &DeviceTensor,
    output: &DeviceTensor,
    rotary_dim: usize,
    layout: RopeLayout,
) -> Result<Option<RopeLaunch>, HipError> {
    hip_rope_plan(
        context.device,
        input,
        context.owns(input),
        cos,
        context.owns(cos),
        sin,
        context.owns(sin),
        output,
        context.owns(output),
        rotary_dim,
        layout,
    )
}

fn linear(
    context: &Context,
    input: &DeviceTensor,
    weights: &DeviceTensor,
    output: &DeviceTensor,
) -> Result<Option<QuantizedLinearLaunch>, HipError> {
    hip_quantized_linear_plan(
        context.device,
        input,
        context.owns(input),
        weights,
        context.owns(weights),
        output,
        context.owns(output),
    )
}

fn norm_fixtures(context: &Context, ids: &mut StorageIds) -> (DeviceTensor, DeviceTensor, DeviceTensor) {
    (
        context.empty(ids, desc(&[ROWS, HIDDEN])),
        context.empty(ids, desc(&[HIDDEN])),
        context.empty(ids, desc(&[ROWS, HIDDEN])),
    )
}

#[test]
fn rms_norm_plans_one_block_per_row() {
    let mut ids = StorageIds::new();
    let context = Context::new(1);
    let (input, weight, output) = norm_fixtures(&context, &mut ids);

    assert_eq!(
        rms_norm(&context, &input, &weight, &output, EPSILON).unwrap(),
        Some(RowNormLaunch {
            rows: ROWS as u64,
            hidden: HIDDEN as u64,
            grid_blocks: ROWS as u32
        })
    );
}

#[test]
fn rms_norm_empty_tensors_return_without_launching() {
    let mut ids = StorageIds::new();
    let context = Context::new(1);
    let weight = context.empty(&mut ids, desc(&[HIDDEN]));

    let input = context.empty(&mut ids, desc(&[0, HIDDEN]));
    let output = context.empty(&mut ids, desc(&[0, HIDDEN]));
    assert_eq!(rms_norm(&context, &input, &weight, &output, EPSILON).unwrap(), None);

    let input = context.empty(&mut ids, desc(&[2, 0]));
    let weight = context.empty(&mut ids, desc(&[0]));
    let output = context.empty(&mut ids, desc(&[2, 0]));
    assert_eq!(rms_norm(&context, &input, &weight, &output, EPSILON).unwrap(), None);
}

#[test]
fn rms_norm_invalid_epsilon_is_rejected() {
    let mut ids = StorageIds::new();
    let context = Context::new(1);
    let (input, weight, output) = norm_fixtures(&context, &mut ids);

    for epsilon in [-EPSILON, f32::NAN, f32::INFINITY, f32::NEG_INFINITY] {
        let error = rms_norm(&context, &input, &weight, &output, epsilon).unwrap_err();
        assert!(
            matches!(error, HipError::InvalidEpsilon { .. }),
            "epsilon {epsilon} should be rejected, got {error:?}"
        );
    }
}

#[test]
fn rms_norm_shape_mismatches_are_rejected() {
    let mut ids = StorageIds::new();
    let context = Context::new(1);
    let (input, weight, _) = norm_fixtures(&context, &mut ids);

    let wrong_output = context.empty(&mut ids, desc(&[ROWS, HIDDEN + 1]));
    let error = rms_norm(&context, &input, &weight, &wrong_output, EPSILON).unwrap_err();
    assert!(
        matches!(error, HipError::ShapeMismatch { tensor: "output", .. }),
        "{error:?}"
    );

    let wrong_weight = context.empty(&mut ids, desc(&[HIDDEN - 1]));
    let output = context.empty(&mut ids, desc(&[ROWS, HIDDEN]));
    let error = rms_norm(&context, &input, &wrong_weight, &output, EPSILON).unwrap_err();
    assert!(
        matches!(error, HipError::ShapeMismatch { tensor: "weight", .. }),
        "{error:?}"
    );
}

#[test]
fn rms_norm_tensors_from_another_context_are_rejected() {
    let mut ids = StorageIds::new();
    let context = Context::new(1);
    let (input, weight, _) = norm_fixtures(&context, &mut ids);

    let stranger = Context::new(2);
    let output = stranger.empty(&mut ids, desc(&[ROWS, HIDDEN]));
    let error = rms_norm(&context, &input, &weight, &output, EPSILON).unwrap_err();
    assert!(matches!(error, HipError::WrongStorage), "{error:?}");
}

fn fused_fixtures(
    context: &Context,
    ids: &mut StorageIds,
) -> (DeviceTensor, DeviceTensor, DeviceTensor, DeviceTensor) {
    (
        context.empty(ids, desc(&[ROWS, HIDDEN])),
        context.empty(ids, desc(&[ROWS, HIDDEN])),
        context.empty(ids, desc(&[HIDDEN])),
        context.empty(ids, desc(&[ROWS, HIDDEN])),
    )
}

#[test]
fn output_aliasing_residual_is_rejected() {
    let mut ids = StorageIds::new();
    let context = Context::new(1);
    let (input, residual, weight, _) = fused_fixtures(&context, &mut ids);

    let output = residual.clone();
    let error = fused(&context, &input, &residual, &weight, &output, EPSILON).unwrap_err();
    assert!(
        matches!(
            error,
            HipError::AliasedStorage {
                tensor: "output",
                other: "residual"
            }
        ),
        "{error:?}"
    );
}

#[test]
fn weight_aliasing_writable_outputs_is_rejected() {
    let mut ids = StorageIds::new();
    let context = Context::new(1);
    let (input, residual, _, output) = fused_fixtures(&context, &mut ids);

    let aliased_weight = Tensor::new(desc(&[HIDDEN]), output.storage().clone(), 0).unwrap();
    assert!(aliased_weight.shares_storage_with(&output));
    let error = fused(&context, &input, &residual, &aliased_weight, &output, EPSILON).unwrap_err();
    assert!(
        matches!(
            error,
            HipError::AliasedStorage {
                tensor: "weight",
                other: "output"
            }
        ),
        "{error:?}"
    );

    let aliased_weight = Tensor::new(desc(&[HIDDEN]), residual.storage().clone(), 0).unwrap();
    assert!(aliased_weight.shares_storage_with(&residual));
    let error = fused(&context, &input, &residual, &aliased_weight, &output, EPSILON).unwrap_err();
    assert!(
        matches!(
            error,
            HipError::AliasedStorage {
                tensor: "weight",
                other: "residual"
            }
        ),
        "{error:?}"
    );
}

#[test]
fn fused_add_rms_norm_invalid_epsilon_is_rejected() {
    let mut ids = StorageIds::new();
    let context = Context::new(1);
    let (input, residual, weight, output) = fused_fixtures(&context, &mut ids);

    for epsilon in [-EPSILON, f32::NAN, f32::INFINITY, f32::NEG_INFINITY] {
        let error = fused(&context, &input, &residual, &weight, &output, epsilon).unwrap_err();
        assert!(
            matches!(error, HipError::InvalidEpsilon { .. }),
            "epsilon {epsilon} should be rejected, got {error:?}"
        );
    }
}

#[test]
fn fused_add_rms_norm_shape_mismatches_are_rejected() {
    let mut ids = StorageIds::new();
    let context = Context::new(1);
    let (input, residual, weight, _) = fused_fixtures(&context, &mut ids);

    let output = context.empty(&mut ids, desc(&[ROWS, HIDDEN]));
    let wrong_output = context.empty(&mut ids, desc(&[ROWS, HIDDEN + 1]));
    let error = fused(&context, &input, &residual, &weight, &wrong_output, EPSILON).unwrap_err();
    assert!(
        matches!(error, HipError::ShapeMismatch { tensor: "output", .. }),
        "{error:?}"
    );

    let wrong_residual = context.empty(&mut ids, desc(&[ROWS + 1, HIDDEN]));
    let error = fused(&context, &input, &wrong_residual, &weight, &output, EPSILON).unwrap_err();
    assert!(
        matches!(error, HipError::ShapeMismatch { tensor: "residual", .. }),
        "{error:?}"
    );

    let wrong_weight = context.empty(&mut ids, desc(&[HIDDEN - 1]));
    let error = fused(&context, &input, &residual, &wrong_weight, &output, EPSILON).unwrap_err();
    assert!(
        matches!(error, HipError::ShapeMismatch { tensor: "weight", .. }),
        "{error:?}"
    );
}

#[test]
fn wrong_dtype_is_rejected() {
    let mut ids = StorageIds::new();
    let context = Context::new(1);
    let (input, residual, _, output) = fused_fixtures(&context, &mut ids);

    let weight = context.empty(&mut ids, f32_desc(&[HIDDEN]));
    let error = fused(&context, &input, &residual, &weight, &output, EPSILON).unwrap_err();
    assert!(
        matches!(error, HipError::DTypeMismatch { tensor: "weight", .. }),
        "{error:?}"
    );
}

#[test]
fn fused_add_rms_norm_tensors_from_another_context_are_rejected() {
    let mut ids = StorageIds::new();
    let context = Context::new(1);
    let (input, residual, weight, _) = fused_fixtures(&context, &mut ids);

    let stranger = Context::new(2);
    let output = stranger.empty(&mut ids, desc(&[ROWS, HIDDEN]));
    let error = fused(&context, &input, &residual, &weight, &output, EPSILON).unwrap_err();
    assert!(matches!(error, HipError::WrongStorage), "{error:?}");
}

#[test]
fn fused_add_rms_norm_empty_tensors_return_without_launching() {
    let mut ids = StorageIds::new();
    let context = Context::new(1);
    let weight = context.empty(&mut ids, desc(&[HIDDEN]));

    let input = context.empty(&mut ids, desc(&[0, HIDDEN]));
    let residual = context.empty(&mut ids, desc(&[0, HIDDEN]));
    let output = context.empty(&mut ids, desc(&[0, HIDDEN]));
    assert_eq!(fused(&context, &input, &residual, &weight, &output, EPSILON).unwrap(), None);

    let input = context.empty(&mut ids, desc(&[2, 0]));
    let residual = context.empty(&mut ids, desc(&[2, 0]));
    let weight = context.empty(&mut ids, desc(&[0]));
    let output = context.empty(&mut ids, desc(&[2, 0]));
    assert_eq!(fused(&context, &input, &residual, &weight, &output, EPSILON).unwrap(), None);
}

#[test]
fn fused_add_rms_norm_accepts_output_aliasing_input() {
    let mut ids = StorageIds::new();
    let context = Context::new(1);
    let (input, residual, weight, _) = fused_fixtures(&context, &mut ids);

    assert_eq!(
        fused(&context, &input, &residual, &weight, &input, EPSILON).unwrap(),
        Some(RowNormLaunch {
            rows: ROWS as u64,
            hidden: HIDDEN as u64,
            grid_blocks: ROWS as u32
        })
    );
    assert!(fused(&context, &input, &input, &weight, &input, EPSILON).is_err());
    assert!(fused(&context, &input, &input, &weight, &residual, EPSILON).is_ok());
}

fn rope_fixtures(
    context: &Context,
    ids: &mut StorageIds,
) -> (DeviceTensor, DeviceTensor, DeviceTensor, DeviceTensor) {
    (
        context.empty(ids, desc(&[TOKENS, HEADS, HEAD_DIM])),
        context.empty(ids, f32_desc(&[TOKENS, FREQUENCY_COUNT])),
        context.empty(ids, f32_desc(&[TOKENS, FREQUENCY_COUNT])),
        context.empty(ids, desc(&[TOKENS, HEADS, HEAD_DIM])),
    )
}

#[test]
fn rope_plans_one_block_per_token_head() {
    let mut ids = StorageIds::new();
    let context = Context::new(1);
    let (input, cos, sin, output) = rope_fixtures(&context, &mut ids);

    assert_eq!(
        rope(&context, &input, &cos, &sin, &output, ROTARY_DIM, RopeLayout::Interleaved).unwrap(),
        Some(RopeLaunch {
            grid_blocks: (TOKENS * HEADS) as u32,
            tokens: TOKENS as u64,
            heads: HEADS as u64,
            head_dim: HEAD_DIM as u64,
            rotary_dim: ROTARY_DIM as u64,
            layout: RopeLayout::Interleaved,
        })
    );

    let input = context.empty(&mut ids, desc(&[2, 2, HEADS, HEAD_DIM]));
    let cache = context.empty(&mut ids, f32_desc(&[2, 2, FREQUENCY_COUNT]));
    let launch = rope(&context, &input, &cache, &cache, &input, ROTARY_DIM, RopeLayout::HalfSplit)
        .unwrap()
        .unwrap();
    assert_eq!(launch.tokens, 4);
    assert_eq!(launch.grid_blocks, (4 * HEADS) as u32);

    let input = context.empty(&mut ids, desc(&[HEADS, HEAD_DIM]));
    let cache = context.empty(&mut ids, f32_desc(&[FREQUENCY_COUNT]));
    let launch = rope(&context, &input, &cache, &cache, &input, ROTARY_DIM, RopeLayout::HalfSplit)
        .unwrap()
        .unwrap();
    assert_eq!(launch.tokens, 1);
}

#[test]
fn rope_empty_tensors_return_without_launching() {
    let mut ids = StorageIds::new();
    let context = Context::new(1);
    let (_, cos, sin, _) = rope_fixtures(&context, &mut ids);

    let input = context.empty(&mut ids, desc(&[0, HEADS, HEAD_DIM]));
    let output = context.empty(&mut ids, desc(&[0, HEADS, HEAD_DIM]));
    let empty_cache = context.empty(&mut ids, f32_desc(&[0, FREQUENCY_COUNT]));
    assert_eq!(
        rope(&context, &input, &empty_cache, &empty_cache, &output, ROTARY_DIM, RopeLayout::HalfSplit)
            .unwrap(),
        None
    );

    let input = context.empty(&mut ids, desc(&[TOKENS, 0, HEAD_DIM]));
    let output = context.empty(&mut ids, desc(&[TOKENS, 0, HEAD_DIM]));
    assert_eq!(
        rope(&context, &input, &cos, &sin, &output, ROTARY_DIM, RopeLayout::HalfSplit).unwrap(),
        None
    );

    let input = context.empty(&mut ids, desc(&[TOKENS, HEADS, 0]));
    let output = context.empty(&mut ids, desc(&[TOKENS, HEADS, 0]));
    let empty_cache = context.empty(&mut ids, f32_desc(&[TOKENS, 0]));
    assert_eq!(
        rope(&context, &input, &empty_cache, &empty_cache, &output, 0, RopeLayout::Interleaved)
            .unwrap(),
        None
    );
}

#[test]
fn odd_rotary_dim_is_rejected() {
    let mut ids = StorageIds::new();
    let context = Context::new(1);
    let (input, cos, sin, output) = rope_fixtures(&context, &mut ids);

    let error = rope(&context, &input, &cos, &sin, &output, ROTARY_DIM + 1, RopeLayout::HalfSplit)
        .unwrap_err();
    match error {
        HipError::InvalidRotaryDim {
            rotary_dim,
            head_dim,
        } => {
            assert_eq!(rotary_dim, ROTARY_DIM + 1);
            assert_eq!(head_dim, HEAD_DIM);
        }
        other => panic!("unexpected error: {other:?}"),
    }
}

#[test]
fn oversized_rotary_dim_is_rejected() {
    let mut ids = StorageIds::new();
    let context = Context::new(1);
    let (input, cos, sin, output) = rope_fixtures(&context, &mut ids);

    let error = rope(&context, &input, &cos, &sin, &output, HEAD_DIM + 2, RopeLayout::Interleaved)
        .unwrap_err();
    match error {
        HipError::InvalidRotaryDim {
            rotary_dim,
            head_dim,
        } => {
            assert_eq!(rotary_dim, HEAD_DIM + 2);
            assert_eq!(head_dim, HEAD_DIM);
        }
        other => panic!("unexpected error: {other:?}"),
    }
}

#[test]
fn cache_shape_mismatches_are_rejected() {
    let mut ids = StorageIds::new();
    let context = Context::new(1);
    let (input, cos, sin, output) = rope_fixtures(&context, &mut ids);

    let wrong_cos = context.empty(&mut ids, f32_desc(&[TOKENS, FREQUENCY_COUNT - 1]));
    let error = rope(&context, &input, &wrong_cos, &sin, &output, ROTARY_DIM, RopeLayout::HalfSplit)
        .unwrap_err();
    assert!(
        matches!(error, HipError::ShapeMismatch { tensor: "cos", .. }),
        "{error:?}"
    );

    let wrong_sin = context.empty(&mut ids, f32_desc(&[TOKENS, 1, FREQUENCY_COUNT]));
    let error = rope(&context, &input, &cos, &wrong_sin, &output, ROTARY_DIM, RopeLayout::HalfSplit)
        .unwrap_err();
    assert!(
        matches!(error, HipError::ShapeMismatch { tensor: "sin", .. }),
        "{error:?}"
    );
}

#[test]
fn output_shape_mismatch_is_rejected() {
    let mut ids = StorageIds::new();
    let context = Context::new(1);
    let (input, cos, sin, _) = rope_fixtures(&context, &mut ids);

    let wrong_output = context.empty(&mut ids, desc(&[TOKENS, HEADS, HEAD_DIM + 1]));
    let error = rope(&context, &input, &cos, &sin, &wrong_output, ROTARY_DIM, RopeLayout::Interleaved)
        .unwrap_err();
    assert!(
        matches!(error, HipError::ShapeMismatch { tensor: "output", .. }),
        "{error:?}"
    );
}

#[test]
fn rank_one_input_is_rejected() {
    let mut ids = StorageIds::new();
    let context = Context::new(1);
    let (_, cos, sin, _) = rope_fixtures(&context, &mut ids);

    let input = context.empty(&mut ids, desc(&[HEADS * HEAD_DIM]));
    let output = context.empty(&mut ids, desc(&[HEADS * HEAD_DIM]));
    let error = rope(&context, &input, &cos, &sin, &output, ROTARY_DIM, RopeLayout::HalfSplit)
        .unwrap_err();
    assert!(
        matches!(
            error,
            HipError::RankTooSmall {
                tensor: "input",
                minimum: 2,
                ..
            }
        ),
        "{error:?}"
    );
}

#[test]
fn cache_dtype_mismatch_is_rejected() {
    let mut ids = StorageIds::new();
    let context = Context::new(1);
    let (input, cos, sin, output) = rope_fixtures(&context, &mut ids);

    let wrong_cos = context.empty(&mut ids, desc(&[TOKENS, FREQUENCY_COUNT]));
    let error = rope(&context, &input, &wrong_cos, &sin, &output, ROTARY_DIM, RopeLayout::HalfSplit)
        .unwrap_err();
    assert!(
        matches!(
            error,
            HipError::DTypeMismatch {
                tensor: "cos",
                expected: DType::F32,
                ..
            }
        ),
        "{error:?}"
    );
    assert_ne!(cos.desc().encoding(), wrong_cos.desc().encoding());

    let wrong_sin = context.empty(&mut ids, desc(&[TOKENS, FREQUENCY_COUNT]));
    let error = rope(&context, &input, &cos, &wrong_sin, &output, ROTARY_DIM, RopeLayout::HalfSplit)
        .unwrap_err();
    assert!(
        matches!(
            error,
            HipError::DTypeMismatch {
                tensor: "sin",
                expected: DType::F32,
                ..
            }
        ),
        "{error:?}"
    );
}

#[test]
fn rope_tensors_from_another_context_are_rejected() {
    let mut ids = StorageIds::new();
    let context = Context::new(1);
    let (input, cos, sin, _) = rope_fixtures(&context, &mut ids);

    let stranger = Context::new(2);
    let output = stranger.empty(&mut ids, desc(&[TOKENS, HEADS, HEAD_DIM]));
    let error = rope(&context, &input, &cos, &sin, &output, ROTARY_DIM, RopeLayout::HalfSplit)
        .unwrap_err();
    assert!(matches!(error, HipError::WrongStorage), "{error:?}");
}

fn plain_desc(rows: usize, cols: usize, dtype: DType) -> TensorDesc {
    TensorDesc::new(Shape::new(&[rows, cols]), Encoding::Plain(dtype), Layout::Contiguous).unwrap()
}

fn quantized_desc(rows: usize, cols: usize, format: QuantFormat) -> TensorDesc {
    TensorDesc::new(Shape::new(&[rows, cols]), Encoding::Quantized(format), Layout::Contiguous)
        .unwrap()
}

#[test]
fn validates_q4_0_linear_geometry_encoding_and_aliasing() {
    let mut ids = StorageIds::new();
    let context = Context::new(1);
    let input = context.empty(&mut ids, plain_desc(1, 32, DType::F16));
    let weights = context.empty(&mut ids, quantized_desc(32, 32, QuantFormat::Q4_0));
    let output = context.empty(&mut ids, plain_desc(1, 32, DType::F16));

    assert!(matches!(
        linear(&context, &input, &weights, &input),
        Err(HipError::AliasedStorage {
            tensor: "output",
            other: "input"
        })
    ));

    let output_on_weights =
        Tensor::new(plain_desc(1, 32, DType::F16), weights.storage().clone(), 0).unwrap();
    assert!(matches!(
        linear(&context, &input, &weights, &output_on_weights),
        Err(HipError::AliasedStorage {
            tensor: "output",
            other: "weights"
        })
    ));

    let q8_weights = context.empty(&mut ids, quantized_desc(32, 32, QuantFormat::Q8_0));
    assert!(matches!(
        linear(&context, &input, &q8_weights, &output),
        Err(HipError::UnsupportedEncoding {
            actual: Encoding::Quantized(QuantFormat::Q8_0)
        })
    ));

    let short_weights = context.empty(&mut ids, quantized_desc(32, 64, QuantFormat::Q4_0));
    assert!(matches!(
        linear(&context, &input, &short_weights, &output),
        Err(HipError::ShapeMismatch {
            tensor: "weights",
            ..
        })
    ));

    assert_eq!(
        linear(&context, &input, &weights, &output).unwrap(),
        Some(QuantizedLinearLaunch {
            grid_blocks: 32,
            rows: 1,
            output_features: 32,
            input_features: 32
        })
    );
}

#[test]
fn fully_validated_empty_outputs_return_without_a_launch() {
    let mut ids = StorageIds::new();
    let context = Context::new(1);
    let input = context.empty(&mut ids, plain_desc(0, 32, DType::F16));
    let weights = context.empty(&mut ids, quantized_desc(2, 32, QuantFormat::Q4_0));
    let output = context.empty(&mut ids, plain_desc(0, 2, DType::F16));

    assert_eq!(linear(&context, &input, &weights, &output).unwrap(), None);
}

#[test]
fn zero_input_features_launches_and_writes_a_nonempty_zero_output() {
    let mut ids = StorageIds::new();
    let context = Context::new(1);
    let input = context.empty(&mut ids, plain_desc(3, 0, DType::F16));
    let weights = context.empty(&mut ids, quantized_desc(2, 0, QuantFormat::Q4_0));
    let output = context.empty(&mut ids, plain_desc(3, 2, DType::F16));

    assert_eq!(
        linear(&context, &input, &weights, &output).unwrap(),
        Some(QuantizedLinearLaunch {
            grid_blocks: 6,
            rows: 3,
            output_features: 2,
            input_features: 0
        })
    );
}

#[test]
fn hip_matmul_plans_every_non_empty_product() {
    let mut ids = StorageIds::new();
    let context = Context::new(1);
    let lhs = context.empty(&mut ids, plain_desc(17, 11, DType::F16));
    let rhs = context.empty(&mut ids, plain_desc(11, 19, DType::F16));
    let output = context.empty(&mut ids, plain_desc(17, 19, DType::F32));

    let plan = hip_matmul_plan(context.device, &lhs, true, &rhs, true, &output, true).unwrap();
    assert_eq!(plan, Some(MatmulLaunch { m: 17, n: 19, k: 11 }));

    let wrong_rhs = context.empty(&mut ids, plain_desc(12, 19, DType::F16));
    let error = hip_matmul_plan(context.device, &lhs, true, &wrong_rhs, true, &output, true)
        .unwrap_err();
    assert!(matches!(error, HipError::ShapeMismatch { tensor: "rhs", .. }), "{error:?}");

    let empty_output = context.empty(&mut ids, plain_desc(17, 0, DType::F32));
    let empty_rhs = context.empty(&mut ids, plain_desc(11, 0, DType::F16));
    assert_eq!(
        hip_matmul_plan(context.device, &lhs, false, &empty_rhs, false, &empty_output, false)
            .unwrap(),
        None
    );
}
