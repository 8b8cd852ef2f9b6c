//! Geometry of the reference operators: the checks that decide whether an operator
//! call is well formed and the index maps its element loops follow.
use vstd::prelude::*;
use crate::types::RopeLayout;

verus! {

/// Whether the IEEE-754 single-precision value with these bits is finite and not
/// below zero (`-0.0` is accepted).
pub open spec fn f32_bits_finite_non_negative(bits: u32) -> bool {
    &&& (bits >> 23u32) & 0xffu32 != 0xffu32
    &&& (bits >> 31u32 == 0u32 || bits & 0x7fff_ffffu32 == 0u32)
}

/// Checks an epsilon given by its IEEE-754 bits: finite and not negative.
pub fn epsilon_is_valid(bits: u32) -> (r: bool)
    ensures
        r == f32_bits_finite_non_negative(bits),
{
    let exponent = (bits >> 23u32) & 0xffu32;
    let sign = bits >> 31u32;
    let magnitude = bits & 0x7fff_ffffu32;
    exponent != 0xffu32 && (sign == 0u32 || magnitude == 0u32)
}

/// Errors of the RMS-norm reference operators.
#[derive(Debug, Clone, Copy, PartialEq, Eq, Structural)]
pub enum ReferenceError {
    /// `hidden_size` was zero.
    ZeroHiddenSize,
    /// `weight.len()` did not equal `hidden_size`.
    WeightLengthMismatch { weight_len: usize, hidden_size: usize },
    /// `input.len()` was not an exact multiple of `hidden_size`.
    InputNotMultiple { input_len: usize, hidden_size: usize },
    /// `residual.len()` did not equal `input.len()`.
    ResidualLengthMismatch { residual_len: usize, input_len: usize },
    /// Epsilon, given by its IEEE-754 bits, was negative or not finite.
    InvalidEpsilon { epsilon_bits: u32 },
}

/// The first reason, in checking order, an RMS-norm call is rejected. With a residual
/// length, the fused residual-add variant is described.
pub open spec fn rms_norm_error(
    input_len: usize,
    residual_len: Option<usize>,
    weight_len: usize,
    hidden_size: usize,
    epsilon_bits: u32,
) -> Option<ReferenceError> {
    if hidden_size == 0 {
        Some(ReferenceError::ZeroHiddenSize)
    } else if weight_len != hidden_size {
        Some(ReferenceError::WeightLengthMismatch { weight_len, hidden_size })
    } else if residual_len matches Some(len) && len != input_len {
        Some(
            ReferenceError::ResidualLengthMismatch {
                residual_len: residual_len->Some_0,
                input_len,
            },
        )
    } else if input_len % hidden_size != 0 {
        Some(ReferenceError::InputNotMultiple { input_len, hidden_size })
    } else if !f32_bits_finite_non_negative(epsilon_bits) {
        Some(ReferenceError::InvalidEpsilon { epsilon_bits })
    } else {
        None
    }
}

/// Checks an RMS-norm call (with a residual length for the fused residual-add variant)
/// and returns the number of rows.
pub fn check_rms_norm(
    input_len: usize,
    residual_len: Option<usize>,
    weight_len: usize,
    hidden_size: usize,
    epsilon_bits: u32,
) -> (r: Result<usize, ReferenceError>)
    ensures
        match r {
            Ok(rows) => {
                &&& rms_norm_error(input_len, residual_len, weight_len, hidden_size, epsilon_bits)
                    is None
                &&& rows * hidden_size == input_len
            },
            Err(e) => rms_norm_error(input_len, residual_len, weight_len, hidden_size, epsilon_bits)
                == Some(e),
        },
{
    if hidden_size == 0 {
        return Err(ReferenceError::ZeroHiddenSize);
    }
    if weight_len != hidden_size {
        return Err(ReferenceError::WeightLengthMismatch { weight_len, hidden_size });
    }
    if let Some(len) = residual_len {
        if len != input_len {
            return Err(ReferenceError::ResidualLengthMismatch { residual_len: len, input_len });
        }
    }
    if input_len % hidden_size != 0 {
        return Err(ReferenceError::InputNotMultiple { input_len, hidden_size });
    }
    if !epsilon_is_valid(epsilon_bits) {
        return Err(ReferenceError::InvalidEpsilon { epsilon_bits });
    }
    let rows = input_len / hidden_size;
    assert(rows * hidden_size == input_len) by (nonlinear_arith)
        requires
            hidden_size > 0,
            input_len % hidden_size == 0,
            rows == input_len / hidden_size,
    ;
    Ok(rows)
}

/// Errors reported by the row-major matrix multiplication oracle.
#[derive(Debug, Clone, Copy, PartialEq, Eq, Structural)]
pub enum MatmulError {
    /// A dimension product could not be represented by `usize`.
    DimensionsOverflow { m: usize, n: usize, k: usize },
    /// `lhs.len()` did not equal `m * k`.
    LhsLengthMismatch { expected: usize, actual: usize },
    /// `rhs.len()` did not equal `k * n`.
    RhsLengthMismatch { expected: usize, actual: usize },
}

/// The first reason, in checking order, a matrix multiplication call is rejected.
pub open spec fn matmul_error(lhs_len: usize, rhs_len: usize, m: usize, n: usize, k: usize) -> Option<
    MatmulError,
> {
    if m * k > usize::MAX || k * n > usize::MAX || m * n > usize::MAX {
        Some(MatmulError::DimensionsOverflow { m, n, k })
    } else if lhs_len != m * k {
        Some(MatmulError::LhsLengthMismatch { expected: (m * k) as usize, actual: lhs_len })
    } else if rhs_len != k * n {
        Some(MatmulError::RhsLengthMismatch { expected: (k * n) as usize, actual: rhs_len })
    } else {
        None
    }
}

/// Checks a row-major `M x K` by `K x N` multiplication and returns the output length
/// `M * N`.
pub fn check_matmul(lhs_len: usize, rhs_len: usize, m: usize, n: usize, k: usize) -> (r: Result<
    usize,
    MatmulError,
>)
    ensures
        match r {
            Ok(output_len) => {
                &&& matmul_error(lhs_len, rhs_len, m, n, k) is None
                &&& output_len == m * n
            },
            Err(e) => matmul_error(lhs_len, rhs_len, m, n, k) == Some(e),
        },
{
    let lhs_expected = match m.checked_mul(k) {
        Some(v) => v,
        None => {
            return Err(MatmulError::DimensionsOverflow { m, n, k });
        },
    };
    let rhs_expected = match k.checked_mul(n) {
        Some(v) => v,
        None => {
            return Err(MatmulError::DimensionsOverflow { m, n, k });
        },
    };
    let output_len = match m.checked_mul(n) {
        Some(v) => v,
        None => {
            return Err(MatmulError::DimensionsOverflow { m, n, k });
        },
    };
    if lhs_len != lhs_expected {
        return Err(MatmulError::LhsLengthMismatch { expected: lhs_expected, actual: lhs_len });
    }
    if rhs_len != rhs_expected {
        return Err(MatmulError::RhsLengthMismatch { expected: rhs_expected, actual: rhs_len });
    }
    Ok(output_len)
}

/// Errors reported by the rotary position embedding oracle.
#[derive(Debug, Clone, Copy, PartialEq, Eq, Structural)]
pub enum RopeError {
    OddRotaryDimension { rotary_dim: usize },
    RotaryDimensionTooLarge { rotary_dim: usize, head_dim: usize },
    DimensionsOverflow { tokens: usize, heads: usize, head_dim: usize, rotary_dim: usize },
    InputLengthMismatch { expected: usize, actual: usize },
    CosLengthMismatch { expected: usize, actual: usize },
    SinLengthMismatch { expected: usize, actual: usize },
}

/// Validated geometry of a rotary embedding over `[tokens, heads, head_dim]` rows.
#[derive(Debug, Clone, Copy, PartialEq, Eq, Structural)]
pub struct RopeGeometry {
    pub tokens: usize,
    pub heads: usize,
    pub head_dim: usize,
    /// Number of rotated pairs per head vector: `rotary_dim / 2`.
    pub frequency_count: usize,
}

/// The first reason, in checking order, a rotary embedding call is rejected.
pub open spec fn rope_error(
    input_len: usize,
    cos_len: usize,
    sin_len: usize,
    tokens: usize,
    heads: usize,
    head_dim: usize,
    rotary_dim: usize,
) -> Option<RopeError> {
    let fc = rotary_dim / 2;
    if rotary_dim % 2 != 0 {
        Some(RopeError::OddRotaryDimension { rotary_dim })
    } else if rotary_dim > head_dim {
        Some(RopeError::RotaryDimensionTooLarge { rotary_dim, head_dim })
    } else if tokens * heads > usize::MAX || tokens * heads * head_dim > usize::MAX || tokens * fc
        > usize::MAX {
        Some(RopeError::DimensionsOverflow { tokens, heads, head_dim, rotary_dim })
    } else if input_len != tokens * heads * head_dim {
        Some(
            RopeError::InputLengthMismatch {
                expected: (tokens * heads * head_dim) as usize,
                actual: input_len,
            },
        )
    } else if cos_len != tokens * fc {
        Some(RopeError::CosLengthMismatch { expected: (tokens * fc) as usize, actual: cos_len })
    } else if sin_len != tokens * fc {
        Some(RopeError::SinLengthMismatch { expected: (tokens * fc) as usize, actual: sin_len })
    } else {
        None
    }
}

/// Checks a rotary embedding call over row-major `[tokens, heads, head_dim]` input with
/// `[tokens, rotary_dim / 2]` cosine and sine tables.
pub fn check_rope(
    input_len: usize,
    cos_len: usize,
    sin_len: usize,
    tokens: usize,
    heads: usize,
    head_dim: usize,
    rotary_dim: usize,
) -> (r: Result<RopeGeometry, RopeError>)
    ensures
        match r {
            Ok(g) => {
                &&& rope_error(input_len, cos_len, sin_len, tokens, heads, head_dim, rotary_dim)
                    is None
                &&& g == (RopeGeometry {
                    tokens,
                    heads,
                    head_dim,
                    frequency_count: rotary_dim / 2,
                })
            },
            Err(e) => rope_error(input_len, cos_len, sin_len, tokens, heads, head_dim, rotary_dim)
                == Some(e),
        },
{
    if rotary_dim % 2 != 0 {
        return Err(RopeError::OddRotaryDimension { rotary_dim });
    }
    if rotary_dim > head_dim {
        return Err(RopeError::RotaryDimensionTooLarge { rotary_dim, head_dim });
    }
    let overflow = RopeError::DimensionsOverflow { tokens, heads, head_dim, rotary_dim };
    let rows = match tokens.checked_mul(heads) {
        Some(v) => v,
        None => {
            return Err(overflow);
        },
    };
    let expected_input = match rows.checked_mul(head_dim) {
        Some(v) => v,
        None => {
            return Err(overflow);
        },
    };
    let frequency_count = rotary_dim / 2;
    let cache_len = match tokens.checked_mul(frequency_count) {
        Some(v) => v,
        None => {
            return Err(overflow);
        },
    };
    if input_len != expected_input {
        return Err(RopeError::InputLengthMismatch { expected: expected_input, actual: input_len });
    }
    if cos_len != cache_len {
        return Err(RopeError::CosLengthMismatch { expected: cache_len, actual: cos_len });
    }
    if sin_len != cache_len {
        return Err(RopeError::SinLengthMismatch { expected: cache_len, actual: sin_len });
    }
    Ok(RopeGeometry { tokens, heads, head_dim, frequency_count })
}

/// Offsets, within one head vector, of the two elements rotated together by pair `pair`.
pub open spec fn spec_rope_pair(layout: RopeLayout, pair: int, frequency_count: int) -> (int, int) {
    match layout {
        RopeLayout::HalfSplit => (pair, pair + frequency_count),
        RopeLayout::Interleaved => (2 * pair, 2 * pair + 1),
    }
}

/// Offsets of the two elements of a head vector that pair `pair` rotates together.
pub fn rope_pair(layout: RopeLayout, pair: usize, frequency_count: usize) -> (r: (usize, usize))
    requires
        pair < frequency_count,
        2 * frequency_count <= usize::MAX,
    ensures
        (r.0 as int, r.1 as int) == spec_rope_pair(layout, pair as int, frequency_count as int),
        r.0 < 2 * frequency_count,
        r.1 < 2 * frequency_count,
        r.0 != r.1,
{
    match layout {
        RopeLayout::HalfSplit => (pair, pair + frequency_count),
        RopeLayout::Interleaved => (pair * 2, pair * 2 + 1),
    }
}

/// Positions in the flattened buffers touched by one rotation: the two input/output
/// elements and the shared cosine/sine entry.
#[derive(Debug, Clone, Copy, PartialEq, Eq, Structural)]
pub struct RopeRotation {
    pub first_index: usize,
    pub second_index: usize,
    pub cache_index: usize,
}

/// Flattened positions of pair `pair` of head `head` of token `token`.
pub open spec fn spec_rope_rotation(
    g: RopeGeometry,
    layout: RopeLayout,
    token: int,
    head: int,
    pair: int,
) -> (int, int, int) {
    let row = (token * g.heads + head) * g.head_dim;
    let (a, b) = spec_rope_pair(layout, pair, g.frequency_count as int);
    (row + a, row + b, token * g.frequency_count + pair)
}

/// The positions the rotation of pair `pair` of head `head` of token `token` reads and
/// writes. Every position lies inside its buffer.
pub fn rope_rotation(
    g: RopeGeometry,
    layout: RopeLayout,
    token: usize,
    head: usize,
    pair: usize,
) -> (r: RopeRotation)
    requires
        g.tokens * g.heads * g.head_dim <= usize::MAX,
        g.tokens * g.frequency_count <= usize::MAX,
        2 * g.frequency_count <= g.head_dim,
        token < g.tokens,
        head < g.heads,
        pair < g.frequency_count,
    ensures
        (r.first_index as int, r.second_index as int, r.cache_index as int) == spec_rope_rotation(
            g,
            layout,
            token as int,
            head as int,
            pair as int,
        ),
        r.first_index < g.tokens * g.heads * g.head_dim,
        r.second_index < g.tokens * g.heads * g.head_dim,
        r.cache_index < g.tokens * g.frequency_count,
{
    let ghost th: int = token as int * g.heads as int + head as int;
    assert(th < g.tokens * g.heads) by (nonlinear_arith)
        requires
            th == token * g.heads + head,
            token < g.tokens,
            head < g.heads,
    ;
    assert(g.tokens * g.heads <= g.tokens * g.heads * g.head_dim) by (nonlinear_arith)
        requires
            g.head_dim >= 1,
    ;
    assert(token * g.heads <= th);
    assert(th * g.head_dim + g.head_dim <= g.tokens * g.heads * g.head_dim) by (nonlinear_arith)
        requires
            th < g.tokens * g.heads,
            th >= 0,
            g.head_dim >= 0,
    ;
    assert(token * g.frequency_count + pair < g.tokens * g.frequency_count) by (nonlinear_arith)
        requires
            token < g.tokens,
            pair < g.frequency_count,
    ;
    let row = (token * g.heads + head) * g.head_dim;
    let (a, b) = rope_pair(layout, pair, g.frequency_count);
    RopeRotation {
        first_index: row + a,
        second_index: row + b,
        cache_index: token * g.frequency_count + pair,
    }
}

/// Distinct pairs of one head vector touch disjoint elements, all below `rotary_dim`:
/// every element is rotated at most once and the tail passes through.
pub proof fn lemma_rope_pairs_disjoint(layout: RopeLayout, p: int, q: int, frequency_count: int)
    requires
        0 <= p < frequency_count,
        0 <= q < frequency_count,
        p != q,
    ensures
        ({
            let (a, b) = spec_rope_pair(layout, p, frequency_count);
            let (c, d) = spec_rope_pair(layout, q, frequency_count);
            &&& a != c && a != d && b != c && b != d
            &&& 0 <= a < 2 * frequency_count && 0 <= b < 2 * frequency_count
        }),
{
}

} // verus!
