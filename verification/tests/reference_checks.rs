use mote::quant::{
    check_quantized_linear, decode_quantized_row, QuantizedLinearError, QuantizedLinearGeometry,
    QuantizedRow,
};
use mote::reference::{
    check_matmul, check_rms_norm, check_rope, epsilon_is_valid, rope_pair, rope_rotation,
    MatmulError, ReferenceError, RopeError, RopeGeometry,
};
use mote::types::{QuantFormat, RopeLayout};

const EPSILON: f32 = 1e-6;

fn rms(input_len: usize, weight_len: usize, hidden: usize, epsilon: f32) -> Result<usize, ReferenceError> {
    check_rms_norm(input_len, None, weight_len, hidden, epsilon.to_bits())
}

fn fused(
    input_len: usize,
    residual_len: usize,
    weight_len: usize,
    hidden: usize,
    epsilon: f32,
) -> Result<usize, ReferenceError> {
    check_rms_norm(input_len, Some(residual_len), weight_len, hidden, epsilon.to_bits())
}

#[test]
fn empty_input_returns_empty_vec() {
    assert_eq!(rms(0, 4, 4, EPSILON).unwrap(), 0);
}

#[test]
fn rms_norm_f32_zero_hidden_size_is_rejected() {
    assert_eq!(rms(2, 2, 0, EPSILON).unwrap_err(), ReferenceError::ZeroHiddenSize);
}

#[test]
fn rms_norm_f32_weight_length_mismatch_is_rejected() {
    assert_eq!(
        rms(2, 1, 2, EPSILON).unwrap_err(),
        ReferenceError::WeightLengthMismatch {
            weight_len: 1,
            hidden_size: 2
        }
    );
}

#[test]
fn rms_norm_f32_input_not_multiple_of_hidden_size_is_rejected() {
    assert_eq!(
        rms(3, 2, 2, EPSILON).unwrap_err(),
        ReferenceError::InputNotMultiple {
            input_len: 3,
            hidden_size: 2
        }
    );
}

#[test]
fn rms_norm_f32_negative_epsilon_is_rejected() {
    assert_eq!(
        rms(2, 2, 2, -1e-6).unwrap_err(),
        ReferenceError::InvalidEpsilon {
            epsilon_bits: (-1e-6f32).to_bits()
        }
    );
}

#[test]
fn rms_norm_f32_non_finite_epsilon_is_rejected() {
    for epsilon in [f32::NAN, f32::INFINITY, f32::NEG_INFINITY] {
        let err = rms(2, 2, 2, epsilon).unwrap_err();
        assert!(
            matches!(err, ReferenceError::InvalidEpsilon { .. }),
            "epsilon {epsilon} should be rejected"
        );
    }
}

#[test]
fn empty_input_returns_empty_vecs() {
    assert_eq!(fused(0, 0, 4, 4, EPSILON).unwrap(), 0);
}

#[test]
fn fused_add_rms_norm_f32_zero_hidden_size_is_rejected() {
    assert_eq!(fused(2, 2, 2, 0, EPSILON).unwrap_err(), ReferenceError::ZeroHiddenSize);
}

#[test]
fn fused_add_rms_norm_f32_weight_length_mismatch_is_rejected() {
    assert_eq!(
        fused(2, 2, 1, 2, EPSILON).unwrap_err(),
        ReferenceError::WeightLengthMismatch {
            weight_len: 1,
            hidden_size: 2
        }
    );
}

#[test]
fn residual_length_mismatch_is_rejected() {
    assert_eq!(
        fused(2, 1, 2, 2, EPSILON).unwrap_err(),
        ReferenceError::ResidualLengthMismatch {
            residual_len: 1,
            input_len: 2
        }
    );
}

#[test]
fn fused_add_rms_norm_f32_input_not_multiple_of_hidden_size_is_rejected() {
    assert_eq!(
        fused(3, 3, 2, 2, EPSILON).unwrap_err(),
        ReferenceError::InputNotMultiple {
            input_len: 3,
            hidden_size: 2
        }
    );
}

#[test]
fn fused_add_rms_norm_f32_negative_epsilon_is_rejected() {
    assert_eq!(
        fused(2, 2, 2, 2, -1e-6).unwrap_err(),
        ReferenceError::InvalidEpsilon {
            epsilon_bits: (-1e-6f32).to_bits()
        }
    );
}

#[test]
fn fused_add_rms_norm_f32_non_finite_epsilon_is_rejected() {
    for epsilon in [f32::NAN, f32::INFINITY, f32::NEG_INFINITY] {
        let err = fused(2, 2, 2, 2, epsilon).unwrap_err();
        assert!(
            matches!(err, ReferenceError::InvalidEpsilon { .. }),
            "epsilon {epsilon} should be rejected"
        );
    }
}

#[test]
fn epsilon_check_accepts_finite_non_negative_values_only() {
    assert!(epsilon_is_valid(0.0f32.to_bits()));
    assert!(epsilon_is_valid((-0.0f32).to_bits()));
    assert!(epsilon_is_valid(1e-6f32.to_bits()));
    assert!(epsilon_is_valid(f32::MAX.to_bits()));
    assert!(epsilon_is_valid(f32::MIN_POSITIVE.to_bits()));
    assert!(!epsilon_is_valid((-1e-6f32).to_bits()));
    assert!(!epsilon_is_valid(f32::NAN.to_bits()));
    assert!(!epsilon_is_valid(f32::INFINITY.to_bits()));
}

#[test]
fn rms_norm_geometry_counts_rows() {
    assert_eq!(rms(6, 3, 3, EPSILON).unwrap(), 2);
    assert_eq!(fused(8, 8, 4, 4, 0.0).unwrap(), 2);
}

#[test]
fn zero_inner_dimension_produces_zero_matrix() {
    assert_eq!(check_matmul(0, 0, 2, 3, 0).unwrap(), 6);
}

#[test]
fn zero_output_dimension_produces_empty_matrix() {
    assert_eq!(check_matmul(0, 4, 0, 2, 2).unwrap(), 0);
}

#[test]
fn rejects_mismatched_input_lengths() {
    assert_eq!(
        check_matmul(1, 6, 2, 2, 3).unwrap_err(),
        MatmulError::LhsLengthMismatch {
            expected: 6,
            actual: 1,
        }
    );
    assert_eq!(
        check_matmul(6, 1, 2, 2, 3).unwrap_err(),
        MatmulError::RhsLengthMismatch {
            expected: 6,
            actual: 1,
        }
    );
}

#[test]
fn rejects_dimension_overflow() {
    assert_eq!(
        check_matmul(0, 0, usize::MAX, 1, 2).unwrap_err(),
        MatmulError::DimensionsOverflow {
            m: usize::MAX,
            n: 1,
            k: 2,
        }
    );
}

#[test]
fn supports_empty_and_zero_rotary_dimensions() {
    assert_eq!(
        check_rope(0, 0, 0, 0, 3, 8, 8).unwrap(),
        RopeGeometry {
            tokens: 0,
            heads: 3,
            head_dim: 8,
            frequency_count: 4
        }
    );
    assert_eq!(check_rope(2, 0, 0, 1, 1, 2, 0).unwrap().frequency_count, 0);
}

#[test]
fn rejects_invalid_rotary_geometry() {
    assert_eq!(
        check_rope(0, 0, 0, 0, 0, 4, 3).unwrap_err(),
        RopeError::OddRotaryDimension { rotary_dim: 3 }
    );
    assert_eq!(
        check_rope(0, 0, 0, 0, 0, 4, 6).unwrap_err(),
        RopeError::RotaryDimensionTooLarge {
            rotary_dim: 6,
            head_dim: 4,
        }
    );
}

#[test]
fn rejects_mismatched_slice_lengths() {
    assert_eq!(
        check_rope(1, 1, 1, 1, 1, 4, 2).unwrap_err(),
        RopeError::InputLengthMismatch {
            expected: 4,
            actual: 1,
        }
    );
    assert_eq!(
        check_rope(4, 0, 1, 1, 1, 4, 2).unwrap_err(),
        RopeError::CosLengthMismatch {
            expected: 1,
            actual: 0,
        }
    );
    assert_eq!(
        check_rope(4, 1, 0, 1, 1, 4, 2).unwrap_err(),
        RopeError::SinLengthMismatch {
            expected: 1,
            actual: 0,
        }
    );
}

#[test]
fn rope_pairs_follow_the_layout() {
    assert_eq!(rope_pair(RopeLayout::HalfSplit, 1, 4), (1, 5));
    assert_eq!(rope_pair(RopeLayout::Interleaved, 1, 4), (2, 3));
    let geometry = RopeGeometry {
        tokens: 2,
        heads: 2,
        head_dim: 8,
        frequency_count: 4,
    };
    let rotation = rope_rotation(geometry, RopeLayout::HalfSplit, 1, 0, 3);
    assert_eq!((rotation.first_index, rotation.second_index), (19, 23));
    assert_eq!(rotation.cache_index, 7);
    let rotation = rope_rotation(geometry, RopeLayout::Interleaved, 1, 1, 3);
    assert_eq!((rotation.first_index, rotation.second_index), (30, 31));
    assert_eq!(rotation.cache_index, 7);
}

fn q4_0_block(scale_bits: u16, quants: [u8; 16]) -> Vec<u8> {
    let mut block = Vec::from(scale_bits.to_le_bytes());
    block.extend_from_slice(&quants);
    block
}

fn q8_0_block(scale_bits: u16, quants: [i8; 32]) -> Vec<u8> {
    let mut block = Vec::from(scale_bits.to_le_bytes());
    block.extend(quants.map(|value| value as u8));
    block
}

/// The value element `e` of a decoded row stands for.
fn value(row: &QuantizedRow, block_elements: usize, e: usize) -> f32 {
    half::f16::from_bits(row.scale_bits[e / block_elements]).to_f32() * row.quants[e] as f32
}

fn values(row: &QuantizedRow, block_elements: usize) -> Vec<f32> {
    (0..row.quants.len()).map(|e| value(row, block_elements, e)).collect()
}

#[test]
fn decodes_q4_0_low_and_high_nibbles_into_separate_half_blocks() {
    let mut quants = [0x88; 16];
    quants[0] = 0xf0;
    quants[1] = 0x78;
    let decoded = decode_quantized_row(&q4_0_block(0x4000, quants), QuantFormat::Q4_0, 32).unwrap();

    let mut expected = vec![0.0; 32];
    expected[0] = -16.0;
    expected[16] = 14.0;
    expected[17] = -2.0;
    assert_eq!(values(&decoded, 32), expected);
    assert_eq!(decoded.scale_bits, vec![0x4000]);
    assert_eq!((decoded.quants[0], decoded.quants[16], decoded.quants[17]), (-8, 7, -1));
}

#[test]
fn q4_0_keeps_consecutive_blocks_separate() {
    let first = q4_0_block(0x3c00, [0x99; 16]);
    let second = q4_0_block(0x3800, [0x66; 16]);
    let bytes = [first, second].concat();

    let decoded = values(&decode_quantized_row(&bytes, QuantFormat::Q4_0, 64).unwrap(), 32);
    assert_eq!(&decoded[..32], &[1.0; 32]);
    assert_eq!(&decoded[32..], &[-1.0; 32]);
}

#[test]
fn decodes_q8_0_signed_values_and_f16_scale() {
    let mut quants = [0i8; 32];
    quants[..5].copy_from_slice(&[-128, -1, 0, 1, 127]);
    let decoded = values(
        &decode_quantized_row(&q8_0_block(0x3800, quants), QuantFormat::Q8_0, 32).unwrap(),
        32,
    );

    assert_eq!(&decoded[..5], &[-64.0, -0.5, 0.0, 0.5, 63.5]);
    assert!(decoded[5..].iter().all(|&value| value == 0.0));
}

#[test]
fn accepts_empty_but_block_aligned_linear_geometries() {
    assert_eq!(
        check_quantized_linear(0, 0, QuantFormat::Q4_0, 3, 2, 0).unwrap(),
        QuantizedLinearGeometry {
            row_bytes: 0,
            output_len: 6
        }
    );
    assert_eq!(
        check_quantized_linear(0, 68, QuantFormat::Q8_0, 0, 2, 32).unwrap().output_len,
        0
    );
    assert!(decode_quantized_row(&[], QuantFormat::Q8_0, 0).unwrap().quants.is_empty());
}

#[test]
fn rejects_unsupported_formats_before_interpreting_their_bytes() {
    for format in [QuantFormat::Q4_K, QuantFormat::Q6_K] {
        assert_eq!(
            decode_quantized_row(&[], format, 0),
            Err(QuantizedLinearError::UnsupportedFormat { format })
        );
        assert_eq!(
            check_quantized_linear(0, 0, format, 0, 0, 0),
            Err(QuantizedLinearError::UnsupportedFormat { format })
        );
    }
}

#[test]
fn rejects_misaligned_rows_and_inexact_slice_lengths() {
    assert_eq!(
        decode_quantized_row(&[], QuantFormat::Q4_0, 31),
        Err(QuantizedLinearError::RowMisaligned {
            format: QuantFormat::Q4_0,
            row_elements: 31,
            block_elements: 32,
        })
    );
    assert_eq!(
        decode_quantized_row(&[0; 17], QuantFormat::Q4_0, 32),
        Err(QuantizedLinearError::RowByteLengthMismatch {
            expected: 18,
            actual: 17,
        })
    );
    assert_eq!(
        check_quantized_linear(31, 18, QuantFormat::Q4_0, 1, 1, 32),
        Err(QuantizedLinearError::InputLengthMismatch {
            expected: 32,
            actual: 31,
        })
    );
    assert_eq!(
        check_quantized_linear(32, 17, QuantFormat::Q4_0, 1, 1, 32),
        Err(QuantizedLinearError::WeightLengthMismatch {
            expected: 18,
            actual: 17,
        })
    );
}

#[test]
fn rejects_dimension_products_and_encoded_row_sizes_that_overflow() {
    assert_eq!(
        check_quantized_linear(0, 0, QuantFormat::Q4_0, usize::MAX, 1, 32),
        Err(QuantizedLinearError::DimensionsOverflow {
            rows: usize::MAX,
            output_features: 1,
            input_features: 32,
        })
    );

    let huge_q8_row = (usize::MAX / 32) * 32;
    assert_eq!(
        decode_quantized_row(&[], QuantFormat::Q8_0, huge_q8_row),
        Err(QuantizedLinearError::DimensionsOverflow {
            rows: 1,
            output_features: 1,
            input_features: huge_q8_row,
        })
    );
}
