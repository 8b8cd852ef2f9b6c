//! GGML-compatible block quantization: row geometry and the integer decoding of
//! `Q4_0` and `Q8_0` rows.
use vstd::prelude::*;
use vstd::arithmetic::div_mod::lemma_fundamental_div_mod_converse;
use crate::types::QuantFormat;

verus! {

/// Errors reported by the block-quantized reference operators.
#[derive(Debug, Clone, Copy, PartialEq, Eq, Structural)]
pub enum QuantizedLinearError {
    /// The format has a geometry but no decoder yet.
    UnsupportedFormat { format: QuantFormat },
    /// A row must contain an integral number of blocks.
    RowMisaligned { format: QuantFormat, row_elements: usize, block_elements: usize },
    /// A dimension product or physical byte count did not fit in `usize`.
    DimensionsOverflow { rows: usize, output_features: usize, input_features: usize },
    /// The plain activation slice did not match `[rows, input_features]`.
    InputLengthMismatch { expected: usize, actual: usize },
    /// The encoded weights did not match `[output_features, input_features]`.
    WeightLengthMismatch { expected: usize, actual: usize },
    /// The encoded row bytes did not match one complete quantized row.
    RowByteLengthMismatch { expected: usize, actual: usize },
}

/// Formats this library can decode.
pub open spec fn decodable(format: QuantFormat) -> bool {
    format is Q4_0 || format is Q8_0
}

/// Encoded size of a row of `row_elements` elements.
pub open spec fn spec_row_bytes(format: QuantFormat, row_elements: int) -> int {
    row_elements / (format.spec_block_elements() as int) * (format.spec_block_bytes() as int)
}

/// The first reason, in checking order, a row of `row_elements` elements has no
/// encoded size. `rows` and `output_features` only label the overflow error.
pub open spec fn row_bytes_error(
    format: QuantFormat,
    row_elements: usize,
    rows: usize,
    output_features: usize,
) -> Option<QuantizedLinearError> {
    if !decodable(format) {
        Some(QuantizedLinearError::UnsupportedFormat { format })
    } else if (row_elements as nat) % format.spec_block_elements() != 0 {
        Some(
            QuantizedLinearError::RowMisaligned {
                format,
                row_elements,
                block_elements: format.spec_block_elements() as usize,
            },
        )
    } else if spec_row_bytes(format, row_elements as int) > usize::MAX {
        Some(
            QuantizedLinearError::DimensionsOverflow {
                rows,
                output_features,
                input_features: row_elements,
            },
        )
    } else {
        None
    }
}

/// Encoded size of one row of `row_elements` elements.
pub fn checked_row_bytes(
    format: QuantFormat,
    row_elements: usize,
    rows: usize,
    output_features: usize,
) -> (r: Result<usize, QuantizedLinearError>)
    ensures
        match r {
            Ok(n) => {
                &&& row_bytes_error(format, row_elements, rows, output_features) is None
                &&& n == spec_row_bytes(format, row_elements as int)
            },
            Err(e) => row_bytes_error(format, row_elements, rows, output_features) == Some(e),
        },
{
    match format {
        QuantFormat::Q4_0 | QuantFormat::Q8_0 => {},
        QuantFormat::Q4_K | QuantFormat::Q6_K => {
            return Err(QuantizedLinearError::UnsupportedFormat { format });
        },
    }
    let block_elements = format.block_elements();
    if row_elements % block_elements != 0 {
        return Err(QuantizedLinearError::RowMisaligned { format, row_elements, block_elements });
    }
    match (row_elements / block_elements).checked_mul(format.block_bytes()) {
        Some(n) => Ok(n),
        None => Err(
            QuantizedLinearError::DimensionsOverflow {
                rows,
                output_features,
                input_features: row_elements,
            },
        ),
    }
}

/// The first reason, in checking order, an encoded row is rejected.
pub open spec fn row_error(bytes_len: usize, format: QuantFormat, row_elements: usize) -> Option<
    QuantizedLinearError,
> {
    if row_bytes_error(format, row_elements, 1, 1) is Some {
        row_bytes_error(format, row_elements, 1, 1)
    } else if bytes_len != spec_row_bytes(format, row_elements as int) {
        Some(
            QuantizedLinearError::RowByteLengthMismatch {
                expected: spec_row_bytes(format, row_elements as int) as usize,
                actual: bytes_len,
            },
        )
    } else {
        None
    }
}

/// Checks that `bytes_len` bytes hold exactly one encoded row of `row_elements` elements.
pub fn check_quantized_row(bytes_len: usize, format: QuantFormat, row_elements: usize) -> (r:
    Result<usize, QuantizedLinearError>)
    ensures
        match r {
            Ok(n) => {
                &&& row_error(bytes_len, format, row_elements) is None
                &&& n == spec_row_bytes(format, row_elements as int)
            },
            Err(e) => row_error(bytes_len, format, row_elements) == Some(e),
        },
{
    let row_bytes = match checked_row_bytes(format, row_elements, 1, 1) {
        Ok(n) => n,
        Err(e) => {
            return Err(e);
        },
    };
    if bytes_len != row_bytes {
        return Err(
            QuantizedLinearError::RowByteLengthMismatch { expected: row_bytes, actual: bytes_len },
        );
    }
    Ok(row_bytes)
}

/// Validated geometry of a quantized linear operator.
#[derive(Debug, Clone, Copy, PartialEq, Eq, Structural)]
pub struct QuantizedLinearGeometry {
    /// Encoded bytes of one weight row.
    pub row_bytes: usize,
    /// Elements of the `[rows, output_features]` output.
    pub output_len: usize,
}

/// The first reason, in checking order, a quantized linear call is rejected.
pub open spec fn quantized_linear_error(
    input_len: usize,
    weights_len: usize,
    format: QuantFormat,
    rows: usize,
    output_features: usize,
    input_features: usize,
) -> Option<QuantizedLinearError> {
    let rb = spec_row_bytes(format, input_features as int);
    let overflow = QuantizedLinearError::DimensionsOverflow {
        rows,
        output_features,
        input_features,
    };
    if row_bytes_error(format, input_features, rows, output_features) is Some {
        row_bytes_error(format, input_features, rows, output_features)
    } else if rows * input_features > usize::MAX {
        Some(overflow)
    } else if output_features * rb > usize::MAX {
        Some(overflow)
    } else if rows * output_features > usize::MAX {
        Some(overflow)
    } else if input_len != rows * input_features {
        Some(
            QuantizedLinearError::InputLengthMismatch {
                expected: (rows * input_features) as usize,
                actual: input_len,
            },
        )
    } else if weights_len != output_features * rb {
        Some(
            QuantizedLinearError::WeightLengthMismatch {
                expected: (output_features * rb) as usize,
                actual: weights_len,
            },
        )
    } else {
        None
    }
}

/// Checks a quantized linear call: plain `[rows, input_features]` input against
/// `[output_features, input_features]` weights encoded row by row.
pub fn check_quantized_linear(
    input_len: usize,
    weights_len: usize,
    format: QuantFormat,
    rows: usize,
    output_features: usize,
    input_features: usize,
) -> (r: Result<QuantizedLinearGeometry, QuantizedLinearError>)
    ensures
        match r {
            Ok(g) => {
                &&& quantized_linear_error(
                    input_len,
                    weights_len,
                    format,
                    rows,
                    output_features,
                    input_features,
                ) is None
                &&& g.row_bytes == spec_row_bytes(format, input_features as int)
                &&& g.output_len == rows * output_features
            },
            Err(e) => quantized_linear_error(
                input_len,
                weights_len,
                format,
                rows,
                output_features,
                input_features,
            ) == Some(e),
        },
{
    let overflow = QuantizedLinearError::DimensionsOverflow {
        rows,
        output_features,
        input_features,
    };
    let row_bytes = match checked_row_bytes(format, input_features, rows, output_features) {
        Ok(n) => n,
        Err(e) => {
            return Err(e);
        },
    };
    let expected_input = match rows.checked_mul(input_features) {
        Some(v) => v,
        None => {
            return Err(overflow);
        },
    };
    let expected_weights = match output_features.checked_mul(row_bytes) {
        Some(v) => v,
        None => {
            return Err(overflow);
        },
    };
    let output_len = match rows.checked_mul(output_features) {
        Some(v) => v,
        None => {
            return Err(overflow);
        },
    };
    if input_len != expected_input {
        return Err(
            QuantizedLinearError::InputLengthMismatch { expected: expected_input, actual: input_len },
        );
    }
    if weights_len != expected_weights {
        return Err(
            QuantizedLinearError::WeightLengthMismatch {
                expected: expected_weights,
                actual: weights_len,
            },
        );
    }
    Ok(QuantizedLinearGeometry { row_bytes, output_len })
}

/// Bits of the little-endian f16 scale that starts block `block` of an encoded row.
pub open spec fn scale_bits_at(bytes: Seq<u8>, format: QuantFormat, block: int) -> int {
    let start = block * format.spec_block_bytes();
    bytes[start] + 256 * bytes[start + 1]
}

/// Integer quantized value of element `element` of an encoded row. A `Q4_0` block holds
/// its scale followed by 16 bytes: byte `j` stores element `j` in its low nibble and
/// element `j + 16` in its high nibble, both with a zero point of 8. A `Q8_0` block holds
/// its scale followed by 32 signed bytes.
pub open spec fn quant_value(bytes: Seq<u8>, format: QuantFormat, element: int) -> int {
    let be = format.spec_block_elements() as int;
    let block = element / be;
    let j = element % be;
    let start = block * format.spec_block_bytes();
    match format {
        QuantFormat::Q4_0 => {
            let byte = bytes[start + 2 + j % 16] as int;
            if j < 16 {
                byte % 16 - 8
            } else {
                byte / 16 - 8
            }
        },
        _ => {
            let byte = bytes[start + 2 + j] as int;
            if byte < 128 {
                byte
            } else {
                byte - 256
            }
        },
    }
}

/// A decoded row before scaling: one scale per block and one integer per element.
/// Element `e` stands for `quants[e] * f16(scale_bits[e / block_elements])`.
#[derive(Debug, PartialEq, Eq)]
pub struct QuantizedRow {
    pub scale_bits: Vec<u16>,
    pub quants: Vec<i8>,
}

/// Decodes one contiguous encoded row into its block scales and integer values.
pub fn decode_quantized_row(bytes: &[u8], format: QuantFormat, row_elements: usize) -> (r: Result<
    QuantizedRow,
    QuantizedLinearError,
>)
    ensures
        match r {
            Ok(row) => {
                &&& row_error(bytes@.len() as usize, format, row_elements) is None
                &&& row.scale_bits@.len() == row_elements as int
                    / format.spec_block_elements() as int
                &&& row.quants@.len() == row_elements
                &&& forall|b: int|
                    0 <= b < row.scale_bits@.len() ==> row.scale_bits@[b] as int
                        == scale_bits_at(bytes@, format, b)
                &&& forall|e: int|
                    0 <= e < row_elements ==> row.quants@[e] as int == quant_value(
                        bytes@,
                        format,
                        e,
                    )
            },
            Err(e) => row_error(bytes@.len() as usize, format, row_elements) == Some(e),
        },
{
    match check_quantized_row(bytes.len(), format, row_elements) {
        Ok(_) => {},
        Err(e) => {
            return Err(e);
        },
    }
    let be = format.block_elements();
    let bb = format.block_bytes();
    let blocks = row_elements / be;
    assert(blocks * be == row_elements) by (nonlinear_arith)
        requires
            be > 0,
            row_elements % be == 0,
            blocks == row_elements / be,
    ;
    let mut scale_bits: Vec<u16> = Vec::new();
    let mut quants: Vec<i8> = Vec::new();
    let n = bytes.len();
    let mut b: usize = 0;
    while b < blocks
        invariant
            n == bytes@.len(),
            decodable(format),
            be == format.spec_block_elements(),
            bb == format.spec_block_bytes(),
            be == 32,
            blocks * be == row_elements,
            bytes@.len() == blocks * bb,
            b <= blocks,
            scale_bits@.len() == b,
            quants@.len() == b * be,
            forall|k: int|
                0 <= k < b ==> scale_bits@[k] as int == scale_bits_at(bytes@, format, k),
            forall|e: int| 0 <= e < b * be ==> quants@[e] as int == quant_value(bytes@, format, e),
        decreases blocks - b,
    {
        assert(b * bb + bb <= blocks * bb) by (nonlinear_arith)
            requires
                b < blocks,
        ;
        assert(b * bb + bb <= n);
        let start = b * bb;
        let lo = bytes[start] as u16;
        let hi = bytes[start + 1] as u16;
        scale_bits.push(lo + 256 * hi);
        let mut j: usize = 0;
        while j < be
            invariant
                decodable(format),
                be == format.spec_block_elements(),
                bb == format.spec_block_bytes(),
                be == 32,
                bytes@.len() == blocks * bb,
                n == bytes@.len(),
                b < blocks,
                start == b * bb,
                start + bb <= bytes@.len(),
                j <= be,
                quants@.len() == b * be + j,
                forall|e: int|
                    0 <= e < b * be + j ==> quants@[e] as int == quant_value(bytes@, format, e),
            decreases be - j,
        {
            let ghost e = b * be + j;
            proof {
                lemma_fundamental_div_mod_converse(e, be as int, b as int, j as int);
            }
            let q: i8 = match format {
                QuantFormat::Q4_0 => {
                    let byte = bytes[start + 2 + j % 16];
                    if j < 16 {
                        (byte % 16) as i8 - 8
                    } else {
                        (byte / 16) as i8 - 8
                    }
                },
                _ => {
                    let byte = bytes[start + 2 + j];
                    if byte < 128 {
                        byte as i8
                    } else {
                        (byte as i16 - 256) as i8
                    }
                },
            };
            quants.push(q);
            j = j + 1;
        }
        b = b + 1;
        assert(quants@.len() == b * be) by (nonlinear_arith)
            requires
                quants@.len() == (b - 1) * be + be,
        ;
    }
    Ok(QuantizedRow { scale_bits, quants })
}

/// Every `Q4_0` value lies in `[-8, 7]` and every `Q8_0` value in `[-128, 127]`.
pub proof fn lemma_quant_value_range(bytes: Seq<u8>, format: QuantFormat, element: int)
    requires
        decodable(format),
        0 <= element,
        (element / 32 + 1) * format.spec_block_bytes() <= bytes.len(),
    ensures
        format is Q4_0 ==> -8 <= quant_value(bytes, format, element) <= 7,
        format is Q8_0 ==> -128 <= quant_value(bytes, format, element) <= 127,
{
}

} // verus!
