//! Operand checks shared by the device backends.
use vstd::prelude::*;
use crate::tensor::{Tensor, TensorView};
use crate::types::{DType, Device, Encoding, Layout, LayoutView, Shape};

pub mod cube;
pub mod hip;
pub mod vulkan;

verus! {

/// A rejected operand.
#[allow(inconsistent_fields)]
#[derive(Debug)]
pub enum TensorCheckError {
    DTypeMismatch { tensor: &'static str, expected: DType, actual: DType },
    UnsupportedEncoding { actual: Encoding },
    RankMismatch { tensor: &'static str, expected: usize, actual: usize },
    RankTooSmall { tensor: &'static str, minimum: usize, actual: usize },
    ShapeMismatch { tensor: &'static str, expected: Shape, actual: Shape },
    UnsupportedLayout { actual: Layout },
    DeviceMismatch { expected: Device, actual: Device },
    UnsupportedByteOffset { byte_offset: usize },
    WrongStorage,
    AliasedStorage { tensor: &'static str, other: &'static str },
}

/// Model of a rejected operand.
#[allow(inconsistent_fields)]
pub enum TensorCheckErrorView {
    DTypeMismatch { tensor: &'static str, expected: DType, actual: DType },
    UnsupportedEncoding { actual: Encoding },
    RankMismatch { tensor: &'static str, expected: usize, actual: usize },
    RankTooSmall { tensor: &'static str, minimum: usize, actual: usize },
    ShapeMismatch { tensor: &'static str, expected: Seq<usize>, actual: Seq<usize> },
    UnsupportedLayout { actual: LayoutView },
    DeviceMismatch { expected: Device, actual: Device },
    UnsupportedByteOffset { byte_offset: usize },
    WrongStorage,
    AliasedStorage { tensor: &'static str, other: &'static str },
}

impl View for TensorCheckError {
    type V = TensorCheckErrorView;

    open spec fn view(&self) -> TensorCheckErrorView {
        match self {
            TensorCheckError::DTypeMismatch { tensor, expected, actual } => {
                TensorCheckErrorView::DTypeMismatch {
                    tensor: *tensor,
                    expected: *expected,
                    actual: *actual,
                }
            },
            TensorCheckError::UnsupportedEncoding { actual } => {
                TensorCheckErrorView::UnsupportedEncoding { actual: *actual }
            },
            TensorCheckError::RankMismatch { tensor, expected, actual } => {
                TensorCheckErrorView::RankMismatch {
                    tensor: *tensor,
                    expected: *expected,
                    actual: *actual,
                }
            },
            TensorCheckError::RankTooSmall { tensor, minimum, actual } => {
                TensorCheckErrorView::RankTooSmall {
                    tensor: *tensor,
                    minimum: *minimum,
                    actual: *actual,
                }
            },
            TensorCheckError::ShapeMismatch { tensor, expected, actual } => {
                TensorCheckErrorView::ShapeMismatch {
                    tensor: *tensor,
                    expected: expected@,
                    actual: actual@,
                }
            },
            TensorCheckError::UnsupportedLayout { actual } => {
                TensorCheckErrorView::UnsupportedLayout { actual: actual@ }
            },
            TensorCheckError::DeviceMismatch { expected, actual } => {
                TensorCheckErrorView::DeviceMismatch { expected: *expected, actual: *actual }
            },
            TensorCheckError::UnsupportedByteOffset { byte_offset } => {
                TensorCheckErrorView::UnsupportedByteOffset { byte_offset: *byte_offset }
            },
            TensorCheckError::WrongStorage => TensorCheckErrorView::WrongStorage,
            TensorCheckError::AliasedStorage { tensor, other } => {
                TensorCheckErrorView::AliasedStorage { tensor: *tensor, other: *other }
            },
        }
    }
}

/// Rejects an operand that is not plain `expected` elements.
pub open spec fn plain_dtype_error(name: &'static str, t: TensorView, expected: DType) -> Option<
    TensorCheckErrorView,
> {
    match t.desc.encoding {
        Encoding::Plain(actual) => if actual == expected {
            None
        } else {
            Some(TensorCheckErrorView::DTypeMismatch { tensor: name, expected, actual })
        },
        Encoding::Quantized(_) => Some(
            TensorCheckErrorView::UnsupportedEncoding { actual: t.desc.encoding },
        ),
    }
}

/// Rejects an operand whose rank is not `expected`.
pub open spec fn rank_error(name: &'static str, t: TensorView, expected: usize) -> Option<
    TensorCheckErrorView,
> {
    if t.desc.dims.len() != expected {
        Some(
            TensorCheckErrorView::RankMismatch {
                tensor: name,
                expected,
                actual: t.desc.dims.len() as usize,
            },
        )
    } else {
        None
    }
}

/// Rejects an operand that is not a plain rank-2 matrix of `dtype`.
pub open spec fn matrix_error(name: &'static str, t: TensorView, dtype: DType) -> Option<
    TensorCheckErrorView,
> {
    if plain_dtype_error(name, t, dtype) is Some {
        plain_dtype_error(name, t, dtype)
    } else {
        rank_error(name, t, 2)
    }
}

/// Rejects an operand whose rank is below `minimum`.
pub open spec fn min_rank_error(name: &'static str, t: TensorView, minimum: usize) -> Option<
    TensorCheckErrorView,
> {
    if t.desc.dims.len() < minimum {
        Some(
            TensorCheckErrorView::RankTooSmall {
                tensor: name,
                minimum,
                actual: t.desc.dims.len() as usize,
            },
        )
    } else {
        None
    }
}

/// Rejects an operand whose shape is not `expected`.
pub open spec fn shape_error(name: &'static str, expected: Seq<usize>, t: TensorView) -> Option<
    TensorCheckErrorView,
> {
    if t.desc.dims != expected {
        Some(
            TensorCheckErrorView::ShapeMismatch { tensor: name, expected, actual: t.desc.dims },
        )
    } else {
        None
    }
}

/// Rejects an operand a context cannot hand to its kernels: one on another device, at a
/// non-zero offset, not contiguous, or (`owned` false) in storage the context did not
/// allocate.
pub open spec fn binding_error(context_device: Device, t: TensorView, owned: bool) -> Option<
    TensorCheckErrorView,
> {
    if t.storage.device != context_device {
        Some(
            TensorCheckErrorView::DeviceMismatch { expected: context_device, actual: t.storage.device },
        )
    } else if t.byte_offset != 0 {
        Some(TensorCheckErrorView::UnsupportedByteOffset { byte_offset: t.byte_offset })
    } else if !(t.desc.layout is Contiguous) {
        Some(TensorCheckErrorView::UnsupportedLayout { actual: t.desc.layout })
    } else if !owned {
        Some(TensorCheckErrorView::WrongStorage)
    } else {
        None
    }
}

/// Rejects two operands that live in the same allocation.
pub open spec fn alias_error(
    name: &'static str,
    t: TensorView,
    other_name: &'static str,
    other: TensorView,
) -> Option<TensorCheckErrorView> {
    if t.storage.id == other.storage.id {
        Some(TensorCheckErrorView::AliasedStorage { tensor: name, other: other_name })
    } else {
        None
    }
}

/// The first error of two checks run in order.
pub open spec fn first_of(
    a: Option<TensorCheckErrorView>,
    b: Option<TensorCheckErrorView>,
) -> Option<TensorCheckErrorView> {
    if a is Some {
        a
    } else {
        b
    }
}

/// Exact outcome of a check given its specification.
pub open spec fn check_outcome(r: Result<(), TensorCheckError>, spec: Option<TensorCheckErrorView>) -> bool {
    match r {
        Ok(()) => spec is None,
        Err(e) => spec == Some(e@),
    }
}

pub fn check_plain_dtype<I>(name: &'static str, t: &Tensor<I>, expected: DType) -> (r: Result<
    (),
    TensorCheckError,
>)
    ensures
        check_outcome(r, plain_dtype_error(name, t@, expected)),
{
    match *t.desc().encoding() {
        Encoding::Plain(actual) => {
            if actual == expected {
                Ok(())
            } else {
                Err(TensorCheckError::DTypeMismatch { tensor: name, expected, actual })
            }
        },
        Encoding::Quantized(format) => Err(
            TensorCheckError::UnsupportedEncoding { actual: Encoding::Quantized(format) },
        ),
    }
}

pub fn check_rank<I>(name: &'static str, t: &Tensor<I>, expected: usize) -> (r: Result<
    (),
    TensorCheckError,
>)
    ensures
        check_outcome(r, rank_error(name, t@, expected)),
{
    let actual = t.desc().rank();
    if actual != expected {
        Err(TensorCheckError::RankMismatch { tensor: name, expected, actual })
    } else {
        Ok(())
    }
}

pub fn check_min_rank<I>(name: &'static str, t: &Tensor<I>, minimum: usize) -> (r: Result<
    (),
    TensorCheckError,
>)
    ensures
        check_outcome(r, min_rank_error(name, t@, minimum)),
{
    let actual = t.desc().rank();
    if actual < minimum {
        Err(TensorCheckError::RankTooSmall { tensor: name, minimum, actual })
    } else {
        Ok(())
    }
}

/// Checks that `t` is a plain rank-2 matrix of `dtype`.
pub fn check_plain_matrix<I>(name: &'static str, t: &Tensor<I>, dtype: DType) -> (r: Result<
    (),
    TensorCheckError,
>)
    ensures
        check_outcome(r, matrix_error(name, t@, dtype)),
{
    check_plain_dtype(name, t, dtype)?;
    check_rank(name, t, 2)
}

/// Checks that `t` has the shape `expected`.
pub fn check_shape<I>(name: &'static str, expected: Shape, t: &Tensor<I>) -> (r: Result<
    (),
    TensorCheckError,
>)
    ensures
        check_outcome(r, shape_error(name, expected@, t@)),
{
    if *t.desc().shape() != expected {
        Err(TensorCheckError::ShapeMismatch { tensor: name, expected, actual: t.desc().shape().clone() })
    } else {
        Ok(())
    }
}

/// Checks that `actual` has the shape of `reference`.
pub fn check_same_shape<I>(name: &'static str, reference: &Tensor<I>, actual: &Tensor<I>) -> (r:
    Result<(), TensorCheckError>)
    ensures
        check_outcome(r, shape_error(name, reference@.desc.dims, actual@)),
{
    check_shape(name, reference.desc().shape().clone(), actual)
}

/// Checks that a context on `context_device` can hand `t` to its kernels; `owned` tells
/// whether the context allocated the tensor's storage.
pub fn check_binding<I>(context_device: Device, t: &Tensor<I>, owned: bool) -> (r: Result<
    (),
    TensorCheckError,
>)
    ensures
        check_outcome(r, binding_error(context_device, t@, owned)),
{
    if *t.device() != context_device {
        return Err(TensorCheckError::DeviceMismatch { expected: context_device, actual: *t.device() });
    }
    if t.byte_offset() != 0 {
        return Err(TensorCheckError::UnsupportedByteOffset { byte_offset: t.byte_offset() });
    }
    if !t.desc().is_contiguous() {
        return Err(TensorCheckError::UnsupportedLayout { actual: t.desc().layout().clone() });
    }
    if !owned {
        return Err(TensorCheckError::WrongStorage);
    }
    Ok(())
}

/// Checks that `t` and `other` live in different allocations.
pub fn check_not_aliased<I>(
    name: &'static str,
    t: &Tensor<I>,
    other_name: &'static str,
    other: &Tensor<I>,
) -> (r: Result<(), TensorCheckError>)
    ensures
        check_outcome(r, alias_error(name, t@, other_name, other@)),
{
    if t.shares_storage_with(other) {
        Err(TensorCheckError::AliasedStorage { tensor: name, other: other_name })
    } else {
        Ok(())
    }
}

/// Groups of `group_size` invocations that cover `numel` elements: the ceiling of
/// their quotient.
pub open spec fn workgroups(numel: int, group_size: int) -> int {
    (numel + group_size - 1) / group_size
}

/// A grid of `workgroups(numel, group_size)` groups covers every element, and only its
/// last group can be partial.
pub proof fn lemma_workgroups_cover(numel: int, group_size: int)
    requires
        numel >= 0,
        group_size > 0,
    ensures
        workgroups(numel, group_size) * group_size >= numel,
        numel > 0 ==> (workgroups(numel, group_size) - 1) * group_size < numel,
        numel == 0 ==> workgroups(numel, group_size) == 0,
{
    let g = workgroups(numel, group_size);
    assert(g * group_size >= numel && (numel > 0 ==> (g - 1) * group_size < numel)
        && (numel == 0 ==> g == 0)) by (nonlinear_arith)
        requires
            g == (numel + group_size - 1) / group_size,
            numel >= 0,
            group_size > 0,
    ;
}

/// Row-major element strides of a contiguous tensor: the product of the later extents.
pub open spec fn contiguous_stride(dims: Seq<usize>, axis: int) -> nat {
    crate::types::dims_product(dims.subrange(axis + 1, dims.len() as int))
}

} // verus!
