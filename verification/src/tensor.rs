//! Tensors: a descriptor placed at a byte offset inside a storage.
use vstd::prelude::*;
use crate::storage::{Storage, StorageId, StorageView};
use crate::types::{Device, TensorDesc, TensorDescView};

verus! {

#[derive(Debug, Clone, Copy, PartialEq, Eq, Structural)]
pub enum TensorError {
    /// The offset lies past the end of the storage.
    OffsetOutOfBounds { byte_offset: usize, storage_size: usize },
    /// `byte_offset + span_bytes` does not fit `usize`.
    ByteRangeOverflow { byte_offset: usize, span_bytes: usize },
    /// The byte range `[byte_offset, end_offset)` runs past the end of the storage.
    StorageTooSmall { byte_offset: usize, end_offset: usize, storage_size: usize },
    /// The offset, or the storage's base alignment, does not meet the encoding's alignment.
    Misaligned { byte_offset: usize, required_alignment: usize, storage_alignment: usize },
}

/// The first reason, in checking order, why `desc` cannot be placed at `byte_offset` in a
/// storage of the given size and base alignment.
pub open spec fn placement_error(
    desc: TensorDescView,
    storage_size: usize,
    storage_alignment: usize,
    byte_offset: usize,
) -> Option<TensorError> {
    let span = desc.span_bytes();
    let align = desc.required_alignment();
    if byte_offset > storage_size {
        Some(TensorError::OffsetOutOfBounds { byte_offset, storage_size })
    } else if byte_offset + span > usize::MAX {
        Some(TensorError::ByteRangeOverflow { byte_offset, span_bytes: span as usize })
    } else if byte_offset + span > storage_size {
        Some(
            TensorError::StorageTooSmall {
                byte_offset,
                end_offset: (byte_offset + span) as usize,
                storage_size,
            },
        )
    } else if span != 0 && (storage_alignment < align || (byte_offset as nat) % align != 0) {
        Some(
            TensorError::Misaligned {
                byte_offset,
                required_alignment: align as usize,
                storage_alignment,
            },
        )
    } else {
        None
    }
}

/// Model of a tensor.
pub struct TensorView {
    pub desc: TensorDescView,
    pub storage: StorageView,
    pub byte_offset: usize,
}

#[derive(Debug)]
pub struct Tensor<I> {
    desc: TensorDesc,
    storage: Storage<I>,
    byte_offset: usize,
}

impl<I> View for Tensor<I> {
    type V = TensorView;

    closed spec fn view(&self) -> TensorView {
        TensorView { desc: self.desc@, storage: self.storage@, byte_offset: self.byte_offset }
    }
}

impl<I> Tensor<I> {
    #[verifier::type_invariant]
    spec fn wf(self) -> bool {
        placement_error(
            self.desc@,
            self.storage@.size_bytes,
            self.storage@.alignment,
            self.byte_offset,
        ) is None
    }

    /// The backend implementation of the tensor's storage.
    pub closed spec fn spec_implementation(&self) -> I {
        self.storage.spec_implementation()
    }

    /// Places `desc` at `byte_offset` inside `storage`, checking that the whole byte span
    /// lies inside the storage and, for a non-empty span, that the start is aligned.
    pub fn new(desc: TensorDesc, storage: Storage<I>, byte_offset: usize) -> (r: Result<
        Tensor<I>,
        TensorError,
    >)
        ensures
            match r {
                Ok(t) => {
                    &&& placement_error(
                        desc@,
                        storage@.size_bytes,
                        storage@.alignment,
                        byte_offset,
                    ) is None
                    &&& t@ == (TensorView { desc: desc@, storage: storage@, byte_offset })
                    &&& t.spec_implementation() == storage.spec_implementation()
                    &&& byte_offset + desc@.span_bytes() <= storage@.size_bytes
                    &&& desc@.span_bytes() != 0 ==> (byte_offset as nat) % desc@.required_alignment()
                        == 0
                },
                Err(e) => placement_error(
                    desc@,
                    storage@.size_bytes,
                    storage@.alignment,
                    byte_offset,
                ) == Some(e),
            },
    {
        let storage_size = storage.size_bytes();
        if byte_offset > storage_size {
            return Err(TensorError::OffsetOutOfBounds { byte_offset, storage_size });
        }
        let span_bytes = desc.required_span_bytes();
        let end_offset = match byte_offset.checked_add(span_bytes) {
            Some(end) => end,
            None => {
                return Err(TensorError::ByteRangeOverflow { byte_offset, span_bytes });
            },
        };
        if end_offset > storage_size {
            return Err(TensorError::StorageTooSmall { byte_offset, end_offset, storage_size });
        }
        if span_bytes != 0 {
            let required_alignment = desc.required_alignment();
            let storage_alignment = storage.alignment();
            if storage_alignment < required_alignment || byte_offset % required_alignment != 0 {
                return Err(
                    TensorError::Misaligned { byte_offset, required_alignment, storage_alignment },
                );
            }
        }
        Ok(Tensor { desc, storage, byte_offset })
    }

    pub fn desc(&self) -> (r: &TensorDesc)
        ensures
            r@ == self@.desc,
    {
        &self.desc
    }

    pub fn storage(&self) -> (r: &Storage<I>)
        ensures
            r@ == self@.storage,
            r.spec_implementation() == self.spec_implementation(),
    {
        &self.storage
    }

    pub fn storage_id(&self) -> (r: StorageId)
        ensures
            r.value() == self@.storage.id,
    {
        self.storage.id()
    }

    pub fn device(&self) -> (r: &Device)
        ensures
            *r == self@.storage.device,
    {
        self.storage.device()
    }

    pub fn byte_offset(&self) -> (r: usize)
        ensures
            r == self@.byte_offset,
            r + self@.desc.span_bytes() <= self@.storage.size_bytes,
    {
        proof {
            use_type_invariant(self);
        }
        self.byte_offset
    }

    /// Whether both tensors live in the same allocation.
    pub fn shares_storage_with(&self, other: &Self) -> (r: bool)
        ensures
            r == (self@.storage.id == other@.storage.id),
    {
        self.storage.shares_allocation_with(&other.storage)
    }
}

impl<I> Clone for Tensor<I> {
    fn clone(&self) -> (r: Self)
        ensures
            r@ == self@,
            r.spec_implementation() == self.spec_implementation(),
    {
        proof {
            use_type_invariant(self);
        }
        Tensor { desc: self.desc.clone(), storage: self.storage.clone(), byte_offset: self.byte_offset }
    }
}

} // verus!
