//! Storage identities and the host-memory storage implementation.
use std::sync::Arc;
use vstd::prelude::*;
use vstd::pervasive::arbitrary;
use vstd::arithmetic::power2::is_pow2;
use vstd::bytes::{spec_u64_to_le_bytes, u64_from_le_bytes, u64_to_le_bytes};
use crate::types::Device;

verus! {

/// Identity of one storage allocation; clones of a storage share it.
#[derive(Debug, Clone, Copy, PartialEq, Eq, Structural, Hash)]
pub struct StorageId(u64);

impl StorageId {
    pub closed spec fn value(self) -> u64 {
        self.0
    }

    pub fn get(self) -> (r: u64)
        ensures
            r == self.value(),
    {
        self.0
    }
}

/// An identity is its value: two identities are equal exactly when their values are.
pub proof fn lemma_storage_id_is_its_value(a: StorageId, b: StorageId)
    ensures
        (a.value() == b.value()) == (a == b),
{
}

/// Hands out storage identities: each identity at most once, in increasing order.
#[derive(Debug)]
pub struct StorageIds {
    next: u64,
}

impl View for StorageIds {
    type V = u64;

    /// The identity the next successful request returns.
    closed spec fn view(&self) -> u64 {
        self.next
    }
}

#[derive(Debug, Clone, Copy, PartialEq, Eq, Structural)]
pub enum StorageError {
    /// A storage alignment must be a non-zero power of two.
    InvalidAlignment { alignment: usize },
    /// Every identity has been handed out.
    IdExhausted,
}

impl StorageIds {
    /// Identity 0 is never handed out: the counter starts at 1 and only grows.
    #[verifier::type_invariant]
    spec fn wf(self) -> bool {
        self.next >= 1
    }

    pub fn new() -> (r: StorageIds)
        ensures
            r@ == 1,
    {
        StorageIds { next: 1 }
    }

    /// Returns a new identity, or `IdExhausted` once the identity space is used up.
    pub fn fresh(&mut self) -> (r: Result<StorageId, StorageError>)
        ensures
            match r {
                Ok(id) => {
                    &&& 1 <= old(self)@ < u64::MAX
                    &&& id.value() == old(self)@
                    &&& final(self)@ == old(self)@ + 1
                },
                Err(e) => {
                    &&& old(self)@ == u64::MAX
                    &&& e == StorageError::IdExhausted
                    &&& final(self)@ == old(self)@
                },
            },
    {
        proof {
            use_type_invariant(&*self);
        }
        if self.next == u64::MAX {
            Err(StorageError::IdExhausted)
        } else {
            let id = StorageId(self.next);
            self.next = self.next + 1;
            Ok(id)
        }
    }
}

/// Whether `n` is a positive power of two.
pub fn is_power_of_two(n: usize) -> (r: bool)
    ensures
        r == is_pow2(n as int),
{
    reveal(is_pow2);
    if n == 0 {
        return false;
    }
    let mut x: usize = n;
    while x > 1
        invariant
            x >= 1,
            is_pow2(x as int) == is_pow2(n as int),
        decreases x,
    {
        proof {
            reveal(is_pow2);
        }
        if x % 2 == 1 {
            assert(!is_pow2(x as int));
            return false;
        }
        assert(is_pow2(x as int) == is_pow2((x / 2) as int));
        x = x / 2;
    }
    assert(is_pow2(1));
    true
}

/// A backend-specific allocation that a [`Storage`] describes.
///
/// The spec functions model what an implementation reports. An implementation checked
/// by Verus gives them bodies; one outside Verus is trusted to report these values.
pub trait StorageImpl {
    /// The device the allocation lives on.
    open spec fn spec_device(&self) -> Device {
        arbitrary()
    }

    /// The allocation's size in bytes.
    open spec fn spec_size_bytes(&self) -> usize {
        arbitrary()
    }

    /// The alignment of the allocation's first byte.
    open spec fn spec_alignment(&self) -> usize {
        arbitrary()
    }

    fn device(&self) -> (r: &Device)
        ensures
            *r == self.spec_device(),
    ;

    fn size_bytes(&self) -> (r: usize)
        ensures
            r == self.spec_size_bytes(),
    ;

    fn alignment(&self) -> (r: usize)
        ensures
            r == self.spec_alignment(),
    ;
}

/// Model of a storage: its identity and the properties recorded at creation.
pub struct StorageView {
    pub id: u64,
    pub device: Device,
    pub size_bytes: usize,
    pub alignment: usize,
}

/// `Arc::clone`: a second handle to the same shared value.
#[verifier::external_body]
fn share_arc<I>(handle: &Arc<I>) -> (r: Arc<I>)
    ensures
        r == *handle,
{
    Arc::clone(handle)
}

/// A shared, identified allocation together with its backend implementation.
#[derive(Debug)]
pub struct Storage<I> {
    id: StorageId,
    device: Device,
    size_bytes: usize,
    alignment: usize,
    inner: Arc<I>,
}

impl<I> View for Storage<I> {
    type V = StorageView;

    closed spec fn view(&self) -> StorageView {
        StorageView {
            id: self.id.0,
            device: self.device,
            size_bytes: self.size_bytes,
            alignment: self.alignment,
        }
    }
}

impl<I> Storage<I> {
    /// The implementation this storage wraps.
    pub closed spec fn spec_implementation(&self) -> I {
        *self.inner
    }

    #[verifier::type_invariant]
    spec fn wf(self) -> bool {
        is_pow2(self.alignment as int)
    }

    /// Records the given properties of `inner` under a fresh identity.
    /// Fails with `InvalidAlignment` when `alignment` is not a power of two, before
    /// any identity is consumed, and with `IdExhausted` when no identity is left.
    fn from_parts(
        inner: I,
        device: Device,
        size_bytes: usize,
        alignment: usize,
        ids: &mut StorageIds,
    ) -> (r: Result<Storage<I>, StorageError>)
        ensures
            match r {
                Ok(s) => {
                    &&& is_pow2(alignment as int)
                    &&& 1 <= old(ids)@ < u64::MAX
                    &&& s@ == (StorageView {
                        id: old(ids)@,
                        device,
                        size_bytes,
                        alignment,
                    })
                    &&& s.spec_implementation() == inner
                    &&& final(ids)@ == old(ids)@ + 1
                },
                Err(StorageError::InvalidAlignment { alignment: a }) => {
                    &&& !is_pow2(alignment as int)
                    &&& a == alignment
                    &&& final(ids)@ == old(ids)@
                },
                Err(StorageError::IdExhausted) => {
                    &&& is_pow2(alignment as int)
                    &&& old(ids)@ == u64::MAX
                    &&& final(ids)@ == old(ids)@
                },
            },
    {
        if !is_power_of_two(alignment) {
            return Err(StorageError::InvalidAlignment { alignment });
        }
        let id = match ids.fresh() {
            Ok(id) => id,
            Err(e) => {
                return Err(e);
            },
        };
        Ok(Storage { id, device, size_bytes, alignment, inner: Arc::new(inner) })
    }

    /// Wraps `inner` under a fresh identity, recording the device, size and alignment
    /// that `inner` reports.
    pub fn new(inner: I, ids: &mut StorageIds) -> (r: Result<Storage<I>, StorageError>) where
        I: StorageImpl,

        ensures
            match r {
                Ok(s) => {
                    &&& is_pow2(inner.spec_alignment() as int)
                    &&& 1 <= old(ids)@ < u64::MAX
                    &&& s@ == (StorageView {
                        id: old(ids)@,
                        device: inner.spec_device(),
                        size_bytes: inner.spec_size_bytes(),
                        alignment: inner.spec_alignment(),
                    })
                    &&& s.spec_implementation() == inner
                    &&& final(ids)@ == old(ids)@ + 1
                },
                Err(StorageError::InvalidAlignment { alignment }) => {
                    &&& !is_pow2(inner.spec_alignment() as int)
                    &&& alignment == inner.spec_alignment()
                    &&& final(ids)@ == old(ids)@
                },
                Err(StorageError::IdExhausted) => {
                    &&& is_pow2(inner.spec_alignment() as int)
                    &&& old(ids)@ == u64::MAX
                    &&& final(ids)@ == old(ids)@
                },
            },
    {
        let alignment = inner.alignment();
        let size_bytes = inner.size_bytes();
        let device = *inner.device();
        Self::from_parts(inner, device, size_bytes, alignment, ids)
    }

    pub fn id(&self) -> (r: StorageId)
        ensures
            r.value() == self@.id,
    {
        self.id
    }

    pub fn device(&self) -> (r: &Device)
        ensures
            *r == self@.device,
    {
        &self.device
    }

    pub fn size_bytes(&self) -> (r: usize)
        ensures
            r == self@.size_bytes,
    {
        self.size_bytes
    }

    pub fn alignment(&self) -> (r: usize)
        ensures
            r == self@.alignment,
            is_pow2(r as int),
    {
        proof {
            use_type_invariant(self);
        }
        self.alignment
    }

    /// The backend implementation behind this storage.
    pub fn implementation(&self) -> (r: &I)
        ensures
            *r == self.spec_implementation(),
    {
        &*self.inner
    }

    /// Whether both handles describe the same allocation.
    pub fn shares_allocation_with(&self, other: &Self) -> (r: bool)
        ensures
            r == (self@.id == other@.id),
    {
        self.id.0 == other.id.0
    }
}

impl<I> Clone for Storage<I> {
    fn clone(&self) -> (r: Self)
        ensures
            r@ == self@,
            r.spec_implementation() == self.spec_implementation(),
    {
        proof {
            use_type_invariant(self);
        }
        Storage {
            id: self.id,
            device: self.device,
            size_bytes: self.size_bytes,
            alignment: self.alignment,
            inner: share_arc(&self.inner),
        }
    }
}

/// Host bytes held by a sequence of little-endian 64-bit words.
pub open spec fn words_to_bytes(words: Seq<u64>) -> Seq<u8>
    decreases words.len(),
{
    if words.len() == 0 {
        Seq::empty()
    } else {
        words_to_bytes(words.drop_last()) + spec_u64_to_le_bytes(words.last())
    }
}

proof fn lemma_words_to_bytes_len(words: Seq<u64>)
    ensures
        words_to_bytes(words).len() == 8 * words.len(),
    decreases words.len(),
{
    vstd::bytes::lemma_auto_spec_u64_to_from_le_bytes();
    if words.len() > 0 {
        lemma_words_to_bytes_len(words.drop_last());
    }
}

/// Failure to obtain host memory for a storage.
#[derive(Debug, Clone, Copy, PartialEq, Eq, Structural)]
pub struct CpuStorageError {
    pub size_bytes: usize,
}

/// `Vec::try_reserve_exact`: asks the allocator for room for `additional` more elements.
/// The contents are unchanged. A request for nothing more always succeeds, since std
/// documents that the call does nothing when the capacity already suffices; a capacity
/// beyond `isize::MAX` bytes is always refused, as std documents for every `Vec`. Whether
/// the allocator grants any other request is not stated.
#[verifier::external_body]
fn try_reserve_words(words: &mut Vec<u64>, additional: usize) -> (r: bool)
    ensures
        final(words)@ == old(words)@,
        additional == 0 ==> r,
        (old(words)@.len() + additional) * 8 > isize::MAX ==> !r,
{
    words.try_reserve_exact(additional).is_ok()
}

/// Number of 8-byte words holding `size_bytes` bytes.
fn word_count(size_bytes: usize) -> (r: usize)
    ensures
        8 * r >= size_bytes,
        8 * r < size_bytes + 8,
{
    size_bytes / 8 + if size_bytes % 8 == 0 {
        0
    } else {
        1
    }
}

/// Host memory owned by this process, aligned for 64-bit words.
#[derive(Debug)]
pub struct CpuOwnedStorage {
    device: Device,
    words: Vec<u64>,
    size_bytes: usize,
}

impl View for CpuOwnedStorage {
    type V = Seq<u8>;

    /// The logical bytes of the storage.
    closed spec fn view(&self) -> Seq<u8> {
        words_to_bytes(self.words@).take(self.size_bytes as int)
    }
}

impl CpuOwnedStorage {
    #[verifier::type_invariant]
    spec fn wf(self) -> bool {
        &&& 8 * self.words@.len() >= self.size_bytes
        &&& self.device == Device::cpu()
    }

    /// Word storage for `size_bytes` bytes, all zero.
    fn zero_words(size_bytes: usize) -> (r: Result<Vec<u64>, CpuStorageError>)
        ensures
            match r {
                Ok(words) => {
                    &&& 8 * words@.len() >= size_bytes
                    &&& 8 * words@.len() < size_bytes + 8
                    &&& forall|i: int| 0 <= i < words@.len() ==> words@[i] == 0
                },
                Err(e) => e.size_bytes == size_bytes,
            },
            size_bytes == 0 ==> r is Ok,
            size_bytes > isize::MAX ==> r is Err,
    {
        let count = word_count(size_bytes);
        let mut words: Vec<u64> = Vec::new();
        if !try_reserve_words(&mut words, count) {
            return Err(CpuStorageError { size_bytes });
        }
        let mut i: usize = 0;
        while i < count
            invariant
                i <= count,
                words@.len() == i,
                forall|j: int| 0 <= j < i ==> words@[j] == 0,
            decreases count - i,
        {
            words.push(0);
            i = i + 1;
        }
        Ok(words)
    }

    /// Zero-filled host storage of `size_bytes` bytes; fails only when the allocator
    /// refuses the memory, which never happens for an empty storage.
    pub fn zeroed(size_bytes: usize) -> (r: Result<Self, CpuStorageError>)
        ensures
            match r {
                Ok(s) => {
                    &&& s@ == Seq::new(size_bytes as nat, |i: int| 0u8)
                    &&& s.spec_size_bytes() == size_bytes
                },
                Err(e) => e.size_bytes == size_bytes,
            },
            size_bytes == 0 ==> r is Ok,
            size_bytes > isize::MAX ==> r is Err,
    {
        let words = match Self::zero_words(size_bytes) {
            Ok(w) => w,
            Err(e) => {
                return Err(e);
            },
        };
        proof {
            lemma_zero_words_bytes(words@);
            lemma_words_to_bytes_len(words@);
        }
        let s = CpuOwnedStorage { device: Device::cpu(), words, size_bytes };
        assert(s@ =~= Seq::new(size_bytes as nat, |i: int| 0u8));
        Ok(s)
    }

    /// Packs `bytes`, then zeros, into `count` little-endian words.
    fn pack_words(bytes: &[u8], count: usize) -> (r: Vec<u64>)
        requires
            8 * count >= bytes@.len(),
            8 * count < bytes@.len() + 8,
        ensures
            r@.len() == count,
            words_to_bytes(r@).take(bytes@.len() as int) == bytes@,
    {
        let size_bytes = bytes.len();
        let ghost padded = Seq::new(
            (8 * count) as nat,
            |i: int|
                if i < bytes@.len() {
                    bytes@[i]
                } else {
                    0u8
                },
        );
        let mut filled: Vec<u64> = Vec::new();
        let mut c: usize = 0;
        proof {
            vstd::bytes::lemma_auto_spec_u64_to_from_le_bytes();
        }
        while c < count
            invariant
                c <= count,
                8 * count >= size_bytes,
                8 * count < size_bytes + 8,
                size_bytes == bytes@.len(),
                filled@.len() == c,
                padded.len() == 8 * count,
                padded == Seq::new(
                    (8 * count) as nat,
                    |i: int|
                        if i < bytes@.len() {
                            bytes@[i]
                        } else {
                            0u8
                        },
                ),
                words_to_bytes(filled@) == padded.take(8 * c as int),
                forall|x: u64| #![trigger spec_u64_to_le_bytes(x)] spec_u64_to_le_bytes(x).len() == 8,
                forall|s: Seq<u8>|
                    #![trigger spec_u64_to_le_bytes(vstd::bytes::spec_u64_from_le_bytes(s))]
                    s.len() == 8 ==> spec_u64_to_le_bytes(vstd::bytes::spec_u64_from_le_bytes(s))
                        == s,
            decreases count - c,
        {
            let mut chunk: Vec<u8> = Vec::new();
            let mut j: usize = 0;
            while j < 8
                invariant
                    j <= 8,
                    c < count,
                    8 * count < size_bytes + 8,
                    size_bytes == bytes@.len(),
                    padded.len() == 8 * count,
                    padded == Seq::new(
                        (8 * count) as nat,
                        |i: int|
                            if i < bytes@.len() {
                                bytes@[i]
                            } else {
                                0u8
                            },
                    ),
                    chunk@ == padded.subrange(8 * c as int, 8 * c + j),
                decreases 8 - j,
            {
                let k = 8 * c + j;
                if k < size_bytes {
                    chunk.push(bytes[k]);
                } else {
                    chunk.push(0);
                }
                j = j + 1;
                assert(chunk@ =~= padded.subrange(8 * c as int, 8 * c + j));
            }
            let w = u64_from_le_bytes(chunk.as_slice());
            let ghost before = filled@;
            filled.push(w);
            proof {
                assert(filled@.drop_last() =~= before);
                assert(padded.take(8 * (c + 1) as int) =~= padded.take(8 * c as int)
                    + padded.subrange(8 * c as int, 8 * c + 8));
            }
            c = c + 1;
        }
        proof {
            assert(padded.take(8 * count as int) =~= padded);
            assert(padded.take(size_bytes as int) =~= bytes@);
        }
        filled
    }

    /// Host storage holding a copy of `bytes`; fails only when the allocator refuses
    /// the memory, which never happens for an empty slice.
    pub fn from_bytes(bytes: &[u8]) -> (r: Result<Self, CpuStorageError>)
        ensures
            match r {
                Ok(s) => {
                    &&& s@ == bytes@
                    &&& s.spec_size_bytes() == bytes@.len()
                },
                Err(e) => e.size_bytes == bytes@.len(),
            },
            bytes@.len() == 0 ==> r is Ok,
    {
        let size_bytes = bytes.len();
        let mut words = match Self::zero_words(size_bytes) {
            Ok(w) => w,
            Err(e) => {
                return Err(e);
            },
        };
        let filled = Self::pack_words(bytes, words.len());
        let s = CpuOwnedStorage { device: Device::cpu(), words: filled, size_bytes };
        Ok(s)
    }

    /// Overwrites the `bytes@.len()` bytes that start at `offset`; the size and every
    /// other byte stay as they were.
    pub fn write_bytes(&mut self, offset: usize, bytes: &[u8])
        requires
            offset + bytes@.len() <= old(self)@.len(),
        ensures
            final(self)@ == old(self)@.take(offset as int) + bytes@ + old(self)@.skip(
                offset + bytes@.len(),
            ),
            final(self).spec_size_bytes() == old(self).spec_size_bytes(),
    {
        proof {
            use_type_invariant(&*self);
            lemma_words_to_bytes_len(self.words@);
        }
        let ghost before = self@;
        let mut all = self.as_bytes();
        let total = all.len();
        let mut k: usize = 0;
        while k < bytes.len()
            invariant
                offset + bytes@.len() <= before.len(),
                all@.len() == before.len(),
                all@.len() == total,
                k <= bytes@.len(),
                all@ == before.take(offset as int) + bytes@.take(k as int) + before.skip(offset + k),
            decreases bytes@.len() - k,
        {
            all.set(offset + k, bytes[k]);
            k = k + 1;
            assert(all@ =~= before.take(offset as int) + bytes@.take(k as int) + before.skip(
                offset + k,
            ));
        }
        assert(bytes@.take(bytes@.len() as int) =~= bytes@);
        let size_bytes = self.size_bytes;
        let count = word_count(size_bytes);
        self.words = Self::pack_words(all.as_slice(), count);
    }

    /// A copy of the logical bytes.
    pub fn as_bytes(&self) -> (r: Vec<u8>)
        ensures
            r@ == self@,
    {
        proof {
            use_type_invariant(self);
            vstd::bytes::lemma_auto_spec_u64_to_from_le_bytes();
        }
        let mut out: Vec<u8> = Vec::new();
        let mut c: usize = 0;
        while c < self.words.len()
            invariant
                c <= self.words@.len(),
                out@ == words_to_bytes(self.words@.take(c as int)),
                forall|x: u64| #![trigger spec_u64_to_le_bytes(x)] spec_u64_to_le_bytes(x).len() == 8,
            decreases self.words@.len() - c,
        {
            let le = u64_to_le_bytes(self.words[c]);
            let ghost before = out@;
            let mut j: usize = 0;
            while j < 8
                invariant
                    j <= 8,
                    le@.len() == 8,
                    out@ == before + le@.take(j as int),
                decreases 8 - j,
            {
                out.push(le[j]);
                j = j + 1;
                assert(out@ =~= before + le@.take(j as int));
            }
            proof {
                assert(le@.take(8) =~= le@);
                assert(self.words@.take(c + 1).drop_last() =~= self.words@.take(c as int));
            }
            c = c + 1;
        }
        proof {
            assert(self.words@.take(self.words@.len() as int) =~= self.words@);
            lemma_words_to_bytes_len(self.words@);
        }
        out.truncate(self.size_bytes);
        out
    }
}

/// Zero words hold zero bytes.
proof fn lemma_zero_words_bytes(words: Seq<u64>)
    requires
        forall|i: int| 0 <= i < words.len() ==> words[i] == 0,
    ensures
        forall|i: int| 0 <= i < words_to_bytes(words).len() ==> words_to_bytes(words)[i] == 0,
    decreases words.len(),
{
    if words.len() > 0 {
        lemma_zero_words_bytes(words.drop_last());
        vstd::bytes::spec_u64_to_le_bytes_to_open(0);
        let z: u64 = 0;
        assert((z & 0xff) as u8 == 0 && ((z >> 8) & 0xff) as u8 == 0 && ((z >> 16) & 0xff) as u8
            == 0 && ((z >> 24) & 0xff) as u8 == 0 && ((z >> 32) & 0xff) as u8 == 0 && ((z >> 40)
            & 0xff) as u8 == 0 && ((z >> 48) & 0xff) as u8 == 0 && ((z >> 56) & 0xff) as u8 == 0)
            by (bit_vector)
            requires
                z == 0,
        ;
        let t = spec_u64_to_le_bytes(words.last());
        assert(words.last() == 0);
        assert(forall|k: int| 0 <= k < t.len() ==> t[k] == 0);
        let prev = words_to_bytes(words.drop_last());
        assert(words_to_bytes(words) == prev + t);
        assert forall|i: int| 0 <= i < words_to_bytes(words).len() implies words_to_bytes(
            words,
        )[i] == 0 by {
            if i < prev.len() {
                assert((prev + t)[i] == prev[i]);
            } else {
                assert((prev + t)[i] == t[i - prev.len()]);
            }
        }
    }
}

impl StorageImpl for CpuOwnedStorage {
    open spec fn spec_device(&self) -> Device {
        Device::cpu()
    }

    closed spec fn spec_size_bytes(&self) -> usize {
        self.size_bytes
    }

    open spec fn spec_alignment(&self) -> usize {
        vstd::layout::align_of::<u64>() as usize
    }

    /// Host storage always lives on the CPU.
    fn device(&self) -> (r: &Device)
        ensures
            *r == Device::cpu(),
    {
        proof {
            use_type_invariant(self);
        }
        &self.device
    }

    /// The number of logical bytes.
    fn size_bytes(&self) -> (r: usize)
        ensures
            r == self@.len(),
    {
        proof {
            use_type_invariant(self);
            lemma_words_to_bytes_len(self.words@);
        }
        self.size_bytes
    }

    /// The alignment of the 64-bit words that hold the bytes: a power of two.
    fn alignment(&self) -> (r: usize)
        ensures
            r == vstd::layout::align_of::<u64>(),
            is_pow2(r as int),
    {
        vstd::layout::layout_for_type_is_valid::<u64>();
        std::mem::align_of::<u64>()
    }
}

} // verus!
