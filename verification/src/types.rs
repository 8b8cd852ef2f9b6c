//! Element types, quantization formats, devices and tensor descriptors.
use vstd::prelude::*;

verus! {

/// Scalar element type of a plain (non-quantized) tensor.
#[derive(Debug, Clone, Copy, PartialEq, Eq, Structural, Hash)]
pub enum DType {
    F32,
    F16,
    I32,
    U8,
}

impl DType {
    /// Size of one element in bytes.
    pub open spec fn spec_size_bytes(self) -> nat {
        match self {
            DType::F32 => 4,
            DType::F16 => 2,
            DType::I32 => 4,
            DType::U8 => 1,
        }
    }

    pub fn size_bytes(&self) -> (r: usize)
        ensures
            r == self.spec_size_bytes(),
    {
        match self {
            DType::F32 => 4,
            DType::F16 => 2,
            DType::I32 => 4,
            DType::U8 => 1,
        }
    }
}

/// GGML-compatible block quantization formats.
#[allow(non_camel_case_types)]
#[derive(Debug, Clone, Copy, PartialEq, Eq, Structural, Hash)]
pub enum QuantFormat {
    Q4_0,
    Q8_0,
    Q4_K,
    Q6_K,
}

impl QuantFormat {
    /// Logical elements stored in one block.
    pub open spec fn spec_block_elements(self) -> nat {
        match self {
            QuantFormat::Q4_0 => 32,
            QuantFormat::Q8_0 => 32,
            QuantFormat::Q4_K => 256,
            QuantFormat::Q6_K => 256,
        }
    }

    /// Encoded bytes of one block.
    pub open spec fn spec_block_bytes(self) -> nat {
        match self {
            QuantFormat::Q4_0 => 18,
            QuantFormat::Q8_0 => 34,
            QuantFormat::Q4_K => 144,
            QuantFormat::Q6_K => 210,
        }
    }

    pub fn block_elements(&self) -> (r: usize)
        ensures
            r == self.spec_block_elements(),
    {
        match self {
            QuantFormat::Q4_0 => 32,
            QuantFormat::Q8_0 => 32,
            QuantFormat::Q4_K => 256,
            QuantFormat::Q6_K => 256,
        }
    }

    pub fn block_bytes(&self) -> (r: usize)
        ensures
            r == self.spec_block_bytes(),
    {
        match self {
            QuantFormat::Q4_0 => 18,
            QuantFormat::Q8_0 => 34,
            QuantFormat::Q4_K => 144,
            QuantFormat::Q6_K => 210,
        }
    }
}

/// How the elements of a tensor are encoded.
#[derive(Debug, Clone, Copy, PartialEq, Eq, Structural, Hash)]
pub enum Encoding {
    Plain(DType),
    Quantized(QuantFormat),
}

/// Pairing convention of rotary position embeddings.
#[derive(Debug, Clone, Copy, PartialEq, Eq, Structural, Hash)]
pub enum RopeLayout {
    /// Element `i` pairs with element `i + rotary_dim / 2`.
    HalfSplit,
    /// Element `2 i` pairs with element `2 i + 1`.
    Interleaved,
}

/// Family of compute backend a device belongs to.
#[derive(Debug, Clone, Copy, PartialEq, Eq, Structural, Hash)]
pub enum BackendKind {
    Cpu,
    Cuda,
    Hip,
    Vulkan,
}

/// A compute device: a backend family and an ordinal within it.
#[derive(Debug, Clone, Copy, PartialEq, Eq, Structural, Hash)]
pub struct Device {
    pub backend: BackendKind,
    pub ordinal: u32,
}

impl Device {
    pub fn new(backend: BackendKind, ordinal: u32) -> (r: Device)
        ensures
            r.backend == backend,
            r.ordinal == ordinal,
    {
        Device { backend, ordinal }
    }

    pub open spec fn spec_cpu() -> Device {
        Device { backend: BackendKind::Cpu, ordinal: 0 }
    }

    /// The host CPU.
    #[verifier::when_used_as_spec(spec_cpu)]
    pub fn cpu() -> (r: Device)
        ensures
            r == Self::spec_cpu(),
    {
        Device { backend: BackendKind::Cpu, ordinal: 0 }
    }

    pub fn backend(&self) -> (r: BackendKind)
        ensures
            r == self.backend,
    {
        self.backend
    }

    pub fn ordinal(&self) -> (r: u32)
        ensures
            r == self.ordinal,
    {
        self.ordinal
    }
}

/// Copies a slice of integers into a fresh vector.
fn copy_usizes(values: &[usize]) -> (r: Vec<usize>)
    ensures
        r@ == values@,
{
    let mut out: Vec<usize> = Vec::new();
    let mut i: usize = 0;
    while i < values.len()
        invariant
            i <= values@.len(),
            out@ == values@.take(i as int),
        decreases values@.len() - i,
    {
        out.push(values[i]);
        i = i + 1;
        assert(out@ =~= values@.take(i as int));
    }
    assert(values@.take(values@.len() as int) =~= values@);
    out
}

/// Element-wise equality of two integer slices.
fn usizes_equal(a: &[usize], b: &[usize]) -> (r: bool)
    ensures
        r == (a@ == b@),
{
    if a.len() != b.len() {
        return false;
    }
    let mut i: usize = 0;
    while i < a.len()
        invariant
            i <= a@.len(),
            a@.len() == b@.len(),
            forall|j: int| 0 <= j < i ==> a@[j] == b@[j],
        decreases a@.len() - i,
    {
        if a[i] != b[i] {
            return false;
        }
        i = i + 1;
    }
    assert(a@ =~= b@);
    true
}

/// The extent of each axis of a tensor.
#[derive(Debug)]
pub struct Shape {
    dims: Vec<usize>,
}

impl View for Shape {
    type V = Seq<usize>;

    closed spec fn view(&self) -> Seq<usize> {
        self.dims@
    }
}

impl Shape {
    pub fn new(dims: &[usize]) -> (r: Shape)
        ensures
            r@ == dims@,
    {
        Shape { dims: copy_usizes(dims) }
    }

    pub fn from_dims(dims: Vec<usize>) -> (r: Shape)
        ensures
            r@ == dims@,
    {
        Shape { dims }
    }

    pub fn dims(&self) -> (r: &[usize])
        ensures
            r@ == self@,
    {
        self.dims.as_slice()
    }

    pub fn rank(&self) -> (r: usize)
        ensures
            r == self@.len(),
    {
        self.dims.len()
    }
}

impl Clone for Shape {
    fn clone(&self) -> (r: Self)
        ensures
            r@ == self@,
    {
        Shape { dims: copy_usizes(self.dims.as_slice()) }
    }
}

impl PartialEq for Shape {
    fn eq(&self, other: &Self) -> (r: bool) {
        usizes_equal(self.dims.as_slice(), other.dims.as_slice())
    }
}

impl vstd::std_specs::cmp::PartialEqSpecImpl for Shape {
    open spec fn obeys_eq_spec() -> bool {
        true
    }

    open spec fn eq_spec(&self, other: &Self) -> bool {
        self@ == other@
    }
}

impl Eq for Shape {
}

/// Per-axis element strides of a strided layout.
#[derive(Debug)]
pub struct Strides {
    values: Vec<usize>,
}

impl View for Strides {
    type V = Seq<usize>;

    closed spec fn view(&self) -> Seq<usize> {
        self.values@
    }
}

impl Strides {
    pub fn new(values: &[usize]) -> (r: Strides)
        ensures
            r@ == values@,
    {
        Strides { values: copy_usizes(values) }
    }

    pub fn values(&self) -> (r: &[usize])
        ensures
            r@ == self@,
    {
        self.values.as_slice()
    }
}

impl Clone for Strides {
    fn clone(&self) -> (r: Self)
        ensures
            r@ == self@,
    {
        Strides { values: copy_usizes(self.values.as_slice()) }
    }
}

impl PartialEq for Strides {
    fn eq(&self, other: &Self) -> (r: bool) {
        usizes_equal(self.values.as_slice(), other.values.as_slice())
    }
}

impl vstd::std_specs::cmp::PartialEqSpecImpl for Strides {
    open spec fn obeys_eq_spec() -> bool {
        true
    }

    open spec fn eq_spec(&self, other: &Self) -> bool {
        self@ == other@
    }
}

impl Eq for Strides {
}

/// Physical arrangement of a tensor's elements.
#[derive(Debug)]
pub enum Layout {
    /// Row-major and densely packed.
    Contiguous,
    /// Arbitrary element strides per axis.
    Strided(Strides),
}

/// Mathematical model of a layout.
pub enum LayoutView {
    Contiguous,
    Strided(Seq<usize>),
}

impl View for Layout {
    type V = LayoutView;

    open spec fn view(&self) -> LayoutView {
        match self {
            Layout::Contiguous => LayoutView::Contiguous,
            Layout::Strided(s) => LayoutView::Strided(s@),
        }
    }
}

impl Clone for Layout {
    fn clone(&self) -> (r: Self)
        ensures
            r@ == self@,
    {
        match self {
            Layout::Contiguous => Layout::Contiguous,
            Layout::Strided(s) => Layout::Strided(s.clone()),
        }
    }
}

impl PartialEq for Layout {
    fn eq(&self, other: &Self) -> (r: bool) {
        match (self, other) {
            (Layout::Contiguous, Layout::Contiguous) => true,
            (Layout::Strided(a), Layout::Strided(b)) => usizes_equal(a.values(), b.values()),
            _ => false,
        }
    }
}

impl vstd::std_specs::cmp::PartialEqSpecImpl for Layout {
    open spec fn obeys_eq_spec() -> bool {
        true
    }

    open spec fn eq_spec(&self, other: &Self) -> bool {
        self@ == other@
    }
}

impl Eq for Layout {
}

/// Product of the dimensions: the logical element count.
pub open spec fn dims_product(dims: Seq<usize>) -> nat
    decreases dims.len(),
{
    if dims.len() == 0 {
        1
    } else {
        dims_product(dims.drop_last()) * (dims.last() as nat)
    }
}

/// Largest element offset reached by a strided layout, `sum (dims[i] - 1) * strides[i]`,
/// for a shape without empty axes.
pub open spec fn strided_extent(dims: Seq<usize>, strides: Seq<usize>) -> int
    decreases dims.len(),
{
    if dims.len() == 0 {
        0
    } else {
        strided_extent(dims.drop_last(), strides.drop_last()) + (dims.last() - 1) * strides.last()
    }
}

/// Model of a tensor descriptor.
pub struct TensorDescView {
    pub dims: Seq<usize>,
    pub encoding: Encoding,
    pub layout: LayoutView,
}

/// Size in bytes of one element of a plain encoding (zero for quantized encodings).
pub open spec fn plain_element_bytes(encoding: Encoding) -> nat {
    match encoding {
        Encoding::Plain(d) => d.spec_size_bytes(),
        Encoding::Quantized(_) => 0,
    }
}

/// Bytes spanned by the tensor: from the first byte to one past its last byte.
pub open spec fn desc_span_bytes(dims: Seq<usize>, encoding: Encoding, layout: LayoutView) -> int {
    let n = dims_product(dims);
    match layout {
        LayoutView::Contiguous => match encoding {
            Encoding::Plain(d) => (n * d.spec_size_bytes()) as int,
            Encoding::Quantized(f) => (n / f.spec_block_elements() * f.spec_block_bytes()) as int,
        },
        LayoutView::Strided(s) => if n == 0 {
            0
        } else {
            (strided_extent(dims, s) + 1) * plain_element_bytes(encoding)
        },
    }
}

/// Byte alignment the start of a tensor with this encoding needs.
pub open spec fn encoding_alignment(encoding: Encoding) -> nat {
    match encoding {
        Encoding::Plain(d) => d.spec_size_bytes(),
        // Every quantized block begins with a little-endian f16 scale.
        Encoding::Quantized(_) => 2,
    }
}

/// Reasons a combination of shape, encoding and layout describes no tensor.
#[derive(Debug, Clone, Copy, PartialEq, Eq, Structural)]
pub enum TensorDescError {
    /// A strided layout has a stride count different from the rank.
    StridesRankMismatch { rank: usize, strides: usize },
    /// Quantized tensors are stored as whole contiguous rows of blocks.
    QuantizedLayoutUnsupported { format: QuantFormat },
    /// A quantized tensor needs at least one axis to hold its blocks.
    QuantizedScalar { format: QuantFormat },
    /// The last axis of a quantized tensor is not a whole number of blocks.
    QuantizedRowMisaligned { format: QuantFormat, row_elements: usize, block_elements: usize },
    /// The element count or the byte span does not fit `usize`.
    SizeOverflow,
}

/// The first reason, in checking order, why a descriptor is invalid.
pub open spec fn desc_error(dims: Seq<usize>, encoding: Encoding, layout: LayoutView) -> Option<
    TensorDescError,
> {
    if layout matches LayoutView::Strided(s) && s.len() != dims.len() {
        Some(
            TensorDescError::StridesRankMismatch {
                rank: dims.len() as usize,
                strides: layout->Strided_0.len() as usize,
            },
        )
    } else if encoding matches Encoding::Quantized(f) && layout is Strided {
        Some(TensorDescError::QuantizedLayoutUnsupported { format: encoding->Quantized_0 })
    } else if encoding matches Encoding::Quantized(f) && dims.len() == 0 {
        Some(TensorDescError::QuantizedScalar { format: encoding->Quantized_0 })
    } else if encoding matches Encoding::Quantized(f) && (dims.last() as nat) % f.spec_block_elements()
        != 0 {
        Some(
            TensorDescError::QuantizedRowMisaligned {
                format: encoding->Quantized_0,
                row_elements: dims.last(),
                block_elements: encoding->Quantized_0.spec_block_elements() as usize,
            },
        )
    } else if dims_product(dims) > usize::MAX || desc_span_bytes(dims, encoding, layout)
        > usize::MAX {
        Some(TensorDescError::SizeOverflow)
    } else {
        None
    }
}

/// A validated description of a tensor: shape, encoding and layout.
#[derive(Debug)]
pub struct TensorDesc {
    shape: Shape,
    encoding: Encoding,
    layout: Layout,
    numel: usize,
    span_bytes: usize,
}

impl View for TensorDesc {
    type V = TensorDescView;

    closed spec fn view(&self) -> TensorDescView {
        TensorDescView { dims: self.shape@, encoding: self.encoding, layout: self.layout@ }
    }
}

impl TensorDescView {
    /// The descriptor describes a tensor.
    pub open spec fn valid(self) -> bool {
        desc_error(self.dims, self.encoding, self.layout) is None
    }

    pub open spec fn numel(self) -> nat {
        dims_product(self.dims)
    }

    pub open spec fn span_bytes(self) -> int {
        desc_span_bytes(self.dims, self.encoding, self.layout)
    }

    pub open spec fn required_alignment(self) -> nat {
        encoding_alignment(self.encoding)
    }

    pub open spec fn is_contiguous(self) -> bool {
        self.layout is Contiguous
    }
}

/// Product of dimensions that are all non-zero: every prefix product is at most the whole.
pub proof fn lemma_prefix_product_le(dims: Seq<usize>, i: int)
    requires
        0 <= i <= dims.len(),
        forall|j: int| 0 <= j < dims.len() ==> dims[j] >= 1,
    ensures
        dims_product(dims.take(i)) <= dims_product(dims),
    decreases dims.len() - i,
{
    if i < dims.len() {
        lemma_prefix_product_le(dims, i + 1);
        let t = dims.take(i + 1);
        assert(t.drop_last() =~= dims.take(i));
        let p = dims_product(dims.take(i));
        let d = dims[i] as nat;
        assert(p * d >= p) by (nonlinear_arith)
            requires
                d >= 1,
        ;
    } else {
        assert(dims.take(i) =~= dims);
    }
}

/// With an empty axis the element count is zero.
pub proof fn lemma_product_zero(dims: Seq<usize>, k: int)
    requires
        0 <= k < dims.len(),
        dims[k] == 0,
    ensures
        dims_product(dims) == 0,
    decreases dims.len(),
{
    if k == dims.len() - 1 {
    } else {
        assert(dims.drop_last()[k] == dims[k]);
        lemma_product_zero(dims.drop_last(), k);
        let d = dims.last() as nat;
        assert(0 * d == 0);
    }
}

/// Every prefix of a strided extent is at most the whole.
proof fn lemma_prefix_extent_le(dims: Seq<usize>, strides: Seq<usize>, i: int)
    requires
        0 <= i <= dims.len(),
        strides.len() == dims.len(),
        forall|j: int| 0 <= j < dims.len() ==> dims[j] >= 1,
    ensures
        strided_extent(dims.take(i), strides.take(i)) <= strided_extent(dims, strides),
        strided_extent(dims.take(i), strides.take(i)) >= 0,
    decreases dims.len() - i,
{
    lemma_extent_nonneg(dims.take(i), strides.take(i));
    if i < dims.len() {
        lemma_prefix_extent_le(dims, strides, i + 1);
        assert(dims.take(i + 1).drop_last() =~= dims.take(i));
        assert(strides.take(i + 1).drop_last() =~= strides.take(i));
        let d = dims[i] - 1;
        let s = strides[i] as int;
        assert(d * s >= 0) by (nonlinear_arith)
            requires
                d >= 0,
                s >= 0,
        ;
    } else {
        assert(dims.take(i) =~= dims);
        assert(strides.take(i) =~= strides);
    }
}

proof fn lemma_extent_nonneg(dims: Seq<usize>, strides: Seq<usize>)
    requires
        strides.len() == dims.len(),
        forall|j: int| 0 <= j < dims.len() ==> dims[j] >= 1,
    ensures
        strided_extent(dims, strides) >= 0,
    decreases dims.len(),
{
    if dims.len() > 0 {
        lemma_extent_nonneg(dims.drop_last(), strides.drop_last());
        let d = dims.last() - 1;
        let s = strides.last() as int;
        assert(d * s >= 0) by (nonlinear_arith)
            requires
                d >= 0,
                s >= 0,
        ;
    }
}

/// Element count, or `None` when it does not fit `usize`.
fn checked_numel(dims: &[usize]) -> (r: Option<usize>)
    ensures
        match r {
            Some(n) => n == dims_product(dims@),
            None => dims_product(dims@) > usize::MAX,
        },
{
    let mut k: usize = 0;
    while k < dims.len()
        invariant
            k <= dims@.len(),
            forall|j: int| 0 <= j < k ==> dims@[j] >= 1,
        decreases dims@.len() - k,
    {
        if dims[k] == 0 {
            proof {
                lemma_product_zero(dims@, k as int);
            }
            return Some(0);
        }
        k = k + 1;
    }
    let mut acc: usize = 1;
    let mut i: usize = 0;
    while i < dims.len()
        invariant
            i <= dims@.len(),
            forall|j: int| 0 <= j < dims@.len() ==> dims@[j] >= 1,
            acc == dims_product(dims@.take(i as int)),
        decreases dims@.len() - i,
    {
        assert(dims@.take(i + 1).drop_last() =~= dims@.take(i as int));
        match acc.checked_mul(dims[i]) {
            Some(next) => {
                acc = next;
            },
            None => {
                proof {
                    lemma_prefix_product_le(dims@, i + 1);
                }
                return None;
            },
        }
        i = i + 1;
    }
    assert(dims@.take(dims@.len() as int) =~= dims@);
    Some(acc)
}

/// Largest element offset of a strided layout over non-empty axes, or `None` when it
/// does not fit `usize`.
fn checked_extent(dims: &[usize], strides: &[usize]) -> (r: Option<usize>)
    requires
        dims@.len() == strides@.len(),
        forall|j: int| 0 <= j < dims@.len() ==> dims@[j] >= 1,
    ensures
        match r {
            Some(e) => e == strided_extent(dims@, strides@),
            None => strided_extent(dims@, strides@) > usize::MAX,
        },
{
    let mut acc: usize = 0;
    let mut i: usize = 0;
    while i < dims.len()
        invariant
            i <= dims@.len(),
            dims@.len() == strides@.len(),
            forall|j: int| 0 <= j < dims@.len() ==> dims@[j] >= 1,
            acc == strided_extent(dims@.take(i as int), strides@.take(i as int)),
        decreases dims@.len() - i,
    {
        assert(dims@.take(i + 1).drop_last() =~= dims@.take(i as int));
        assert(strides@.take(i + 1).drop_last() =~= strides@.take(i as int));
        proof {
            lemma_prefix_extent_le(dims@, strides@, i + 1);
            lemma_extent_nonneg(dims@.take(i as int), strides@.take(i as int));
        }
        let d = dims[i] - 1;
        let s = strides[i];
        let term = match d.checked_mul(s) {
            Some(t) => t,
            None => {
                return None;
            },
        };
        match acc.checked_add(term) {
            Some(next) => {
                acc = next;
            },
            None => {
                return None;
            },
        }
        i = i + 1;
    }
    assert(dims@.take(dims@.len() as int) =~= dims@);
    assert(strides@.take(strides@.len() as int) =~= strides@);
    Some(acc)
}

impl TensorDesc {
    #[verifier::type_invariant]
    spec fn wf(self) -> bool {
        &&& self@.valid()
        &&& self.numel == self@.numel()
        &&& self.span_bytes == self@.span_bytes()
    }

    /// Validates and builds a descriptor.
    pub fn new(shape: Shape, encoding: Encoding, layout: Layout) -> (r: Result<
        TensorDesc,
        TensorDescError,
    >)
        ensures
            match r {
                Ok(d) => {
                    &&& desc_error(shape@, encoding, layout@) is None
                    &&& d@ == (TensorDescView { dims: shape@, encoding, layout: layout@ })
                },
                Err(e) => desc_error(shape@, encoding, layout@) == Some(e),
            },
    {
        let dims = shape.dims();
        if let Layout::Strided(strides) = &layout {
            if strides.values().len() != dims.len() {
                return Err(
                    TensorDescError::StridesRankMismatch {
                        rank: dims.len(),
                        strides: strides.values().len(),
                    },
                );
            }
        }
        if let Encoding::Quantized(format) = encoding {
            if let Layout::Strided(_) = &layout {
                return Err(TensorDescError::QuantizedLayoutUnsupported { format });
            }
            if dims.len() == 0 {
                return Err(TensorDescError::QuantizedScalar { format });
            }
            let row_elements = dims[dims.len() - 1];
            let block_elements = format.block_elements();
            if row_elements % block_elements != 0 {
                return Err(
                    TensorDescError::QuantizedRowMisaligned { format, row_elements, block_elements },
                );
            }
        }
        let numel = match checked_numel(dims) {
            Some(n) => n,
            None => {
                return Err(TensorDescError::SizeOverflow);
            },
        };
        let span = match &layout {
            Layout::Contiguous => match encoding {
                Encoding::Plain(dtype) => numel.checked_mul(dtype.size_bytes()),
                Encoding::Quantized(format) => (numel / format.block_elements()).checked_mul(
                    format.block_bytes(),
                ),
            },
            Layout::Strided(strides) => {
                if numel == 0 {
                    Some(0)
                } else {
                    let elem = match encoding {
                        Encoding::Plain(dtype) => dtype.size_bytes(),
                        Encoding::Quantized(_) => 0,
                    };
                    proof {
                        assert forall|j: int| 0 <= j < dims@.len() implies dims@[j] >= 1 by {
                            if dims@[j] == 0 {
                                lemma_product_zero(dims@, j);
                            }
                        }
                    }
                    match checked_extent(dims, strides.values()) {
                        Some(extent) => match extent.checked_add(1) {
                            Some(count) => count.checked_mul(elem),
                            None => None,
                        },
                        None => None,
                    }
                }
            },
        };
        let span_bytes = match span {
            Some(s) => s,
            None => {
                proof {
                    if let Layout::Strided(strides) = &layout {
                        if numel != 0 {
                            assert forall|j: int| 0 <= j < dims@.len() implies dims@[j] >= 1 by {
                                if dims@[j] == 0 {
                                    lemma_product_zero(dims@, j);
                                }
                            }
                            lemma_extent_nonneg(dims@, strides@);
                            let e = strided_extent(dims@, strides@);
                            let b = plain_element_bytes(encoding) as int;
                            assert(b >= 1);
                            assert((e + 1) * b > usize::MAX) by (nonlinear_arith)
                                requires
                                    b >= 1,
                                    e + 1 > usize::MAX || (e + 1) * b > usize::MAX,
                            ;
                        }
                    }
                }
                return Err(TensorDescError::SizeOverflow);
            },
        };
        Ok(TensorDesc { shape, encoding, layout, numel, span_bytes })
    }

    pub fn shape(&self) -> (r: &Shape)
        ensures
            r@ == self@.dims,
    {
        &self.shape
    }

    pub fn encoding(&self) -> (r: &Encoding)
        ensures
            *r == self@.encoding,
    {
        &self.encoding
    }

    pub fn layout(&self) -> (r: &Layout)
        ensures
            r@ == self@.layout,
    {
        &self.layout
    }

    pub fn rank(&self) -> (r: usize)
        ensures
            r == self@.dims.len(),
    {
        self.shape.rank()
    }

    /// Logical element count.
    pub fn numel(&self) -> (r: usize)
        ensures
            r == self@.numel(),
    {
        proof {
            use_type_invariant(self);
        }
        self.numel
    }

    pub fn is_contiguous(&self) -> (r: bool)
        ensures
            r == self@.is_contiguous(),
    {
        match &self.layout {
            Layout::Contiguous => true,
            Layout::Strided(_) => false,
        }
    }

    /// Bytes from the tensor's first byte to one past its last byte.
    pub fn required_span_bytes(&self) -> (r: usize)
        ensures
            r == self@.span_bytes(),
    {
        proof {
            use_type_invariant(self);
        }
        self.span_bytes
    }

    /// Alignment, in bytes, that the first byte of the tensor needs.
    pub fn required_alignment(&self) -> (r: usize)
        ensures
            r == self@.required_alignment(),
            r > 0,
    {
        match self.encoding {
            Encoding::Plain(dtype) => dtype.size_bytes(),
            Encoding::Quantized(_) => 2,
        }
    }
}

impl Clone for TensorDesc {
    fn clone(&self) -> (r: Self)
        ensures
            r@ == self@,
    {
        proof {
            use_type_invariant(self);
        }
        TensorDesc {
            shape: self.shape.clone(),
            encoding: self.encoding,
            layout: self.layout.clone(),
            numel: self.numel,
            span_bytes: self.span_bytes,
        }
    }
}

} // verus!
