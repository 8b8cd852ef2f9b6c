//! Kernel registry: implementations registered under semantic keys, resolved per device.
use vstd::prelude::*;
use vstd::pervasive::arbitrary;
use vstd::string::StringSliceAdditionalSpecFns;
use crate::types::{DType, Device};

verus! {

/// The semantic identity of a kernel: operation, element type and shape class.
#[derive(Debug)]
pub struct KernelKey {
    pub op: &'static str,
    pub dtype: Option<DType>,
    pub shape_class: Option<String>,
}

/// Model of a kernel key.
#[verifier::ext_equal]
pub struct KernelKeyView {
    pub op: Seq<u8>,
    pub dtype: Option<DType>,
    pub shape_class: Option<Seq<char>>,
}

impl View for KernelKey {
    type V = KernelKeyView;

    open spec fn view(&self) -> KernelKeyView {
        KernelKeyView {
            op: self.op.spec_bytes(),
            dtype: self.dtype,
            shape_class: match self.shape_class {
                Some(s) => Some(s@),
                None => None,
            },
        }
    }
}

/// Byte-wise equality of two strings.
fn same_str(a: &str, b: &str) -> (r: bool)
    ensures
        r == (a.spec_bytes() == b.spec_bytes()),
{
    let x = a.as_bytes();
    let y = b.as_bytes();
    if x.len() != y.len() {
        return false;
    }
    let mut i: usize = 0;
    while i < x.len()
        invariant
            i <= x@.len(),
            x@.len() == y@.len(),
            x@ == a.spec_bytes(),
            y@ == b.spec_bytes(),
            forall|j: int| 0 <= j < i ==> x@[j] == y@[j],
        decreases x@.len() - i,
    {
        if x[i] != y[i] {
            return false;
        }
        i = i + 1;
    }
    assert(x@ =~= y@);
    true
}

impl Clone for KernelKey {
    fn clone(&self) -> (r: Self)
        ensures
            r@ == self@,
    {
        let shape_class = match &self.shape_class {
            Some(class) => Some(class.clone()),
            None => None,
        };
        KernelKey { op: self.op, dtype: self.dtype, shape_class }
    }
}

impl KernelKey {
    /// Whether both keys name the same kernel.
    pub fn same_as(&self, other: &KernelKey) -> (r: bool)
        ensures
            r == (self@ == other@),
    {
        if !same_str(self.op, other.op) {
            return false;
        }
        let dtype_equal = match (self.dtype, other.dtype) {
            (None, None) => true,
            (Some(a), Some(b)) => a == b,
            _ => false,
        };
        if !dtype_equal {
            return false;
        }
        let shape_equal = match (&self.shape_class, &other.shape_class) {
            (None, None) => true,
            (Some(a), Some(b)) => *a == *b,
            _ => false,
        };
        if shape_equal {
            assert(self@ =~~= other@);
        }
        shape_equal
    }
}

/// Opaque launch arguments handed to a kernel.
#[derive(Debug)]
pub struct KernelArgs<'a> {
    pub opaque: &'a [usize],
}

#[derive(Debug)]
pub enum KernelError {
    /// The kernel is not supported on this device.
    Unsupported,
    /// The kernel launch failed.
    Launch(String),
}

/// A kernel implementation.
///
/// `spec_supports` models the answer `supports` gives. An implementation checked by
/// Verus gives it a body; one outside Verus is trusted to answer by it.
pub trait KernelImpl {
    /// Whether this implementation runs the kernel `key` on `device`.
    open spec fn spec_supports(&self, device: Device, key: KernelKeyView) -> bool {
        arbitrary()
    }

    fn name(&self) -> &'static str;

    /// Whether this implementation can run `key` on `device`.
    fn supports(&self, device: &Device, key: &KernelKey) -> (r: bool)
        ensures
            r == self.spec_supports(*device, key@),
    ;

    fn launch(&self, device: &Device, args: &KernelArgs<'_>) -> Result<(), KernelError>;
}

/// One registration: a kernel under a key.
#[derive(Debug)]
pub struct KernelEntry<K> {
    pub key: KernelKey,
    pub kernel: K,
}

/// Position, below `upto`, of the latest registration under `key`.
pub open spec fn latest_under_key<K>(entries: Seq<KernelEntry<K>>, upto: int, key: KernelKeyView) -> Option<
    int,
>
    decreases upto,
{
    if upto <= 0 {
        None
    } else if entries[upto - 1].key@ == key {
        Some(upto - 1)
    } else {
        latest_under_key(entries, upto - 1, key)
    }
}

/// Position, below `upto`, of the latest registration under `key` whose kernel answered
/// that it supports the device; `supported[i]` is the answer of registration `i`.
pub open spec fn latest_supported<K>(
    entries: Seq<KernelEntry<K>>,
    upto: int,
    key: KernelKeyView,
    supported: Seq<bool>,
) -> Option<int>
    decreases upto,
{
    if upto <= 0 {
        None
    } else if entries[upto - 1].key@ == key && supported[upto - 1] {
        Some(upto - 1)
    } else {
        latest_supported(entries, upto - 1, key, supported)
    }
}

/// The answer each registration gives when asked whether it runs `key` on `device`.
pub open spec fn support_answers<K: KernelImpl>(
    entries: Seq<KernelEntry<K>>,
    device: Device,
    key: KernelKeyView,
) -> Seq<bool> {
    Seq::new(entries.len(), |i: int| entries[i].kernel.spec_supports(device, key))
}

/// Kernels registered under semantic keys, in registration order.
#[derive(Debug)]
pub struct KernelRegistry<K> {
    entries: Vec<KernelEntry<K>>,
}

impl<K> View for KernelRegistry<K> {
    type V = Seq<KernelEntry<K>>;

    closed spec fn view(&self) -> Seq<KernelEntry<K>> {
        self.entries@
    }
}

impl<K> KernelRegistry<K> {
    pub fn new() -> (r: KernelRegistry<K>)
        ensures
            r@ == Seq::<KernelEntry<K>>::empty(),
    {
        KernelRegistry { entries: Vec::new() }
    }

    /// Adds `kernel` under `key`, after every earlier registration.
    pub fn register(&mut self, key: KernelKey, kernel: K)
        ensures
            final(self)@ == old(self)@.push(KernelEntry { key, kernel }),
    {
        self.entries.push(KernelEntry { key, kernel });
    }

    /// Position of the latest registration under `key` that comes before position `below`.
    pub fn latest_registration_before(&self, key: &KernelKey, below: usize) -> (r: Option<usize>)
        requires
            below <= self@.len(),
        ensures
            match latest_under_key(self@, below as int, key@) {
                Some(i) => r == Some(i as usize),
                None => r is None,
            },
    {
        let mut i: usize = below;
        while i > 0
            invariant
                i <= below <= self@.len(),
                latest_under_key(self@, below as int, key@) == latest_under_key(
                    self@,
                    i as int,
                    key@,
                ),
            decreases i,
        {
            if self.entries[i - 1].key.same_as(key) {
                return Some(i - 1);
            }
            i = i - 1;
        }
        None
    }

    /// Selects among the registrations the one `resolve` chooses when registration `i`
    /// answers `supported[i]`: the latest under `key` that answered yes.
    pub fn select(&self, key: &KernelKey, supported: &[bool]) -> (r: Option<usize>)
        requires
            supported@.len() == self@.len(),
        ensures
            match latest_supported(self@, self@.len() as int, key@, supported@) {
                Some(i) => r == Some(i as usize),
                None => r is None,
            },
    {
        let mut i: usize = self.entries.len();
        while i > 0
            invariant
                i <= self@.len(),
                supported@.len() == self@.len(),
                latest_supported(self@, self@.len() as int, key@, supported@) == latest_supported(
                    self@,
                    i as int,
                    key@,
                    supported@,
                ),
            decreases i,
        {
            if self.entries[i - 1].key.same_as(key) && supported[i - 1] {
                return Some(i - 1);
            }
            i = i - 1;
        }
        None
    }
}

impl<K: KernelImpl> KernelRegistry<K> {
    /// Resolves the highest-precedence implementation supported by `device`: registrations
    /// under `key` are asked, latest first, whether they support `device`, and the first
    /// that does is returned. Nothing is returned when none does.
    pub fn resolve(&self, key: &KernelKey, device: &Device) -> (r: Option<&K>)
        ensures
            match latest_supported(
                self@,
                self@.len() as int,
                key@,
                support_answers(self@, *device, key@),
            ) {
                Some(i) => r matches Some(k) && *k == self@[i].kernel,
                None => r is None,
            },
    {
        let ghost answers = support_answers(self@, *device, key@);
        let mut below: usize = self.entries.len();
        loop
            invariant
                below <= self@.len(),
                answers == support_answers(self@, *device, key@),
                latest_supported(self@, self@.len() as int, key@, answers) == latest_supported(
                    self@,
                    below as int,
                    key@,
                    answers,
                ),
            decreases below,
        {
            proof {
                lemma_latest_supported_step(self@, below as int, key@, answers);
                lemma_latest_under_key_is_under_key(self@, below as int, key@);
            }
            match self.latest_registration_before(key, below) {
                None => {
                    return None;
                },
                Some(i) => {
                    let entry = &self.entries[i];
                    if entry.kernel.supports(device, key) {
                        return Some(&entry.kernel);
                    }
                    below = i;
                },
            }
        }
    }
}

impl<K> Default for KernelRegistry<K> {
    fn default() -> (r: Self)
        ensures
            r@ == Seq::<KernelEntry<K>>::empty(),
    {
        KernelRegistry::new()
    }
}

/// The latest registration under a key is under that key and below the bound.
proof fn lemma_latest_under_key_is_under_key<K>(
    entries: Seq<KernelEntry<K>>,
    upto: int,
    key: KernelKeyView,
)
    requires
        upto <= entries.len(),
    ensures
        latest_under_key(entries, upto, key) matches Some(i) ==> 0 <= i < upto && entries[i].key@
            == key,
    decreases upto,
{
    if upto > 0 {
        lemma_latest_under_key_is_under_key(entries, upto - 1, key);
    }
}

/// Later registrations take precedence, with fallback: among the registrations below
/// `upto`, with none under `key` nothing resolves; otherwise the latest under `key`
/// resolves if it supports the device, and resolution falls back to the registrations
/// before it if it does not.
pub proof fn lemma_latest_supported_step<K>(
    entries: Seq<KernelEntry<K>>,
    upto: int,
    key: KernelKeyView,
    supported: Seq<bool>,
)
    requires
        0 <= upto <= entries.len(),
        supported.len() == entries.len(),
    ensures
        latest_under_key(entries, upto, key) is None ==> latest_supported(entries, upto, key, supported)
            is None,
        latest_under_key(entries, upto, key) matches Some(i) ==> latest_supported(
            entries,
            upto,
            key,
            supported,
        ) == if supported[i] {
            Some(i)
        } else {
            latest_supported(entries, i, key, supported)
        },
    decreases upto,
{
    if upto > 0 {
        lemma_latest_supported_step(entries, upto - 1, key, supported);
    }
}

/// A registration under `key` whose kernel supports the device takes precedence over
/// everything registered before it.
pub proof fn lemma_latest_supported_registration_wins<K>(
    entries: Seq<KernelEntry<K>>,
    supported: Seq<bool>,
    entry: KernelEntry<K>,
    key: KernelKeyView,
)
    requires
        supported.len() == entries.len(),
        entry.key@ == key,
    ensures
        latest_supported(
            entries.push(entry),
            entries.len() + 1 as int,
            key,
            supported.push(true),
        ) == Some(entries.len() as int),
{
    assert(entries.push(entry)[entries.len() as int] == entry);
    assert(supported.push(true)[entries.len() as int]);
}

/// Resolution only looks at the prefix it is given.
proof fn lemma_resolution_prefix<K>(
    entries: Seq<KernelEntry<K>>,
    supported: Seq<bool>,
    entry: KernelEntry<K>,
    answer: bool,
    upto: int,
    key: KernelKeyView,
)
    requires
        0 <= upto <= entries.len(),
        supported.len() == entries.len(),
    ensures
        latest_supported(entries.push(entry), upto, key, supported.push(answer)) == latest_supported(
            entries,
            upto,
            key,
            supported,
        ),
    decreases upto,
{
    if upto > 0 {
        lemma_resolution_prefix(entries, supported, entry, answer, upto - 1, key);
    }
}

/// A registration under another key, or one whose kernel does not support the device,
/// leaves the resolution of `key` unchanged.
pub proof fn lemma_unrelated_registration_keeps_resolution<K>(
    entries: Seq<KernelEntry<K>>,
    supported: Seq<bool>,
    entry: KernelEntry<K>,
    answer: bool,
    key: KernelKeyView,
)
    requires
        supported.len() == entries.len(),
        entry.key@ != key || !answer,
    ensures
        latest_supported(entries.push(entry), entries.len() + 1 as int, key, supported.push(answer))
            == latest_supported(entries, entries.len() as int, key, supported),
{
    lemma_resolution_prefix(entries, supported, entry, answer, entries.len() as int, key);
}

/// A kernel available everywhere, standing in until a backend provides an implementation.
#[derive(Debug)]
pub struct PortableKernel {
    name: &'static str,
}

impl PortableKernel {
    pub fn new(name: &'static str) -> (r: PortableKernel)
        ensures
            r.spec_name() == name,
    {
        PortableKernel { name }
    }

    pub closed spec fn spec_name(&self) -> &'static str {
        self.name
    }
}

impl KernelImpl for PortableKernel {
    open spec fn spec_supports(&self, device: Device, key: KernelKeyView) -> bool {
        true
    }

    fn name(&self) -> (r: &'static str)
        ensures
            r == self.spec_name(),
    {
        self.name
    }

    fn supports(&self, device: &Device, key: &KernelKey) -> (r: bool)
        ensures
            r,
    {
        true
    }

    fn launch(&self, device: &Device, args: &KernelArgs<'_>) -> (r: Result<(), KernelError>)
        ensures
            r matches Err(KernelError::Launch(message)) && message@
                == "CubeCL integration has not been wired yet"@,
    {
        Err(KernelError::Launch(String::from_str("CubeCL integration has not been wired yet")))
    }
}

} // verus!
