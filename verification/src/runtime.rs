//! The execution runtime: composes tensors and storage with kernel dispatch.
use vstd::prelude::*;
use crate::kernel::{latest_supported, support_answers, KernelEntry, KernelImpl, KernelKey, KernelRegistry};
use crate::types::Device;

verus! {

pub struct Runtime<K> {
    kernels: KernelRegistry<K>,
}

impl<K: KernelImpl> Runtime<K> {
    /// The registrations of the runtime's kernel registry.
    pub closed spec fn spec_kernels(&self) -> Seq<KernelEntry<K>> {
        self.kernels@
    }

    pub fn new() -> (r: Self)
        ensures
            r.spec_kernels() == Seq::<KernelEntry<K>>::empty(),
    {
        Runtime { kernels: KernelRegistry::new() }
    }

    pub fn kernels(&self) -> (r: &KernelRegistry<K>)
        ensures
            r@ == self.spec_kernels(),
    {
        &self.kernels
    }

    pub fn kernels_mut(&mut self) -> (r: &mut KernelRegistry<K>)
        ensures
            r@ == old(self).spec_kernels(),
            final(self).spec_kernels() == final(r)@,
    {
        &mut self.kernels
    }

    /// The kernel the registry resolves for `key` on `device`.
    pub fn resolve(&self, key: &KernelKey, device: &Device) -> (r: Option<&K>)
        ensures
            match latest_supported(
                self.spec_kernels(),
                self.spec_kernels().len() as int,
                key@,
                support_answers(self.spec_kernels(), *device, key@),
            ) {
                Some(i) => r matches Some(k) && *k == self.spec_kernels()[i].kernel,
                None => r is None,
            },
    {
        self.kernels.resolve(key, device)
    }
}

impl<K: KernelImpl> Default for Runtime<K> {
    fn default() -> (r: Self)
        ensures
            r.spec_kernels() == Seq::<KernelEntry<K>>::empty(),
    {
        Runtime::new()
    }
}

} // verus!
