# mote

Mote is an on-device inference runtime for small models: Rust owns the control
plane, vendor-native HIP kernels and hipBLASLt are the accelerated path, and direct
Vulkan compute (plus a CubeCL baseline) is the portable fallback.

This crate is the verified core of that runtime, written in Verus.

- `src/types.rs`: element types, quantization formats, shapes, layouts and tensor
  descriptors, with the exact byte span and alignment every descriptor needs.
- `src/storage.rs`, `src/tensor.rs`: identified, shared allocations and tensors placed
  inside them; a tensor's bytes always lie inside its storage.
- `src/kernel.rs`, `src/runtime.rs`: the kernel registry and which registration a
  lookup resolves to.
- `src/reference.rs`, `src/quant.rs`: the argument checks and index maps of the
  reference operators, and the integer decoding of `Q4_0` / `Q8_0` rows.
- `src/backend/`: for the HIP, Vulkan and CubeCL backends, the decision each entry
  point makes (which error, or which launch) as a function of its operands, plus
  Vulkan device selection and timestamp arithmetic.

`app/` holds what drives real devices around those decisions: the HIP FFI and
contexts, the vulkano-based Vulkan backend, the CubeCL backend, and the
floating-point reference operators.
