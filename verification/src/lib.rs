//! Verified tensor descriptors, storage bookkeeping, kernel selection and operator
//! validation for a small on-device inference runtime.
pub mod types;
pub mod storage;
pub mod tensor;
pub mod reference;
pub mod quant;
pub mod kernel;
pub mod runtime;
pub mod backend;
