//! Quantized tensors.

pub mod embedding;
pub mod kernel_laws;
pub mod kernels;
pub mod laws;
pub mod matmul;
pub mod qmatmul;
pub mod qtensor;
pub mod raw;
pub mod rows;
pub mod storage;
pub mod tensor_laws;

pub use crate::dtype::{GgmlDType, QK8_H};
pub use crate::ggml_file;
pub use crate::gguf_file;
pub use kernels::{BlockKernels, RowQuantizer};
pub use qmatmul::QMatMul;
pub use qtensor::QTensor;
pub use raw::RawQuantizedType;
pub use storage::{QStorage, QuantizedType};
