//! Quantized GGUF tensors, the AQuA device and the Q8_H conversion tool.

pub mod aqua_backend;
pub mod convert;
pub mod cpu_storage;
pub mod device;
pub mod dtype;
pub mod error;
pub mod ggml_file;
pub mod gguf_file;
pub mod names;
mod printing;
pub mod quantized;
pub mod shape;
pub mod sorting;
pub mod tensor;
pub mod text;
