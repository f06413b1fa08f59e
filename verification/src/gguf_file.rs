//! What a GGUF file says of its tensors.

use crate::dtype::GgmlDType;
use crate::names::NameMap;
use crate::shape::Shape;
use vstd::prelude::*;

pub mod profile;

pub use profile::{
    decode_gguf_dtype, detect_legacy_profile, detect_type_profile, GgufTypeProfile, RawTensorInfo,
};

verus! {

/// The versions of the file format.
#[derive(Clone, Copy, Debug, PartialEq, Eq, Structural)]
pub enum VersionedMagic {
    GgufV1,
    GgufV2,
    GgufV3,
}

/// A metadata value. The fractional kinds are kept as their bit patterns.
#[derive(Debug)]
pub enum Value {
    U8(u8),
    I8(i8),
    U16(u16),
    I16(i16),
    U32(u32),
    I32(i32),
    U64(u64),
    I64(i64),
    F32(u32),
    F64(u64),
    Bool(bool),
    String(String),
    Array(Vec<Value>),
}

/// What a file says of one tensor, its type number decoded.
#[derive(Debug)]
pub struct TensorInfo {
    pub ggml_dtype: GgmlDType,
    pub shape: Shape,
    pub offset: u64,
}

/// The header of a file: everything but the tensors' bytes.
#[derive(Debug)]
pub struct Content {
    pub magic: VersionedMagic,
    pub metadata: NameMap<Value>,
    pub tensor_infos: NameMap<TensorInfo>,
    pub profile: GgufTypeProfile,
}

} // verus!
