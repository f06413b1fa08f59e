//! The element types of quantized tensors.

use crate::error;
use crate::error::{error_text2, Error};
use crate::text;
use crate::text::decimal_text;
use vstd::prelude::*;

verus! {

/// Logical element count for Q8_H GGUF blocks.
pub const QK8_H: usize = 32;

/// Logical element count of the K-family blocks.
pub const QK_K: usize = 256;

/// Byte size of one Q8_H1 block.
pub const Q8_H1_BLOCK_BYTES: usize = 44;

/// Byte size of one Q8_HP1 block.
pub const Q8_HP1_BLOCK_BYTES: usize = 40;

/// How the elements of a tensor are stored: plainly, or packed in blocks that
/// share their scales.
#[derive(Debug, Clone, Copy, PartialEq, Eq, Hash, Structural)]
pub enum GgmlDType {
    F32,
    F16,
    BF16,
    Q4_0,
    Q4_1,
    Q5_0,
    Q5_1,
    Q8_0,
    Q8_1,
    Q2K,
    Q3K,
    Q4K,
    Q5K,
    Q6K,
    Q8K,
    Q8H1,
    Q8HP1,
}

/// What a caller prints for a type number that stands for no type.
pub open spec fn unknown_dtype_text(id: u32) -> Seq<char> {
    "unknown dtype for tensor "@ + text::decimal(id as nat)
}

impl GgmlDType {
    /// The number that stands for the type in a file.
    pub open spec fn spec_id(self) -> u32 {
        match self {
            GgmlDType::F32 => 0,
            GgmlDType::F16 => 1,
            GgmlDType::BF16 => 30,
            GgmlDType::Q4_0 => 2,
            GgmlDType::Q4_1 => 3,
            GgmlDType::Q5_0 => 6,
            GgmlDType::Q5_1 => 7,
            GgmlDType::Q8_0 => 8,
            GgmlDType::Q8_1 => 9,
            GgmlDType::Q2K => 10,
            GgmlDType::Q3K => 11,
            GgmlDType::Q4K => 12,
            GgmlDType::Q5K => 13,
            GgmlDType::Q6K => 14,
            GgmlDType::Q8K => 15,
            GgmlDType::Q8H1 => 39,
            GgmlDType::Q8HP1 => 41,
        }
    }

    /// The byte size of one block.
    pub open spec fn spec_type_size(self) -> usize {
        match self {
            GgmlDType::F32 => 4,
            GgmlDType::F16 => 2,
            GgmlDType::BF16 => 2,
            GgmlDType::Q4_0 => 18,
            GgmlDType::Q4_1 => 20,
            GgmlDType::Q5_0 => 22,
            GgmlDType::Q5_1 => 24,
            GgmlDType::Q8_0 => 34,
            GgmlDType::Q8_1 => 36,
            GgmlDType::Q2K => 84,
            GgmlDType::Q3K => 110,
            GgmlDType::Q4K => 144,
            GgmlDType::Q5K => 176,
            GgmlDType::Q6K => 210,
            GgmlDType::Q8K => 292,
            GgmlDType::Q8H1 => Q8_H1_BLOCK_BYTES,
            GgmlDType::Q8HP1 => Q8_HP1_BLOCK_BYTES,
        }
    }

    /// The number of elements that one block stores.
    pub open spec fn spec_block_size(self) -> usize {
        match self {
            GgmlDType::F32 => 1,
            GgmlDType::F16 => 1,
            GgmlDType::BF16 => 1,
            GgmlDType::Q4_0 => 32,
            GgmlDType::Q4_1 => 32,
            GgmlDType::Q5_0 => 32,
            GgmlDType::Q5_1 => 32,
            GgmlDType::Q8_0 => 32,
            GgmlDType::Q8_1 => 32,
            GgmlDType::Q2K => QK_K,
            GgmlDType::Q3K => QK_K,
            GgmlDType::Q4K => QK_K,
            GgmlDType::Q5K => QK_K,
            GgmlDType::Q6K => QK_K,
            GgmlDType::Q8K => QK_K,
            GgmlDType::Q8H1 => QK8_H,
            GgmlDType::Q8HP1 => QK8_H,
        }
    }

    /// The type's name as it is printed.
    pub open spec fn spec_name(self) -> Seq<char> {
        match self {
            GgmlDType::F32 => "F32"@,
            GgmlDType::F16 => "F16"@,
            GgmlDType::BF16 => "BF16"@,
            GgmlDType::Q4_0 => "Q4_0"@,
            GgmlDType::Q4_1 => "Q4_1"@,
            GgmlDType::Q5_0 => "Q5_0"@,
            GgmlDType::Q5_1 => "Q5_1"@,
            GgmlDType::Q8_0 => "Q8_0"@,
            GgmlDType::Q8_1 => "Q8_1"@,
            GgmlDType::Q2K => "Q2K"@,
            GgmlDType::Q3K => "Q3K"@,
            GgmlDType::Q4K => "Q4K"@,
            GgmlDType::Q5K => "Q5K"@,
            GgmlDType::Q6K => "Q6K"@,
            GgmlDType::Q8K => "Q8K"@,
            GgmlDType::Q8H1 => "Q8H1"@,
            GgmlDType::Q8HP1 => "Q8HP1"@,
        }
    }

    /// The type belongs to the Q8_H family, whose blocks are kept as raw bytes.
    pub open spec fn is_raw(self) -> bool {
        self is Q8H1 || self is Q8HP1
    }

    /// The type that a number stands for.
    pub fn from_u32(u: u32) -> (outcome: Result<GgmlDType, Error>)
        ensures
            match outcome {
                Ok(dtype) => dtype.spec_id() == u,
                Err(error) => {
                    &&& error.says(unknown_dtype_text(u))
                    &&& forall|other: GgmlDType| #![trigger other.spec_id()] other.spec_id() != u
                },
            },
            u == 0 <==> outcome == Ok::<GgmlDType, Error>(GgmlDType::F32),
            u == 1 <==> outcome == Ok::<GgmlDType, Error>(GgmlDType::F16),
            u == 2 <==> outcome == Ok::<GgmlDType, Error>(GgmlDType::Q4_0),
            u == 3 <==> outcome == Ok::<GgmlDType, Error>(GgmlDType::Q4_1),
            u == 6 <==> outcome == Ok::<GgmlDType, Error>(GgmlDType::Q5_0),
            u == 7 <==> outcome == Ok::<GgmlDType, Error>(GgmlDType::Q5_1),
            u == 8 <==> outcome == Ok::<GgmlDType, Error>(GgmlDType::Q8_0),
            u == 9 <==> outcome == Ok::<GgmlDType, Error>(GgmlDType::Q8_1),
            u == 10 <==> outcome == Ok::<GgmlDType, Error>(GgmlDType::Q2K),
            u == 11 <==> outcome == Ok::<GgmlDType, Error>(GgmlDType::Q3K),
            u == 12 <==> outcome == Ok::<GgmlDType, Error>(GgmlDType::Q4K),
            u == 13 <==> outcome == Ok::<GgmlDType, Error>(GgmlDType::Q5K),
            u == 14 <==> outcome == Ok::<GgmlDType, Error>(GgmlDType::Q6K),
            u == 15 <==> outcome == Ok::<GgmlDType, Error>(GgmlDType::Q8K),
            u == 30 <==> outcome == Ok::<GgmlDType, Error>(GgmlDType::BF16),
            u == 39 <==> outcome == Ok::<GgmlDType, Error>(GgmlDType::Q8H1),
            u == 41 <==> outcome == Ok::<GgmlDType, Error>(GgmlDType::Q8HP1),
    {
        let dtype = match u {
            0 => GgmlDType::F32,
            1 => GgmlDType::F16,
            30 => GgmlDType::BF16,
            2 => GgmlDType::Q4_0,
            3 => GgmlDType::Q4_1,
            6 => GgmlDType::Q5_0,
            7 => GgmlDType::Q5_1,
            8 => GgmlDType::Q8_0,
            9 => GgmlDType::Q8_1,
            10 => GgmlDType::Q2K,
            11 => GgmlDType::Q3K,
            12 => GgmlDType::Q4K,
            13 => GgmlDType::Q5K,
            14 => GgmlDType::Q6K,
            15 => GgmlDType::Q8K,
            39 => GgmlDType::Q8H1,
            41 => GgmlDType::Q8HP1,
            _ => {
                return Err(
                    error_text2("unknown dtype for tensor ", decimal_text(u as u64).as_str()),
                );
            },
        };
        Ok(dtype)
    }

    /// The number that stands for the type.
    pub fn to_u32(self) -> (id: u32)
        ensures
            id == self.spec_id(),
            self is F32 <==> id == 0,
            self is F16 <==> id == 1,
            self is Q4_0 <==> id == 2,
            self is Q4_1 <==> id == 3,
            self is Q5_0 <==> id == 6,
            self is Q5_1 <==> id == 7,
            self is Q8_0 <==> id == 8,
            self is Q8_1 <==> id == 9,
            self is Q2K <==> id == 10,
            self is Q3K <==> id == 11,
            self is Q4K <==> id == 12,
            self is Q5K <==> id == 13,
            self is Q6K <==> id == 14,
            self is Q8K <==> id == 15,
            self is BF16 <==> id == 30,
            self is Q8H1 <==> id == 39,
            self is Q8HP1 <==> id == 41,
    {
        match self {
            GgmlDType::F32 => 0,
            GgmlDType::F16 => 1,
            GgmlDType::BF16 => 30,
            GgmlDType::Q4_0 => 2,
            GgmlDType::Q4_1 => 3,
            GgmlDType::Q5_0 => 6,
            GgmlDType::Q5_1 => 7,
            GgmlDType::Q8_0 => 8,
            GgmlDType::Q8_1 => 9,
            GgmlDType::Q2K => 10,
            GgmlDType::Q3K => 11,
            GgmlDType::Q4K => 12,
            GgmlDType::Q5K => 13,
            GgmlDType::Q6K => 14,
            GgmlDType::Q8K => 15,
            GgmlDType::Q8H1 => 39,
            GgmlDType::Q8HP1 => 41,
        }
    }

    /// The type size for blocks in bytes.
    pub fn type_size(&self) -> (size: usize)
        ensures
            size == self.spec_type_size(),
    {
        match self {
            GgmlDType::F32 => 4,
            GgmlDType::F16 => 2,
            GgmlDType::BF16 => 2,
            GgmlDType::Q4_0 => 18,
            GgmlDType::Q4_1 => 20,
            GgmlDType::Q5_0 => 22,
            GgmlDType::Q5_1 => 24,
            GgmlDType::Q8_0 => 34,
            GgmlDType::Q8_1 => 36,
            GgmlDType::Q2K => 84,
            GgmlDType::Q3K => 110,
            GgmlDType::Q4K => 144,
            GgmlDType::Q5K => 176,
            GgmlDType::Q6K => 210,
            GgmlDType::Q8K => 292,
            GgmlDType::Q8H1 => Q8_H1_BLOCK_BYTES,
            GgmlDType::Q8HP1 => Q8_HP1_BLOCK_BYTES,
        }
    }

    /// The block size, i.e. the number of elements stored in each block.
    pub fn block_size(&self) -> (size: usize)
        ensures
            size == self.spec_block_size(),
    {
        match self {
            GgmlDType::F32 => 1,
            GgmlDType::F16 => 1,
            GgmlDType::BF16 => 1,
            GgmlDType::Q4_0 => 32,
            GgmlDType::Q4_1 => 32,
            GgmlDType::Q5_0 => 32,
            GgmlDType::Q5_1 => 32,
            GgmlDType::Q8_0 => 32,
            GgmlDType::Q8_1 => 32,
            GgmlDType::Q2K => QK_K,
            GgmlDType::Q3K => QK_K,
            GgmlDType::Q4K => QK_K,
            GgmlDType::Q5K => QK_K,
            GgmlDType::Q6K => QK_K,
            GgmlDType::Q8K => QK_K,
            GgmlDType::Q8H1 => QK8_H,
            GgmlDType::Q8HP1 => QK8_H,
        }
    }

    /// The type's name as it is printed.
    pub fn name(&self) -> (name: &'static str)
        ensures
            name@ == self.spec_name(),
    {
        match self {
            GgmlDType::F32 => "F32",
            GgmlDType::F16 => "F16",
            GgmlDType::BF16 => "BF16",
            GgmlDType::Q4_0 => "Q4_0",
            GgmlDType::Q4_1 => "Q4_1",
            GgmlDType::Q5_0 => "Q5_0",
            GgmlDType::Q5_1 => "Q5_1",
            GgmlDType::Q8_0 => "Q8_0",
            GgmlDType::Q8_1 => "Q8_1",
            GgmlDType::Q2K => "Q2K",
            GgmlDType::Q3K => "Q3K",
            GgmlDType::Q4K => "Q4K",
            GgmlDType::Q5K => "Q5K",
            GgmlDType::Q6K => "Q6K",
            GgmlDType::Q8K => "Q8K",
            GgmlDType::Q8H1 => "Q8H1",
            GgmlDType::Q8HP1 => "Q8HP1",
        }
    }
}

/// A type number stands for one type: the number of a type leads back to it.
pub proof fn law_dtype_ids_are_distinct(left: GgmlDType, right: GgmlDType)
    requires
        left.spec_id() == right.spec_id(),
    ensures
        left == right,
{
}

/// The type numbers are those of the file format: the plain types, the blocks
/// of 32 elements and the K family are numbered in the order in which the
/// format got them, with the gaps that it has, and no other number is a type.
pub proof fn law_type_numbers_are_those_of_the_format(u: u32, outcome: Result<GgmlDType, Error>)
    requires
        call_ensures(GgmlDType::from_u32, (u,), outcome),
    ensures
        outcome is Ok <==> u <= 3 || 6 <= u <= 15 || u == 30 || u == 39 || u == 41,
        outcome matches Ok(dtype) ==> match dtype {
            GgmlDType::F32 => u == 0,
            GgmlDType::F16 => u == 1,
            GgmlDType::Q4_0 => u == 2,
            GgmlDType::Q4_1 => u == 3,
            GgmlDType::Q5_0 => u == 6,
            GgmlDType::Q5_1 => u == 7,
            GgmlDType::Q8_0 => u == 8,
            GgmlDType::Q8_1 => u == 9,
            GgmlDType::Q2K => u == 10,
            GgmlDType::Q3K => u == 11,
            GgmlDType::Q4K => u == 12,
            GgmlDType::Q5K => u == 13,
            GgmlDType::Q6K => u == 14,
            GgmlDType::Q8K => u == 15,
            GgmlDType::BF16 => u == 30,
            GgmlDType::Q8H1 => u == 39,
            GgmlDType::Q8HP1 => u == 41,
        },
{
}

/// A type is written with the number that it is read from.
pub proof fn law_types_are_read_back(dtype: GgmlDType, id: u32, outcome: Result<GgmlDType, Error>)
    requires
        call_ensures(GgmlDType::to_u32, (dtype,), id),
        call_ensures(GgmlDType::from_u32, (id,), outcome),
    ensures
        outcome == Ok::<GgmlDType, Error>(dtype),
{
}

/// Every block is a payload of so many bits for each of its elements, and a
/// header for its scales, minima and sums: the plain types hold one element
/// each, the older blocks and the Q8_H family 32, the K family 256.
pub proof fn law_blocks_hold_their_elements_and_scales(dtype: GgmlDType, len: usize, size: usize)
    requires
        call_ensures(GgmlDType::block_size, (&dtype,), len),
        call_ensures(GgmlDType::type_size, (&dtype,), size),
    ensures
        dtype is F32 ==> len == 1 && 8 * size == 32 * len,
        dtype is F16 || dtype is BF16 ==> len == 1 && 8 * size == 16 * len,
        dtype is Q4_0 ==> len == 32 && 8 * size == 4 * len + 16,
        dtype is Q4_1 ==> len == 32 && 8 * size == 4 * len + 32,
        dtype is Q5_0 ==> len == 32 && 8 * size == 5 * len + 16,
        dtype is Q5_1 ==> len == 32 && 8 * size == 5 * len + 32,
        dtype is Q8_0 ==> len == 32 && 8 * size == 8 * len + 16,
        dtype is Q8_1 ==> len == 32 && 8 * size == 8 * len + 32,
        dtype is Q2K ==> len == 256 && 8 * size == 2 * len + 4 * (len / 8) + 32,
        dtype is Q3K ==> len == 256 && 8 * size == 3 * len + 6 * (len / 16) + 16,
        dtype is Q4K ==> len == 256 && 8 * size == 4 * len + 12 * (len / 32) + 32,
        dtype is Q5K ==> len == 256 && 8 * size == 5 * len + 12 * (len / 32) + 32,
        dtype is Q6K ==> len == 256 && 8 * size == 6 * len + 8 * (len / 16) + 16,
        dtype is Q8K ==> len == 256 && 8 * size == 8 * len + 16 * (len / 16) + 32,
        dtype is Q8H1 ==> len == 32 && 8 * size == 8 * len + 96,
        dtype is Q8HP1 ==> len == 32 && 8 * size == 8 * len + 64,
{
}

/// Types are printed by the names of their variants.
pub proof fn law_types_are_printed_by_their_names(dtype: GgmlDType, name: &'static str)
    requires
        call_ensures(GgmlDType::name, (&dtype,), name),
    ensures
        dtype is F32 ==> name@ == "F32"@,
        dtype is F16 ==> name@ == "F16"@,
        dtype is BF16 ==> name@ == "BF16"@,
        dtype is Q4_0 ==> name@ == "Q4_0"@,
        dtype is Q4_1 ==> name@ == "Q4_1"@,
        dtype is Q5_0 ==> name@ == "Q5_0"@,
        dtype is Q5_1 ==> name@ == "Q5_1"@,
        dtype is Q8_0 ==> name@ == "Q8_0"@,
        dtype is Q8_1 ==> name@ == "Q8_1"@,
        dtype is Q2K ==> name@ == "Q2K"@,
        dtype is Q3K ==> name@ == "Q3K"@,
        dtype is Q4K ==> name@ == "Q4K"@,
        dtype is Q5K ==> name@ == "Q5K"@,
        dtype is Q6K ==> name@ == "Q6K"@,
        dtype is Q8K ==> name@ == "Q8K"@,
        dtype is Q8H1 ==> name@ == "Q8H1"@,
        dtype is Q8HP1 ==> name@ == "Q8HP1"@,
{
}

} // verus!
