//! The floating point arithmetic on blocks.

use crate::dtype::GgmlDType;
use crate::error::Error;
use crate::tensor::{Conversion, Tensor};
use vstd::prelude::*;

verus! {

/// Quantizes rows into blocks of `N` bytes.
pub trait RowQuantizer<const N: usize> {
    /// The blocks of one row of F32 bit patterns. It is handed zeroed blocks
    /// to fill.
    fn quantize_row(&self, row: &[u32], blocks: Vec<[u8; N]>) -> Result<Vec<[u8; N]>, Error>;
}

/// The arithmetic that quantized tensors need. Fractional values are handed
/// over as bit patterns, blocks as bytes; a buffer that is to be filled is
/// handed over and comes back filled.
pub trait BlockKernels: Conversion + RowQuantizer<44> + RowQuantizer<40> {
    /// Quantizes F32 values into the blocks.
    fn from_float(&self, dtype: GgmlDType, values: &Vec<u32>, blocks: &Vec<u8>) -> Result<
        Vec<u8>,
        Error,
    >;

    /// Quantizes F32 values into the blocks, with one importance for each
    /// column of a row.
    fn from_float_imatrix(
        &self,
        dtype: GgmlDType,
        values: &Vec<u32>,
        weights: &Vec<u32>,
        n_per_row: usize,
        blocks: &Vec<u8>,
    ) -> Result<Vec<u8>, Error>;

    /// The F32 values of the blocks.
    fn to_float(&self, dtype: GgmlDType, blocks: &[u8], values: Vec<u32>) -> Result<
        Vec<u32>,
        Error,
    >;

    /// The product of the rows in `lhs` with the rows of the blocks, for the
    /// sizes `m`, `k` and `n`.
    fn matmul(
        &self,
        dtype: GgmlDType,
        mkn: (usize, usize, usize),
        lhs: &[u32],
        blocks: &Vec<u8>,
        dst: Vec<u32>,
    ) -> Result<Vec<u32>, Error>;

    /// The same product on F16 values.
    fn matmul_f16(
        &self,
        dtype: GgmlDType,
        mkn: (usize, usize, usize),
        lhs: &[u16],
        blocks: &Vec<u8>,
        dst: Vec<u16>,
    ) -> Result<Vec<u16>, Error>;

    /// The product of `xs` with the transpose of `weights`, which is repeated
    /// over the leading extents `batch`.
    fn matmul_transposed(&self, xs: &Tensor, weights: &Tensor, batch: &Vec<usize>) -> Result<
        Tensor,
        Error,
    >;

    /// The rows of `weights` that the entries of `ids` name, in their order.
    fn index_select(&self, weights: &Tensor, ids: &Tensor) -> Result<Tensor, Error>;
}

} // verus!
