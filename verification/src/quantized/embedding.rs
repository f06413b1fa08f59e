//! Rows of quantized blocks, looked up by number.

use crate::dtype::GgmlDType;
use crate::error;
use crate::error::{error_text4, error_text5, Error};
use crate::quantized::kernels::BlockKernels;
use crate::quantized::storage;
use crate::quantized::storage::{kernel_length_error, QuantizedBlocks};
use crate::text;
use crate::text::decimal_text;
use vstd::arithmetic::div_mod::lemma_fundamental_div_mod;
use vstd::prelude::*;
use vstd::slice::slice_subrange;

verus! {

/// The number of bytes that a row of `hidden` values takes.
pub open spec fn row_bytes(dtype: GgmlDType, hidden: nat) -> nat {
    storage::blocks_len(dtype, hidden)
}

/// The number of blocks.
pub open spec fn block_count(blocks: QuantizedBlocks) -> nat {
    blocks.data@.len() / blocks.dtype.spec_type_size() as nat
}

/// The bytes of row `at`.
pub open spec fn row_data(blocks: QuantizedBlocks, hidden: nat, at: int) -> Seq<u8> {
    blocks.data@.subrange(
        at * row_bytes(blocks.dtype, hidden),
        (at + 1) * row_bytes(blocks.dtype, hidden),
    )
}

/// The kernel can give this answer for row `at`, when it is handed `hidden`
/// zeroes to fill.
pub open spec fn row_answered<K: BlockKernels>(
    kernels: &K,
    blocks: QuantizedBlocks,
    hidden: nat,
    at: int,
    answer: Result<Vec<u32>, Error>,
) -> bool {
    exists|bytes: &[u8], zeros: Vec<u32>|
        {
            &&& bytes@ == row_data(blocks, hidden, at)
            &&& zeros@ == Seq::new(hidden, |i: int| 0u32)
            &&& #[trigger] call_ensures(K::to_float, (kernels, blocks.dtype, bytes, zeros), answer)
        }
}

/// The kernel can give `values` for row `at`.
pub open spec fn row_values<K: BlockKernels>(
    kernels: &K,
    blocks: QuantizedBlocks,
    hidden: nat,
    at: int,
    values: Seq<u32>,
) -> bool {
    exists|answer: Vec<u32>|
        {
            &&& #[trigger] row_answered(kernels, blocks, hidden, at, Ok(answer))
            &&& answer@ == values
        }
}

/// What a caller prints when a row does not divide into blocks.
pub open spec fn hidden_text(hidden: nat, block_size: nat) -> Seq<char> {
    "quantized embedding hidden size "@ + text::decimal(hidden)
        + " is not divisible by block size "@ + text::decimal(block_size)
}

/// What a caller prints when there are more or fewer blocks than the rows
/// take.
pub open spec fn block_count_text(got: nat, expected: nat) -> Seq<char> {
    "quantized tensor has "@ + text::decimal(got) + " blocks, expected "@ + text::decimal(expected)
}

/// What a caller prints when there is no row of that number.
pub open spec fn range_text(id: nat, rows: nat) -> Seq<char> {
    "embedding id "@ + text::decimal(id) + " is out of range for "@ + text::decimal(rows) + " rows"@
}

/// The values are those of the first `count` rows that were asked for, in the
/// order of the ids.
pub open spec fn rows_embedded<K: BlockKernels>(
    kernels: &K,
    blocks: QuantizedBlocks,
    ids: Seq<u32>,
    rows: nat,
    hidden: nat,
    count: nat,
    values: Seq<u32>,
) -> bool {
    &&& values.len() == count * hidden
    &&& forall|i: int|
        0 <= i < count ==> {
            &&& #[trigger] ids[i] < rows
            &&& row_values(
                kernels,
                blocks,
                hidden,
                ids[i] as int,
                values.subrange(i * hidden, (i + 1) * hidden),
            )
        }
}

/// Looking up the row `id` is refused with this error.
pub open spec fn row_unavailable<K: BlockKernels>(
    kernels: &K,
    blocks: QuantizedBlocks,
    rows: nat,
    hidden: nat,
    id: u32,
    error: Error,
) -> bool {
    if id >= rows {
        error.says(range_text(id as nat, rows))
    } else {
        ||| row_answered(kernels, blocks, hidden, id as int, Err(error))
        ||| exists|values: Seq<u32>|
            {
                &&& #[trigger] row_values(kernels, blocks, hidden, id as int, values)
                &&& values.len() != hidden
                &&& error.says(storage::kernel_length_text(blocks.dtype, values.len(), hidden))
            }
    }
}

/// What looking up rows does: the values of the rows in the order of the ids,
/// or the error of the first id that has none.
pub open spec fn embedded<K: BlockKernels>(
    kernels: &K,
    blocks: QuantizedBlocks,
    ids: Seq<u32>,
    rows: nat,
    hidden: nat,
    outcome: Result<Vec<u32>, Error>,
) -> bool {
    let block_size = blocks.dtype.spec_block_size() as nat;
    if hidden % block_size != 0 {
        error::fails_with(outcome, hidden_text(hidden, block_size))
    } else if block_count(blocks) != rows * (hidden / block_size) {
        error::fails_with(
            outcome,
            block_count_text(block_count(blocks), rows * (hidden / block_size)),
        )
    } else {
        match outcome {
            Ok(values) => rows_embedded(kernels, blocks, ids, rows, hidden, ids.len(), values@),
            Err(error) => exists|at: nat, earlier: Seq<u32>|
                {
                    &&& at < ids.len()
                    &&& #[trigger] rows_embedded(kernels, blocks, ids, rows, hidden, at, earlier)
                    &&& row_unavailable(kernels, blocks, rows, hidden, ids[at as int], error)
                },
        }
    }
}

/// One more row appended keeps the earlier rows' values.
proof fn lemma_append_values<K: BlockKernels>(
    kernels: &K,
    blocks: QuantizedBlocks,
    ids: Seq<u32>,
    rows: nat,
    hidden: nat,
    count: nat,
    values: Seq<u32>,
    next: Seq<u32>,
)
    requires
        rows_embedded(kernels, blocks, ids, rows, hidden, count, values),
        count < ids.len(),
        ids[count as int] < rows,
        row_values(kernels, blocks, hidden, ids[count as int] as int, next),
        next.len() == hidden,
    ensures
        rows_embedded(kernels, blocks, ids, rows, hidden, count + 1, values + next),
{
    let grown = values + next;
    assert((count + 1) * hidden == count * hidden + hidden) by (nonlinear_arith);
    assert forall|i: int| 0 <= i < count + 1 implies {
        &&& #[trigger] ids[i] < rows
        &&& row_values(
            kernels,
            blocks,
            hidden,
            ids[i] as int,
            grown.subrange(i * hidden, (i + 1) * hidden),
        )
    } by {
        assert((i + 1) * hidden == i * hidden + hidden) by (nonlinear_arith);
        assert(0 <= i * hidden) by (nonlinear_arith)
            requires
                0 <= i,
        ;
        if i < count {
            assert((i + 1) * hidden <= count * hidden) by (nonlinear_arith)
                requires
                    i + 1 <= count,
            ;
            assert(grown.subrange(i * hidden, (i + 1) * hidden) =~= values.subrange(
                i * hidden,
                (i + 1) * hidden,
            ));
        } else {
            assert(grown.subrange(i * hidden, (i + 1) * hidden) =~= next);
        }
    }
}

impl QuantizedBlocks {
    /// The rows that the ids name, in their order, as F32 bit patterns.
    pub fn embedding<K: BlockKernels>(
        &self,
        kernels: &K,
        ids: &Vec<u32>,
        rows: usize,
        hidden: usize,
    ) -> (outcome: Result<Vec<u32>, Error>)
        requires
            self.wf(),
            rows * (hidden as nat / self.dtype.spec_block_size() as nat) <= usize::MAX,
        ensures
            embedded(kernels, *self, ids@, rows as nat, hidden as nat, outcome),
    {
        let block_size: usize = self.dtype.block_size();
        let type_size: usize = self.dtype.type_size();
        if hidden % block_size != 0 {
            return Err(
                error_text4(
                    "quantized embedding hidden size ",
                    decimal_text(hidden as u64).as_str(),
                    " is not divisible by block size ",
                    decimal_text(block_size as u64).as_str(),
                ),
            );
        }
        let row_blocks: usize = hidden / block_size;
        let count: usize = self.data.len() / type_size;
        let expected: usize = rows * row_blocks;
        if count != expected {
            return Err(
                error_text4(
                    "quantized tensor has ",
                    decimal_text(count as u64).as_str(),
                    " blocks, expected ",
                    decimal_text(expected as u64).as_str(),
                ),
            );
        }
        let ghost row_size = row_bytes(self.dtype, hidden as nat);
        let total: usize = self.data.len();
        proof {
            lemma_fundamental_div_mod(total as int, type_size as int);
            assert(total == rows * row_size) by (nonlinear_arith)
                requires
                    total == type_size * (rows * row_blocks),
                    row_size == row_blocks * type_size,
            ;
        }
        let mut out: Vec<u32> = Vec::new();
        let mut i: usize = 0;
        proof {
            assert(0 * hidden as nat == 0) by (nonlinear_arith);
        }
        while i < ids.len()
            invariant
                self.wf(),
                i <= ids@.len(),
                total == self.data@.len(),
                total == rows * row_size,
                row_size == row_bytes(self.dtype, hidden as nat),
                row_size == row_blocks * type_size,
                hidden as nat % self.dtype.spec_block_size() as nat == 0,
                block_count(*self) == rows * (hidden as nat / self.dtype.spec_block_size() as nat),
                rows_embedded(
                    kernels,
                    *self,
                    ids@,
                    rows as nat,
                    hidden as nat,
                    i as nat,
                    out@,
                ),
            decreases ids@.len() - i,
        {
            let id: u32 = ids[i];
            let at: usize = id as usize;
            if at >= rows {
                let error = error_text5(
                    "embedding id ",
                    decimal_text(at as u64).as_str(),
                    " is out of range for ",
                    decimal_text(rows as u64).as_str(),
                    " rows",
                );
                assert(row_unavailable(kernels, *self, rows as nat, hidden as nat, ids@[i as int], error));
                return Err(error);
            }
            proof {
                assert((at + 1) * row_size == at * row_size + row_size) by (nonlinear_arith);
                assert((at + 1) * row_size <= rows * row_size) by (nonlinear_arith)
                    requires
                        at + 1 <= rows,
                ;
                assert(at * row_size >= 0) by (nonlinear_arith);
                assert(row_size <= (at + 1) * row_size) by (nonlinear_arith);
            }
            let size: usize = row_blocks * type_size;
            let start: usize = at * size;
            let bytes = slice_subrange(self.data.as_slice(), start, start + size);
            let zeros: Vec<u32> = vec![0u32; hidden];
            assert(bytes@ == row_data(*self, hidden as nat, at as int));
            assert(zeros@ =~= Seq::new(hidden as nat, |j: int| 0u32));
            let answer = kernels.to_float(self.dtype, bytes, zeros);
            assert(row_answered(kernels, *self, hidden as nat, at as int, answer));
            let next: Vec<u32> = match answer {
                Err(error) => {
                    assert(row_unavailable(
                        kernels,
                        *self,
                        rows as nat,
                        hidden as nat,
                        ids@[i as int],
                        error,
                    ));
                    return Err(error);
                },
                Ok(next) => next,
            };
            let got: usize = next.len();
            assert(row_values(kernels, *self, hidden as nat, at as int, next@));
            if got != hidden {
                let error = kernel_length_error(self.dtype, got, hidden);
                assert(row_unavailable(kernels, *self, rows as nat, hidden as nat, ids@[i as int], error));
                return Err(error);
            }
            proof {
                lemma_append_values(
                    kernels,
                    *self,
                    ids@,
                    rows as nat,
                    hidden as nat,
                    i as nat,
                    out@,
                    next@,
                );
            }
            let mut next = next;
            out.append(&mut next);
            i = i + 1;
        }
        Ok(out)
    }
}

} // verus!
