//! Quantization of the Q8_H family, row by row.

use crate::dtype::{GgmlDType, QK8_H};
use crate::error;
use crate::error::{error_text2, error_text4, error_text5, Error};
use crate::quantized::kernels::{BlockKernels, RowQuantizer};
use crate::quantized::raw;
use crate::quantized::raw::{raw_storage_from_blocks, zeroed_blocks};
use crate::quantized::storage;
use crate::quantized::storage::{QStorage, RawStorage};
use crate::shape;
use crate::shape::Shape;
use crate::text;
use crate::text::decimal_text;
use vstd::arithmetic::div_mod::{
    lemma_fundamental_div_mod, lemma_fundamental_div_mod_converse, lemma_mod_multiples_basic,
};
use vstd::prelude::*;
use vstd::slice::slice_subrange;

verus! {

/// The number of blocks in a row of `width` values.
pub open spec fn blocks_per_row(width: nat) -> nat {
    width / QK8_H as nat
}

/// The values of row `i`.
pub open spec fn row(values: Seq<u32>, width: nat, i: int) -> Seq<u32> {
    values.subrange(i * width, (i + 1) * width)
}

/// The quantizer can give `answer` for the row, when it is handed as many
/// zeroed blocks as the row takes.
pub open spec fn row_answer<const N: usize, K: RowQuantizer<N>>(
    kernels: &K,
    row: Seq<u32>,
    answer: Result<Vec<[u8; N]>, Error>,
) -> bool {
    exists|input: &[u32], zeros: Vec<[u8; N]>|
        {
            &&& input@ == row
            &&& zeros@.len() == blocks_per_row(row.len())
            &&& forall|j: int|
                0 <= j < zeros@.len() ==> (#[trigger] zeros@[j])@ == Seq::new(N as nat, |b: int| 0u8)
            &&& #[trigger] call_ensures(K::quantize_row, (kernels, input, zeros), answer)
        }
}

/// The quantizer gave these blocks for the row.
pub open spec fn row_blocks<const N: usize, K: RowQuantizer<N>>(
    kernels: &K,
    row: Seq<u32>,
    blocks: Seq<[u8; N]>,
) -> bool {
    &&& blocks.len() == blocks_per_row(row.len())
    &&& exists|answer: Vec<[u8; N]>| answer@ == blocks && #[trigger] row_answer(kernels, row, Ok(answer))
}

/// What a caller prints when a quantizer returns another number of blocks than
/// it was handed.
pub open spec fn row_length_text(got: nat, expected: nat) -> Seq<char> {
    "row quantizer filled "@ + text::decimal(got) + " blocks, expected "@ + text::decimal(expected)
}

/// The quantizer refused the row with this error, or returned another number
/// of blocks than it was handed.
pub open spec fn row_refused<const N: usize, K: RowQuantizer<N>>(
    kernels: &K,
    row: Seq<u32>,
    error: Error,
) -> bool {
    ||| row_answer::<N, K>(kernels, row, Err(error))
    ||| exists|answer: Vec<[u8; N]>|
        {
            &&& #[trigger] row_answer(kernels, row, Ok(answer))
            &&& answer@.len() != blocks_per_row(row.len())
            &&& error.says(row_length_text(answer@.len(), blocks_per_row(row.len())))
        }
}

/// The blocks of row `i` in a run of blocks.
pub open spec fn blocks_of_row<const N: usize>(
    blocks: Seq<[u8; N]>,
    width: nat,
    i: int,
) -> Seq<[u8; N]> {
    blocks.subrange(i * blocks_per_row(width), (i + 1) * blocks_per_row(width))
}

/// The blocks are those of the first `count` rows, one row after another, each
/// row quantized on its own.
pub open spec fn rows_blocks<const N: usize, K: RowQuantizer<N>>(
    kernels: &K,
    values: Seq<u32>,
    width: nat,
    count: nat,
    blocks: Seq<[u8; N]>,
) -> bool {
    &&& blocks.len() == count * blocks_per_row(width)
    &&& forall|i: int|
        0 <= i < count ==> row_blocks(
            kernels,
            #[trigger] row(values, width, i),
            blocks_of_row(blocks, width, i),
        )
}

/// The rows quantize one after another: all of them to their blocks, or up to
/// the first one that is refused.
pub open spec fn rows_outcome<const N: usize, K: RowQuantizer<N>>(
    kernels: &K,
    values: Seq<u32>,
    width: nat,
    count: nat,
    outcome: Result<Seq<[u8; N]>, Error>,
) -> bool {
    match outcome {
        Ok(blocks) => rows_blocks(kernels, values, width, count, blocks),
        Err(error) => exists|at: nat, earlier: Seq<[u8; N]>|
            {
                &&& at < count
                &&& #[trigger] rows_blocks(kernels, values, width, at, earlier)
                &&& row_refused::<N, K>(kernels, row(values, width, at as int), error)
            },
    }
}

/// One more row appended keeps the earlier rows' blocks.
proof fn lemma_append_row<const N: usize, K: RowQuantizer<N>>(
    kernels: &K,
    values: Seq<u32>,
    width: nat,
    count: nat,
    blocks: Seq<[u8; N]>,
    next: Seq<[u8; N]>,
)
    requires
        rows_blocks(kernels, values, width, count, blocks),
        row_blocks(kernels, row(values, width, count as int), next),
        row(values, width, count as int).len() == width,
    ensures
        rows_blocks(kernels, values, width, count + 1, blocks + next),
{
    let per_row = blocks_per_row(width);
    let grown = blocks + next;
    assert((count + 1) * per_row == count * per_row + per_row) by (nonlinear_arith);
    assert forall|i: int| 0 <= i < count + 1 implies row_blocks(
        kernels,
        #[trigger] row(values, width, i),
        blocks_of_row(grown, width, i),
    ) by {
        assert((i + 1) * per_row == i * per_row + per_row) by (nonlinear_arith);
        assert(0 <= i * per_row) by (nonlinear_arith)
            requires
                0 <= i,
        ;
        if i < count {
            assert((i + 1) * per_row <= count * per_row) by (nonlinear_arith)
                requires
                    i + 1 <= count,
            ;
            assert(blocks_of_row(grown, width, i) =~= blocks_of_row(blocks, width, i));
        } else {
            assert(blocks_of_row(grown, width, i) =~= next);
        }
    }
}

/// A quantizer's blocks, where it kept their number.
pub fn accept_row<const N: usize>(blocks: Vec<[u8; N]>, expected: usize) -> (outcome: Result<
    Vec<[u8; N]>,
    Error,
>)
    ensures
        blocks@.len() == expected ==> outcome == Ok::<Vec<[u8; N]>, Error>(blocks),
        blocks@.len() != expected ==> error::fails_with(
            outcome,
            row_length_text(blocks@.len(), expected as nat),
        ),
{
    let got: usize = blocks.len();
    if got == expected {
        Ok(blocks)
    } else {
        Err(
            error_text4(
                "row quantizer filled ",
                decimal_text(got as u64).as_str(),
                " blocks, expected ",
                decimal_text(expected as u64).as_str(),
            ),
        )
    }
}

/// The blocks of all rows.
fn quantize_rows<const N: usize, K: RowQuantizer<N>>(
    kernels: &K,
    values: &[u32],
    width: usize,
) -> (outcome: Result<Vec<[u8; N]>, Error>)
    requires
        width > 0,
        values@.len() % width as nat == 0,
    ensures
        match outcome {
            Ok(blocks) => rows_outcome::<N, K>(
                kernels,
                values@,
                width as nat,
                values@.len() / width as nat,
                Ok(blocks@),
            ),
            Err(error) => rows_outcome::<N, K>(
                kernels,
                values@,
                width as nat,
                values@.len() / width as nat,
                Err(error),
            ),
        },
{
    let total: usize = values.len();
    let count: usize = total / width;
    let per_row: usize = width / QK8_H;
    let mut blocks: Vec<[u8; N]> = Vec::new();
    let mut i: usize = 0;
    let mut at: usize = 0;
    proof {
        lemma_fundamental_div_mod(total as int, width as int);
        assert(0 * blocks_per_row(width as nat) == 0) by (nonlinear_arith);
    }
    while i < count
        invariant
            width > 0,
            i <= count,
            total == values@.len(),
            total == width * count,
            at == i * width,
            per_row == blocks_per_row(width as nat),
            count == values@.len() / width as nat,
            rows_blocks(kernels, values@, width as nat, i as nat, blocks@),
        decreases count - i,
    {
        proof {
            assert((i + 1) * width == i * width + width) by (nonlinear_arith);
            assert((i + 1) * width <= width * count) by (nonlinear_arith)
                requires
                    i + 1 <= count,
            ;
        }
        let input = slice_subrange(values, at, at + width);
        assert(input@ == row(values@, width as nat, i as int));
        let zeros = zeroed_blocks::<N>(per_row);
        match kernels.quantize_row(input, zeros) {
            Err(error) => {
                assert(row_answer::<N, K>(kernels, row(values@, width as nat, i as int), Err(error)));
                return Err(error);
            },
            Ok(next) => {
                assert(row_answer::<N, K>(kernels, row(values@, width as nat, i as int), Ok(next)));
                match accept_row(next, per_row) {
                    Err(error) => {
                        assert(row_refused::<N, K>(
                            kernels,
                            row(values@, width as nat, i as int),
                            error,
                        ));
                        return Err(error);
                    },
                    Ok(mut accepted) => {
                        proof {
                            lemma_append_row(
                                kernels,
                                values@,
                                width as nat,
                                i as nat,
                                blocks@,
                                accepted@,
                            );
                        }
                        blocks.append(&mut accepted);
                    },
                }
            },
        }
        i = i + 1;
        at = at + width;
    }
    Ok(blocks)
}

/// What a caller prints when a scalar is to be quantized by rows.
pub open spec fn h_scalar_text(dtype: GgmlDType) -> Seq<char> {
    dtype.spec_name() + " cannot quantize a scalar tensor"@
}

/// What a caller prints when the rows are empty.
pub open spec fn h_empty_row_text(dtype: GgmlDType) -> Seq<char> {
    dtype.spec_name() + " row width cannot be zero"@
}

/// What a caller prints when the rows do not divide into blocks.
pub open spec fn h_row_text(dtype: GgmlDType, width: usize) -> Seq<char> {
    dtype.spec_name() + " row width "@ + text::decimal(width as nat)
        + " is not divisible by block size "@ + text::decimal(QK8_H as nat)
}

/// What a caller prints when there are more or fewer values than the shape
/// holds.
pub open spec fn h_count_text(dtype: GgmlDType, count: nat, dims: Seq<usize>) -> Seq<char> {
    dtype.spec_name() + " flat value count "@ + text::decimal(count)
        + " is incompatible with shape "@ + text::decimal_list(dims)
}

/// What a caller prints when the type is not of the Q8_H family.
pub open spec fn h_misuse_text(dtype: GgmlDType) -> Seq<char> {
    "internal misuse of H-family quantizer with "@ + dtype.spec_name()
}

/// The storage holds the blocks of the rows.
pub open spec fn rows_stored<const N: usize, K: RowQuantizer<N>>(
    kernels: &K,
    values: Seq<u32>,
    width: nat,
    dtype: GgmlDType,
    outcome: Result<QStorage, Error>,
) -> bool {
    match outcome {
        Ok(stored) => exists|blocks: Seq<[u8; N]>|
            {
                &&& #[trigger] rows_blocks::<N, K>(
                    kernels,
                    values,
                    width,
                    values.len() / width,
                    blocks,
                )
                &&& storage::holds(stored, dtype, raw::block_bytes(blocks))
            },
        Err(error) => rows_outcome::<N, K>(
            kernels,
            values,
            width,
            values.len() / width,
            Err(error),
        ),
    }
}

/// What quantizing to the Q8_H family does: the values are refused where they
/// do not form rows of whole blocks, else each row is quantized on its own.
pub open spec fn h_quantized<K: BlockKernels>(
    kernels: &K,
    values: Seq<u32>,
    dims: Seq<usize>,
    dtype: GgmlDType,
    outcome: Result<QStorage, Error>,
) -> bool {
    if dims.len() == 0 {
        error::fails_with(outcome, h_scalar_text(dtype))
    } else if dims.last() == 0 {
        error::fails_with(outcome, h_empty_row_text(dtype))
    } else if dims.last() % QK8_H != 0 {
        error::fails_with(outcome, h_row_text(dtype, dims.last()))
    } else if values.len() != shape::elements(dims) {
        error::fails_with(outcome, h_count_text(dtype, values.len(), dims))
    } else {
        match dtype {
            GgmlDType::Q8H1 => rows_stored::<44, K>(
                kernels,
                values,
                dims.last() as nat,
                dtype,
                outcome,
            ),
            GgmlDType::Q8HP1 => rows_stored::<40, K>(
                kernels,
                values,
                dims.last() as nat,
                dtype,
                outcome,
            ),
            _ => error::fails_with(outcome, h_misuse_text(dtype)),
        }
    }
}

/// Quantizes values to the Q8_H family, row by row.
pub fn quantize_h_cpu<K: BlockKernels>(
    kernels: &K,
    values: &[u32],
    shape: &Shape,
    dtype: GgmlDType,
) -> (outcome: Result<QStorage, Error>)
    requires
        shape@.len() > 0 && shape@.last() > 0 && shape@.last() % QK8_H == 0 ==> shape::elements_fit(
            shape@,
        ),
    ensures
        h_quantized(kernels, values@, shape@, dtype, outcome),
{
    if shape.rank() == 0 {
        return Err(error_text2(dtype.name(), " cannot quantize a scalar tensor"));
    }
    let width: usize = shape.dims()[shape.rank() - 1];
    if width == 0 {
        return Err(error_text2(dtype.name(), " row width cannot be zero"));
    }
    if width % QK8_H != 0 {
        return Err(
            error_text5(
                dtype.name(),
                " row width ",
                decimal_text(width as u64).as_str(),
                " is not divisible by block size ",
                decimal_text(QK8_H as u64).as_str(),
            ),
        );
    }
    if values.len() != shape.elem_count() {
        return Err(
            error_text5(
                dtype.name(),
                " flat value count ",
                decimal_text(values.len() as u64).as_str(),
                " is incompatible with shape ",
                shape.text().as_str(),
            ),
        );
    }
    proof {
        let rows = shape::elements(shape@.drop_last());
        lemma_mod_multiples_basic(rows as int, width as int);
    }
    match dtype {
        GgmlDType::Q8H1 => match quantize_rows::<44, K>(kernels, values, width) {
            Err(error) => Err(error),
            Ok(blocks) => Ok(
                QStorage::CpuRaw(RawStorage::H1(raw_storage_from_blocks(blocks, dtype, QK8_H))),
            ),
        },
        GgmlDType::Q8HP1 => match quantize_rows::<40, K>(kernels, values, width) {
            Err(error) => Err(error),
            Ok(blocks) => Ok(
                QStorage::CpuRaw(RawStorage::HP1(raw_storage_from_blocks(blocks, dtype, QK8_H))),
            ),
        },
        _ => Err(error_text2("internal misuse of H-family quantizer with ", dtype.name())),
    }
}

/// The quantizer answers alike: with the same blocks, or with the same error.
pub open spec fn same_answer<const N: usize>(
    a: Result<Vec<[u8; N]>, Error>,
    b: Result<Vec<[u8; N]>, Error>,
) -> bool {
    match (a, b) {
        (Ok(x), Ok(y)) => x@ == y@,
        (Err(x), Err(y)) => x@ == y@,
        _ => false,
    }
}

/// The quantizer answers alike whenever it is asked for this row.
pub open spec fn answers_alike<const N: usize, K: RowQuantizer<N>>(kernels: &K, row: Seq<u32>) -> bool {
    forall|a: Result<Vec<[u8; N]>, Error>, b: Result<Vec<[u8; N]>, Error>|
        #[trigger] row_answer(kernels, row, a) && #[trigger] row_answer(kernels, row, b)
            ==> same_answer(a, b)
}

/// Rows are independent of one another: equal rows have equal blocks, wherever
/// they stand and whatever stands around them.
pub proof fn law_rows_are_isolated<const N: usize, K: RowQuantizer<N>>(
    kernels: &K,
    values: Seq<u32>,
    other: Seq<u32>,
    width: nat,
    count: nat,
    other_count: nat,
    blocks: Seq<[u8; N]>,
    other_blocks: Seq<[u8; N]>,
    i: int,
    j: int,
)
    requires
        rows_blocks(kernels, values, width, count, blocks),
        rows_blocks(kernels, other, width, other_count, other_blocks),
        0 <= i < count,
        0 <= j < other_count,
        row(values, width, i) == row(other, width, j),
        answers_alike::<N, K>(kernels, row(values, width, i)),
    ensures
        blocks_of_row(blocks, width, i) == blocks_of_row(other_blocks, width, j),
{
    assert(row_blocks(kernels, row(values, width, i), blocks_of_row(blocks, width, i)));
    assert(row_blocks(kernels, row(other, width, j), blocks_of_row(other_blocks, width, j)));
}

/// The bytes that a row of `width` values takes.
pub open spec fn row_bytes(dtype: GgmlDType, width: nat) -> nat {
    blocks_per_row(width) * dtype.spec_type_size() as nat
}

/// The bytes of a row quantized on its own are those that it has in the whole.
proof fn lemma_row_stands_alone<const N: usize, K: RowQuantizer<N>>(
    kernels: &K,
    values: Seq<u32>,
    width: nat,
    dtype: GgmlDType,
    whole: QStorage,
    i: int,
    alone: Result<QStorage, Error>,
)
    requires
        width > 0,
        values.len() % width == 0,
        dtype.spec_type_size() == N,
        0 <= i < values.len() / width,
        rows_stored::<N, K>(kernels, values, width, dtype, Ok(whole)),
        rows_stored::<N, K>(kernels, row(values, width, i), width, dtype, alone),
        answers_alike::<N, K>(kernels, row(values, width, i)),
    ensures
        alone is Ok,
        alone->Ok_0.spec_data() == whole.spec_data().subrange(
            i * row_bytes(dtype, width),
            (i + 1) * row_bytes(dtype, width),
        ),
{
    let count = values.len() / width;
    let per_row = blocks_per_row(width);
    let single = row(values, width, i);
    lemma_fundamental_div_mod(values.len() as int, width as int);
    assert(0 <= i * width <= (i + 1) * width <= values.len()) by (nonlinear_arith)
        requires
            0 <= i < count,
            values.len() == width * count,
    ;
    assert((i + 1) * width == i * width + width) by (nonlinear_arith);
    assert(single.len() == width);
    lemma_fundamental_div_mod_converse(width as int, width as int, 1, 0);
    assert(row(single, width, 0) =~= single);
    let blocks = choose|blocks: Seq<[u8; N]>|
        {
            &&& #[trigger] rows_blocks::<N, K>(kernels, values, width, count, blocks)
            &&& storage::holds(whole, dtype, raw::block_bytes(blocks))
        };
    assert(row_blocks(kernels, row(values, width, i), blocks_of_row(blocks, width, i)));
    match alone {
        Err(error) => {
            let (at, earlier) = choose|at: nat, earlier: Seq<[u8; N]>|
                {
                    &&& at < 1
                    &&& #[trigger] rows_blocks(kernels, single, width, at, earlier)
                    &&& row_refused::<N, K>(kernels, row(single, width, at as int), error)
                };
            assert(row_refused::<N, K>(kernels, single, error));
            assert(false);
        },
        Ok(stored) => {
            let own = choose|own: Seq<[u8; N]>|
                {
                    &&& #[trigger] rows_blocks::<N, K>(kernels, single, width, 1, own)
                    &&& storage::holds(stored, dtype, raw::block_bytes(own))
                };
            law_rows_are_isolated(kernels, values, single, width, count, 1, blocks, own, i, 0);
            assert(own =~= blocks_of_row(own, width, 0));
            assert(0 <= i * per_row <= (i + 1) * per_row <= count * per_row) by (nonlinear_arith)
                requires
                    0 <= i < count,
            ;
            raw::lemma_bytes_of_run(blocks, i * per_row, (i + 1) * per_row);
            assert((i * per_row) * N == i * (per_row * N)) by (nonlinear_arith);
            assert(((i + 1) * per_row) * N == (i + 1) * (per_row * N)) by (nonlinear_arith);
        },
    }
}

/// Quantizing a row on its own gives the bytes that it has in every tensor
/// with this row, for a quantizer that answers alike whenever it is asked.
pub proof fn law_quantized_row_stands_alone<K: BlockKernels>(
    kernels: &K,
    values: Seq<u32>,
    dims: Seq<usize>,
    dtype: GgmlDType,
    whole: QStorage,
    i: int,
    alone: Result<QStorage, Error>,
)
    requires
        h_quantized(kernels, values, dims, dtype, Ok(whole)),
        0 <= i < values.len() / dims.last() as nat,
        h_quantized(kernels, row(values, dims.last() as nat, i), seq![dims.last()], dtype, alone),
        dtype is Q8H1 ==> answers_alike::<44, K>(kernels, row(values, dims.last() as nat, i)),
        dtype is Q8HP1 ==> answers_alike::<40, K>(kernels, row(values, dims.last() as nat, i)),
    ensures
        alone is Ok,
        alone->Ok_0.spec_data() == whole.spec_data().subrange(
            i * row_bytes(dtype, dims.last() as nat),
            (i + 1) * row_bytes(dtype, dims.last() as nat),
        ),
{
    let width = dims.last() as nat;
    let single = row(values, width, i);
    let rows = shape::elements(dims.drop_last());
    lemma_mod_multiples_basic(rows as int, width as int);
    assert(values.len() % width == 0);
    lemma_fundamental_div_mod(values.len() as int, width as int);
    assert(0 <= i * width <= (i + 1) * width <= values.len()) by (nonlinear_arith)
        requires
            0 <= i < values.len() / width,
            values.len() == width * (values.len() / width),
    ;
    assert((i + 1) * width == i * width + width) by (nonlinear_arith);
    assert(seq![dims.last()].drop_last() =~= Seq::<usize>::empty());
    assert(shape::elements(seq![dims.last()]) == width) by {
        reveal_with_fuel(shape::elements, 2);
    }
    match dtype {
        GgmlDType::Q8H1 => {
            lemma_row_stands_alone::<44, K>(kernels, values, width, dtype, whole, i, alone);
        },
        GgmlDType::Q8HP1 => {
            lemma_row_stands_alone::<40, K>(kernels, values, width, dtype, whole, i, alone);
        },
        _ => {},
    }
}

/// The blocks of a tensor take as many bytes as zeroed blocks for the same
/// number of elements.
pub proof fn law_rows_fill_the_storage<const N: usize, K: RowQuantizer<N>>(
    kernels: &K,
    values: Seq<u32>,
    width: nat,
    dtype: GgmlDType,
    blocks: Seq<[u8; N]>,
)
    requires
        width > 0,
        width % QK8_H as nat == 0,
        values.len() % width == 0,
        dtype.spec_type_size() == N,
        dtype.spec_block_size() == QK8_H,
        rows_blocks(kernels, values, width, values.len() / width, blocks),
    ensures
        raw::block_bytes(blocks).len() == storage::blocks_len(dtype, values.len()),
{
    let count = values.len() / width;
    let per_row = blocks_per_row(width);
    lemma_fundamental_div_mod(values.len() as int, width as int);
    lemma_fundamental_div_mod(width as int, QK8_H as int);
    assert(values.len() == QK8_H * (count * per_row)) by (nonlinear_arith)
        requires
            values.len() == width * count,
            width == QK8_H * per_row,
    ;
    lemma_fundamental_div_mod_converse(
        values.len() as int,
        QK8_H as int,
        (count * per_row) as int,
        0,
    );
}

/// Values are quantized by rows where they have a last extent that is a multiple
/// of the block size and not zero, where there are as many as the extents ask
/// for, and for a type of the Q8_H family; they are refused for the first of
/// these that does not hold, and the text tells which.
pub proof fn law_rows_are_refused_for_a_reason<K: BlockKernels>(
    kernels: &K,
    values: &[u32],
    shape: &Shape,
    dtype: GgmlDType,
    outcome: Result<QStorage, Error>,
)
    requires
        call_ensures(quantize_h_cpu::<K>, (kernels, values, shape, dtype), outcome),
    ensures
        outcome is Ok ==> {
            &&& shape@.len() > 0
            &&& shape@[shape@.len() - 1] > 0
            &&& shape@[shape@.len() - 1] % 32 == 0
            &&& values@.len() == shape::elements(shape@)
            &&& dtype is Q8H1 || dtype is Q8HP1
            &&& outcome->Ok_0.spec_dtype() == dtype
            &&& outcome->Ok_0 is CpuRaw
        },
        shape@.len() == 0 ==> outcome is Err && outcome->Err_0@ == dtype.spec_name()
            + " cannot quantize a scalar tensor"@,
        shape@.len() > 0 && shape@.last() == 0 ==> outcome is Err && outcome->Err_0@
            == dtype.spec_name() + " row width cannot be zero"@,
        shape@.len() > 0 && shape@.last() % 32 != 0 ==> outcome is Err && outcome->Err_0@
            == dtype.spec_name() + " row width "@ + text::decimal(shape@.last() as nat)
            + " is not divisible by block size "@ + text::decimal(32),
        shape@.len() > 0 && shape@.last() > 0 && shape@.last() % 32 == 0 ==> {
            &&& values@.len() != shape::elements(shape@) ==> outcome is Err && outcome->Err_0@
                == dtype.spec_name() + " flat value count "@ + text::decimal(values@.len())
                + " is incompatible with shape "@ + text::decimal_list(shape@)
            &&& values@.len() == shape::elements(shape@) && !(dtype is Q8H1 || dtype is Q8HP1)
                ==> outcome is Err && outcome->Err_0@
                == "internal misuse of H-family quantizer with "@ + dtype.spec_name()
        },
{
}

/// A quantizer's blocks are taken as they are where there are as many as were
/// asked for, and refused else.
pub proof fn law_rows_have_the_blocks_they_ask_for<const N: usize>(
    blocks: Vec<[u8; N]>,
    expected: usize,
    outcome: Result<Vec<[u8; N]>, Error>,
)
    requires
        call_ensures(accept_row::<N>, (blocks, expected), outcome),
    ensures
        outcome is Ok <==> blocks@.len() == expected,
        outcome is Ok ==> outcome->Ok_0 == blocks,
        outcome is Err ==> outcome->Err_0@ == "row quantizer filled "@ + text::decimal(blocks@.len())
            + " blocks, expected "@ + text::decimal(expected as nat),
{
}

} // verus!
