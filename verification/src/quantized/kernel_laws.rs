//! What holds of the blocks and the values that the kernels hand back: which
//! bytes and values they are asked about, and what becomes of their answers.

use crate::cpu_storage::CpuStorage;
use crate::device::Device;
use crate::dtype::GgmlDType;
use crate::error::Error;
use crate::quantized::embedding;
use crate::quantized::kernels::BlockKernels;
use crate::quantized::storage;
use crate::quantized::storage::{QStorage, QuantizedBlocks};
use crate::tensor::Storage;
use crate::text;
use vstd::arithmetic::div_mod::lemma_fundamental_div_mod;
use vstd::prelude::*;

verus! {

/// The values of a looked up row are the kernel's values for the bytes of the
/// row that the id names, and the rows come in the order of the ids.
pub proof fn law_looked_up_rows_are_those_of_their_ids<K: BlockKernels>(
    blocks: &QuantizedBlocks,
    kernels: &K,
    ids: &Vec<u32>,
    rows: usize,
    hidden: usize,
    outcome: Result<Vec<u32>, Error>,
)
    requires
        call_ensures(
            QuantizedBlocks::embedding::<K>,
            (blocks, kernels, ids, rows, hidden),
            outcome,
        ),
        blocks.wf(),
        outcome is Ok,
    ensures
        ({
            let bytes_of_row = hidden as int / blocks.dtype.spec_block_size() as int
                * blocks.dtype.spec_type_size();
            &&& hidden as nat % blocks.dtype.spec_block_size() as nat == 0
            &&& blocks.data@.len() == rows * bytes_of_row
            &&& outcome->Ok_0@.len() == ids@.len() * hidden
            &&& forall|i: int|
                0 <= i < ids@.len() ==> {
                    &&& #[trigger] ids@[i] < rows
                    &&& exists|bytes: &[u8], zeros: Vec<u32>, answer: Vec<u32>|
                        {
                            &&& #[trigger] call_ensures(
                                K::to_float,
                                (kernels, blocks.dtype, bytes, zeros),
                                Ok(answer),
                            )
                            &&& bytes@ == blocks.data@.subrange(
                                ids@[i] * bytes_of_row,
                                (ids@[i] + 1) * bytes_of_row,
                            )
                            &&& zeros@ == Seq::new(hidden as nat, |j: int| 0u32)
                            &&& answer@ == outcome->Ok_0@.subrange(i * hidden, (i + 1) * hidden)
                        }
                }
        }),
{
    let block_size = blocks.dtype.spec_block_size() as nat;
    let type_size = blocks.dtype.spec_type_size() as nat;
    let values = outcome->Ok_0@;
    let bytes_of_row = hidden as int / block_size as int * type_size;
    lemma_fundamental_div_mod(blocks.data@.len() as int, type_size as int);
    let per_row = hidden as nat / block_size;
    assert(type_size * (rows * per_row) == rows * (per_row * type_size)) by (nonlinear_arith);
    assert forall|i: int| 0 <= i < ids@.len() implies {
        &&& #[trigger] ids@[i] < rows
        &&& exists|bytes: &[u8], zeros: Vec<u32>, answer: Vec<u32>|
            {
                &&& #[trigger] call_ensures(
                    K::to_float,
                    (kernels, blocks.dtype, bytes, zeros),
                    Ok(answer),
                )
                &&& bytes@ == blocks.data@.subrange(
                    ids@[i] * bytes_of_row,
                    (ids@[i] + 1) * bytes_of_row,
                )
                &&& zeros@ == Seq::new(hidden as nat, |j: int| 0u32)
                &&& answer@ == values.subrange(i * hidden, (i + 1) * hidden)
            }
    } by {
        assert(embedding::row_values(
            kernels,
            *blocks,
            hidden as nat,
            ids@[i] as int,
            values.subrange(i * hidden, (i + 1) * hidden),
        ));
    }
}

/// Rows are refused where they are no whole blocks, where there are more or
/// fewer blocks than they take, and where an id names none of them; the text
/// tells which.
pub proof fn law_missing_rows_are_refused<K: BlockKernels>(
    blocks: &QuantizedBlocks,
    kernels: &K,
    ids: &Vec<u32>,
    rows: usize,
    hidden: usize,
    outcome: Result<Vec<u32>, Error>,
    at: int,
)
    requires
        call_ensures(
            QuantizedBlocks::embedding::<K>,
            (blocks, kernels, ids, rows, hidden),
            outcome,
        ),
        blocks.wf(),
    ensures
        ({
            let block_size = blocks.dtype.spec_block_size() as nat;
            let count = blocks.data@.len() / blocks.dtype.spec_type_size() as nat;
            let expected = rows * (hidden as nat / block_size);
            &&& hidden as nat % block_size != 0 ==> outcome is Err && outcome->Err_0@
                == "quantized embedding hidden size "@ + text::decimal(hidden as nat)
                + " is not divisible by block size "@ + text::decimal(block_size)
            &&& hidden as nat % block_size == 0 && count != expected ==> outcome is Err
                && outcome->Err_0@ == "quantized tensor has "@ + text::decimal(count)
                + " blocks, expected "@ + text::decimal(expected as nat)
            &&& 0 <= at < ids@.len() && ids@[at] >= rows ==> outcome is Err
            &&& hidden as nat % block_size == 0 && count == expected && ids@.len() > 0 && ids@[0] >= rows
                ==> outcome is Err && outcome->Err_0@ == "embedding id "@ + text::decimal(
                ids@[0] as nat,
            ) + " is out of range for "@ + text::decimal(rows as nat) + " rows"@
            &&& hidden as nat % block_size == 0 && count == expected && ids@.len() == 0 ==> outcome is Ok
        }),
{
    let block_size = blocks.dtype.spec_block_size() as nat;
    let count = blocks.data@.len() / blocks.dtype.spec_type_size() as nat;
    let expected = rows * (hidden as nat / block_size);
    if outcome is Ok && 0 <= at < ids@.len() {
        assert(ids@[at] < rows);
    }
    if hidden as nat % block_size == 0 && count == expected && ids@.len() > 0 && ids@[0] >= rows {
        if outcome is Ok {
            assert(ids@[0] < rows);
        } else {
            let error = outcome->Err_0;
            let (first, earlier) = choose|first: nat, earlier: Seq<u32>|
                {
                    &&& first < ids@.len()
                    &&& #[trigger] embedding::rows_embedded(
                        kernels,
                        *blocks,
                        ids@,
                        rows as nat,
                        hidden as nat,
                        first,
                        earlier,
                    )
                    &&& embedding::row_unavailable(
                        kernels,
                        *blocks,
                        rows as nat,
                        hidden as nat,
                        ids@[first as int],
                        error,
                    )
                };
            if first > 0 {
                assert(ids@[0] < rows);
            }
        }
    }
}

/// The type's blocks are kept as raw bytes, which no kernel fills.
pub open spec fn is_h_type(dtype: GgmlDType) -> bool {
    dtype is Q8H1 || dtype is Q8HP1
}

/// Zeroed blocks are all zero, and take the bytes of one block for each run of
/// elements that a block holds.
pub proof fn law_zeroed_blocks_have_room_for_the_elements(
    device: &Device,
    elem_count: usize,
    dtype: GgmlDType,
    outcome: Result<QStorage, Error>,
    bytes: Result<&[u8], Error>,
)
    requires
        call_ensures(Device::qzeros, (device, elem_count, dtype), outcome),
        outcome is Ok ==> call_ensures(QStorage::data, (&outcome->Ok_0,), bytes),
    ensures
        outcome is Ok <==> *device is Cpu,
        *device is Cpu ==> {
            &&& outcome->Ok_0.spec_dtype() == dtype
            &&& outcome->Ok_0.wf()
            &&& outcome->Ok_0 is CpuRaw <==> is_h_type(dtype)
            &&& outcome->Ok_0 is Cpu <==> !is_h_type(dtype)
            &&& bytes is Ok
            &&& forall|i: int| 0 <= i < bytes->Ok_0@.len() ==> #[trigger] bytes->Ok_0@[i] == 0
            &&& elem_count as nat % dtype.spec_block_size() as nat == 0 ==> bytes->Ok_0@.len()
                * dtype.spec_block_size() == elem_count * dtype.spec_type_size()
        },
        *device is Metal ==> outcome->Err_0 is NotCompiledWithMetalSupport,
        *device is Cuda ==> outcome->Err_0 is NotCompiledWithCudaSupport,
        *device is Aqua ==> outcome->Err_0@ == "quantized storage is not supported on Aqua devices"@,
{
    let block_size = dtype.spec_block_size() as int;
    let type_size = dtype.spec_type_size() as int;
    let count = elem_count as int / block_size;
    lemma_fundamental_div_mod(elem_count as int, block_size);
    assert((count * type_size) * block_size == (block_size * count) * type_size) by (nonlinear_arith);
}

/// Bytes that were put on the host come out as they were, under the type that
/// they were given; bytes of a raw type that are no whole blocks are refused.
/// Elsewhere bytes are refused for what is missing.
pub proof fn law_stored_bytes_come_back(
    data: &[u8],
    device: &Device,
    dtype: GgmlDType,
    outcome: Result<QStorage, Error>,
    bytes: Result<&[u8], Error>,
    size: usize,
)
    requires
        call_ensures(QStorage::from_data, (data, device, dtype), outcome),
        outcome is Ok ==> call_ensures(QStorage::data, (&outcome->Ok_0,), bytes),
        outcome is Ok ==> call_ensures(QStorage::size_in_bytes, (&outcome->Ok_0,), size),
    ensures
        outcome is Ok <==> *device is Cpu && data@.len() % dtype.spec_type_size() as nat == 0,
        outcome is Ok ==> {
            &&& bytes is Ok
            &&& bytes->Ok_0@ == data@
            &&& size == data@.len()
            &&& outcome->Ok_0.spec_dtype() == dtype
            &&& outcome->Ok_0 is CpuRaw <==> is_h_type(dtype)
            &&& outcome->Ok_0 is Cpu <==> !is_h_type(dtype)
        },
        *device is Cpu && outcome is Err ==> outcome->Err_0@ == dtype.spec_name()
            + " raw data length "@ + text::decimal(data@.len())
            + " is not divisible by block byte size "@ + text::decimal(dtype.spec_type_size() as nat),
        *device is Metal && is_h_type(dtype) ==> outcome->Err_0@ == dtype.spec_name()
            + " raw storage is not supported on Metal"@,
        *device is Cuda && is_h_type(dtype) ==> outcome->Err_0@ == dtype.spec_name()
            + " raw storage is not supported on CUDA"@,
        *device is Metal && !is_h_type(dtype) ==> outcome->Err_0 is NotCompiledWithMetalSupport,
        *device is Cuda && !is_h_type(dtype) ==> outcome->Err_0 is NotCompiledWithCudaSupport,
        *device is Aqua ==> outcome->Err_0@ == "quantized storage is not supported on Aqua devices"@,
{
}

/// Blocks are filled with the kernel's bytes for the values, under their type,
/// or stay as they were.
pub proof fn law_blocks_are_filled_by_the_kernel<K: BlockKernels>(
    blocks: &mut QStorage,
    kernels: &K,
    src: &Storage,
    outcome: Result<(), Error>,
)
    requires
        call_ensures(QStorage::quantize::<K>, (blocks, kernels, src), outcome),
    ensures
        outcome is Err ==> *final(blocks) == *old(blocks),
        outcome is Ok ==> {
            &&& *old(blocks) is Cpu
            &&& *final(blocks) is Cpu
            &&& final(blocks)->Cpu_0.dtype == old(blocks)->Cpu_0.dtype
            &&& final(blocks)->Cpu_0.data@.len() == old(blocks)->Cpu_0.data@.len()
            &&& *src is Cpu
            &&& src->Cpu_0 is F32
            &&& exists|filled: Vec<u8>|
                {
                    &&& #[trigger] call_ensures(
                        K::from_float,
                        (
                            kernels,
                            old(blocks)->Cpu_0.dtype,
                            &src->Cpu_0->F32_0,
                            &old(blocks)->Cpu_0.data,
                        ),
                        Ok(filled),
                    )
                    &&& filled@ == final(blocks)->Cpu_0.data@
                }
        },
        *old(blocks) is Cpu && *src is Cpu && src->Cpu_0 is F32 && outcome is Err ==> exists|
            answer: Result<Vec<u8>, Error>,
        |
            {
                &&& #[trigger] call_ensures(
                    K::from_float,
                    (
                        kernels,
                        old(blocks)->Cpu_0.dtype,
                        &src->Cpu_0->F32_0,
                        &old(blocks)->Cpu_0.data,
                    ),
                    answer,
                )
                &&& answer is Ok ==> answer->Ok_0@.len() != old(blocks)->Cpu_0.data@.len()
                &&& answer is Err ==> outcome->Err_0 == answer->Err_0
            },
        *old(blocks) is Cpu && *src is Cpu && !(src->Cpu_0 is F32) ==> outcome is Err
            && outcome->Err_0@ == "unexpected dtype, expected: F32, got: "@
            + src->Cpu_0.spec_dtype().spec_name(),
        *old(blocks) is Metal && *src is Metal ==> outcome is Err
            && outcome->Err_0 is NotCompiledWithMetalSupport,
        *old(blocks) is Cuda && *src is Cuda ==> outcome is Err
            && outcome->Err_0 is NotCompiledWithCudaSupport,
        *old(blocks) is CpuRaw || !(*src is Cpu || *src is Cuda || *src is Metal) ==> outcome is Err
            && outcome->Err_0@ == "Invalid quantize storage locations do not match"@,
        *old(blocks) is Cpu && !(*src is Cpu) ==> outcome is Err && outcome->Err_0@
            == "Invalid quantize storage locations do not match"@,
{
    reveal_strlit("unexpected dtype, expected: F32, got: ");
    reveal_strlit("unexpected dtype, expected: ");
    reveal_strlit("F32");
    reveal_strlit(", got: ");
    let name = src->Cpu_0.spec_dtype().spec_name();
    assert("unexpected dtype, expected: "@ + "F32"@ + ", got: "@ + name
        =~= "unexpected dtype, expected: F32, got: "@ + name);
}

/// Blocks are filled with the kernel's bytes for values on the host, under their
/// type, or stay as they were.
pub proof fn law_blocks_are_filled_by_the_kernel_from_the_host<K: BlockKernels>(
    blocks: &mut QStorage,
    kernels: &K,
    src: &Storage,
    outcome: Result<(), Error>,
)
    requires
        call_ensures(QStorage::quantize_onto::<K>, (blocks, kernels, src), outcome),
    ensures
        outcome is Err ==> *final(blocks) == *old(blocks),
        outcome is Ok ==> {
            &&& *old(blocks) is Cpu
            &&& *final(blocks) is Cpu
            &&& final(blocks)->Cpu_0.dtype == old(blocks)->Cpu_0.dtype
            &&& final(blocks)->Cpu_0.data@.len() == old(blocks)->Cpu_0.data@.len()
            &&& *src is Cpu
            &&& src->Cpu_0 is F32
            &&& exists|filled: Vec<u8>|
                {
                    &&& #[trigger] call_ensures(
                        K::from_float,
                        (
                            kernels,
                            old(blocks)->Cpu_0.dtype,
                            &src->Cpu_0->F32_0,
                            &old(blocks)->Cpu_0.data,
                        ),
                        Ok(filled),
                    )
                    &&& filled@ == final(blocks)->Cpu_0.data@
                }
        },
        *old(blocks) is Cpu && *src is Cpu && src->Cpu_0 is F32 && outcome is Err ==> exists|
            answer: Result<Vec<u8>, Error>,
        |
            {
                &&& #[trigger] call_ensures(
                    K::from_float,
                    (
                        kernels,
                        old(blocks)->Cpu_0.dtype,
                        &src->Cpu_0->F32_0,
                        &old(blocks)->Cpu_0.data,
                    ),
                    answer,
                )
                &&& answer is Ok ==> answer->Ok_0@.len() != old(blocks)->Cpu_0.data@.len()
                &&& answer is Err ==> outcome->Err_0 == answer->Err_0
            },
        *old(blocks) is Cpu && *src is Cpu && !(src->Cpu_0 is F32) ==> outcome is Err
            && outcome->Err_0@ == "unexpected dtype, expected: F32, got: "@
            + src->Cpu_0.spec_dtype().spec_name(),
        *old(blocks) is Metal && *src is Cpu ==> outcome is Err
            && outcome->Err_0 is NotCompiledWithMetalSupport,
        *old(blocks) is Cuda && *src is Cpu ==> outcome is Err
            && outcome->Err_0 is NotCompiledWithCudaSupport,
        *old(blocks) is CpuRaw || !(*src is Cpu) ==> outcome is Err && outcome->Err_0@
            == "Invalid quantize source storage locations: not on cpu"@,
{
    reveal_strlit("unexpected dtype, expected: F32, got: ");
    reveal_strlit("unexpected dtype, expected: ");
    reveal_strlit("F32");
    reveal_strlit(", got: ");
    let name = src->Cpu_0.spec_dtype().spec_name();
    assert("unexpected dtype, expected: "@ + "F32"@ + ", got: "@ + name
        =~= "unexpected dtype, expected: F32, got: "@ + name);
}

/// Blocks are filled with the kernel's bytes for the values and their
/// importances, under their type, or stay as they were.
pub proof fn law_blocks_are_filled_by_importance<K: BlockKernels>(
    blocks: &mut QStorage,
    kernels: &K,
    src: &Storage,
    imatrix_weights: &Vec<u32>,
    n_per_row: usize,
    outcome: Result<(), Error>,
)
    requires
        call_ensures(QStorage::quantize_imatrix::<K>, (blocks, kernels, src, imatrix_weights, n_per_row), outcome),
    ensures
        outcome is Err ==> *final(blocks) == *old(blocks),
        outcome is Ok ==> {
            &&& *old(blocks) is Cpu
            &&& *final(blocks) is Cpu
            &&& final(blocks)->Cpu_0.dtype == old(blocks)->Cpu_0.dtype
            &&& final(blocks)->Cpu_0.data@.len() == old(blocks)->Cpu_0.data@.len()
            &&& *src is Cpu
            &&& src->Cpu_0 is F32
            &&& exists|filled: Vec<u8>|
                {
                    &&& #[trigger] call_ensures(
                        K::from_float_imatrix,
                        (
                            kernels,
                            old(blocks)->Cpu_0.dtype,
                            &src->Cpu_0->F32_0,
                            imatrix_weights,
                            n_per_row,
                            &old(blocks)->Cpu_0.data,
                        ),
                        Ok(filled),
                    )
                    &&& filled@ == final(blocks)->Cpu_0.data@
                }
        },
        *old(blocks) is Cpu && *src is Cpu && src->Cpu_0 is F32 && outcome is Err ==> exists|
            answer: Result<Vec<u8>, Error>,
        |
            {
                &&& #[trigger] call_ensures(
                    K::from_float_imatrix,
                    (
                        kernels,
                        old(blocks)->Cpu_0.dtype,
                        &src->Cpu_0->F32_0,
                        imatrix_weights,
                        n_per_row,
                        &old(blocks)->Cpu_0.data,
                    ),
                    answer,
                )
                &&& answer is Ok ==> answer->Ok_0@.len() != old(blocks)->Cpu_0.data@.len()
                &&& answer is Err ==> outcome->Err_0 == answer->Err_0
            },
        *old(blocks) is Cpu && *src is Cpu && !(src->Cpu_0 is F32) ==> outcome is Err
            && outcome->Err_0@ == "unexpected dtype, expected: F32, got: "@
            + src->Cpu_0.spec_dtype().spec_name(),
        *old(blocks) is Metal && *src is Metal ==> outcome is Err
            && outcome->Err_0 is NotCompiledWithMetalSupport,
        *old(blocks) is Cuda && *src is Cuda ==> outcome is Err
            && outcome->Err_0 is NotCompiledWithCudaSupport,
        *old(blocks) is CpuRaw || !(*src is Cpu || *src is Cuda || *src is Metal) ==> outcome is Err
            && outcome->Err_0@ == "Invalid quantize storage locations do not match"@,
        *old(blocks) is Cpu && !(*src is Cpu) ==> outcome is Err && outcome->Err_0@
            == "Invalid quantize storage locations do not match"@,
{
    reveal_strlit("unexpected dtype, expected: F32, got: ");
    reveal_strlit("unexpected dtype, expected: ");
    reveal_strlit("F32");
    reveal_strlit(", got: ");
    let name = src->Cpu_0.spec_dtype().spec_name();
    assert("unexpected dtype, expected: "@ + "F32"@ + ", got: "@ + name
        =~= "unexpected dtype, expected: F32, got: "@ + name);
}

/// Blocks are filled with the kernel's bytes for values on the host and their
/// importances, under their type, or stay as they were.
pub proof fn law_blocks_are_filled_by_importance_from_the_host<K: BlockKernels>(
    blocks: &mut QStorage,
    kernels: &K,
    src: &Storage,
    imatrix_weights: &Vec<u32>,
    n_per_row: usize,
    outcome: Result<(), Error>,
)
    requires
        call_ensures(QStorage::quantize_imatrix_onto::<K>, (blocks, kernels, src, imatrix_weights, n_per_row), outcome),
    ensures
        outcome is Err ==> *final(blocks) == *old(blocks),
        outcome is Ok ==> {
            &&& *old(blocks) is Cpu
            &&& *final(blocks) is Cpu
            &&& final(blocks)->Cpu_0.dtype == old(blocks)->Cpu_0.dtype
            &&& final(blocks)->Cpu_0.data@.len() == old(blocks)->Cpu_0.data@.len()
            &&& *src is Cpu
            &&& src->Cpu_0 is F32
            &&& exists|filled: Vec<u8>|
                {
                    &&& #[trigger] call_ensures(
                        K::from_float_imatrix,
                        (
                            kernels,
                            old(blocks)->Cpu_0.dtype,
                            &src->Cpu_0->F32_0,
                            imatrix_weights,
                            n_per_row,
                            &old(blocks)->Cpu_0.data,
                        ),
                        Ok(filled),
                    )
                    &&& filled@ == final(blocks)->Cpu_0.data@
                }
        },
        *old(blocks) is Cpu && *src is Cpu && src->Cpu_0 is F32 && outcome is Err ==> exists|
            answer: Result<Vec<u8>, Error>,
        |
            {
                &&& #[trigger] call_ensures(
                    K::from_float_imatrix,
                    (
                        kernels,
                        old(blocks)->Cpu_0.dtype,
                        &src->Cpu_0->F32_0,
                        imatrix_weights,
                        n_per_row,
                        &old(blocks)->Cpu_0.data,
                    ),
                    answer,
                )
                &&& answer is Ok ==> answer->Ok_0@.len() != old(blocks)->Cpu_0.data@.len()
                &&& answer is Err ==> outcome->Err_0 == answer->Err_0
            },
        *old(blocks) is Cpu && *src is Cpu && !(src->Cpu_0 is F32) ==> outcome is Err
            && outcome->Err_0@ == "unexpected dtype, expected: F32, got: "@
            + src->Cpu_0.spec_dtype().spec_name(),
        *old(blocks) is Metal && *src is Cpu ==> outcome is Err
            && outcome->Err_0 is NotCompiledWithMetalSupport,
        *old(blocks) is Cuda && *src is Cpu ==> outcome is Err
            && outcome->Err_0 is NotCompiledWithCudaSupport,
        *old(blocks) is CpuRaw || !(*src is Cpu) ==> outcome is Err && outcome->Err_0@
            == "Invalid quantize storage locations do not match"@,
{
    reveal_strlit("unexpected dtype, expected: F32, got: ");
    reveal_strlit("unexpected dtype, expected: ");
    reveal_strlit("F32");
    reveal_strlit(", got: ");
    let name = src->Cpu_0.spec_dtype().spec_name();
    assert("unexpected dtype, expected: "@ + "F32"@ + ", got: "@ + name
        =~= "unexpected dtype, expected: F32, got: "@ + name);
}

/// The values of blocks are the kernel's for all their bytes, as many as were
/// asked for; raw blocks are not read.
pub proof fn law_blocks_are_read_by_the_kernel<K: BlockKernels>(
    blocks: &QStorage,
    kernels: &K,
    elem_count: usize,
    outcome: Result<Storage, Error>,
)
    requires
        call_ensures(QStorage::dequantize::<K>, (blocks, kernels, elem_count), outcome),
    ensures
        outcome is Ok ==> {
            &&& *blocks is Cpu
            &&& outcome->Ok_0 is Cpu
            &&& outcome->Ok_0->Cpu_0 is F32
            &&& outcome->Ok_0->Cpu_0->F32_0@.len() == elem_count
            &&& exists|bytes: &[u8], zeros: Vec<u32>|
                {
                    &&& #[trigger] call_ensures(
                        K::to_float,
                        (kernels, blocks->Cpu_0.dtype, bytes, zeros),
                        Ok(outcome->Ok_0->Cpu_0->F32_0),
                    )
                    &&& bytes@ == blocks->Cpu_0.data@
                    &&& zeros@ == Seq::new(elem_count as nat, |i: int| 0u32)
                }
        },
        *blocks is Cpu && outcome is Err ==> exists|
            bytes: &[u8],
            zeros: Vec<u32>,
            answer: Result<Vec<u32>, Error>,
        |
            {
                &&& #[trigger] call_ensures(
                    K::to_float,
                    (kernels, blocks->Cpu_0.dtype, bytes, zeros),
                    answer,
                )
                &&& bytes@ == blocks->Cpu_0.data@
                &&& zeros@ == Seq::new(elem_count as nat, |i: int| 0u32)
                &&& answer is Ok ==> answer->Ok_0@.len() != elem_count
                &&& answer is Err ==> outcome->Err_0 == answer->Err_0
            },
        *blocks is CpuRaw ==> outcome is Err && outcome->Err_0@
            == "dequantization is not implemented for "@ + blocks.spec_dtype().spec_name(),
        *blocks is Metal ==> outcome is Err && outcome->Err_0 is NotCompiledWithMetalSupport,
        *blocks is Cuda ==> outcome is Err && outcome->Err_0 is NotCompiledWithCudaSupport,
{
    if *blocks is Cpu {
        let (bytes, zeros, answer) = choose|
            bytes: &[u8],
            zeros: Vec<u32>,
            answer: Result<Vec<u32>, Error>,
        |
            {
                &&& bytes@ == blocks->Cpu_0.data@
                &&& zeros@ == Seq::new(elem_count as nat, |i: int| 0u32)
                &&& #[trigger] call_ensures(
                    K::to_float,
                    (kernels, blocks->Cpu_0.dtype, bytes, zeros),
                    answer,
                )
                &&& storage::values_accepted(blocks->Cpu_0.dtype, answer, elem_count, outcome)
            };
        if outcome is Ok {
            assert(answer == Ok::<Vec<u32>, Error>(outcome->Ok_0->Cpu_0->F32_0));
        }
    }
}

/// A kernel's values and bytes are taken as they are where there are as many as
/// it was handed, and refused else.
pub proof fn law_answers_have_the_length_they_were_asked_for(
    dtype: GgmlDType,
    answer: Vec<u32>,
    elem_count: usize,
    outcome: Result<Storage, Error>,
    blocks: &QuantizedBlocks,
    filled: Vec<u8>,
    stored: Result<QStorage, Error>,
)
    requires
        call_ensures(storage::accept_values, (dtype, Ok(answer), elem_count), outcome),
        call_ensures(storage::accept_blocks, (blocks, Ok(filled)), stored),
    ensures
        outcome is Ok <==> answer@.len() == elem_count,
        outcome is Ok ==> outcome->Ok_0 == Storage::Cpu(CpuStorage::F32(answer)),
        outcome is Err ==> outcome->Err_0@ == dtype.spec_name() + " kernel filled "@ + text::decimal(
            answer@.len(),
        ) + " entries, expected "@ + text::decimal(elem_count as nat),
        stored is Ok <==> filled@.len() == blocks.data@.len(),
        stored is Ok ==> stored->Ok_0 is Cpu && stored->Ok_0->Cpu_0.dtype == blocks.dtype
            && stored->Ok_0->Cpu_0.data@ == filled@,
        stored is Err ==> stored->Err_0@ == blocks.dtype.spec_name() + " kernel filled "@ + text::decimal(
            filled@.len(),
        ) + " entries, expected "@ + text::decimal(blocks.data@.len()),
{
}

/// A kernel's refusal is handed on as it is.
pub proof fn law_refusals_are_handed_on(
    dtype: GgmlDType,
    error: Error,
    elem_count: usize,
    outcome: Result<Storage, Error>,
    blocks: &QuantizedBlocks,
    stored: Result<QStorage, Error>,
)
    requires
        call_ensures(storage::accept_values, (dtype, Err(error), elem_count), outcome),
        call_ensures(storage::accept_blocks, (blocks, Err(error)), stored),
    ensures
        outcome == Err::<Storage, Error>(error),
        stored == Err::<QStorage, Error>(error),
{
}

/// Blocks know their type, their place and their bytes; those on a GPU cannot be
/// read without its runtime.
pub proof fn law_blocks_know_themselves(
    blocks: &QStorage,
    dtype: GgmlDType,
    device: Device,
    bytes: Result<&[u8], Error>,
    address: Result<usize, Error>,
)
    requires
        call_ensures(QStorage::dtype, (blocks,), dtype),
        call_ensures(QStorage::device, (blocks,), device),
        call_ensures(QStorage::data, (blocks,), bytes),
        call_ensures(QStorage::device_ptr, (blocks,), address),
    ensures
        *blocks is Cpu ==> {
            &&& dtype == blocks->Cpu_0.dtype
            &&& device is Cpu
            &&& bytes is Ok
            &&& bytes->Ok_0@ == blocks->Cpu_0.data@
        },
        *blocks is CpuRaw ==> {
            &&& dtype == blocks->CpuRaw_0.spec_dtype()
            &&& device is Cpu
            &&& bytes is Ok
            &&& bytes->Ok_0@ == blocks->CpuRaw_0.spec_data()
        },
        *blocks is Cuda ==> {
            &&& dtype == blocks->Cuda_0.dtype
            &&& device == (Device::Cuda { gpu_id: blocks->Cuda_0.gpu_id })
            &&& bytes is Err
            &&& bytes->Err_0 is NotCompiledWithCudaSupport
            &&& address is Err
            &&& address->Err_0 is NotCompiledWithCudaSupport
        },
        *blocks is Metal ==> {
            &&& dtype == blocks->Metal_0.dtype
            &&& device == (Device::Metal { gpu_id: blocks->Metal_0.gpu_id })
            &&& bytes is Err
            &&& bytes->Err_0 is NotCompiledWithMetalSupport
        },
        !(*blocks is Cuda) ==> address is Err && address->Err_0@ == "not implemented"@,
{
}

} // verus!
