//! What holds of quantized tensors: which values become which blocks, and which
//! blocks become which values.

use crate::cpu_storage::{CpuStorage, DType};
use crate::device::Device;
use crate::dtype::GgmlDType;
use crate::error::Error;
use crate::quantized::embedding;
use crate::quantized::kernel_laws;
use crate::quantized::kernels::{BlockKernels, RowQuantizer};
use crate::quantized::qtensor;
use crate::quantized::qtensor::{check_shape, QTensor};
use crate::quantized::raw;
use crate::quantized::rows;
use crate::quantized::storage;
use crate::quantized::storage::{QStorage, QuantizedBlocks};
use crate::shape;
use crate::shape::Shape;
use crate::tensor;
use crate::tensor::{Conversion, Storage, Tensor};
use crate::text;
use vstd::arithmetic::div_mod::{lemma_fundamental_div_mod, lemma_mod_multiples_basic};
use vstd::prelude::*;

verus! {

/// A shape is accepted exactly where it has a dimension and its last extent
/// divides into blocks, and a tensor of such a shape keeps its blocks and its
/// extents.
pub proof fn law_rows_are_whole_blocks(
    storage: QStorage,
    shape: Shape,
    outcome: Result<QTensor, Error>,
    checked: Result<(), Error>,
)
    requires
        call_ensures(QTensor::new, (storage, shape), outcome),
        call_ensures(check_shape, (&shape, storage.spec_dtype().spec_block_size()), checked),
    ensures
        outcome is Ok <==> shape@.len() > 0 && shape@[shape@.len() - 1] as nat
            % storage.spec_dtype().spec_block_size() as nat == 0,
        checked is Ok <==> outcome is Ok,
        outcome is Ok ==> outcome->Ok_0.spec_storage() == storage && outcome->Ok_0@ == shape@,
        shape@.len() == 0 ==> outcome->Err_0@ == "scalar tensor cannot be quantized "@
            + text::decimal_list(shape@),
        shape@.len() > 0 && outcome is Err ==> outcome->Err_0@
            == "quantized tensor must have their last dim divisible by block size "@
            + text::decimal_list(shape@) + " "@ + text::decimal(
            storage.spec_dtype().spec_block_size() as nat,
        ),
        outcome is Err ==> checked->Err_0@ == outcome->Err_0@,
{
}

/// Host values as F32: themselves, or what the conversion makes of them.
pub open spec fn as_f32<C: Conversion>(conversion: &C, values: CpuStorage, bits: Seq<u32>) -> bool {
    ||| values is F32 && values->F32_0@ == bits
    ||| !(values is F32) && exists|answer: Vec<u32>|
        {
            &&& #[trigger] call_ensures(
                C::to_dtype,
                (conversion, &values, DType::F32),
                Ok(CpuStorage::F32(answer)),
            )
            &&& answer@ == bits
            &&& bits.len() == values.spec_len()
        }
}

/// A converted host tensor holds its values as F32.
proof fn lemma_converted_to_f32<K: BlockKernels>(kernels: &K, src: Tensor, floats: Tensor)
    requires
        src.storage is Cpu,
        tensor::tensor_converted(kernels, src, DType::F32, Ok(floats)),
    ensures
        floats.storage is Cpu,
        floats.storage->Cpu_0 is F32,
        as_f32(kernels, src.storage->Cpu_0, floats.storage->Cpu_0->F32_0@),
{
}

/// The row's bytes are those of the blocks that the quantizer made of its
/// values, when it was handed zeroed blocks.
pub open spec fn row_quantized<const N: usize, K: RowQuantizer<N>>(
    kernels: &K,
    values: Seq<u32>,
    bytes: Seq<u8>,
) -> bool {
    exists|input: &[u32], zeros: Vec<[u8; N]>, answer: Vec<[u8; N]>|
        {
            &&& #[trigger] call_ensures(K::quantize_row, (kernels, input, zeros), Ok(answer))
            &&& input@ == values
            &&& zeros@.len() == values.len() / 32
            &&& forall|j: int, b: int|
                0 <= j < zeros@.len() && 0 <= b < N ==> #[trigger] zeros@[j]@[b] == 0
            &&& answer@.len() == values.len() / 32
            &&& bytes == raw::block_bytes(answer@)
        }
}

/// The bytes of the blocks of a shape with rows of whole blocks.
proof fn lemma_blocks_len(dtype: GgmlDType, dims: Seq<usize>)
    requires
        qtensor::rows_of_blocks(dims, dtype.spec_block_size() as nat),
    ensures
        storage::blocks_len(dtype, shape::elements(dims)) * dtype.spec_block_size() == shape::elements(
            dims,
        ) * dtype.spec_type_size(),
{
    let block_size = dtype.spec_block_size() as int;
    let type_size = dtype.spec_type_size() as int;
    let count = shape::elements(dims) as int / block_size;
    qtensor::law_rows_of_blocks_are_whole_blocks(dims, dtype.spec_block_size() as nat);
    lemma_fundamental_div_mod(shape::elements(dims) as int, block_size);
    assert((count * type_size) * block_size == (block_size * count) * type_size) by (nonlinear_arith);
}

/// A quantized tensor has the extents of its source and the type that was asked
/// for; its blocks are the kernel's for the source's values as F32, which was
/// handed zeroed blocks to fill.
pub proof fn law_quantized_tensor_holds_the_kernels_blocks<K: BlockKernels>(
    kernels: &K,
    src: &Tensor,
    dtype: GgmlDType,
    outcome: Result<QTensor, Error>,
)
    requires
        call_ensures(QTensor::quantize::<K>, (kernels, src, dtype), outcome),
        src.storage is Cpu,
        !kernel_laws::is_h_type(dtype),
        outcome is Ok,
    ensures
        outcome->Ok_0@ == src.shape@,
        outcome->Ok_0.spec_storage() is Cpu,
        outcome->Ok_0.spec_storage()->Cpu_0.dtype == dtype,
        src.shape@.len() > 0,
        outcome->Ok_0.spec_storage()->Cpu_0.data@.len() * dtype.spec_block_size()
            == shape::elements(src.shape@) * dtype.spec_type_size(),
        exists|values: Vec<u32>, zeros: Vec<u8>, filled: Vec<u8>|
            {
                &&& #[trigger] call_ensures(
                    K::from_float,
                    (kernels, dtype, &values, &zeros),
                    Ok(filled),
                )
                &&& as_f32(kernels, src.storage->Cpu_0, values@)
                &&& zeros@.len() == filled@.len()
                &&& forall|i: int| 0 <= i < zeros@.len() ==> #[trigger] zeros@[i] == 0
                &&& outcome->Ok_0.spec_storage()->Cpu_0.data@ == filled@
            },
{
    let floats = choose|floats: Result<Tensor, Error>|
        {
            &&& #[trigger] tensor::tensor_converted(kernels, *src, DType::F32, floats)
            &&& match floats {
                Err(error) => outcome == Err::<QTensor, Error>(error),
                Ok(values) => qtensor::filled_on(
                    kernels,
                    Device::Cpu,
                    values.storage,
                    dtype,
                    None,
                    "Invalid quantize storage locations do not match"@,
                    src.shape@,
                    outcome,
                ),
            }
        };
    lemma_converted_to_f32(kernels, *src, floats->Ok_0);
    let values = floats->Ok_0.storage->Cpu_0->F32_0;
    let (zeros, stored) = choose|zeros: QuantizedBlocks, stored: Result<QStorage, Error>|
        {
            &&& storage::holds(
                QStorage::Cpu(zeros),
                dtype,
                storage::zero_bytes(dtype, shape::elements(src.shape@)),
            )
            &&& #[trigger] qtensor::host_filled(
                kernels,
                zeros,
                CpuStorage::F32(values),
                None,
                stored,
            )
            &&& qtensor::wraps(stored, src.shape@, outcome)
        };
    let filled = choose|filled: Result<Vec<u8>, Error>| #[trigger]
        call_ensures(
            K::from_float,
            (kernels, zeros.dtype, &values, &zeros.data),
            filled,
        ) && storage::blocks_filled(zeros, filled, stored->Ok_0, Ok(()));
    assert(filled == Ok::<Vec<u8>, Error>(filled->Ok_0));
    assert(call_ensures(K::from_float, (kernels, dtype, &values, &zeros.data), Ok(filled->Ok_0)));
    lemma_blocks_len(dtype, src.shape@);
}

/// Quantizing onto a device works onto the host, with the kernel's blocks for the
/// source's values as F32.
pub proof fn law_quantizing_onto_a_device_holds_the_kernels_blocks<K: BlockKernels>(
    kernels: &K,
    src: &Tensor,
    dtype: GgmlDType,
    dev: &Device,
    outcome: Result<QTensor, Error>,
)
    requires
        call_ensures(QTensor::quantize_onto::<K>, (kernels, src, dtype, dev), outcome),
        outcome is Ok,
    ensures
        outcome->Ok_0@ == src.shape@,
        outcome->Ok_0.spec_storage() is Cpu,
        outcome->Ok_0.spec_storage()->Cpu_0.dtype == dtype,
        src.shape@.len() > 0,
        outcome->Ok_0.spec_storage()->Cpu_0.data@.len() * dtype.spec_block_size()
            == shape::elements(src.shape@) * dtype.spec_type_size(),
        src.storage is Cpu,
        *dev is Cpu,
        !kernel_laws::is_h_type(dtype),
        exists|values: Vec<u32>, zeros: Vec<u8>, filled: Vec<u8>|
            {
                &&& #[trigger] call_ensures(
                    K::from_float,
                    (kernels, dtype, &values, &zeros),
                    Ok(filled),
                )
                &&& as_f32(kernels, src.storage->Cpu_0, values@)
                &&& zeros@.len() == filled@.len()
                &&& forall|i: int| 0 <= i < zeros@.len() ==> #[trigger] zeros@[i] == 0
                &&& outcome->Ok_0.spec_storage()->Cpu_0.data@ == filled@
            },
{
    let floats = choose|floats: Result<Tensor, Error>|
        {
            &&& #[trigger] tensor::tensor_converted(kernels, *src, DType::F32, floats)
            &&& match floats {
                Err(error) => outcome == Err::<QTensor, Error>(error),
                Ok(values) => qtensor::filled_on(
                    kernels,
                    *dev,
                    values.storage,
                    dtype,
                    None,
                    "Invalid quantize source storage locations: not on cpu"@,
                    src.shape@,
                    outcome,
                ),
            }
        };
    lemma_converted_to_f32(kernels, *src, floats->Ok_0);
    let values = floats->Ok_0.storage->Cpu_0->F32_0;
    let (zeros, stored) = choose|zeros: QuantizedBlocks, stored: Result<QStorage, Error>|
        {
            &&& storage::holds(
                QStorage::Cpu(zeros),
                dtype,
                storage::zero_bytes(dtype, shape::elements(src.shape@)),
            )
            &&& #[trigger] qtensor::host_filled(
                kernels,
                zeros,
                CpuStorage::F32(values),
                None,
                stored,
            )
            &&& qtensor::wraps(stored, src.shape@, outcome)
        };
    let filled = choose|filled: Result<Vec<u8>, Error>| #[trigger]
        call_ensures(
            K::from_float,
            (kernels, zeros.dtype, &values, &zeros.data),
            filled,
        ) && storage::blocks_filled(zeros, filled, stored->Ok_0, Ok(()));
    assert(filled == Ok::<Vec<u8>, Error>(filled->Ok_0));
    assert(call_ensures(K::from_float, (kernels, dtype, &values, &zeros.data), Ok(filled->Ok_0)));
    lemma_blocks_len(dtype, src.shape@);
}

/// Quantizing by importance hands the kernel one importance for each column of a
/// row, with the row's width.
pub proof fn law_quantizing_by_importance_holds_the_kernels_blocks<K: BlockKernels>(
    kernels: &K,
    src: &Tensor,
    weights: &Vec<u32>,
    dtype: GgmlDType,
    outcome: Result<QTensor, Error>,
)
    requires
        call_ensures(QTensor::quantize_imatrix::<K>, (kernels, src, weights, dtype), outcome),
        src.storage is Cpu,
        outcome is Ok,
    ensures
        outcome->Ok_0@ == src.shape@,
        outcome->Ok_0.spec_storage() is Cpu,
        outcome->Ok_0.spec_storage()->Cpu_0.dtype == dtype,
        src.shape@.len() > 0,
        outcome->Ok_0.spec_storage()->Cpu_0.data@.len() * dtype.spec_block_size()
            == shape::elements(src.shape@) * dtype.spec_type_size(),
        weights@.len() == src.shape@.last(),
        !kernel_laws::is_h_type(dtype),
        exists|values: Vec<u32>, zeros: Vec<u8>, filled: Vec<u8>|
            {
                &&& #[trigger] call_ensures(
                    K::from_float_imatrix,
                    (kernels, dtype, &values, weights, src.shape@.last(), &zeros),
                    Ok(filled),
                )
                &&& as_f32(kernels, src.storage->Cpu_0, values@)
                &&& zeros@.len() == filled@.len()
                &&& forall|i: int| 0 <= i < zeros@.len() ==> #[trigger] zeros@[i] == 0
                &&& outcome->Ok_0.spec_storage()->Cpu_0.data@ == filled@
            },
{
    let floats = choose|floats: Result<Tensor, Error>|
        {
            &&& #[trigger] tensor::tensor_converted(kernels, *src, DType::F32, floats)
            &&& match floats {
                Err(error) => outcome == Err::<QTensor, Error>(error),
                Ok(values) => qtensor::filled_on(
                    kernels,
                    Device::Cpu,
                    values.storage,
                    dtype,
                    Some((weights, src.shape@.last())),
                    "Invalid quantize storage locations do not match"@,
                    src.shape@,
                    outcome,
                ),
            }
        };
    lemma_converted_to_f32(kernels, *src, floats->Ok_0);
    let values = floats->Ok_0.storage->Cpu_0->F32_0;
    let (zeros, stored) = choose|zeros: QuantizedBlocks, stored: Result<QStorage, Error>|
        {
            &&& storage::holds(
                QStorage::Cpu(zeros),
                dtype,
                storage::zero_bytes(dtype, shape::elements(src.shape@)),
            )
            &&& #[trigger] qtensor::host_filled(
                kernels,
                zeros,
                CpuStorage::F32(values),
                Some((weights, src.shape@.last())),
                stored,
            )
            &&& qtensor::wraps(stored, src.shape@, outcome)
        };
    let filled = choose|filled: Result<Vec<u8>, Error>| #[trigger]
        call_ensures(
            K::from_float_imatrix,
            (kernels, zeros.dtype, &values, weights, src.shape@.last(), &zeros.data),
            filled,
        ) && storage::blocks_filled(zeros, filled, stored->Ok_0, Ok(()));
    assert(filled == Ok::<Vec<u8>, Error>(filled->Ok_0));
    assert(call_ensures(K::from_float_imatrix, (kernels, dtype, &values, weights, src.shape@.last(), &zeros.data), Ok(filled->Ok_0)));
    lemma_blocks_len(dtype, src.shape@);
}

/// Quantizing by importance onto a device works onto the host, and hands the
/// kernel one importance for each column of a row, with the row's width.
pub proof fn law_quantizing_by_importance_onto_a_device_holds_the_kernels_blocks<K: BlockKernels>(
    kernels: &K,
    src: &Tensor,
    weights: &Vec<u32>,
    dtype: GgmlDType,
    dev: &Device,
    outcome: Result<QTensor, Error>,
)
    requires
        call_ensures(QTensor::quantize_imatrix_onto::<K>, (kernels, src, weights, dtype, dev), outcome),
        outcome is Ok,
    ensures
        outcome->Ok_0@ == src.shape@,
        outcome->Ok_0.spec_storage() is Cpu,
        outcome->Ok_0.spec_storage()->Cpu_0.dtype == dtype,
        src.shape@.len() > 0,
        outcome->Ok_0.spec_storage()->Cpu_0.data@.len() * dtype.spec_block_size()
            == shape::elements(src.shape@) * dtype.spec_type_size(),
        src.storage is Cpu,
        *dev is Cpu,
        weights@.len() == src.shape@.last(),
        !kernel_laws::is_h_type(dtype),
        exists|values: Vec<u32>, zeros: Vec<u8>, filled: Vec<u8>|
            {
                &&& #[trigger] call_ensures(
                    K::from_float_imatrix,
                    (kernels, dtype, &values, weights, src.shape@.last(), &zeros),
                    Ok(filled),
                )
                &&& as_f32(kernels, src.storage->Cpu_0, values@)
                &&& zeros@.len() == filled@.len()
                &&& forall|i: int| 0 <= i < zeros@.len() ==> #[trigger] zeros@[i] == 0
                &&& outcome->Ok_0.spec_storage()->Cpu_0.data@ == filled@
            },
{
    let floats = choose|floats: Result<Tensor, Error>|
        {
            &&& #[trigger] tensor::tensor_converted(kernels, *src, DType::F32, floats)
            &&& match floats {
                Err(error) => outcome == Err::<QTensor, Error>(error),
                Ok(values) => qtensor::filled_on(
                    kernels,
                    *dev,
                    values.storage,
                    dtype,
                    Some((weights, src.shape@.last())),
                    "Invalid quantize storage locations do not match"@,
                    src.shape@,
                    outcome,
                ),
            }
        };
    lemma_converted_to_f32(kernels, *src, floats->Ok_0);
    let values = floats->Ok_0.storage->Cpu_0->F32_0;
    let (zeros, stored) = choose|zeros: QuantizedBlocks, stored: Result<QStorage, Error>|
        {
            &&& storage::holds(
                QStorage::Cpu(zeros),
                dtype,
                storage::zero_bytes(dtype, shape::elements(src.shape@)),
            )
            &&& #[trigger] qtensor::host_filled(
                kernels,
                zeros,
                CpuStorage::F32(values),
                Some((weights, src.shape@.last())),
                stored,
            )
            &&& qtensor::wraps(stored, src.shape@, outcome)
        };
    let filled = choose|filled: Result<Vec<u8>, Error>| #[trigger]
        call_ensures(
            K::from_float_imatrix,
            (kernels, zeros.dtype, &values, weights, src.shape@.last(), &zeros.data),
            filled,
        ) && storage::blocks_filled(zeros, filled, stored->Ok_0, Ok(()));
    assert(filled == Ok::<Vec<u8>, Error>(filled->Ok_0));
    assert(call_ensures(K::from_float_imatrix, (kernels, dtype, &values, weights, src.shape@.last(), &zeros.data), Ok(filled->Ok_0)));
    lemma_blocks_len(dtype, src.shape@);
}

/// The stored bytes of row `i` are those of its own blocks.
proof fn lemma_stored_row<const N: usize, K: RowQuantizer<N>>(
    kernels: &K,
    values: Seq<u32>,
    width: nat,
    dtype: GgmlDType,
    stored: QStorage,
    i: int,
)
    requires
        width > 0,
        values.len() % width == 0,
        rows::rows_stored::<N, K>(kernels, values, width, dtype, Ok(stored)),
        0 <= i < values.len() / width,
    ensures
        row_quantized::<N, K>(
            kernels,
            values.subrange(i * width, (i + 1) * width),
            stored.spec_data().subrange(i * (width / 32 * N as nat), (i + 1) * (width / 32 * N as nat)),
        ),
{
    let count = values.len() / width;
    let per_row = rows::blocks_per_row(width);
    let blocks = choose|blocks: Seq<[u8; N]>|
        {
            &&& #[trigger] rows::rows_blocks::<N, K>(kernels, values, width, count, blocks)
            &&& storage::holds(stored, dtype, raw::block_bytes(blocks))
        };
    let row = rows::row(values, width, i);
    let own = rows::blocks_of_row(blocks, width, i);
    assert(rows::row_blocks(kernels, row, own));
    lemma_fundamental_div_mod(values.len() as int, width as int);
    assert(0 <= i * width <= (i + 1) * width <= values.len()) by (nonlinear_arith)
        requires
            0 <= i < count,
            values.len() == width * count,
    ;
    assert((i + 1) * width == i * width + width) by (nonlinear_arith);
    assert(0 <= i * per_row <= (i + 1) * per_row <= count * per_row) by (nonlinear_arith)
        requires
            0 <= i < count,
    ;
    raw::lemma_bytes_of_run(blocks, i * per_row, (i + 1) * per_row);
    assert((i * per_row) * N == i * (per_row * N)) by (nonlinear_arith);
    assert(((i + 1) * per_row) * N == (i + 1) * (per_row * N)) by (nonlinear_arith);
    let answer = choose|answer: Vec<[u8; N]>|
        answer@ == own && #[trigger] rows::row_answer(kernels, row, Ok(answer));
    let (input, zeros) = choose|input: &[u32], zeros: Vec<[u8; N]>|
        {
            &&& input@ == row
            &&& zeros@.len() == rows::blocks_per_row(row.len())
            &&& forall|j: int|
                0 <= j < zeros@.len() ==> (#[trigger] zeros@[j])@ == Seq::new(N as nat, |b: int| 0u8)
            &&& #[trigger] call_ensures(
                K::quantize_row,
                (kernels, input, zeros),
                Ok::<Vec<[u8; N]>, Error>(answer),
            )
        };
    assert forall|j: int, b: int| 0 <= j < zeros@.len() && 0 <= b < N implies #[trigger] zeros@[j]@[b]
        == 0 by {
        assert(zeros@[j]@ == Seq::new(N as nat, |b: int| 0u8));
    }
}

/// A tensor of the Q8_H family has the extents of its source and the type that
/// was asked for. Each row of the source is quantized on its own, from its own
/// values, and its bytes stand at the row's place.
pub proof fn law_h_tensors_are_quantized_row_by_row<K: BlockKernels>(
    kernels: &K,
    src: &Tensor,
    dtype: GgmlDType,
    outcome: Result<QTensor, Error>,
)
    requires
        call_ensures(QTensor::quantize::<K>, (kernels, src, dtype), outcome),
        kernel_laws::is_h_type(dtype),
        outcome is Ok,
    ensures
        src.storage is Cpu,
        outcome->Ok_0@ == src.shape@,
        outcome->Ok_0.spec_storage() is CpuRaw,
        outcome->Ok_0.spec_storage().spec_dtype() == dtype,
        src.shape@.len() > 0,
        src.shape@.last() > 0,
        src.shape@.last() % 32 == 0,
        exists|bits: Seq<u32>|
            {
                &&& #[trigger] as_f32(kernels, src.storage->Cpu_0, bits)
                &&& bits.len() == shape::elements(src.shape@)
                &&& dtype is Q8H1 ==> h_rows::<44, K>(
                    kernels,
                    bits,
                    src.shape@.last() as nat,
                    outcome->Ok_0.spec_storage().spec_data(),
                )
                &&& dtype is Q8HP1 ==> h_rows::<40, K>(
                    kernels,
                    bits,
                    src.shape@.last() as nat,
                    outcome->Ok_0.spec_storage().spec_data(),
                )
            },
{
    let floats = choose|floats: Result<Tensor, Error>|
        {
            &&& #[trigger] tensor::tensor_converted(kernels, *src, DType::F32, floats)
            &&& match floats {
                Err(error) => outcome == Err::<QTensor, Error>(error),
                Ok(values) => match values.storage {
                    Storage::Cpu(CpuStorage::F32(bits)) => exists|stored: Result<QStorage, Error>|
                        {
                            &&& #[trigger] rows::h_quantized(
                                kernels,
                                bits@,
                                src.shape@,
                                dtype,
                                stored,
                            )
                            &&& qtensor::wraps(stored, src.shape@, outcome)
                        },
                    _ => false,
                },
            }
        };
    lemma_converted_to_f32(kernels, *src, floats->Ok_0);
    let bits = floats->Ok_0.storage->Cpu_0->F32_0@;
    let stored = choose|stored: Result<QStorage, Error>|
        {
            &&& #[trigger] rows::h_quantized(kernels, bits, src.shape@, dtype, stored)
            &&& qtensor::wraps(stored, src.shape@, outcome)
        };
    let width = src.shape@.last() as nat;
    let count = shape::elements(src.shape@.drop_last());
    lemma_mod_multiples_basic(count as int, width as int);
    assert forall|i: int| 0 <= i < bits.len() / width implies (dtype is Q8H1 ==> row_quantized::<44, K>(
        kernels,
        #[trigger] bits.subrange(i * width, (i + 1) * width),
        stored->Ok_0.spec_data().subrange(i * (width / 32 * 44), (i + 1) * (width / 32 * 44)),
    )) && (dtype is Q8HP1 ==> row_quantized::<40, K>(
        kernels,
        bits.subrange(i * width, (i + 1) * width),
        stored->Ok_0.spec_data().subrange(i * (width / 32 * 40), (i + 1) * (width / 32 * 40)),
    )) by {
        if dtype is Q8H1 {
            lemma_stored_row::<44, K>(kernels, bits, width, dtype, stored->Ok_0, i);
        } else {
            lemma_stored_row::<40, K>(kernels, bits, width, dtype, stored->Ok_0, i);
        }
    }
    if dtype is Q8H1 {
        lemma_h_len::<44, K>(kernels, bits, width, dtype, stored->Ok_0);
    } else {
        lemma_h_len::<40, K>(kernels, bits, width, dtype, stored->Ok_0);
    }
}

/// The bytes are those of the rows of `width` values, in their order, each row
/// quantized on its own into blocks of `N` bytes for 32 values.
pub open spec fn h_rows<const N: usize, K: RowQuantizer<N>>(
    kernels: &K,
    values: Seq<u32>,
    width: nat,
    bytes: Seq<u8>,
) -> bool {
    &&& bytes.len() * 32 == values.len() * N
    &&& forall|i: int|
        0 <= i < values.len() / width ==> row_quantized::<N, K>(
            kernels,
            #[trigger] values.subrange(i * width, (i + 1) * width),
            bytes.subrange(i * (width / 32 * N as nat), (i + 1) * (width / 32 * N as nat)),
        )
}

/// The stored rows take one block for 32 values.
proof fn lemma_h_len<const N: usize, K: RowQuantizer<N>>(
    kernels: &K,
    values: Seq<u32>,
    width: nat,
    dtype: GgmlDType,
    stored: QStorage,
)
    requires
        width > 0,
        width % 32 == 0,
        values.len() % width == 0,
        dtype.spec_type_size() == N,
        dtype.spec_block_size() == 32,
        rows::rows_stored::<N, K>(kernels, values, width, dtype, Ok(stored)),
    ensures
        stored.spec_data().len() * 32 == values.len() * N,
{
    let count = values.len() / width;
    let blocks = choose|blocks: Seq<[u8; N]>|
        {
            &&& #[trigger] rows::rows_blocks::<N, K>(kernels, values, width, count, blocks)
            &&& storage::holds(stored, dtype, raw::block_bytes(blocks))
        };
    let per_row = rows::blocks_per_row(width);
    lemma_fundamental_div_mod(values.len() as int, width as int);
    lemma_fundamental_div_mod(width as int, 32);
    assert(((count * per_row) * N) * 32 == values.len() * N) by (nonlinear_arith)
        requires
            values.len() == width * count,
            width == 32 * per_row,
    ;
}

/// Quantizing is refused for a scalar, for rows that are no whole blocks, for a
/// GPU whose runtime is missing, and for values of the Q8_H family away from
/// the host; a host tensor is quantized where the kernel takes it.
pub proof fn law_quantizing_is_refused_for_a_reason<K: BlockKernels>(
    kernels: &K,
    src: &Tensor,
    dtype: GgmlDType,
    outcome: Result<QTensor, Error>,
)
    requires
        call_ensures(QTensor::quantize::<K>, (kernels, src, dtype), outcome),
    ensures
        src.shape@.len() == 0 ==> outcome is Err && outcome->Err_0@
            == "scalar tensor cannot be quantized "@ + text::decimal_list(src.shape@),
        src.shape@.len() > 0 && src.shape@.last() as nat % dtype.spec_block_size() as nat != 0
            ==> outcome is Err && outcome->Err_0@
            == "quantized tensor must have their last dim divisible by block size "@
            + text::decimal_list(src.shape@) + " "@ + text::decimal(dtype.spec_block_size() as nat),
        qtensor::rows_of_blocks(src.shape@, dtype.spec_block_size() as nat) && kernel_laws::is_h_type(
            dtype,
        ) && !(src.storage is Cpu) ==> outcome is Err && outcome->Err_0@ == dtype.spec_name()
            + " quantization is currently CPU-only"@,
        qtensor::rows_of_blocks(src.shape@, dtype.spec_block_size() as nat)
            && !kernel_laws::is_h_type(dtype) && src.storage is Cuda ==> outcome is Err
            && outcome->Err_0 is NotCompiledWithCudaSupport,
        qtensor::rows_of_blocks(src.shape@, dtype.spec_block_size() as nat)
            && !kernel_laws::is_h_type(dtype) && src.storage is Metal ==> outcome is Err
            && outcome->Err_0 is NotCompiledWithMetalSupport,
        src.storage is Aqua ==> outcome is Err,
{
}

/// Quantizing onto a device takes values on the host only, and is refused for a
/// device that has no blocks.
pub proof fn law_quantizing_onto_a_device_is_refused_for_a_reason<K: BlockKernels>(
    kernels: &K,
    src: &Tensor,
    dtype: GgmlDType,
    dev: &Device,
    outcome: Result<QTensor, Error>,
)
    requires
        call_ensures(QTensor::quantize_onto::<K>, (kernels, src, dtype, dev), outcome),
    ensures
        !(src.storage is Cpu) ==> outcome is Err && outcome->Err_0@
            == "`quantize_onto` expects a `src` to be on the cpu, got "@
            + src.storage.spec_device().spec_text() + "."@,
        src.storage is Cpu && src.shape@.len() == 0 ==> outcome is Err && outcome->Err_0@
            == "scalar tensor cannot be quantized "@ + text::decimal_list(src.shape@),
        src.storage is Cpu && src.shape@.len() > 0 && src.shape@.last() as nat
            % dtype.spec_block_size() as nat != 0 ==> outcome is Err && outcome->Err_0@
            == "quantized tensor must have their last dim divisible by block size "@
            + text::decimal_list(src.shape@) + " "@ + text::decimal(dtype.spec_block_size() as nat),
        src.storage is Cpu && src.storage->Cpu_0 is F32 && qtensor::rows_of_blocks(
            src.shape@,
            dtype.spec_block_size() as nat,
        ) ==> {
            &&& *dev is Cuda ==> outcome is Err && outcome->Err_0 is NotCompiledWithCudaSupport
            &&& *dev is Metal ==> outcome is Err && outcome->Err_0 is NotCompiledWithMetalSupport
            &&& *dev is Aqua ==> outcome is Err && outcome->Err_0@
                == "quantized storage is not supported on Aqua devices"@
            &&& *dev is Cpu && kernel_laws::is_h_type(dtype) ==> outcome is Err && outcome->Err_0@
                == "Invalid quantize source storage locations: not on cpu"@
        },
{
}

/// Quantizing by importance is refused where there is not one importance for
/// each column.
pub proof fn law_importances_are_one_for_each_column<K: BlockKernels>(
    kernels: &K,
    src: &Tensor,
    weights: &Vec<u32>,
    dtype: GgmlDType,
    dev: &Device,
    outcome: Result<QTensor, Error>,
    onto: Result<QTensor, Error>,
)
    requires
        call_ensures(QTensor::quantize_imatrix::<K>, (kernels, src, weights, dtype), outcome),
        call_ensures(QTensor::quantize_imatrix_onto::<K>, (kernels, src, weights, dtype, dev), onto),
    ensures
        src.shape@.len() > 0 && weights@.len() != src.shape@.last() ==> outcome is Err
            && outcome->Err_0@ == "imatrix weights must have the same length "@ + text::decimal(
            weights@.len(),
        ) + " as the last dim of src "@ + text::decimal(src.shape@.last() as nat),
        !(src.storage is Cpu) ==> onto is Err && onto->Err_0@
            == "`quantize_onto` expects a `src` to be on the cpu, got "@
            + src.storage.spec_device().spec_text() + "."@,
        src.storage is Cpu && src.shape@.len() > 0 && weights@.len() != src.shape@.last() ==> onto is Err
            && onto->Err_0@ == outcome->Err_0@,
        src.shape@.len() == 0 ==> outcome is Err && onto is Err,
        outcome is Ok || onto is Ok ==> weights@.len() == src.shape@.last() && src.shape@.last() as nat
            % dtype.spec_block_size() as nat == 0 && !kernel_laws::is_h_type(dtype),
        onto is Ok ==> *dev is Cpu,
{
}

/// A tensor read back on the host has the extents of its blocks, and the
/// kernel's values for all their bytes.
pub proof fn law_tensor_is_read_by_the_kernel<K: BlockKernels>(
    blocks: &QTensor,
    kernels: &K,
    device: &Device,
    outcome: Result<Tensor, Error>,
)
    requires
        call_ensures(QTensor::dequantize::<K>, (blocks, kernels, device), outcome),
        shape::elements_fit(blocks@),
    ensures
        outcome is Ok ==> {
            &&& blocks.spec_storage() is Cpu
            &&& *device is Cpu || *device is Aqua
            &&& outcome->Ok_0.shape@ == blocks@
            &&& outcome->Ok_0.storage.spec_device().is_same_device(*device)
            &&& exists|bytes: &[u8], zeros: Vec<u32>, values: Vec<u32>|
                {
                    &&& #[trigger] call_ensures(
                        K::to_float,
                        (kernels, blocks.spec_storage()->Cpu_0.dtype, bytes, zeros),
                        Ok(values),
                    )
                    &&& bytes@ == blocks.spec_storage()->Cpu_0.data@
                    &&& zeros@ == Seq::new(shape::elements(blocks@), |i: int| 0u32)
                    &&& values@.len() == shape::elements(blocks@)
                    &&& *device is Cpu ==> outcome->Ok_0.storage is Cpu
                        && outcome->Ok_0.storage->Cpu_0 is F32
                        && outcome->Ok_0.storage->Cpu_0->F32_0@ == values@
                    &&& *device is Aqua ==> outcome->Ok_0.storage is Aqua
                        && outcome->Ok_0.storage->Aqua_0.spec_cpu() is F32
                        && outcome->Ok_0.storage->Aqua_0.spec_cpu()->F32_0@ == values@
                }
        },
        blocks.spec_storage() is CpuRaw ==> outcome is Err && outcome->Err_0@
            == "dequantization is not implemented for "@ + blocks.spec_storage().spec_dtype().spec_name(),
        blocks.spec_storage() is Cuda ==> outcome is Err
            && outcome->Err_0 is NotCompiledWithCudaSupport,
        blocks.spec_storage() is Metal ==> outcome is Err
            && outcome->Err_0 is NotCompiledWithMetalSupport,
{
    if outcome is Ok {
        let host = blocks.spec_storage()->Cpu_0;
        let count = shape::elements(blocks@) as usize;
        assert(blocks@.take(blocks@.len() as int) =~= blocks@);
        let values = choose|values: Result<Storage, Error>|
            {
                &&& #[trigger] storage::host_dequantized(kernels, host, count, values)
                &&& match values {
                    Err(error) => outcome == Err::<Tensor, Error>(error),
                    Ok(floats) => match outcome {
                        Ok(tensor) => tensor::moved(floats, *device, Ok(tensor.storage))
                            && tensor.shape@ == blocks@,
                        Err(error) => tensor::moved(floats, *device, Err(error)),
                    },
                }
            };
        let (bytes, zeros, answer) = choose|
            bytes: &[u8],
            zeros: Vec<u32>,
            answer: Result<Vec<u32>, Error>,
        |
            {
                &&& bytes@ == host.data@
                &&& zeros@ == Seq::new(count as nat, |i: int| 0u32)
                &&& #[trigger] call_ensures(K::to_float, (kernels, host.dtype, bytes, zeros), answer)
                &&& storage::values_accepted(host.dtype, answer, count, values)
            };
        assert(answer == Ok::<Vec<u32>, Error>(answer->Ok_0));
        assert(call_ensures(
            K::to_float,
            (kernels, blocks.spec_storage()->Cpu_0.dtype, bytes, zeros),
            Ok(answer->Ok_0),
        ));
    }
}

/// A tensor read back as F16 is what reading it back gives, converted to F16.
pub proof fn law_tensor_is_read_as_f16<K: BlockKernels>(
    blocks: &QTensor,
    kernels: &K,
    device: &Device,
    outcome: Result<Tensor, Error>,
)
    requires
        call_ensures(QTensor::dequantize_f16::<K>, (blocks, kernels, device), outcome),
    ensures
        outcome is Ok ==> {
            &&& outcome->Ok_0.storage.spec_dtype() is F16
            &&& outcome->Ok_0.shape@ == blocks@
            &&& blocks.spec_storage() is Cpu
        },
        blocks.spec_storage() is CpuRaw ==> outcome is Err && outcome->Err_0@
            == "dequantization is not implemented for "@ + blocks.spec_storage().spec_dtype().spec_name(),
{
}

/// Looking up rows takes a matrix, and gives one row of it for each id: the
/// extents are those of the ids with the row width behind them, the values are
/// the kernel's for the bytes of the row that the id names.
pub proof fn law_looked_up_rows_stand_at_their_ids<K: BlockKernels>(
    weights: &QTensor,
    kernels: &K,
    numbers: Vec<u32>,
    ids: &Tensor,
    outcome: Result<Tensor, Error>,
)
    requires
        call_ensures(QTensor::embedding::<K>, (weights, kernels, ids), outcome),
        ids.storage == Storage::Cpu(CpuStorage::U32(numbers)),
    ensures
        weights@.len() != 2 ==> outcome is Err,
        weights@.len() == 2 && weights.spec_storage() is CpuRaw ==> outcome is Err && outcome->Err_0@
            == "embedding is not implemented for "@ + weights.spec_storage().spec_dtype().spec_name(),
        outcome is Ok ==> {
            &&& weights.spec_storage() is Cpu
            &&& outcome->Ok_0.shape@.len() == ids.shape@.len() + 1
            &&& outcome->Ok_0.shape@.take(ids.shape@.len() as int) == ids.shape@
            &&& outcome->Ok_0.shape@.last() == weights@[1]
            &&& outcome->Ok_0.storage is Cpu
            &&& outcome->Ok_0.storage->Cpu_0 is F32
            &&& outcome->Ok_0.storage->Cpu_0->F32_0@.len() == numbers@.len() * weights@[1]
            &&& forall|i: int|
                0 <= i < numbers@.len() ==> #[trigger] numbers@[i] < weights@[0]
                    && row_read(
                    kernels,
                    weights.spec_storage()->Cpu_0,
                    weights@[1] as nat,
                    numbers@[i] as int,
                    outcome->Ok_0.storage->Cpu_0->F32_0@.subrange(
                        i * weights@[1],
                        (i + 1) * weights@[1],
                    ),
                )
        },
{
    if outcome is Ok {
        let here = choose|here: Result<Tensor, Error>|
            {
                &&& #[trigger] tensor::tensor_moved(
                    *ids,
                    weights.spec_storage().spec_device(),
                    here,
                )
                &&& match here {
                    Err(error) => outcome == Err::<Tensor, Error>(error),
                    Ok(local) => exists|list: Result<Tensor, Error>|
                        {
                            &&& #[trigger] tensor::tensor_converted(kernels, local, DType::U32, list)
                            &&& match list {
                                Err(error) => outcome == Err::<Tensor, Error>(error),
                                Ok(list) => qtensor::rows_looked_up(
                                    kernels,
                                    weights.spec_storage(),
                                    weights@,
                                    list.storage,
                                    ids.shape@,
                                    outcome,
                                ),
                            }
                        },
                }
            };
        let local = here->Ok_0;
        let list = choose|list: Result<Tensor, Error>|
            {
                &&& #[trigger] tensor::tensor_converted(kernels, local, DType::U32, list)
                &&& match list {
                    Err(error) => outcome == Err::<Tensor, Error>(error),
                    Ok(list) => qtensor::rows_looked_up(
                        kernels,
                        weights.spec_storage(),
                        weights@,
                        list.storage,
                        ids.shape@,
                        outcome,
                    ),
                }
            };
        assert(weights.spec_storage() is Cpu);
        assert(outcome->Ok_0.shape@ == ids.shape@.push(weights@[1]));
        assert(outcome->Ok_0.shape@.take(ids.shape@.len() as int) =~= ids.shape@);
        let values = outcome->Ok_0.storage->Cpu_0->F32_0@;
        let blocks = weights.spec_storage()->Cpu_0;
        assert forall|i: int| 0 <= i < numbers@.len() implies #[trigger] numbers@[i] < weights@[0]
            && row_read(
            kernels,
            blocks,
            weights@[1] as nat,
            numbers@[i] as int,
            values.subrange(i * weights@[1], (i + 1) * weights@[1]),
        ) by {
            assert(embedding::row_values(
                kernels,
                blocks,
                weights@[1] as nat,
                numbers@[i] as int,
                values.subrange(i * weights@[1], (i + 1) * weights@[1]),
            ));
        }
    }
}

/// The values are the kernel's for the bytes of row `at` among rows of `hidden`
/// values.
pub open spec fn row_read<K: BlockKernels>(
    kernels: &K,
    blocks: QuantizedBlocks,
    hidden: nat,
    at: int,
    values: Seq<u32>,
) -> bool {
    let size = hidden / blocks.dtype.spec_block_size() as nat * blocks.dtype.spec_type_size() as nat;
    exists|bytes: &[u8], zeros: Vec<u32>, answer: Vec<u32>|
        {
            &&& #[trigger] call_ensures(K::to_float, (kernels, blocks.dtype, bytes, zeros), Ok(answer))
            &&& bytes@ == blocks.data@.subrange(at * size, (at + 1) * size)
            &&& zeros@ == Seq::new(hidden, |j: int| 0u32)
            &&& answer@ == values
        }
}

/// The blocks for the values of a shape can be counted unless its rows are whole
/// blocks and the numbers are too large: those of the elements in its leading
/// dimensions, or that of the bytes.
pub proof fn law_room_for_a_shape(shape: &Shape, dtype: GgmlDType, yes: bool)
    requires
        call_ensures(qtensor::can_hold, (shape, dtype), yes),
    ensures
        shape@.len() == 0 || shape@.last() as nat % dtype.spec_block_size() as nat != 0 ==> yes,
        shape@.len() > 0 && shape@.last() as nat % dtype.spec_block_size() as nat == 0 && yes ==> {
            &&& shape::elements(shape@) <= usize::MAX
            &&& shape::elements(shape@) * dtype.spec_type_size() <= usize::MAX
                * dtype.spec_block_size()
        },
        shape@.len() > 0 && shape@.last() as nat % dtype.spec_block_size() as nat == 0
            && shape::elements_fit(shape@) && shape::elements(shape@) * dtype.spec_type_size()
            <= usize::MAX * dtype.spec_block_size() ==> yes,
{
    if shape@.len() > 0 && shape@.last() as nat % dtype.spec_block_size() as nat == 0 {
        let bytes = storage::blocks_len(dtype, shape::elements(shape@)) as int;
        let block_size = dtype.spec_block_size() as int;
        lemma_blocks_len(dtype, shape@);
        assert(shape@.take(shape@.len() as int) =~= shape@);
        if yes {
            assert(bytes * block_size <= usize::MAX * block_size) by (nonlinear_arith)
                requires
                    bytes <= usize::MAX,
                    block_size > 0,
            ;
        }
        if bytes * block_size <= usize::MAX * block_size {
            assert(bytes <= usize::MAX) by (nonlinear_arith)
                requires
                    bytes * block_size <= usize::MAX * block_size,
                    block_size > 0,
            ;
        }
    }
}

/// A quantized tensor is printed by its extents and its type.
pub proof fn law_quantized_tensors_are_printed(blocks: &QTensor, shown: String)
    requires
        call_ensures(QTensor::text, (blocks,), shown),
    ensures
        shown@ == "QTensor["@ + text::decimal_list(blocks@) + "; "@
            + blocks.spec_storage().spec_dtype().spec_name() + "]"@,
{
}

/// A quantized tensor hands out its own blocks and extents.
pub proof fn law_quantized_tensors_know_themselves(
    blocks: &QTensor,
    dtype: GgmlDType,
    device: Device,
    rank: usize,
    shape: &Shape,
    held: &QStorage,
    bytes: Result<&[u8], Error>,
    size: usize,
)
    requires
        call_ensures(QTensor::dtype, (blocks,), dtype),
        call_ensures(QTensor::device, (blocks,), device),
        call_ensures(QTensor::rank, (blocks,), rank),
        call_ensures(QTensor::shape, (blocks,), shape),
        call_ensures(QTensor::storage, (blocks,), held),
        call_ensures(QTensor::data, (blocks,), bytes),
        call_ensures(QTensor::storage_size_in_bytes, (blocks,), size),
    ensures
        rank == shape@.len(),
        shape@ == blocks@,
        *held == blocks.spec_storage(),
        *held is Cpu ==> dtype == held->Cpu_0.dtype && device is Cpu && bytes is Ok && bytes->Ok_0@
            == held->Cpu_0.data@ && size == held->Cpu_0.data@.len(),
        *held is CpuRaw ==> dtype == held->CpuRaw_0.spec_dtype() && device is Cpu && bytes is Ok
            && bytes->Ok_0@ == held->CpuRaw_0.spec_data() && size
            == held->CpuRaw_0.spec_data().len(),
        *held is Cuda ==> dtype == held->Cuda_0.dtype && device is Cuda && bytes is Err
            && bytes->Err_0 is NotCompiledWithCudaSupport,
        *held is Metal ==> dtype == held->Metal_0.dtype && device is Metal && bytes is Err
            && bytes->Err_0 is NotCompiledWithMetalSupport,
{
}

} // verus!
