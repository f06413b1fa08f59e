//! What holds of quantized tensors across calls: the same input gives the same
//! blocks, however the host was asked for them, and a row looked up is a row
//! of the whole.

use crate::cpu_storage::{CpuStorage, DType};
use crate::device::Device;
use crate::dtype::{GgmlDType, QK8_H};
use crate::error::Error;
use crate::quantized::embedding;
use crate::quantized::kernels::{BlockKernels, RowQuantizer};
use crate::quantized::qtensor;
use crate::quantized::qtensor::QTensor;
use crate::quantized::raw;
use crate::quantized::rows;
use crate::quantized::storage;
use crate::quantized::storage::{QStorage, QuantizedBlocks};
use crate::shape;
use crate::tensor;
use crate::tensor::{Storage, Tensor};
use vstd::arithmetic::div_mod::{lemma_fundamental_div_mod, lemma_fundamental_div_mod_converse};
use vstd::prelude::*;

verus! {

/// Both outcomes are the same bytes, or errors that print the same text.
pub open spec fn same_bytes(a: Result<Vec<u8>, Error>, b: Result<Vec<u8>, Error>) -> bool {
    match (a, b) {
        (Ok(x), Ok(y)) => x@ == y@,
        (Err(x), Err(y)) => x@ == y@,
        _ => false,
    }
}

/// Both outcomes are the same values, or errors that print the same text.
pub open spec fn same_floats(a: Result<Vec<u32>, Error>, b: Result<Vec<u32>, Error>) -> bool {
    match (a, b) {
        (Ok(x), Ok(y)) => x@ == y@,
        (Err(x), Err(y)) => x@ == y@,
        _ => false,
    }
}

/// The kernel quantizes the same values to the same blocks, whenever it is
/// asked.
pub open spec fn fills_alike<K: BlockKernels>(kernels: &K) -> bool {
    forall|
        dtype: GgmlDType,
        a: Vec<u32>,
        b: Vec<u32>,
        left: Vec<u8>,
        right: Vec<u8>,
        x: Result<Vec<u8>, Error>,
        y: Result<Vec<u8>, Error>,
    |
        a@ == b@ && left@ == right@ && #[trigger] call_ensures(
            K::from_float,
            (kernels, dtype, &a, &left),
            x,
        ) && #[trigger] call_ensures(K::from_float, (kernels, dtype, &b, &right), y) ==> same_bytes(x, y)
}

/// The kernel reads the same values from the same blocks, whenever it is asked.
pub open spec fn reads_alike<K: BlockKernels>(kernels: &K) -> bool {
    forall|
        dtype: GgmlDType,
        a: &[u8],
        b: &[u8],
        left: Vec<u32>,
        right: Vec<u32>,
        x: Result<Vec<u32>, Error>,
        y: Result<Vec<u32>, Error>,
    |
        a@ == b@ && left@ == right@ && #[trigger] call_ensures(
            K::to_float,
            (kernels, dtype, a, left),
            x,
        ) && #[trigger] call_ensures(K::to_float, (kernels, dtype, b, right), y) ==> same_floats(x, y)
}

/// The kernels give the same answer to the same question, whenever they are
/// asked.
pub open spec fn is_repeatable<K: BlockKernels>(kernels: &K) -> bool {
    &&& tensor::converts_alike(kernels)
    &&& fills_alike(kernels)
    &&& reads_alike(kernels)
    &&& forall|row: Seq<u32>| #[trigger] rows::answers_alike::<44, K>(kernels, row)
    &&& forall|row: Seq<u32>| #[trigger] rows::answers_alike::<40, K>(kernels, row)
}

/// Both are the same blocks in the same place.
pub open spec fn same_blocks(a: QStorage, b: QStorage) -> bool {
    match (a, b) {
        (QStorage::Cpu(x), QStorage::Cpu(y)) => x.dtype == y.dtype && x.data@ == y.data@,
        (QStorage::CpuRaw(x), QStorage::CpuRaw(y)) => x.spec_dtype() == y.spec_dtype()
            && x.spec_data() == y.spec_data(),
        (QStorage::Metal(x), QStorage::Metal(y)) => x == y,
        (QStorage::Cuda(x), QStorage::Cuda(y)) => x == y,
        _ => false,
    }
}

/// Both are the same blocks with the same extents.
pub open spec fn same_tensor(a: QTensor, b: QTensor) -> bool {
    same_blocks(a.spec_storage(), b.spec_storage()) && a@ == b@
}

/// Both outcomes are the same quantized tensor, or errors that print the same
/// text.
pub open spec fn same_outcomes(a: Result<QTensor, Error>, b: Result<QTensor, Error>) -> bool {
    match (a, b) {
        (Ok(x), Ok(y)) => same_tensor(x, y),
        (Err(x), Err(y)) => x@ == y@,
        _ => false,
    }
}

/// Host values convert to host values, so what would be said of values in
/// another place is never said.
proof fn lemma_mismatch_does_not_matter<K: BlockKernels>(
    kernels: &K,
    src: Tensor,
    dtype: GgmlDType,
    mismatch: Seq<char>,
    other: Seq<char>,
    outcome: Result<QTensor, Error>,
)
    requires
        src.storage is Cpu,
        !dtype.is_raw(),
        qtensor::converted_and_filled(kernels, src, Device::Cpu, dtype, None, mismatch, outcome),
    ensures
        qtensor::converted_and_filled(kernels, src, Device::Cpu, dtype, None, other, outcome),
{
    let floats = choose|floats: Result<Tensor, Error>|
        {
            &&& #[trigger] tensor::tensor_converted(kernels, src, DType::F32, floats)
            &&& match floats {
                Err(error) => outcome == Err::<QTensor, Error>(error),
                Ok(values) => qtensor::filled_on(
                    kernels,
                    Device::Cpu,
                    values.storage,
                    dtype,
                    None,
                    mismatch,
                    src.shape@,
                    outcome,
                ),
            }
        };
    if floats is Ok {
        assert(qtensor::filled_on(
            kernels,
            Device::Cpu,
            floats->Ok_0.storage,
            dtype,
            None,
            other,
            src.shape@,
            outcome,
        ));
    }
}

/// On the host, `quantize_onto` does what `quantize` does, for every type that
/// is not kept raw.
pub proof fn law_quantizing_onto_the_host_is_quantizing<K: BlockKernels>(
    kernels: &K,
    src: Tensor,
    dtype: GgmlDType,
    outcome: Result<QTensor, Error>,
)
    requires
        src.storage is Cpu,
        !dtype.is_raw(),
    ensures
        qtensor::quantized_onto(kernels, src, dtype, Device::Cpu, outcome) <==> qtensor::quantized(
            kernels,
            src,
            dtype,
            outcome,
        ),
{
    let apart = "Invalid quantize storage locations do not match"@;
    let away = "Invalid quantize source storage locations: not on cpu"@;
    if qtensor::converted_and_filled(kernels, src, Device::Cpu, dtype, None, away, outcome) {
        lemma_mismatch_does_not_matter(kernels, src, dtype, away, apart, outcome);
    }
    if qtensor::converted_and_filled(kernels, src, Device::Cpu, dtype, None, apart, outcome) {
        lemma_mismatch_does_not_matter(kernels, src, dtype, apart, away, outcome);
    }
}

/// The same host blocks are read as the same values.
proof fn lemma_host_reads_alike<K: BlockKernels>(
    kernels: &K,
    a: QuantizedBlocks,
    b: QuantizedBlocks,
    elem_count: usize,
    x: Result<Storage, Error>,
    y: Result<Storage, Error>,
)
    requires
        reads_alike(kernels),
        a.dtype == b.dtype,
        a.data@ == b.data@,
        storage::host_dequantized(kernels, a, elem_count, x),
        storage::host_dequantized(kernels, b, elem_count, y),
    ensures
        match (x, y) {
            (Ok(left), Ok(right)) => left.same_values(right) && left is Cpu,
            (Err(left), Err(right)) => left@ == right@,
            _ => false,
        },
{
    let (bytes, zeros, values) = choose|bytes: &[u8], zeros: Vec<u32>, values: Result<Vec<u32>, Error>|
        {
            &&& bytes@ == a.data@
            &&& zeros@ == Seq::new(elem_count as nat, |i: int| 0u32)
            &&& #[trigger] call_ensures(K::to_float, (kernels, a.dtype, bytes, zeros), values)
            &&& storage::values_accepted(a.dtype, values, elem_count, x)
        };
    let (other_bytes, other_zeros, other_values) = choose|
        bytes: &[u8],
        zeros: Vec<u32>,
        values: Result<Vec<u32>, Error>,
    |
        {
            &&& bytes@ == b.data@
            &&& zeros@ == Seq::new(elem_count as nat, |i: int| 0u32)
            &&& #[trigger] call_ensures(K::to_float, (kernels, b.dtype, bytes, zeros), values)
            &&& storage::values_accepted(b.dtype, values, elem_count, y)
        };
    assert(same_floats(values, other_values));
}

/// Dequantizing the same blocks twice gives the same tensor, or the same error.
pub proof fn law_dequantizing_is_repeatable<K: BlockKernels>(
    kernels: &K,
    a: QTensor,
    b: QTensor,
    device: Device,
    x: Result<Tensor, Error>,
    y: Result<Tensor, Error>,
)
    requires
        reads_alike(kernels),
        same_tensor(a, b),
        qtensor::dequantized(kernels, a, device, x),
        qtensor::dequantized(kernels, b, device, y),
    ensures
        tensor::same_tensors(x, y),
{
    match (a.spec_storage(), b.spec_storage()) {
        (QStorage::Cpu(left), QStorage::Cpu(right)) => {
            let count = shape::elements(a@) as usize;
            let p = choose|p: Result<Storage, Error>|
                {
                    &&& #[trigger] storage::host_dequantized(kernels, left, count, p)
                    &&& match p {
                        Err(error) => x == Err::<Tensor, Error>(error),
                        Ok(floats) => match x {
                            Ok(tensor) => tensor::moved(floats, device, Ok(tensor.storage))
                                && tensor.shape@ == a@,
                            Err(error) => tensor::moved(floats, device, Err(error)),
                        },
                    }
                };
            let q = choose|q: Result<Storage, Error>|
                {
                    &&& #[trigger] storage::host_dequantized(kernels, right, count, q)
                    &&& match q {
                        Err(error) => y == Err::<Tensor, Error>(error),
                        Ok(floats) => match y {
                            Ok(tensor) => tensor::moved(floats, device, Ok(tensor.storage))
                                && tensor.shape@ == b@,
                            Err(error) => tensor::moved(floats, device, Err(error)),
                        },
                    }
                };
            lemma_host_reads_alike(kernels, left, right, count, p, q);
        },
        _ => {},
    }
}

/// A row is refused with the same text each time.
proof fn lemma_row_refusals_alike<const N: usize, K: RowQuantizer<N>>(
    kernels: &K,
    row: Seq<u32>,
    x: Error,
    y: Error,
)
    requires
        rows::answers_alike::<N, K>(kernels, row),
        rows::row_refused::<N, K>(kernels, row, x),
        rows::row_refused::<N, K>(kernels, row, y),
    ensures
        x@ == y@,
{
}

/// The same rows quantize to the same blocks, or stop at the same row.
proof fn lemma_rows_alike<const N: usize, K: RowQuantizer<N>>(
    kernels: &K,
    values: Seq<u32>,
    width: nat,
    count: nat,
    x: Result<Seq<[u8; N]>, Error>,
    y: Result<Seq<[u8; N]>, Error>,
)
    requires
        forall|row: Seq<u32>| #[trigger] rows::answers_alike::<N, K>(kernels, row),
        rows::rows_outcome::<N, K>(kernels, values, width, count, x),
        rows::rows_outcome::<N, K>(kernels, values, width, count, y),
    ensures
        match (x, y) {
            (Ok(left), Ok(right)) => left == right,
            (Err(left), Err(right)) => left@ == right@,
            _ => false,
        },
{
    match (x, y) {
        (Ok(left), Ok(right)) => {
            lemma_blocks_alike(kernels, values, width, count, left, right);
        },
        (Err(left), Err(right)) => {
            let (at, earlier) = choose|at: nat, earlier: Seq<[u8; N]>|
                {
                    &&& at < count
                    &&& #[trigger] rows::rows_blocks(kernels, values, width, at, earlier)
                    &&& rows::row_refused::<N, K>(kernels, rows::row(values, width, at as int), left)
                };
            let (other_at, other_earlier) = choose|at: nat, earlier: Seq<[u8; N]>|
                {
                    &&& at < count
                    &&& #[trigger] rows::rows_blocks(kernels, values, width, at, earlier)
                    &&& rows::row_refused::<N, K>(kernels, rows::row(values, width, at as int), right)
                };
            if at < other_at {
                lemma_row_with_blocks_is_not_refused(kernels, values, width, other_at, other_earlier, at, left);
            }
            if other_at < at {
                lemma_row_with_blocks_is_not_refused(kernels, values, width, at, earlier, other_at, right);
            }
            let row = rows::row(values, width, at as int);
            assert(rows::answers_alike::<N, K>(kernels, row));
            lemma_row_refusals_alike::<N, K>(kernels, row, left, right);
        },
        (Ok(blocks), Err(error)) => {
            let (at, earlier) = choose|at: nat, earlier: Seq<[u8; N]>|
                {
                    &&& at < count
                    &&& #[trigger] rows::rows_blocks(kernels, values, width, at, earlier)
                    &&& rows::row_refused::<N, K>(kernels, rows::row(values, width, at as int), error)
                };
            lemma_row_with_blocks_is_not_refused(kernels, values, width, count, blocks, at, error);
        },
        (Err(error), Ok(blocks)) => {
            let (at, earlier) = choose|at: nat, earlier: Seq<[u8; N]>|
                {
                    &&& at < count
                    &&& #[trigger] rows::rows_blocks(kernels, values, width, at, earlier)
                    &&& rows::row_refused::<N, K>(kernels, rows::row(values, width, at as int), error)
                };
            lemma_row_with_blocks_is_not_refused(kernels, values, width, count, blocks, at, error);
        },
    }
}

/// A row that was quantized is not refused another time.
proof fn lemma_row_with_blocks_is_not_refused<const N: usize, K: RowQuantizer<N>>(
    kernels: &K,
    values: Seq<u32>,
    width: nat,
    count: nat,
    blocks: Seq<[u8; N]>,
    at: nat,
    error: Error,
)
    requires
        forall|row: Seq<u32>| #[trigger] rows::answers_alike::<N, K>(kernels, row),
        rows::rows_blocks(kernels, values, width, count, blocks),
        at < count,
    ensures
        !rows::row_refused::<N, K>(kernels, rows::row(values, width, at as int), error),
{
    let row = rows::row(values, width, at as int);
    assert(rows::answers_alike::<N, K>(kernels, row));
    assert(rows::row_blocks(kernels, row, rows::blocks_of_row(blocks, width, at as int)));
}

/// The same rows have the same blocks.
proof fn lemma_blocks_alike<const N: usize, K: RowQuantizer<N>>(
    kernels: &K,
    values: Seq<u32>,
    width: nat,
    count: nat,
    left: Seq<[u8; N]>,
    right: Seq<[u8; N]>,
)
    requires
        forall|row: Seq<u32>| #[trigger] rows::answers_alike::<N, K>(kernels, row),
        rows::rows_blocks(kernels, values, width, count, left),
        rows::rows_blocks(kernels, values, width, count, right),
    ensures
        left == right,
{
    let per_row = rows::blocks_per_row(width) as int;
    assert forall|k: int| 0 <= k < left.len() implies left[k] == right[k] by {
        assert(per_row > 0) by (nonlinear_arith)
            requires
                0 <= k < count * per_row,
                per_row >= 0,
        ;
        let i = k / per_row;
        let j = k % per_row;
        lemma_fundamental_div_mod(k, per_row);
        assert(0 <= i < count) by (nonlinear_arith)
            requires
                0 <= k < count * per_row,
                per_row > 0,
                k == per_row * i + j,
                0 <= j < per_row,
        ;
        assert(0 <= i * per_row <= k < (i + 1) * per_row <= count * per_row) by (nonlinear_arith)
            requires
                0 <= i < count,
                per_row > 0,
                k == per_row * i + j,
                0 <= j < per_row,
        ;
        assert(rows::answers_alike::<N, K>(kernels, rows::row(values, width, i)));
        rows::law_rows_are_isolated(kernels, values, values, width, count, count, left, right, i, i);
        assert(rows::blocks_of_row(left, width, i)[k - i * per_row] == left[k]);
        assert(rows::blocks_of_row(right, width, i)[k - i * per_row] == right[k]);
    }
    assert(left =~= right);
}

/// The same rows are stored as the same bytes.
proof fn lemma_stored_rows_alike<const N: usize, K: RowQuantizer<N>>(
    kernels: &K,
    values: Seq<u32>,
    width: nat,
    dtype: GgmlDType,
    x: Result<QStorage, Error>,
    y: Result<QStorage, Error>,
)
    requires
        forall|row: Seq<u32>| #[trigger] rows::answers_alike::<N, K>(kernels, row),
        dtype.is_raw(),
        rows::rows_stored::<N, K>(kernels, values, width, dtype, x),
        rows::rows_stored::<N, K>(kernels, values, width, dtype, y),
    ensures
        same_stored(x, y),
{
    let count = values.len() / width;
    let left: Result<Seq<[u8; N]>, Error> = match x {
        Ok(stored) => Ok(
            choose|blocks: Seq<[u8; N]>|
                {
                    &&& #[trigger] rows::rows_blocks::<N, K>(kernels, values, width, count, blocks)
                    &&& storage::holds(stored, dtype, raw::block_bytes(blocks))
                },
        ),
        Err(error) => Err(error),
    };
    let right: Result<Seq<[u8; N]>, Error> = match y {
        Ok(stored) => Ok(
            choose|blocks: Seq<[u8; N]>|
                {
                    &&& #[trigger] rows::rows_blocks::<N, K>(kernels, values, width, count, blocks)
                    &&& storage::holds(stored, dtype, raw::block_bytes(blocks))
                },
        ),
        Err(error) => Err(error),
    };
    lemma_rows_alike::<N, K>(kernels, values, width, count, left, right);
}

/// Both outcomes are the same blocks, or errors that print the same text.
pub open spec fn same_stored(a: Result<QStorage, Error>, b: Result<QStorage, Error>) -> bool {
    match (a, b) {
        (Ok(x), Ok(y)) => same_blocks(x, y),
        (Err(x), Err(y)) => x@ == y@,
        _ => false,
    }
}

/// Quantizing the same values to the Q8_H family twice gives the same blocks,
/// or the same error.
pub proof fn law_row_quantization_is_repeatable<K: BlockKernels>(
    kernels: &K,
    values: Seq<u32>,
    dims: Seq<usize>,
    dtype: GgmlDType,
    x: Result<QStorage, Error>,
    y: Result<QStorage, Error>,
)
    requires
        is_repeatable(kernels),
        rows::h_quantized(kernels, values, dims, dtype, x),
        rows::h_quantized(kernels, values, dims, dtype, y),
    ensures
        same_stored(x, y),
{
    if dims.len() > 0 && dims.last() > 0 && dims.last() % QK8_H == 0 && values.len()
        == shape::elements(dims) {
        let width = dims.last() as nat;
        match dtype {
            GgmlDType::Q8H1 => {
                lemma_stored_rows_alike::<44, K>(kernels, values, width, dtype, x, y);
            },
            GgmlDType::Q8HP1 => {
                lemma_stored_rows_alike::<40, K>(kernels, values, width, dtype, x, y);
            },
            _ => {},
        }
    }
}

/// The same values fill host blocks alike.
proof fn lemma_host_fills_alike<K: BlockKernels>(
    kernels: &K,
    left: QuantizedBlocks,
    right: QuantizedBlocks,
    a: CpuStorage,
    b: CpuStorage,
    x: Result<QStorage, Error>,
    y: Result<QStorage, Error>,
)
    requires
        fills_alike(kernels),
        left.dtype == right.dtype,
        left.data@ == right.data@,
        a.same_values(b),
        qtensor::host_filled(kernels, left, a, None, x),
        qtensor::host_filled(kernels, right, b, None, y),
    ensures
        same_stored(x, y),
{
    match (a, b) {
        (CpuStorage::F32(these), CpuStorage::F32(those)) => {
            let (after, first): (QStorage, Result<(), Error>) = match x {
                Ok(stored) => (stored, Ok(())),
                Err(error) => (QStorage::Cpu(left), Err(error)),
            };
            let (other_after, second): (QStorage, Result<(), Error>) = match y {
                Ok(stored) => (stored, Ok(())),
                Err(error) => (QStorage::Cpu(right), Err(error)),
            };
            let p = choose|p: Result<Vec<u8>, Error>| #[trigger]
                call_ensures(K::from_float, (kernels, left.dtype, &these, &left.data), p)
                    && storage::blocks_filled(left, p, after, first);
            let q = choose|q: Result<Vec<u8>, Error>| #[trigger]
                call_ensures(K::from_float, (kernels, right.dtype, &those, &right.data), q)
                    && storage::blocks_filled(right, q, other_after, second);
            assert(same_bytes(p, q));
        },
        _ => {},
    }
}

/// The same values fill new blocks alike.
proof fn lemma_filled_alike<K: BlockKernels>(
    kernels: &K,
    device: Device,
    a: Storage,
    b: Storage,
    dtype: GgmlDType,
    mismatch: Seq<char>,
    dims: Seq<usize>,
    x: Result<QTensor, Error>,
    y: Result<QTensor, Error>,
)
    requires
        fills_alike(kernels),
        a.same_values(b),
        qtensor::filled_on(kernels, device, a, dtype, None, mismatch, dims, x),
        qtensor::filled_on(kernels, device, b, dtype, None, mismatch, dims, y),
    ensures
        same_outcomes(x, y),
{
    match (a, b) {
        (Storage::Cpu(these), Storage::Cpu(those)) => if device is Cpu && !dtype.is_raw() {
            let (zeros, stored) = choose|zeros: QuantizedBlocks, stored: Result<QStorage, Error>|
                {
                    &&& storage::holds(
                        QStorage::Cpu(zeros),
                        dtype,
                        storage::zero_bytes(dtype, shape::elements(dims)),
                    )
                    &&& #[trigger] qtensor::host_filled(kernels, zeros, these, None, stored)
                    &&& qtensor::wraps(stored, dims, x)
                };
            let (other_zeros, other_stored) = choose|
                zeros: QuantizedBlocks,
                stored: Result<QStorage, Error>,
            |
                {
                    &&& storage::holds(
                        QStorage::Cpu(zeros),
                        dtype,
                        storage::zero_bytes(dtype, shape::elements(dims)),
                    )
                    &&& #[trigger] qtensor::host_filled(kernels, zeros, those, None, stored)
                    &&& qtensor::wraps(stored, dims, y)
                };
            lemma_host_fills_alike(
                kernels,
                zeros,
                other_zeros,
                these,
                those,
                stored,
                other_stored,
            );
        },
        _ => {},
    }
}

/// Quantizing the same tensor twice gives the same blocks, or the same error.
pub proof fn law_quantizing_is_repeatable<K: BlockKernels>(
    kernels: &K,
    a: Tensor,
    b: Tensor,
    dtype: GgmlDType,
    x: Result<QTensor, Error>,
    y: Result<QTensor, Error>,
)
    requires
        is_repeatable(kernels),
        a.storage.same_values(b.storage),
        a.shape@ == b.shape@,
        qtensor::quantized(kernels, a, dtype, x),
        qtensor::quantized(kernels, b, dtype, y),
    ensures
        same_outcomes(x, y),
{
    let dims = a.shape@;
    let device = a.storage.spec_device();
    let mismatch = "Invalid quantize storage locations do not match"@;
    assert(b.storage.spec_device() == device);
    if qtensor::rows_of_blocks(dims, dtype.spec_block_size() as nat) {
        if dtype.is_raw() {
            if device is Cpu {
                lemma_h_tensors_alike(kernels, a, b, dtype, x, y);
            }
        } else {
            let p = choose|p: Result<Tensor, Error>|
                {
                    &&& #[trigger] tensor::tensor_converted(kernels, a, DType::F32, p)
                    &&& match p {
                        Err(error) => x == Err::<QTensor, Error>(error),
                        Ok(values) => qtensor::filled_on(
                            kernels,
                            device,
                            values.storage,
                            dtype,
                            None,
                            mismatch,
                            dims,
                            x,
                        ),
                    }
                };
            let q = choose|q: Result<Tensor, Error>|
                {
                    &&& #[trigger] tensor::tensor_converted(kernels, b, DType::F32, q)
                    &&& match q {
                        Err(error) => y == Err::<QTensor, Error>(error),
                        Ok(values) => qtensor::filled_on(
                            kernels,
                            device,
                            values.storage,
                            dtype,
                            None,
                            mismatch,
                            dims,
                            y,
                        ),
                    }
                };
            tensor::law_conversion_is_repeatable(kernels, a, b, DType::F32, p, q);
            if p is Ok {
                lemma_filled_alike(
                    kernels,
                    device,
                    p->Ok_0.storage,
                    q->Ok_0.storage,
                    dtype,
                    mismatch,
                    dims,
                    x,
                    y,
                );
            }
        }
    }
}

/// The same host tensor quantizes to the same blocks of the Q8_H family.
proof fn lemma_h_tensors_alike<K: BlockKernels>(
    kernels: &K,
    a: Tensor,
    b: Tensor,
    dtype: GgmlDType,
    x: Result<QTensor, Error>,
    y: Result<QTensor, Error>,
)
    requires
        is_repeatable(kernels),
        a.storage.same_values(b.storage),
        a.shape@ == b.shape@,
        qtensor::h_tensor(kernels, a, dtype, x),
        qtensor::h_tensor(kernels, b, dtype, y),
    ensures
        same_outcomes(x, y),
{
    let p = choose|p: Result<Tensor, Error>|
        {
            &&& #[trigger] tensor::tensor_converted(kernels, a, DType::F32, p)
            &&& match p {
                Err(error) => x == Err::<QTensor, Error>(error),
                Ok(values) => match values.storage {
                    Storage::Cpu(CpuStorage::F32(bits)) => exists|stored: Result<QStorage, Error>|
                        {
                            &&& #[trigger] rows::h_quantized(kernels, bits@, a.shape@, dtype, stored)
                            &&& qtensor::wraps(stored, a.shape@, x)
                        },
                    _ => false,
                },
            }
        };
    let q = choose|q: Result<Tensor, Error>|
        {
            &&& #[trigger] tensor::tensor_converted(kernels, b, DType::F32, q)
            &&& match q {
                Err(error) => y == Err::<QTensor, Error>(error),
                Ok(values) => match values.storage {
                    Storage::Cpu(CpuStorage::F32(bits)) => exists|stored: Result<QStorage, Error>|
                        {
                            &&& #[trigger] rows::h_quantized(kernels, bits@, b.shape@, dtype, stored)
                            &&& qtensor::wraps(stored, b.shape@, y)
                        },
                    _ => false,
                },
            }
        };
    tensor::law_conversion_is_repeatable(kernels, a, b, DType::F32, p, q);
    if p is Ok {
        let bits = p->Ok_0.storage->Cpu_0->F32_0@;
        assert(q->Ok_0.storage->Cpu_0->F32_0@ == bits);
        let stored = choose|stored: Result<QStorage, Error>|
            {
                &&& #[trigger] rows::h_quantized(kernels, bits, a.shape@, dtype, stored)
                &&& qtensor::wraps(stored, a.shape@, x)
            };
        let other_stored = choose|stored: Result<QStorage, Error>|
            {
                &&& #[trigger] rows::h_quantized(kernels, bits, b.shape@, dtype, stored)
                &&& qtensor::wraps(stored, b.shape@, y)
            };
        law_row_quantization_is_repeatable(kernels, bits, a.shape@, dtype, stored, other_stored);
    }
}

/// Quantizing a tensor of the host onto the host gives the blocks that
/// quantizing it where it is gives, or the same error, for every type that is
/// not kept raw.
pub proof fn law_quantizing_onto_the_host_agrees<K: BlockKernels>(
    kernels: &K,
    src: Tensor,
    dtype: GgmlDType,
    onto: Result<QTensor, Error>,
    here: Result<QTensor, Error>,
)
    requires
        is_repeatable(kernels),
        src.storage is Cpu,
        !dtype.is_raw(),
        qtensor::quantized_onto(kernels, src, dtype, Device::Cpu, onto),
        qtensor::quantized(kernels, src, dtype, here),
    ensures
        same_outcomes(onto, here),
{
    law_quantizing_onto_the_host_is_quantizing(kernels, src, dtype, onto);
    law_quantizing_is_repeatable(kernels, src, src, dtype, onto, here);
}

/// Block `at` in a run of bytes.
pub open spec fn block_at(dtype: GgmlDType, bytes: Seq<u8>, at: int) -> Seq<u8> {
    bytes.subrange(at * dtype.spec_type_size(), (at + 1) * dtype.spec_type_size())
}

/// The values of block `at` in a run of values.
pub open spec fn values_at(dtype: GgmlDType, values: Seq<u32>, at: int) -> Seq<u32> {
    values.subrange(at * dtype.spec_block_size(), (at + 1) * dtype.spec_block_size())
}

/// The values are those of the blocks, each block read on its own.
pub open spec fn read_blockwise(
    dtype: GgmlDType,
    read: spec_fn(Seq<u8>) -> Seq<u32>,
    bytes: Seq<u8>,
    values: Seq<u32>,
) -> bool {
    forall|at: int|
        0 <= at < bytes.len() / dtype.spec_type_size() as nat ==> #[trigger] values_at(
            dtype,
            values,
            at,
        ) == read(block_at(dtype, bytes, at))
}

/// The kernel reads every block of the type on its own: the values of a block
/// are those that `read` gives for its bytes, whatever blocks stand around it.
pub open spec fn reads_blockwise<K: BlockKernels>(
    kernels: &K,
    dtype: GgmlDType,
    read: spec_fn(Seq<u8>) -> Seq<u32>,
) -> bool {
    forall|bytes: &[u8], zeros: Vec<u32>, values: Vec<u32>| #[trigger]
        call_ensures(K::to_float, (kernels, dtype, bytes, zeros), Ok(values)) && values@.len()
            == bytes@.len() / dtype.spec_type_size() as nat * dtype.spec_block_size() as nat
            ==> read_blockwise(dtype, read, bytes@, values@)
}

/// A row that is read on its own has the values that it has in the whole.
proof fn lemma_row_of_blocks(
    dtype: GgmlDType,
    read: spec_fn(Seq<u8>) -> Seq<u32>,
    bytes: Seq<u8>,
    all: Seq<u32>,
    rows: nat,
    per_row: nat,
    id: int,
    single: Seq<u32>,
)
    requires
        0 <= id < rows,
        bytes.len() == rows * per_row * dtype.spec_type_size() as nat,
        all.len() == rows * per_row * dtype.spec_block_size() as nat,
        single.len() == per_row * dtype.spec_block_size() as nat,
        read_blockwise(dtype, read, bytes, all),
        read_blockwise(
            dtype,
            read,
            bytes.subrange(
                id * (per_row * dtype.spec_type_size() as nat),
                (id + 1) * (per_row * dtype.spec_type_size() as nat),
            ),
            single,
        ),
    ensures
        single == all.subrange(
            id * (per_row * dtype.spec_block_size() as nat),
            (id + 1) * (per_row * dtype.spec_block_size() as nat),
        ),
{
    let size = dtype.spec_type_size() as int;
    let len = dtype.spec_block_size() as int;
    let part = bytes.subrange(id * (per_row * size), (id + 1) * (per_row * size));
    assert(0 <= id * (per_row * size) <= (id + 1) * (per_row * size) <= rows * per_row * size)
        by (nonlinear_arith)
        requires
            0 <= id < rows,
            size > 0,
    ;
    assert(0 <= id * (per_row * len) <= (id + 1) * (per_row * len) <= rows * per_row * len)
        by (nonlinear_arith)
        requires
            0 <= id < rows,
            len > 0,
    ;
    assert((id + 1) * (per_row * len) == id * (per_row * len) + per_row * len) by (nonlinear_arith);
    assert((id + 1) * (per_row * size) == id * (per_row * size) + per_row * size)
        by (nonlinear_arith);
    let row = all.subrange(id * (per_row * len), (id + 1) * (per_row * len));
    assert forall|k: int| 0 <= k < single.len() implies single[k] == row[k] by {
        let at = k / len;
        lemma_fundamental_div_mod(k, len);
        assert(0 <= at < per_row) by (nonlinear_arith)
            requires
                0 <= k < per_row * len,
                len > 0,
                k == len * at + k % len,
                0 <= k % len < len,
        ;
        let there = id * per_row + at;
        assert(0 <= there < rows * per_row) by (nonlinear_arith)
            requires
                0 <= id < rows,
                0 <= at < per_row,
                there == id * per_row + at,
        ;
        lemma_fundamental_div_mod_converse(part.len() as int, size, per_row as int, 0);
        lemma_fundamental_div_mod_converse(bytes.len() as int, size, (rows * per_row) as int, 0);
        assert(0 <= at * size && (at + 1) * size <= per_row * size) by (nonlinear_arith)
            requires
                0 <= at < per_row,
                size > 0,
        ;
        assert(id * (per_row * size) + at * size == there * size) by (nonlinear_arith)
            requires
                there == id * per_row + at,
        ;
        assert(id * (per_row * size) + (at + 1) * size == (there + 1) * size) by (nonlinear_arith)
            requires
                there == id * per_row + at,
        ;
        assert(0 <= there * size && (there + 1) * size <= rows * per_row * size) by (nonlinear_arith)
            requires
                0 <= there < rows * per_row,
                size > 0,
        ;
        assert((there + 1) * size == there * size + size) by (nonlinear_arith);
        assert((at + 1) * size == at * size + size) by (nonlinear_arith);
        assert(part.len() == per_row * size);
        assert(block_at(dtype, part, at) =~= block_at(dtype, bytes, there));
        assert(values_at(dtype, single, at) == values_at(dtype, all, there));
        assert(0 <= at * len <= k < (at + 1) * len <= per_row * len) by (nonlinear_arith)
            requires
                0 <= at < per_row,
                len > 0,
                k == len * at + k % len,
                0 <= k % len < len,
        ;
        assert(id * (per_row * len) + at * len == there * len) by (nonlinear_arith)
            requires
                there == id * per_row + at,
        ;
        assert(0 <= there * len && (there + 1) * len <= rows * per_row * len) by (nonlinear_arith)
            requires
                0 <= there < rows * per_row,
                len > 0,
        ;
        assert((there + 1) * len == there * len + len) by (nonlinear_arith);
        assert((at + 1) * len == at * len + len) by (nonlinear_arith);
        assert(values_at(dtype, single, at)[k - at * len] == single[k]);
        assert(values_at(dtype, all, there)[k - at * len] == all[there * len + (k - at * len)]);
    }
    assert(single =~= row);
}

/// The rows that an embedding looks up are rows of the dequantized whole, in
/// the order of the ids, where the kernel reads every block on its own.
pub proof fn law_embedding_rows_are_rows_of_the_whole<K: BlockKernels>(
    kernels: &K,
    blocks: QuantizedBlocks,
    read: spec_fn(Seq<u8>) -> Seq<u32>,
    ids: Seq<u32>,
    rows: nat,
    hidden: nat,
    looked_up: Vec<u32>,
    elem_count: usize,
    all: Vec<u32>,
    i: int,
)
    requires
        blocks.wf(),
        reads_blockwise(kernels, blocks.dtype, read),
        embedding::embedded(kernels, blocks, ids, rows, hidden, Ok(looked_up)),
        elem_count == rows * hidden,
        storage::host_dequantized(
            kernels,
            blocks,
            elem_count,
            Ok(Storage::Cpu(CpuStorage::F32(all))),
        ),
        0 <= i < ids.len(),
    ensures
        ids[i] < rows,
        looked_up@.subrange(i * hidden, (i + 1) * hidden) == all@.subrange(
            ids[i] * hidden,
            (ids[i] + 1) * hidden,
        ),
{
    let dtype = blocks.dtype;
    let size = dtype.spec_type_size() as nat;
    let len = dtype.spec_block_size() as nat;
    let per_row = hidden / len;
    let id = ids[i] as int;
    let single = looked_up@.subrange(i * hidden, (i + 1) * hidden);
    assert(embedding::row_values(kernels, blocks, hidden, id, single));
    lemma_fundamental_div_mod(hidden as int, len as int);
    assert(hidden == per_row * len) by (nonlinear_arith)
        requires
            hidden == len * per_row,
    ;
    lemma_fundamental_div_mod(blocks.data@.len() as int, size as int);
    assert(blocks.data@.len() == rows * per_row * size) by (nonlinear_arith)
        requires
            blocks.data@.len() == size * (rows * per_row),
    ;
    assert(rows * hidden == rows * per_row * len) by (nonlinear_arith)
        requires
            hidden == per_row * len,
    ;
    let (bytes, zeros, values) = choose|bytes: &[u8], zeros: Vec<u32>, values: Result<Vec<u32>, Error>|
        {
            &&& bytes@ == blocks.data@
            &&& zeros@ == Seq::new(elem_count as nat, |j: int| 0u32)
            &&& #[trigger] call_ensures(K::to_float, (kernels, dtype, bytes, zeros), values)
            &&& storage::values_accepted(
                dtype,
                values,
                elem_count,
                Ok(Storage::Cpu(CpuStorage::F32(all))),
            )
        };
    lemma_fundamental_div_mod_converse(
        blocks.data@.len() as int,
        size as int,
        (rows * per_row) as int,
        0,
    );
    assert(call_ensures(K::to_float, (kernels, dtype, bytes, zeros), Ok(all)));
    assert(read_blockwise(dtype, read, blocks.data@, all@));
    let answer = choose|answer: Vec<u32>|
        {
            &&& #[trigger] embedding::row_answered(kernels, blocks, hidden, id, Ok(answer))
            &&& answer@ == single
        };
    let (part, own_zeros) = choose|bytes: &[u8], zeros: Vec<u32>|
        {
            &&& bytes@ == embedding::row_data(blocks, hidden, id)
            &&& zeros@ == Seq::new(hidden, |j: int| 0u32)
            &&& #[trigger] call_ensures(K::to_float, (kernels, dtype, bytes, zeros), Ok(answer))
        };
    assert(0 <= i * hidden <= (i + 1) * hidden <= ids.len() * hidden) by (nonlinear_arith)
        requires
            0 <= i < ids.len(),
    ;
    assert((i + 1) * hidden == i * hidden + hidden) by (nonlinear_arith);
    assert(0 <= id * (per_row * size) <= (id + 1) * (per_row * size) <= rows * per_row * size)
        by (nonlinear_arith)
        requires
            0 <= id < rows,
            size > 0,
    ;
    assert((id + 1) * (per_row * size) == id * (per_row * size) + per_row * size)
        by (nonlinear_arith);
    lemma_fundamental_div_mod_converse(part@.len() as int, size as int, per_row as int, 0);
    assert(read_blockwise(dtype, read, part@, single));
    lemma_row_of_blocks(dtype, read, blocks.data@, all@, rows, per_row, id, single);
}

/// Looking rows of a quantized matrix up by number gives the rows that
/// dequantizing it gives, in the order of the ids, where the kernel reads every
/// block on its own.
pub proof fn law_embedding_agrees_with_dequantizing<K: BlockKernels>(
    kernels: &K,
    weights: QTensor,
    read: spec_fn(Seq<u8>) -> Seq<u32>,
    ids: Tensor,
    looked_up: Tensor,
    all: Tensor,
    i: int,
)
    requires
        weights.wf(),
        shape::elements_fit(weights@),
        weights.spec_storage() is Cpu,
        reads_blockwise(kernels, weights.spec_storage().spec_dtype(), read),
        ids.storage is Cpu,
        ids.storage->Cpu_0 is U32,
        0 <= i < ids.storage->Cpu_0->U32_0@.len(),
        qtensor::tensor_embedded(kernels, weights, ids, Ok(looked_up)),
        qtensor::dequantized(kernels, weights, Device::Cpu, Ok(all)),
    ensures
        looked_up.storage is Cpu && looked_up.storage->Cpu_0 is F32,
        all.storage is Cpu && all.storage->Cpu_0 is F32,
        looked_up.storage->Cpu_0->F32_0@.subrange(i * weights@[1], (i + 1) * weights@[1])
            == all.storage->Cpu_0->F32_0@.subrange(
            ids.storage->Cpu_0->U32_0@[i] * weights@[1],
            (ids.storage->Cpu_0->U32_0@[i] + 1) * weights@[1],
        ),
{
    let blocks = weights.spec_storage()->Cpu_0;
    let dims = weights@;
    let numbers = ids.storage->Cpu_0->U32_0@;
    assert(dims.take(2) =~= dims);
    assert(dims.drop_last() =~= seq![dims[0]]);
    assert(dims.drop_last().drop_last() =~= Seq::<usize>::empty());
    assert(shape::elements(dims) == dims[0] as nat * dims[1] as nat) by {
        reveal_with_fuel(shape::elements, 3);
        assert(1 * dims[0] as nat == dims[0]) by (nonlinear_arith);
    }
    assert(shape::elements(dims.take(2)) <= usize::MAX);
    let count = shape::elements(dims) as usize;
    let here = choose|here: Result<Tensor, Error>|
        {
            &&& #[trigger] tensor::tensor_moved(ids, Device::Cpu, here)
            &&& match here {
                Err(error) => false,
                Ok(local) => exists|list: Result<Tensor, Error>|
                    {
                        &&& #[trigger] tensor::tensor_converted(kernels, local, DType::U32, list)
                        &&& match list {
                            Err(error) => false,
                            Ok(list) => qtensor::rows_looked_up(
                                kernels,
                                weights.spec_storage(),
                                dims,
                                list.storage,
                                ids.shape@,
                                Ok(looked_up),
                            ),
                        }
                    },
            }
        };
    let local = here->Ok_0;
    let list = choose|list: Tensor|
        {
            &&& #[trigger] tensor::tensor_converted(kernels, local, DType::U32, Ok(list))
            &&& qtensor::rows_looked_up(
                kernels,
                weights.spec_storage(),
                dims,
                list.storage,
                ids.shape@,
                Ok(looked_up),
            )
        };
    assert(list.storage is Cpu && list.storage->Cpu_0 is U32);
    assert(list.storage->Cpu_0->U32_0@ == numbers);
    let bits = looked_up.storage->Cpu_0->F32_0;
    assert(embedding::embedded(
        kernels,
        blocks,
        numbers,
        dims[0] as nat,
        dims[1] as nat,
        Ok(bits),
    ));
    let floats = choose|floats: Storage|
        {
            &&& #[trigger] storage::host_dequantized(kernels, blocks, count, Ok(floats))
            &&& tensor::moved(floats, Device::Cpu, Ok(all.storage))
        };
    assert(floats is Cpu && floats->Cpu_0 is F32);
    let values = floats->Cpu_0->F32_0;
    assert(floats == Storage::Cpu(CpuStorage::F32(values)));
    law_embedding_rows_are_rows_of_the_whole(
        kernels,
        blocks,
        read,
        numbers,
        dims[0] as nat,
        dims[1] as nat,
        bits,
        count,
        values,
        i,
    );
}

} // verus!
