//! Quantized tensors.

use crate::cpu_storage::{CpuStorage, DType};
use crate::device::Device;
use crate::dtype::GgmlDType;
use crate::error;
use crate::error::{error_text, error_text2, error_text3, error_text4, Error};
use crate::printing::write_text;
use crate::quantized::embedding;
use crate::quantized::kernels::BlockKernels;
use crate::quantized::rows;
use crate::quantized::rows::quantize_h_cpu;
use crate::quantized::storage;
use crate::quantized::storage::{QStorage, QuantizedBlocks};
use crate::shape;
use crate::shape::Shape;
use crate::tensor;
use crate::tensor::{Storage, Tensor};
use crate::text;
use crate::text::decimal_text;
use vstd::arithmetic::div_mod::{lemma_fundamental_div_mod, lemma_fundamental_div_mod_converse};
use vstd::prelude::*;

verus! {

/// A quantized tensor: blocks, and the extents of the values in them. Every
/// row is a run of whole blocks.
pub struct QTensor {
    storage: QStorage,
    shape: Shape,
}

/// Every row of the shape is a run of whole blocks.
pub open spec fn rows_of_blocks(dims: Seq<usize>, block_size: nat) -> bool {
    dims.len() > 0 && dims.last() as nat % block_size == 0
}

/// What a caller prints when a shape does not have rows of whole blocks.
pub open spec fn shape_text(dims: Seq<usize>, block_size: nat) -> Seq<char> {
    if dims.len() == 0 {
        "scalar tensor cannot be quantized "@ + text::decimal_list(dims)
    } else {
        "quantized tensor must have their last dim divisible by block size "@ + text::decimal_list(dims)
            + " "@ + text::decimal(block_size)
    }
}

/// Refuses a shape whose rows are not runs of whole blocks.
pub fn check_shape(shape: &Shape, block_size: usize) -> (outcome: Result<(), Error>)
    requires
        block_size > 0,
    ensures
        outcome is Ok <==> rows_of_blocks(shape@, block_size as nat),
        outcome is Err ==> error::fails_with(outcome, shape_text(shape@, block_size as nat)),
{
    let rank: usize = shape.rank();
    if rank == 0 {
        return Err(error_text2("scalar tensor cannot be quantized ", shape.text().as_str()));
    }
    if shape.dims()[rank - 1] % block_size != 0 {
        return Err(
            error_text4(
                "quantized tensor must have their last dim divisible by block size ",
                shape.text().as_str(),
                " ",
                decimal_text(block_size as u64).as_str(),
            ),
        );
    }
    Ok(())
}

/// What a caller prints when the Q8_H family is asked for away from the host.
pub open spec fn cpu_only_text(dtype: GgmlDType) -> Seq<char> {
    dtype.spec_name() + " quantization is currently CPU-only"@
}

/// What a caller prints when there are more or fewer importances than columns.
pub open spec fn imatrix_text(got: nat, width: usize) -> Seq<char> {
    "imatrix weights must have the same length "@ + text::decimal(got) + " as the last dim of src "@
        + text::decimal(width as nat)
}

/// What a caller prints when values to move are not on the host.
pub open spec fn onto_text(device: Device) -> Seq<char> {
    "`quantize_onto` expects a `src` to be on the cpu, got "@ + device.spec_text() + "."@
}

/// The tensor holds the storage and has the extents `dims`, or the storage's
/// error came out.
pub open spec fn wraps(
    stored: Result<QStorage, Error>,
    dims: Seq<usize>,
    outcome: Result<QTensor, Error>,
) -> bool {
    match stored {
        Ok(storage) => {
            &&& outcome is Ok
            &&& outcome->Ok_0.spec_storage() == storage
            &&& outcome->Ok_0@ == dims
        },
        Err(error) => outcome == Err::<QTensor, Error>(error),
    }
}

/// What filling zeroed host blocks from host values does, with or without
/// importances.
pub open spec fn host_filled<K: BlockKernels>(
    kernels: &K,
    zeros: QuantizedBlocks,
    values: CpuStorage,
    importances: Option<(&Vec<u32>, usize)>,
    stored: Result<QStorage, Error>,
) -> bool {
    match (importances, stored) {
        (None, Ok(after)) => storage::host_quantized(kernels, zeros, values, after, Ok(())),
        (None, Err(error)) => storage::host_quantized(
            kernels,
            zeros,
            values,
            QStorage::Cpu(zeros),
            Err(error),
        ),
        (Some((weights, width)), Ok(after)) => storage::host_quantized_imatrix(
            kernels,
            zeros,
            values,
            weights,
            width,
            after,
            Ok(()),
        ),
        (Some((weights, width)), Err(error)) => storage::host_quantized_imatrix(
            kernels,
            zeros,
            values,
            weights,
            width,
            QStorage::Cpu(zeros),
            Err(error),
        ),
    }
}

/// What filling new blocks on `device` does: on the host a kernel fills zeroed
/// blocks, unless the type is kept raw; elsewhere there are none.
pub open spec fn filled_on<K: BlockKernels>(
    kernels: &K,
    device: Device,
    values: Storage,
    dtype: GgmlDType,
    importances: Option<(&Vec<u32>, usize)>,
    mismatch: Seq<char>,
    dims: Seq<usize>,
    outcome: Result<QTensor, Error>,
) -> bool {
    match device {
        Device::Cuda { .. } => outcome == Err::<QTensor, Error>(Error::NotCompiledWithCudaSupport),
        Device::Metal { .. } => outcome == Err::<QTensor, Error>(Error::NotCompiledWithMetalSupport),
        Device::Aqua(_) => error::fails_with(outcome, storage::aqua_text()),
        Device::Cpu => if dtype.is_raw() {
            error::fails_with(outcome, mismatch)
        } else {
            match values {
                Storage::Cpu(cpu) => exists|zeros: QuantizedBlocks, stored: Result<QStorage, Error>|
                    {
                        &&& storage::holds(
                            QStorage::Cpu(zeros),
                            dtype,
                            storage::zero_bytes(dtype, shape::elements(dims)),
                        )
                        &&& #[trigger] host_filled(kernels, zeros, cpu, importances, stored)
                        &&& wraps(stored, dims, outcome)
                    },
                _ => error::fails_with(outcome, mismatch),
            }
        },
    }
}

/// What a conversion to F32 and filling new blocks on `device` do together.
pub open spec fn converted_and_filled<K: BlockKernels>(
    kernels: &K,
    src: Tensor,
    device: Device,
    dtype: GgmlDType,
    importances: Option<(&Vec<u32>, usize)>,
    mismatch: Seq<char>,
    outcome: Result<QTensor, Error>,
) -> bool {
    exists|floats: Result<Tensor, Error>|
        {
            &&& #[trigger] tensor::tensor_converted(kernels, src, DType::F32, floats)
            &&& match floats {
                Err(error) => outcome == Err::<QTensor, Error>(error),
                Ok(values) => filled_on(
                    kernels,
                    device,
                    values.storage,
                    dtype,
                    importances,
                    mismatch,
                    src.shape@,
                    outcome,
                ),
            }
        }
}

/// What quantizing host values to the Q8_H family does.
pub open spec fn h_tensor<K: BlockKernels>(
    kernels: &K,
    src: Tensor,
    dtype: GgmlDType,
    outcome: Result<QTensor, Error>,
) -> bool {
    exists|floats: Result<Tensor, Error>|
        {
            &&& #[trigger] tensor::tensor_converted(kernels, src, DType::F32, floats)
            &&& match floats {
                Err(error) => outcome == Err::<QTensor, Error>(error),
                Ok(values) => match values.storage {
                    Storage::Cpu(CpuStorage::F32(bits)) => exists|stored: Result<QStorage, Error>|
                        {
                            &&& #[trigger] rows::h_quantized(
                                kernels,
                                bits@,
                                src.shape@,
                                dtype,
                                stored,
                            )
                            &&& wraps(stored, src.shape@, outcome)
                        },
                    _ => false,
                },
            }
        }
}

/// What `quantize` does.
pub open spec fn quantized<K: BlockKernels>(
    kernels: &K,
    src: Tensor,
    dtype: GgmlDType,
    outcome: Result<QTensor, Error>,
) -> bool {
    let block_size = dtype.spec_block_size() as nat;
    if !rows_of_blocks(src.shape@, block_size) {
        error::fails_with(outcome, shape_text(src.shape@, block_size))
    } else if dtype.is_raw() {
        if src.storage.spec_device() != Device::Cpu {
            error::fails_with(outcome, cpu_only_text(dtype))
        } else {
            h_tensor(kernels, src, dtype, outcome)
        }
    } else {
        converted_and_filled(
            kernels,
            src,
            src.storage.spec_device(),
            dtype,
            None,
            "Invalid quantize storage locations do not match"@,
            outcome,
        )
    }
}

/// What `quantize_imatrix` does, and `quantize_imatrix_onto` once the values
/// are known to be on the host.
pub open spec fn quantized_imatrix<K: BlockKernels>(
    kernels: &K,
    src: Tensor,
    weights: &Vec<u32>,
    dtype: GgmlDType,
    device: Device,
    outcome: Result<QTensor, Error>,
) -> bool {
    let block_size = dtype.spec_block_size() as nat;
    if src.shape@.len() == 0 {
        error::fails_with(outcome, shape::last_dim_text(src.shape@))
    } else if weights@.len() != src.shape@.last() {
        error::fails_with(outcome, imatrix_text(weights@.len(), src.shape@.last()))
    } else if !rows_of_blocks(src.shape@, block_size) {
        error::fails_with(outcome, shape_text(src.shape@, block_size))
    } else {
        converted_and_filled(
            kernels,
            src,
            device,
            dtype,
            Some((weights, src.shape@.last())),
            "Invalid quantize storage locations do not match"@,
            outcome,
        )
    }
}

/// What `quantize_onto` does once the values are known to be on the host.
pub open spec fn quantized_onto<K: BlockKernels>(
    kernels: &K,
    src: Tensor,
    dtype: GgmlDType,
    device: Device,
    outcome: Result<QTensor, Error>,
) -> bool {
    let block_size = dtype.spec_block_size() as nat;
    if !rows_of_blocks(src.shape@, block_size) {
        error::fails_with(outcome, shape_text(src.shape@, block_size))
    } else {
        converted_and_filled(
            kernels,
            src,
            device,
            dtype,
            None,
            "Invalid quantize source storage locations: not on cpu"@,
            outcome,
        )
    }
}

/// Where the rows of a shape are whole blocks, its elements and the bytes of
/// its blocks can be counted.
pub open spec fn blocks_fit(dims: Seq<usize>, dtype: GgmlDType) -> bool {
    rows_of_blocks(dims, dtype.spec_block_size() as nat) ==> {
        &&& shape::elements_fit(dims)
        &&& storage::blocks_len(dtype, shape::elements(dims)) <= usize::MAX
    }
}

/// Whether the blocks for the values of a shape can be counted; there are none
/// where its rows are not whole blocks.
pub fn can_hold(shape: &Shape, dtype: GgmlDType) -> (yes: bool)
    ensures
        yes == blocks_fit(shape@, dtype),
{
    let rank: usize = shape.rank();
    if rank == 0 || shape.dims()[rank - 1] % dtype.block_size() != 0 {
        return true;
    }
    match shape.checked_elem_count() {
        Some(count) => (count / dtype.block_size()).checked_mul(dtype.type_size()).is_some(),
        None => false,
    }
}

/// What a caller prints when rows of raw blocks are looked up.
pub open spec fn raw_embedding_text(dtype: GgmlDType) -> Seq<char> {
    "embedding is not implemented for "@ + dtype.spec_name()
}

/// What looking up rows of blocks does, given the ids as U32 values.
pub open spec fn rows_looked_up<K: BlockKernels>(
    kernels: &K,
    blocks: QStorage,
    dims: Seq<usize>,
    ids: Storage,
    ids_dims: Seq<usize>,
    outcome: Result<Tensor, Error>,
) -> bool {
    match blocks {
        QStorage::Cpu(host) => match ids {
            Storage::Cpu(CpuStorage::U32(list)) => exists|values: Result<Vec<u32>, Error>|
                {
                    &&& #[trigger] embedding::embedded(
                        kernels,
                        host,
                        list@,
                        dims[0] as nat,
                        dims[1] as nat,
                        values,
                    )
                    &&& match values {
                        Ok(bits) => {
                            &&& outcome is Ok
                            &&& outcome->Ok_0.storage == Storage::Cpu(CpuStorage::F32(bits))
                            &&& outcome->Ok_0.shape@ == ids_dims.push(dims[1])
                        },
                        Err(error) => outcome == Err::<Tensor, Error>(error),
                    }
                },
            _ => false,
        },
        QStorage::CpuRaw(raw) => error::fails_with(outcome, raw_embedding_text(raw.spec_dtype())),
        QStorage::Metal(_) => outcome == Err::<Tensor, Error>(Error::NotCompiledWithMetalSupport),
        QStorage::Cuda(_) => outcome == Err::<Tensor, Error>(Error::NotCompiledWithCudaSupport),
    }
}

/// What `embedding` does: the ids go to the blocks' device as U32 values, and
/// name rows there.
pub open spec fn tensor_embedded<K: BlockKernels>(
    kernels: &K,
    weights: QTensor,
    ids: Tensor,
    outcome: Result<Tensor, Error>,
) -> bool {
    if weights@.len() != 2 {
        error::fails_with(outcome, shape::rank_two_text(weights@))
    } else {
        exists|here: Result<Tensor, Error>|
            {
                &&& #[trigger] tensor::tensor_moved(ids, weights.spec_storage().spec_device(), here)
                &&& match here {
                    Err(error) => outcome == Err::<Tensor, Error>(error),
                    Ok(local) => exists|numbers: Result<Tensor, Error>|
                        {
                            &&& #[trigger] tensor::tensor_converted(
                                kernels,
                                local,
                                DType::U32,
                                numbers,
                            )
                            &&& match numbers {
                                Err(error) => outcome == Err::<Tensor, Error>(error),
                                Ok(list) => rows_looked_up(
                                    kernels,
                                    weights.spec_storage(),
                                    weights@,
                                    list.storage,
                                    ids.shape@,
                                    outcome,
                                ),
                            }
                        },
                }
            }
    }
}

/// What `dequantize` does: the blocks' values, moved to a device.
pub open spec fn dequantized<K: BlockKernels>(
    kernels: &K,
    blocks: QTensor,
    device: Device,
    outcome: Result<Tensor, Error>,
) -> bool {
    match blocks.spec_storage() {
        QStorage::Cpu(host) => exists|values: Result<Storage, Error>|
            {
                &&& #[trigger] storage::host_dequantized(
                    kernels,
                    host,
                    shape::elements(blocks@) as usize,
                    values,
                )
                &&& match values {
                    Err(error) => outcome == Err::<Tensor, Error>(error),
                    Ok(floats) => match outcome {
                        Ok(tensor) => tensor::moved(floats, device, Ok(tensor.storage))
                            && tensor.shape@ == blocks@,
                        Err(error) => tensor::moved(floats, device, Err(error)),
                    },
                }
            },
        QStorage::CpuRaw(raw) => error::fails_with(
            outcome,
            storage::dequantize_text(raw.spec_dtype()),
        ),
        QStorage::Metal(_) => outcome == Err::<Tensor, Error>(Error::NotCompiledWithMetalSupport),
        QStorage::Cuda(_) => outcome == Err::<Tensor, Error>(Error::NotCompiledWithCudaSupport),
    }
}

/// What `dequantize_f16` does: the values of `dequantize` as F16.
pub open spec fn dequantized_f16<K: BlockKernels>(
    kernels: &K,
    blocks: QTensor,
    device: Device,
    outcome: Result<Tensor, Error>,
) -> bool {
    exists|floats: Result<Tensor, Error>|
        {
            &&& #[trigger] dequantized(kernels, blocks, device, floats)
            &&& match floats {
                Err(error) => outcome == Err::<Tensor, Error>(error),
                Ok(values) => tensor::tensor_converted(kernels, values, DType::F16, outcome),
            }
        }
}

/// The tensor is printed as `text` gives it.
impl std::fmt::Debug for QTensor {
    fn fmt(&self, to: &mut std::fmt::Formatter<'_>) -> Result<(), std::fmt::Error> {
        write_text(to, self.text().as_str())
    }
}

impl View for QTensor {
    type V = Seq<usize>;

    closed spec fn view(&self) -> Seq<usize> {
        self.shape@
    }
}

impl QTensor {
    /// The blocks.
    pub closed spec fn spec_storage(self) -> QStorage {
        self.storage
    }

    /// The blocks are whole, and so is every row.
    pub open spec fn wf(self) -> bool {
        &&& self.spec_storage().wf()
        &&& rows_of_blocks(self@, self.spec_storage().spec_dtype().spec_block_size() as nat)
    }

    /// A tensor of the given blocks.
    pub fn new(storage: QStorage, shape: Shape) -> (outcome: Result<QTensor, Error>)
        requires
            storage.wf(),
        ensures
            outcome is Ok <==> rows_of_blocks(shape@, storage.spec_dtype().spec_block_size() as nat),
            outcome is Ok ==> {
                &&& outcome->Ok_0.wf()
                &&& outcome->Ok_0.spec_storage() == storage
                &&& outcome->Ok_0@ == shape@
            },
            outcome is Err ==> error::fails_with(
                outcome,
                shape_text(shape@, storage.spec_dtype().spec_block_size() as nat),
            ),
    {
        match check_shape(&shape, storage.block_size()) {
            Err(error) => Err(error),
            Ok(()) => Ok(QTensor { storage, shape }),
        }
    }

    /// Quantizes a tensor where it is. The Q8_H family is quantized row by
    /// row, and on the host only.
    pub fn quantize<K: BlockKernels>(kernels: &K, src: &Tensor, dtype: GgmlDType) -> (outcome: Result<
        QTensor,
        Error,
    >)
        requires
            blocks_fit(src.shape@, dtype),
        ensures
            quantized(kernels, *src, dtype, outcome),
            outcome is Ok ==> {
                &&& outcome->Ok_0.wf()
                &&& outcome->Ok_0.spec_storage().spec_dtype() == dtype
                &&& outcome->Ok_0@ == src.shape@
            },
    {
        match check_shape(&src.shape, dtype.block_size()) {
            Err(error) => return Err(error),
            Ok(()) => {},
        }
        if matches!(dtype, GgmlDType::Q8H1 | GgmlDType::Q8HP1) {
            if !src.device().is_cpu() {
                return Err(error_text2(dtype.name(), " quantization is currently CPU-only"));
            }
            let converted = src.to_dtype(kernels, DType::F32);
            match converted {
                Err(error) => return Err(error),
                Ok(floats) => match floats.storage {
                    Storage::Cpu(CpuStorage::F32(bits)) => {
                        let stored = quantize_h_cpu(kernels, bits.as_slice(), &src.shape, dtype);
                        match stored {
                            Err(error) => return Err(error),
                            Ok(storage) => return QTensor::new(storage, src.shape.clone()),
                        }
                    },
                    _ => return Err(error_text("unexpected storage")),
                },
            }
        }
        let floats = match src.to_dtype(kernels, DType::F32) {
            Err(error) => return Err(error),
            Ok(floats) => floats,
        };
        let elem_count: usize = src.shape.elem_count();
        let mut storage = match floats.device().qzeros(elem_count, dtype) {
            Err(error) => return Err(error),
            Ok(storage) => storage,
        };
        let ghost zeros = storage->Cpu_0;
        let filled = storage.quantize(kernels, &floats.storage);
        match filled {
            Err(error) => {
                assert(host_filled(kernels, zeros, floats.storage->Cpu_0, None, Err(error)));
                Err(error)
            },
            Ok(()) => {
                assert(host_filled(kernels, zeros, floats.storage->Cpu_0, None, Ok(storage)));
                Ok(QTensor { storage, shape: src.shape.clone() })
            },
        }
    }

    /// Quantizes a tensor where it is, with one importance for each column.
    pub fn quantize_imatrix<K: BlockKernels>(
        kernels: &K,
        src: &Tensor,
        imatrix_weights: &Vec<u32>,
        dtype: GgmlDType,
    ) -> (outcome: Result<QTensor, Error>)
        requires
            blocks_fit(src.shape@, dtype),
        ensures
            quantized_imatrix(
                kernels,
                *src,
                imatrix_weights,
                dtype,
                src.storage.spec_device(),
                outcome,
            ),
            outcome is Ok ==> {
                &&& outcome->Ok_0.wf()
                &&& outcome->Ok_0.spec_storage().spec_dtype() == dtype
                &&& outcome->Ok_0@ == src.shape@
            },
    {
        let n_per_row: usize = match src.shape.last_dim() {
            Err(error) => return Err(error),
            Ok(width) => width,
        };
        if imatrix_weights.len() != n_per_row {
            return Err(imatrix_error(imatrix_weights.len(), n_per_row));
        }
        match check_shape(&src.shape, dtype.block_size()) {
            Err(error) => return Err(error),
            Ok(()) => {},
        }
        let floats = match src.to_dtype(kernels, DType::F32) {
            Err(error) => return Err(error),
            Ok(floats) => floats,
        };
        let elem_count: usize = src.shape.elem_count();
        let mut storage = match floats.device().qzeros(elem_count, dtype) {
            Err(error) => return Err(error),
            Ok(storage) => storage,
        };
        let ghost zeros = storage->Cpu_0;
        let ghost importances = Some((imatrix_weights, n_per_row));
        let filled = storage.quantize_imatrix(kernels, &floats.storage, imatrix_weights, n_per_row);
        match filled {
            Err(error) => {
                assert(!dtype.is_raw() ==> host_filled(
                    kernels,
                    zeros,
                    floats.storage->Cpu_0,
                    importances,
                    Err(error),
                ));
                Err(error)
            },
            Ok(()) => {
                assert(host_filled(
                    kernels,
                    zeros,
                    floats.storage->Cpu_0,
                    importances,
                    Ok(storage),
                ));
                Ok(QTensor { storage, shape: src.shape.clone() })
            },
        }
    }

    /// Quantizes a tensor on the host into blocks on `dev`, with one
    /// importance for each column.
    pub fn quantize_imatrix_onto<K: BlockKernels>(
        kernels: &K,
        src: &Tensor,
        imatrix_weights: &Vec<u32>,
        dtype: GgmlDType,
        dev: &Device,
    ) -> (outcome: Result<QTensor, Error>)
        requires
            blocks_fit(src.shape@, dtype),
        ensures
            src.storage.spec_device() != Device::Cpu ==> error::fails_with(
                outcome,
                onto_text(src.storage.spec_device()),
            ),
            src.storage.spec_device() == Device::Cpu ==> quantized_imatrix(
                kernels,
                *src,
                imatrix_weights,
                dtype,
                *dev,
                outcome,
            ),
            outcome is Ok ==> {
                &&& outcome->Ok_0.wf()
                &&& outcome->Ok_0.spec_storage().spec_dtype() == dtype
                &&& outcome->Ok_0@ == src.shape@
            },
    {
        if !src.device().is_cpu() {
            return Err(onto_error(src.device()));
        }
        let n_per_row: usize = match src.shape.last_dim() {
            Err(error) => return Err(error),
            Ok(width) => width,
        };
        if imatrix_weights.len() != n_per_row {
            return Err(imatrix_error(imatrix_weights.len(), n_per_row));
        }
        match check_shape(&src.shape, dtype.block_size()) {
            Err(error) => return Err(error),
            Ok(()) => {},
        }
        let floats = match src.to_dtype(kernels, DType::F32) {
            Err(error) => return Err(error),
            Ok(floats) => floats,
        };
        let elem_count: usize = src.shape.elem_count();
        let mut storage = match dev.qzeros(elem_count, dtype) {
            Err(error) => return Err(error),
            Ok(storage) => storage,
        };
        let ghost zeros = storage->Cpu_0;
        let ghost importances = Some((imatrix_weights, n_per_row));
        let filled = storage.quantize_imatrix_onto(
            kernels,
            &floats.storage,
            imatrix_weights,
            n_per_row,
        );
        match filled {
            Err(error) => {
                assert(!dtype.is_raw() ==> host_filled(
                    kernels,
                    zeros,
                    floats.storage->Cpu_0,
                    importances,
                    Err(error),
                ));
                Err(error)
            },
            Ok(()) => {
                assert(host_filled(
                    kernels,
                    zeros,
                    floats.storage->Cpu_0,
                    importances,
                    Ok(storage),
                ));
                Ok(QTensor { storage, shape: src.shape.clone() })
            },
        }
    }

    /// Quantizes a tensor on the host into blocks on `dev`.
    pub fn quantize_onto<K: BlockKernels>(
        kernels: &K,
        src: &Tensor,
        dtype: GgmlDType,
        dev: &Device,
    ) -> (outcome: Result<QTensor, Error>)
        requires
            blocks_fit(src.shape@, dtype),
        ensures
            src.storage.spec_device() != Device::Cpu ==> error::fails_with(
                outcome,
                onto_text(src.storage.spec_device()),
            ),
            src.storage.spec_device() == Device::Cpu ==> quantized_onto(
                kernels,
                *src,
                dtype,
                *dev,
                outcome,
            ),
            outcome is Ok ==> {
                &&& outcome->Ok_0.wf()
                &&& outcome->Ok_0.spec_storage().spec_dtype() == dtype
                &&& outcome->Ok_0@ == src.shape@
            },
    {
        if !src.device().is_cpu() {
            return Err(onto_error(src.device()));
        }
        match check_shape(&src.shape, dtype.block_size()) {
            Err(error) => return Err(error),
            Ok(()) => {},
        }
        let floats = match src.to_dtype(kernels, DType::F32) {
            Err(error) => return Err(error),
            Ok(floats) => floats,
        };
        let elem_count: usize = src.shape.elem_count();
        let mut storage = match dev.qzeros(elem_count, dtype) {
            Err(error) => return Err(error),
            Ok(storage) => storage,
        };
        let ghost zeros = storage->Cpu_0;
        let filled = storage.quantize_onto(kernels, &floats.storage);
        match filled {
            Err(error) => {
                assert(!dtype.is_raw() ==> host_filled(
                    kernels,
                    zeros,
                    floats.storage->Cpu_0,
                    None,
                    Err(error),
                ));
                Err(error)
            },
            Ok(()) => {
                assert(host_filled(kernels, zeros, floats.storage->Cpu_0, None, Ok(storage)));
                Ok(QTensor { storage, shape: src.shape.clone() })
            },
        }
    }

    /// The extents and the element type, as they are printed.
    pub fn text(&self) -> (text: String)
        ensures
            text@ == "QTensor["@ + text::decimal_list(self@) + "; "@
                + self.spec_storage().spec_dtype().spec_name() + "]"@,
    {
        let mut text = "QTensor[".to_owned();
        text.append(self.shape.text().as_str());
        text.append("; ");
        text.append(self.storage.dtype().name());
        text.append("]");
        text
    }

    /// The element type.
    pub fn dtype(&self) -> (dtype: GgmlDType)
        ensures
            dtype == self.spec_storage().spec_dtype(),
    {
        self.storage.dtype()
    }

    /// Where the blocks are.
    pub fn device(&self) -> (device: Device)
        ensures
            device == self.spec_storage().spec_device(),
    {
        self.storage.device()
    }

    /// The number of dimensions.
    pub fn rank(&self) -> (rank: usize)
        ensures
            rank == self@.len(),
    {
        self.shape.rank()
    }

    /// The extents.
    pub fn shape(&self) -> (shape: &Shape)
        ensures
            shape@ == self@,
    {
        &self.shape
    }

    /// The blocks.
    pub fn storage(&self) -> (storage: &QStorage)
        ensures
            *storage == self.spec_storage(),
    {
        &self.storage
    }

    /// The values as F32, on `device`.
    pub fn dequantize<K: BlockKernels>(&self, kernels: &K, device: &Device) -> (outcome: Result<
        Tensor,
        Error,
    >)
        requires
            shape::elements_fit(self@),
        ensures
            dequantized(kernels, *self, *device, outcome),
    {
        let elem_count: usize = self.shape.elem_count();
        assert(elem_count == shape::elements(self@) as usize);
        let values = self.storage.dequantize(kernels, elem_count);
        match values {
            Err(error) => Err(error),
            Ok(storage) => Tensor::from_storage(storage, self.shape.clone()).to_device(device),
        }
    }

    /// The values as F16, on `device`.
    pub fn dequantize_f16<K: BlockKernels>(&self, kernels: &K, device: &Device) -> (outcome: Result<
        Tensor,
        Error,
    >)
        requires
            shape::elements_fit(self@),
        ensures
            dequantized_f16(kernels, *self, *device, outcome),
    {
        let floats = self.dequantize(kernels, device);
        match floats {
            Err(error) => Err(error),
            Ok(values) => values.to_dtype(kernels, DType::F16),
        }
    }

    /// The rows that the ids name, in the shape of the ids with one more
    /// dimension for the row.
    pub fn embedding<K: BlockKernels>(&self, kernels: &K, ids: &Tensor) -> (outcome: Result<
        Tensor,
        Error,
    >)
        requires
            self.wf(),
            shape::elements_fit(self@),
        ensures
            tensor_embedded(kernels, *self, *ids, outcome),
    {
        let (rows, hidden): (usize, usize) = match self.shape.dims2() {
            Err(error) => return Err(error),
            Ok(pair) => pair,
        };
        let mut out_shape: Vec<usize> = ids.shape.clone().into_dims();
        out_shape.push(hidden);
        let device = self.device();
        let moved = ids.to_device(&device);
        let local = match moved {
            Err(error) => return Err(error),
            Ok(local) => local,
        };
        let converted = local.to_dtype(kernels, DType::U32);
        let list = match converted {
            Err(error) => return Err(error),
            Ok(list) => list,
        };
        match &self.storage {
            QStorage::Cpu(blocks) => match list.storage {
                Storage::Cpu(CpuStorage::U32(numbers)) => {
                    proof {
                        lemma_row_blocks_fit(self@, blocks.dtype);
                    }
                    let values = blocks.embedding(kernels, &numbers, rows, hidden);
                    match values {
                        Err(error) => Err(error),
                        Ok(bits) => Ok(
                            Tensor::from_storage(
                                Storage::Cpu(CpuStorage::F32(bits)),
                                Shape::from_dims(out_shape),
                            ),
                        ),
                    }
                },
                _ => Err(error_text("unexpected storage")),
            },
            QStorage::CpuRaw(raw) => Err(
                error_text2("embedding is not implemented for ", raw.dtype().name()),
            ),
            QStorage::Metal(_) => Err(Error::NotCompiledWithMetalSupport),
            QStorage::Cuda(_) => Err(Error::NotCompiledWithCudaSupport),
        }
    }

    /// The number of bytes that the blocks take; none is at hand for a GPU
    /// without its runtime.
    pub fn storage_size_in_bytes(&self) -> (size: usize)
        ensures
            size == self.spec_storage().spec_data().len(),
    {
        self.storage.size_in_bytes()
    }

    /// The bytes of the blocks.
    pub fn data(&self) -> (outcome: Result<&[u8], Error>)
        ensures
            storage::bytes_read(self.spec_storage(), outcome),
    {
        self.storage.data()
    }

    /// The product with the experts that the ids name, which is there for CUDA
    /// devices only and needs their runtime.
    pub fn indexed_moe_forward(&self, x: &Tensor, ids: &Tensor) -> (outcome: Result<Tensor, Error>)
        requires
            self.spec_storage() is Cuda,
            x.storage is Cuda,
            ids.storage is Cuda,
        ensures
            outcome == Err::<Tensor, Error>(Error::NotCompiledWithCudaSupport),
    {
        Err(Error::NotCompiledWithCudaSupport)
    }

    /// The address of the blocks on a CUDA device, which needs its runtime.
    pub fn device_ptr(&self) -> (outcome: Result<usize, Error>)
        ensures
            self.spec_storage() is Cuda ==> outcome == Err::<usize, Error>(
                Error::NotCompiledWithCudaSupport,
            ),
            !(self.spec_storage() is Cuda) ==> error::fails_with(outcome, "not implemented"@),
    {
        self.storage.device_ptr()
    }
}

/// An error that names the number of importances and of columns.
fn imatrix_error(got: usize, width: usize) -> (error: Error)
    ensures
        error.says(imatrix_text(got as nat, width)),
{
    error_text4(
        "imatrix weights must have the same length ",
        decimal_text(got as u64).as_str(),
        " as the last dim of src ",
        decimal_text(width as u64).as_str(),
    )
}

/// An error that names where the values are.
fn onto_error(device: Device) -> (error: Error)
    ensures
        error.says(onto_text(device)),
{
    error_text3(
        "`quantize_onto` expects a `src` to be on the cpu, got ",
        device.text().as_str(),
        ".",
    )
}

/// The number of blocks in a matrix can be counted where its elements can.
proof fn lemma_row_blocks_fit(dims: Seq<usize>, dtype: GgmlDType)
    requires
        dims.len() == 2,
        shape::elements_fit(dims),
    ensures
        dims[0] * (dims[1] as nat / dtype.spec_block_size() as nat) <= usize::MAX,
{
    let block_size = dtype.spec_block_size() as int;
    let per_row = dims[1] as int / block_size;
    assert(dims.take(2) =~= dims);
    assert(shape::elements(dims.take(2)) <= usize::MAX);
    assert(dims.drop_last() =~= seq![dims[0]]);
    assert(dims.drop_last().drop_last() =~= Seq::<usize>::empty());
    let none = shape::elements(dims.drop_last().drop_last());
    assert(none * dims[0] as nat == dims[0]) by (nonlinear_arith)
        requires
            none == 1,
    ;
    assert(shape::elements(dims.drop_last()) == none * dims.drop_last().last() as nat);
    assert(shape::elements(dims) == dims[0] as nat * dims[1] as nat);
    lemma_fundamental_div_mod(dims[1] as int, block_size);
    assert(per_row <= dims[1]) by (nonlinear_arith)
        requires
            dims[1] as int == block_size * per_row + dims[1] as int % block_size,
            0 <= dims[1] as int % block_size,
            block_size >= 1,
            per_row >= 0,
    ;
    assert(dims[0] * per_row <= dims[0] * dims[1]) by (nonlinear_arith)
        requires
            per_row <= dims[1],
    ;
}

/// A shape with rows of whole blocks holds a whole number of blocks.
pub proof fn law_rows_of_blocks_are_whole_blocks(dims: Seq<usize>, block_size: nat)
    requires
        block_size > 0,
        rows_of_blocks(dims, block_size),
    ensures
        shape::elements(dims) % block_size == 0,
{
    let rows = shape::elements(dims.drop_last());
    let width = dims.last() as nat;
    lemma_fundamental_div_mod(width as int, block_size as int);
    let per_row = width as int / block_size as int;
    assert(rows * width == block_size * (rows * per_row)) by (nonlinear_arith)
        requires
            width == block_size * per_row,
    ;
    assert(rows * per_row * block_size == block_size * (rows * per_row)) by (nonlinear_arith);
    lemma_fundamental_div_mod_converse(
        (rows * width) as int,
        block_size as int,
        rows * per_row,
        0,
    );
}

} // verus!
