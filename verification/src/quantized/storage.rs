//! Storage of quantized tensors.

use crate::cpu_storage::{CpuStorage, DType};
use crate::device::Device;
use crate::dtype::{GgmlDType, QK8_H};
use crate::error;
use crate::error::{error_text, error_text2, error_text5, Error};
use crate::quantized::kernels::BlockKernels;
use crate::quantized::raw;
use crate::quantized::raw::{
    raw_storage_from_data, raw_zero_storage, RawBlockStorage, RawQuantizedType,
};
use crate::tensor;
use crate::tensor::{unexpected_dtype, Storage};
use crate::text;
use crate::text::decimal_text;
use vstd::prelude::*;
use vstd::slice::slice_to_vec;

verus! {

/// Blocks that the host computes with.
#[derive(Debug)]
pub struct QuantizedBlocks {
    pub dtype: GgmlDType,
    pub data: Vec<u8>,
}

impl QuantizedBlocks {
    /// The bytes are whole blocks of a type that the host computes with.
    pub open spec fn wf(self) -> bool {
        &&& !self.dtype.is_raw()
        &&& self.data@.len() % self.dtype.spec_type_size() as nat == 0
    }
}

/// Blocks that know their own geometry.
pub trait QuantizedType: Send + Sync {
    /// The element type.
    spec fn spec_dtype(&self) -> GgmlDType;

    /// The bytes of the blocks.
    spec fn spec_data(&self) -> Seq<u8>;

    /// The element type.
    fn dtype(&self) -> (dtype: GgmlDType)
        ensures
            dtype == self.spec_dtype(),
    ;

    /// The number of elements in each block.
    fn block_size(&self) -> (size: usize)
        ensures
            size == self.spec_dtype().spec_block_size(),
    ;

    /// The number of bytes that the blocks take.
    fn storage_size_in_bytes(&self) -> (size: usize)
        ensures
            size == self.spec_data().len(),
    ;

    /// The number of bytes that the blocks take.
    fn size(&self) -> (size: usize)
        ensures
            size == self.spec_data().len(),
    ;
}

impl QuantizedType for QuantizedBlocks {
    open spec fn spec_dtype(&self) -> GgmlDType {
        self.dtype
    }

    open spec fn spec_data(&self) -> Seq<u8> {
        self.data@
    }

    fn dtype(&self) -> (dtype: GgmlDType) {
        self.dtype
    }

    fn block_size(&self) -> (size: usize) {
        self.dtype.block_size()
    }

    fn storage_size_in_bytes(&self) -> (size: usize) {
        self.data.len()
    }

    fn size(&self) -> (size: usize) {
        self.data.len()
    }
}

/// Blocks of the Q8_H family on the host.
#[derive(Debug)]
pub enum RawStorage {
    H1(RawBlockStorage<44>),
    HP1(RawBlockStorage<40>),
}

impl RawStorage {
    /// The element type.
    pub open spec fn spec_dtype(self) -> GgmlDType {
        match self {
            RawStorage::H1(storage) => storage.spec_dtype(),
            RawStorage::HP1(storage) => storage.spec_dtype(),
        }
    }

    /// The number of elements in each block.
    pub open spec fn spec_block_size(self) -> usize {
        match self {
            RawStorage::H1(storage) => storage.spec_block_size(),
            RawStorage::HP1(storage) => storage.spec_block_size(),
        }
    }

    /// The bytes of the blocks.
    pub open spec fn spec_data(self) -> Seq<u8> {
        match self {
            RawStorage::H1(storage) => storage.spec_data(),
            RawStorage::HP1(storage) => storage.spec_data(),
        }
    }

    /// The element type and the number of elements are those of the blocks.
    pub open spec fn wf(self) -> bool {
        match self {
            RawStorage::H1(storage) => storage.spec_dtype() == GgmlDType::Q8H1
                && storage.spec_block_size() == QK8_H,
            RawStorage::HP1(storage) => storage.spec_dtype() == GgmlDType::Q8HP1
                && storage.spec_block_size() == QK8_H,
        }
    }

    /// The element type.
    pub fn dtype(&self) -> (dtype: GgmlDType)
        ensures
            dtype == self.spec_dtype(),
    {
        match self {
            RawStorage::H1(storage) => storage.dtype(),
            RawStorage::HP1(storage) => storage.dtype(),
        }
    }

    /// The number of elements in each block.
    pub fn block_size(&self) -> (size: usize)
        ensures
            size == self.spec_block_size(),
    {
        match self {
            RawStorage::H1(storage) => storage.block_size(),
            RawStorage::HP1(storage) => storage.block_size(),
        }
    }

    /// The bytes of the blocks.
    pub fn data(&self) -> (data: &[u8])
        ensures
            data@ == self.spec_data(),
    {
        match self {
            RawStorage::H1(storage) => storage.data(),
            RawStorage::HP1(storage) => storage.data(),
        }
    }
}

/// Blocks on a GPU. Without its runtime nothing of them can be read.
#[derive(Debug)]
pub struct GpuStorage {
    pub dtype: GgmlDType,
    pub gpu_id: usize,
}

/// The blocks of a quantized tensor on their device.
#[derive(Debug)]
pub enum QStorage {
    Cpu(QuantizedBlocks),
    CpuRaw(RawStorage),
    Metal(GpuStorage),
    Cuda(GpuStorage),
}

/// The number of bytes that the blocks of `elem_count` elements take.
pub open spec fn blocks_len(dtype: GgmlDType, elem_count: nat) -> nat {
    (elem_count / dtype.spec_block_size() as nat) * dtype.spec_type_size() as nat
}

/// What a caller prints when quantized blocks are asked of an AQuA device.
pub open spec fn aqua_text() -> Seq<char> {
    "quantized storage is not supported on Aqua devices"@
}

/// Storage on the host holds the given bytes as blocks of `dtype`.
pub open spec fn holds(storage: QStorage, dtype: GgmlDType, data: Seq<u8>) -> bool {
    &&& storage.wf()
    &&& storage.on_host()
    &&& storage.spec_dtype() == dtype
    &&& storage.spec_data() == data
}

/// What `from_data` does with bytes for the host: it keeps whole blocks, and
/// refuses other lengths.
pub open spec fn host_stored(
    data: Seq<u8>,
    dtype: GgmlDType,
    outcome: Result<QStorage, Error>,
) -> bool {
    if data.len() % dtype.spec_type_size() as nat == 0 {
        outcome is Ok && holds(outcome->Ok_0, dtype, data)
    } else {
        error::fails_with(
            outcome,
            raw::raw_length_text(dtype, data.len(), dtype.spec_type_size() as nat),
        )
    }
}

/// What `data` returns.
pub open spec fn bytes_read(storage: QStorage, outcome: Result<&[u8], Error>) -> bool {
    match storage {
        QStorage::Cpu(_) | QStorage::CpuRaw(_) => outcome is Ok && outcome->Ok_0@
            == storage.spec_data(),
        QStorage::Cuda(_) => outcome == Err::<&[u8], Error>(Error::NotCompiledWithCudaSupport),
        QStorage::Metal(_) => outcome == Err::<&[u8], Error>(Error::NotCompiledWithMetalSupport),
    }
}

/// The bytes of zeroed blocks for `elem_count` elements.
pub open spec fn zero_bytes(dtype: GgmlDType, elem_count: nat) -> Seq<u8> {
    Seq::new(blocks_len(dtype, elem_count), |i: int| 0u8)
}

impl GgmlDType {
    /// Zeroed blocks for `elem_count` elements on the host.
    pub fn cpu_zeros(&self, elem_count: usize) -> (storage: QStorage)
        requires
            blocks_len(*self, elem_count as nat) <= usize::MAX,
        ensures
            holds(storage, *self, zero_bytes(*self, elem_count as nat)),
    {
        match self {
            GgmlDType::Q8H1 => QStorage::CpuRaw(
                RawStorage::H1(raw_zero_storage::<44>(elem_count / QK8_H, *self, QK8_H)),
            ),
            GgmlDType::Q8HP1 => QStorage::CpuRaw(
                RawStorage::HP1(raw_zero_storage::<40>(elem_count / QK8_H, *self, QK8_H)),
            ),
            _ => {
                let count: usize = elem_count / self.block_size();
                let size: usize = self.type_size();
                let data: Vec<u8> = vec![0u8; count * size];
                proof {
                    assert((count * size) as nat % size as nat == 0) by (nonlinear_arith)
                        requires
                            size > 0,
                    ;
                }
                assert(data@ =~= zero_bytes(*self, elem_count as nat));
                QStorage::Cpu(QuantizedBlocks { dtype: *self, data })
            },
        }
    }

    /// Host blocks that hold a copy of the given bytes.
    pub fn from_data(&self, data: &[u8]) -> (outcome: Result<QStorage, Error>)
        requires
            !self.is_raw() ==> data@.len() % self.spec_type_size() as nat == 0,
        ensures
            host_stored(data@, *self, outcome),
    {
        match self {
            GgmlDType::Q8H1 => match raw_storage_from_data::<44>(data, *self, QK8_H) {
                Ok(storage) => Ok(QStorage::CpuRaw(RawStorage::H1(storage))),
                Err(error) => Err(error),
            },
            GgmlDType::Q8HP1 => match raw_storage_from_data::<40>(data, *self, QK8_H) {
                Ok(storage) => Ok(QStorage::CpuRaw(RawStorage::HP1(storage))),
                Err(error) => Err(error),
            },
            _ => {
                let copy = slice_to_vec(data);
                Ok(QStorage::Cpu(QuantizedBlocks { dtype: *self, data: copy }))
            },
        }
    }
}

impl Device {
    /// Zeroed blocks for `elem_count` elements on this device.
    pub fn qzeros(&self, elem_count: usize, dtype: GgmlDType) -> (outcome: Result<QStorage, Error>)
        requires
            *self is Cpu ==> blocks_len(dtype, elem_count as nat) <= usize::MAX,
        ensures
            *self is Cpu ==> outcome is Ok && holds(
                outcome->Ok_0,
                dtype,
                zero_bytes(dtype, elem_count as nat),
            ),
            *self is Metal ==> outcome == Err::<QStorage, Error>(Error::NotCompiledWithMetalSupport),
            *self is Cuda ==> outcome == Err::<QStorage, Error>(Error::NotCompiledWithCudaSupport),
            *self is Aqua ==> error::fails_with(outcome, aqua_text()),
    {
        match self {
            Device::Cpu => Ok(dtype.cpu_zeros(elem_count)),
            Device::Metal { .. } => Err(Error::NotCompiledWithMetalSupport),
            Device::Cuda { .. } => Err(Error::NotCompiledWithCudaSupport),
            Device::Aqua(_) => Err(
                error_text("quantized storage is not supported on Aqua devices"),
            ),
        }
    }
}

/// What a caller prints when a kernel returns a buffer of another length than
/// the one that it was handed.
pub open spec fn kernel_length_text(dtype: GgmlDType, got: nat, expected: nat) -> Seq<char> {
    dtype.spec_name() + " kernel filled "@ + text::decimal(got) + " entries, expected "@
        + text::decimal(expected)
}

/// An error that names a kernel's buffer length and the expected one.
pub fn kernel_length_error(dtype: GgmlDType, got: usize, expected: usize) -> (error: Error)
    ensures
        error.says(kernel_length_text(dtype, got as nat, expected as nat)),
{
    error_text5(
        dtype.name(),
        " kernel filled ",
        decimal_text(got as u64).as_str(),
        " entries, expected ",
        decimal_text(expected as u64).as_str(),
    )
}

/// The blocks after a kernel filled them: the kernel's bytes where it kept
/// their number, else the blocks as they were and an error.
pub open spec fn blocks_filled(
    before: QuantizedBlocks,
    answer: Result<Vec<u8>, Error>,
    after: QStorage,
    outcome: Result<(), Error>,
) -> bool {
    match answer {
        Err(error) => {
            &&& after == QStorage::Cpu(before)
            &&& outcome == Err::<(), Error>(error)
        },
        Ok(filled) => if filled@.len() == before.data@.len() {
            &&& outcome is Ok
            &&& after is Cpu
            &&& after->Cpu_0.dtype == before.dtype
            &&& after->Cpu_0.data@ == filled@
        } else {
            &&& after == QStorage::Cpu(before)
            &&& error::fails_with(
                outcome,
                kernel_length_text(before.dtype, filled@.len(), before.data@.len()),
            )
        },
    }
}

/// What `quantize` and `quantize_onto` do with host values and host blocks.
pub open spec fn host_quantized<K: BlockKernels>(
    kernels: &K,
    before: QuantizedBlocks,
    src: CpuStorage,
    after: QStorage,
    outcome: Result<(), Error>,
) -> bool {
    match src {
        CpuStorage::F32(values) => exists|filled: Result<Vec<u8>, Error>| #[trigger]
            call_ensures(K::from_float, (kernels, before.dtype, &values, &before.data), filled)
                && blocks_filled(before, filled, after, outcome),
        _ => {
            &&& after == QStorage::Cpu(before)
            &&& error::fails_with(
                outcome,
                tensor::unexpected_dtype_text(DType::F32, src.spec_dtype()),
            )
        },
    }
}

/// What `quantize_imatrix` and `quantize_imatrix_onto` do with host values and
/// host blocks.
pub open spec fn host_quantized_imatrix<K: BlockKernels>(
    kernels: &K,
    before: QuantizedBlocks,
    src: CpuStorage,
    weights: &Vec<u32>,
    n_per_row: usize,
    after: QStorage,
    outcome: Result<(), Error>,
) -> bool {
    match src {
        CpuStorage::F32(values) => exists|filled: Result<Vec<u8>, Error>| #[trigger]
            call_ensures(
                K::from_float_imatrix,
                (kernels, before.dtype, &values, weights, n_per_row, &before.data),
                filled,
            ) && blocks_filled(before, filled, after, outcome),
        _ => {
            &&& after == QStorage::Cpu(before)
            &&& error::fails_with(
                outcome,
                tensor::unexpected_dtype_text(DType::F32, src.spec_dtype()),
            )
        },
    }
}

/// What a caller prints when blocks cannot be read back as values.
pub open spec fn dequantize_text(dtype: GgmlDType) -> Seq<char> {
    "dequantization is not implemented for "@ + dtype.spec_name()
}

/// What `dequantize` returns for host blocks.
pub open spec fn host_dequantized<K: BlockKernels>(
    kernels: &K,
    blocks: QuantizedBlocks,
    elem_count: usize,
    outcome: Result<Storage, Error>,
) -> bool {
    exists|bytes: &[u8], zeros: Vec<u32>, values: Result<Vec<u32>, Error>|
        {
            &&& bytes@ == blocks.data@
            &&& zeros@ == Seq::new(elem_count as nat, |i: int| 0u32)
            &&& #[trigger] call_ensures(K::to_float, (kernels, blocks.dtype, bytes, zeros), values)
            &&& values_accepted(blocks.dtype, values, elem_count, outcome)
        }
}

/// A kernel's values are taken where it kept their number.
pub open spec fn values_accepted(
    dtype: GgmlDType,
    answer: Result<Vec<u32>, Error>,
    elem_count: usize,
    outcome: Result<Storage, Error>,
) -> bool {
    match answer {
        Err(error) => outcome == Err::<Storage, Error>(error),
        Ok(values) => if values@.len() == elem_count {
            outcome == Ok::<Storage, Error>(Storage::Cpu(CpuStorage::F32(values)))
        } else {
            error::fails_with(outcome, kernel_length_text(dtype, values@.len(), elem_count as nat))
        },
    }
}

/// A kernel's values as host storage, where it kept their number.
pub fn accept_values(
    dtype: GgmlDType,
    answer: Result<Vec<u32>, Error>,
    elem_count: usize,
) -> (outcome: Result<Storage, Error>)
    ensures
        values_accepted(dtype, answer, elem_count, outcome),
{
    let values: Vec<u32> = match answer {
        Err(error) => return Err(error),
        Ok(values) => values,
    };
    let got: usize = values.len();
    if got == elem_count {
        Ok(Storage::Cpu(CpuStorage::F32(values)))
    } else {
        Err(kernel_length_error(dtype, got, elem_count))
    }
}

impl QStorage {
    /// Host storage holds whole blocks of the type that it names.
    pub open spec fn wf(self) -> bool {
        match self {
            QStorage::Cpu(blocks) => blocks.wf(),
            QStorage::CpuRaw(raw) => raw.wf(),
            QStorage::Metal(_) => true,
            QStorage::Cuda(_) => true,
        }
    }

    /// The blocks are on the host; those of the Q8_H family are kept raw.
    pub open spec fn on_host(self) -> bool {
        match self {
            QStorage::Cpu(blocks) => !blocks.dtype.is_raw(),
            QStorage::CpuRaw(raw) => raw.spec_dtype().is_raw(),
            _ => false,
        }
    }

    /// The element type.
    pub open spec fn spec_dtype(self) -> GgmlDType {
        match self {
            QStorage::Cpu(blocks) => blocks.dtype,
            QStorage::CpuRaw(raw) => raw.spec_dtype(),
            QStorage::Metal(gpu) => gpu.dtype,
            QStorage::Cuda(gpu) => gpu.dtype,
        }
    }

    /// The bytes of blocks on the host.
    pub open spec fn spec_data(self) -> Seq<u8> {
        match self {
            QStorage::Cpu(blocks) => blocks.data@,
            QStorage::CpuRaw(raw) => raw.spec_data(),
            QStorage::Metal(_) => Seq::empty(),
            QStorage::Cuda(_) => Seq::empty(),
        }
    }

    /// Where the blocks are.
    pub open spec fn spec_device(self) -> Device {
        match self {
            QStorage::Cpu(_) => Device::Cpu,
            QStorage::CpuRaw(_) => Device::Cpu,
            QStorage::Metal(gpu) => Device::Metal { gpu_id: gpu.gpu_id },
            QStorage::Cuda(gpu) => Device::Cuda { gpu_id: gpu.gpu_id },
        }
    }

    /// Storage on `device` that holds a copy of the given bytes.
    pub fn from_data(data: &[u8], device: &Device, dtype: GgmlDType) -> (outcome: Result<
        QStorage,
        Error,
    >)
        requires
            !(*device is Aqua) && !dtype.is_raw() ==> data@.len() % dtype.spec_type_size() as nat == 0,
        ensures
            *device is Cpu ==> host_stored(data@, dtype, outcome),
            *device is Metal && !dtype.is_raw() ==> outcome == Err::<QStorage, Error>(
                Error::NotCompiledWithMetalSupport,
            ),
            *device is Metal && dtype.is_raw() ==> error::fails_with(
                outcome,
                dtype.spec_name() + " raw storage is not supported on Metal"@,
            ),
            *device is Cuda && !dtype.is_raw() ==> outcome == Err::<QStorage, Error>(
                Error::NotCompiledWithCudaSupport,
            ),
            *device is Cuda && dtype.is_raw() ==> error::fails_with(
                outcome,
                dtype.spec_name() + " raw storage is not supported on CUDA"@,
            ),
            *device is Aqua ==> error::fails_with(outcome, aqua_text()),
    {
        match device {
            Device::Cpu => dtype.from_data(data),
            Device::Metal { .. } => match dtype {
                GgmlDType::Q8H1 | GgmlDType::Q8HP1 => Err(
                    error_text2(dtype.name(), " raw storage is not supported on Metal"),
                ),
                _ => Err(Error::NotCompiledWithMetalSupport),
            },
            Device::Cuda { .. } => match dtype {
                GgmlDType::Q8H1 | GgmlDType::Q8HP1 => Err(
                    error_text2(dtype.name(), " raw storage is not supported on CUDA"),
                ),
                _ => Err(Error::NotCompiledWithCudaSupport),
            },
            Device::Aqua(_) => Err(
                error_text("quantized storage is not supported on Aqua devices"),
            ),
        }
    }

    /// The number of elements in each block.
    pub fn block_size(&self) -> (size: usize)
        requires
            self.wf(),
        ensures
            size == self.spec_dtype().spec_block_size(),
    {
        match self {
            QStorage::Cpu(blocks) => blocks.block_size(),
            QStorage::CpuRaw(raw) => raw.block_size(),
            QStorage::Metal(gpu) => gpu.dtype.block_size(),
            QStorage::Cuda(gpu) => gpu.dtype.block_size(),
        }
    }

    /// The element type.
    pub fn dtype(&self) -> (dtype: GgmlDType)
        ensures
            dtype == self.spec_dtype(),
    {
        match self {
            QStorage::Cpu(blocks) => blocks.dtype(),
            QStorage::CpuRaw(raw) => raw.dtype(),
            QStorage::Metal(gpu) => gpu.dtype,
            QStorage::Cuda(gpu) => gpu.dtype,
        }
    }

    /// Where the blocks are.
    pub fn device(&self) -> (device: Device)
        ensures
            device == self.spec_device(),
    {
        match self {
            QStorage::Cpu(_) => Device::Cpu,
            QStorage::CpuRaw(_) => Device::Cpu,
            QStorage::Metal(gpu) => Device::Metal { gpu_id: gpu.gpu_id },
            QStorage::Cuda(gpu) => Device::Cuda { gpu_id: gpu.gpu_id },
        }
    }

    /// The number of bytes that the blocks take; none is at hand for a GPU
    /// without its runtime.
    pub fn size_in_bytes(&self) -> (size: usize)
        ensures
            size == self.spec_data().len(),
    {
        match self {
            QStorage::Cpu(blocks) => blocks.storage_size_in_bytes(),
            QStorage::CpuRaw(raw) => raw.data().len(),
            QStorage::Metal(_) => 0,
            QStorage::Cuda(_) => 0,
        }
    }

    /// Fills the blocks from values on the same device.
    pub fn quantize<K: BlockKernels>(&mut self, kernels: &K, src: &Storage) -> (outcome: Result<
        (),
        Error,
    >)
        ensures
            old(self).wf() ==> final(self).wf(),
            match (*old(self), *src) {
                (QStorage::Cpu(blocks), Storage::Cpu(values)) => host_quantized(
                    kernels,
                    blocks,
                    values,
                    *final(self),
                    outcome,
                ),
                (QStorage::Metal(_), Storage::Metal { .. }) => *final(self) == *old(self) && outcome
                    == Err::<(), Error>(Error::NotCompiledWithMetalSupport),
                (QStorage::Cuda(_), Storage::Cuda { .. }) => *final(self) == *old(self) && outcome == Err::<
                    (),
                    Error,
                >(Error::NotCompiledWithCudaSupport),
                _ => *final(self) == *old(self) && error::fails_with(
                    outcome,
                    "Invalid quantize storage locations do not match"@,
                ),
            },
    {
        match (&*self, src) {
            (QStorage::Cpu(blocks), Storage::Cpu(values)) => {
                match fill_from_float(kernels, blocks, values) {
                    Ok(filled) => {
                        *self = filled;
                        Ok(())
                    },
                    Err(error) => Err(error),
                }
            },
            (QStorage::Metal(_), Storage::Metal { .. }) => Err(Error::NotCompiledWithMetalSupport),
            (QStorage::Cuda(_), Storage::Cuda { .. }) => Err(Error::NotCompiledWithCudaSupport),
            _ => Err(error_text("Invalid quantize storage locations do not match")),
        }
    }

    /// Fills the blocks from values on the same device, with one importance
    /// for each column of a row.
    pub fn quantize_imatrix<K: BlockKernels>(
        &mut self,
        kernels: &K,
        src: &Storage,
        imatrix_weights: &Vec<u32>,
        n_per_row: usize,
    ) -> (outcome: Result<(), Error>)
        ensures
            old(self).wf() ==> final(self).wf(),
            match (*old(self), *src) {
                (QStorage::Cpu(blocks), Storage::Cpu(values)) => host_quantized_imatrix(
                    kernels,
                    blocks,
                    values,
                    imatrix_weights,
                    n_per_row,
                    *final(self),
                    outcome,
                ),
                (QStorage::Metal(_), Storage::Metal { .. }) => *final(self) == *old(self) && outcome
                    == Err::<(), Error>(Error::NotCompiledWithMetalSupport),
                (QStorage::Cuda(_), Storage::Cuda { .. }) => *final(self) == *old(self) && outcome == Err::<
                    (),
                    Error,
                >(Error::NotCompiledWithCudaSupport),
                _ => *final(self) == *old(self) && error::fails_with(
                    outcome,
                    "Invalid quantize storage locations do not match"@,
                ),
            },
    {
        match (&*self, src) {
            (QStorage::Cpu(blocks), Storage::Cpu(values)) => {
                match fill_from_float_imatrix(kernels, blocks, values, imatrix_weights, n_per_row) {
                    Ok(filled) => {
                        *self = filled;
                        Ok(())
                    },
                    Err(error) => Err(error),
                }
            },
            (QStorage::Metal(_), Storage::Metal { .. }) => Err(Error::NotCompiledWithMetalSupport),
            (QStorage::Cuda(_), Storage::Cuda { .. }) => Err(Error::NotCompiledWithCudaSupport),
            _ => Err(error_text("Invalid quantize storage locations do not match")),
        }
    }

    /// Fills the blocks from values on the host.
    pub fn quantize_onto<K: BlockKernels>(&mut self, kernels: &K, src: &Storage) -> (outcome: Result<
        (),
        Error,
    >)
        ensures
            old(self).wf() ==> final(self).wf(),
            match (*old(self), *src) {
                (QStorage::Cpu(blocks), Storage::Cpu(values)) => host_quantized(
                    kernels,
                    blocks,
                    values,
                    *final(self),
                    outcome,
                ),
                (QStorage::Metal(_), Storage::Cpu(_)) => *final(self) == *old(self) && outcome == Err::<
                    (),
                    Error,
                >(Error::NotCompiledWithMetalSupport),
                (QStorage::Cuda(_), Storage::Cpu(_)) => *final(self) == *old(self) && outcome == Err::<
                    (),
                    Error,
                >(Error::NotCompiledWithCudaSupport),
                _ => *final(self) == *old(self) && error::fails_with(
                    outcome,
                    "Invalid quantize source storage locations: not on cpu"@,
                ),
            },
    {
        match (&*self, src) {
            (QStorage::Cpu(blocks), Storage::Cpu(values)) => {
                match fill_from_float(kernels, blocks, values) {
                    Ok(filled) => {
                        *self = filled;
                        Ok(())
                    },
                    Err(error) => Err(error),
                }
            },
            (QStorage::Metal(_), Storage::Cpu(_)) => Err(Error::NotCompiledWithMetalSupport),
            (QStorage::Cuda(_), Storage::Cpu(_)) => Err(Error::NotCompiledWithCudaSupport),
            _ => Err(error_text("Invalid quantize source storage locations: not on cpu")),
        }
    }

    /// Fills the blocks from values on the host, with one importance for each
    /// column of a row.
    pub fn quantize_imatrix_onto<K: BlockKernels>(
        &mut self,
        kernels: &K,
        src: &Storage,
        imatrix_weights: &Vec<u32>,
        n_per_row: usize,
    ) -> (outcome: Result<(), Error>)
        ensures
            old(self).wf() ==> final(self).wf(),
            match (*old(self), *src) {
                (QStorage::Cpu(blocks), Storage::Cpu(values)) => host_quantized_imatrix(
                    kernels,
                    blocks,
                    values,
                    imatrix_weights,
                    n_per_row,
                    *final(self),
                    outcome,
                ),
                (QStorage::Metal(_), Storage::Cpu(_)) => *final(self) == *old(self) && outcome == Err::<
                    (),
                    Error,
                >(Error::NotCompiledWithMetalSupport),
                (QStorage::Cuda(_), Storage::Cpu(_)) => *final(self) == *old(self) && outcome == Err::<
                    (),
                    Error,
                >(Error::NotCompiledWithCudaSupport),
                _ => *final(self) == *old(self) && error::fails_with(
                    outcome,
                    "Invalid quantize storage locations do not match"@,
                ),
            },
    {
        match (&*self, src) {
            (QStorage::Cpu(blocks), Storage::Cpu(values)) => {
                match fill_from_float_imatrix(kernels, blocks, values, imatrix_weights, n_per_row) {
                    Ok(filled) => {
                        *self = filled;
                        Ok(())
                    },
                    Err(error) => Err(error),
                }
            },
            (QStorage::Metal(_), Storage::Cpu(_)) => Err(Error::NotCompiledWithMetalSupport),
            (QStorage::Cuda(_), Storage::Cpu(_)) => Err(Error::NotCompiledWithCudaSupport),
            _ => Err(error_text("Invalid quantize storage locations do not match")),
        }
    }

    /// The values of the blocks.
    pub fn dequantize<K: BlockKernels>(&self, kernels: &K, elem_count: usize) -> (outcome: Result<
        Storage,
        Error,
    >)
        ensures
            match *self {
                QStorage::Cpu(blocks) => host_dequantized(kernels, blocks, elem_count, outcome),
                QStorage::CpuRaw(raw) => error::fails_with(outcome, dequantize_text(raw.spec_dtype())),
                QStorage::Metal(_) => outcome == Err::<Storage, Error>(
                    Error::NotCompiledWithMetalSupport,
                ),
                QStorage::Cuda(_) => outcome == Err::<Storage, Error>(
                    Error::NotCompiledWithCudaSupport,
                ),
            },
    {
        match self {
            QStorage::Cpu(blocks) => {
                let zeros: Vec<u32> = vec![0u32; elem_count];
                assert(zeros@ =~= Seq::new(elem_count as nat, |i: int| 0u32));
                let values = kernels.to_float(blocks.dtype, blocks.data.as_slice(), zeros);
                accept_values(blocks.dtype, values, elem_count)
            },
            QStorage::CpuRaw(raw) => Err(
                error_text2("dequantization is not implemented for ", raw.dtype().name()),
            ),
            QStorage::Metal(_) => Err(Error::NotCompiledWithMetalSupport),
            QStorage::Cuda(_) => Err(Error::NotCompiledWithCudaSupport),
        }
    }

    /// The bytes of the blocks.
    pub fn data(&self) -> (outcome: Result<&[u8], Error>)
        ensures
            bytes_read(*self, outcome),
    {
        match self {
            QStorage::Cpu(blocks) => Ok(blocks.data.as_slice()),
            QStorage::CpuRaw(raw) => Ok(raw.data()),
            QStorage::Cuda(_) => Err(Error::NotCompiledWithCudaSupport),
            QStorage::Metal(_) => Err(Error::NotCompiledWithMetalSupport),
        }
    }

    /// The address of the blocks on a CUDA device, which needs its runtime.
    pub fn device_ptr(&self) -> (outcome: Result<usize, Error>)
        ensures
            *self is Cuda ==> outcome == Err::<usize, Error>(Error::NotCompiledWithCudaSupport),
            !(*self is Cuda) ==> error::fails_with(outcome, "not implemented"@),
    {
        match self {
            QStorage::Cuda(_) => Err(Error::NotCompiledWithCudaSupport),
            _ => Err(error_text("not implemented")),
        }
    }
}

/// Host blocks filled from host values.
fn fill_from_float<K: BlockKernels>(
    kernels: &K,
    blocks: &QuantizedBlocks,
    src: &CpuStorage,
) -> (outcome: Result<QStorage, Error>)
    ensures
        match outcome {
            Ok(after) => host_quantized(kernels, *blocks, *src, after, Ok(())),
            Err(error) => host_quantized(kernels, *blocks, *src, QStorage::Cpu(*blocks), Err(error)),
        },
{
    match src {
        CpuStorage::F32(values) => {
            let filled = kernels.from_float(blocks.dtype, values, &blocks.data);
            accept_blocks(blocks, filled)
        },
        _ => Err(unexpected_dtype(DType::F32, src.dtype())),
    }
}

/// Host blocks filled from host values with importances.
fn fill_from_float_imatrix<K: BlockKernels>(
    kernels: &K,
    blocks: &QuantizedBlocks,
    src: &CpuStorage,
    weights: &Vec<u32>,
    n_per_row: usize,
) -> (outcome: Result<QStorage, Error>)
    ensures
        match outcome {
            Ok(after) => host_quantized_imatrix(
                kernels,
                *blocks,
                *src,
                weights,
                n_per_row,
                after,
                Ok(()),
            ),
            Err(error) => host_quantized_imatrix(
                kernels,
                *blocks,
                *src,
                weights,
                n_per_row,
                QStorage::Cpu(*blocks),
                Err(error),
            ),
        },
{
    match src {
        CpuStorage::F32(values) => {
            let filled = kernels.from_float_imatrix(
                blocks.dtype,
                values,
                weights,
                n_per_row,
                &blocks.data,
            );
            accept_blocks(blocks, filled)
        },
        _ => Err(unexpected_dtype(DType::F32, src.dtype())),
    }
}

/// The kernel's bytes as the new blocks, where it kept their number.
pub fn accept_blocks(blocks: &QuantizedBlocks, answer: Result<Vec<u8>, Error>) -> (outcome: Result<
    QStorage,
    Error,
>)
    ensures
        match outcome {
            Ok(after) => blocks_filled(*blocks, answer, after, Ok(())),
            Err(error) => blocks_filled(*blocks, answer, QStorage::Cpu(*blocks), Err(error)),
        },
{
    let filled: Vec<u8> = match answer {
        Err(error) => return Err(error),
        Ok(filled) => filled,
    };
    let got: usize = filled.len();
    let expected: usize = blocks.data.len();
    if got == expected {
        Ok(QStorage::Cpu(QuantizedBlocks { dtype: blocks.dtype, data: filled }))
    } else {
        Err(kernel_length_error(blocks.dtype, got, expected))
    }
}

/// Whole blocks of bytes that `from_data` put on the host come out of `data`
/// unchanged.
pub proof fn law_host_storage_keeps_bytes(
    data: Seq<u8>,
    dtype: GgmlDType,
    stored: Result<QStorage, Error>,
    read: Result<&[u8], Error>,
)
    requires
        data.len() % dtype.spec_type_size() as nat == 0,
        host_stored(data, dtype, stored),
        stored is Ok ==> bytes_read(stored->Ok_0, read),
    ensures
        stored is Ok,
        read is Ok,
        read->Ok_0@ == data,
{
}

} // verus!
