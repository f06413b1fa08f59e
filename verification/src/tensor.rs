//! Tensors whose elements stand row after row.

use crate::aqua_backend::{AquaDevice, AquaStorage, CpuFallbackAquaExecutor};
use crate::cpu_storage::{CpuStorage, DType};
use crate::device::Device;
use crate::error;
use crate::error::{error_text4, Error};
use crate::printing::write_text;
use crate::shape::Shape;
use crate::text;
use crate::text::{decimal_text, entries_text};
use vstd::prelude::*;

verus! {

/// A tensor's values on their device. Values on a GPU are out of reach
/// without its runtime; an AQuA device keeps them on the host.
#[derive(Debug)]
pub enum Storage {
    Cpu(CpuStorage),
    Cuda { gpu_id: usize, dtype: DType },
    Metal { gpu_id: usize, dtype: DType },
    Aqua(AquaStorage<CpuFallbackAquaExecutor>),
}

impl Storage {
    /// Where the values are.
    pub open spec fn spec_device(self) -> Device {
        match self {
            Storage::Cpu(_) => Device::Cpu,
            Storage::Cuda { gpu_id, .. } => Device::Cuda { gpu_id },
            Storage::Metal { gpu_id, .. } => Device::Metal { gpu_id },
            Storage::Aqua(aqua) => Device::Aqua(aqua.spec_device()),
        }
    }

    /// The element type.
    pub open spec fn spec_dtype(self) -> DType {
        match self {
            Storage::Cpu(cpu) => cpu.spec_dtype(),
            Storage::Cuda { dtype, .. } => dtype,
            Storage::Metal { dtype, .. } => dtype,
            Storage::Aqua(aqua) => aqua.spec_cpu().spec_dtype(),
        }
    }

    /// The number of entries that the host holds.
    pub open spec fn spec_len(self) -> nat {
        match self {
            Storage::Cpu(cpu) => cpu.spec_len(),
            Storage::Cuda { .. } => 0,
            Storage::Metal { .. } => 0,
            Storage::Aqua(aqua) => aqua.spec_cpu().spec_len(),
        }
    }

    /// Both hold the same entries on the same device.
    pub open spec fn same_values(self, other: Storage) -> bool {
        match (self, other) {
            (Storage::Cpu(a), Storage::Cpu(b)) => a.same_values(b),
            (Storage::Cuda { gpu_id: a, dtype: t }, Storage::Cuda { gpu_id: b, dtype: u }) => a == b
                && t == u,
            (Storage::Metal { gpu_id: a, dtype: t }, Storage::Metal { gpu_id: b, dtype: u }) => a == b
                && t == u,
            (Storage::Aqua(a), Storage::Aqua(b)) => a.spec_device() == b.spec_device()
                && a.spec_cpu().same_values(b.spec_cpu()),
            _ => false,
        }
    }

    /// Where the values are.
    pub fn device(&self) -> (device: Device)
        ensures
            device == self.spec_device(),
    {
        match self {
            Storage::Cpu(_) => Device::Cpu,
            Storage::Cuda { gpu_id, .. } => Device::Cuda { gpu_id: *gpu_id },
            Storage::Metal { gpu_id, .. } => Device::Metal { gpu_id: *gpu_id },
            Storage::Aqua(aqua) => Device::Aqua(aqua.device().clone()),
        }
    }

    /// The number of entries that the host holds.
    pub fn len(&self) -> (len: usize)
        ensures
            len == self.spec_len(),
    {
        match self {
            Storage::Cpu(cpu) => cpu.len(),
            Storage::Cuda { .. } => 0,
            Storage::Metal { .. } => 0,
            Storage::Aqua(aqua) => aqua.cpu_storage().len(),
        }
    }

    /// The element type.
    pub fn dtype(&self) -> (dtype: DType)
        ensures
            dtype == self.spec_dtype(),
    {
        match self {
            Storage::Cpu(cpu) => cpu.dtype(),
            Storage::Cuda { dtype, .. } => *dtype,
            Storage::Metal { dtype, .. } => *dtype,
            Storage::Aqua(aqua) => aqua.dtype(),
        }
    }
}

impl Clone for Storage {
    fn clone(&self) -> (copy: Storage)
        ensures
            copy.same_values(*self),
    {
        match self {
            Storage::Cpu(cpu) => Storage::Cpu(cpu.clone()),
            Storage::Cuda { gpu_id, dtype } => Storage::Cuda { gpu_id: *gpu_id, dtype: *dtype },
            Storage::Metal { gpu_id, dtype } => Storage::Metal { gpu_id: *gpu_id, dtype: *dtype },
            Storage::Aqua(aqua) => Storage::Aqua(aqua.clone()),
        }
    }
}

/// Changes between the element types, entry by entry.
pub trait Conversion {
    /// The values in another element type.
    fn to_dtype(&self, values: &CpuStorage, dtype: DType) -> Result<CpuStorage, Error>;
}

/// What a caller prints when values come back in another type than asked for.
pub open spec fn unexpected_dtype_text(expected: DType, got: DType) -> Seq<char> {
    "unexpected dtype, expected: "@ + expected.spec_name() + ", got: "@ + got.spec_name()
}

/// An error that names the expected and the given element type.
pub fn unexpected_dtype(expected: DType, got: DType) -> (error: Error)
    ensures
        error.says(unexpected_dtype_text(expected, got)),
{
    error_text4("unexpected dtype, expected: ", expected.name(), ", got: ", got.name())
}

/// What a caller prints when a conversion changes the number of values.
pub open spec fn conversion_text(got: nat, expected: nat) -> Seq<char> {
    "conversion gave "@ + text::decimal(got) + " values, expected "@ + text::decimal(expected)
}

/// Host values in the element type `dtype`: the same values where they have it
/// already, else what the conversion makes of them.
pub open spec fn converted<C: Conversion>(
    conversion: &C,
    values: CpuStorage,
    dtype: DType,
    outcome: Result<CpuStorage, Error>,
) -> bool {
    if values.spec_dtype() == dtype {
        outcome is Ok && outcome->Ok_0.same_values(values)
    } else {
        exists|answer: Result<CpuStorage, Error>| #[trigger]
            call_ensures(C::to_dtype, (conversion, &values, dtype), answer) && match answer {
                Err(_) => outcome == answer,
                Ok(cpu) => if cpu.spec_dtype() != dtype {
                    error::fails_with(outcome, unexpected_dtype_text(dtype, cpu.spec_dtype()))
                } else if cpu.spec_len() != values.spec_len() {
                    error::fails_with(outcome, conversion_text(cpu.spec_len(), values.spec_len()))
                } else {
                    outcome == answer
                },
            }
    }
}

/// Host values in the element type `dtype`.
pub fn convert<C: Conversion>(
    conversion: &C,
    values: &CpuStorage,
    dtype: DType,
) -> (outcome: Result<CpuStorage, Error>)
    ensures
        converted(conversion, *values, dtype, outcome),
        outcome is Ok ==> {
            &&& outcome->Ok_0.spec_dtype() == dtype
            &&& outcome->Ok_0.spec_len() == values.spec_len()
        },
{
    if values.dtype() == dtype {
        return Ok(values.clone());
    }
    let answer = conversion.to_dtype(values, dtype);
    match answer {
        Err(error) => Err(error),
        Ok(cpu) => {
            let got = cpu.dtype();
            let count: usize = cpu.len();
            let expected: usize = values.len();
            if got != dtype {
                Err(unexpected_dtype(dtype, got))
            } else if count != expected {
                Err(
                    error_text4(
                        "conversion gave ",
                        decimal_text(count as u64).as_str(),
                        " values, expected ",
                        decimal_text(expected as u64).as_str(),
                    ),
                )
            } else {
                Ok(cpu)
            }
        },
    }
}

/// Values in the element type `dtype`, on the same device.
pub open spec fn storage_converted<C: Conversion>(
    conversion: &C,
    source: Storage,
    dtype: DType,
    outcome: Result<Storage, Error>,
) -> bool {
    if source.spec_dtype() == dtype {
        outcome is Ok && outcome->Ok_0.same_values(source)
    } else {
        match source {
            Storage::Cpu(values) => exists|answer: Result<CpuStorage, Error>| #[trigger]
                converted(conversion, values, dtype, answer) && match answer {
                    Err(error) => outcome == Err::<Storage, Error>(error),
                    Ok(cpu) => outcome == Ok::<Storage, Error>(Storage::Cpu(cpu)),
                },
            Storage::Aqua(aqua) => exists|answer: Result<CpuStorage, Error>| #[trigger]
                converted(conversion, aqua.spec_cpu(), dtype, answer) && match (answer, outcome) {
                    (Err(error), _) => outcome == Err::<Storage, Error>(error),
                    (Ok(cpu), Ok(Storage::Aqua(after))) => after.spec_device() == aqua.spec_device()
                        && after.spec_cpu() == cpu,
                    _ => false,
                },
            Storage::Cuda { .. } => outcome == Err::<Storage, Error>(
                Error::NotCompiledWithCudaSupport,
            ),
            Storage::Metal { .. } => outcome == Err::<Storage, Error>(
                Error::NotCompiledWithMetalSupport,
            ),
        }
    }
}

/// The values of `source` on another device: the same values on the same
/// device; host values move to an AQuA device and back unchanged; a GPU needs
/// its runtime.
pub open spec fn moved(source: Storage, device: Device, outcome: Result<Storage, Error>) -> bool {
    if source.spec_device().is_same_device(device) {
        outcome is Ok && outcome->Ok_0.same_values(source)
    } else {
        match (source, device) {
            (Storage::Cuda { .. }, _) => outcome == Err::<Storage, Error>(
                Error::NotCompiledWithCudaSupport,
            ),
            (Storage::Metal { .. }, _) => outcome == Err::<Storage, Error>(
                Error::NotCompiledWithMetalSupport,
            ),
            (_, Device::Cuda { .. }) => outcome == Err::<Storage, Error>(
                Error::NotCompiledWithCudaSupport,
            ),
            (_, Device::Metal { .. }) => outcome == Err::<Storage, Error>(
                Error::NotCompiledWithMetalSupport,
            ),
            (Storage::Cpu(values), Device::Aqua(aqua)) => match outcome {
                Ok(Storage::Aqua(after)) => after.spec_device() == aqua
                    && after.spec_cpu().same_values(values),
                _ => false,
            },
            (Storage::Aqua(before), Device::Cpu) => match outcome {
                Ok(Storage::Cpu(cpu)) => cpu.same_values(before.spec_cpu()),
                _ => false,
            },
            (Storage::Aqua(before), Device::Aqua(aqua)) => match outcome {
                Ok(Storage::Aqua(after)) => after.spec_device() == aqua
                    && after.spec_cpu().same_values(before.spec_cpu()),
                _ => false,
            },
            (Storage::Cpu(_), Device::Cpu) => false,
        }
    }
}

/// A device as it is printed behind a tensor's type: nothing for the host.
pub open spec fn device_text(device: Device) -> Seq<char> {
    match device {
        Device::Cpu => ""@,
        Device::Cuda { gpu_id } => ", cuda:"@ + text::decimal(gpu_id as nat),
        Device::Metal { gpu_id } => ", metal:"@ + text::decimal(gpu_id as nat),
        Device::Aqua(aqua) => ", aqua:"@ + text::decimal(aqua.spec_device_id() as nat),
    }
}

/// A device as it is printed behind a tensor's type.
fn device_suffix(device: Device) -> (suffix: String)
    ensures
        suffix@ == device_text(device),
{
    let (head, number): (&str, usize) = match device {
        Device::Cpu => return "".to_owned(),
        Device::Cuda { gpu_id } => (", cuda:", gpu_id),
        Device::Metal { gpu_id } => (", metal:", gpu_id),
        Device::Aqua(aqua) => (", aqua:", aqua.device_id()),
    };
    let mut suffix = head.to_owned();
    suffix.append(decimal_text(number as u64).as_str());
    suffix
}

/// A tensor: its values, row after row, and its extents.
pub struct Tensor {
    pub storage: Storage,
    pub shape: Shape,
}

/// The tensor is printed as `text` gives it.
impl std::fmt::Debug for Tensor {
    fn fmt(&self, to: &mut std::fmt::Formatter<'_>) -> Result<(), std::fmt::Error> {
        write_text(to, self.text().as_str())
    }
}

impl Tensor {
    /// A tensor that holds the given values.
    pub fn from_storage(storage: Storage, shape: Shape) -> (tensor: Tensor)
        ensures
            tensor.storage == storage,
            tensor.shape == shape,
    {
        Tensor { storage, shape }
    }

    /// The extents, the element type and the device, as they are printed.
    pub fn text(&self) -> (text: String)
        ensures
            text@ == "Tensor[dims "@ + text::decimal_entries(self.shape@) + "; "@
                + self.storage.spec_dtype().spec_str() + device_text(self.storage.spec_device())
                + "]"@,
    {
        let mut text = "Tensor[dims ".to_owned();
        text.append(entries_text(self.shape.dims()).as_str());
        text.append("; ");
        text.append(self.storage.dtype().as_str());
        text.append(device_suffix(self.storage.device()).as_str());
        text.append("]");
        text
    }

    /// Where the tensor is.
    pub fn device(&self) -> (device: Device)
        ensures
            device == self.storage.spec_device(),
    {
        self.storage.device()
    }

    /// The element type.
    pub fn dtype(&self) -> (dtype: DType)
        ensures
            dtype == self.storage.spec_dtype(),
    {
        self.storage.dtype()
    }

    /// The tensor in another element type.
    pub fn to_dtype<C: Conversion>(&self, conversion: &C, dtype: DType) -> (outcome: Result<
        Tensor,
        Error,
    >)
        ensures
            tensor_converted(conversion, *self, dtype, outcome),
            outcome is Ok ==> {
                &&& outcome->Ok_0.storage.spec_dtype() == dtype
                &&& outcome->Ok_0.storage.spec_device() == self.storage.spec_device()
                &&& outcome->Ok_0.storage.spec_len() == self.storage.spec_len()
            },
    {
        let outcome = self.converted_storage(conversion, dtype);
        match outcome {
            Err(error) => Err(error),
            Ok(storage) => Ok(Tensor { storage, shape: self.shape.clone() }),
        }
    }

    /// The values in another element type.
    fn converted_storage<C: Conversion>(&self, conversion: &C, dtype: DType) -> (outcome: Result<
        Storage,
        Error,
    >)
        ensures
            storage_converted(conversion, self.storage, dtype, outcome),
            outcome is Ok ==> {
                &&& outcome->Ok_0.spec_dtype() == dtype
                &&& outcome->Ok_0.spec_device() == self.storage.spec_device()
                &&& outcome->Ok_0.spec_len() == self.storage.spec_len()
            },
    {
        if self.storage.dtype() == dtype {
            return Ok(self.storage.clone());
        }
        match &self.storage {
            Storage::Cpu(values) => match convert(conversion, values, dtype) {
                Err(error) => Err(error),
                Ok(cpu) => Ok(Storage::Cpu(cpu)),
            },
            Storage::Aqua(aqua) => match convert(conversion, aqua.cpu_storage(), dtype) {
                Err(error) => Err(error),
                Ok(cpu) => Ok(Storage::Aqua(aqua.replace_cpu_storage(cpu))),
            },
            Storage::Cuda { .. } => Err(Error::NotCompiledWithCudaSupport),
            Storage::Metal { .. } => Err(Error::NotCompiledWithMetalSupport),
        }
    }

    /// The tensor on another device.
    pub fn to_device(&self, device: &Device) -> (outcome: Result<Tensor, Error>)
        ensures
            tensor_moved(*self, *device, outcome),
            outcome is Ok ==> {
                &&& outcome->Ok_0.storage.spec_dtype() == self.storage.spec_dtype()
                &&& outcome->Ok_0.storage.spec_device().is_same_device(*device)
                &&& outcome->Ok_0.storage.spec_len() == self.storage.spec_len()
            },
    {
        match self.moved_storage(device) {
            Err(error) => Err(error),
            Ok(storage) => Ok(Tensor { storage, shape: self.shape.clone() }),
        }
    }

    /// The values on another device.
    fn moved_storage(&self, device: &Device) -> (outcome: Result<Storage, Error>)
        ensures
            moved(self.storage, *device, outcome),
            outcome is Ok ==> {
                &&& outcome->Ok_0.spec_dtype() == self.storage.spec_dtype()
                &&& outcome->Ok_0.spec_device().is_same_device(*device)
                &&& outcome->Ok_0.spec_len() == self.storage.spec_len()
            },
    {
        if self.storage.device().same_device(device) {
            return Ok(self.storage.clone());
        }
        match (&self.storage, device) {
            (Storage::Cuda { .. }, _) => Err(Error::NotCompiledWithCudaSupport),
            (Storage::Metal { .. }, _) => Err(Error::NotCompiledWithMetalSupport),
            (_, Device::Cuda { .. }) => Err(Error::NotCompiledWithCudaSupport),
            (_, Device::Metal { .. }) => Err(Error::NotCompiledWithMetalSupport),
            (Storage::Cpu(values), Device::Aqua(aqua)) => Ok(
                Storage::Aqua(aqua.wrap_cpu_storage(values.clone())),
            ),
            (Storage::Aqua(before), Device::Aqua(aqua)) => Ok(
                Storage::Aqua(aqua.wrap_cpu_storage(before.cpu_storage().clone())),
            ),
            (Storage::Aqua(before), Device::Cpu) => Ok(Storage::Cpu(before.cpu_storage().clone())),
            (Storage::Cpu(values), Device::Cpu) => Ok(Storage::Cpu(values.clone())),
        }
    }
}

/// The tensor in the element type `dtype`: its values are converted, its shape
/// and device stay.
pub open spec fn tensor_converted<C: Conversion>(
    conversion: &C,
    source: Tensor,
    dtype: DType,
    outcome: Result<Tensor, Error>,
) -> bool {
    match outcome {
        Ok(tensor) => {
            &&& storage_converted(conversion, source.storage, dtype, Ok(tensor.storage))
            &&& tensor.shape@ == source.shape@
        },
        Err(error) => storage_converted(conversion, source.storage, dtype, Err(error)),
    }
}

/// The tensor on the device `device`: its values move, its shape stays.
pub open spec fn tensor_moved(source: Tensor, device: Device, outcome: Result<Tensor, Error>) -> bool {
    match outcome {
        Ok(tensor) => {
            &&& moved(source.storage, device, Ok(tensor.storage))
            &&& tensor.shape@ == source.shape@
        },
        Err(error) => moved(source.storage, device, Err(error)),
    }
}

impl Clone for Tensor {
    fn clone(&self) -> (copy: Tensor)
        ensures
            copy.storage.same_values(self.storage),
            copy.shape@ == self.shape@,
    {
        Tensor { storage: self.storage.clone(), shape: self.shape.clone() }
    }
}

/// A tensor that moves from the host to an AQuA device and back has the values
/// it started with.
pub proof fn law_aqua_round_trip_keeps_values(
    source: Tensor,
    aqua: AquaDevice<CpuFallbackAquaExecutor>,
    there: Tensor,
    back: Tensor,
)
    requires
        source.storage is Cpu,
        tensor_moved(source, Device::Aqua(aqua), Ok(there)),
        tensor_moved(there, Device::Cpu, Ok(back)),
    ensures
        back.storage.same_values(source.storage),
        back.shape@ == source.shape@,
{
}

/// Both outcomes are the same values, or errors that print the same text.
pub open spec fn same_conversions(a: Result<CpuStorage, Error>, b: Result<CpuStorage, Error>) -> bool {
    match (a, b) {
        (Ok(x), Ok(y)) => x.same_values(y),
        (Err(x), Err(y)) => x@ == y@,
        _ => false,
    }
}

/// Both outcomes are tensors with the same values and extents, or errors that
/// print the same text.
pub open spec fn same_tensors(a: Result<Tensor, Error>, b: Result<Tensor, Error>) -> bool {
    match (a, b) {
        (Ok(x), Ok(y)) => x.storage.same_values(y.storage) && x.shape@ == y.shape@,
        (Err(x), Err(y)) => x@ == y@,
        _ => false,
    }
}

/// The conversion makes the same of the same values, whenever it is asked.
pub open spec fn converts_alike<C: Conversion>(conversion: &C) -> bool {
    forall|
        a: CpuStorage,
        b: CpuStorage,
        dtype: DType,
        x: Result<CpuStorage, Error>,
        y: Result<CpuStorage, Error>,
    |
        a.same_values(b) && #[trigger] call_ensures(C::to_dtype, (conversion, &a, dtype), x)
            && #[trigger] call_ensures(C::to_dtype, (conversion, &b, dtype), y)
            ==> same_conversions(x, y)
}

/// The same host values convert alike.
proof fn lemma_converted_alike<C: Conversion>(
    conversion: &C,
    a: CpuStorage,
    b: CpuStorage,
    dtype: DType,
    x: Result<CpuStorage, Error>,
    y: Result<CpuStorage, Error>,
)
    requires
        converts_alike(conversion),
        a.same_values(b),
        converted(conversion, a, dtype, x),
        converted(conversion, b, dtype, y),
    ensures
        same_conversions(x, y),
{
    assert(a.spec_dtype() == b.spec_dtype() && a.spec_len() == b.spec_len());
    if a.spec_dtype() != dtype {
        let p = choose|p: Result<CpuStorage, Error>| #[trigger]
            call_ensures(C::to_dtype, (conversion, &a, dtype), p) && match p {
                Err(_) => x == p,
                Ok(cpu) => if cpu.spec_dtype() != dtype {
                    error::fails_with(x, unexpected_dtype_text(dtype, cpu.spec_dtype()))
                } else if cpu.spec_len() != a.spec_len() {
                    error::fails_with(x, conversion_text(cpu.spec_len(), a.spec_len()))
                } else {
                    x == p
                },
            };
        let q = choose|q: Result<CpuStorage, Error>| #[trigger]
            call_ensures(C::to_dtype, (conversion, &b, dtype), q) && match q {
                Err(_) => y == q,
                Ok(cpu) => if cpu.spec_dtype() != dtype {
                    error::fails_with(y, unexpected_dtype_text(dtype, cpu.spec_dtype()))
                } else if cpu.spec_len() != b.spec_len() {
                    error::fails_with(y, conversion_text(cpu.spec_len(), b.spec_len()))
                } else {
                    y == q
                },
            };
        assert(same_conversions(p, q));
    }
}

/// Converting the same tensor twice gives the same tensor, or the same error,
/// where the conversion makes the same of the same values.
pub proof fn law_conversion_is_repeatable<C: Conversion>(
    conversion: &C,
    a: Tensor,
    b: Tensor,
    dtype: DType,
    x: Result<Tensor, Error>,
    y: Result<Tensor, Error>,
)
    requires
        converts_alike(conversion),
        a.storage.same_values(b.storage),
        a.shape@ == b.shape@,
        tensor_converted(conversion, a, dtype, x),
        tensor_converted(conversion, b, dtype, y),
    ensures
        same_tensors(x, y),
{
    assert(a.storage.spec_dtype() == b.storage.spec_dtype());
    if a.storage.spec_dtype() != dtype {
        match (a.storage, b.storage) {
            (Storage::Cpu(left), Storage::Cpu(right)) => {
                let p = choose|p: Result<CpuStorage, Error>| #[trigger]
                    converted(conversion, left, dtype, p) && match (p, x) {
                        (Err(error), Err(got)) => error == got,
                        (Ok(cpu), Ok(got)) => got.storage == Storage::Cpu(cpu),
                        _ => false,
                    };
                let q = choose|q: Result<CpuStorage, Error>| #[trigger]
                    converted(conversion, right, dtype, q) && match (q, y) {
                        (Err(error), Err(got)) => error == got,
                        (Ok(cpu), Ok(got)) => got.storage == Storage::Cpu(cpu),
                        _ => false,
                    };
                lemma_converted_alike(conversion, left, right, dtype, p, q);
            },
            (Storage::Aqua(left), Storage::Aqua(right)) => {
                let p = choose|p: Result<CpuStorage, Error>| #[trigger]
                    converted(conversion, left.spec_cpu(), dtype, p) && match (p, x) {
                        (Err(error), Err(got)) => error == got,
                        (Ok(cpu), Ok(got)) => got.storage is Aqua && got.storage->Aqua_0.spec_device()
                            == left.spec_device() && got.storage->Aqua_0.spec_cpu() == cpu,
                        _ => false,
                    };
                let q = choose|q: Result<CpuStorage, Error>| #[trigger]
                    converted(conversion, right.spec_cpu(), dtype, q) && match (q, y) {
                        (Err(error), Err(got)) => error == got,
                        (Ok(cpu), Ok(got)) => got.storage is Aqua && got.storage->Aqua_0.spec_device()
                            == right.spec_device() && got.storage->Aqua_0.spec_cpu() == cpu,
                        _ => false,
                    };
                lemma_converted_alike(conversion, left.spec_cpu(), right.spec_cpu(), dtype, p, q);
            },
            _ => {},
        }
    }
}

/// Moving the same tensor twice gives the same tensor, or the same error.
pub proof fn law_move_is_repeatable(
    a: Tensor,
    b: Tensor,
    device: Device,
    x: Result<Tensor, Error>,
    y: Result<Tensor, Error>,
)
    requires
        a.storage.same_values(b.storage),
        a.shape@ == b.shape@,
        tensor_moved(a, device, x),
        tensor_moved(b, device, y),
    ensures
        same_tensors(x, y),
{
}

/// A converted tensor has the type that was asked for, and the extents, the
/// place and, on the host, the number of values that it had.
pub proof fn law_conversion_keeps_extents_and_place<C: Conversion>(
    conversion: &C,
    source: Tensor,
    dtype: DType,
    outcome: Result<Tensor, Error>,
)
    requires
        tensor_converted(conversion, source, dtype, outcome),
        outcome is Ok,
    ensures
        outcome->Ok_0.storage.spec_dtype() == dtype,
        outcome->Ok_0.shape@ == source.shape@,
        outcome->Ok_0.storage.spec_device() == source.storage.spec_device(),
        outcome->Ok_0.storage.spec_len() == source.storage.spec_len(),
        source.storage.spec_dtype() == dtype ==> outcome->Ok_0.storage.same_values(source.storage),
{
}

/// A moved tensor has its extents, its type and its values, and is on the device
/// that was asked for. Values move between the host and AQuA devices; moving
/// from or to a GPU is refused for what is missing, unless they are there.
pub proof fn law_moved_tensor_keeps_its_values(
    source: &Tensor,
    device: &Device,
    outcome: Result<Tensor, Error>,
)
    requires
        call_ensures(Tensor::to_device, (source, device), outcome),
    ensures
        outcome is Ok ==> {
            &&& outcome->Ok_0.shape@ == source.shape@
            &&& outcome->Ok_0.storage.spec_dtype() == source.storage.spec_dtype()
            &&& outcome->Ok_0.storage.spec_device().is_same_device(*device)
        },
        source.storage is Cpu && *device is Cpu ==> {
            &&& outcome is Ok
            &&& outcome->Ok_0.storage is Cpu
            &&& outcome->Ok_0.storage->Cpu_0.same_values(source.storage->Cpu_0)
        },
        source.storage is Cpu && *device is Aqua ==> {
            &&& outcome is Ok
            &&& outcome->Ok_0.storage is Aqua
            &&& outcome->Ok_0.storage->Aqua_0.spec_device() == device->Aqua_0
            &&& outcome->Ok_0.storage->Aqua_0.spec_cpu().same_values(source.storage->Cpu_0)
        },
        source.storage is Aqua && *device is Cpu ==> {
            &&& outcome is Ok
            &&& outcome->Ok_0.storage is Cpu
            &&& outcome->Ok_0.storage->Cpu_0.same_values(source.storage->Aqua_0.spec_cpu())
        },
        source.storage is Aqua && *device is Aqua ==> {
            &&& outcome is Ok
            &&& outcome->Ok_0.storage is Aqua
            &&& outcome->Ok_0.storage->Aqua_0.spec_cpu().same_values(
                source.storage->Aqua_0.spec_cpu(),
            )
        },
        source.storage is Cuda ==> (outcome is Ok <==> *device is Cuda && device->Cuda_gpu_id
            == source.storage->Cuda_gpu_id),
        source.storage is Metal ==> (outcome is Ok <==> *device is Metal && device->Metal_gpu_id
            == source.storage->Metal_gpu_id),
        source.storage is Cuda && outcome is Err ==> outcome->Err_0 is NotCompiledWithCudaSupport,
        source.storage is Metal && outcome is Err ==> outcome->Err_0 is NotCompiledWithMetalSupport,
        (source.storage is Cpu || source.storage is Aqua) && *device is Cuda ==> outcome is Err
            && outcome->Err_0 is NotCompiledWithCudaSupport,
        (source.storage is Cpu || source.storage is Aqua) && *device is Metal ==> outcome is Err
            && outcome->Err_0 is NotCompiledWithMetalSupport,
{
}

/// A tensor that has the type already keeps its values; host values in another
/// type are those that the conversion makes of them, where it gives as many in
/// that type.
pub proof fn law_values_are_converted_by_the_conversion<C: Conversion>(
    source: &Tensor,
    conversion: &C,
    dtype: DType,
    outcome: Result<Tensor, Error>,
)
    requires
        call_ensures(Tensor::to_dtype::<C>, (source, conversion, dtype), outcome),
    ensures
        source.storage.spec_dtype() == dtype ==> {
            &&& outcome is Ok
            &&& outcome->Ok_0.storage.same_values(source.storage)
        },
        outcome is Ok ==> {
            &&& outcome->Ok_0.shape@ == source.shape@
            &&& outcome->Ok_0.storage.spec_dtype() == dtype
            &&& outcome->Ok_0.storage.spec_device() == source.storage.spec_device()
        },
        source.storage.spec_dtype() != dtype && source.storage is Cpu && outcome is Ok ==> {
            &&& outcome->Ok_0.storage is Cpu
            &&& outcome->Ok_0.storage->Cpu_0.spec_len() == source.storage->Cpu_0.spec_len()
            &&& call_ensures(
                C::to_dtype,
                (conversion, &source.storage->Cpu_0, dtype),
                Ok(outcome->Ok_0.storage->Cpu_0),
            )
        },
        source.storage.spec_dtype() != dtype && source.storage is Aqua && outcome is Ok ==> {
            &&& outcome->Ok_0.storage is Aqua
            &&& call_ensures(
                C::to_dtype,
                (conversion, &source.storage->Aqua_0.spec_cpu(), dtype),
                Ok(outcome->Ok_0.storage->Aqua_0.spec_cpu()),
            )
        },
        source.storage.spec_dtype() != dtype && source.storage is Cpu && outcome is Err ==> exists|
            answer: Result<CpuStorage, Error>,
        |
            {
                &&& #[trigger] call_ensures(
                    C::to_dtype,
                    (conversion, &source.storage->Cpu_0, dtype),
                    answer,
                )
                &&& answer is Err ==> outcome->Err_0 == answer->Err_0
                &&& answer is Ok ==> answer->Ok_0.spec_dtype() != dtype || answer->Ok_0.spec_len()
                    != source.storage->Cpu_0.spec_len()
            },
        source.storage is Cuda && source.storage.spec_dtype() != dtype ==> outcome is Err
            && outcome->Err_0 is NotCompiledWithCudaSupport,
        source.storage is Metal && source.storage.spec_dtype() != dtype ==> outcome is Err
            && outcome->Err_0 is NotCompiledWithMetalSupport,
{
    if source.storage.spec_dtype() != dtype && source.storage is Cpu {
        let answer = choose|answer: Result<CpuStorage, Error>| #[trigger]
            converted(conversion, source.storage->Cpu_0, dtype, answer) && match (answer, outcome) {
                (Err(error), Err(got)) => got == error,
                (Ok(cpu), Ok(tensor)) => tensor.storage == Storage::Cpu(cpu),
                _ => false,
            };
        if outcome is Ok {
            assert(answer == Ok::<CpuStorage, Error>(outcome->Ok_0.storage->Cpu_0));
        }
    }
    if source.storage.spec_dtype() != dtype && source.storage is Aqua && outcome is Ok {
        let answer = choose|answer: Result<CpuStorage, Error>| #[trigger]
            converted(conversion, source.storage->Aqua_0.spec_cpu(), dtype, answer) && match (
                answer,
                outcome->Ok_0.storage,
            ) {
                (Ok(cpu), Storage::Aqua(after)) => after.spec_cpu() == cpu,
                _ => false,
            };
        assert(answer == Ok::<CpuStorage, Error>(outcome->Ok_0.storage->Aqua_0.spec_cpu()));
    }
}

/// A tensor is where its values are, and has their type.
pub proof fn law_tensors_are_where_their_values_are(
    tensor: &Tensor,
    device: Device,
    dtype: DType,
)
    requires
        call_ensures(Tensor::device, (tensor,), device),
        call_ensures(Tensor::dtype, (tensor,), dtype),
    ensures
        tensor.storage is Cpu ==> device is Cpu && dtype == tensor.storage->Cpu_0.spec_dtype(),
        tensor.storage is Cuda ==> device is Cuda && device->Cuda_gpu_id
            == tensor.storage->Cuda_gpu_id && dtype == tensor.storage->Cuda_dtype,
        tensor.storage is Metal ==> device is Metal && device->Metal_gpu_id
            == tensor.storage->Metal_gpu_id && dtype == tensor.storage->Metal_dtype,
        tensor.storage is Aqua ==> device is Aqua && device->Aqua_0
            == tensor.storage->Aqua_0.spec_device() && dtype
            == tensor.storage->Aqua_0.spec_cpu().spec_dtype(),
{
}

/// A tensor is printed by its extents and its type, and by its device unless
/// that is the host.
pub proof fn law_tensors_are_printed(tensor: &Tensor, shown: String)
    requires
        call_ensures(Tensor::text, (tensor,), shown),
    ensures
        ({
            let start = "Tensor[dims "@ + text::decimal_entries(tensor.shape@) + "; "@
                + tensor.storage.spec_dtype().spec_str();
            &&& tensor.storage is Cpu ==> shown@ == start + "]"@
            &&& tensor.storage is Cuda ==> shown@ == start + ", cuda:"@ + text::decimal(
                tensor.storage->Cuda_gpu_id as nat,
            ) + "]"@
            &&& tensor.storage is Metal ==> shown@ == start + ", metal:"@ + text::decimal(
                tensor.storage->Metal_gpu_id as nat,
            ) + "]"@
            &&& tensor.storage is Aqua ==> shown@ == start + ", aqua:"@ + text::decimal(
                tensor.storage->Aqua_0.spec_device().spec_device_id() as nat,
            ) + "]"@
        }),
{
    reveal_strlit("");
    let start = "Tensor[dims "@ + text::decimal_entries(tensor.shape@) + "; "@
        + tensor.storage.spec_dtype().spec_str();
    let device = device_text(tensor.storage.spec_device());
    assert(start + ""@ + "]"@ =~= start + "]"@);
    if tensor.storage is Cuda {
        let number = text::decimal(tensor.storage->Cuda_gpu_id as nat);
        assert(start + (", cuda:"@ + number) + "]"@ =~= start + ", cuda:"@ + number + "]"@);
    }
    if tensor.storage is Metal {
        let number = text::decimal(tensor.storage->Metal_gpu_id as nat);
        assert(start + (", metal:"@ + number) + "]"@ =~= start + ", metal:"@ + number + "]"@);
    }
    if tensor.storage is Aqua {
        let number = text::decimal(tensor.storage->Aqua_0.spec_device().spec_device_id() as nat);
        assert(start + (", aqua:"@ + number) + "]"@ =~= start + ", aqua:"@ + number + "]"@);
    }
}

} // verus!
