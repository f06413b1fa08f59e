//! The AQuA device: an injected executor for matrix products over host memory.

use crate::cpu_storage::CpuStorage;
use crate::device::DeviceLocation;
use crate::error;
use crate::error::{error_text, error_text4, Error};
use crate::printing::{end_record, print_field, start_record};
use crate::shape::Layout;
use crate::text;
use crate::text::{decimal_text, quote};
use std::sync::Arc;
use vstd::prelude::*;

pub mod gguf;
pub mod laws;
pub mod storage;

pub use gguf::AquaGgufTensorRequest;
pub use storage::CpuBackend;

verus! {

/// Result of asking the injected AQuA executor to handle an operation.
///
/// `Executed` means that the external executor produced the result.
/// `Fallback` asks `AquaStorage` to execute the ordinary host path.
#[derive(Debug)]
pub enum AquaDispatch<T> {
    Executed(T),
    Fallback,
}

/// Matrix product delivered to an injected AQuA executor.
///
/// Both operands are host storage. Layouts retain the logical shape, offset,
/// and stride.
#[derive(Debug)]
pub struct AquaMatMulRequest<'a> {
    pub lhs: &'a CpuStorage,
    pub rhs: &'a CpuStorage,
    pub bmnk: (usize, usize, usize, usize),
    pub lhs_layout: &'a Layout,
    pub rhs_layout: &'a Layout,
}

/// Execution interface that an accelerator implements.
pub trait AquaExecutor: std::fmt::Debug + Send + Sync {
    /// The executor's name.
    fn name(&self) -> &'static str;

    /// Computes a matrix product, or asks for the host path.
    fn matmul(&self, request: AquaMatMulRequest<'_>) -> (outcome: Result<
        AquaDispatch<CpuStorage>,
        Error,
    >)
        default_ensures
            outcome == Ok::<AquaDispatch<CpuStorage>, Error>(AquaDispatch::Fallback),
    {
        Ok(AquaDispatch::Fallback)
    }

    /// Waits until all submitted work is done.
    fn synchronize(&self) -> (outcome: Result<(), Error>)
        default_ensures
            outcome == Ok::<(), Error>(()),
    {
        Ok(())
    }
}

/// Default executor: every operation falls back to the host.
#[derive(Clone, Copy, Debug, Default)]
pub struct CpuFallbackAquaExecutor;

impl AquaExecutor for CpuFallbackAquaExecutor {
    fn name(&self) -> (name: &'static str)
        ensures
            name@ == "cpu-fallback"@,
    {
        "cpu-fallback"
    }
}

/// Handle of an AQuA device.
///
/// The executor identity is part of the device identity. Two separately
/// constructed devices with the same numeric id are not considered identical
/// unless they share the same executor `Arc`.
pub struct AquaDevice<E> {
    device_id: usize,
    executor: Arc<E>,
    /// Where the executor stands in memory: it tells one executor from
    /// another for as long as this handle keeps it alive.
    executor_address: usize,
}

/// The address of the value behind an `Arc`, by `Arc::as_ptr`. Nothing is
/// claimed of the number: it depends on the allocator. Two `Arc`s that are
/// alive at the same time have the same address only if they share their
/// allocation.
#[verifier::external_body]
pub fn shared_address<E>(shared: &Arc<E>) -> usize {
    Arc::as_ptr(shared).addr()
}

impl AquaDevice<CpuFallbackAquaExecutor> {
    /// A device whose operations all run on the host.
    pub fn cpu_fallback(device_id: usize) -> (device: Self)
        ensures
            device.spec_device_id() == device_id,
            device.spec_executor() == CpuFallbackAquaExecutor,
            device.is_identified(),
    {
        AquaDevice::with_executor(device_id, Arc::new(CpuFallbackAquaExecutor))
    }

    /// A device for a number: one whose operations all run on the host.
    pub fn new(device_id: usize) -> (outcome: Result<Self, Error>)
        ensures
            outcome is Ok,
            outcome->Ok_0.spec_device_id() == device_id,
            outcome->Ok_0.spec_executor() == CpuFallbackAquaExecutor,
            outcome->Ok_0.is_identified(),
    {
        Ok(Self::cpu_fallback(device_id))
    }
}

impl<E> AquaDevice<E> {
    /// The device's number.
    pub closed spec fn spec_device_id(self) -> usize {
        self.device_id
    }

    /// The device's executor.
    pub closed spec fn spec_executor(self) -> E {
        *self.executor
    }

    /// The executor as it is shared.
    pub closed spec fn spec_shared(self) -> Arc<E> {
        self.executor
    }

    /// What tells the device's executor from others.
    pub closed spec fn executor_identity(self) -> usize {
        self.executor_address
    }

    /// The identity is the address of the device's own executor.
    pub open spec fn is_identified(self) -> bool {
        call_ensures(shared_address::<E>, (&self.spec_shared(),), self.executor_identity())
    }

    #[verifier::type_invariant]
    closed spec fn keeps_its_identity(self) -> bool {
        self.is_identified()
    }

    /// Both handles stand for one device: same number, same executor.
    pub open spec fn is_same_instance<F>(self, other: AquaDevice<F>) -> bool {
        &&& self.spec_device_id() == other.spec_device_id()
        &&& self.executor_identity() == other.executor_identity()
    }

    /// The device's place.
    pub open spec fn spec_location(self) -> DeviceLocation {
        DeviceLocation::Aqua { device_id: self.spec_device_id() }
    }

    /// A device that hands matrix products to the given executor.
    pub fn with_executor(device_id: usize, executor: Arc<E>) -> (device: Self)
        ensures
            device.spec_device_id() == device_id,
            device.spec_executor() == *executor,
            device.spec_shared() == executor,
            call_ensures(shared_address::<E>, (&executor,), device.executor_identity()),
    {
        let executor_address: usize = shared_address(&executor);
        AquaDevice { device_id, executor, executor_address }
    }

    /// The device's number.
    pub fn device_id(&self) -> (device_id: usize)
        ensures
            device_id == self.spec_device_id(),
    {
        self.device_id
    }

    /// The device's executor.
    pub fn executor(&self) -> (executor: &Arc<E>)
        ensures
            *executor == self.spec_shared(),
            **executor == self.spec_executor(),
    {
        &self.executor
    }

    /// Whether both handles stand for one device.
    pub fn same_instance<F>(&self, other: &AquaDevice<F>) -> (same: bool)
        ensures
            same == self.is_same_instance(*other),
            self.is_identified(),
            other.is_identified(),
    {
        proof {
            use_type_invariant(self);
            use_type_invariant(other);
        }
        self.device_id == other.device_id && self.executor_address == other.executor_address
    }

    /// Whether both handles stand for one device.
    pub fn same_device<F>(&self, other: &AquaDevice<F>) -> (same: bool)
        ensures
            same == self.is_same_instance(*other),
            self.is_identified(),
            other.is_identified(),
    {
        proof {
            use_type_invariant(self);
            use_type_invariant(other);
        }
        self.same_instance(other)
    }

    /// The device's place.
    pub fn location(&self) -> (location: DeviceLocation)
        ensures
            location == self.spec_location(),
    {
        DeviceLocation::Aqua { device_id: self.device_id }
    }

    /// Host values as a storage of this device.
    pub fn wrap_cpu_storage(&self, cpu: CpuStorage) -> (storage: AquaStorage<E>)
        ensures
            storage.spec_device() == *self,
            storage.spec_cpu() == cpu,
    {
        AquaStorage::from_cpu(self.clone(), cpu)
    }
}

impl<E> Clone for AquaDevice<E> {
    fn clone(&self) -> (copy: Self)
        ensures
            copy == *self,
    {
        proof {
            use_type_invariant(self);
        }
        AquaDevice {
            device_id: self.device_id,
            executor: self.executor.clone(),
            executor_address: self.executor_address,
        }
    }
}

/// The device is printed by its number and its executor's name; on one line it
/// is what `text` gives.
impl<E: AquaExecutor> std::fmt::Debug for AquaDevice<E> {
    fn fmt(&self, to: &mut std::fmt::Formatter<'_>) -> Result<(), std::fmt::Error> {
        let mut record = start_record(to, "AquaDevice");
        print_field(&mut record, "device_id", &self.device_id);
        print_field(&mut record, "executor", &self.executor.name());
        end_record(&mut record)
    }
}

/// A device as it is printed, given its executor's name in quotes.
pub open spec fn device_text(device_id: usize, executor: Seq<char>) -> Seq<char> {
    "AquaDevice { device_id: "@ + text::decimal(device_id as nat) + ", executor: "@ + executor + " }"@
}

impl<E: AquaExecutor> AquaDevice<E> {
    /// The device as it is printed: its number, and its executor's name as a
    /// string literal.
    pub fn text(&self) -> (text: String)
        ensures
            exists|name: &'static str|
                {
                    &&& #[trigger] call_ensures(E::name, (&self.spec_executor(),), name)
                    &&& text@ == device_text(self.spec_device_id(), text::quoted(name@))
                    &&& text::is_plain(name@) ==> text@ == device_text(
                        self.spec_device_id(),
                        "\""@ + name@ + "\""@,
                    )
                },
    {
        let name = self.executor.name();
        let mut text = "AquaDevice { device_id: ".to_owned();
        text.append(decimal_text(self.device_id as u64).as_str());
        text.append(", executor: ");
        text.append(quote(name).as_str());
        text.append(" }");
        assert(call_ensures(E::name, (&self.spec_executor(),), name));
        assert(text@ == device_text(self.spec_device_id(), text::quoted(name@)));
        text
    }
}

/// Device identity is an equivalence: a handle stands for its own device, both
/// ways round, and through a third handle. A clone equals its original, so it
/// stands for the same device.
pub proof fn law_device_identity_is_an_equivalence<E, F, G>(
    a: AquaDevice<E>,
    b: AquaDevice<F>,
    c: AquaDevice<G>,
)
    ensures
        a.is_same_instance(a),
        a.is_same_instance(b) == b.is_same_instance(a),
        a.is_same_instance(b) && b.is_same_instance(c) ==> a.is_same_instance(c),
        a.spec_device_id() != b.spec_device_id() ==> !a.is_same_instance(b),
        a.executor_identity() != b.executor_identity() ==> !a.is_same_instance(b),
{
}

/// Storage of an AQuA device: host values, and the device they belong to.
pub struct AquaStorage<E> {
    device: AquaDevice<E>,
    cpu: CpuStorage,
}

/// The storage is printed field by field.
impl<E: AquaExecutor> std::fmt::Debug for AquaStorage<E> {
    fn fmt(&self, to: &mut std::fmt::Formatter<'_>) -> Result<(), std::fmt::Error> {
        let mut record = start_record(to, "AquaStorage");
        print_field(&mut record, "device", &self.device);
        print_field(&mut record, "cpu", &self.cpu);
        end_record(&mut record)
    }
}

impl<E> Clone for AquaStorage<E> {
    fn clone(&self) -> (copy: Self)
        ensures
            copy.spec_device() == self.spec_device(),
            copy.spec_cpu().same_values(self.spec_cpu()),
    {
        AquaStorage { device: self.device.clone(), cpu: self.cpu.clone() }
    }
}

/// What a caller prints when an executor returns values of another type.
pub open spec fn matmul_dtype_text(actual: CpuStorage, expected: CpuStorage) -> Seq<char> {
    "Aqua executor matmul returned dtype "@ + actual.spec_dtype().spec_name() + ", expected "@
        + expected.spec_dtype().spec_name()
}

/// What a caller prints when an executor returns another number of elements.
pub open spec fn matmul_length_text(actual: nat, expected: nat) -> Seq<char> {
    "Aqua executor matmul returned "@ + text::decimal(actual) + " elements, expected "@
        + text::decimal(expected)
}

/// What becomes of an executor's product: its type must be that of the left
/// operand, and it must have one element per entry of the result.
pub open spec fn matmul_output_outcome(
    lhs: CpuStorage,
    output: CpuStorage,
    bmnk: (usize, usize, usize, usize),
) -> Result<(), Seq<char>> {
    let matrices = bmnk.0 as nat * bmnk.1 as nat;
    let expected = matrices * bmnk.2 as nat;
    if output.spec_dtype() != lhs.spec_dtype() {
        Err(matmul_dtype_text(output, lhs))
    } else if matrices > usize::MAX || expected > usize::MAX {
        Err("Aqua executor matmul output size overflow"@)
    } else if output.spec_len() != expected {
        Err(matmul_length_text(output.spec_len(), expected))
    } else {
        Ok(())
    }
}

impl<E> AquaStorage<E> {
    /// The device that the values belong to.
    pub closed spec fn spec_device(self) -> AquaDevice<E> {
        self.device
    }

    /// The host values.
    pub closed spec fn spec_cpu(self) -> CpuStorage {
        self.cpu
    }

    /// The outcome carries the outcome of a host operation: its values on this
    /// storage's device, or its error.
    pub open spec fn carries(
        self,
        outcome: Result<AquaStorage<E>, Error>,
        host: Result<CpuStorage, Error>,
    ) -> bool {
        match host {
            Ok(cpu) => {
                &&& outcome is Ok
                &&& outcome->Ok_0.spec_device() == self.spec_device()
                &&& outcome->Ok_0.spec_cpu() == cpu
            },
            Err(error) => outcome == Err::<AquaStorage<E>, Error>(error),
        }
    }

    /// The outcome reports that `other` lives on another device: both places,
    /// and the operation that met them.
    pub open spec fn mismatches<T>(
        self,
        other: AquaStorage<E>,
        op: Seq<char>,
        outcome: Result<T, Error>,
    ) -> bool {
        error::is_device_mismatch(
            outcome,
            self.spec_device().spec_location(),
            other.spec_device().spec_location(),
            op,
        )
    }

    /// Host values on a device.
    pub fn from_cpu(device: AquaDevice<E>, cpu: CpuStorage) -> (storage: Self)
        ensures
            storage.spec_device() == device,
            storage.spec_cpu() == cpu,
    {
        AquaStorage { device, cpu }
    }

    /// The host values.
    pub fn cpu_storage(&self) -> (cpu: &CpuStorage)
        ensures
            *cpu == self.spec_cpu(),
    {
        &self.cpu
    }

    /// The host values, to be changed in place.
    pub fn cpu_storage_mut(&mut self) -> (cpu: &mut CpuStorage)
        ensures
            *cpu == old(self).spec_cpu(),
            final(self).spec_cpu() == *final(cpu),
            final(self).spec_device() == old(self).spec_device(),
    {
        &mut self.cpu
    }

    /// Other host values on the same device.
    pub fn replace_cpu_storage(&self, cpu: CpuStorage) -> (storage: Self)
        ensures
            storage.spec_device() == self.spec_device(),
            storage.spec_cpu() == cpu,
    {
        AquaStorage { device: self.device.clone(), cpu }
    }

    /// Checks that the other operand lives on the same device.
    pub fn ensure_same_device(&self, other: &Self, op: &str) -> (outcome: Result<(), Error>)
        ensures
            self.spec_device().is_same_instance(other.spec_device()) ==> outcome == Ok::<
                (),
                Error,
            >(()),
            !self.spec_device().is_same_instance(other.spec_device()) ==> self.mismatches(
                *other,
                op@,
                outcome,
            ),
    {
        if self.device.same_instance(&other.device) {
            return Ok(());
        }
        Err(
            Error::DeviceMismatchBinaryOp {
                lhs: self.device.location(),
                rhs: other.device.location(),
                op: op.to_owned(),
            },
        )
    }

    /// Checks an executor's product against the operands.
    pub fn validate_matmul_output(
        &self,
        output: &CpuStorage,
        bmnk: (usize, usize, usize, usize),
    ) -> (outcome: Result<(), Error>)
        ensures
            error::same_outcome(outcome, matmul_output_outcome(self.spec_cpu(), *output, bmnk)),
    {
        if output.dtype() != self.cpu.dtype() {
            return Err(
                error_text4(
                    "Aqua executor matmul returned dtype ",
                    output.dtype().name(),
                    ", expected ",
                    self.cpu.dtype().name(),
                ),
            );
        }
        let (b, m, n, _) = bmnk;
        let expected_len = match b.checked_mul(m) {
            Some(matrices) => matrices.checked_mul(n),
            None => None,
        };
        let expected_len = match expected_len {
            Some(len) => len,
            None => {
                return Err(error_text("Aqua executor matmul output size overflow"));
            },
        };
        let actual_len = output.len();
        if actual_len != expected_len {
            return Err(
                error_text4(
                    "Aqua executor matmul returned ",
                    decimal_text(actual_len as u64).as_str(),
                    " elements, expected ",
                    decimal_text(expected_len as u64).as_str(),
                ),
            );
        }
        Ok(())
    }
}

/// A device has the number and the executor that it was made with, and its
/// handles stand for one device exactly where they agree on both.
pub proof fn law_devices_have_their_number_and_executor<E>(
    device_id: usize,
    executor: Arc<E>,
    device: AquaDevice<E>,
    told: usize,
    location: DeviceLocation,
    other: &AquaDevice<E>,
    same: bool,
)
    requires
        call_ensures(AquaDevice::<E>::with_executor, (device_id, executor), device),
        call_ensures(AquaDevice::<E>::device_id, (&device,), told),
        call_ensures(AquaDevice::<E>::location, (&device,), location),
        call_ensures(AquaDevice::<E>::same_device::<E>, (&device, other), same),
    ensures
        told == device_id,
        location == (DeviceLocation::Aqua { device_id }),
        device.spec_executor() == *executor,
        same <==> other.spec_device_id() == device_id && other.executor_identity()
            == device.executor_identity(),
{
}

/// Storage hands out the device and the values that it was made of; replacing
/// its values keeps its device.
pub proof fn law_storage_holds_what_it_was_made_of<E>(
    device: AquaDevice<E>,
    values: CpuStorage,
    others: CpuStorage,
    storage: AquaStorage<E>,
    held: &CpuStorage,
    replaced: AquaStorage<E>,
)
    requires
        call_ensures(AquaStorage::<E>::from_cpu, (device, values), storage),
        call_ensures(AquaStorage::<E>::cpu_storage, (&storage,), held),
        call_ensures(AquaStorage::<E>::replace_cpu_storage, (&storage, others), replaced),
    ensures
        *held == values,
        storage.spec_device() == device,
        replaced.spec_device() == device,
        replaced.spec_cpu() == others,
{
}

/// A device is printed with its number and its executor's name, which stands in
/// quotes where it is made of plain characters.
pub proof fn law_devices_are_printed_with_their_executor<E: AquaExecutor>(
    device: &AquaDevice<E>,
    shown: String,
)
    requires
        call_ensures(AquaDevice::<E>::text, (device,), shown),
    ensures
        exists|name: &'static str|
            {
                &&& #[trigger] call_ensures(E::name, (&device.spec_executor(),), name)
                &&& text::is_plain(name@) ==> shown@ == "AquaDevice { device_id: "@ + text::decimal(
                    device.spec_device_id() as nat,
                ) + ", executor: "@ + ("\""@ + name@ + "\""@) + " }"@
            },
{
}

} // verus!
