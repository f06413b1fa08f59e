//! Where tensors live.

use crate::aqua_backend;
use crate::aqua_backend::{AquaDevice, CpuFallbackAquaExecutor};
use crate::error::Error;
use crate::text;
use crate::text::decimal_text;
use vstd::prelude::*;

verus! {

/// Where a device stands.
#[derive(Clone, Copy, Debug, PartialEq, Eq, Structural)]
pub enum DeviceLocation {
    Cpu,
    Cuda { gpu_id: usize },
    Metal { gpu_id: usize },
    Aqua { device_id: usize },
}

impl DeviceLocation {
    /// The location as it is printed in messages.
    pub open spec fn spec_text(self) -> Seq<char> {
        match self {
            DeviceLocation::Cpu => "Cpu"@,
            DeviceLocation::Cuda { gpu_id } => "Cuda { gpu_id: "@ + text::decimal(gpu_id as nat) + " }"@,
            DeviceLocation::Metal { gpu_id } => "Metal { gpu_id: "@ + text::decimal(gpu_id as nat)
                + " }"@,
            DeviceLocation::Aqua { device_id } => "Aqua { device_id: "@ + text::decimal(device_id as nat)
                + " }"@,
        }
    }

    /// The location as it is printed in messages.
    pub fn text(&self) -> (text: String)
        ensures
            text@ == self.spec_text(),
    {
        match self {
            DeviceLocation::Cpu => "Cpu".to_owned(),
            DeviceLocation::Cuda { gpu_id } => numbered("Cuda { gpu_id: ", *gpu_id),
            DeviceLocation::Metal { gpu_id } => numbered("Metal { gpu_id: ", *gpu_id),
            DeviceLocation::Aqua { device_id } => numbered("Aqua { device_id: ", *device_id),
        }
    }
}

/// A record with one number, as it is printed.
fn numbered(head: &str, number: usize) -> (text: String)
    ensures
        text@ == head@ + text::decimal(number as nat) + " }"@,
{
    let mut text = head.to_owned();
    text.append(decimal_text(number as u64).as_str());
    text.append(" }");
    text
}

/// A device that tensors live on. The GPUs have no runtime here, and are known
/// by their number; an AQuA device keeps its values on the host.
#[derive(Debug)]
pub enum Device {
    Cpu,
    Cuda { gpu_id: usize },
    Metal { gpu_id: usize },
    Aqua(AquaDevice<CpuFallbackAquaExecutor>),
}

impl Device {
    /// A new AQuA device of that number. It is the same device as its clones,
    /// and as no other.
    pub fn new_aqua(device_id: usize) -> (outcome: Result<Device, Error>)
        ensures
            match outcome {
                Ok(Device::Aqua(aqua)) => {
                    &&& aqua.spec_device_id() == device_id
                    &&& aqua.spec_executor() == CpuFallbackAquaExecutor
                    &&& aqua.is_identified()
                },
                _ => false,
            },
    {
        match AquaDevice::new(device_id) {
            Ok(aqua) => Ok(Device::Aqua(aqua)),
            Err(error) => Err(error),
        }
    }

    /// The device's place.
    pub open spec fn spec_location(self) -> DeviceLocation {
        match self {
            Device::Cpu => DeviceLocation::Cpu,
            Device::Cuda { gpu_id } => DeviceLocation::Cuda { gpu_id },
            Device::Metal { gpu_id } => DeviceLocation::Metal { gpu_id },
            Device::Aqua(aqua) => aqua.spec_location(),
        }
    }

    /// Both handles stand for one device. AQuA devices of one number differ
    /// where their executors do.
    pub open spec fn is_same_device(self, other: Device) -> bool {
        match (self, other) {
            (Device::Cpu, Device::Cpu) => true,
            (Device::Cuda { gpu_id: a }, Device::Cuda { gpu_id: b }) => a == b,
            (Device::Metal { gpu_id: a }, Device::Metal { gpu_id: b }) => a == b,
            (Device::Aqua(a), Device::Aqua(b)) => a.is_same_instance(b),
            _ => false,
        }
    }

    /// Whether both handles stand for one device.
    pub fn same_device(&self, other: &Device) -> (same: bool)
        ensures
            same == self.is_same_device(*other),
    {
        match (self, other) {
            (Device::Cpu, Device::Cpu) => true,
            (Device::Cuda { gpu_id: a }, Device::Cuda { gpu_id: b }) => *a == *b,
            (Device::Metal { gpu_id: a }, Device::Metal { gpu_id: b }) => *a == *b,
            (Device::Aqua(a), Device::Aqua(b)) => a.same_device(b),
            _ => false,
        }
    }

    /// The device's place.
    pub fn location(&self) -> (location: DeviceLocation)
        ensures
            location == self.spec_location(),
    {
        match self {
            Device::Cpu => DeviceLocation::Cpu,
            Device::Cuda { gpu_id } => DeviceLocation::Cuda { gpu_id: *gpu_id },
            Device::Metal { gpu_id } => DeviceLocation::Metal { gpu_id: *gpu_id },
            Device::Aqua(aqua) => aqua.location(),
        }
    }

    /// Whether this is the host.
    pub fn is_cpu(&self) -> (host: bool)
        ensures
            host == (*self is Cpu),
    {
        match self {
            Device::Cpu => true,
            _ => false,
        }
    }

    /// Whether this is an AQuA device.
    pub fn is_aqua(&self) -> (aqua: bool)
        ensures
            aqua == (*self is Aqua),
    {
        match self {
            Device::Aqua(_) => true,
            _ => false,
        }
    }

    /// The device as it is printed. The GPUs are printed by their place.
    pub open spec fn spec_text(self) -> Seq<char> {
        match self {
            Device::Aqua(aqua) => "Aqua("@ + aqua_backend::device_text(
                aqua.spec_device_id(),
                "\"cpu-fallback\""@,
            ) + ")"@,
            _ => self.spec_location().spec_text(),
        }
    }

    /// The device as it is printed.
    pub fn text(&self) -> (text: String)
        ensures
            text@ == self.spec_text(),
    {
        match self {
            Device::Aqua(aqua) => {
                let mut text = "Aqua(".to_owned();
                text.append(aqua.text().as_str());
                text.append(")");
                proof {
                    reveal_strlit("cpu-fallback");
                    reveal_strlit("\"cpu-fallback\"");
                    reveal_strlit("\"");
                    assert("\""@ + "cpu-fallback"@ + "\""@ =~= "\"cpu-fallback\""@);
                }
                text
            },
            _ => self.location().text(),
        }
    }
}

impl Clone for Device {
    fn clone(&self) -> (copy: Device)
        ensures
            copy == *self,
    {
        match self {
            Device::Cpu => Device::Cpu,
            Device::Cuda { gpu_id } => Device::Cuda { gpu_id: *gpu_id },
            Device::Metal { gpu_id } => Device::Metal { gpu_id: *gpu_id },
            Device::Aqua(aqua) => Device::Aqua(aqua.clone()),
        }
    }
}

/// A clone stands for the same device, and device identity is symmetric and
/// transitive.
pub proof fn law_device_identity_is_an_equivalence(a: Device, b: Device, c: Device)
    ensures
        a.is_same_device(a),
        a.is_same_device(b) == b.is_same_device(a),
        a.is_same_device(b) && b.is_same_device(c) ==> a.is_same_device(c),
        a.is_same_device(b) ==> a.spec_location() == b.spec_location(),
{
}

/// Two handles stand for one device only where they name the same kind of device
/// and the same number; on the host and on the GPUs that is enough.
pub proof fn law_devices_are_told_by_kind_and_number(a: &Device, b: &Device, same: bool)
    requires
        call_ensures(Device::same_device, (a, b), same),
    ensures
        *a is Cpu && *b is Cpu ==> same,
        *a is Cuda && *b is Cuda ==> same == (a->Cuda_gpu_id == b->Cuda_gpu_id),
        *a is Metal && *b is Metal ==> same == (a->Metal_gpu_id == b->Metal_gpu_id),
        *a is Aqua && *b is Aqua && same ==> a->Aqua_0.spec_device_id() == b->Aqua_0.spec_device_id()
            && a->Aqua_0.executor_identity() == b->Aqua_0.executor_identity(),
        *a is Aqua && *b is Aqua && a->Aqua_0.spec_device_id() == b->Aqua_0.spec_device_id()
            && a->Aqua_0.executor_identity() == b->Aqua_0.executor_identity() ==> same,
        same ==> (*a is Cpu <==> *b is Cpu) && (*a is Cuda <==> *b is Cuda) && (*a is Metal
            <==> *b is Metal),
{
}

/// A device's place has its kind and its number, and is printed with both.
pub proof fn law_places_are_printed_with_kind_and_number(
    device: &Device,
    location: DeviceLocation,
    text: String,
)
    requires
        call_ensures(Device::location, (device,), location),
        call_ensures(DeviceLocation::text, (&location,), text),
    ensures
        *device is Cpu ==> location is Cpu && text@ == "Cpu"@,
        *device is Cuda ==> location == (DeviceLocation::Cuda { gpu_id: device->Cuda_gpu_id })
            && text@ == "Cuda { gpu_id: "@ + text::decimal(device->Cuda_gpu_id as nat) + " }"@,
        *device is Metal ==> location == (DeviceLocation::Metal { gpu_id: device->Metal_gpu_id })
            && text@ == "Metal { gpu_id: "@ + text::decimal(device->Metal_gpu_id as nat) + " }"@,
        *device is Aqua ==> location == (DeviceLocation::Aqua {
            device_id: device->Aqua_0.spec_device_id(),
        }) && text@ == "Aqua { device_id: "@ + text::decimal(
            device->Aqua_0.spec_device_id() as nat,
        ) + " }"@,
{
}

/// A device is printed as its place is; an AQuA device is printed with its
/// executor's name.
pub proof fn law_devices_are_printed(device: &Device, shown: String)
    requires
        call_ensures(Device::text, (device,), shown),
    ensures
        *device is Cpu ==> shown@ == "Cpu"@,
        *device is Cuda ==> shown@ == "Cuda { gpu_id: "@ + text::decimal(device->Cuda_gpu_id as nat)
            + " }"@,
        *device is Metal ==> shown@ == "Metal { gpu_id: "@ + text::decimal(device->Metal_gpu_id as nat)
            + " }"@,
        *device is Aqua ==> shown@ == "Aqua(AquaDevice { device_id: "@ + text::decimal(
            device->Aqua_0.spec_device_id() as nat,
        ) + ", executor: \"cpu-fallback\" })"@,
{
    if *device is Aqua {
        reveal_strlit("Aqua(AquaDevice { device_id: ");
        reveal_strlit("Aqua(");
        reveal_strlit("AquaDevice { device_id: ");
        reveal_strlit(", executor: ");
        reveal_strlit("\"cpu-fallback\"");
        reveal_strlit(" }");
        reveal_strlit(")");
        reveal_strlit(", executor: \"cpu-fallback\" })");
        let number = text::decimal(device->Aqua_0.spec_device_id() as nat);
        assert("Aqua("@ + ("AquaDevice { device_id: "@ + number + ", executor: "@
            + "\"cpu-fallback\""@ + " }"@) + ")"@ =~= "Aqua(AquaDevice { device_id: "@ + number
            + ", executor: \"cpu-fallback\" })"@);
    }
}

} // verus!
