//! Tensor values on the host.

use vstd::prelude::*;
use vstd::slice::slice_to_vec;

verus! {

/// The element types of tensors that are not quantized.
#[derive(Clone, Copy, Debug, PartialEq, Eq, Structural)]
pub enum DType {
    U8,
    U32,
    I16,
    I32,
    I64,
    BF16,
    F16,
    F32,
    F64,
    F8E4M3,
    F6E2M3,
    F6E3M2,
    F4,
    F8E8M0,
}

impl DType {
    /// The type's name as it is printed.
    pub open spec fn spec_name(self) -> Seq<char> {
        match self {
            DType::U8 => "U8"@,
            DType::U32 => "U32"@,
            DType::I16 => "I16"@,
            DType::I32 => "I32"@,
            DType::I64 => "I64"@,
            DType::BF16 => "BF16"@,
            DType::F16 => "F16"@,
            DType::F32 => "F32"@,
            DType::F64 => "F64"@,
            DType::F8E4M3 => "F8E4M3"@,
            DType::F6E2M3 => "F6E2M3"@,
            DType::F6E3M2 => "F6E3M2"@,
            DType::F4 => "F4"@,
            DType::F8E8M0 => "F8E8M0"@,
        }
    }

    /// The type's short name.
    pub open spec fn spec_str(self) -> Seq<char> {
        match self {
            DType::U8 => "u8"@,
            DType::U32 => "u32"@,
            DType::I16 => "i16"@,
            DType::I32 => "i32"@,
            DType::I64 => "i64"@,
            DType::BF16 => "bf16"@,
            DType::F16 => "f16"@,
            DType::F32 => "f32"@,
            DType::F64 => "f64"@,
            DType::F8E4M3 => "f8e4m3"@,
            DType::F6E2M3 => "f6e2m3"@,
            DType::F6E3M2 => "f6e3m2"@,
            DType::F4 => "f4"@,
            DType::F8E8M0 => "f8e8m0"@,
        }
    }

    /// The type's short name.
    pub fn as_str(&self) -> (name: &'static str)
        ensures
            name@ == self.spec_str(),
    {
        match self {
            DType::U8 => "u8",
            DType::U32 => "u32",
            DType::I16 => "i16",
            DType::I32 => "i32",
            DType::I64 => "i64",
            DType::BF16 => "bf16",
            DType::F16 => "f16",
            DType::F32 => "f32",
            DType::F64 => "f64",
            DType::F8E4M3 => "f8e4m3",
            DType::F6E2M3 => "f6e2m3",
            DType::F6E3M2 => "f6e3m2",
            DType::F4 => "f4",
            DType::F8E8M0 => "f8e8m0",
        }
    }

    /// The type's name as it is printed.
    pub fn name(&self) -> (name: &'static str)
        ensures
            name@ == self.spec_name(),
    {
        match self {
            DType::U8 => "U8",
            DType::U32 => "U32",
            DType::I16 => "I16",
            DType::I32 => "I32",
            DType::I64 => "I64",
            DType::BF16 => "BF16",
            DType::F16 => "F16",
            DType::F32 => "F32",
            DType::F64 => "F64",
            DType::F8E4M3 => "F8E4M3",
            DType::F6E2M3 => "F6E2M3",
            DType::F6E3M2 => "F6E3M2",
            DType::F4 => "F4",
            DType::F8E8M0 => "F8E8M0",
        }
    }
}

/// A flat run of values. The fractional types are kept as their bit patterns,
/// the packed ones as bytes.
#[derive(Debug)]
pub enum CpuStorage {
    U8(Vec<u8>),
    U32(Vec<u32>),
    I16(Vec<i16>),
    I32(Vec<i32>),
    I64(Vec<i64>),
    BF16(Vec<u16>),
    F16(Vec<u16>),
    F32(Vec<u32>),
    F64(Vec<u64>),
    F8E4M3(Vec<u8>),
    F6E2M3(Vec<u8>),
    F6E3M2(Vec<u8>),
    F4(Vec<u8>),
    F8E8M0(Vec<u8>),
}

impl CpuStorage {
    /// The element type.
    pub open spec fn spec_dtype(self) -> DType {
        match self {
            CpuStorage::U8(_) => DType::U8,
            CpuStorage::U32(_) => DType::U32,
            CpuStorage::I16(_) => DType::I16,
            CpuStorage::I32(_) => DType::I32,
            CpuStorage::I64(_) => DType::I64,
            CpuStorage::BF16(_) => DType::BF16,
            CpuStorage::F16(_) => DType::F16,
            CpuStorage::F32(_) => DType::F32,
            CpuStorage::F64(_) => DType::F64,
            CpuStorage::F8E4M3(_) => DType::F8E4M3,
            CpuStorage::F6E2M3(_) => DType::F6E2M3,
            CpuStorage::F6E3M2(_) => DType::F6E3M2,
            CpuStorage::F4(_) => DType::F4,
            CpuStorage::F8E8M0(_) => DType::F8E8M0,
        }
    }

    /// The number of entries.
    pub open spec fn spec_len(self) -> nat {
        match self {
            CpuStorage::U8(values) => values@.len(),
            CpuStorage::U32(values) => values@.len(),
            CpuStorage::I16(values) => values@.len(),
            CpuStorage::I32(values) => values@.len(),
            CpuStorage::I64(values) => values@.len(),
            CpuStorage::BF16(values) => values@.len(),
            CpuStorage::F16(values) => values@.len(),
            CpuStorage::F32(values) => values@.len(),
            CpuStorage::F64(values) => values@.len(),
            CpuStorage::F8E4M3(values) => values@.len(),
            CpuStorage::F6E2M3(values) => values@.len(),
            CpuStorage::F6E3M2(values) => values@.len(),
            CpuStorage::F4(values) => values@.len(),
            CpuStorage::F8E8M0(values) => values@.len(),
        }
    }

    /// Both hold the same entries of the same type.
    pub open spec fn same_values(self, other: CpuStorage) -> bool {
        match (self, other) {
            (CpuStorage::U8(a), CpuStorage::U8(b)) => a@ == b@,
            (CpuStorage::U32(a), CpuStorage::U32(b)) => a@ == b@,
            (CpuStorage::I16(a), CpuStorage::I16(b)) => a@ == b@,
            (CpuStorage::I32(a), CpuStorage::I32(b)) => a@ == b@,
            (CpuStorage::I64(a), CpuStorage::I64(b)) => a@ == b@,
            (CpuStorage::BF16(a), CpuStorage::BF16(b)) => a@ == b@,
            (CpuStorage::F16(a), CpuStorage::F16(b)) => a@ == b@,
            (CpuStorage::F32(a), CpuStorage::F32(b)) => a@ == b@,
            (CpuStorage::F64(a), CpuStorage::F64(b)) => a@ == b@,
            (CpuStorage::F8E4M3(a), CpuStorage::F8E4M3(b)) => a@ == b@,
            (CpuStorage::F6E2M3(a), CpuStorage::F6E2M3(b)) => a@ == b@,
            (CpuStorage::F6E3M2(a), CpuStorage::F6E3M2(b)) => a@ == b@,
            (CpuStorage::F4(a), CpuStorage::F4(b)) => a@ == b@,
            (CpuStorage::F8E8M0(a), CpuStorage::F8E8M0(b)) => a@ == b@,
            _ => false,
        }
    }

    /// The element type.
    pub fn dtype(&self) -> (dtype: DType)
        ensures
            dtype == self.spec_dtype(),
    {
        match self {
            CpuStorage::U8(_) => DType::U8,
            CpuStorage::U32(_) => DType::U32,
            CpuStorage::I16(_) => DType::I16,
            CpuStorage::I32(_) => DType::I32,
            CpuStorage::I64(_) => DType::I64,
            CpuStorage::BF16(_) => DType::BF16,
            CpuStorage::F16(_) => DType::F16,
            CpuStorage::F32(_) => DType::F32,
            CpuStorage::F64(_) => DType::F64,
            CpuStorage::F8E4M3(_) => DType::F8E4M3,
            CpuStorage::F6E2M3(_) => DType::F6E2M3,
            CpuStorage::F6E3M2(_) => DType::F6E3M2,
            CpuStorage::F4(_) => DType::F4,
            CpuStorage::F8E8M0(_) => DType::F8E8M0,
        }
    }

    /// The number of entries.
    pub fn len(&self) -> (len: usize)
        ensures
            len == self.spec_len(),
    {
        match self {
            CpuStorage::U8(values) => values.len(),
            CpuStorage::U32(values) => values.len(),
            CpuStorage::I16(values) => values.len(),
            CpuStorage::I32(values) => values.len(),
            CpuStorage::I64(values) => values.len(),
            CpuStorage::BF16(values) => values.len(),
            CpuStorage::F16(values) => values.len(),
            CpuStorage::F32(values) => values.len(),
            CpuStorage::F64(values) => values.len(),
            CpuStorage::F8E4M3(values) => values.len(),
            CpuStorage::F6E2M3(values) => values.len(),
            CpuStorage::F6E3M2(values) => values.len(),
            CpuStorage::F4(values) => values.len(),
            CpuStorage::F8E8M0(values) => values.len(),
        }
    }
}

impl Clone for CpuStorage {
    fn clone(&self) -> (copy: CpuStorage)
        ensures
            copy.same_values(*self),
            copy.spec_dtype() == self.spec_dtype(),
            copy.spec_len() == self.spec_len(),
    {
        match self {
            CpuStorage::U8(values) => {
                let copy = values.clone();
                assert(copy@ =~= values@);
                CpuStorage::U8(copy)
            },
            CpuStorage::U32(values) => {
                let copy = values.clone();
                assert(copy@ =~= values@);
                CpuStorage::U32(copy)
            },
            CpuStorage::I16(values) => {
                let copy = values.clone();
                assert(copy@ =~= values@);
                CpuStorage::I16(copy)
            },
            CpuStorage::I32(values) => {
                let copy = values.clone();
                assert(copy@ =~= values@);
                CpuStorage::I32(copy)
            },
            CpuStorage::I64(values) => {
                let copy = values.clone();
                assert(copy@ =~= values@);
                CpuStorage::I64(copy)
            },
            CpuStorage::BF16(values) => {
                let copy = values.clone();
                assert(copy@ =~= values@);
                CpuStorage::BF16(copy)
            },
            CpuStorage::F16(values) => {
                let copy = values.clone();
                assert(copy@ =~= values@);
                CpuStorage::F16(copy)
            },
            CpuStorage::F32(values) => {
                let copy = values.clone();
                assert(copy@ =~= values@);
                CpuStorage::F32(copy)
            },
            CpuStorage::F64(values) => {
                let copy = values.clone();
                assert(copy@ =~= values@);
                CpuStorage::F64(copy)
            },
            CpuStorage::F8E4M3(values) => {
                let copy = values.clone();
                assert(copy@ =~= values@);
                CpuStorage::F8E4M3(copy)
            },
            CpuStorage::F6E2M3(values) => {
                let copy = values.clone();
                assert(copy@ =~= values@);
                CpuStorage::F6E2M3(copy)
            },
            CpuStorage::F6E3M2(values) => {
                let copy = values.clone();
                assert(copy@ =~= values@);
                CpuStorage::F6E3M2(copy)
            },
            CpuStorage::F4(values) => {
                let copy = values.clone();
                assert(copy@ =~= values@);
                CpuStorage::F4(copy)
            },
            CpuStorage::F8E8M0(values) => {
                let copy = values.clone();
                assert(copy@ =~= values@);
                CpuStorage::F8E8M0(copy)
            },
        }
    }
}

/// The elements of tensors that can be handed over as they are.
pub trait WithDType: Sized {
    /// The storage holds these values, and their type.
    spec fn held_by(values: Seq<Self>, storage: CpuStorage) -> bool;

    /// A copy of the values as storage.
    fn to_cpu_storage(values: &[Self]) -> (storage: CpuStorage)
        ensures
            Self::held_by(values@, storage),
    ;
}

impl WithDType for u8 {
    open spec fn held_by(values: Seq<u8>, storage: CpuStorage) -> bool {
        storage is U8 && storage->U8_0@ == values
    }

    fn to_cpu_storage(values: &[u8]) -> (storage: CpuStorage) {
        let copy = slice_to_vec(values);
        assert(copy@ =~= values@);
        CpuStorage::U8(copy)
    }
}

impl WithDType for u32 {
    open spec fn held_by(values: Seq<u32>, storage: CpuStorage) -> bool {
        storage is U32 && storage->U32_0@ == values
    }

    fn to_cpu_storage(values: &[u32]) -> (storage: CpuStorage) {
        let copy = slice_to_vec(values);
        assert(copy@ =~= values@);
        CpuStorage::U32(copy)
    }
}

impl WithDType for i16 {
    open spec fn held_by(values: Seq<i16>, storage: CpuStorage) -> bool {
        storage is I16 && storage->I16_0@ == values
    }

    fn to_cpu_storage(values: &[i16]) -> (storage: CpuStorage) {
        let copy = slice_to_vec(values);
        assert(copy@ =~= values@);
        CpuStorage::I16(copy)
    }
}

impl WithDType for i32 {
    open spec fn held_by(values: Seq<i32>, storage: CpuStorage) -> bool {
        storage is I32 && storage->I32_0@ == values
    }

    fn to_cpu_storage(values: &[i32]) -> (storage: CpuStorage) {
        let copy = slice_to_vec(values);
        assert(copy@ =~= values@);
        CpuStorage::I32(copy)
    }
}

impl WithDType for i64 {
    open spec fn held_by(values: Seq<i64>, storage: CpuStorage) -> bool {
        storage is I64 && storage->I64_0@ == values
    }

    fn to_cpu_storage(values: &[i64]) -> (storage: CpuStorage) {
        let copy = slice_to_vec(values);
        assert(copy@ =~= values@);
        CpuStorage::I64(copy)
    }
}

/// A BF16 value, by its bit pattern.
#[derive(Clone, Copy, Debug, PartialEq, Eq, Structural)]
pub struct BF16Bits(pub u16);

impl WithDType for BF16Bits {
    open spec fn held_by(values: Seq<BF16Bits>, storage: CpuStorage) -> bool {
        storage is BF16 && storage->BF16_0@ == values.map_values(|value: BF16Bits| value.0)
    }

    fn to_cpu_storage(values: &[BF16Bits]) -> (storage: CpuStorage) {
        let mut copy: Vec<u16> = Vec::new();
        let mut i: usize = 0;
        while i < values.len()
            invariant
                i <= values@.len(),
                copy@ == values@.take(i as int).map_values(|value: BF16Bits| value.0),
            decreases values@.len() - i,
        {
            copy.push(values[i].0);
            i = i + 1;
            assert(copy@ =~= values@.take(i as int).map_values(|value: BF16Bits| value.0));
        }
        assert(values@.take(i as int) =~= values@);
        CpuStorage::BF16(copy)
    }
}

/// A F16 value, by its bit pattern.
#[derive(Clone, Copy, Debug, PartialEq, Eq, Structural)]
pub struct F16Bits(pub u16);

impl WithDType for F16Bits {
    open spec fn held_by(values: Seq<F16Bits>, storage: CpuStorage) -> bool {
        storage is F16 && storage->F16_0@ == values.map_values(|value: F16Bits| value.0)
    }

    fn to_cpu_storage(values: &[F16Bits]) -> (storage: CpuStorage) {
        let mut copy: Vec<u16> = Vec::new();
        let mut i: usize = 0;
        while i < values.len()
            invariant
                i <= values@.len(),
                copy@ == values@.take(i as int).map_values(|value: F16Bits| value.0),
            decreases values@.len() - i,
        {
            copy.push(values[i].0);
            i = i + 1;
            assert(copy@ =~= values@.take(i as int).map_values(|value: F16Bits| value.0));
        }
        assert(values@.take(i as int) =~= values@);
        CpuStorage::F16(copy)
    }
}

/// A F32 value, by its bit pattern.
#[derive(Clone, Copy, Debug, PartialEq, Eq, Structural)]
pub struct F32Bits(pub u32);

impl WithDType for F32Bits {
    open spec fn held_by(values: Seq<F32Bits>, storage: CpuStorage) -> bool {
        storage is F32 && storage->F32_0@ == values.map_values(|value: F32Bits| value.0)
    }

    fn to_cpu_storage(values: &[F32Bits]) -> (storage: CpuStorage) {
        let mut copy: Vec<u32> = Vec::new();
        let mut i: usize = 0;
        while i < values.len()
            invariant
                i <= values@.len(),
                copy@ == values@.take(i as int).map_values(|value: F32Bits| value.0),
            decreases values@.len() - i,
        {
            copy.push(values[i].0);
            i = i + 1;
            assert(copy@ =~= values@.take(i as int).map_values(|value: F32Bits| value.0));
        }
        assert(values@.take(i as int) =~= values@);
        CpuStorage::F32(copy)
    }
}

/// A F64 value, by its bit pattern.
#[derive(Clone, Copy, Debug, PartialEq, Eq, Structural)]
pub struct F64Bits(pub u64);

impl WithDType for F64Bits {
    open spec fn held_by(values: Seq<F64Bits>, storage: CpuStorage) -> bool {
        storage is F64 && storage->F64_0@ == values.map_values(|value: F64Bits| value.0)
    }

    fn to_cpu_storage(values: &[F64Bits]) -> (storage: CpuStorage) {
        let mut copy: Vec<u64> = Vec::new();
        let mut i: usize = 0;
        while i < values.len()
            invariant
                i <= values@.len(),
                copy@ == values@.take(i as int).map_values(|value: F64Bits| value.0),
            decreases values@.len() - i,
        {
            copy.push(values[i].0);
            i = i + 1;
            assert(copy@ =~= values@.take(i as int).map_values(|value: F64Bits| value.0));
        }
        assert(values@.take(i as int) =~= values@);
        CpuStorage::F64(copy)
    }
}

/// The names of the types, long and short.
pub proof fn law_types_are_printed_by_their_names(dtype: &DType, name: &'static str, short: &'static str)
    requires
        call_ensures(DType::name, (dtype,), name),
        call_ensures(DType::as_str, (dtype,), short),
    ensures
        *dtype is U8 ==> name@ == "U8"@ && short@ == "u8"@,
        *dtype is U32 ==> name@ == "U32"@ && short@ == "u32"@,
        *dtype is I16 ==> name@ == "I16"@ && short@ == "i16"@,
        *dtype is I32 ==> name@ == "I32"@ && short@ == "i32"@,
        *dtype is I64 ==> name@ == "I64"@ && short@ == "i64"@,
        *dtype is BF16 ==> name@ == "BF16"@ && short@ == "bf16"@,
        *dtype is F16 ==> name@ == "F16"@ && short@ == "f16"@,
        *dtype is F32 ==> name@ == "F32"@ && short@ == "f32"@,
        *dtype is F64 ==> name@ == "F64"@ && short@ == "f64"@,
        *dtype is F8E4M3 ==> name@ == "F8E4M3"@ && short@ == "f8e4m3"@,
        *dtype is F6E2M3 ==> name@ == "F6E2M3"@ && short@ == "f6e2m3"@,
        *dtype is F6E3M2 ==> name@ == "F6E3M2"@ && short@ == "f6e3m2"@,
        *dtype is F4 ==> name@ == "F4"@ && short@ == "f4"@,
        *dtype is F8E8M0 ==> name@ == "F8E8M0"@ && short@ == "f8e8m0"@,
{
}

/// The entries as integers.
pub open spec fn entry(storage: CpuStorage, i: int) -> int {
    match storage {
        CpuStorage::U8(values) => values@[i] as int,
        CpuStorage::U32(values) => values@[i] as int,
        CpuStorage::I16(values) => values@[i] as int,
        CpuStorage::I32(values) => values@[i] as int,
        CpuStorage::I64(values) => values@[i] as int,
        CpuStorage::BF16(values) => values@[i] as int,
        CpuStorage::F16(values) => values@[i] as int,
        CpuStorage::F32(values) => values@[i] as int,
        CpuStorage::F64(values) => values@[i] as int,
        CpuStorage::F8E4M3(values) => values@[i] as int,
        CpuStorage::F6E2M3(values) => values@[i] as int,
        CpuStorage::F6E3M2(values) => values@[i] as int,
        CpuStorage::F4(values) => values@[i] as int,
        CpuStorage::F8E8M0(values) => values@[i] as int,
    }
}

/// Storage that holds the same values has the same type, length and entries.
pub proof fn law_same_values_agree_on_everything(a: CpuStorage, b: CpuStorage, i: int)
    requires
        a.same_values(b),
    ensures
        a.spec_dtype() == b.spec_dtype(),
        a.spec_len() == b.spec_len(),
        entry(a, i) == entry(b, i),
{
}

/// The type and the number of values of storage are those of the values in it.
pub proof fn law_storage_knows_its_values(storage: &CpuStorage, dtype: DType, len: usize)
    requires
        call_ensures(CpuStorage::dtype, (storage,), dtype),
        call_ensures(CpuStorage::len, (storage,), len),
    ensures
        *storage is U8 ==> dtype is U8 && len == storage->U8_0@.len(),
        *storage is U32 ==> dtype is U32 && len == storage->U32_0@.len(),
        *storage is I16 ==> dtype is I16 && len == storage->I16_0@.len(),
        *storage is I32 ==> dtype is I32 && len == storage->I32_0@.len(),
        *storage is I64 ==> dtype is I64 && len == storage->I64_0@.len(),
        *storage is BF16 ==> dtype is BF16 && len == storage->BF16_0@.len(),
        *storage is F16 ==> dtype is F16 && len == storage->F16_0@.len(),
        *storage is F32 ==> dtype is F32 && len == storage->F32_0@.len(),
        *storage is F64 ==> dtype is F64 && len == storage->F64_0@.len(),
        *storage is F8E4M3 ==> dtype is F8E4M3 && len == storage->F8E4M3_0@.len(),
        *storage is F6E2M3 ==> dtype is F6E2M3 && len == storage->F6E2M3_0@.len(),
        *storage is F6E3M2 ==> dtype is F6E3M2 && len == storage->F6E3M2_0@.len(),
        *storage is F4 ==> dtype is F4 && len == storage->F4_0@.len(),
        *storage is F8E8M0 ==> dtype is F8E8M0 && len == storage->F8E8M0_0@.len(),
{
}

/// Values that are handed over keep their type, their number, their order and
/// what each of them is.
pub proof fn law_values_are_held_as_they_are(
    bytes: Seq<u8>,
    words: Seq<u32>,
    longs: Seq<i64>,
    storage: CpuStorage,
    i: int,
)
    ensures
        <u8 as WithDType>::held_by(bytes, storage) && 0 <= i < bytes.len() ==> storage.spec_dtype() is U8
            && storage.spec_len() == bytes.len() && entry(storage, i) == bytes[i],
        <u32 as WithDType>::held_by(words, storage) && 0 <= i < words.len()
            ==> storage.spec_dtype() is U32 && storage.spec_len() == words.len() && entry(storage, i)
            == words[i],
        <i64 as WithDType>::held_by(longs, storage) && 0 <= i < longs.len()
            ==> storage.spec_dtype() is I64 && storage.spec_len() == longs.len() && entry(storage, i)
            == longs[i],
{
}

/// Short signed values keep their type, their number, their order and what each
/// of them is.
pub proof fn law_short_values_are_held_as_they_are(
    shorts: Seq<i16>,
    words: Seq<i32>,
    storage: CpuStorage,
    i: int,
)
    ensures
        <i16 as WithDType>::held_by(shorts, storage) && 0 <= i < shorts.len()
            ==> storage.spec_dtype() is I16 && storage.spec_len() == shorts.len() && entry(storage, i)
            == shorts[i],
        <i32 as WithDType>::held_by(words, storage) && 0 <= i < words.len()
            ==> storage.spec_dtype() is I32 && storage.spec_len() == words.len() && entry(storage, i)
            == words[i],
{
}

/// Fractional values keep their type, their number, their order and their bit
/// patterns.
pub proof fn law_fractional_values_keep_their_bits(
    brains: Seq<BF16Bits>,
    halves: Seq<F16Bits>,
    singles: Seq<F32Bits>,
    doubles: Seq<F64Bits>,
    storage: CpuStorage,
    i: int,
)
    ensures
        <BF16Bits as WithDType>::held_by(brains, storage) && 0 <= i < brains.len()
            ==> storage.spec_dtype() is BF16 && storage.spec_len() == brains.len() && entry(storage, i)
            == brains[i].0,
        <F16Bits as WithDType>::held_by(halves, storage) && 0 <= i < halves.len()
            ==> storage.spec_dtype() is F16 && storage.spec_len() == halves.len() && entry(storage, i)
            == halves[i].0,
        <F32Bits as WithDType>::held_by(singles, storage) && 0 <= i < singles.len()
            ==> storage.spec_dtype() is F32 && storage.spec_len() == singles.len() && entry(storage, i)
            == singles[i].0,
        <F64Bits as WithDType>::held_by(doubles, storage) && 0 <= i < doubles.len()
            ==> storage.spec_dtype() is F64 && storage.spec_len() == doubles.len() && entry(storage, i)
            == doubles[i].0,
{
}

} // verus!
