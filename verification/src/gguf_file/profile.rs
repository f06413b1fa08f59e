//! How a file announces that it uses the type numbers of the Q8_H family.

use crate::dtype;
use crate::dtype::GgmlDType;
use crate::error;
use crate::error::{error_text, error_text2, error_text3, error_text5, Error};
use crate::gguf_file::Value;
use crate::names;
use crate::names::NameMap;
use crate::shape::Shape;
use crate::text;
use crate::text::{decimal_text, same_text};
use vstd::prelude::*;

verus! {

pub const PROFILE_KEY: &'static str = "aqua.gguf.profile";

pub const PROFILE_VERSION_KEY: &'static str = "aqua.gguf.profile_version";

pub const QUANTIZATION_VERSION_KEY: &'static str = "general.quantization_version";

pub const FILE_TYPE_KEY: &'static str = "general.file_type";

pub const PROFILE_VERSION: u32 = 1;

pub const QUANTIZATION_VERSION: u32 = 2;

pub const Q8_H1_DTYPE: u32 = 39;

pub const Q8_HP1_DTYPE: u32 = 41;

pub const Q8_H1_FILE_TYPE: u32 = 38;

pub const Q8_HP1_FILE_TYPE: u32 = 40;

/// How the type numbers of a file are read.
#[derive(Clone, Copy, Debug, Eq, PartialEq, Structural)]
pub enum GgufTypeProfile {
    Standard,
    AquaQ8H1,
    AquaQ8Hp1,
}

impl GgufTypeProfile {
    /// The number of the Q8_H type that the profile does not use.
    pub open spec fn spec_other_h_dtype_id(self) -> Option<u32> {
        match self {
            GgufTypeProfile::Standard => None,
            GgufTypeProfile::AquaQ8H1 => Some(Q8_HP1_DTYPE),
            GgufTypeProfile::AquaQ8Hp1 => Some(Q8_H1_DTYPE),
        }
    }

    /// The file type that goes with the profile.
    pub open spec fn spec_file_type(self) -> Option<u32> {
        match self {
            GgufTypeProfile::Standard => None,
            GgufTypeProfile::AquaQ8H1 => Some(Q8_H1_FILE_TYPE),
            GgufTypeProfile::AquaQ8Hp1 => Some(Q8_HP1_FILE_TYPE),
        }
    }

    /// The profile's name as it is printed.
    pub open spec fn spec_name(self) -> Seq<char> {
        match self {
            GgufTypeProfile::Standard => "Standard"@,
            GgufTypeProfile::AquaQ8H1 => "AquaQ8H1"@,
            GgufTypeProfile::AquaQ8Hp1 => "AquaQ8Hp1"@,
        }
    }

    /// The number of the Q8_H type that the profile does not use.
    pub fn other_h_dtype_id(self) -> (id: Option<u32>)
        ensures
            id == self.spec_other_h_dtype_id(),
    {
        match self {
            GgufTypeProfile::Standard => None,
            GgufTypeProfile::AquaQ8H1 => Some(Q8_HP1_DTYPE),
            GgufTypeProfile::AquaQ8Hp1 => Some(Q8_H1_DTYPE),
        }
    }

    /// The file type that goes with the profile.
    pub fn file_type(self) -> (file_type: Option<u32>)
        ensures
            file_type == self.spec_file_type(),
    {
        match self {
            GgufTypeProfile::Standard => None,
            GgufTypeProfile::AquaQ8H1 => Some(Q8_H1_FILE_TYPE),
            GgufTypeProfile::AquaQ8Hp1 => Some(Q8_HP1_FILE_TYPE),
        }
    }

    /// The profile's name as it is printed.
    pub fn name(self) -> (name: &'static str)
        ensures
            name@ == self.spec_name(),
    {
        match self {
            GgufTypeProfile::Standard => "Standard",
            GgufTypeProfile::AquaQ8H1 => "AquaQ8H1",
            GgufTypeProfile::AquaQ8Hp1 => "AquaQ8Hp1",
        }
    }
}

/// What a file says of one tensor, its type number not yet decoded.
#[derive(Debug)]
pub struct RawTensorInfo {
    pub shape: Shape,
    pub offset: u64,
    pub raw_dtype: u32,
}

/// The number under a key, if there is one and it is a `U32`.
pub open spec fn number_under(metadata: Map<Seq<char>, Value>, key: Seq<char>) -> Option<u32> {
    if metadata.contains_key(key) {
        match metadata[key] {
            Value::U32(value) => Some(value),
            _ => None,
        }
    } else {
        None
    }
}

/// Some tensor has the given type number.
pub open spec fn uses_dtype(tensors: Map<Seq<char>, RawTensorInfo>, raw_dtype: u32) -> bool {
    exists|name: Seq<char>| #[trigger]
        tensors.contains_key(name) && tensors[name].raw_dtype == raw_dtype
}

/// The profile of a file without profile keys: its quantization version and
/// file type must be those of the profile, and a tensor must use its type.
pub open spec fn legacy_profile(
    metadata: Map<Seq<char>, Value>,
    tensors: Map<Seq<char>, RawTensorInfo>,
) -> GgufTypeProfile {
    let current = number_under(metadata, QUANTIZATION_VERSION_KEY@) == Some(QUANTIZATION_VERSION);
    let file_type = number_under(metadata, FILE_TYPE_KEY@);
    if current && file_type == Some(Q8_H1_FILE_TYPE) && uses_dtype(tensors, Q8_H1_DTYPE) {
        GgufTypeProfile::AquaQ8H1
    } else if current && file_type == Some(Q8_HP1_FILE_TYPE) && uses_dtype(tensors, Q8_HP1_DTYPE) {
        GgufTypeProfile::AquaQ8Hp1
    } else {
        GgufTypeProfile::Standard
    }
}

/// What a caller prints when the profile metadata are refused.
pub open spec fn invalid_profile_text(reason: Seq<char>) -> Seq<char> {
    "invalid AQuA GGUF profile metadata: "@ + reason
}

/// The profile that goes by a name.
pub open spec fn profile_named(name: Seq<char>) -> Option<GgufTypeProfile> {
    if name == "q8_h1"@ {
        Some(GgufTypeProfile::AquaQ8H1)
    } else if name == "q8_hp1"@ {
        Some(GgufTypeProfile::AquaQ8Hp1)
    } else {
        None
    }
}

/// What the metadata must hold beside the profile's name and version.
pub open spec fn explicit_profile_outcome(
    metadata: Map<Seq<char>, Value>,
    profile: GgufTypeProfile,
) -> Result<(), Seq<char>> {
    match profile.spec_file_type() {
        None => Err("missing AQuA profile file type"@),
        Some(file_type) => {
            if number_under(metadata, QUANTIZATION_VERSION_KEY@) != Some(QUANTIZATION_VERSION) {
                Err(invalid_profile_text("general.quantization_version must be U32 value 2"@))
            } else if number_under(metadata, FILE_TYPE_KEY@) != Some(file_type) {
                Err(
                    invalid_profile_text(
                        "general.file_type must be U32 value "@ + text::decimal(file_type as nat),
                    ),
                )
            } else {
                Ok(())
            }
        },
    }
}

/// A profile's file uses no tensor of the other Q8_H type.
pub open spec fn h_dtype_set_outcome(
    profile: GgufTypeProfile,
    tensors: Map<Seq<char>, RawTensorInfo>,
) -> Result<(), Seq<char>> {
    match profile.spec_other_h_dtype_id() {
        Some(other) if uses_dtype(tensors, other) => Err(
            "mixed Q8_H tensor types are not supported by the "@ + profile.spec_name()
                + " profile"@,
        ),
        _ => Ok(()),
    }
}

/// The profile that the metadata announce: by both profile keys, or, where
/// neither is there, by the legacy fingerprint.
pub open spec fn announced_profile(
    metadata: Map<Seq<char>, Value>,
    tensors: Map<Seq<char>, RawTensorInfo>,
) -> Result<GgufTypeProfile, Seq<char>> {
    let named = metadata.contains_key(PROFILE_KEY@) && metadata[PROFILE_KEY@] is String;
    let versioned = number_under(metadata, PROFILE_VERSION_KEY@) == Some(PROFILE_VERSION);
    if !metadata.contains_key(PROFILE_KEY@) && !metadata.contains_key(PROFILE_VERSION_KEY@) {
        Ok(legacy_profile(metadata, tensors))
    } else if named && versioned {
        let name = metadata[PROFILE_KEY@]->String_0@;
        match profile_named(name) {
            None => Err(invalid_profile_text("unknown profile '"@ + name + "'"@)),
            Some(profile) => match explicit_profile_outcome(metadata, profile) {
                Ok(_) => Ok(profile),
                Err(text) => Err(text),
            },
        }
    } else {
        Err(
            invalid_profile_text(
                "profile must be String and profile_version must be U32 value 1"@,
            ),
        )
    }
}

/// The profile of a file: the announced one, unless the file mixes the two
/// Q8_H types.
pub open spec fn profile_outcome(
    metadata: Map<Seq<char>, Value>,
    tensors: Map<Seq<char>, RawTensorInfo>,
) -> Result<GgufTypeProfile, Seq<char>> {
    match announced_profile(metadata, tensors) {
        Err(text) => Err(text),
        Ok(profile) => match h_dtype_set_outcome(profile, tensors) {
            Err(text) => Err(text),
            Ok(_) => Ok(profile),
        },
    }
}

/// The profile of a file.
pub fn detect_type_profile(
    metadata: &NameMap<Value>,
    tensors: &NameMap<RawTensorInfo>,
) -> (outcome: Result<GgufTypeProfile, Error>)
    requires
        metadata.wf(),
        tensors.wf(),
    ensures
        error::same_outcome(outcome, profile_outcome(metadata@, tensors@)),
{
    let profile = match (metadata.get(PROFILE_KEY), metadata.get(PROFILE_VERSION_KEY)) {
        (None, None) => detect_legacy_profile(metadata, tensors),
        (Some(Value::String(name)), Some(Value::U32(version))) if *version == PROFILE_VERSION => {
            let profile = if same_text(name.as_str(), "q8_h1") {
                GgufTypeProfile::AquaQ8H1
            } else if same_text(name.as_str(), "q8_hp1") {
                GgufTypeProfile::AquaQ8Hp1
            } else {
                return Err(
                    invalid_profile(
                        error_text3("unknown profile '", name.as_str(), "'").message().as_str(),
                    ),
                );
            };
            match validate_explicit_profile(metadata, profile) {
                Ok(()) => {},
                Err(error) => {
                    return Err(error);
                },
            }
            profile
        },
        _ => {
            return Err(
                invalid_profile("profile must be String and profile_version must be U32 value 1"),
            );
        },
    };
    match validate_h_dtype_set(profile, tensors) {
        Ok(()) => Ok(profile),
        Err(error) => Err(error),
    }
}

/// The profile of a file without profile keys.
pub fn detect_legacy_profile(
    metadata: &NameMap<Value>,
    tensors: &NameMap<RawTensorInfo>,
) -> (profile: GgufTypeProfile)
    requires
        metadata.wf(),
        tensors.wf(),
    ensures
        profile == legacy_profile(metadata@, tensors@),
{
    let quantization_version = metadata_u32(metadata, QUANTIZATION_VERSION_KEY);
    let file_type = metadata_u32(metadata, FILE_TYPE_KEY);
    let has_h1 = has_dtype(tensors, Q8_H1_DTYPE);
    let has_hp1 = has_dtype(tensors, Q8_HP1_DTYPE);
    match (quantization_version, file_type) {
        (Some(version), Some(file_type)) if version == QUANTIZATION_VERSION => {
            if file_type == Q8_H1_FILE_TYPE && has_h1 {
                GgufTypeProfile::AquaQ8H1
            } else if file_type == Q8_HP1_FILE_TYPE && has_hp1 {
                GgufTypeProfile::AquaQ8Hp1
            } else {
                GgufTypeProfile::Standard
            }
        },
        _ => GgufTypeProfile::Standard,
    }
}

/// Checks what the metadata must hold beside the profile's name and version.
pub fn validate_explicit_profile(
    metadata: &NameMap<Value>,
    profile: GgufTypeProfile,
) -> (outcome: Result<(), Error>)
    requires
        metadata.wf(),
    ensures
        error::same_outcome(outcome, explicit_profile_outcome(metadata@, profile)),
{
    let expected_file_type = match profile.file_type() {
        Some(file_type) => file_type,
        None => {
            return Err(error_text("missing AQuA profile file type"));
        },
    };
    match metadata_u32(metadata, QUANTIZATION_VERSION_KEY) {
        Some(version) if version == QUANTIZATION_VERSION => {},
        _ => {
            return Err(invalid_profile("general.quantization_version must be U32 value 2"));
        },
    }
    match metadata_u32(metadata, FILE_TYPE_KEY) {
        Some(file_type) if file_type == expected_file_type => {},
        _ => {
            let reason = error_text2(
                "general.file_type must be U32 value ",
                decimal_text(expected_file_type as u64).as_str(),
            );
            return Err(invalid_profile(reason.message().as_str()));
        },
    }
    Ok(())
}

/// Checks that a profile's file uses no tensor of the other Q8_H type.
pub fn validate_h_dtype_set(
    profile: GgufTypeProfile,
    tensors: &NameMap<RawTensorInfo>,
) -> (outcome: Result<(), Error>)
    requires
        tensors.wf(),
    ensures
        error::same_outcome(outcome, h_dtype_set_outcome(profile, tensors@)),
{
    if let Some(other_dtype) = profile.other_h_dtype_id() {
        if has_dtype(tensors, other_dtype) {
            return Err(
                error_text3(
                    "mixed Q8_H tensor types are not supported by the ",
                    profile.name(),
                    " profile",
                ),
            );
        }
    }
    Ok(())
}

/// What a caller prints when the standard profile meets a Q8_H number.
pub open spec fn standard_profile_text(raw: u32) -> Seq<char> {
    "GGUF dtype id "@ + text::decimal(raw as nat)
        + " is not supported by the Standard profile; it is only interpreted as "@ + (if raw
        == Q8_H1_DTYPE {
        "Q8_H1"@
    } else {
        "Q8_HP1"@
    }) + " in an AQuA Q8_H GGUF profile"@
}

/// Under a profile, a number is read as a type: the type has that number, and
/// the standard profile reads none of the Q8_H family.
pub open spec fn reads_as(raw: u32, profile: GgufTypeProfile, dtype: GgmlDType) -> bool {
    dtype.spec_id() == raw && (profile is Standard ==> !dtype.is_raw())
}

/// The type that a number stands for under a profile: the standard profile
/// refuses the numbers of the Q8_H family.
pub fn decode_gguf_dtype(raw: u32, profile: GgufTypeProfile) -> (outcome: Result<GgmlDType, Error>)
    ensures
        match outcome {
            Ok(dtype) => reads_as(raw, profile, dtype),
            Err(error) => {
                if profile is Standard && (raw == Q8_H1_DTYPE || raw == Q8_HP1_DTYPE) {
                    error.says(standard_profile_text(raw))
                } else {
                    &&& error.says(dtype::unknown_dtype_text(raw))
                    &&& forall|other: GgmlDType| #![trigger other.spec_id()] other.spec_id() != raw
                }
            },
        },
{
    match profile {
        GgufTypeProfile::AquaQ8H1 if raw == Q8_H1_DTYPE => Ok(GgmlDType::Q8H1),
        GgufTypeProfile::AquaQ8Hp1 if raw == Q8_HP1_DTYPE => Ok(GgmlDType::Q8HP1),
        GgufTypeProfile::Standard if raw == Q8_H1_DTYPE || raw == Q8_HP1_DTYPE => {
            let custom_name = if raw == Q8_H1_DTYPE {
                "Q8_H1"
            } else {
                "Q8_HP1"
            };
            Err(
                error_text5(
                    "GGUF dtype id ",
                    decimal_text(raw as u64).as_str(),
                    " is not supported by the Standard profile; it is only interpreted as ",
                    custom_name,
                    " in an AQuA Q8_H GGUF profile",
                ),
            )
        },
        _ => GgmlDType::from_u32(raw),
    }
}

/// The number under a key, if there is one and it is a `U32`.
pub fn metadata_u32(metadata: &NameMap<Value>, key: &str) -> (number: Option<u32>)
    requires
        metadata.wf(),
    ensures
        number == number_under(metadata@, key@),
{
    match metadata.get(key) {
        Some(Value::U32(value)) => Some(*value),
        _ => None,
    }
}

/// Whether some tensor has the given type number.
pub fn has_dtype(tensors: &NameMap<RawTensorInfo>, raw_dtype: u32) -> (found: bool)
    requires
        tensors.wf(),
    ensures
        found == uses_dtype(tensors@, raw_dtype),
{
    let entries = tensors.entries();
    proof {
        names::lemma_entry_map(entries@);
    }
    let mut i: usize = 0;
    while i < entries.len()
        invariant
            i <= entries@.len(),
            names::names_distinct(entries@),
            names::entry_map(entries@) == tensors@,
            forall|j: int| 0 <= j < i ==> (#[trigger] entries@[j]).1.raw_dtype != raw_dtype,
        decreases entries@.len() - i,
    {
        if entries[i].1.raw_dtype == raw_dtype {
            proof {
                names::lemma_entry_map(entries@);
                assert(tensors@.contains_key(entries@[i as int].0@));
            }
            return true;
        }
        i = i + 1;
    }
    proof {
        if uses_dtype(tensors@, raw_dtype) {
            let name = choose|name: Seq<char>| #[trigger]
                tensors@.contains_key(name) && tensors@[name].raw_dtype == raw_dtype;
            let j = choose|j: int| 0 <= j < entries@.len() && #[trigger] entries@[j].0@ == name;
            assert(entries@[j].1.raw_dtype != raw_dtype);
        }
    }
    false
}

/// The error for refused profile metadata.
pub fn invalid_profile(reason: &str) -> (error: Error)
    ensures
        error.says(invalid_profile_text(reason@)),
{
    error_text2("invalid AQuA GGUF profile metadata: ", reason)
}

/// In a file whose profile was accepted, a tensor is read as a Q8_H type only
/// under the profile of that type: the two Q8_H types never meet in one file,
/// and a standard file holds neither.
pub proof fn law_accepted_file_holds_one_h_type(
    metadata: Map<Seq<char>, Value>,
    tensors: Map<Seq<char>, RawTensorInfo>,
    profile: GgufTypeProfile,
    name: Seq<char>,
    dtype: GgmlDType,
)
    requires
        profile_outcome(metadata, tensors) == Ok::<GgufTypeProfile, Seq<char>>(profile),
        tensors.contains_key(name),
        reads_as(tensors[name].raw_dtype, profile, dtype),
    ensures
        dtype is Q8H1 ==> profile is AquaQ8H1,
        dtype is Q8HP1 ==> profile is AquaQ8Hp1,
{
    assert(uses_dtype(tensors, tensors[name].raw_dtype));
}

/// A file type alone announces nothing: without profile keys, a file in which
/// no tensor has a Q8_H number is read by the standard profile.
pub proof fn law_file_type_alone_is_standard(
    metadata: Map<Seq<char>, Value>,
    tensors: Map<Seq<char>, RawTensorInfo>,
)
    requires
        !metadata.contains_key(PROFILE_KEY@),
        !metadata.contains_key(PROFILE_VERSION_KEY@),
        !uses_dtype(tensors, Q8_H1_DTYPE),
        !uses_dtype(tensors, Q8_HP1_DTYPE),
    ensures
        profile_outcome(metadata, tensors) == Ok::<GgufTypeProfile, Seq<char>>(
            GgufTypeProfile::Standard,
        ),
{
}

/// The file says nothing of a profile: it has neither of the two keys.
pub open spec fn is_unannounced(metadata: Map<Seq<char>, Value>) -> bool {
    &&& !metadata.contains_key("aqua.gguf.profile"@)
    &&& !metadata.contains_key("aqua.gguf.profile_version"@)
}

/// There is this number under that key.
pub open spec fn has_number(metadata: Map<Seq<char>, Value>, key: Seq<char>, number: u32) -> bool {
    metadata.contains_key(key) && metadata[key] == Value::U32(number)
}

/// Some tensor has this type number.
pub open spec fn has_tensor(tensors: Map<Seq<char>, RawTensorInfo>, number: u32) -> bool {
    exists|name: Seq<char>| #[trigger]
        tensors.contains_key(name) && tensors[name].raw_dtype == number
}

/// What tells a file of the Q8_H family that announces no profile: version 2 of
/// the quantization, the file type of the family's member, and a tensor of it.
/// Every other such file is a standard one.
pub proof fn law_unannounced_profiles_are_told_by_their_numbers(
    metadata: &NameMap<Value>,
    tensors: &NameMap<RawTensorInfo>,
    outcome: Result<GgufTypeProfile, Error>,
)
    requires
        call_ensures(detect_type_profile, (metadata, tensors), outcome),
        is_unannounced(metadata@),
    ensures
        outcome == Ok::<GgufTypeProfile, Error>(GgufTypeProfile::AquaQ8H1) <==> {
            &&& has_number(metadata@, "general.quantization_version"@, 2)
            &&& has_number(metadata@, "general.file_type"@, 38)
            &&& has_tensor(tensors@, 39)
            &&& !has_tensor(tensors@, 41)
        },
        outcome == Ok::<GgufTypeProfile, Error>(GgufTypeProfile::AquaQ8Hp1) <==> {
            &&& has_number(metadata@, "general.quantization_version"@, 2)
            &&& has_number(metadata@, "general.file_type"@, 40)
            &&& has_tensor(tensors@, 41)
            &&& !has_tensor(tensors@, 39)
        },
        outcome is Err <==> {
            &&& has_number(metadata@, "general.quantization_version"@, 2)
            &&& has_number(metadata@, "general.file_type"@, 38) || has_number(
                metadata@,
                "general.file_type"@,
                40,
            )
            &&& has_tensor(tensors@, 39)
            &&& has_tensor(tensors@, 41)
        },
{
    assert(uses_dtype(tensors@, 39) == has_tensor(tensors@, 39));
    assert(uses_dtype(tensors@, 41) == has_tensor(tensors@, 41));
}

/// A file that announces a profile has it exactly where name, version, file
/// type and quantization version go together, and no tensor is of the family's
/// other member; it is never read as a standard file.
pub proof fn law_announced_profiles_are_checked(
    metadata: &NameMap<Value>,
    tensors: &NameMap<RawTensorInfo>,
    outcome: Result<GgufTypeProfile, Error>,
)
    requires
        call_ensures(detect_type_profile, (metadata, tensors), outcome),
        !is_unannounced(metadata@),
    ensures
        outcome == Ok::<GgufTypeProfile, Error>(GgufTypeProfile::AquaQ8H1) <==> {
            &&& announces(metadata@, "q8_h1"@)
            &&& has_number(metadata@, "general.quantization_version"@, 2)
            &&& has_number(metadata@, "general.file_type"@, 38)
            &&& !has_tensor(tensors@, 41)
        },
        outcome == Ok::<GgufTypeProfile, Error>(GgufTypeProfile::AquaQ8Hp1) <==> {
            &&& announces(metadata@, "q8_hp1"@)
            &&& has_number(metadata@, "general.quantization_version"@, 2)
            &&& has_number(metadata@, "general.file_type"@, 40)
            &&& !has_tensor(tensors@, 39)
        },
        outcome != Ok::<GgufTypeProfile, Error>(GgufTypeProfile::Standard),
{
    reveal_strlit("q8_h1");
    reveal_strlit("q8_hp1");
    assert("q8_h1"@.len() != "q8_hp1"@.len());
    assert(uses_dtype(tensors@, 39) == has_tensor(tensors@, 39));
    assert(uses_dtype(tensors@, 41) == has_tensor(tensors@, 41));
}

/// The metadata announce the profile of that name, in version 1.
pub open spec fn announces(metadata: Map<Seq<char>, Value>, name: Seq<char>) -> bool {
    &&& has_number(metadata, "aqua.gguf.profile_version"@, 1)
    &&& metadata.contains_key("aqua.gguf.profile"@)
    &&& metadata["aqua.gguf.profile"@] is String
    &&& metadata["aqua.gguf.profile"@]->String_0@ == name
}

/// Type numbers are read as the format numbers them, but for those of the Q8_H
/// family, which a standard file cannot use.
pub proof fn law_numbers_are_read_under_the_profile(
    raw: u32,
    profile: GgufTypeProfile,
    outcome: Result<GgmlDType, Error>,
    plain: Result<GgmlDType, Error>,
)
    requires
        call_ensures(decode_gguf_dtype, (raw, profile), outcome),
        call_ensures(GgmlDType::from_u32, (raw,), plain),
    ensures
        raw != 39 && raw != 41 ==> outcome is Ok == plain is Ok,
        outcome is Ok ==> outcome == plain,
        raw == 39 ==> (outcome == Ok::<GgmlDType, Error>(GgmlDType::Q8H1) <==> !(profile is Standard)),
        raw == 41 ==> (outcome == Ok::<GgmlDType, Error>(GgmlDType::Q8HP1) <==> !(profile is Standard)),
        (raw == 39 || raw == 41) && profile is Standard ==> outcome is Err,
{
    assert(GgmlDType::Q8H1.spec_id() == 39 && GgmlDType::Q8HP1.spec_id() == 41);
    if plain is Ok {
        assert(plain->Ok_0.spec_id() == raw);
    }
    if outcome is Ok {
        dtype::law_dtype_ids_are_distinct(outcome->Ok_0, outcome->Ok_0);
        assert(outcome->Ok_0.spec_id() == raw);
    }
}

/// The profiles' own numbers and names: each knows the file type of its member
/// of the family and the type number of the other.
pub proof fn law_profiles_know_their_numbers(
    profile: GgufTypeProfile,
    other: Option<u32>,
    file_type: Option<u32>,
    name: &'static str,
)
    requires
        call_ensures(GgufTypeProfile::other_h_dtype_id, (profile,), other),
        call_ensures(GgufTypeProfile::file_type, (profile,), file_type),
        call_ensures(GgufTypeProfile::name, (profile,), name),
    ensures
        profile is Standard ==> other is None && file_type is None && name@ == "Standard"@,
        profile is AquaQ8H1 ==> other == Some(41u32) && file_type == Some(38u32) && name@ == "AquaQ8H1"@,
        profile is AquaQ8Hp1 ==> other == Some(39u32) && file_type == Some(40u32) && name@ == "AquaQ8Hp1"@,
{
}

} // verus!
