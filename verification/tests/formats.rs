//! Type numbers and the profiles under which files use them.

use candle_aqua::error::Error;
use candle_aqua::ggml_file::decode_ggml_dtype;
use candle_aqua::gguf_file::profile::{
    invalid_profile, validate_explicit_profile, validate_h_dtype_set,
};
use candle_aqua::gguf_file::{
    decode_gguf_dtype, detect_legacy_profile, detect_type_profile, Content, GgufTypeProfile,
    RawTensorInfo, TensorInfo, Value, VersionedMagic,
};
use candle_aqua::names::NameMap;
use candle_aqua::quantized::GgmlDType;
use candle_aqua::shape::Shape;

const PROFILE_KEY: &str = "aqua.gguf.profile";
const PROFILE_VERSION_KEY: &str = "aqua.gguf.profile_version";
const QUANTIZATION_VERSION_KEY: &str = "general.quantization_version";
const FILE_TYPE_KEY: &str = "general.file_type";

fn table(metadata: Vec<(&str, Value)>) -> NameMap<Value> {
    let mut table = NameMap::new();
    for (key, value) in metadata {
        table.insert(key.to_string(), value);
    }
    table
}

fn raw_tensors(tensors: &[(&str, GgmlDType)]) -> NameMap<RawTensorInfo> {
    let mut table = NameMap::new();
    for (name, dtype) in tensors {
        table.insert(
            name.to_string(),
            RawTensorInfo {
                shape: Shape::from_dims(vec![1, 32]),
                offset: 0,
                raw_dtype: dtype.to_u32(),
            },
        );
    }
    table
}

fn read(metadata: Vec<(&str, Value)>, tensors: &[(&str, GgmlDType)]) -> Result<Content, Error> {
    let metadata = table(metadata);
    let raw = raw_tensors(tensors);
    let profile = detect_type_profile(&metadata, &raw)?;
    let mut tensor_infos = NameMap::new();
    for (name, info) in raw.entries().iter() {
        tensor_infos.insert(
            name.clone(),
            TensorInfo {
                ggml_dtype: decode_gguf_dtype(info.raw_dtype, profile)?,
                shape: info.shape.clone(),
                offset: info.offset,
            },
        );
    }
    Ok(Content {
        magic: VersionedMagic::GgufV2,
        metadata,
        tensor_infos,
        profile,
    })
}

fn explicit_profile(name: &str, file_type: u32, version: u32) -> Vec<(&str, Value)> {
    vec![
        (PROFILE_KEY, Value::String(name.to_owned())),
        (PROFILE_VERSION_KEY, Value::U32(version)),
        (QUANTIZATION_VERSION_KEY, Value::U32(2)),
        (FILE_TYPE_KEY, Value::U32(file_type)),
    ]
}

fn legacy_profile(file_type: u32) -> Vec<(&'static str, Value)> {
    vec![
        (QUANTIZATION_VERSION_KEY, Value::U32(2)),
        (FILE_TYPE_KEY, Value::U32(file_type)),
    ]
}

fn read_error(metadata: Vec<(&str, Value)>, tensors: &[(&str, GgmlDType)]) -> String {
    read(metadata, tensors)
        .expect_err("profile must be rejected")
        .message()
}

#[test]
fn ggml_legacy_41_is_not_hp1() {
    let error = decode_ggml_dtype(41).expect_err("legacy GGML must reject Q8_HP1");
    assert_eq!(
        error.message(),
        "Q8_H1/Q8_HP1 custom types are only supported in profile-identified GGUF files"
    );
}

#[test]
fn ggml_legacy_39_is_not_h1() {
    let error = decode_ggml_dtype(39).expect_err("legacy GGML must reject Q8_H1");
    assert_eq!(
        error.message(),
        "Q8_H1/Q8_HP1 custom types are only supported in profile-identified GGUF files"
    );
}

#[test]
fn ggml_legacy_reads_the_other_numbers() -> Result<(), Error> {
    assert_eq!(decode_ggml_dtype(0)?, GgmlDType::F32);
    assert_eq!(decode_ggml_dtype(14)?, GgmlDType::Q6K);
    assert_eq!(decode_ggml_dtype(30)?, GgmlDType::BF16);
    let error = decode_ggml_dtype(40).expect_err("no type has this number");
    assert_eq!(error.message(), "unknown dtype for tensor 40");
    Ok(())
}

#[test]
fn q8_h1_dtype_id_round_trip() -> Result<(), Error> {
    assert_eq!(GgmlDType::from_u32(39)?, GgmlDType::Q8H1);
    assert_eq!(GgmlDType::Q8H1.to_u32(), 39);
    Ok(())
}

#[test]
fn q8_hp1_dtype_id_round_trip() -> Result<(), Error> {
    assert_eq!(GgmlDType::from_u32(41)?, GgmlDType::Q8HP1);
    assert_eq!(GgmlDType::Q8HP1.to_u32(), 41);
    Ok(())
}

#[test]
fn q8_h1_block_geometry() {
    assert_eq!(GgmlDType::Q8H1.block_size(), 32);
    assert_eq!(GgmlDType::Q8H1.type_size(), 44);
}

#[test]
fn q8_hp1_block_geometry() {
    assert_eq!(GgmlDType::Q8HP1.block_size(), 32);
    assert_eq!(GgmlDType::Q8HP1.type_size(), 40);
}

#[test]
fn unsupported_q8_h_custom_ids() {
    assert!(GgmlDType::from_u32(40).is_err());
    assert!(GgmlDType::from_u32(42).is_err());
}

#[test]
fn every_type_number_reads_back() -> Result<(), Error> {
    for id in [0, 1, 2, 3, 6, 7, 8, 9, 10, 11, 12, 13, 14, 15, 30, 39, 41] {
        assert_eq!(GgmlDType::from_u32(id)?.to_u32(), id);
    }
    for id in [4, 5, 16, 29, 31, 38, 40, 42, 1000] {
        assert!(GgmlDType::from_u32(id).is_err());
    }
    assert_eq!(GgmlDType::Q4K.block_size(), 256);
    assert_eq!(GgmlDType::Q4_0.type_size(), 18);
    Ok(())
}

#[test]
fn explicit_hp1_profile_decodes_41_as_q8_hp1() -> Result<(), Error> {
    let content = read(
        explicit_profile("q8_hp1", 40, 1),
        &[("weight", GgmlDType::Q8HP1)],
    )?;
    assert_eq!(content.profile, GgufTypeProfile::AquaQ8Hp1);
    assert_eq!(
        content.tensor_infos.get("weight").unwrap().ggml_dtype,
        GgmlDType::Q8HP1
    );
    Ok(())
}

#[test]
fn explicit_h1_profile_decodes_39_as_q8_h1() -> Result<(), Error> {
    let content = read(
        explicit_profile("q8_h1", 38, 1),
        &[("weight", GgmlDType::Q8H1)],
    )?;
    assert_eq!(content.profile, GgufTypeProfile::AquaQ8H1);
    assert_eq!(
        content.tensor_infos.get("weight").unwrap().ggml_dtype,
        GgmlDType::Q8H1
    );
    Ok(())
}

#[test]
fn legacy_hp1_fingerprint_is_accepted() -> Result<(), Error> {
    let content = read(legacy_profile(40), &[("weight", GgmlDType::Q8HP1)])?;
    assert_eq!(content.profile, GgufTypeProfile::AquaQ8Hp1);
    Ok(())
}

#[test]
fn legacy_h1_fingerprint_is_accepted() -> Result<(), Error> {
    let content = read(legacy_profile(38), &[("weight", GgmlDType::Q8H1)])?;
    assert_eq!(content.profile, GgufTypeProfile::AquaQ8H1);
    Ok(())
}

#[test]
fn file_type_40_without_dtype_41_is_not_hp1() -> Result<(), Error> {
    let content = read(legacy_profile(40), &[("weight", GgmlDType::F32)])?;
    assert_eq!(content.profile, GgufTypeProfile::Standard);
    Ok(())
}

#[test]
fn file_type_38_without_dtype_39_is_not_h1() -> Result<(), Error> {
    let content = read(legacy_profile(38), &[("weight", GgmlDType::F32)])?;
    assert_eq!(content.profile, GgufTypeProfile::Standard);
    Ok(())
}

#[test]
fn standard_profile_does_not_interpret_41_as_hp1() {
    let error = read_error(vec![], &[("weight", GgmlDType::Q8HP1)]);
    assert!(error.contains("Standard profile"));
    assert!(error.contains("41"));
}

#[test]
fn standard_profile_does_not_interpret_39_as_h1() {
    let error = read_error(vec![], &[("weight", GgmlDType::Q8H1)]);
    assert!(error.contains("Standard profile"));
    assert!(error.contains("39"));
}

#[test]
fn rejects_mixed_h_types() {
    let error = read_error(
        explicit_profile("q8_hp1", 40, 1),
        &[
            ("hp1.weight", GgmlDType::Q8HP1),
            ("h1.weight", GgmlDType::Q8H1),
        ],
    );
    assert!(error.contains("mixed Q8_H"));
}

#[test]
fn rejects_profile_file_type_mismatch() {
    let error = read_error(
        explicit_profile("q8_hp1", 38, 1),
        &[("weight", GgmlDType::Q8HP1)],
    );
    assert!(error.contains("invalid AQuA GGUF profile metadata"));
}

#[test]
fn rejects_unknown_aqua_profile_version() {
    let error = read_error(
        explicit_profile("q8_hp1", 40, 2),
        &[("weight", GgmlDType::Q8HP1)],
    );
    assert!(error.contains("invalid AQuA GGUF profile metadata"));
}

#[test]
fn profile_refusals_name_their_reason() {
    assert_eq!(
        read_error(explicit_profile("q9", 40, 1), &[]),
        "invalid AQuA GGUF profile metadata: unknown profile 'q9'"
    );
    assert_eq!(
        read_error(explicit_profile("q8_hp1", 38, 1), &[]),
        "invalid AQuA GGUF profile metadata: general.file_type must be U32 value 40"
    );
    assert_eq!(
        read_error(vec![(PROFILE_VERSION_KEY, Value::U32(1))], &[]),
        "invalid AQuA GGUF profile metadata: profile must be String and profile_version must be U32 value 1"
    );
    assert_eq!(
        read_error(
            vec![
                (PROFILE_KEY, Value::String("q8_h1".to_string())),
                (PROFILE_VERSION_KEY, Value::U32(1)),
                (FILE_TYPE_KEY, Value::U32(38)),
            ],
            &[]
        ),
        "invalid AQuA GGUF profile metadata: general.quantization_version must be U32 value 2"
    );
    assert_eq!(
        read_error(vec![], &[("weight", GgmlDType::Q8H1)]),
        "GGUF dtype id 39 is not supported by the Standard profile; it is only interpreted as Q8_H1 in an AQuA Q8_H GGUF profile"
    );
    assert_eq!(invalid_profile("why").message(), "invalid AQuA GGUF profile metadata: why");
}

#[test]
fn profile_pieces_agree() -> Result<(), Error> {
    let metadata = table(legacy_profile(38));
    let h1 = raw_tensors(&[("weight", GgmlDType::Q8H1)]);
    assert_eq!(detect_legacy_profile(&metadata, &h1), GgufTypeProfile::AquaQ8H1);
    validate_explicit_profile(&metadata, GgufTypeProfile::AquaQ8H1)?;
    assert!(validate_explicit_profile(&metadata, GgufTypeProfile::AquaQ8Hp1).is_err());
    assert_eq!(
        validate_explicit_profile(&metadata, GgufTypeProfile::Standard)
            .expect_err("the standard profile has no file type")
            .message(),
        "missing AQuA profile file type"
    );
    validate_h_dtype_set(GgufTypeProfile::AquaQ8H1, &h1)?;
    assert_eq!(
        validate_h_dtype_set(GgufTypeProfile::AquaQ8Hp1, &h1)
            .expect_err("the other type is there")
            .message(),
        "mixed Q8_H tensor types are not supported by the AquaQ8Hp1 profile"
    );
    assert_eq!(GgufTypeProfile::AquaQ8H1.other_h_dtype_id(), Some(41));
    assert_eq!(GgufTypeProfile::AquaQ8Hp1.file_type(), Some(40));
    assert_eq!(GgufTypeProfile::Standard.file_type(), None);
    Ok(())
}
