//! Conversion of files: the policy, the steps, and how the result is written.

use candle_aqua::convert::aqua::{
    convert_metadata, plan_tensor, AquaConversion, AquaConversionSummary, AquaStep,
};
use candle_aqua::convert::atomic::{FileAction, ShownPaths, WriteStage, TEMPORARY_SUFFIX};
use candle_aqua::convert::policy::{
    classify_aqua_quantization, quantize_plain, quantizes_plain, AquaCopyReason,
    AquaQuantizationAction, Quantization, QuantizationMode, GGML_QNT_VERSION,
    LLAMA_FTYPE_MOSTLY_Q8_H1, LLAMA_FTYPE_MOSTLY_Q8_HP1,
};
use candle_aqua::convert::request::{
    check_aqua_request, check_distinct_files, check_not_split, describe, heading, listing,
    names_to_print, output_place, plan_quantize, printed_lines, tensor_listing,
    validate_aqua_gguf_version, Format, OutputPlace, QuantizePlan,
};
use candle_aqua::convert::tally::Tally;
use candle_aqua::cpu_storage::{CpuStorage, DType};
use candle_aqua::error::Error;
use candle_aqua::gguf_file::{
    decode_gguf_dtype, detect_type_profile, GgufTypeProfile, RawTensorInfo, TensorInfo, Value,
    VersionedMagic,
};
use candle_aqua::names::{sorted_names, NameMap};
use candle_aqua::quantized::{BlockKernels, GgmlDType, QTensor, RowQuantizer};
use candle_aqua::shape::Shape;
use candle_aqua::sorting::sorted_by_name;
use candle_aqua::tensor::{Conversion, Storage, Tensor};
use half::{bf16, f16};

/// Arithmetic on the types of the synthetic file.
struct Reference;

fn from_bits(bits: &[u32]) -> Vec<f32> {
    bits.iter().map(|bits| f32::from_bits(*bits)).collect()
}

fn tensor(values: &[f32], dims: &[usize]) -> Tensor {
    Tensor::from_storage(
        Storage::Cpu(CpuStorage::F32(
            values.iter().map(|value| value.to_bits()).collect(),
        )),
        Shape::from_dims(dims.to_vec()),
    )
}

fn qtensor(values: &[f32], dims: &[usize], dtype: GgmlDType) -> QTensor {
    QTensor::quantize(&Reference, &tensor(values, dims), dtype).unwrap()
}

impl Conversion for Reference {
    fn to_dtype(&self, _: &CpuStorage, _: DType) -> Result<CpuStorage, Error> {
        Err(Error::Msg("no such conversion".to_string()))
    }
}

impl RowQuantizer<44> for Reference {
    fn quantize_row(&self, row: &[u32], blocks: Vec<[u8; 44]>) -> Result<Vec<[u8; 44]>, Error> {
        let mut blocks = blocks;
        for (block, values) in blocks.iter_mut().zip(from_bits(row).chunks_exact(32)) {
            block[..32].fill(values[0] as u8);
        }
        Ok(blocks)
    }
}

impl RowQuantizer<40> for Reference {
    fn quantize_row(&self, row: &[u32], blocks: Vec<[u8; 40]>) -> Result<Vec<[u8; 40]>, Error> {
        let values = from_bits(row);
        if values.iter().any(|value| value.is_nan()) {
            return Err(Error::Msg("row is not a number".to_string()));
        }
        let scale = values[0] / 64.0;
        let mut blocks = blocks;
        for (block, values) in blocks.iter_mut().zip(values.chunks_exact(32)) {
            let shift = (values[0] / 64.0 / scale).log2() as i16;
            block[..32].fill(64);
            block[32..34].copy_from_slice(&shift.to_ne_bytes());
            block[36..40].copy_from_slice(&scale.to_ne_bytes());
        }
        Ok(blocks)
    }
}

impl BlockKernels for Reference {
    fn from_float(&self, dtype: GgmlDType, values: &Vec<u32>, blocks: &Vec<u8>) -> Result<Vec<u8>, Error> {
        let values = from_bits(values);
        Ok(match dtype {
            GgmlDType::F32 => values.iter().flat_map(|value| value.to_le_bytes()).collect(),
            GgmlDType::F16 => values
                .iter()
                .flat_map(|value| f16::from_f32(*value).to_le_bytes())
                .collect(),
            GgmlDType::BF16 => values
                .iter()
                .flat_map(|value| bf16::from_f32(*value).to_le_bytes())
                .collect(),
            _ => blocks.clone(),
        })
    }

    fn from_float_imatrix(&self, _: GgmlDType, _: &Vec<u32>, _: &Vec<u32>, _: usize, blocks: &Vec<u8>) -> Result<Vec<u8>, Error> {
        Ok(blocks.clone())
    }

    fn to_float(&self, dtype: GgmlDType, blocks: &[u8], values: Vec<u32>) -> Result<Vec<u32>, Error> {
        let floats: Vec<f32> = match dtype {
            GgmlDType::F32 => blocks
                .chunks_exact(4)
                .map(|bytes| f32::from_le_bytes([bytes[0], bytes[1], bytes[2], bytes[3]]))
                .collect(),
            GgmlDType::F16 => blocks
                .chunks_exact(2)
                .map(|bytes| f16::from_le_bytes([bytes[0], bytes[1]]).to_f32())
                .collect(),
            GgmlDType::BF16 => blocks
                .chunks_exact(2)
                .map(|bytes| bf16::from_le_bytes([bytes[0], bytes[1]]).to_f32())
                .collect(),
            _ => return Ok(values),
        };
        Ok(floats.iter().map(|value| value.to_bits()).collect())
    }

    fn matmul(&self, _: GgmlDType, _: (usize, usize, usize), _: &[u32], _: &Vec<u8>, dst: Vec<u32>) -> Result<Vec<u32>, Error> {
        Ok(dst)
    }

    fn matmul_f16(&self, _: GgmlDType, _: (usize, usize, usize), _: &[u16], _: &Vec<u8>, dst: Vec<u16>) -> Result<Vec<u16>, Error> {
        Ok(dst)
    }

    fn matmul_transposed(&self, xs: &Tensor, _: &Tensor, _: &Vec<usize>) -> Result<Tensor, Error> {
        Ok(xs.clone())
    }

    fn index_select(&self, weights: &Tensor, _: &Tensor) -> Result<Tensor, Error> {
        Ok(weights.clone())
    }
}

fn synthetic_tensors() -> Vec<(&'static str, QTensor)> {
    let mut q_values = vec![0.0; 64 * 64];
    for row in q_values.chunks_exact_mut(64) {
        row[..32].fill(1.0);
        row[32..].fill(8.0);
    }
    vec![
        ("position_embd.weight", qtensor(&[7.0; 128 * 64], &[128, 64], GgmlDType::F32)),
        ("blk.0.attn_v.weight", qtensor(&[4.0; 64 * 64], &[64, 64], GgmlDType::BF16)),
        ("blk.0.attn_norm.weight", qtensor(&[5.0; 64], &[64], GgmlDType::F32)),
        ("blk.0.attn_q.weight", qtensor(&q_values, &[64, 64], GgmlDType::F32)),
        ("blk.0.attn_q.bias", qtensor(&[6.0; 64], &[64], GgmlDType::F32)),
        ("blk.0.ffn_up.weight", qtensor(&[3.0; 128 * 64], &[128, 64], GgmlDType::F32)),
        ("blk.0.attn_k.weight", qtensor(&[2.0; 64 * 64], &[64, 64], GgmlDType::F16)),
    ]
}

fn synthetic_metadata() -> NameMap<Value> {
    let mut metadata = NameMap::new();
    for (key, value) in [
        ("custom.tensor-tools.test", Value::String("preserve-me".to_string())),
        ("general.alignment", Value::U32(64)),
        ("general.file_type", Value::U32(1)),
        ("general.name", Value::String("synthetic-q8-h".to_string())),
        ("general.quantization_version", Value::U32(1)),
        ("general.architecture", Value::String("gpt2".to_string())),
    ] {
        metadata.insert(key.to_string(), value);
    }
    metadata
}

fn infos(tensors: &[(&'static str, QTensor)]) -> NameMap<TensorInfo> {
    let mut infos = NameMap::new();
    for (name, tensor) in tensors {
        infos.insert(
            name.to_string(),
            TensorInfo {
                ggml_dtype: tensor.dtype(),
                shape: tensor.shape().clone(),
                offset: 0,
            },
        );
    }
    infos
}

fn info(dims: &[usize], dtype: GgmlDType) -> TensorInfo {
    TensorInfo {
        ggml_dtype: dtype,
        shape: Shape::from_dims(dims.to_vec()),
        offset: 0,
    }
}

struct Converted {
    tensors: Vec<(String, GgmlDType, Vec<usize>, Vec<u8>)>,
    lines: Vec<String>,
    summary: AquaConversionSummary,
}

fn convert(
    tensors: Vec<(&'static str, QTensor)>,
    magic: VersionedMagic,
    quantization: Quantization,
) -> Result<Converted, Error> {
    let mut conversion =
        AquaConversion::begin(magic, &synthetic_metadata(), infos(&tensors), quantization)?;
    let mut rest = tensors;
    let mut lines = Vec::new();
    loop {
        let name = match conversion.next_name() {
            Some(name) => name.clone(),
            None => break,
        };
        let listed = conversion.next_info().unwrap();
        let at = rest.iter().position(|(listed, _)| *listed == name).unwrap();
        assert_eq!(listed.ggml_dtype, rest[at].1.dtype());
        let (_, tensor) = rest.swap_remove(at);
        lines.push(conversion.convert_next(&Reference, tensor)?);
    }
    let tensors = conversion
        .tensors()
        .iter()
        .map(|(name, tensor)| {
            (
                name.clone(),
                tensor.dtype(),
                tensor.shape().dims().clone(),
                tensor.data().unwrap().to_vec(),
            )
        })
        .collect();
    Ok(Converted {
        tensors,
        lines,
        summary: conversion.finish(1000, 700),
    })
}

#[test]
fn aqua_selector_matches_pinned_matrix_policy() {
    let matrix = Shape::from_dims(vec![64, 64]);
    let vector = Shape::from_dims(vec![64]);
    for name in [
        "token_embd.weight",
        "output.weight",
        "blk.0.attn_q.weight",
        "blk.0.attn_k.weight",
        "blk.0.attn_v.weight",
        "blk.0.attn_qkv.weight",
        "blk.0.attn_output.weight",
        "blk.0.ffn_gate.weight",
        "blk.0.ffn_up.weight",
        "blk.0.ffn_down.weight",
    ] {
        assert_eq!(
            classify_aqua_quantization(name, &matrix),
            AquaQuantizationAction::Quantize,
            "{name}"
        );
    }

    assert_eq!(
        classify_aqua_quantization("blk.0.attn_q.bias", &vector),
        AquaQuantizationAction::Copy(AquaCopyReason::NotWeight)
    );
    assert_eq!(
        classify_aqua_quantization("blk.0.attn_q.weight", &vector),
        AquaQuantizationAction::Copy(AquaCopyReason::NotMatrix)
    );
    for (name, reason) in [
        ("blk.0.attn_norm.weight", AquaCopyReason::Normalization),
        ("position_embd.weight", AquaCopyReason::PositionEmbedding),
        ("token_types.weight", AquaCopyReason::TokenTypeEmbedding),
        ("blk.0.ffn_gate_inp.weight", AquaCopyReason::ExpertGate),
        ("blk.0.ssm_conv1d.weight", AquaCopyReason::SsmConv1d),
        ("blk.0.time_mix_w1.weight", AquaCopyReason::RwkvTimeMix),
        (
            "blk.0.attn_rel_b.weight",
            AquaCopyReason::RelativeAttentionBias,
        ),
    ] {
        assert_eq!(
            classify_aqua_quantization(name, &matrix),
            AquaQuantizationAction::Copy(reason),
            "{name}"
        );
    }
}

#[test]
fn all_time_mixing_weights_are_copied() {
    let matrix = Shape::from_dims(vec![64, 64]);
    for part in [
        "first", "w0", "w1", "w2", "v0", "v1", "v2", "a0", "a1", "a2", "g1", "g2", "decay_w1",
        "decay_w2", "lerp_fused",
    ] {
        let name = format!("blk.3.time_mix_{part}.weight");
        assert_eq!(
            classify_aqua_quantization(&name, &matrix),
            AquaQuantizationAction::Copy(AquaCopyReason::RwkvTimeMix),
            "{name}"
        );
    }
    assert_eq!(
        classify_aqua_quantization("blk.3.time_mix_key.weight", &matrix),
        AquaQuantizationAction::Quantize
    );
    assert_eq!(AquaCopyReason::NotMatrix.as_str(), "not-matrix-weight");
    assert_eq!(AquaCopyReason::RwkvTimeMix.as_str(), "rwkv-time-mix");
}

#[test]
fn quantizations_name_their_types() {
    assert_eq!(LLAMA_FTYPE_MOSTLY_Q8_H1, 38);
    assert_eq!(LLAMA_FTYPE_MOSTLY_Q8_HP1, 40);
    assert_eq!(GGML_QNT_VERSION, 2);
    assert_eq!(Quantization::Q8H1.dtype(), GgmlDType::Q8H1);
    assert_eq!(Quantization::Q6k.dtype(), GgmlDType::Q6K);
    assert_eq!(Quantization::Q8H1.file_type(), Some(38));
    assert_eq!(Quantization::Q8HP1.file_type(), Some(40));
    assert_eq!(Quantization::Q8_0.file_type(), None);
    assert!(Quantization::Q8HP1.is_h());
    assert!(!Quantization::Q8_1.is_h());
    assert_eq!(Quantization::Q4k.name(), "Q4k");
}

#[test]
fn llama_mode_quantizes_all_matrices() -> Result<(), Error> {
    let mode = QuantizationMode::Llama;
    let source = || qtensor(&[1.0; 256], &[1, 256], GgmlDType::F32);
    assert_eq!(
        mode.quantize(&Reference, "blk.0.attn_q.weight", source(), GgmlDType::F16)?.dtype(),
        GgmlDType::F16
    );
    assert_eq!(
        mode.quantize(&Reference, "output.weight", source(), GgmlDType::F16)?.dtype(),
        GgmlDType::Q6K
    );
    assert_eq!(
        mode.quantize(&Reference, "blk.0.attn_q.bias", source(), GgmlDType::F16)?.dtype(),
        GgmlDType::F16
    );
    assert_eq!(
        mode.quantize(&Reference, "output", source(), GgmlDType::F16)?.dtype(),
        GgmlDType::F16
    );
    let vector = qtensor(&[1.0; 256], &[256], GgmlDType::F32);
    assert_eq!(
        mode.quantize(&Reference, "norm.weight", vector, GgmlDType::F16)?.dtype(),
        GgmlDType::F32
    );
    assert_eq!(
        QuantizationMode::Aqua
            .quantize(&Reference, "output.weight", source(), GgmlDType::Q8H1)
            .unwrap_err()
            .message(),
        "Aqua quantization must use the Q8_H GGUF conversion path"
    );
    Ok(())
}

#[test]
fn plain_tensors_fall_back_to_floats() -> Result<(), Error> {
    assert!(quantizes_plain(&Shape::from_dims(vec![3, 64]), GgmlDType::Q4_0));
    assert!(!quantizes_plain(&Shape::from_dims(vec![3, 33]), GgmlDType::Q4_0));
    assert!(!quantizes_plain(&Shape::from_dims(vec![64]), GgmlDType::Q4_0));
    let matrix = quantize_plain(&Reference, &tensor(&[1.0; 64], &[2, 32]), GgmlDType::Q4_0)?;
    assert_eq!(matrix.dtype(), GgmlDType::Q4_0);
    let vector = quantize_plain(&Reference, &tensor(&[1.0; 64], &[64]), GgmlDType::Q4_0)?;
    assert_eq!(vector.dtype(), GgmlDType::F32);
    Ok(())
}

#[test]
fn formats_follow_the_extension() {
    for (extension, format) in [
        ("safetensors", Some(Format::Safetensors)),
        ("safetensor", Some(Format::Safetensors)),
        ("npz", Some(Format::Npz)),
        ("pth", Some(Format::Pth)),
        ("pt", Some(Format::Pth)),
        ("ggml", Some(Format::Ggml)),
        ("gguf", Some(Format::Gguf)),
        ("bin", None),
        ("GGUF", None),
    ] {
        assert_eq!(Format::infer(Some(extension)), format, "{extension}");
    }
    assert_eq!(Format::infer(None), None);
    assert_eq!(Format::resolve(Some(Format::Pickle), Some("gguf")), Some(Format::Pickle));
    assert_eq!(Format::resolve(None, Some("gguf")), Some(Format::Gguf));
    assert_eq!(
        Format::Pickle.check_printable().unwrap_err().message(),
        "pickle format is not supported for print"
    );
    assert!(Format::Npz.check_printable().is_ok());
}

#[test]
fn listings_are_in_the_order_of_the_names() {
    let entries = |pairs: &[(&str, &str)]| -> Vec<(String, String)> {
        pairs.iter().map(|(name, text)| (name.to_string(), text.to_string())).collect()
    };
    assert_eq!(
        listing(entries(&[("b", "second"), ("a", "first"), ("ab", "between")])),
        ["a: first", "ab: between", "b: second"]
    );
    assert_eq!(
        listing(entries(&[("b", "1"), ("a", "2"), ("b", "0"), ("a", "1")])),
        ["a: 2", "a: 1", "b: 1", "b: 0"]
    );
    assert_eq!(
        sorted_by_name(vec![("y".to_string(), 1), ("x".to_string(), 2), ("y".to_string(), 0)]),
        [("x".to_string(), 2), ("y".to_string(), 1), ("y".to_string(), 0)]
    );
    let tensors = synthetic_tensors();
    let mut reversed = synthetic_tensors();
    reversed.reverse();
    let lines = tensor_listing(&infos(&tensors));
    assert_eq!(lines[0], "blk.0.attn_k.weight: [[64, 64]; F16]");
    assert_eq!(lines[6], "position_embd.weight: [[128, 64]; F32]");
    assert_eq!(lines, tensor_listing(&infos(&reversed)));
    assert_eq!(sorted_names(&infos(&tensors)), sorted_names(&infos(&reversed)));
    assert_eq!(describe(&Shape::from_dims(vec![]), "F32"), "[[]; F32]");
    assert_eq!(heading("output.weight"), "==== output.weight ====");
    assert_eq!(printed_lines("a", Some("[1.]")), ["==== a ====", "[1.]"]);
    assert_eq!(printed_lines("b", None), ["==== b ====", "not found"]);
    let all = vec!["x".to_string()];
    let asked = vec!["y".to_string()];
    assert_eq!(names_to_print(vec![], all.clone()), all);
    assert_eq!(names_to_print(asked.clone(), all), asked);
}

#[test]
fn requests_come_to_a_plan_or_a_refusal() {
    let gguf = Some("gguf");
    let plan = |files, input, output, quantization, mode| {
        plan_quantize(files, input, output, quantization, mode).map_err(|error| error.message())
    };
    let (llama, aqua) = (QuantizationMode::Llama, QuantizationMode::Aqua);
    assert_eq!(
        plan(0, None, gguf, Quantization::Q4_0, llama),
        Err("no specified input files".to_string())
    );
    assert_eq!(
        plan(1, gguf, gguf, Quantization::Q8HP1, llama),
        Err("Q8HP1 quantization requires --mode aqua".to_string())
    );
    assert_eq!(
        plan(2, gguf, gguf, Quantization::Q8HP1, aqua),
        Err("Q8_H conversion requires a single GGUF input".to_string())
    );
    assert_eq!(plan(1, gguf, gguf, Quantization::Q8H1, aqua), Ok(QuantizePlan::Aqua));
    assert_eq!(
        plan(1, gguf, gguf, Quantization::Q8_0, aqua),
        Err("Aqua mode requires q8_h1 or q8_hp1 quantization".to_string())
    );
    assert_eq!(
        plan(1, gguf, Some("safetensors"), Quantization::Q8_0, llama),
        Err("the generated file cannot use the safetensors extension".to_string())
    );
    assert_eq!(
        plan(3, Some("safetensors"), gguf, Quantization::Q8_0, llama),
        Ok(QuantizePlan::Safetensors)
    );
    assert_eq!(
        plan(2, gguf, gguf, Quantization::Q8_0, llama),
        Err("only a single in-file can be used when quantizing gguf files".to_string())
    );
    assert_eq!(plan(1, None, None, Quantization::Q8_0, llama), Ok(QuantizePlan::Gguf));
}

#[test]
fn row_aware_requests_are_checked() {
    let check = |quantization, input, output| {
        check_aqua_request(quantization, input, output).map_err(|error| error.message())
    };
    assert_eq!(check(Quantization::Q8H1, Some("gguf"), Some("gguf")), Ok(38));
    assert_eq!(check(Quantization::Q8HP1, Some("gguf"), Some("gguf")), Ok(40));
    assert_eq!(
        check(Quantization::Q4k, Some("gguf"), Some("gguf")),
        Err("Aqua mode requires q8_h1 or q8_hp1, got Q4k".to_string())
    );
    assert_eq!(
        check(Quantization::Q8H1, Some("bin"), Some("gguf")),
        Err("Q8_H conversion requires a single GGUF input".to_string())
    );
    assert_eq!(
        check(Quantization::Q8H1, Some("gguf"), None),
        Err("Q8_H conversion output must use the gguf extension".to_string())
    );
    assert!(check_distinct_files(false).is_ok());
    assert_eq!(
        check_distinct_files(true).unwrap_err().message(),
        "Q8_H conversion input and output paths must differ"
    );
    assert!(validate_aqua_gguf_version(VersionedMagic::GgufV2).is_ok());
    assert!(validate_aqua_gguf_version(VersionedMagic::GgufV3).is_ok());
    assert_eq!(
        validate_aqua_gguf_version(VersionedMagic::GgufV1).unwrap_err().message(),
        "Q8_H conversion supports GGUF V2/V3, not GGUF V1"
    );
}

#[test]
fn split_files_are_refused() {
    let mut metadata = synthetic_metadata();
    assert!(check_not_split(&metadata).is_ok());
    metadata.insert("a.split.count".to_string(), Value::U16(2));
    assert!(check_not_split(&metadata).is_ok());
    metadata.insert("split.count".to_string(), Value::U16(2));
    assert_eq!(
        check_not_split(&metadata).unwrap_err().message(),
        "unsupported split GGUF input"
    );
    let refused = |magic| {
        AquaConversion::begin(magic, &metadata, NameMap::new(), Quantization::Q8HP1)
            .unwrap_err()
            .message()
    };
    assert_eq!(refused(VersionedMagic::GgufV3), "unsupported split GGUF input");
    assert_eq!(
        refused(VersionedMagic::GgufV1),
        "Q8_H conversion supports GGUF V2/V3, not GGUF V1"
    );
}

#[test]
fn steps_follow_the_policy() {
    let step = |name, dims: &[usize], source, target| {
        plan_tensor(name, &info(dims, source), target).map_err(|error| error.message())
    };
    let (target, other) = (GgmlDType::Q8HP1, GgmlDType::Q8H1);
    assert_eq!(step("a.weight", &[2, 64], GgmlDType::BF16, target), Ok(AquaStep::Quantize));
    assert_eq!(step("a.weight", &[2, 64], target, target), Ok(AquaStep::KeepTarget));
    assert_eq!(
        step("a.bias", &[33], GgmlDType::Q8_0, target),
        Ok(AquaStep::Copy(AquaCopyReason::NotWeight))
    );
    assert_eq!(
        step("a.weight", &[64, 33], GgmlDType::F32, target),
        Err("Q8HP1 tensor a.weight has row width 33, which is not divisible by 32".to_string())
    );
    assert_eq!(
        step("a.weight", &[64, 64], GgmlDType::Q8_0, target),
        Err("Q8HP1 tensor a.weight cannot requantize source dtype Q8_0".to_string())
    );
    assert_eq!(
        step("a.weight", &[64, 64], other, target),
        Err("Q8HP1 tensor a.weight cannot requantize source dtype Q8H1".to_string())
    );
}

#[test]
fn conversion_is_deterministic_and_keeps_what_it_copies() -> Result<(), Error> {
    for magic in [VersionedMagic::GgufV2, VersionedMagic::GgufV3] {
        let first = convert(synthetic_tensors(), magic, Quantization::Q8HP1)?;
        let mut shuffled = synthetic_tensors();
        shuffled.reverse();
        let second = convert(shuffled, magic, Quantization::Q8HP1)?;
        assert_eq!(first.tensors, second.tensors);
        assert_eq!(first.lines, second.lines);
        assert_eq!(first.summary, second.summary);
        assert_eq!(first.summary.clone(), first.summary);

        let summary = &first.summary;
        assert_eq!(summary.total_tensors, 7);
        assert_eq!(summary.quantized_tensors, 4);
        assert_eq!(summary.already_target_tensors, 0);
        assert_eq!(summary.copied_tensors, 3);
        assert_eq!(summary.copied_by_dtype, [("F32".to_string(), 3)]);
        assert_eq!(summary.skipped_matrix_tensors, ["position_embd.weight"]);
        assert_eq!(summary.input_bytes, 1000);
        assert_eq!(summary.output_bytes, 700);
        assert_eq!(
            summary.line(GgmlDType::Q8HP1),
            "summary total=7 target=Q8HP1 quantized=4 already-target=0 copied=3 skipped-matrix=1 input-bytes=1000 output-bytes=700"
        );
        assert_eq!(summary.copied_lines(), ["summary copied F32=3"]);
        assert_eq!(
            first.lines[0],
            "[1/7] blk.0.attn_k.weight shape=[64, 64] source=F16 action=Q8HP1"
        );
        assert_eq!(
            first.lines[1],
            "[2/7] blk.0.attn_norm.weight shape=[64] source=F32 action=COPY reason=not-matrix-weight"
        );

        let source = synthetic_tensors();
        for (name, dtype, dims, bytes) in &first.tensors {
            let (_, original) = source.iter().find(|(listed, _)| listed == name).unwrap();
            assert_eq!(dims, original.shape().dims());
            if ["blk.0.attn_norm.weight", "blk.0.attn_q.bias", "position_embd.weight"]
                .contains(&name.as_str())
            {
                assert_eq!(*dtype, original.dtype());
                assert_eq!(bytes.as_slice(), original.data()?);
            } else {
                assert_eq!(*dtype, GgmlDType::Q8HP1);
                assert_eq!(bytes.len(), dims[0] * dims[1] / 32 * 40);
            }
        }
        let (_, _, _, q_bytes) = &first.tensors[3];
        assert_eq!(first.tensors[3].0, "blk.0.attn_q.weight");
        assert_eq!(&q_bytes[0..32], &[64; 32]);
        assert_eq!(i16::from_ne_bytes([q_bytes[32], q_bytes[33]]), 0);
        assert_eq!(&q_bytes[34..36], &[0, 0]);
        assert_eq!(
            f32::from_ne_bytes([q_bytes[36], q_bytes[37], q_bytes[38], q_bytes[39]]),
            1.0 / 64.0
        );
        assert_eq!(&q_bytes[40..72], &[64; 32]);
        assert_eq!(i16::from_ne_bytes([q_bytes[72], q_bytes[73]]), 3);

        let h1 = convert(synthetic_tensors(), magic, Quantization::Q8H1)?;
        assert_eq!(h1.tensors[3].1, GgmlDType::Q8H1);
    }
    Ok(())
}

#[test]
fn conversion_keeps_tensors_of_the_target_type() -> Result<(), Error> {
    let target = qtensor(&[8.0; 64 * 64], &[64, 64], GgmlDType::Q8HP1);
    let expected = target.data()?.to_vec();
    let converted = convert(
        vec![("output.weight", target)],
        VersionedMagic::GgufV3,
        Quantization::Q8HP1,
    )?;
    assert_eq!(converted.tensors[0].3, expected);
    assert_eq!(converted.summary.already_target_tensors, 1);
    assert_eq!(
        converted.lines,
        ["[1/1] output.weight shape=[64, 64] source=Q8HP1 action=COPY reason=already-target"]
    );
    Ok(())
}

#[test]
fn refused_tensor_leaves_the_conversion_as_it_was() -> Result<(), Error> {
    let tensors = vec![
        ("a.weight", qtensor(&[1.0; 64], &[2, 32], GgmlDType::F32)),
        ("b.weight", qtensor(&[f32::NAN; 64], &[2, 32], GgmlDType::F32)),
    ];
    let mut conversion = AquaConversion::begin(
        VersionedMagic::GgufV3,
        &synthetic_metadata(),
        infos(&tensors),
        Quantization::Q8HP1,
    )?;
    for (index, (_, tensor)) in tensors.into_iter().enumerate() {
        let outcome = conversion.convert_next(&Reference, tensor);
        assert_eq!(outcome.is_ok(), index == 0);
    }
    assert_eq!(conversion.tensors().len(), 1);
    assert_eq!(conversion.next_name(), Some(&"b.weight".to_string()));
    Ok(())
}

#[test]
fn converted_metadata_differ_in_two_keys() {
    let sorted = convert_metadata(synthetic_metadata(), 40);
    let keys: Vec<&str> = sorted.iter().map(|(key, _)| key.as_str()).collect();
    assert_eq!(
        keys,
        [
            "custom.tensor-tools.test",
            "general.alignment",
            "general.architecture",
            "general.file_type",
            "general.name",
            "general.quantization_version",
        ]
    );
    assert!(matches!(&sorted[0].1, Value::String(value) if value == "preserve-me"));
    assert!(matches!(sorted[1].1, Value::U32(64)));
    assert!(matches!(sorted[3].1, Value::U32(40)));
    assert!(matches!(sorted[5].1, Value::U32(GGML_QNT_VERSION)));
}

#[test]
fn converted_file_is_read_under_its_profile() -> Result<(), Error> {
    for (quantization, profile) in [
        (Quantization::Q8H1, GgufTypeProfile::AquaQ8H1),
        (Quantization::Q8HP1, GgufTypeProfile::AquaQ8Hp1),
    ] {
        let converted = convert(synthetic_tensors(), VersionedMagic::GgufV3, quantization)?;
        let mut metadata = NameMap::new();
        for (key, value) in convert_metadata(synthetic_metadata(), quantization.file_type().unwrap()) {
            metadata.insert(key, value);
        }
        let mut written = NameMap::new();
        for (name, dtype, dims, _) in &converted.tensors {
            written.insert(
                name.clone(),
                RawTensorInfo {
                    shape: Shape::from_dims(dims.clone()),
                    offset: 0,
                    raw_dtype: dtype.to_u32(),
                },
            );
        }
        assert_eq!(detect_type_profile(&metadata, &written)?, profile);
        for (_, dtype, _, _) in &converted.tensors {
            assert_eq!(decode_gguf_dtype(dtype.to_u32(), profile)?, *dtype);
        }
    }
    Ok(())
}

#[test]
fn tallies_count_by_name() {
    let mut tally = Tally::new();
    for name in ["F32", "BF16", "F32", "F16", "F32"] {
        tally.count(name);
    }
    assert_eq!(
        tally.into_entries(),
        [
            ("BF16".to_string(), 1),
            ("F16".to_string(), 1),
            ("F32".to_string(), 3)
        ]
    );
}

fn run_write(fail_at: &[FileAction]) -> (Vec<FileAction>, Result<(), String>) {
    let paths = ShownPaths {
        temporary: "\"out.gguf.tmp\"".to_string(),
        target: "\"out.gguf\"".to_string(),
    };
    let mut stage = WriteStage::Creating;
    let mut actions = Vec::new();
    loop {
        let action = match stage.action() {
            Some(action) => action,
            None => break,
        };
        actions.push(action);
        let done = if fail_at.contains(&action) {
            Err(Error::Msg(format!("{action:?} failed")))
        } else {
            Ok(())
        };
        stage = stage.next(done, &paths);
    }
    let outcome = stage.outcome().unwrap().map_err(|error| error.message());
    (actions, outcome)
}

#[test]
fn files_are_written_beside_and_renamed() {
    check_action_orders();
    assert_eq!(TEMPORARY_SUFFIX, ".tmp");
}

fn check_action_orders() {
    let create = FileAction::CreateTemporary;
    let write = FileAction::WriteTemporary;
    let rename = FileAction::Rename;
    let remove = FileAction::RemoveTemporary;
    assert_eq!(run_write(&[]), (vec![create, write, rename], Ok(())));
    assert_eq!(
        run_write(&[create]),
        (vec![create], Err("CreateTemporary failed".to_string()))
    );
    assert_eq!(
        run_write(&[write]),
        (vec![create, write, remove], Err("WriteTemporary failed".to_string()))
    );
    assert_eq!(
        run_write(&[rename]),
        (vec![create, write, rename, remove], Err("Rename failed".to_string()))
    );
    assert_eq!(
        run_write(&[write, remove]),
        (
            vec![create, write, remove],
            Err("failed writing \"out.gguf.tmp\": WriteTemporary failed; cleanup failed: RemoveTemporary failed".to_string())
        )
    );
    assert_eq!(
        run_write(&[rename, remove]),
        (
            vec![create, write, rename, remove],
            Err("failed renaming \"out.gguf.tmp\" to \"out.gguf\": Rename failed; cleanup failed: RemoveTemporary failed".to_string())
        )
    );
}

#[test]
fn output_files_stand_in_their_directory() {
    let place = |exists, directory, has_name| {
        output_place(exists, directory, has_name, "\"a/..\"").map_err(|error| error.message())
    };
    assert_eq!(place(true, None, false), Ok(OutputPlace::Existing));
    assert_eq!(place(true, Some(1), true), Ok(OutputPlace::Existing));
    assert_eq!(
        place(false, Some(1), false),
        Err("invalid output path \"a/..\"".to_string())
    );
    assert_eq!(place(false, Some(3), true), Ok(OutputPlace::InDirectory));
    assert_eq!(place(false, Some(0), true), Ok(OutputPlace::InCurrentDirectory));
    assert_eq!(place(false, None, true), Ok(OutputPlace::InCurrentDirectory));
}
