//! Which tensors are quantized, and to what.

use crate::device::Device;
use crate::dtype::GgmlDType;
use crate::error;
use crate::error::{error_text, Error};
use crate::quantized::kernels::BlockKernels;
use crate::quantized::laws;
use crate::quantized::qtensor;
use crate::quantized::qtensor::QTensor;
use crate::shape;
use crate::shape::Shape;
use crate::tensor::Tensor;
use crate::text;
use crate::text::{contains, ends_with, same_text};
use vstd::arithmetic::div_mod::lemma_mod_multiples_basic;
use vstd::prelude::*;

verus! {

/// The quantization version that converted files announce.
pub const GGML_QNT_VERSION: u32 = 2;

/// The file type of Q8_H1 files.
pub const LLAMA_FTYPE_MOSTLY_Q8_H1: u32 = 38;

/// The file type of Q8_HP1 files.
pub const LLAMA_FTYPE_MOSTLY_Q8_HP1: u32 = 40;

/// The quantizations that a caller can ask for.
#[derive(Clone, Copy, Debug, PartialEq, Eq, Structural)]
pub enum Quantization {
    Q4_0,
    Q4_1,
    Q5_0,
    Q5_1,
    Q8_0,
    Q8_1,
    Q8H1,
    Q8HP1,
    Q2k,
    Q3k,
    Q4k,
    Q5k,
    Q6k,
    Q8k,
    F16,
    F32,
}

impl Quantization {
    /// The element type of the quantization.
    pub open spec fn spec_dtype(self) -> GgmlDType {
        match self {
            Quantization::Q4_0 => GgmlDType::Q4_0,
            Quantization::Q4_1 => GgmlDType::Q4_1,
            Quantization::Q5_0 => GgmlDType::Q5_0,
            Quantization::Q5_1 => GgmlDType::Q5_1,
            Quantization::Q8_0 => GgmlDType::Q8_0,
            Quantization::Q8_1 => GgmlDType::Q8_1,
            Quantization::Q8H1 => GgmlDType::Q8H1,
            Quantization::Q8HP1 => GgmlDType::Q8HP1,
            Quantization::Q2k => GgmlDType::Q2K,
            Quantization::Q3k => GgmlDType::Q3K,
            Quantization::Q4k => GgmlDType::Q4K,
            Quantization::Q5k => GgmlDType::Q5K,
            Quantization::Q6k => GgmlDType::Q6K,
            Quantization::Q8k => GgmlDType::Q8K,
            Quantization::F16 => GgmlDType::F16,
            Quantization::F32 => GgmlDType::F32,
        }
    }

    /// The file type of files that hold this quantization.
    pub open spec fn spec_file_type(self) -> Option<u32> {
        match self {
            Quantization::Q8H1 => Some(LLAMA_FTYPE_MOSTLY_Q8_H1),
            Quantization::Q8HP1 => Some(LLAMA_FTYPE_MOSTLY_Q8_HP1),
            _ => None,
        }
    }

    /// The quantization's name as it is printed.
    pub open spec fn spec_name(self) -> Seq<char> {
        match self {
            Quantization::Q4_0 => "Q4_0"@,
            Quantization::Q4_1 => "Q4_1"@,
            Quantization::Q5_0 => "Q5_0"@,
            Quantization::Q5_1 => "Q5_1"@,
            Quantization::Q8_0 => "Q8_0"@,
            Quantization::Q8_1 => "Q8_1"@,
            Quantization::Q8H1 => "Q8H1"@,
            Quantization::Q8HP1 => "Q8HP1"@,
            Quantization::Q2k => "Q2k"@,
            Quantization::Q3k => "Q3k"@,
            Quantization::Q4k => "Q4k"@,
            Quantization::Q5k => "Q5k"@,
            Quantization::Q6k => "Q6k"@,
            Quantization::Q8k => "Q8k"@,
            Quantization::F16 => "F16"@,
            Quantization::F32 => "F32"@,
        }
    }

    /// The element type of the quantization.
    pub fn dtype(&self) -> (dtype: GgmlDType)
        ensures
            dtype == self.spec_dtype(),
    {
        match self {
            Quantization::Q4_0 => GgmlDType::Q4_0,
            Quantization::Q4_1 => GgmlDType::Q4_1,
            Quantization::Q5_0 => GgmlDType::Q5_0,
            Quantization::Q5_1 => GgmlDType::Q5_1,
            Quantization::Q8_0 => GgmlDType::Q8_0,
            Quantization::Q8_1 => GgmlDType::Q8_1,
            Quantization::Q8H1 => GgmlDType::Q8H1,
            Quantization::Q8HP1 => GgmlDType::Q8HP1,
            Quantization::Q2k => GgmlDType::Q2K,
            Quantization::Q3k => GgmlDType::Q3K,
            Quantization::Q4k => GgmlDType::Q4K,
            Quantization::Q5k => GgmlDType::Q5K,
            Quantization::Q6k => GgmlDType::Q6K,
            Quantization::Q8k => GgmlDType::Q8K,
            Quantization::F16 => GgmlDType::F16,
            Quantization::F32 => GgmlDType::F32,
        }
    }

    /// Whether the quantization is of the Q8_H family.
    pub fn is_h(self) -> (yes: bool)
        ensures
            yes == self.spec_dtype().is_raw(),
    {
        matches!(self, Quantization::Q8H1 | Quantization::Q8HP1)
    }

    /// The file type of files that hold this quantization.
    pub fn file_type(self) -> (file_type: Option<u32>)
        ensures
            file_type == self.spec_file_type(),
    {
        match self {
            Quantization::Q8H1 => Some(LLAMA_FTYPE_MOSTLY_Q8_H1),
            Quantization::Q8HP1 => Some(LLAMA_FTYPE_MOSTLY_Q8_HP1),
            _ => None,
        }
    }

    /// The quantization's name as it is printed.
    pub fn name(&self) -> (name: &'static str)
        ensures
            name@ == self.spec_name(),
    {
        match self {
            Quantization::Q4_0 => "Q4_0",
            Quantization::Q4_1 => "Q4_1",
            Quantization::Q5_0 => "Q5_0",
            Quantization::Q5_1 => "Q5_1",
            Quantization::Q8_0 => "Q8_0",
            Quantization::Q8_1 => "Q8_1",
            Quantization::Q8H1 => "Q8H1",
            Quantization::Q8HP1 => "Q8HP1",
            Quantization::Q2k => "Q2k",
            Quantization::Q3k => "Q3k",
            Quantization::Q4k => "Q4k",
            Quantization::Q5k => "Q5k",
            Quantization::Q6k => "Q6k",
            Quantization::Q8k => "Q8k",
            Quantization::F16 => "F16",
            Quantization::F32 => "F32",
        }
    }
}

/// Which tensors of a file are quantized.
#[derive(Clone, Copy, Debug, PartialEq, Eq, Structural)]
pub enum QuantizationMode {
    /// All matrices, except that the output matrix always uses Q6_K.
    Llama,
    /// The row-aware conversion to the Q8_H family.
    Aqua,
}

/// In llama mode, all matrices are quantized.
pub open spec fn llama_quantizes(rank: nat) -> bool {
    rank == 2
}

/// In llama mode, the output matrix is quantized to Q6_K, whatever was asked
/// for.
pub open spec fn llama_dtype(name: Seq<char>, dtype: GgmlDType) -> GgmlDType {
    if name == "output.weight"@ {
        GgmlDType::Q6K
    } else {
        dtype
    }
}

/// What dequantizing a tensor on the host and quantizing it again does.
pub open spec fn requantized<K: BlockKernels>(
    kernels: &K,
    source: QTensor,
    dtype: GgmlDType,
    outcome: Result<QTensor, Error>,
) -> bool {
    exists|floats: Result<Tensor, Error>|
        {
            &&& #[trigger] qtensor::dequantized(kernels, source, Device::Cpu, floats)
            &&& match floats {
                Err(error) => outcome == Err::<QTensor, Error>(error),
                Ok(values) => qtensor::quantized(kernels, values, dtype, outcome),
            }
        }
}

/// The tensor dequantized on the host and quantized again.
pub fn requantize<K: BlockKernels>(kernels: &K, source: &QTensor, dtype: GgmlDType) -> (outcome: Result<
    QTensor,
    Error,
>)
    requires
        shape::elements_fit(source@),
        qtensor::blocks_fit(source@, dtype),
    ensures
        requantized(kernels, *source, dtype, outcome),
        outcome is Ok ==> {
            &&& outcome->Ok_0.wf()
            &&& outcome->Ok_0.spec_storage().spec_dtype() == dtype
            &&& outcome->Ok_0@ == source@
        },
{
    let floats = source.dequantize(kernels, &Device::Cpu);
    match floats {
        Err(error) => Err(error),
        Ok(values) => QTensor::quantize(kernels, &values, dtype),
    }
}

/// Dequantizing and quantizing the same tensor again gives the same blocks
/// each time, or the same error.
pub proof fn law_requantizing_is_repeatable<K: BlockKernels>(
    kernels: &K,
    a: QTensor,
    b: QTensor,
    dtype: GgmlDType,
    x: Result<QTensor, Error>,
    y: Result<QTensor, Error>,
)
    requires
        laws::is_repeatable(kernels),
        laws::same_tensor(a, b),
        requantized(kernels, a, dtype, x),
        requantized(kernels, b, dtype, y),
    ensures
        laws::same_outcomes(x, y),
{
    let p = choose|p: Result<Tensor, Error>|
        {
            &&& #[trigger] qtensor::dequantized(kernels, a, Device::Cpu, p)
            &&& match p {
                Err(error) => x == Err::<QTensor, Error>(error),
                Ok(values) => qtensor::quantized(kernels, values, dtype, x),
            }
        };
    let q = choose|q: Result<Tensor, Error>|
        {
            &&& #[trigger] qtensor::dequantized(kernels, b, Device::Cpu, q)
            &&& match q {
                Err(error) => y == Err::<QTensor, Error>(error),
                Ok(values) => qtensor::quantized(kernels, values, dtype, y),
            }
        };
    laws::law_dequantizing_is_repeatable(kernels, a, b, Device::Cpu, p, q);
    if p is Ok {
        laws::law_quantizing_is_repeatable(kernels, p->Ok_0, q->Ok_0, dtype, x, y);
    }
}

impl QuantizationMode {
    /// The tensor as the mode writes it.
    pub fn quantize<K: BlockKernels>(
        &self,
        kernels: &K,
        name: &str,
        tensor: QTensor,
        dtype: GgmlDType,
    ) -> (outcome: Result<QTensor, Error>)
        requires
            *self is Llama && llama_quantizes(tensor@.len()) ==> {
                &&& shape::elements_fit(tensor@)
                &&& qtensor::blocks_fit(tensor@, llama_dtype(name@, dtype))
            },
        ensures
            *self is Llama ==> if llama_quantizes(tensor@.len()) {
                requantized(kernels, tensor, llama_dtype(name@, dtype), outcome)
            } else {
                outcome == Ok::<QTensor, Error>(tensor)
            },
            *self is Llama && llama_quantizes(tensor@.len()) && outcome is Ok ==> {
                &&& outcome->Ok_0.wf()
                &&& outcome->Ok_0.spec_storage().spec_dtype() == llama_dtype(name@, dtype)
                &&& outcome->Ok_0@ == tensor@
            },
            *self is Aqua ==> error::fails_with(
                outcome,
                "Aqua quantization must use the Q8_H GGUF conversion path"@,
            ),
    {
        match self {
            QuantizationMode::Llama => {
                if tensor.rank() == 2 {
                    if same_text(name, "output.weight") {
                        requantize(kernels, &tensor, GgmlDType::Q6K)
                    } else {
                        requantize(kernels, &tensor, dtype)
                    }
                } else {
                    Ok(tensor)
                }
            },
            QuantizationMode::Aqua => Err(
                error_text("Aqua quantization must use the Q8_H GGUF conversion path"),
            ),
        }
    }
}

/// The type that a plain tensor is quantized to: the one asked for where it is
/// a matrix with rows of whole blocks, else F32.
pub open spec fn plain_target(dims: Seq<usize>, dtype: GgmlDType) -> GgmlDType {
    if dims.len() == 2 && dims[1] as nat % dtype.spec_block_size() as nat == 0 {
        dtype
    } else {
        GgmlDType::F32
    }
}

/// Whether a plain tensor is quantized to the type asked for.
pub fn quantizes_plain(shape: &Shape, dtype: GgmlDType) -> (yes: bool)
    ensures
        yes == (shape@.len() == 2 && shape@[1] as nat % dtype.spec_block_size() as nat == 0),
{
    shape.rank() == 2 && shape.dims()[1] % dtype.block_size() == 0
}

/// Quantizes a plain tensor to the type asked for where its rows allow it,
/// else to F32.
pub fn quantize_plain<K: BlockKernels>(kernels: &K, tensor: &Tensor, dtype: GgmlDType) -> (outcome: Result<
    QTensor,
    Error,
>)
    requires
        qtensor::blocks_fit(tensor.shape@, plain_target(tensor.shape@, dtype)),
    ensures
        qtensor::quantized(kernels, *tensor, plain_target(tensor.shape@, dtype), outcome),
        outcome is Ok ==> {
            &&& outcome->Ok_0.wf()
            &&& outcome->Ok_0.spec_storage().spec_dtype() == plain_target(tensor.shape@, dtype)
            &&& outcome->Ok_0@ == tensor.shape@
        },
{
    if quantizes_plain(&tensor.shape, dtype) {
        QTensor::quantize(kernels, tensor, dtype)
    } else {
        QTensor::quantize(kernels, tensor, GgmlDType::F32)
    }
}

/// Why the row-aware conversion copies a tensor.
#[derive(Clone, Copy, Debug, PartialEq, Eq, Structural)]
pub enum AquaCopyReason {
    NotWeight,
    NotMatrix,
    Normalization,
    PositionEmbedding,
    TokenTypeEmbedding,
    ExpertGate,
    SsmConv1d,
    RwkvTimeMix,
    RelativeAttentionBias,
}

impl AquaCopyReason {
    /// The reason as it is printed.
    pub open spec fn spec_text(self) -> Seq<char> {
        match self {
            AquaCopyReason::NotWeight => "not-weight"@,
            AquaCopyReason::NotMatrix => "not-matrix-weight"@,
            AquaCopyReason::Normalization => "normalization"@,
            AquaCopyReason::PositionEmbedding => "position-embedding"@,
            AquaCopyReason::TokenTypeEmbedding => "token-type-embedding"@,
            AquaCopyReason::ExpertGate => "expert-gate"@,
            AquaCopyReason::SsmConv1d => "ssm-conv1d"@,
            AquaCopyReason::RwkvTimeMix => "rwkv-time-mix"@,
            AquaCopyReason::RelativeAttentionBias => "relative-attention-bias"@,
        }
    }

    /// The reason as it is printed.
    pub fn as_str(self) -> (text: &'static str)
        ensures
            text@ == self.spec_text(),
    {
        match self {
            AquaCopyReason::NotWeight => "not-weight",
            AquaCopyReason::NotMatrix => "not-matrix-weight",
            AquaCopyReason::Normalization => "normalization",
            AquaCopyReason::PositionEmbedding => "position-embedding",
            AquaCopyReason::TokenTypeEmbedding => "token-type-embedding",
            AquaCopyReason::ExpertGate => "expert-gate",
            AquaCopyReason::SsmConv1d => "ssm-conv1d",
            AquaCopyReason::RwkvTimeMix => "rwkv-time-mix",
            AquaCopyReason::RelativeAttentionBias => "relative-attention-bias",
        }
    }
}

/// What the row-aware conversion does with a tensor.
#[derive(Clone, Copy, Debug, PartialEq, Eq, Structural)]
pub enum AquaQuantizationAction {
    Quantize,
    Copy(AquaCopyReason),
}

/// The name of a time mixing weight of the RWKV family.
pub open spec fn is_time_mix(name: Seq<char>) -> bool {
    ||| text::is_infix("time_mix_first.weight"@, name)
    ||| text::is_infix("time_mix_w0.weight"@, name)
    ||| text::is_infix("time_mix_w1.weight"@, name)
    ||| text::is_infix("time_mix_w2.weight"@, name)
    ||| text::is_infix("time_mix_v0.weight"@, name)
    ||| text::is_infix("time_mix_v1.weight"@, name)
    ||| text::is_infix("time_mix_v2.weight"@, name)
    ||| text::is_infix("time_mix_a0.weight"@, name)
    ||| text::is_infix("time_mix_a1.weight"@, name)
    ||| text::is_infix("time_mix_a2.weight"@, name)
    ||| text::is_infix("time_mix_g1.weight"@, name)
    ||| text::is_infix("time_mix_g2.weight"@, name)
    ||| text::is_infix("time_mix_decay_w1.weight"@, name)
    ||| text::is_infix("time_mix_decay_w2.weight"@, name)
    ||| text::is_infix("time_mix_lerp_fused.weight"@, name)
}

/// What the row-aware conversion does with a tensor of this name and rank:
/// weights with two or more dimensions are quantized, but for those that are
/// known to need their precision.
pub open spec fn aqua_action(name: Seq<char>, rank: nat) -> AquaQuantizationAction {
    if !text::is_suffix("weight"@, name) {
        AquaQuantizationAction::Copy(AquaCopyReason::NotWeight)
    } else if rank < 2 {
        AquaQuantizationAction::Copy(AquaCopyReason::NotMatrix)
    } else if text::is_infix("_norm.weight"@, name) {
        AquaQuantizationAction::Copy(AquaCopyReason::Normalization)
    } else if name == "position_embd.weight"@ {
        AquaQuantizationAction::Copy(AquaCopyReason::PositionEmbedding)
    } else if name == "token_types.weight"@ {
        AquaQuantizationAction::Copy(AquaCopyReason::TokenTypeEmbedding)
    } else if text::is_infix("ffn_gate_inp.weight"@, name) {
        AquaQuantizationAction::Copy(AquaCopyReason::ExpertGate)
    } else if text::is_infix("ssm_conv1d.weight"@, name) {
        AquaQuantizationAction::Copy(AquaCopyReason::SsmConv1d)
    } else if is_time_mix(name) {
        AquaQuantizationAction::Copy(AquaCopyReason::RwkvTimeMix)
    } else if text::is_infix("attn_rel_b.weight"@, name) {
        AquaQuantizationAction::Copy(AquaCopyReason::RelativeAttentionBias)
    } else {
        AquaQuantizationAction::Quantize
    }
}

/// Whether the name is that of a time mixing weight of the RWKV family.
fn names_time_mix(name: &str) -> (yes: bool)
    ensures
        yes == is_time_mix(name@),
{
    contains(name, "time_mix_first.weight") || contains(name, "time_mix_w0.weight") || contains(
        name,
        "time_mix_w1.weight",
    ) || contains(name, "time_mix_w2.weight") || contains(name, "time_mix_v0.weight") || contains(
        name,
        "time_mix_v1.weight",
    ) || contains(name, "time_mix_v2.weight") || contains(name, "time_mix_a0.weight") || contains(
        name,
        "time_mix_a1.weight",
    ) || contains(name, "time_mix_a2.weight") || contains(name, "time_mix_g1.weight") || contains(
        name,
        "time_mix_g2.weight",
    ) || contains(name, "time_mix_decay_w1.weight") || contains(name, "time_mix_decay_w2.weight")
        || contains(name, "time_mix_lerp_fused.weight")
}

/// What the row-aware conversion does with a tensor.
pub fn classify_aqua_quantization(name: &str, shape: &Shape) -> (action: AquaQuantizationAction)
    ensures
        action == aqua_action(name@, shape@.len()),
{
    if !ends_with(name, "weight") {
        return AquaQuantizationAction::Copy(AquaCopyReason::NotWeight);
    }
    if shape.rank() < 2 {
        return AquaQuantizationAction::Copy(AquaCopyReason::NotMatrix);
    }
    if contains(name, "_norm.weight") {
        return AquaQuantizationAction::Copy(AquaCopyReason::Normalization);
    }
    if same_text(name, "position_embd.weight") {
        return AquaQuantizationAction::Copy(AquaCopyReason::PositionEmbedding);
    }
    if same_text(name, "token_types.weight") {
        return AquaQuantizationAction::Copy(AquaCopyReason::TokenTypeEmbedding);
    }
    if contains(name, "ffn_gate_inp.weight") {
        return AquaQuantizationAction::Copy(AquaCopyReason::ExpertGate);
    }
    if contains(name, "ssm_conv1d.weight") {
        return AquaQuantizationAction::Copy(AquaCopyReason::SsmConv1d);
    }
    if names_time_mix(name) {
        return AquaQuantizationAction::Copy(AquaCopyReason::RwkvTimeMix);
    }
    if contains(name, "attn_rel_b.weight") {
        return AquaQuantizationAction::Copy(AquaCopyReason::RelativeAttentionBias);
    }
    AquaQuantizationAction::Quantize
}

/// Only weights with two or more dimensions are quantized by the row-aware
/// conversion.
pub proof fn law_only_matrix_weights_are_quantized(name: Seq<char>, rank: nat)
    requires
        aqua_action(name, rank) is Quantize,
    ensures
        text::is_suffix("weight"@, name),
        rank >= 2,
{
}

/// Every weight with two or more dimensions is quantized, be it a matrix or a
/// stack of them, unless its name is one of those that are known to need their
/// precision.
pub proof fn law_every_other_weight_is_quantized(
    name: &str,
    shape: &Shape,
    action: AquaQuantizationAction,
)
    requires
        call_ensures(classify_aqua_quantization, (name, shape), action),
        text::is_suffix("weight"@, name@),
        shape@.len() >= 2,
        name@ != "position_embd.weight"@,
        name@ != "token_types.weight"@,
        !text::is_infix("_norm.weight"@, name@),
        !text::is_infix("ffn_gate_inp.weight"@, name@),
        !text::is_infix("ssm_conv1d.weight"@, name@),
        !text::is_infix("attn_rel_b.weight"@, name@),
        !text::is_infix("time_mix_first.weight"@, name@),
        !text::is_infix("time_mix_w0.weight"@, name@),
        !text::is_infix("time_mix_w1.weight"@, name@),
        !text::is_infix("time_mix_w2.weight"@, name@),
        !text::is_infix("time_mix_v0.weight"@, name@),
        !text::is_infix("time_mix_v1.weight"@, name@),
        !text::is_infix("time_mix_v2.weight"@, name@),
        !text::is_infix("time_mix_a0.weight"@, name@),
        !text::is_infix("time_mix_a1.weight"@, name@),
        !text::is_infix("time_mix_a2.weight"@, name@),
        !text::is_infix("time_mix_g1.weight"@, name@),
        !text::is_infix("time_mix_g2.weight"@, name@),
        !text::is_infix("time_mix_decay_w1.weight"@, name@),
        !text::is_infix("time_mix_decay_w2.weight"@, name@),
        !text::is_infix("time_mix_lerp_fused.weight"@, name@),
    ensures
        action is Quantize,
{
}

/// What keeps a tensor from being quantized: a name that is not a weight's,
/// fewer than two dimensions, or a name of one of the weights that need their
/// precision.
pub proof fn law_excluded_tensors_are_copied(
    name: &str,
    shape: &Shape,
    action: AquaQuantizationAction,
)
    requires
        call_ensures(classify_aqua_quantization, (name, shape), action),
    ensures
        !text::is_suffix("weight"@, name@) ==> !(action is Quantize),
        shape@.len() < 2 ==> !(action is Quantize),
        name@ == "position_embd.weight"@ ==> !(action is Quantize),
        name@ == "token_types.weight"@ ==> !(action is Quantize),
        text::is_infix("_norm.weight"@, name@) ==> !(action is Quantize),
        text::is_infix("ffn_gate_inp.weight"@, name@) ==> !(action is Quantize),
        text::is_infix("ssm_conv1d.weight"@, name@) ==> !(action is Quantize),
        text::is_infix("attn_rel_b.weight"@, name@) ==> !(action is Quantize),
        text::is_infix("time_mix_first.weight"@, name@) ==> !(action is Quantize),
        text::is_infix("time_mix_w0.weight"@, name@) ==> !(action is Quantize),
        text::is_infix("time_mix_w1.weight"@, name@) ==> !(action is Quantize),
        text::is_infix("time_mix_w2.weight"@, name@) ==> !(action is Quantize),
        text::is_infix("time_mix_v0.weight"@, name@) ==> !(action is Quantize),
        text::is_infix("time_mix_v1.weight"@, name@) ==> !(action is Quantize),
        text::is_infix("time_mix_v2.weight"@, name@) ==> !(action is Quantize),
        text::is_infix("time_mix_a0.weight"@, name@) ==> !(action is Quantize),
        text::is_infix("time_mix_a1.weight"@, name@) ==> !(action is Quantize),
        text::is_infix("time_mix_a2.weight"@, name@) ==> !(action is Quantize),
        text::is_infix("time_mix_g1.weight"@, name@) ==> !(action is Quantize),
        text::is_infix("time_mix_g2.weight"@, name@) ==> !(action is Quantize),
        text::is_infix("time_mix_decay_w1.weight"@, name@) ==> !(action is Quantize),
        text::is_infix("time_mix_decay_w2.weight"@, name@) ==> !(action is Quantize),
        text::is_infix("time_mix_lerp_fused.weight"@, name@) ==> !(action is Quantize),
{
}

/// A tensor is copied for a reason that holds of it, and the reasons are looked
/// for in one order: the kind of tensor first, then its dimensions, then the
/// names.
pub proof fn law_reasons_hold(name: &str, shape: &Shape, action: AquaQuantizationAction)
    requires
        call_ensures(classify_aqua_quantization, (name, shape), action),
    ensures
        action matches AquaQuantizationAction::Copy(reason) ==> {
            &&& reason is NotWeight <==> !text::is_suffix("weight"@, name@)
            &&& reason is NotMatrix <==> text::is_suffix("weight"@, name@) && shape@.len() < 2
            &&& reason is Normalization <==> shape@.len() >= 2 && text::is_suffix("weight"@, name@)
                && text::is_infix("_norm.weight"@, name@)
            &&& reason is PositionEmbedding ==> name@ == "position_embd.weight"@
            &&& reason is TokenTypeEmbedding ==> name@ == "token_types.weight"@
            &&& reason is ExpertGate ==> text::is_infix("ffn_gate_inp.weight"@, name@)
            &&& reason is SsmConv1d ==> text::is_infix("ssm_conv1d.weight"@, name@)
            &&& reason is RelativeAttentionBias ==> text::is_infix("attn_rel_b.weight"@, name@)
            &&& reason is RwkvTimeMix ==> {
                ||| text::is_infix("time_mix_first.weight"@, name@)
                ||| text::is_infix("time_mix_w0.weight"@, name@)
                ||| text::is_infix("time_mix_w1.weight"@, name@)
                ||| text::is_infix("time_mix_w2.weight"@, name@)
                ||| text::is_infix("time_mix_v0.weight"@, name@)
                ||| text::is_infix("time_mix_v1.weight"@, name@)
                ||| text::is_infix("time_mix_v2.weight"@, name@)
                ||| text::is_infix("time_mix_a0.weight"@, name@)
                ||| text::is_infix("time_mix_a1.weight"@, name@)
                ||| text::is_infix("time_mix_a2.weight"@, name@)
                ||| text::is_infix("time_mix_g1.weight"@, name@)
                ||| text::is_infix("time_mix_g2.weight"@, name@)
                ||| text::is_infix("time_mix_decay_w1.weight"@, name@)
                ||| text::is_infix("time_mix_decay_w2.weight"@, name@)
                ||| text::is_infix("time_mix_lerp_fused.weight"@, name@)
            }
        },
{
}

/// The reasons are printed by their own words.
pub proof fn law_reasons_are_printed(reason: AquaCopyReason, text: &'static str)
    requires
        call_ensures(AquaCopyReason::as_str, (reason,), text),
    ensures
        reason is NotWeight ==> text@ == "not-weight"@,
        reason is NotMatrix ==> text@ == "not-matrix-weight"@,
        reason is Normalization ==> text@ == "normalization"@,
        reason is PositionEmbedding ==> text@ == "position-embedding"@,
        reason is TokenTypeEmbedding ==> text@ == "token-type-embedding"@,
        reason is ExpertGate ==> text@ == "expert-gate"@,
        reason is SsmConv1d ==> text@ == "ssm-conv1d"@,
        reason is RwkvTimeMix ==> text@ == "rwkv-time-mix"@,
        reason is RelativeAttentionBias ==> text@ == "relative-attention-bias"@,
{
}

/// Beyond two, the number of dimensions does not matter, and the extents never
/// do.
pub proof fn law_classification_goes_by_name(
    name: &str,
    left: &Shape,
    right: &Shape,
    x: AquaQuantizationAction,
    y: AquaQuantizationAction,
)
    requires
        call_ensures(classify_aqua_quantization, (name, left), x),
        call_ensures(classify_aqua_quantization, (name, right), y),
        left@.len() >= 2 <==> right@.len() >= 2,
    ensures
        x == y,
{
}

/// In llama mode a matrix whose name is exactly that of the output matrix gets
/// Q6_K, every other matrix gets the type that was asked for, and whatever is
/// no matrix stays as it is.
pub proof fn law_llama_mode_spares_only_the_output_matrix<K: BlockKernels>(
    mode: &QuantizationMode,
    kernels: &K,
    name: &str,
    tensor: QTensor,
    dtype: GgmlDType,
    outcome: Result<QTensor, Error>,
)
    requires
        *mode is Llama,
        call_ensures(QuantizationMode::quantize::<K>, (mode, kernels, name, tensor, dtype), outcome),
    ensures
        tensor@.len() != 2 ==> outcome == Ok::<QTensor, Error>(tensor),
        tensor@.len() == 2 && outcome is Ok ==> {
            &&& outcome->Ok_0@ == tensor@
            &&& name@ == "output.weight"@ ==> outcome->Ok_0.spec_storage().spec_dtype() is Q6K
            &&& name@ != "output.weight"@ ==> outcome->Ok_0.spec_storage().spec_dtype() == dtype
        },
        tensor@.len() == 2 && name@ != "output.weight"@ ==> requantized(
            kernels,
            tensor,
            dtype,
            outcome,
        ),
        tensor@.len() == 2 && name@ == "output.weight"@ ==> requantized(
            kernels,
            tensor,
            GgmlDType::Q6K,
            outcome,
        ),
{
}

/// In llama mode the type that was asked for matters for every matrix but the
/// output matrix, whose type is fixed.
pub proof fn law_requested_type_matters_for_all_but_output(
    name: Seq<char>,
    left: GgmlDType,
    right: GgmlDType,
)
    ensures
        llama_dtype(name, left) == llama_dtype(name, right) <==> left == right || name
            == "output.weight"@,
        llama_dtype(name, left) == left || (name == "output.weight"@ && llama_dtype(name, left) is Q6K),
        name == "output.weight"@ ==> llama_dtype(name, left) is Q6K,
{
}

/// A plain tensor is quantized to the type asked for exactly where it is a
/// matrix whose rows are whole blocks of that type; else it is kept as F32. Its
/// extents stay.
pub proof fn law_plain_tensor_gets_the_type_its_rows_allow<K: BlockKernels>(
    kernels: &K,
    tensor: &Tensor,
    dtype: GgmlDType,
    outcome: Result<QTensor, Error>,
    rows: nat,
)
    requires
        call_ensures(quantize_plain::<K>, (kernels, tensor, dtype), outcome),
        outcome is Ok,
    ensures
        outcome->Ok_0@ == tensor.shape@,
        tensor.shape@.len() == 2 && tensor.shape@.last() == rows * dtype.spec_block_size()
            ==> outcome->Ok_0.spec_storage().spec_dtype() == dtype,
        tensor.shape@.len() != 2 ==> outcome->Ok_0.spec_storage().spec_dtype() is F32,
        tensor.shape@.len() == 2 && tensor.shape@.last() % dtype.spec_block_size() != 0
            ==> outcome->Ok_0.spec_storage().spec_dtype() is F32,
{
    if tensor.shape@.len() == 2 && tensor.shape@.last() == rows * dtype.spec_block_size() {
        lemma_mod_multiples_basic(rows as int, dtype.spec_block_size() as int);
    }
}

/// Each quantization stands for the element type of its name. The Q8_H family
/// has file types of its own, one below the numbers of its element types.
pub proof fn law_quantizations_stand_for_their_types(
    quantization: Quantization,
    dtype: GgmlDType,
    id: u32,
    file_type: Option<u32>,
    is_h: bool,
)
    requires
        call_ensures(Quantization::dtype, (&quantization,), dtype),
        call_ensures(GgmlDType::to_u32, (dtype,), id),
        call_ensures(Quantization::file_type, (quantization,), file_type),
        call_ensures(Quantization::is_h, (quantization,), is_h),
    ensures
        quantization is F32 ==> id == 0,
        quantization is F16 ==> id == 1,
        quantization is Q4_0 ==> id == 2,
        quantization is Q4_1 ==> id == 3,
        quantization is Q5_0 ==> id == 6,
        quantization is Q5_1 ==> id == 7,
        quantization is Q8_0 ==> id == 8,
        quantization is Q8_1 ==> id == 9,
        quantization is Q2k ==> id == 10,
        quantization is Q3k ==> id == 11,
        quantization is Q4k ==> id == 12,
        quantization is Q5k ==> id == 13,
        quantization is Q6k ==> id == 14,
        quantization is Q8k ==> id == 15,
        quantization is Q8H1 ==> id == 39,
        quantization is Q8HP1 ==> id == 41,
        is_h <==> id == 39 || id == 41,
        file_type is Some <==> is_h,
        file_type matches Some(number) ==> number + 1 == id,
{
}

/// Quantizations are printed by the names of their variants.
pub proof fn law_quantizations_are_printed(quantization: Quantization, name: &'static str)
    requires
        call_ensures(Quantization::name, (&quantization,), name),
    ensures
        quantization is Q4_0 ==> name@ == "Q4_0"@,
        quantization is Q4_1 ==> name@ == "Q4_1"@,
        quantization is Q5_0 ==> name@ == "Q5_0"@,
        quantization is Q5_1 ==> name@ == "Q5_1"@,
        quantization is Q8_0 ==> name@ == "Q8_0"@,
        quantization is Q8_1 ==> name@ == "Q8_1"@,
        quantization is Q8H1 ==> name@ == "Q8H1"@,
        quantization is Q8HP1 ==> name@ == "Q8HP1"@,
        quantization is Q2k ==> name@ == "Q2k"@,
        quantization is Q3k ==> name@ == "Q3k"@,
        quantization is Q4k ==> name@ == "Q4k"@,
        quantization is Q5k ==> name@ == "Q5k"@,
        quantization is Q6k ==> name@ == "Q6k"@,
        quantization is Q8k ==> name@ == "Q8k"@,
        quantization is F16 ==> name@ == "F16"@,
        quantization is F32 ==> name@ == "F32"@,
{
}

/// Quantizing a tensor again keeps its extents and gives it the type that was
/// asked for; the new blocks are made of the values that the kernel reads from
/// the old ones.
pub proof fn law_requantized_tensor_has_the_kernels_values<K: BlockKernels>(
    kernels: &K,
    source: &QTensor,
    dtype: GgmlDType,
    outcome: Result<QTensor, Error>,
)
    requires
        call_ensures(requantize::<K>, (kernels, source, dtype), outcome),
    ensures
        outcome is Ok ==> {
            &&& outcome->Ok_0@ == source@
            &&& outcome->Ok_0.spec_storage().spec_dtype() == dtype
            &&& source.spec_storage() is Cpu
            &&& exists|floats: Tensor|
                {
                    &&& #[trigger] qtensor::quantized(kernels, floats, dtype, outcome)
                    &&& floats.shape@ == source@
                    &&& floats.storage is Cpu
                    &&& floats.storage->Cpu_0 is F32
                    &&& qtensor::dequantized(kernels, *source, Device::Cpu, Ok(floats))
                }
        },
        source.spec_storage() is CpuRaw ==> outcome is Err && outcome->Err_0@
            == "dequantization is not implemented for "@ + source.spec_storage().spec_dtype().spec_name(),
{
}

/// A plain tensor's rows allow a type exactly where it is a matrix whose rows
/// divide into blocks of that type.
pub proof fn law_matrices_of_whole_blocks_are_quantized(shape: &Shape, dtype: GgmlDType, yes: bool)
    requires
        call_ensures(quantizes_plain, (shape, dtype), yes),
    ensures
        yes <==> shape@.len() == 2 && shape@[1] as nat % dtype.spec_block_size() as nat == 0,
{
}

} // verus!
