//! The row-aware conversion of one file to the Q8_H family.

use crate::convert::policy;
use crate::convert::policy::{
    classify_aqua_quantization, requantize, AquaCopyReason, AquaQuantizationAction, Quantization,
    GGML_QNT_VERSION,
};
use crate::convert::request;
use crate::convert::request::{check_not_split, validate_aqua_gguf_version};
use crate::convert::tally;
use crate::convert::tally::Tally;
use crate::dtype::{GgmlDType, QK8_H};
use crate::error;
use crate::error::{error_text, error_text5, Error};
use crate::gguf_file::profile;
use crate::gguf_file::profile::{FILE_TYPE_KEY, QUANTIZATION_VERSION_KEY};
use crate::gguf_file::{GgufTypeProfile, RawTensorInfo, TensorInfo, Value, VersionedMagic};
use crate::names;
use crate::names::{sorted_names, NameMap};
use crate::quantized::kernels::BlockKernels;
use crate::quantized::laws;
use crate::quantized::qtensor;
use crate::quantized::qtensor::QTensor;
use crate::shape;
use crate::text;
use crate::text::decimal_text;
use vstd::prelude::*;

verus! {

/// What the conversion does with one tensor.
#[derive(Clone, Copy, Debug, PartialEq, Eq, Structural)]
pub enum AquaStep {
    /// It is quantized to the target type.
    Quantize,
    /// It has the target type already, and is copied.
    KeepTarget,
    /// It is copied for this reason.
    Copy(AquaCopyReason),
}

/// What a caller prints when the rows of a tensor are not whole blocks.
pub open spec fn width_text(target: GgmlDType, name: Seq<char>, width: usize) -> Seq<char> {
    target.spec_name() + " tensor "@ + name + " has row width "@ + text::decimal(width as nat)
        + ", which is not divisible by 32"@
}

/// What a caller prints when a tensor is quantized already, to another type.
pub open spec fn source_text(target: GgmlDType, name: Seq<char>, source: GgmlDType) -> Seq<char> {
    target.spec_name() + " tensor "@ + name + " cannot requantize source dtype "@ + source.spec_name()
}

/// The types that hold plain numbers, and so can be quantized.
pub open spec fn is_plain(dtype: GgmlDType) -> bool {
    dtype == GgmlDType::F32 || dtype == GgmlDType::F16 || dtype == GgmlDType::BF16
}

/// What the conversion does with a tensor, or why it is refused.
pub open spec fn step_of(
    name: Seq<char>,
    dims: Seq<usize>,
    source: GgmlDType,
    target: GgmlDType,
) -> Result<AquaStep, Seq<char>> {
    match policy::aqua_action(name, dims.len()) {
        AquaQuantizationAction::Copy(reason) => Ok(AquaStep::Copy(reason)),
        AquaQuantizationAction::Quantize => if dims.last() % QK8_H != 0 {
            Err(width_text(target, name, dims.last()))
        } else if source == target {
            Ok(AquaStep::KeepTarget)
        } else if is_plain(source) {
            Ok(AquaStep::Quantize)
        } else {
            Err(source_text(target, name, source))
        },
    }
}

/// What the conversion does with a tensor.
pub fn plan_tensor(name: &str, info: &TensorInfo, target: GgmlDType) -> (outcome: Result<
    AquaStep,
    Error,
>)
    ensures
        error::same_outcome(outcome, step_of(name@, info.shape@, info.ggml_dtype, target)),
{
    match classify_aqua_quantization(name, &info.shape) {
        AquaQuantizationAction::Copy(reason) => Ok(AquaStep::Copy(reason)),
        AquaQuantizationAction::Quantize => {
            let width: usize = info.shape.dims()[info.shape.rank() - 1];
            if width % QK8_H != 0 {
                let mut text = target.name().to_owned();
                text.append(" tensor ");
                text.append(name);
                text.append(" has row width ");
                text.append(decimal_text(width as u64).as_str());
                text.append(", which is not divisible by 32");
                return Err(Error::Msg(text));
            }
            if info.ggml_dtype == target {
                return Ok(AquaStep::KeepTarget);
            }
            match info.ggml_dtype {
                GgmlDType::F32 | GgmlDType::F16 | GgmlDType::BF16 => Ok(AquaStep::Quantize),
                _ => Err(
                    error_text5(
                        target.name(),
                        " tensor ",
                        name,
                        " cannot requantize source dtype ",
                        info.ggml_dtype.name(),
                    ),
                ),
            }
        },
    }
}

/// The line that tells what became of a tensor.
pub open spec fn progress_text(
    number: nat,
    count: nat,
    name: Seq<char>,
    dims: Seq<usize>,
    source: GgmlDType,
    target: GgmlDType,
    step: AquaStep,
) -> Seq<char> {
    "["@ + text::decimal(number) + "/"@ + text::decimal(count) + "] "@ + name + " shape="@
        + text::decimal_list(dims) + " source="@ + source.spec_name() + " action="@ + match step {
        AquaStep::Quantize => target.spec_name(),
        AquaStep::KeepTarget => "COPY reason=already-target"@,
        AquaStep::Copy(reason) => "COPY reason="@ + reason.spec_text(),
    }
}

/// The line that tells what became of a tensor.
fn progress_line(
    number: usize,
    count: usize,
    name: &str,
    info: &TensorInfo,
    target: GgmlDType,
    step: AquaStep,
) -> (line: String)
    ensures
        line@ == progress_text(
            number as nat,
            count as nat,
            name@,
            info.shape@,
            info.ggml_dtype,
            target,
            step,
        ),
{
    let mut line = "[".to_owned();
    line.append(decimal_text(number as u64).as_str());
    line.append("/");
    line.append(decimal_text(count as u64).as_str());
    line.append("] ");
    line.append(name);
    line.append(" shape=");
    line.append(info.shape.text().as_str());
    line.append(" source=");
    line.append(info.ggml_dtype.name());
    line.append(" action=");
    match step {
        AquaStep::Quantize => {
            line.append(target.name());
        },
        AquaStep::KeepTarget => {
            line.append("COPY reason=already-target");
        },
        AquaStep::Copy(reason) => {
            let mut tail = "COPY reason=".to_owned();
            tail.append(reason.as_str());
            line.append(tail.as_str());
        },
    }
    line
}

/// The tensors of a file in the order in which they are converted, with what
/// the file says of them, and the type to convert to.
pub struct Plan {
    pub names: Seq<Seq<char>>,
    pub infos: Map<Seq<char>, TensorInfo>,
    pub target: GgmlDType,
}

impl Plan {
    /// The names are those of the file's tensors, and increase.
    pub open spec fn wf(self) -> bool {
        &&& names::texts_sorted(self.names)
        &&& forall|name: Seq<char>| #[trigger]
            self.infos.contains_key(name) <==> self.names.contains(name)
    }

    /// What the file says of tensor `i`.
    pub open spec fn info(self, i: int) -> TensorInfo {
        self.infos[self.names[i]]
    }

    /// What the conversion does with tensor `i`, or why it is refused.
    pub open spec fn step(self, i: int) -> Result<AquaStep, Seq<char>> {
        step_of(self.names[i], self.info(i).shape@, self.info(i).ggml_dtype, self.target)
    }

    /// How many of the first `n` tensors have the property.
    pub open spec fn count(self, property: spec_fn(int) -> bool, n: nat) -> nat
        decreases n,
    {
        if n == 0 {
            0
        } else {
            self.count(property, (n - 1) as nat) + (if property(n - 1) {
                1nat
            } else {
                0
            })
        }
    }

    /// How many of the first `n` tensors are quantized.
    pub open spec fn quantized(self, n: nat) -> nat {
        self.count(|i: int| self.step(i) == Ok::<AquaStep, Seq<char>>(AquaStep::Quantize), n)
    }

    /// How many of the first `n` tensors have the target type already.
    pub open spec fn kept(self, n: nat) -> nat {
        self.count(|i: int| self.step(i) == Ok::<AquaStep, Seq<char>>(AquaStep::KeepTarget), n)
    }

    /// Tensor `i` is copied for a reason of the policy.
    pub open spec fn copies(self, i: int) -> bool {
        self.step(i) is Ok && self.step(i)->Ok_0 is Copy
    }

    /// How many of the first `n` tensors are copied.
    pub open spec fn copied(self, n: nat) -> nat {
        self.count(|i: int| self.copies(i), n)
    }

    /// How many of the first `n` tensors are copied and have the type of that
    /// name.
    pub open spec fn copied_of(self, kind: Seq<char>, n: nat) -> nat {
        self.count(
            |i: int| self.copies(i) && self.info(i).ggml_dtype.spec_name() == kind,
            n,
        )
    }

    /// The names of those among the first `n` tensors that are copied though
    /// they have two or more dimensions.
    pub open spec fn skipped(self, n: nat) -> Seq<Seq<char>>
        decreases n,
    {
        if n == 0 {
            Seq::empty()
        } else {
            let earlier = self.skipped((n - 1) as nat);
            if self.copies(n - 1) && self.info(n - 1).shape@.len() >= 2 {
                earlier.push(self.names[n - 1])
            } else {
                earlier
            }
        }
    }
}

/// A conversion in progress.
#[derive(Debug)]
pub struct AquaConversion {
    target: GgmlDType,
    names: Vec<String>,
    infos: NameMap<TensorInfo>,
    tensors: Vec<(String, QTensor)>,
    quantized_tensors: usize,
    already_target_tensors: usize,
    copied_tensors: usize,
    copied_by_dtype: Tally,
    skipped_matrix_tensors: Vec<String>,
}

/// What a conversion did.
#[derive(Clone, Debug, PartialEq, Eq)]
pub struct AquaConversionSummary {
    pub total_tensors: usize,
    pub quantized_tensors: usize,
    pub already_target_tensors: usize,
    pub copied_tensors: usize,
    pub copied_by_dtype: Vec<(String, usize)>,
    pub skipped_matrix_tensors: Vec<String>,
    pub input_bytes: u64,
    pub output_bytes: u64,
}

/// The counts are those of the first `n` tensors of the plan.
pub open spec fn counts(
    plan: Plan,
    n: nat,
    quantized: nat,
    kept: nat,
    copied: nat,
    by_dtype: Seq<(String, usize)>,
    skipped: Seq<String>,
) -> bool {
    &&& quantized == plan.quantized(n)
    &&& kept == plan.kept(n)
    &&& copied == plan.copied(n)
    &&& names::names_sorted(by_dtype)
    &&& forall|i: int| 0 <= i < by_dtype.len() ==> (#[trigger] by_dtype[i]).1 > 0
    &&& tally::sum(by_dtype) == copied
    &&& forall|kind: Seq<char>| #[trigger]
        tally::count_of(by_dtype, kind) == plan.copied_of(kind, n)
    &&& names::texts_of(skipped) == plan.skipped(n)
}

/// One more tensor is done: a tensor that is to be quantized was dequantized
/// and quantized again, any other is the source itself.
pub open spec fn step_done<K: BlockKernels>(
    kernels: &K,
    before: AquaConversion,
    source: QTensor,
    after: AquaConversion,
) -> bool {
    let i = before.outputs().len() as int;
    let plan = before.plan();
    &&& after.plan() == plan
    &&& after.outputs().len() == i + 1
    &&& after.outputs().drop_last() == before.outputs()
    &&& after.outputs().last().0@ == plan.names[i]
    &&& output_of(kernels, plan, i, source, after.outputs().last().1)
}

/// What becomes of the source of tensor `i`.
pub open spec fn output_of<K: BlockKernels>(
    kernels: &K,
    plan: Plan,
    i: int,
    source: QTensor,
    output: QTensor,
) -> bool {
    if plan.step(i) == Ok::<AquaStep, Seq<char>>(AquaStep::Quantize) {
        policy::requantized(kernels, source, plan.target, Ok(output))
    } else {
        output == source
    }
}

impl AquaConversion {
    /// What is to be done.
    pub closed spec fn plan(self) -> Plan {
        Plan { names: names::texts_of(self.names@), infos: self.infos@, target: self.target }
    }

    /// The tensors that are done, as they are to be written.
    pub closed spec fn outputs(self) -> Seq<(String, QTensor)> {
        self.tensors@
    }

    /// The counts so far are those of the tensors that are done.
    pub closed spec fn counted(self) -> bool {
        counts(
            self.plan(),
            self.outputs().len(),
            self.quantized_tensors as nat,
            self.already_target_tensors as nat,
            self.copied_tensors as nat,
            self.copied_by_dtype@,
            self.skipped_matrix_tensors@,
        )
    }

    /// The first tensors in the order of the names are done, each as the
    /// policy says, and are counted.
    pub open spec fn wf(self) -> bool {
        &&& self.table_wf()
        &&& self.plan().wf()
        &&& self.counted()
        &&& self.outputs().len() <= self.plan().names.len()
        &&& forall|i: int|
            0 <= i < self.outputs().len() ==> {
                &&& (#[trigger] self.outputs()[i]).0@ == self.plan().names[i]
                &&& self.plan().step(i) is Ok
                &&& self.outputs()[i].1.wf()
                &&& self.outputs()[i].1@ == self.plan().info(i).shape@
                &&& self.outputs()[i].1.spec_storage().spec_dtype() == (if self.plan().copies(i) {
                    self.plan().info(i).ggml_dtype
                } else {
                    self.plan().target
                })
            }
    }

    /// The file's table names no tensor twice.
    pub closed spec fn table_wf(self) -> bool {
        &&& self.infos.wf()
        &&& self.copied_by_dtype.wf()
    }

    /// Starts the conversion of a file. Refused are files of an old version,
    /// and parts of split files.
    pub fn begin(
        magic: VersionedMagic,
        metadata: &NameMap<Value>,
        infos: NameMap<TensorInfo>,
        quantization: Quantization,
    ) -> (outcome: Result<AquaConversion, Error>)
        requires
            metadata.wf(),
            infos.wf(),
        ensures
            magic is GgufV1 ==> error::fails_with(
                outcome,
                "Q8_H conversion supports GGUF V2/V3, not GGUF V1"@,
            ),
            !(magic is GgufV1) && request::is_split(metadata@) ==> error::fails_with(
                outcome,
                "unsupported split GGUF input"@,
            ),
            !(magic is GgufV1) && !request::is_split(metadata@) ==> {
                &&& outcome is Ok
                &&& outcome->Ok_0.wf()
                &&& outcome->Ok_0.plan().infos == infos@
                &&& outcome->Ok_0.plan().target == quantization.spec_dtype()
                &&& outcome->Ok_0.outputs().len() == 0
            },
    {
        match validate_aqua_gguf_version(magic) {
            Err(error) => return Err(error),
            Ok(()) => {},
        }
        match check_not_split(metadata) {
            Err(error) => return Err(error),
            Ok(()) => {},
        }
        let names = sorted_names(&infos);
        let conversion = AquaConversion {
            target: quantization.dtype(),
            names,
            infos,
            tensors: Vec::new(),
            quantized_tensors: 0,
            already_target_tensors: 0,
            copied_tensors: 0,
            copied_by_dtype: Tally::new(),
            skipped_matrix_tensors: Vec::new(),
        };
        proof {
            let plan = conversion.plan();
            assert(names::texts_of(conversion.skipped_matrix_tensors@) =~= plan.skipped(0));
            assert forall|name: Seq<char>| #[trigger]
                plan.infos.contains_key(name) <==> plan.names.contains(name) by {
                if plan.infos.contains_key(name) {
                    let i = choose|i: int|
                        0 <= i < conversion.names@.len() && #[trigger] conversion.names@[i]@ == name;
                    assert(plan.names[i] == name);
                }
                if plan.names.contains(name) {
                    let i = choose|i: int| 0 <= i < plan.names.len() && plan.names[i] == name;
                    assert(conversion.names@[i]@ == name);
                }
            }
            assert forall|i: int, j: int| 0 <= i < j < plan.names.len() implies text::text_lt(
                #[trigger] plan.names[i],
                #[trigger] plan.names[j],
            ) by {
                assert(text::text_lt(conversion.names@[i]@, conversion.names@[j]@));
            }
        }
        Ok(conversion)
    }

    /// The name of the tensor that comes next.
    pub fn next_name(&self) -> (name: Option<&String>)
        requires
            self.wf(),
        ensures
            match name {
                Some(name) => self.outputs().len() < self.plan().names.len() && name@
                    == self.plan().names[self.outputs().len() as int],
                None => self.outputs().len() == self.plan().names.len(),
            },
    {
        if self.tensors.len() < self.names.len() {
            Some(&self.names[self.tensors.len()])
        } else {
            None
        }
    }

    /// What the file says of the tensor that comes next.
    pub fn next_info(&self) -> (info: Option<&TensorInfo>)
        requires
            self.wf(),
        ensures
            match info {
                Some(info) => self.outputs().len() < self.plan().names.len() && *info
                    == self.plan().info(self.outputs().len() as int),
                None => self.outputs().len() == self.plan().names.len(),
            },
    {
        let index: usize = self.tensors.len();
        if index < self.names.len() {
            proof {
                let plan = self.plan();
                assert(self.names@[index as int]@ == plan.names[index as int]);
                assert(plan.names.contains(plan.names[index as int]));
                assert(plan.infos.contains_key(plan.names[index as int]));
            }
            self.infos.get(self.names[index].as_str())
        } else {
            None
        }
    }

    /// Converts the next tensor, and gives the line that tells what became of
    /// it. A refused tensor leaves the conversion as it was.
    pub fn convert_next<K: BlockKernels>(&mut self, kernels: &K, tensor: QTensor) -> (outcome: Result<
        String,
        Error,
    >)
        requires
            old(self).wf(),
            old(self).outputs().len() < old(self).plan().names.len(),
            tensor.wf(),
            tensor@ == old(self).plan().info(old(self).outputs().len() as int).shape@,
            tensor.spec_storage().spec_dtype() == old(self).plan().info(
                old(self).outputs().len() as int,
            ).ggml_dtype,
            old(self).plan().step(old(self).outputs().len() as int) == Ok::<AquaStep, Seq<char>>(
                AquaStep::Quantize,
            ) ==> {
                &&& shape::elements_fit(tensor@)
                &&& qtensor::blocks_fit(tensor@, old(self).plan().target)
            },
        ensures
            final(self).wf(),
            match outcome {
                Ok(line) => {
                    let i = old(self).outputs().len() as int;
                    let plan = old(self).plan();
                    &&& plan.step(i) is Ok
                    &&& line@ == progress_text(
                        (i + 1) as nat,
                        plan.names.len(),
                        plan.names[i],
                        plan.info(i).shape@,
                        plan.info(i).ggml_dtype,
                        plan.target,
                        plan.step(i)->Ok_0,
                    )
                    &&& step_done(kernels, *old(self), tensor, *final(self))
                },
                Err(error) => {
                    let i = old(self).outputs().len() as int;
                    let plan = old(self).plan();
                    &&& *final(self) == *old(self)
                    &&& match plan.step(i) {
                        Err(text) => error.says(text),
                        Ok(step) => step is Quantize && policy::requantized(
                            kernels,
                            tensor,
                            plan.target,
                            Err(error),
                        ),
                    }
                },
            },
    {
        let index: usize = self.tensors.len();
        let count: usize = self.names.len();
        let ghost plan = self.plan();
        let name: String = self.names[index].clone();
        proof {
            assert(name@ == plan.names[index as int]);
            assert(plan.names.contains(name@));
            assert(plan.infos.contains_key(name@));
        }
        let info = match self.infos.get(name.as_str()) {
            Some(info) => info,
            None => return Err(error_text("unlisted tensor")),
        };
        let step = match plan_tensor(name.as_str(), info, self.target) {
            Err(error) => return Err(error),
            Ok(step) => step,
        };
        let line = progress_line(index + 1, count, name.as_str(), info, self.target, step);
        let result = match step {
            AquaStep::Quantize => match requantize(kernels, &tensor, self.target) {
                Err(error) => return Err(error),
                Ok(quantized) => quantized,
            },
            _ => tensor,
        };
        assert(*info == plan.info(index as int));
        let kind = info.ggml_dtype.name();
        let is_matrix = info.shape.rank() >= 2;
        proof {
            lemma_counts_bounded(plan, index as nat);
        }
        match step {
            AquaStep::Quantize => {
                self.quantized_tensors = self.quantized_tensors + 1;
            },
            AquaStep::KeepTarget => {
                self.already_target_tensors = self.already_target_tensors + 1;
            },
            AquaStep::Copy(_) => {
                self.copied_tensors = self.copied_tensors + 1;
                self.copied_by_dtype.count(kind);
                if is_matrix {
                    self.skipped_matrix_tensors.push(name.clone());
                }
            },
        }
        self.tensors.push((name, result));
        proof {
            let n = (index + 1) as nat;
            assert(self.plan() == plan);
            assert(names::texts_of(self.skipped_matrix_tensors@) =~= plan.skipped(n));
            assert(self.outputs().drop_last() =~= old(self).outputs());
            assert forall|kind: Seq<char>| #[trigger]
                tally::count_of(self.copied_by_dtype@, kind) == plan.copied_of(kind, n) by {
                assert(tally::count_of(old(self).copied_by_dtype@, kind) == plan.copied_of(
                    kind,
                    index as nat,
                ));
            }
        }
        Ok(line)
    }

    /// The tensors that are done, as they are to be written.
    pub fn tensors(&self) -> (tensors: &Vec<(String, QTensor)>)
        ensures
            tensors@ == self.outputs(),
    {
        &self.tensors
    }

    /// What the conversion did, once every tensor is done and the result is
    /// written.
    pub fn finish(self, input_bytes: u64, output_bytes: u64) -> (summary: AquaConversionSummary)
        requires
            self.wf(),
            self.outputs().len() == self.plan().names.len(),
        ensures
            summary.total_tensors == self.plan().names.len(),
            summary.describes(self.plan(), self.plan().names.len()),
            summary.input_bytes == input_bytes,
            summary.output_bytes == output_bytes,
    {
        AquaConversionSummary {
            total_tensors: self.names.len(),
            quantized_tensors: self.quantized_tensors,
            already_target_tensors: self.already_target_tensors,
            copied_tensors: self.copied_tensors,
            copied_by_dtype: self.copied_by_dtype.into_entries(),
            skipped_matrix_tensors: self.skipped_matrix_tensors,
            input_bytes,
            output_bytes,
        }
    }
}

/// The line that sums a conversion up.
pub open spec fn summary_text(summary: AquaConversionSummary, target: GgmlDType) -> Seq<char> {
    "summary total="@ + text::decimal(summary.total_tensors as nat) + " target="@ + target.spec_name()
        + " quantized="@ + text::decimal(summary.quantized_tensors as nat) + " already-target="@
        + text::decimal(summary.already_target_tensors as nat) + " copied="@ + text::decimal(
        summary.copied_tensors as nat,
    ) + " skipped-matrix="@ + text::decimal(summary.skipped_matrix_tensors@.len())
        + " input-bytes="@ + text::decimal(summary.input_bytes as nat) + " output-bytes="@
        + text::decimal(summary.output_bytes as nat)
}

impl AquaConversionSummary {
    /// The counts are those of the first `n` tensors of the plan.
    pub open spec fn describes(self, plan: Plan, n: nat) -> bool {
        counts(
            plan,
            n,
            self.quantized_tensors as nat,
            self.already_target_tensors as nat,
            self.copied_tensors as nat,
            self.copied_by_dtype@,
            self.skipped_matrix_tensors@,
        )
    }

    /// The line that sums the conversion up.
    pub fn line(&self, target: GgmlDType) -> (line: String)
        ensures
            line@ == summary_text(*self, target),
    {
        let mut line = "summary total=".to_owned();
        line.append(decimal_text(self.total_tensors as u64).as_str());
        line.append(" target=");
        line.append(target.name());
        line.append(" quantized=");
        line.append(decimal_text(self.quantized_tensors as u64).as_str());
        line.append(" already-target=");
        line.append(decimal_text(self.already_target_tensors as u64).as_str());
        line.append(" copied=");
        line.append(decimal_text(self.copied_tensors as u64).as_str());
        line.append(" skipped-matrix=");
        line.append(decimal_text(self.skipped_matrix_tensors.len() as u64).as_str());
        line.append(" input-bytes=");
        line.append(decimal_text(self.input_bytes).as_str());
        line.append(" output-bytes=");
        line.append(decimal_text(self.output_bytes).as_str());
        line
    }

    /// One line for each type that was copied, in the order of their names.
    pub fn copied_lines(&self) -> (lines: Vec<String>)
        ensures
            lines@.len() == self.copied_by_dtype@.len(),
            forall|i: int|
                0 <= i < lines@.len() ==> (#[trigger] lines@[i])@ == "summary copied "@
                    + self.copied_by_dtype@[i].0@ + "="@ + text::decimal(
                    self.copied_by_dtype@[i].1 as nat,
                ),
    {
        let mut lines: Vec<String> = Vec::new();
        let mut i: usize = 0;
        while i < self.copied_by_dtype.len()
            invariant
                i <= self.copied_by_dtype@.len(),
                lines@.len() == i,
                forall|j: int|
                    0 <= j < i ==> (#[trigger] lines@[j])@ == "summary copied "@
                        + self.copied_by_dtype@[j].0@ + "="@ + text::decimal(
                        self.copied_by_dtype@[j].1 as nat,
                    ),
            decreases self.copied_by_dtype@.len() - i,
        {
            let mut line = "summary copied ".to_owned();
            line.append(self.copied_by_dtype[i].0.as_str());
            line.append("=");
            line.append(decimal_text(self.copied_by_dtype[i].1 as u64).as_str());
            lines.push(line);
            i = i + 1;
        }
        lines
    }
}

/// The metadata of a converted file: those of the input, with the quantization
/// version and the file type of the conversion.
pub open spec fn converted_metadata(
    metadata: Map<Seq<char>, Value>,
    file_type: u32,
) -> Map<Seq<char>, Value> {
    metadata.insert(QUANTIZATION_VERSION_KEY@, Value::U32(GGML_QNT_VERSION)).insert(
        FILE_TYPE_KEY@,
        Value::U32(file_type),
    )
}

/// The metadata of a converted file, in the order of their keys.
pub fn convert_metadata(metadata: NameMap<Value>, file_type: u32) -> (sorted: Vec<(String, Value)>)
    requires
        metadata.wf(),
    ensures
        names::names_sorted(sorted@),
        names::entry_map(sorted@) == converted_metadata(metadata@, file_type),
{
    let mut metadata = metadata;
    metadata.insert(QUANTIZATION_VERSION_KEY.to_owned(), Value::U32(GGML_QNT_VERSION));
    metadata.insert(FILE_TYPE_KEY.to_owned(), Value::U32(file_type));
    metadata.into_sorted()
}

/// No count exceeds the number of tensors.
proof fn lemma_counts_bounded(plan: Plan, n: nat)
    ensures
        plan.quantized(n) <= n,
        plan.kept(n) <= n,
        plan.copied(n) <= n,
    decreases n,
{
    if n > 0 {
        lemma_counts_bounded(plan, (n - 1) as nat);
    }
}

/// Every tensor is counted once: the quantized ones, those that have the
/// target type already, and the copied ones make up the whole.
pub proof fn law_every_tensor_is_counted_once(plan: Plan, n: nat)
    requires
        forall|i: int| 0 <= i < n ==> (#[trigger] plan.step(i)) is Ok,
    ensures
        plan.quantized(n) + plan.kept(n) + plan.copied(n) == n,
    decreases n,
{
    if n > 0 {
        law_every_tensor_is_counted_once(plan, (n - 1) as nat);
        assert(plan.step(n - 1) is Ok);
    }
}

/// A summary adds up: the quantized tensors, those that have the target type
/// already and the copied ones make up the whole, and the counts by type make
/// up the copied ones.
pub proof fn law_summary_adds_up(summary: AquaConversionSummary, plan: Plan, n: nat)
    requires
        summary.describes(plan, n),
        forall|i: int| 0 <= i < n ==> (#[trigger] plan.step(i)) is Ok,
    ensures
        summary.quantized_tensors + summary.already_target_tensors + summary.copied_tensors == n,
        tally::sum(summary.copied_by_dtype@) == summary.copied_tensors,
{
    law_every_tensor_is_counted_once(plan, n);
}

/// Both summaries say the same, entry by entry.
pub open spec fn same_summary(left: AquaConversionSummary, right: AquaConversionSummary) -> bool {
    &&& left.total_tensors == right.total_tensors
    &&& left.quantized_tensors == right.quantized_tensors
    &&& left.already_target_tensors == right.already_target_tensors
    &&& left.copied_tensors == right.copied_tensors
    &&& left.copied_by_dtype@.len() == right.copied_by_dtype@.len()
    &&& forall|i: int|
        0 <= i < left.copied_by_dtype@.len() ==> {
            &&& #[trigger] left.copied_by_dtype@[i].0@ == right.copied_by_dtype@[i].0@
            &&& left.copied_by_dtype@[i].1 == right.copied_by_dtype@[i].1
        }
    &&& names::texts_of(left.skipped_matrix_tensors@) == names::texts_of(
        right.skipped_matrix_tensors@,
    )
    &&& left.input_bytes == right.input_bytes
    &&& left.output_bytes == right.output_bytes
}

/// Two summaries of the same tensors, between files of the same sizes, say the
/// same.
pub proof fn law_summary_is_repeatable(
    left: AquaConversionSummary,
    right: AquaConversionSummary,
    plan: Plan,
    n: nat,
)
    requires
        left.describes(plan, n),
        right.describes(plan, n),
        left.total_tensors == n,
        right.total_tensors == n,
        left.input_bytes == right.input_bytes,
        left.output_bytes == right.output_bytes,
    ensures
        same_summary(left, right),
{
    assert forall|kind: Seq<char>| #[trigger]
        tally::count_of(left.copied_by_dtype@, kind) == tally::count_of(
            right.copied_by_dtype@,
            kind,
        ) by {
        assert(tally::count_of(right.copied_by_dtype@, kind) == plan.copied_of(kind, n));
    }
    tally::law_tally_is_unique(left.copied_by_dtype@, right.copied_by_dtype@);
}

/// Every tensor of a conversion comes from its own source, and from nothing
/// else: step by step, what was done before is kept.
pub proof fn law_each_output_comes_from_its_source<K: BlockKernels>(
    kernels: &K,
    states: Seq<AquaConversion>,
    sources: Seq<QTensor>,
    n: nat,
    i: int,
)
    requires
        states.len() > n,
        sources.len() >= n,
        states[0].outputs().len() == 0,
        forall|k: int|
            0 <= k < n ==> step_done(kernels, states[k], #[trigger] sources[k], states[k + 1]),
        0 <= i < n,
    ensures
        states[n as int].plan() == states[0].plan(),
        states[n as int].outputs().len() == n,
        states[n as int].outputs()[i].0@ == states[0].plan().names[i],
        output_of(kernels, states[0].plan(), i, sources[i], states[n as int].outputs()[i].1),
    decreases n,
{
    let m = (n - 1) as nat;
    if n == 1 {
        assert(step_done(kernels, states[0], sources[0], states[1]));
    } else {
        law_each_output_comes_from_its_source(kernels, states, sources, m, if i < m {
            i
        } else {
            0
        });
        assert(step_done(kernels, states[m as int], sources[m as int], states[m as int + 1]));
        let grown = states[n as int].outputs();
        if i < m {
            assert(grown.drop_last()[i] == grown[i]);
        }
    }
}

/// The order of a file's table does not matter: two conversions of the same
/// tensors to the same type go through them in the same order, and so count
/// the same.
pub proof fn law_plan_is_unique(left: Plan, right: Plan)
    requires
        left.wf(),
        right.wf(),
        left.infos == right.infos,
        left.target == right.target,
    ensures
        left == right,
{
    assert forall|name: Seq<char>| #[trigger]
        left.names.contains(name) <==> right.names.contains(name) by {
        assert(left.infos.contains_key(name) <==> left.names.contains(name));
        assert(right.infos.contains_key(name) <==> right.names.contains(name));
    }
    names::law_sorted_texts_are_unique(left.names, right.names);
}

/// Two runs over the same tensors of the same file, to the same type, give the
/// same tensors, where the kernels give the same answer whenever they are
/// asked.
pub proof fn law_conversion_is_repeatable<K: BlockKernels>(
    kernels: &K,
    states: Seq<AquaConversion>,
    other_states: Seq<AquaConversion>,
    sources: Seq<QTensor>,
    other_sources: Seq<QTensor>,
    n: nat,
    i: int,
)
    requires
        laws::is_repeatable(kernels),
        states.len() > n,
        other_states.len() > n,
        sources.len() >= n,
        other_sources.len() >= n,
        states[0].wf(),
        other_states[0].wf(),
        states[0].outputs().len() == 0,
        other_states[0].outputs().len() == 0,
        states[0].plan().infos == other_states[0].plan().infos,
        states[0].plan().target == other_states[0].plan().target,
        forall|k: int|
            0 <= k < n ==> step_done(kernels, states[k], #[trigger] sources[k], states[k + 1]),
        forall|k: int|
            0 <= k < n ==> step_done(
                kernels,
                other_states[k],
                #[trigger] other_sources[k],
                other_states[k + 1],
            ),
        forall|k: int|
            0 <= k < n ==> laws::same_tensor(#[trigger] sources[k], #[trigger] other_sources[k]),
        0 <= i < n,
    ensures
        states[n as int].plan() == other_states[n as int].plan(),
        states[n as int].outputs().len() == other_states[n as int].outputs().len(),
        states[n as int].outputs()[i].0@ == other_states[n as int].outputs()[i].0@,
        laws::same_tensor(
            states[n as int].outputs()[i].1,
            other_states[n as int].outputs()[i].1,
        ),
{
    law_plan_is_unique(states[0].plan(), other_states[0].plan());
    law_each_output_comes_from_its_source(kernels, states, sources, n, i);
    law_each_output_comes_from_its_source(kernels, other_states, other_sources, n, i);
    let plan = states[0].plan();
    let left = states[n as int].outputs()[i].1;
    let right = other_states[n as int].outputs()[i].1;
    assert(laws::same_tensor(sources[i], other_sources[i]));
    if plan.step(i) == Ok::<AquaStep, Seq<char>>(AquaStep::Quantize) {
        policy::law_requantizing_is_repeatable(
            kernels,
            sources[i],
            other_sources[i],
            plan.target,
            Ok(left),
            Ok(right),
        );
    }
}

/// A conversion keeps every metadata entry but the quantization version and
/// the file type, and adds no other.
pub proof fn law_metadata_is_kept(
    metadata: Map<Seq<char>, Value>,
    file_type: u32,
    key: Seq<char>,
)
    requires
        key != QUANTIZATION_VERSION_KEY@,
        key != FILE_TYPE_KEY@,
    ensures
        converted_metadata(metadata, file_type).contains_key(key) <==> metadata.contains_key(key),
        metadata.contains_key(key) ==> converted_metadata(metadata, file_type)[key] == metadata[key],
{
}

/// Two conversions of the same metadata to the same file type write the same
/// entries in the same order, whatever the order in which they were read.
pub proof fn law_metadata_is_repeatable(
    metadata: Map<Seq<char>, Value>,
    file_type: u32,
    left: Seq<(String, Value)>,
    right: Seq<(String, Value)>,
)
    requires
        names::names_sorted(left),
        names::names_sorted(right),
        names::entry_map(left) == converted_metadata(metadata, file_type),
        names::entry_map(right) == converted_metadata(metadata, file_type),
    ensures
        left.len() == right.len(),
        forall|i: int|
            0 <= i < left.len() ==> #[trigger] left[i].0@ == right[i].0@ && left[i].1 == right[i].1,
{
    names::law_sorted_listing_is_unique(left, right);
    assert forall|i: int| 0 <= i < left.len() implies #[trigger] left[i].0@ == right[i].0@
        && left[i].1 == right[i].1 by {
        let key = left[i].0@;
        assert(key == right[i].0@);
    }
}

/// The profile of files that hold the quantization.
pub open spec fn profile_of(quantization: Quantization) -> GgufTypeProfile {
    match quantization {
        Quantization::Q8H1 => GgufTypeProfile::AquaQ8H1,
        Quantization::Q8HP1 => GgufTypeProfile::AquaQ8Hp1,
        _ => GgufTypeProfile::Standard,
    }
}

/// The table of a written file: the tensors of the conversion, each with the
/// number of its type.
pub open spec fn writes(
    conversion: AquaConversion,
    written: Map<Seq<char>, RawTensorInfo>,
) -> bool {
    &&& forall|name: Seq<char>| #[trigger]
        written.contains_key(name) <==> conversion.plan().names.contains(name)
    &&& forall|i: int|
        0 <= i < conversion.outputs().len() ==> written[#[trigger] conversion.plan().names[i]].raw_dtype
            == conversion.outputs()[i].1.spec_storage().spec_dtype().spec_id()
}

/// A finished conversion of a file without profile keys is read back under the
/// profile of its target, and every tensor as the type it was written with,
/// where some tensor has the target type and none that was copied has the
/// other type of the Q8_H family.
pub proof fn law_converted_file_is_detected(
    conversion: AquaConversion,
    metadata: Map<Seq<char>, Value>,
    quantization: Quantization,
    written: Map<Seq<char>, RawTensorInfo>,
    target_at: int,
)
    requires
        conversion.wf(),
        conversion.outputs().len() == conversion.plan().names.len(),
        quantization.spec_dtype().is_raw(),
        conversion.plan().target == quantization.spec_dtype(),
        writes(conversion, written),
        !metadata.contains_key(profile::PROFILE_KEY@),
        !metadata.contains_key(profile::PROFILE_VERSION_KEY@),
        0 <= target_at < conversion.outputs().len(),
        !conversion.plan().copies(target_at),
        forall|i: int|
            0 <= i < conversion.outputs().len() && #[trigger] conversion.plan().copies(i) ==> {
                ||| !conversion.plan().info(i).ggml_dtype.is_raw()
                ||| conversion.plan().info(i).ggml_dtype == conversion.plan().target
            },
    ensures
        profile::profile_outcome(
            converted_metadata(metadata, quantization.spec_file_type()->0),
            written,
        ) == Ok::<GgufTypeProfile, Seq<char>>(profile_of(quantization)),
        forall|i: int|
            0 <= i < conversion.outputs().len() ==> profile::reads_as(
                written[#[trigger] conversion.plan().names[i]].raw_dtype,
                profile_of(quantization),
                conversion.outputs()[i].1.spec_storage().spec_dtype(),
            ),
{
    let plan = conversion.plan();
    let target = plan.target;
    let file_type = quantization.spec_file_type()->0;
    let after = converted_metadata(metadata, file_type);
    reveal_strlit("aqua.gguf.profile");
    reveal_strlit("aqua.gguf.profile_version");
    reveal_strlit("general.quantization_version");
    reveal_strlit("general.file_type");
    assert(QUANTIZATION_VERSION_KEY@.len() != FILE_TYPE_KEY@.len());
    assert(profile::PROFILE_KEY@[0] != FILE_TYPE_KEY@[0]);
    assert(profile::PROFILE_KEY@[0] != QUANTIZATION_VERSION_KEY@[0]);
    assert(profile::PROFILE_VERSION_KEY@[0] != FILE_TYPE_KEY@[0]);
    assert(profile::PROFILE_VERSION_KEY@[0] != QUANTIZATION_VERSION_KEY@[0]);
    assert(profile::number_under(after, FILE_TYPE_KEY@) == Some(file_type));
    assert(profile::number_under(after, QUANTIZATION_VERSION_KEY@) == Some(GGML_QNT_VERSION));
    assert(conversion.outputs()[target_at].1.spec_storage().spec_dtype() == target);
    let found = plan.names[target_at];
    assert(plan.names.contains(found));
    assert(written.contains_key(found) && written[found].raw_dtype == target.spec_id());
    assert(profile::uses_dtype(written, target.spec_id()));
    assert forall|name: Seq<char>| #[trigger] written.contains_key(name) implies {
        ||| written[name].raw_dtype == target.spec_id()
        ||| written[name].raw_dtype != profile::Q8_H1_DTYPE && written[name].raw_dtype
            != profile::Q8_HP1_DTYPE
    } by {
        let i = choose|i: int| 0 <= i < plan.names.len() && plan.names[i] == name;
        assert(written[plan.names[i]].raw_dtype
            == conversion.outputs()[i].1.spec_storage().spec_dtype().spec_id());
        if plan.copies(i) {
            assert(conversion.outputs()[i].1.spec_storage().spec_dtype() == plan.info(i).ggml_dtype);
        }
    }
}

/// What the conversion does with a tensor goes by its classification: what is
/// to be copied is copied for that reason; the rest needs rows of whole blocks
/// of 32, is kept where it has the target type already, is quantized where it
/// holds plain numbers, and is refused where it is quantized otherwise.
pub proof fn law_steps_follow_the_classification(
    name: &str,
    info: &TensorInfo,
    target: GgmlDType,
    action: AquaQuantizationAction,
    outcome: Result<AquaStep, Error>,
)
    requires
        call_ensures(classify_aqua_quantization, (name, &info.shape), action),
        call_ensures(plan_tensor, (name, info, target), outcome),
    ensures
        action matches AquaQuantizationAction::Copy(reason) ==> outcome == Ok::<AquaStep, Error>(
            AquaStep::Copy(reason),
        ),
        action is Quantize ==> {
            &&& outcome is Ok ==> info.shape@.last() % 32 == 0
            &&& outcome == Ok::<AquaStep, Error>(AquaStep::KeepTarget) <==> info.shape@.last() % 32
                == 0 && info.ggml_dtype == target
            &&& outcome == Ok::<AquaStep, Error>(AquaStep::Quantize) <==> info.shape@.last() % 32
                == 0 && info.ggml_dtype != target && (info.ggml_dtype is F32
                || info.ggml_dtype is F16 || info.ggml_dtype is BF16)
            &&& outcome is Err <==> info.shape@.last() % 32 != 0 || (info.ggml_dtype != target
                && info.ggml_dtype.spec_block_size() > 1)
        },
{
}

/// Each tensor counts where its step puts it, and nowhere else.
pub proof fn law_counts_go_by_the_step(plan: Plan, n: nat, kind: Seq<char>)
    ensures
        plan.quantized(0) == 0 && plan.kept(0) == 0 && plan.copied(0) == 0 && plan.copied_of(
            kind,
            0,
        ) == 0 && plan.skipped(0).len() == 0,
        plan.step(n as int) == Ok::<AquaStep, Seq<char>>(AquaStep::Quantize) ==> plan.quantized(n + 1)
            == plan.quantized(n) + 1,
        plan.step(n as int) != Ok::<AquaStep, Seq<char>>(AquaStep::Quantize) ==> plan.quantized(n + 1)
            == plan.quantized(n),
        plan.step(n as int) == Ok::<AquaStep, Seq<char>>(AquaStep::KeepTarget) ==> plan.kept(n + 1)
            == plan.kept(n) + 1,
        plan.step(n as int) != Ok::<AquaStep, Seq<char>>(AquaStep::KeepTarget) ==> plan.kept(n + 1)
            == plan.kept(n),
        (plan.step(n as int) is Ok && plan.step(n as int)->Ok_0 is Copy) ==> {
            &&& plan.copied(n + 1) == plan.copied(n) + 1
            &&& plan.copied_of(kind, n + 1) == plan.copied_of(kind, n) + (if plan.info(
                n as int,
            ).ggml_dtype.spec_name() == kind {
                1nat
            } else {
                0
            })
            &&& plan.info(n as int).shape@.len() >= 2 ==> plan.skipped(n + 1) == plan.skipped(n).push(
                plan.names[n as int],
            )
            &&& plan.info(n as int).shape@.len() < 2 ==> plan.skipped(n + 1) == plan.skipped(n)
        },
        !(plan.step(n as int) is Ok && plan.step(n as int)->Ok_0 is Copy) ==> {
            &&& plan.copied(n + 1) == plan.copied(n)
            &&& plan.copied_of(kind, n + 1) == plan.copied_of(kind, n)
            &&& plan.skipped(n + 1) == plan.skipped(n)
        },
{
    reveal_with_fuel(Plan::count, 2);
}

/// A tensor's step is the one that its own name, extents and type ask for.
pub proof fn law_plan_steps_are_the_tensors_own(
    conversion: AquaConversion,
    i: int,
    name: &str,
    outcome: Result<AquaStep, Error>,
)
    requires
        conversion.wf(),
        0 <= i < conversion.plan().names.len(),
        name@ == conversion.plan().names[i],
        call_ensures(
            plan_tensor,
            (name, &conversion.plan().infos[name@], conversion.plan().target),
            outcome,
        ),
    ensures
        outcome is Ok <==> conversion.plan().step(i) is Ok,
        outcome is Ok ==> outcome->Ok_0 == conversion.plan().step(i)->Ok_0,
        outcome is Err ==> outcome->Err_0@ == conversion.plan().step(i)->Err_0,
{
}

/// Converting the next tensor adds it under its own name: a tensor that is to be
/// quantized comes back in the target type with its extents, any other is the
/// very source; what was done before stays.
pub proof fn law_next_tensor_is_added<K: BlockKernels>(
    conversion: &mut AquaConversion,
    kernels: &K,
    tensor: QTensor,
    outcome: Result<String, Error>,
)
    requires
        call_ensures(AquaConversion::convert_next::<K>, (conversion, kernels, tensor), outcome),
        outcome is Ok,
        old(conversion).outputs().len() < old(conversion).plan().names.len(),
    ensures
        ({
            let n = old(conversion).outputs().len() as int;
            let plan = old(conversion).plan();
            let added = final(conversion).outputs()[n];
            &&& final(conversion).plan() == plan
            &&& final(conversion).outputs().len() == n + 1
            &&& forall|i: int|
                0 <= i < n ==> #[trigger] final(conversion).outputs()[i] == old(
                    conversion,
                ).outputs()[i]
            &&& added.0@ == plan.names[n]
            &&& plan.step(n) is Ok
            &&& added.1@ == plan.info(n).shape@
            &&& plan.step(n)->Ok_0 is Quantize ==> added.1.spec_storage().spec_dtype() == plan.target
                && policy::requantized(kernels, tensor, plan.target, Ok(added.1))
            &&& !(plan.step(n)->Ok_0 is Quantize) ==> added.1 == tensor
        }),
{
    let n = old(conversion).outputs().len() as int;
    assert forall|i: int| 0 <= i < n implies #[trigger] final(conversion).outputs()[i] == old(
        conversion,
    ).outputs()[i] by {
        assert(final(conversion).outputs().drop_last()[i] == final(conversion).outputs()[i]);
    }
    assert(final(conversion).outputs()[n].1@ == final(conversion).plan().info(n).shape@);
}

/// A converted file announces version 2 of the quantization and the file type of
/// the conversion, and no other entry is new.
pub proof fn law_converted_metadata_announce_the_conversion(
    metadata: NameMap<Value>,
    file_type: u32,
    sorted: Vec<(String, Value)>,
    key: Seq<char>,
)
    requires
        call_ensures(convert_metadata, (metadata, file_type), sorted),
    ensures
        names::names_sorted(sorted@),
        names::entry_map(sorted@).contains_key("general.quantization_version"@),
        names::entry_map(sorted@)["general.quantization_version"@] == Value::U32(2),
        names::entry_map(sorted@).contains_key("general.file_type"@),
        names::entry_map(sorted@)["general.file_type"@] == Value::U32(file_type),
        key != "general.quantization_version"@ && key != "general.file_type"@ ==> {
            &&& names::entry_map(sorted@).contains_key(key) <==> metadata@.contains_key(key)
            &&& metadata@.contains_key(key) ==> names::entry_map(sorted@)[key] == metadata@[key]
        },
{
    reveal_strlit("general.quantization_version");
    reveal_strlit("general.file_type");
    assert("general.quantization_version"@.len() != "general.file_type"@.len());
}

/// A finished conversion sums up what it did with each of its tensors, and the
/// sizes that it was told.
pub proof fn law_finished_conversion_sums_itself_up(
    conversion: AquaConversion,
    input_bytes: u64,
    output_bytes: u64,
    summary: AquaConversionSummary,
)
    requires
        call_ensures(AquaConversion::finish, (conversion, input_bytes, output_bytes), summary),
        forall|i: int|
            0 <= i < conversion.plan().names.len() ==> (#[trigger] conversion.plan().step(i)) is Ok,
    ensures
        summary.input_bytes == input_bytes,
        summary.output_bytes == output_bytes,
        summary.total_tensors == conversion.plan().names.len(),
        summary.quantized_tensors + summary.already_target_tensors + summary.copied_tensors
            == summary.total_tensors,
        summary.quantized_tensors == conversion.plan().quantized(conversion.plan().names.len()),
        summary.already_target_tensors == conversion.plan().kept(conversion.plan().names.len()),
        summary.copied_tensors == conversion.plan().copied(conversion.plan().names.len()),
        names::texts_of(summary.skipped_matrix_tensors@) == conversion.plan().skipped(
            conversion.plan().names.len(),
        ),
{
    law_every_tensor_is_counted_once(conversion.plan(), conversion.plan().names.len());
}

/// The line that sums a conversion up names every count by what it counts.
pub proof fn law_summary_line_names_its_counts(
    summary: &AquaConversionSummary,
    target: GgmlDType,
    line: String,
)
    requires
        call_ensures(AquaConversionSummary::line, (summary, target), line),
    ensures
        text::is_infix(" target="@ + target.spec_name() + " quantized="@, line@),
        text::is_infix(
            " quantized="@ + text::decimal(summary.quantized_tensors as nat) + " already-target="@,
            line@,
        ),
        text::is_infix(
            " already-target="@ + text::decimal(summary.already_target_tensors as nat)
                + " copied="@,
            line@,
        ),
        text::is_infix(
            " copied="@ + text::decimal(summary.copied_tensors as nat) + " skipped-matrix="@,
            line@,
        ),
        text::is_infix(
            " skipped-matrix="@ + text::decimal(summary.skipped_matrix_tensors@.len())
                + " input-bytes="@,
            line@,
        ),
        text::is_infix(
            " input-bytes="@ + text::decimal(summary.input_bytes as nat) + " output-bytes="@,
            line@,
        ),
        text::is_prefix("summary total="@ + text::decimal(summary.total_tensors as nat), line@),
        text::is_suffix(" output-bytes="@ + text::decimal(summary.output_bytes as nat), line@),
{
    let p1 = "summary total="@ + text::decimal(summary.total_tensors as nat);
    let p2 = p1 + " target="@ + target.spec_name();
    let p3 = p2 + " quantized="@ + text::decimal(summary.quantized_tensors as nat);
    let p4 = p3 + " already-target="@ + text::decimal(summary.already_target_tensors as nat);
    let p5 = p4 + " copied="@ + text::decimal(summary.copied_tensors as nat);
    let p6 = p5 + " skipped-matrix="@ + text::decimal(summary.skipped_matrix_tensors@.len());
    let p7 = p6 + " input-bytes="@ + text::decimal(summary.input_bytes as nat);
    let end = " output-bytes="@ + text::decimal(summary.output_bytes as nat);
    assert(line@ =~= p7 + end);
    let part = " target="@ + target.spec_name() + " quantized="@;
    assert(line@.subrange(p1.len() as int, p1.len() as int + part.len()) =~= part);
    assert(text::occurs_at(part, line@, p1.len() as int));
    let part = " quantized="@ + text::decimal(summary.quantized_tensors as nat)
        + " already-target="@;
    assert(line@.subrange(p2.len() as int, p2.len() as int + part.len()) =~= part);
    assert(text::occurs_at(part, line@, p2.len() as int));
    let part = " already-target="@ + text::decimal(summary.already_target_tensors as nat)
        + " copied="@;
    assert(line@.subrange(p3.len() as int, p3.len() as int + part.len()) =~= part);
    assert(text::occurs_at(part, line@, p3.len() as int));
    let part = " copied="@ + text::decimal(summary.copied_tensors as nat) + " skipped-matrix="@;
    assert(line@.subrange(p4.len() as int, p4.len() as int + part.len()) =~= part);
    assert(text::occurs_at(part, line@, p4.len() as int));
    let part = " skipped-matrix="@ + text::decimal(summary.skipped_matrix_tensors@.len())
        + " input-bytes="@;
    assert(line@.subrange(p5.len() as int, p5.len() as int + part.len()) =~= part);
    assert(text::occurs_at(part, line@, p5.len() as int));
    let part = " input-bytes="@ + text::decimal(summary.input_bytes as nat) + " output-bytes="@;
    assert(line@.subrange(p6.len() as int, p6.len() as int + part.len()) =~= part);
    assert(text::occurs_at(part, line@, p6.len() as int));
    assert(line@.subrange(0, p1.len() as int) =~= p1);
    assert(line@.subrange(line@.len() - end.len(), line@.len() as int) =~= end);
}

/// A refused tensor leaves the conversion as it was: it is refused for what the
/// plan says, or because it could not be quantized again.
pub proof fn law_refused_tensor_changes_nothing<K: BlockKernels>(
    conversion: &mut AquaConversion,
    kernels: &K,
    tensor: QTensor,
    outcome: Result<String, Error>,
)
    requires
        call_ensures(AquaConversion::convert_next::<K>, (conversion, kernels, tensor), outcome),
        outcome is Err,
    ensures
        *final(conversion) == *old(conversion),
        old(conversion).plan().step(old(conversion).outputs().len() as int) is Err ==> outcome->Err_0@
            == old(conversion).plan().step(old(conversion).outputs().len() as int)->Err_0,
        old(conversion).plan().step(old(conversion).outputs().len() as int) is Ok ==> {
            &&& old(conversion).plan().step(old(conversion).outputs().len() as int)->Ok_0 is Quantize
            &&& policy::requantized(
                kernels,
                tensor,
                old(conversion).plan().target,
                Err(outcome->Err_0),
            )
        },
{
}

/// The line on a converted tensor counts it from one among all, names it, and
/// tells its extents, its type and what became of it: the target type, or a copy
/// and its reason.
pub proof fn law_progress_lines_tell_what_became_of_a_tensor<K: BlockKernels>(
    conversion: &mut AquaConversion,
    kernels: &K,
    tensor: QTensor,
    outcome: Result<String, Error>,
)
    requires
        call_ensures(AquaConversion::convert_next::<K>, (conversion, kernels, tensor), outcome),
        outcome is Ok,
    ensures
        ({
            let n = old(conversion).outputs().len();
            let plan = old(conversion).plan();
            let start = "["@ + text::decimal(n + 1) + "/"@ + text::decimal(plan.names.len()) + "] "@
                + plan.names[n as int] + " shape="@ + text::decimal_list(plan.info(n as int).shape@)
                + " source="@ + plan.info(n as int).ggml_dtype.spec_name() + " action="@;
            let line = outcome->Ok_0@;
            &&& line.len() >= start.len()
            &&& line.take(start.len() as int) == start
            &&& plan.step(n as int)->Ok_0 is Quantize ==> line.skip(start.len() as int)
                == plan.target.spec_name()
            &&& plan.step(n as int)->Ok_0 is KeepTarget ==> line.skip(start.len() as int)
                == "COPY reason=already-target"@
            &&& plan.step(n as int)->Ok_0 is Copy ==> line.skip(start.len() as int)
                == "COPY reason="@ + plan.step(n as int)->Ok_0->Copy_0.spec_text()
        }),
{
    let n = old(conversion).outputs().len();
    let plan = old(conversion).plan();
    let start = "["@ + text::decimal(n + 1) + "/"@ + text::decimal(plan.names.len()) + "] "@
        + plan.names[n as int] + " shape="@ + text::decimal_list(plan.info(n as int).shape@)
        + " source="@ + plan.info(n as int).ggml_dtype.spec_name() + " action="@;
    let line = outcome->Ok_0@;
    let tail = match plan.step(n as int)->Ok_0 {
        AquaStep::Quantize => plan.target.spec_name(),
        AquaStep::KeepTarget => "COPY reason=already-target"@,
        AquaStep::Copy(reason) => "COPY reason="@ + reason.spec_text(),
    };
    assert(line == start + tail);
    assert(line.take(start.len() as int) =~= start);
    assert(line.skip(start.len() as int) =~= tail);
}

/// A conversion starts for every file but those of the first version and the
/// parts of split files; it starts with nothing done, and plans the file's
/// tensors and the quantization's type.
pub proof fn law_conversion_starts_with_nothing_done(
    magic: VersionedMagic,
    metadata: &NameMap<Value>,
    infos: NameMap<TensorInfo>,
    quantization: Quantization,
    outcome: Result<AquaConversion, Error>,
)
    requires
        call_ensures(AquaConversion::begin, (magic, metadata, infos, quantization), outcome),
    ensures
        magic is GgufV1 ==> outcome is Err && outcome->Err_0@
            == "Q8_H conversion supports GGUF V2/V3, not GGUF V1"@,
        !(magic is GgufV1) && outcome is Err ==> outcome->Err_0@ == "unsupported split GGUF input"@,
        !(magic is GgufV1) ==> (outcome is Err <==> request::is_split(metadata@)),
        outcome is Ok ==> {
            &&& outcome->Ok_0.outputs().len() == 0
            &&& outcome->Ok_0.plan().infos == infos@
            &&& outcome->Ok_0.plan().target == quantization.spec_dtype()
        },
{
}

/// The conversion asks for the tensors of its plan one after another, each by
/// its name and with what the file says of it, until all are done.
pub proof fn law_conversion_asks_for_the_next_tensor(
    conversion: &AquaConversion,
    name: Option<&String>,
    info: Option<&TensorInfo>,
    tensors: &Vec<(String, QTensor)>,
)
    requires
        call_ensures(AquaConversion::next_name, (conversion,), name),
        call_ensures(AquaConversion::next_info, (conversion,), info),
        call_ensures(AquaConversion::tensors, (conversion,), tensors),
    ensures
        name is Some <==> info is Some,
        name is None ==> tensors@.len() == conversion.plan().names.len(),
        name is Some ==> {
            &&& tensors@.len() < conversion.plan().names.len()
            &&& name->Some_0@ == conversion.plan().names[tensors@.len() as int]
            &&& *info->Some_0 == conversion.plan().info(tensors@.len() as int)
        },
{
}

/// The lines on copied tensors name each type with its count.
pub proof fn law_copied_types_are_told_with_their_counts(
    summary: &AquaConversionSummary,
    lines: Vec<String>,
    i: int,
)
    requires
        call_ensures(AquaConversionSummary::copied_lines, (summary,), lines),
        0 <= i < summary.copied_by_dtype@.len(),
    ensures
        lines@.len() == summary.copied_by_dtype@.len(),
        lines@[i]@ == "summary copied "@ + summary.copied_by_dtype@[i].0@ + "="@ + text::decimal(
            summary.copied_by_dtype@[i].1 as nat,
        ),
{
}

/// A tensor that cannot be converted is refused with its name and what is wrong
/// with it: the width of its rows, or the type that it has.
pub proof fn law_refused_tensors_are_told_why(
    name: &str,
    info: &TensorInfo,
    target: GgmlDType,
    outcome: Result<AquaStep, Error>,
)
    requires
        call_ensures(plan_tensor, (name, info, target), outcome),
        outcome is Err,
    ensures
        info.shape@.last() % 32 != 0 ==> outcome->Err_0@ == target.spec_name() + " tensor "@ + name@
            + " has row width "@ + text::decimal(info.shape@.last() as nat)
            + ", which is not divisible by 32"@,
        info.shape@.last() % 32 == 0 ==> outcome->Err_0@ == target.spec_name() + " tensor "@ + name@
            + " cannot requantize source dtype "@ + info.ggml_dtype.spec_name(),
{
}

} // verus!
