//! What a caller asks for: file formats, listings, and kinds of conversion.

use crate::convert::policy::{Quantization, QuantizationMode};
use crate::error;
use crate::error::{error_text, error_text2, Error};
use crate::gguf_file::{TensorInfo, Value, VersionedMagic};
use crate::names;
use crate::names::{sorted_names, NameMap};
use crate::shape::Shape;
use crate::sorting;
use crate::sorting::sorted_by_name;
use crate::text;
use crate::text::{same_text, starts_with};
use vstd::prelude::*;

verus! {

/// The formats of tensor files.
#[derive(Clone, Copy, Debug, PartialEq, Eq, Structural)]
pub enum Format {
    Safetensors,
    Npz,
    Ggml,
    Gguf,
    Pth,
    Pickle,
}

/// The format that a file extension stands for. `bin` stands for none: it is
/// used for more than one.
pub open spec fn format_of(extension: Option<Seq<char>>) -> Option<Format> {
    match extension {
        None => None,
        Some(text) => if text == "safetensors"@ || text == "safetensor"@ {
            Some(Format::Safetensors)
        } else if text == "npz"@ {
            Some(Format::Npz)
        } else if text == "pth"@ || text == "pt"@ {
            Some(Format::Pth)
        } else if text == "ggml"@ {
            Some(Format::Ggml)
        } else if text == "gguf"@ {
            Some(Format::Gguf)
        } else {
            None
        },
    }
}

/// The text of an optional string.
pub open spec fn optional_text(text: Option<&str>) -> Option<Seq<char>> {
    match text {
        Some(text) => Some(text@),
        None => None,
    }
}

/// Whether a file has the given extension.
fn has_extension(extension: Option<&str>, wanted: &str) -> (yes: bool)
    ensures
        yes == (optional_text(extension) == Some(wanted@)),
{
    match extension {
        Some(text) => same_text(text, wanted),
        None => false,
    }
}

impl Format {
    /// The format that a file extension stands for.
    pub fn infer(extension: Option<&str>) -> (format: Option<Format>)
        ensures
            format == format_of(optional_text(extension)),
    {
        if has_extension(extension, "safetensors") || has_extension(extension, "safetensor") {
            Some(Format::Safetensors)
        } else if has_extension(extension, "npz") {
            Some(Format::Npz)
        } else if has_extension(extension, "pth") || has_extension(extension, "pt") {
            Some(Format::Pth)
        } else if has_extension(extension, "ggml") {
            Some(Format::Ggml)
        } else if has_extension(extension, "gguf") {
            Some(Format::Gguf)
        } else {
            None
        }
    }

    /// The format that was named, else the one that the extension stands for.
    pub fn resolve(named: Option<Format>, extension: Option<&str>) -> (format: Option<Format>)
        ensures
            format == (if named is Some {
                named
            } else {
                format_of(optional_text(extension))
            }),
    {
        match named {
            Some(format) => Some(format),
            None => Format::infer(extension),
        }
    }

    /// Refuses the format whose tensors cannot be printed.
    pub fn check_printable(self) -> (outcome: Result<(), Error>)
        ensures
            self is Pickle ==> error::fails_with(
                outcome,
                "pickle format is not supported for print"@,
            ),
            !(self is Pickle) ==> outcome is Ok,
    {
        match self {
            Format::Pickle => Err(error_text("pickle format is not supported for print")),
            _ => Ok(()),
        }
    }
}

/// The names to print: those that were asked for, or all where none was.
pub fn names_to_print(asked: Vec<String>, all: Vec<String>) -> (names: Vec<String>)
    ensures
        names == (if asked@.len() == 0 {
            all
        } else {
            asked
        }),
{
    if asked.len() == 0 {
        all
    } else {
        asked
    }
}

/// The line above a printed tensor.
pub fn heading(name: &str) -> (line: String)
    ensures
        line@ == "==== "@ + name@ + " ===="@,
{
    let mut line = "==== ".to_owned();
    line.append(name);
    line.append(" ====");
    line
}

/// The lines that print a tensor: its name, and the tensor as it is shown, or
/// that there is none.
pub fn printed_lines(name: &str, shown: Option<&str>) -> (lines: Vec<String>)
    ensures
        lines@.len() == 2,
        lines@[0]@ == "==== "@ + name@ + " ===="@,
        lines@[1]@ == (match shown {
            Some(text) => text@,
            None => "not found"@,
        }),
{
    let mut lines: Vec<String> = Vec::new();
    lines.push(heading(name));
    match shown {
        Some(text) => lines.push(text.to_owned()),
        None => lines.push("not found".to_owned()),
    }
    lines
}

/// How a tensor is described in a listing.
pub open spec fn description(dims: Seq<usize>, kind: Seq<char>) -> Seq<char> {
    "["@ + text::decimal_list(dims) + "; "@ + kind + "]"@
}

/// How a tensor is described in a listing.
pub fn describe(shape: &Shape, kind: &str) -> (described: String)
    ensures
        described@ == description(shape@, kind@),
{
    let mut described = "[".to_owned();
    described.append(shape.text().as_str());
    described.append("; ");
    described.append(kind);
    described.append("]");
    described
}

/// The lines list the table: one for each name, in the order of the names.
pub open spec fn lists(
    lines: Seq<String>,
    sorted: Seq<String>,
    described: Map<Seq<char>, Seq<char>>,
) -> bool {
    &&& names::strings_sorted(sorted)
    &&& forall|name: Seq<char>| #[trigger]
        described.contains_key(name) <==> names::lists_name(sorted, name)
    &&& lines.len() == sorted.len()
    &&& forall|i: int|
        0 <= i < lines.len() ==> (#[trigger] lines[i])@ == sorted[i]@ + ": "@ + described[sorted[i]@]
}

/// The descriptions of the tensors of a file.
pub open spec fn descriptions(infos: Map<Seq<char>, TensorInfo>) -> Map<Seq<char>, Seq<char>> {
    infos.map_values(
        |info: TensorInfo| description(info.shape@, info.ggml_dtype.spec_name()),
    )
}

/// The listing of named descriptions: one line for each, in the order of the
/// names. Descriptions of the same name keep their order.
pub fn listing(entries: Vec<(String, String)>) -> (lines: Vec<String>)
    ensures
        lines@.len() == entries@.len(),
        forall|i: int|
            0 <= i < lines@.len() ==> (#[trigger] lines@[i])@ == sorting::by_name(entries@)[i].0@
                + ": "@ + sorting::by_name(entries@)[i].1@,
{
    proof {
        sorting::law_sorting_keeps_every_entry(entries@);
    }
    let sorted = sorted_by_name(entries);
    let mut lines: Vec<String> = Vec::new();
    let mut i: usize = 0;
    while i < sorted.len()
        invariant
            i <= sorted@.len(),
            lines@.len() == i,
            forall|j: int|
                0 <= j < i ==> (#[trigger] lines@[j])@ == sorted@[j].0@ + ": "@ + sorted@[j].1@,
        decreases sorted@.len() - i,
    {
        let mut line = sorted[i].0.clone();
        line.append(": ");
        line.append(sorted[i].1.as_str());
        lines.push(line);
        i = i + 1;
    }
    lines
}

/// The listing of the tensors of a file.
pub fn tensor_listing(infos: &NameMap<TensorInfo>) -> (lines: Vec<String>)
    requires
        infos.wf(),
    ensures
        exists|sorted: Seq<String>| #[trigger] lists(lines@, sorted, descriptions(infos@)),
{
    let sorted = sorted_names(infos);
    let mut lines: Vec<String> = Vec::new();
    let mut i: usize = 0;
    while i < sorted.len()
        invariant
            i <= sorted@.len(),
            infos.wf(),
            forall|name: Seq<char>| #[trigger]
                infos@.contains_key(name) <==> names::lists_name(sorted@, name),
            lines@.len() == i,
            forall|j: int|
                0 <= j < i ==> (#[trigger] lines@[j])@ == sorted@[j]@ + ": "@ + descriptions(
                    infos@,
                )[sorted@[j]@],
        decreases sorted@.len() - i,
    {
        let mut line = sorted[i].clone();
        line.append(": ");
        assert(names::lists_name(sorted@, sorted@[i as int]@));
        match infos.get(sorted[i].as_str()) {
            Some(info) => {
                let described = describe(&info.shape, info.ggml_dtype.name());
                line.append(described.as_str());
            },
            None => {},
        }
        lines.push(line);
        i = i + 1;
    }
    assert(lists(lines@, sorted@, descriptions(infos@)));
    lines
}

/// A table has one listing, whatever the order of its entries.
pub proof fn law_listing_is_unique(
    left: Seq<String>,
    left_sorted: Seq<String>,
    right: Seq<String>,
    right_sorted: Seq<String>,
    described: Map<Seq<char>, Seq<char>>,
)
    requires
        lists(left, left_sorted, described),
        lists(right, right_sorted, described),
    ensures
        names::texts_of(left) == names::texts_of(right),
{
    let a = names::texts_of(left_sorted);
    let b = names::texts_of(right_sorted);
    lemma_listed_texts(left_sorted, described);
    lemma_listed_texts(right_sorted, described);
    assert forall|text: Seq<char>| #[trigger] a.contains(text) <==> b.contains(text) by {
        assert(described.contains_key(text) <==> a.contains(text));
        assert(described.contains_key(text) <==> b.contains(text));
    }
    names::law_sorted_texts_are_unique(a, b);
    assert(left.len() == a.len() && right.len() == b.len());
    assert forall|i: int| 0 <= i < left.len() implies left[i]@ == right[i]@ by {
        assert(a[i] == left_sorted[i]@ && b[i] == right_sorted[i]@);
    }
    assert(names::texts_of(left) =~= names::texts_of(right));
}

/// The texts of an increasing list of names increase, and are the names.
proof fn lemma_listed_texts(sorted: Seq<String>, described: Map<Seq<char>, Seq<char>>)
    requires
        names::strings_sorted(sorted),
        forall|name: Seq<char>| #[trigger]
            described.contains_key(name) <==> names::lists_name(sorted, name),
    ensures
        names::texts_sorted(names::texts_of(sorted)),
        forall|name: Seq<char>| #[trigger]
            described.contains_key(name) <==> names::texts_of(sorted).contains(name),
{
    let texts = names::texts_of(sorted);
    assert forall|i: int, j: int| 0 <= i < j < texts.len() implies text::text_lt(
        #[trigger] texts[i],
        #[trigger] texts[j],
    ) by {
        assert(text::text_lt(sorted[i]@, sorted[j]@));
    }
    assert forall|name: Seq<char>| #[trigger]
        described.contains_key(name) <==> texts.contains(name) by {
        if described.contains_key(name) {
            let i = choose|i: int| 0 <= i < sorted.len() && #[trigger] sorted[i]@ == name;
            assert(texts[i] == name);
        }
        if texts.contains(name) {
            let i = choose|i: int| 0 <= i < texts.len() && texts[i] == name;
            assert(sorted[i]@ == name);
        }
    }
}

/// The ways in which files are quantized.
#[derive(Clone, Copy, Debug, PartialEq, Eq, Structural)]
pub enum QuantizePlan {
    /// The row-aware conversion of one GGUF file.
    Aqua,
    /// One GGUF file from any number of safetensors files.
    Safetensors,
    /// One GGUF file from another.
    Gguf,
}

/// What a caller's request for a quantization comes to.
pub open spec fn plan_of(
    files: nat,
    input: Option<Seq<char>>,
    output: Option<Seq<char>>,
    quantization: Quantization,
    mode: QuantizationMode,
) -> Result<QuantizePlan, Seq<char>> {
    if files == 0 {
        Err("no specified input files"@)
    } else if quantization.spec_dtype().is_raw() {
        if mode != QuantizationMode::Aqua {
            Err(quantization.spec_dtype().spec_name() + " quantization requires --mode aqua"@)
        } else if files != 1 {
            Err("Q8_H conversion requires a single GGUF input"@)
        } else {
            Ok(QuantizePlan::Aqua)
        }
    } else if mode == QuantizationMode::Aqua {
        Err("Aqua mode requires q8_h1 or q8_hp1 quantization"@)
    } else if output == Some("safetensors"@) {
        Err("the generated file cannot use the safetensors extension"@)
    } else if input == Some("safetensors"@) {
        Ok(QuantizePlan::Safetensors)
    } else if files != 1 {
        Err("only a single in-file can be used when quantizing gguf files"@)
    } else {
        Ok(QuantizePlan::Gguf)
    }
}

/// What a caller's request for a quantization comes to, given the number of
/// input files and the extensions of the first one and of the output.
pub fn plan_quantize(
    files: usize,
    input_extension: Option<&str>,
    output_extension: Option<&str>,
    quantization: Quantization,
    mode: QuantizationMode,
) -> (outcome: Result<QuantizePlan, Error>)
    ensures
        error::same_outcome(
            outcome,
            plan_of(
                files as nat,
                optional_text(input_extension),
                optional_text(output_extension),
                quantization,
                mode,
            ),
        ),
{
    if files == 0 {
        return Err(error_text("no specified input files"));
    }
    if quantization.is_h() {
        if mode != QuantizationMode::Aqua {
            return Err(
                error_text2(quantization.dtype().name(), " quantization requires --mode aqua"),
            );
        }
        if files != 1 {
            return Err(error_text("Q8_H conversion requires a single GGUF input"));
        }
        return Ok(QuantizePlan::Aqua);
    }
    if mode == QuantizationMode::Aqua {
        return Err(error_text("Aqua mode requires q8_h1 or q8_hp1 quantization"));
    }
    if has_extension(output_extension, "safetensors") {
        return Err(error_text("the generated file cannot use the safetensors extension"));
    }
    if has_extension(input_extension, "safetensors") {
        return Ok(QuantizePlan::Safetensors);
    }
    if files != 1 {
        return Err(error_text("only a single in-file can be used when quantizing gguf files"));
    }
    Ok(QuantizePlan::Gguf)
}

/// The file type of a row-aware conversion, or why it is refused from the
/// request alone.
pub open spec fn aqua_request(
    quantization: Quantization,
    input: Option<Seq<char>>,
    output: Option<Seq<char>>,
) -> Result<u32, Seq<char>> {
    match quantization.spec_file_type() {
        None => Err("Aqua mode requires q8_h1 or q8_hp1, got "@ + quantization.spec_name()),
        Some(file_type) => if input != Some("gguf"@) {
            Err("Q8_H conversion requires a single GGUF input"@)
        } else if output != Some("gguf"@) {
            Err("Q8_H conversion output must use the gguf extension"@)
        } else {
            Ok(file_type)
        },
    }
}

/// Checks a request for a row-aware conversion, and gives its file type.
pub fn check_aqua_request(
    quantization: Quantization,
    input_extension: Option<&str>,
    output_extension: Option<&str>,
) -> (outcome: Result<u32, Error>)
    ensures
        error::same_outcome(
            outcome,
            aqua_request(
                quantization,
                optional_text(input_extension),
                optional_text(output_extension),
            ),
        ),
{
    let file_type: u32 = match quantization.file_type() {
        Some(file_type) => file_type,
        None => {
            return Err(
                error_text2("Aqua mode requires q8_h1 or q8_hp1, got ", quantization.name()),
            );
        },
    };
    if !has_extension(input_extension, "gguf") {
        return Err(error_text("Q8_H conversion requires a single GGUF input"));
    }
    if !has_extension(output_extension, "gguf") {
        return Err(error_text("Q8_H conversion output must use the gguf extension"));
    }
    Ok(file_type)
}

/// How the full path of an output file is found.
#[derive(Clone, Copy, Debug, PartialEq, Eq, Structural)]
pub enum OutputPlace {
    /// The file is there: its own full path.
    Existing,
    /// The file is not there yet: its name in the full path of its directory.
    InDirectory,
    /// The file is not there yet, and no directory was given: its name in the
    /// full path of the current directory.
    InCurrentDirectory,
}

/// How the full path of an output file is found, from whether it is there, and
/// from its path's parts: the length of its directory and whether it has a
/// name. A path without a name is refused; an empty directory counts as none.
pub fn output_place(
    exists: bool,
    directory_len: Option<usize>,
    has_name: bool,
    shown_path: &str,
) -> (outcome: Result<OutputPlace, Error>)
    ensures
        exists ==> outcome == Ok::<OutputPlace, Error>(OutputPlace::Existing),
        !exists && !has_name ==> error::fails_with(outcome, "invalid output path "@ + shown_path@),
        !exists && has_name ==> outcome == Ok::<OutputPlace, Error>(
            if directory_len is None || directory_len == Some(0usize) {
                OutputPlace::InCurrentDirectory
            } else {
                OutputPlace::InDirectory
            },
        ),
{
    if exists {
        return Ok(OutputPlace::Existing);
    }
    if !has_name {
        return Err(error_text2("invalid output path ", shown_path));
    }
    match directory_len {
        None | Some(0) => Ok(OutputPlace::InCurrentDirectory),
        Some(_) => Ok(OutputPlace::InDirectory),
    }
}

/// Refuses to write a conversion over its input.
pub fn check_distinct_files(same_file: bool) -> (outcome: Result<(), Error>)
    ensures
        same_file ==> error::fails_with(
            outcome,
            "Q8_H conversion input and output paths must differ"@,
        ),
        !same_file ==> outcome is Ok,
{
    if same_file {
        Err(error_text("Q8_H conversion input and output paths must differ"))
    } else {
        Ok(())
    }
}

/// Refuses the file version that the row-aware conversion does not know.
pub fn validate_aqua_gguf_version(version: VersionedMagic) -> (outcome: Result<(), Error>)
    ensures
        version is GgufV1 ==> error::fails_with(
            outcome,
            "Q8_H conversion supports GGUF V2/V3, not GGUF V1"@,
        ),
        !(version is GgufV1) ==> outcome is Ok,
{
    match version {
        VersionedMagic::GgufV2 | VersionedMagic::GgufV3 => Ok(()),
        VersionedMagic::GgufV1 => Err(
            error_text("Q8_H conversion supports GGUF V2/V3, not GGUF V1"),
        ),
    }
}

/// The metadata are those of one part of a split file.
pub open spec fn is_split(metadata: Map<Seq<char>, Value>) -> bool {
    exists|key: Seq<char>| #[trigger]
        metadata.contains_key(key) && text::is_prefix("split."@, key)
}

/// Refuses one part of a split file.
pub fn check_not_split(metadata: &NameMap<Value>) -> (outcome: Result<(), Error>)
    requires
        metadata.wf(),
    ensures
        is_split(metadata@) ==> error::fails_with(outcome, "unsupported split GGUF input"@),
        !is_split(metadata@) ==> outcome is Ok,
{
    let entries = metadata.entries();
    proof {
        names::lemma_entry_map(entries@);
    }
    let mut i: usize = 0;
    while i < entries.len()
        invariant
            i <= entries@.len(),
            names::names_distinct(entries@),
            names::entry_map(entries@) == metadata@,
            forall|j: int|
                0 <= j < i ==> !text::is_prefix("split."@, (#[trigger] entries@[j]).0@),
        decreases entries@.len() - i,
    {
        if starts_with(entries[i].0.as_str(), "split.") {
            proof {
                names::lemma_entry_map(entries@);
                assert(metadata@.contains_key(entries@[i as int].0@));
            }
            return Err(error_text("unsupported split GGUF input"));
        }
        i = i + 1;
    }
    proof {
        if is_split(metadata@) {
            let key = choose|key: Seq<char>| #[trigger]
                metadata@.contains_key(key) && text::is_prefix("split."@, key);
            let j = choose|j: int| 0 <= j < entries@.len() && #[trigger] entries@[j].0@ == key;
            assert(!text::is_prefix("split."@, entries@[j].0@));
        }
    }
    Ok(())
}

/// Which extensions stand for which format; no other extension stands for any,
/// and no extension stands for the pickle format.
pub proof fn law_extensions_stand_for_formats(text: &str, format: Option<Format>, without: Option<Format>)
    requires
        call_ensures(Format::infer, (Some(text),), format),
        call_ensures(Format::infer, (None,), without),
    ensures
        without is None,
        format == Some(Format::Safetensors) <==> text@ == "safetensors"@ || text@ == "safetensor"@,
        format == Some(Format::Npz) <==> text@ == "npz"@,
        format == Some(Format::Pth) <==> text@ == "pth"@ || text@ == "pt"@,
        format == Some(Format::Ggml) <==> text@ == "ggml"@,
        format == Some(Format::Gguf) <==> text@ == "gguf"@,
        format != Some(Format::Pickle),
{
    reveal_strlit("safetensors");
    reveal_strlit("safetensor");
    reveal_strlit("npz");
    reveal_strlit("pth");
    reveal_strlit("pt");
    reveal_strlit("ggml");
    reveal_strlit("gguf");
    assert("npz"@[0] == 'n' && "pth"@[0] == 'p');
    assert("ggml"@[3] == 'l' && "gguf"@[3] == 'f');
    assert("npz"@ != "pth"@);
    assert("ggml"@ != "gguf"@);
    if text@ =~= "pth"@ || text@ =~= "pt"@ {
        assert(text@[0] == 'p');
    }
    if text@ =~= "ggml"@ {
        assert(text@[3] == 'l');
    }
    if text@ =~= "gguf"@ {
        assert(text@[3] == 'f');
    }
}

/// A format that was named is taken, whatever the extension; else the extension
/// decides.
pub proof fn law_named_formats_win(
    named: Option<Format>,
    extension: Option<&str>,
    format: Option<Format>,
    inferred: Option<Format>,
)
    requires
        call_ensures(Format::resolve, (named, extension), format),
        call_ensures(Format::infer, (extension,), inferred),
    ensures
        named is Some ==> format == named,
        named is None ==> format == inferred,
{
}

/// A request comes to the row-aware conversion exactly where one file is to be
/// quantized to the Q8_H family in that family's mode.
pub proof fn law_row_aware_conversions_are_asked_for(
    files: usize,
    input: Option<&str>,
    output: Option<&str>,
    quantization: Quantization,
    mode: QuantizationMode,
    outcome: Result<QuantizePlan, Error>,
)
    requires
        call_ensures(plan_quantize, (files, input, output, quantization, mode), outcome),
    ensures
        outcome == Ok::<QuantizePlan, Error>(QuantizePlan::Aqua) <==> {
            &&& files == 1
            &&& mode is Aqua
            &&& quantization is Q8H1 || quantization is Q8HP1
        },
        mode is Aqua && !(quantization is Q8H1 || quantization is Q8HP1) ==> outcome is Err,
        mode is Llama && (quantization is Q8H1 || quantization is Q8HP1) ==> outcome is Err,
        files == 0 ==> outcome is Err,
{
}

/// Any other request comes to one of the two conversions by the extension of the
/// input: safetensors files may be many, a GGUF file is one. The output is never
/// a safetensors file.
pub proof fn law_other_conversions_go_by_the_input(
    files: usize,
    input: &str,
    output: &str,
    quantization: Quantization,
    outcome: Result<QuantizePlan, Error>,
)
    requires
        call_ensures(
            plan_quantize,
            (files, Some(input), Some(output), quantization, QuantizationMode::Llama),
            outcome,
        ),
        !(quantization is Q8H1 || quantization is Q8HP1),
    ensures
        outcome == Ok::<QuantizePlan, Error>(QuantizePlan::Safetensors) <==> {
            &&& files > 0
            &&& output@ != "safetensors"@
            &&& input@ == "safetensors"@
        },
        outcome == Ok::<QuantizePlan, Error>(QuantizePlan::Gguf) <==> {
            &&& files == 1
            &&& output@ != "safetensors"@
            &&& input@ != "safetensors"@
        },
{
}

/// A row-aware conversion reads a GGUF file, writes one, and announces the file
/// type of its quantization.
pub proof fn law_row_aware_requests_are_from_gguf_to_gguf(
    quantization: Quantization,
    input: &str,
    output: &str,
    outcome: Result<u32, Error>,
    without: Result<u32, Error>,
)
    requires
        call_ensures(check_aqua_request, (quantization, Some(input), Some(output)), outcome),
        call_ensures(check_aqua_request, (quantization, None, Some(output)), without),
    ensures
        without is Err,
        outcome is Ok <==> {
            &&& input@ == "gguf"@
            &&& output@ == "gguf"@
            &&& quantization is Q8H1 || quantization is Q8HP1
        },
        outcome is Ok && quantization is Q8H1 ==> outcome->Ok_0 == 38,
        outcome is Ok && quantization is Q8HP1 ==> outcome->Ok_0 == 40,
{
}

/// A part of a split file is told by a key that starts with `split.`.
pub proof fn law_split_files_are_told_by_their_keys(
    metadata: &NameMap<Value>,
    outcome: Result<(), Error>,
    rest: Seq<char>,
)
    requires
        call_ensures(check_not_split, (metadata,), outcome),
    ensures
        metadata@.contains_key("split."@ + rest) ==> outcome is Err,
        outcome is Err ==> exists|key: Seq<char>| #[trigger]
            metadata@.contains_key(key) && key.len() >= "split."@.len() && key.take(
                "split."@.len() as int,
            ) == "split."@,
{
    let key = "split."@ + rest;
    assert(key.subrange(0, "split."@.len() as int) =~= "split."@);
    if outcome is Err {
        let key = choose|key: Seq<char>| #[trigger]
            metadata@.contains_key(key) && text::is_prefix("split."@, key);
        assert(key.take("split."@.len() as int) =~= "split."@);
    }
}

/// The first version of the file format is refused, every later one is taken.
pub proof fn law_first_version_is_refused(version: VersionedMagic, outcome: Result<(), Error>)
    requires
        call_ensures(validate_aqua_gguf_version, (version,), outcome),
    ensures
        outcome is Err <==> version is GgufV1,
{
}

/// All names are printed where none was asked for; else just those that were,
/// in the order in which they were.
pub proof fn law_asked_names_are_printed(
    asked: Vec<String>,
    all: Vec<String>,
    names: Vec<String>,
)
    requires
        call_ensures(names_to_print, (asked, all), names),
    ensures
        asked@.len() == 0 ==> names@ == all@,
        asked@.len() > 0 ==> names@ == asked@,
{
}

/// A listed tensor is described by its extents and its type, in this order.
pub proof fn law_descriptions_hold_extents_and_type(shape: &Shape, kind: &str, described: String)
    requires
        call_ensures(describe, (shape, kind), described),
    ensures
        described@ == "["@ + text::decimal_list(shape@) + "; "@ + kind@ + "]"@,
{
}

/// The names of a file's tensors are listed once each, in their order, each with
/// what the file says of it.
pub proof fn law_listed_tensors_are_those_of_the_file(
    infos: &NameMap<TensorInfo>,
    lines: Vec<String>,
    i: int,
    j: int,
)
    requires
        call_ensures(tensor_listing, (infos,), lines),
        0 <= i < j < lines@.len(),
    ensures
        exists|sorted: Seq<String>|
            {
                &&& #[trigger] names::strings_sorted(sorted)
                &&& sorted.len() == lines@.len()
                &&& text::text_lt(sorted[i]@, sorted[j]@)
                &&& infos@.contains_key(sorted[i]@)
                &&& lines@[i]@ == sorted[i]@ + ": "@ + ("["@ + text::decimal_list(
                    infos@[sorted[i]@].shape@,
                ) + "; "@ + infos@[sorted[i]@].ggml_dtype.spec_name() + "]"@)
            },
{
    let sorted = choose|sorted: Seq<String>| #[trigger] lists(lines@, sorted, descriptions(infos@));
    assert(names::strings_sorted(sorted));
    assert(names::lists_name(sorted, sorted[i]@));
    assert(descriptions(infos@).contains_key(sorted[i]@));
    assert(lines@[i]@ == sorted[i]@ + ": "@ + descriptions(infos@)[sorted[i]@]);
}

/// Where the output goes: an existing file stays in its place, a new one needs a
/// name, and goes to its directory, or to the current one where none is given.
pub proof fn law_output_goes_to_its_directory(
    exists: bool,
    directory_len: Option<usize>,
    has_name: bool,
    shown_path: &str,
    outcome: Result<OutputPlace, Error>,
)
    requires
        call_ensures(output_place, (exists, directory_len, has_name, shown_path), outcome),
    ensures
        outcome is Err <==> !exists && !has_name,
        outcome is Ok ==> {
            &&& outcome->Ok_0 is Existing <==> exists
            &&& outcome->Ok_0 is InDirectory <==> !exists && directory_len is Some
                && directory_len->0 > 0
        },
{
}

/// A tensor is printed under its name, as it is shown, or with the word that
/// there is none; a format that holds no tensors to print is refused.
pub proof fn law_tensors_are_printed_under_their_names(
    name: &str,
    shown: &str,
    lines: Vec<String>,
    missing: Vec<String>,
    format: Format,
    outcome: Result<(), Error>,
)
    requires
        call_ensures(printed_lines, (name, Some(shown)), lines),
        call_ensures(printed_lines, (name, None::<&str>), missing),
        call_ensures(Format::check_printable, (format,), outcome),
    ensures
        lines@.len() == 2,
        lines@[0]@ == "==== "@ + name@ + " ===="@,
        lines@[1]@ == shown@,
        missing@.len() == 2,
        missing@[0]@ == lines@[0]@,
        missing@[1]@ == "not found"@,
        outcome is Err <==> format is Pickle,
        outcome is Err ==> outcome->Err_0@ == "pickle format is not supported for print"@,
{
}

/// The listing has one line for each description, which holds a name and its
/// description; the names stand in order, and each line is of a description that
/// was given.
pub proof fn law_listing_holds_every_description(
    entries: Vec<(String, String)>,
    lines: Vec<String>,
)
    requires
        call_ensures(listing, (entries,), lines),
    ensures
        lines@.len() == entries@.len(),
        exists|order: Seq<(String, String)>|
            {
                &&& #[trigger] sorting::in_order(order)
                &&& forall|name: Seq<char>| #[trigger]
                    sorting::named(order, name) == sorting::named(entries@, name)
                &&& order.len() == lines@.len()
                &&& forall|i: int|
                    0 <= i < lines@.len() ==> (#[trigger] lines@[i])@ == order[i].0@ + ": "@
                        + order[i].1@
            },
{
    sorting::law_sorting_keeps_every_entry(entries@);
    assert(sorting::in_order(sorting::by_name(entries@)));
}

/// A conversion is not written over its input.
pub proof fn law_input_is_not_overwritten(same_file: bool, outcome: Result<(), Error>)
    requires
        call_ensures(check_distinct_files, (same_file,), outcome),
    ensures
        outcome is Err <==> same_file,
        outcome is Err ==> outcome->Err_0@ == "Q8_H conversion input and output paths must differ"@,
{
}

/// A refused request for a quantization is told what is wrong with it.
pub proof fn law_refused_quantizations_are_told_why(
    files: usize,
    input: Option<&str>,
    output: Option<&str>,
    quantization: Quantization,
    mode: QuantizationMode,
    outcome: Result<QuantizePlan, Error>,
)
    requires
        call_ensures(plan_quantize, (files, input, output, quantization, mode), outcome),
        outcome is Err,
    ensures
        ({
            let h = quantization is Q8H1 || quantization is Q8HP1;
            &&& files == 0 ==> outcome->Err_0@ == "no specified input files"@
            &&& files > 0 && h && mode is Llama ==> outcome->Err_0@
                == quantization.spec_dtype().spec_name() + " quantization requires --mode aqua"@
            &&& files > 1 && h && mode is Aqua ==> outcome->Err_0@
                == "Q8_H conversion requires a single GGUF input"@
            &&& files > 0 && !h && mode is Aqua ==> outcome->Err_0@
                == "Aqua mode requires q8_h1 or q8_hp1 quantization"@
            &&& files == 1 && !h && mode is Llama ==> outcome->Err_0@
                == "the generated file cannot use the safetensors extension"@
            &&& files > 1 && !h && mode is Llama ==> outcome->Err_0@
                == "the generated file cannot use the safetensors extension"@ || outcome->Err_0@
                == "only a single in-file can be used when quantizing gguf files"@
        }),
{
}

/// A refused request for a row-aware conversion is told what is wrong with it.
pub proof fn law_refused_row_aware_requests_are_told_why(
    quantization: Quantization,
    input: &str,
    output: &str,
    outcome: Result<u32, Error>,
)
    requires
        call_ensures(check_aqua_request, (quantization, Some(input), Some(output)), outcome),
        outcome is Err,
    ensures
        !(quantization is Q8H1 || quantization is Q8HP1) ==> outcome->Err_0@
            == "Aqua mode requires q8_h1 or q8_hp1, got "@ + quantization.spec_name(),
        (quantization is Q8H1 || quantization is Q8HP1) && input@ != "gguf"@ ==> outcome->Err_0@
            == "Q8_H conversion requires a single GGUF input"@,
        (quantization is Q8H1 || quantization is Q8HP1) && input@ == "gguf"@ ==> outcome->Err_0@
            == "Q8_H conversion output must use the gguf extension"@,
{
}

} // verus!
