//! Element types in files of the legacy GGML format.

use crate::dtype;
use crate::dtype::GgmlDType;
use crate::error::{error_text, Error};
use crate::text;
use vstd::prelude::*;

verus! {

/// The type that a number stands for in a legacy GGML file, where the numbers
/// of the Q8_H family are refused.
pub fn decode_ggml_dtype(raw: u32) -> (outcome: Result<GgmlDType, Error>)
    ensures
        match outcome {
            Ok(dtype) => dtype.spec_id() == raw && !dtype.is_raw(),
            Err(error) => {
                if raw == GgmlDType::Q8H1.spec_id() || raw == GgmlDType::Q8HP1.spec_id() {
                    error@
                        == "Q8_H1/Q8_HP1 custom types are only supported in profile-identified GGUF files"@
                } else {
                    &&& error.says(dtype::unknown_dtype_text(raw))
                    &&& forall|other: GgmlDType| #![trigger other.spec_id()] other.spec_id() != raw
                }
            },
        },
{
    match raw {
        39 | 41 => Err(
            error_text(
                "Q8_H1/Q8_HP1 custom types are only supported in profile-identified GGUF files",
            ),
        ),
        _ => GgmlDType::from_u32(raw),
    }
}

/// A legacy file's type numbers are those of the format, but for the Q8_H
/// family, which it cannot use.
pub proof fn law_legacy_files_have_no_h_types(
    raw: u32,
    outcome: Result<GgmlDType, Error>,
    plain: Result<GgmlDType, Error>,
)
    requires
        call_ensures(decode_ggml_dtype, (raw,), outcome),
        call_ensures(GgmlDType::from_u32, (raw,), plain),
    ensures
        raw == 39 || raw == 41 ==> outcome is Err,
        raw != 39 && raw != 41 ==> (outcome is Ok <==> plain is Ok),
        outcome is Ok ==> outcome == plain,
{
    if plain is Ok {
        assert(plain->Ok_0.spec_id() == raw);
    }
}

/// A legacy file's type number is refused with a text that tells whether it is
/// one of the Q8_H family or none at all.
pub proof fn law_legacy_refusals_tell_why(raw: u32, outcome: Result<GgmlDType, Error>)
    requires
        call_ensures(decode_ggml_dtype, (raw,), outcome),
        outcome is Err,
    ensures
        raw == 39 || raw == 41 ==> outcome->Err_0@
            == "Q8_H1/Q8_HP1 custom types are only supported in profile-identified GGUF files"@,
        raw != 39 && raw != 41 ==> outcome->Err_0@ == "unknown dtype for tensor "@ + text::decimal(
            raw as nat,
        ),
{
}

} // verus!
