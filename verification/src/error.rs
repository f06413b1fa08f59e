//! Errors, each with the text that a caller prints.

use crate::device::DeviceLocation;
use vstd::prelude::*;

verus! {

/// Why an operation was refused. Its view is the printed text.
#[derive(Debug)]
pub enum Error {
    /// A refusal that only its text describes.
    Msg(String),
    /// Two operands live on different devices.
    DeviceMismatchBinaryOp { lhs: DeviceLocation, rhs: DeviceLocation, op: String },
    /// The work needs the CUDA runtime.
    NotCompiledWithCudaSupport,
    /// The work needs the Metal runtime.
    NotCompiledWithMetalSupport,
}

/// The text of a device mismatch.
pub open spec fn device_mismatch_text(
    lhs: DeviceLocation,
    rhs: DeviceLocation,
    op: Seq<char>,
) -> Seq<char> {
    "device mismatch in "@ + op + ", lhs: "@ + lhs.spec_text() + ", rhs: "@ + rhs.spec_text()
}

impl View for Error {
    type V = Seq<char>;

    open spec fn view(&self) -> Seq<char> {
        match self {
            Error::Msg(text) => text@,
            Error::DeviceMismatchBinaryOp { lhs, rhs, op } => device_mismatch_text(*lhs, *rhs, op@),
            Error::NotCompiledWithCudaSupport => "the candle crate has not been built with cuda support"@,
            Error::NotCompiledWithMetalSupport => "the candle crate has not been built with metal support"@,
        }
    }
}

impl Error {
    /// The error is a refusal with this text.
    pub open spec fn says(self, text: Seq<char>) -> bool {
        self is Msg && self@ == text
    }

    /// The error's text.
    pub fn message(&self) -> (text: String)
        ensures
            text@ == self@,
    {
        match self {
            Error::Msg(text) => text.clone(),
            Error::DeviceMismatchBinaryOp { lhs, rhs, op } => {
                let mut text = "device mismatch in ".to_owned();
                text.append(op.as_str());
                text.append(", lhs: ");
                text.append(lhs.text().as_str());
                text.append(", rhs: ");
                text.append(rhs.text().as_str());
                text
            },
            Error::NotCompiledWithCudaSupport => "the candle crate has not been built with cuda support".to_owned(),
            Error::NotCompiledWithMetalSupport => "the candle crate has not been built with metal support".to_owned(),
        }
    }
}

/// An error with a fixed text.
pub fn error_text(text: &str) -> (error: Error)
    ensures
        error.says(text@),
{
    Error::Msg(text.to_owned())
}

/// An error whose text is two pieces.
pub fn error_text2(a: &str, b: &str) -> (error: Error)
    ensures
        error.says(a@ + b@),
{
    let mut text = a.to_owned();
    text.append(b);
    Error::Msg(text)
}

/// An error whose text is three pieces.
pub fn error_text3(a: &str, b: &str, c: &str) -> (error: Error)
    ensures
        error.says(a@ + b@ + c@),
{
    let mut text = a.to_owned();
    text.append(b);
    text.append(c);
    Error::Msg(text)
}

/// An error whose text is four pieces.
pub fn error_text4(a: &str, b: &str, c: &str, d: &str) -> (error: Error)
    ensures
        error.says(a@ + b@ + c@ + d@),
{
    let mut text = a.to_owned();
    text.append(b);
    text.append(c);
    text.append(d);
    Error::Msg(text)
}

/// An error whose text is five pieces.
pub fn error_text5(a: &str, b: &str, c: &str, d: &str, e: &str) -> (error: Error)
    ensures
        error.says(a@ + b@ + c@ + d@ + e@),
{
    let mut text = a.to_owned();
    text.append(b);
    text.append(c);
    text.append(d);
    text.append(e);
    Error::Msg(text)
}

/// The outcome is a refusal with the text `text`.
pub open spec fn fails_with<T>(outcome: Result<T, Error>, text: Seq<char>) -> bool {
    match outcome {
        Ok(_) => false,
        Err(error) => error.says(text),
    }
}

/// The outcome is a device mismatch between these two places, met by the
/// operation of that name.
pub open spec fn is_device_mismatch<T>(
    outcome: Result<T, Error>,
    left: DeviceLocation,
    right: DeviceLocation,
    name: Seq<char>,
) -> bool {
    match outcome {
        Err(Error::DeviceMismatchBinaryOp { lhs, rhs, op }) => lhs == left && rhs == right && op@
            == name,
        _ => false,
    }
}

/// An outcome agrees with its description: the value is the described one, or
/// the error says the described text.
pub open spec fn same_outcome<T>(outcome: Result<T, Error>, described: Result<T, Seq<char>>) -> bool {
    match described {
        Ok(value) => outcome == Ok::<T, Error>(value),
        Err(text) => fails_with(outcome, text),
    }
}

/// Errors print what they are about.
pub proof fn law_errors_are_printed(error: &Error, text: String)
    requires
        call_ensures(Error::message, (error,), text),
    ensures
        *error is Msg ==> text@ == error->Msg_0@,
        *error is NotCompiledWithCudaSupport ==> text@
            == "the candle crate has not been built with cuda support"@,
        *error is NotCompiledWithMetalSupport ==> text@
            == "the candle crate has not been built with metal support"@,
        *error is DeviceMismatchBinaryOp ==> text@ == "device mismatch in "@
            + error->DeviceMismatchBinaryOp_op@ + ", lhs: "@
            + error->DeviceMismatchBinaryOp_lhs.spec_text() + ", rhs: "@
            + error->DeviceMismatchBinaryOp_rhs.spec_text(),
{
}

} // verus!
