//! Printing through `std::fmt`. Where a formatter writes to, and whether that
//! works, is up to whoever made it, so nothing is claimed of what comes back.

use vstd::prelude::*;

verus! {

/// `std::fmt::Formatter`, which text is written to.
#[verifier::external_type_specification]
#[verifier::external_body]
pub struct ExFormatter<'a>(std::fmt::Formatter<'a>);

/// `std::fmt::Error`: the formatter could not write.
#[verifier::external_type_specification]
#[verifier::external_body]
pub struct ExFormatError(std::fmt::Error);

/// `std::fmt::DebugStruct`, a record that is being printed.
#[verifier::external_type_specification]
#[verifier::external_body]
pub struct ExDebugStruct<'a, 'b: 'a>(std::fmt::DebugStruct<'a, 'b>);

/// Writes a text as it is, by `std::fmt::Formatter::write_str`. What the
/// formatter's writer makes of it is left unsaid.
#[verifier::external_body]
pub(crate) fn write_text(to: &mut std::fmt::Formatter<'_>, text: &str) -> Result<
    (),
    std::fmt::Error,
> {
    to.write_str(text)
}

/// Starts to print a record of that name, by
/// `std::fmt::Formatter::debug_struct`. What the formatter's writer makes of it
/// is left unsaid.
#[verifier::external_body]
pub(crate) fn start_record<'a, 'b>(
    to: &'a mut std::fmt::Formatter<'b>,
    name: &str,
) -> std::fmt::DebugStruct<'a, 'b> {
    to.debug_struct(name)
}

/// Prints a field of the record, by `std::fmt::DebugStruct::field`. What the
/// formatter's writer makes of it is left unsaid.
#[verifier::external_body]
pub(crate) fn print_field<T: std::fmt::Debug>(
    record: &mut std::fmt::DebugStruct<'_, '_>,
    name: &str,
    value: &T,
) {
    record.field(name, value);
}

/// Ends the record, by `std::fmt::DebugStruct::finish`, which says whether all
/// of it could be written. That is up to the formatter's writer.
#[verifier::external_body]
pub(crate) fn end_record(record: &mut std::fmt::DebugStruct<'_, '_>) -> Result<(), std::fmt::Error> {
    record.finish()
}

} // verus!
