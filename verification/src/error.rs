//! Errors the binding reports back to its host, sorted by the kind of
//! exception the host raises for them.
use vstd::prelude::*;
use vstd::string::*;

use crate::batch::push_str;
use crate::format::chars_to_string;

verus! {

/// Which host exception an error maps to.
#[derive(Clone, Copy, Debug, PartialEq, Eq, Structural)]
pub enum ErrorKind {
    /// A value of the wrong shape or an unknown label (`TypeError`).
    Type,
    /// A numeric value outside its admissible range (`RangeError`).
    Range,
    /// A failure reported by the engine itself (`Error`).
    Engine,
}

/// An error with its kind and a human-readable message.
#[derive(Clone, Debug)]
pub struct BindingError {
    pub kind: ErrorKind,
    pub message: String,
}

/// A `TypeError` carrying `message`.
pub fn type_error(message: String) -> (e: BindingError)
    ensures
        e.kind == ErrorKind::Type,
        e.message@ == message@,
{
    BindingError { kind: ErrorKind::Type, message }
}

/// A `RangeError` carrying `message`.
pub fn range_error(message: String) -> (e: BindingError)
    ensures
        e.kind == ErrorKind::Range,
        e.message@ == message@,
{
    BindingError { kind: ErrorKind::Range, message }
}

/// An engine `Error` carrying `message`.
pub fn engine_message_error(message: String) -> (e: BindingError)
    ensures
        e.kind == ErrorKind::Engine,
        e.message@ == message@,
{
    BindingError { kind: ErrorKind::Engine, message }
}

/// The text `<str as Debug>` writes for a string: the string between double
/// quotes, with quotes, backslashes and control characters escaped.
pub uninterp spec fn str_debug_text(s: Seq<char>) -> Seq<char>;

/// Renders a string through std's `<str as Debug>`, which writes it quoted
/// and escaped.
#[verifier::external_body]
fn str_debug(s: &str) -> (r: String)
    ensures
        r@ == str_debug_text(s@),
{
    format!("{s:?}")
}

/// The message for a label that is not one of the accepted ones:
/// `invalid <what> "<label>"<tail>`, the label quoted as Debug writes it.
pub open spec fn invalid_label_text(what: Seq<char>, label: Seq<char>, tail: Seq<char>) -> Seq<char> {
    "invalid "@ + what + seq![' '] + str_debug_text(label) + tail
}

/// Formats the message for a label that is not one of the accepted ones.
pub(crate) fn invalid_label_message(what: &str, label: &str, tail: &str) -> (r: String)
    ensures
        r@ == invalid_label_text(what@, label@, tail@),
{
    let mut out: Vec<char> = Vec::new();
    push_str(&mut out, "invalid ");
    push_str(&mut out, what);
    out.push(' ');
    let quoted = str_debug(label);
    push_str(&mut out, quoted.as_str());
    push_str(&mut out, tail);
    assert(out@ =~= invalid_label_text(what@, label@, tail@));
    chars_to_string(out)
}

/// Renders an engine error through its `Display` impl
/// (`sidereon_core::Error as Display`); nothing is stated of the text.
#[verifier::external_body]
pub(crate) fn engine_error_text(error: &sidereon_core::Error) -> String {
    error.to_string()
}

/// An engine `Error` built from a `sidereon_core::Error`.
pub fn engine_error(error: &sidereon_core::Error) -> (e: BindingError)
    ensures
        e.kind == ErrorKind::Engine,
{
    engine_message_error(engine_error_text(error))
}

/// The outside engine error type, carried opaquely.
#[verifier::external_type_specification]
#[verifier::external_body]
pub struct ExCoreError(sidereon_core::Error);

} // verus!
