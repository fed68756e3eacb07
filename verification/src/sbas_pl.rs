//! SBAS protection-level vocabulary.
use vstd::prelude::*;

verus! {

/// SBAS protection-level input or numerical failure.
#[derive(Clone, Copy, Debug, PartialEq, Eq, Structural)]
pub enum SbasPlError {
    InsufficientGeometry,
    NumericalFailure,
    InvalidErrorModel,
}

/// The name of an SBAS protection-level failure.
pub open spec fn sbas_pl_error_text(v: SbasPlError) -> Seq<char> {
    match v {
        SbasPlError::InsufficientGeometry => "InsufficientGeometry"@,
        SbasPlError::NumericalFailure => "NumericalFailure"@,
        SbasPlError::InvalidErrorModel => "InvalidErrorModel"@,
    }
}

/// Each `SbasPlError` has its own fixed label: InsufficientGeometry is "InsufficientGeometry", NumericalFailure is "NumericalFailure", InvalidErrorModel is "InvalidErrorModel".
pub proof fn law_sbas_pl_error_text_literals(v: SbasPlError)
    ensures
        v is InsufficientGeometry ==> sbas_pl_error_text(v) == "InsufficientGeometry"@,
        v is NumericalFailure ==> sbas_pl_error_text(v) == "NumericalFailure"@,
        v is InvalidErrorModel ==> sbas_pl_error_text(v) == "InvalidErrorModel"@,
{
}

/// The name of an SBAS protection-level failure.
pub fn sbas_pl_error_name(v: SbasPlError) -> (r: &'static str)
    ensures
        r@ == sbas_pl_error_text(v),
        v is InsufficientGeometry ==> r@ == "InsufficientGeometry"@,
        v is NumericalFailure ==> r@ == "NumericalFailure"@,
        v is InvalidErrorModel ==> r@ == "InvalidErrorModel"@,
{
    match v {
        SbasPlError::InsufficientGeometry => "InsufficientGeometry",
        SbasPlError::NumericalFailure => "NumericalFailure",
        SbasPlError::InvalidErrorModel => "InvalidErrorModel",
    }
}

/// Distinct values have distinct labels.
pub proof fn lemma_sbas_pl_error_text_injective(a: SbasPlError, b: SbasPlError)
    ensures
        sbas_pl_error_text(a) == sbas_pl_error_text(b) ==> a == b,
{
    reveal_strlit("InsufficientGeometry");
    reveal_strlit("NumericalFailure");
    reveal_strlit("InvalidErrorModel");
    assert("InsufficientGeometry"@.len() == 20 && "NumericalFailure"@.len() == 16 && "InvalidErrorModel"@.len() == 17);
}

/// The name of an SBAS protection-level failure, as an owned string.
pub fn sbas_pl_error_label(error: SbasPlError) -> (r: String)
    ensures
        r@ == sbas_pl_error_text(error),
        error is InsufficientGeometry ==> r@ == "InsufficientGeometry"@,
        error is NumericalFailure ==> r@ == "NumericalFailure"@,
        error is InvalidErrorModel ==> r@ == "InvalidErrorModel"@,
{
    sbas_pl_error_name(error).to_owned()
}

} // verus!
