//! Precise-ephemeris sampling vocabulary.
use vstd::prelude::*;

verus! {

/// Status of one sampled precise-ephemeris state.
#[derive(Clone, Copy, Debug, PartialEq, Eq, Structural)]
pub enum EphemerisSampleStatus {
    Valid,
    Gap,
}

/// The label of a sampled-ephemeris status.
pub open spec fn sample_status_text(v: EphemerisSampleStatus) -> Seq<char> {
    match v {
        EphemerisSampleStatus::Valid => "valid"@,
        EphemerisSampleStatus::Gap => "gap"@,
    }
}

/// Each `EphemerisSampleStatus` has its own fixed label: Valid is "valid", Gap is "gap".
pub proof fn law_sample_status_text_literals(v: EphemerisSampleStatus)
    ensures
        v is Valid ==> sample_status_text(v) == "valid"@,
        v is Gap ==> sample_status_text(v) == "gap"@,
{
}

/// The label of a sampled-ephemeris status.
pub fn sample_status_label(v: EphemerisSampleStatus) -> (r: &'static str)
    ensures
        r@ == sample_status_text(v),
        v is Valid ==> r@ == "valid"@,
        v is Gap ==> r@ == "gap"@,
{
    match v {
        EphemerisSampleStatus::Valid => "valid",
        EphemerisSampleStatus::Gap => "gap",
    }
}

/// Distinct values have distinct labels.
pub proof fn lemma_sample_status_text_injective(a: EphemerisSampleStatus, b: EphemerisSampleStatus)
    ensures
        sample_status_text(a) == sample_status_text(b) ==> a == b,
{
    reveal_strlit("valid");
    reveal_strlit("gap");
    assert("valid"@.len() == 5 && "gap"@.len() == 3);
}

/// Status of one element of an observable-state batch.
#[derive(Clone, Copy, Debug, PartialEq, Eq, Structural)]
pub enum ObservableStateElementStatus {
    Valid,
    Gap,
    Error,
}

/// The label of an observable-state element status.
pub open spec fn observable_state_status_text(v: ObservableStateElementStatus) -> Seq<char> {
    match v {
        ObservableStateElementStatus::Valid => "valid"@,
        ObservableStateElementStatus::Gap => "gap"@,
        ObservableStateElementStatus::Error => "error"@,
    }
}

/// Each `ObservableStateElementStatus` has its own fixed label: Valid is "valid", Gap is "gap", Error is "error".
pub proof fn law_observable_state_status_text_literals(v: ObservableStateElementStatus)
    ensures
        v is Valid ==> observable_state_status_text(v) == "valid"@,
        v is Gap ==> observable_state_status_text(v) == "gap"@,
        v is Error ==> observable_state_status_text(v) == "error"@,
{
}

/// The label of an observable-state element status.
pub fn observable_state_status_label(v: ObservableStateElementStatus) -> (r: &'static str)
    ensures
        r@ == observable_state_status_text(v),
        v is Valid ==> r@ == "valid"@,
        v is Gap ==> r@ == "gap"@,
        v is Error ==> r@ == "error"@,
{
    match v {
        ObservableStateElementStatus::Valid => "valid",
        ObservableStateElementStatus::Gap => "gap",
        ObservableStateElementStatus::Error => "error",
    }
}

/// Distinct values have distinct labels.
pub proof fn lemma_observable_state_status_text_injective(a: ObservableStateElementStatus, b: ObservableStateElementStatus)
    ensures
        observable_state_status_text(a) == observable_state_status_text(b) ==> a == b,
{
    reveal_strlit("valid");
    reveal_strlit("gap");
    reveal_strlit("error");
    assert("valid"@.len() == 5 && "gap"@.len() == 3 && "error"@.len() == 5);
    assert("valid"@[0] != "error"@[0]);
}

} // verus!
