//! Observable-combination vocabulary and small input checks.
use vstd::prelude::*;
use vstd::string::*;

use crate::error::{invalid_label_message, invalid_label_text, type_error, BindingError, ErrorKind};
use crate::text::str_eq;

verus! {

broadcast use vstd::string::axiom_spec_iter, vstd::string::next_postcondition;

/// Reason a satellite was dropped from paired pseudorange combination.
#[derive(Clone, Copy, Debug, PartialEq, Eq, Structural)]
pub enum PseudorangeDropReason {
    MissingBand1,
    MissingBand2,
    DuplicateObservation,
    UnknownSystem,
}

/// The label of a reason a satellite was dropped from a paired pseudorange combination.
pub open spec fn pseudorange_drop_reason_text(v: PseudorangeDropReason) -> Seq<char> {
    match v {
        PseudorangeDropReason::MissingBand1 => "missing_band1"@,
        PseudorangeDropReason::MissingBand2 => "missing_band2"@,
        PseudorangeDropReason::DuplicateObservation => "duplicate_observation"@,
        PseudorangeDropReason::UnknownSystem => "unknown_system"@,
    }
}

/// Each `PseudorangeDropReason` has its own fixed label: MissingBand1 is "missing_band1", MissingBand2 is "missing_band2", DuplicateObservation is "duplicate_observation", UnknownSystem is "unknown_system".
pub proof fn law_pseudorange_drop_reason_text_literals(v: PseudorangeDropReason)
    ensures
        v is MissingBand1 ==> pseudorange_drop_reason_text(v) == "missing_band1"@,
        v is MissingBand2 ==> pseudorange_drop_reason_text(v) == "missing_band2"@,
        v is DuplicateObservation ==> pseudorange_drop_reason_text(v) == "duplicate_observation"@,
        v is UnknownSystem ==> pseudorange_drop_reason_text(v) == "unknown_system"@,
{
}

/// The label of a reason a satellite was dropped from a paired pseudorange combination.
pub fn pseudorange_drop_reason_label(v: PseudorangeDropReason) -> (r: String)
    ensures
        r@ == pseudorange_drop_reason_text(v),
        v is MissingBand1 ==> r@ == "missing_band1"@,
        v is MissingBand2 ==> r@ == "missing_band2"@,
        v is DuplicateObservation ==> r@ == "duplicate_observation"@,
        v is UnknownSystem ==> r@ == "unknown_system"@,
{
    match v {
        PseudorangeDropReason::MissingBand1 => "missing_band1".to_owned(),
        PseudorangeDropReason::MissingBand2 => "missing_band2".to_owned(),
        PseudorangeDropReason::DuplicateObservation => "duplicate_observation".to_owned(),
        PseudorangeDropReason::UnknownSystem => "unknown_system".to_owned(),
    }
}

/// Distinct values have distinct labels.
pub proof fn lemma_pseudorange_drop_reason_text_injective(a: PseudorangeDropReason, b: PseudorangeDropReason)
    ensures
        pseudorange_drop_reason_text(a) == pseudorange_drop_reason_text(b) ==> a == b,
{
    reveal_strlit("missing_band1");
    reveal_strlit("missing_band2");
    reveal_strlit("duplicate_observation");
    reveal_strlit("unknown_system");
    assert("missing_band1"@.len() == 13 && "missing_band2"@.len() == 13 && "duplicate_observation"@.len() == 21);
    assert("unknown_system"@.len() == 14);
    assert("missing_band1"@[12] != "missing_band2"@[12]);
}

/// Reason a carrier-phase arc split was flagged.
#[derive(Clone, Copy, Debug, PartialEq, Eq, Structural)]
pub enum SlipReason {
    Lli,
    DataGap,
    GeometryFree,
    MelbourneWubbena,
}

/// The label of a reason a carrier-phase arc split was flagged.
pub open spec fn slip_reason_text(v: SlipReason) -> Seq<char> {
    match v {
        SlipReason::Lli => "lli"@,
        SlipReason::DataGap => "data_gap"@,
        SlipReason::GeometryFree => "geometry_free"@,
        SlipReason::MelbourneWubbena => "melbourne_wubbena"@,
    }
}

/// Each `SlipReason` has its own fixed label: Lli is "lli", DataGap is "data_gap", GeometryFree is "geometry_free", MelbourneWubbena is "melbourne_wubbena".
pub proof fn law_slip_reason_text_literals(v: SlipReason)
    ensures
        v is Lli ==> slip_reason_text(v) == "lli"@,
        v is DataGap ==> slip_reason_text(v) == "data_gap"@,
        v is GeometryFree ==> slip_reason_text(v) == "geometry_free"@,
        v is MelbourneWubbena ==> slip_reason_text(v) == "melbourne_wubbena"@,
{
}

/// The label of a reason a carrier-phase arc split was flagged.
pub fn slip_reason_label(v: SlipReason) -> (r: String)
    ensures
        r@ == slip_reason_text(v),
        v is Lli ==> r@ == "lli"@,
        v is DataGap ==> r@ == "data_gap"@,
        v is GeometryFree ==> r@ == "geometry_free"@,
        v is MelbourneWubbena ==> r@ == "melbourne_wubbena"@,
{
    match v {
        SlipReason::Lli => "lli".to_owned(),
        SlipReason::DataGap => "data_gap".to_owned(),
        SlipReason::GeometryFree => "geometry_free".to_owned(),
        SlipReason::MelbourneWubbena => "melbourne_wubbena".to_owned(),
    }
}

/// Distinct values have distinct labels.
pub proof fn lemma_slip_reason_text_injective(a: SlipReason, b: SlipReason)
    ensures
        slip_reason_text(a) == slip_reason_text(b) ==> a == b,
{
    reveal_strlit("lli");
    reveal_strlit("data_gap");
    reveal_strlit("geometry_free");
    reveal_strlit("melbourne_wubbena");
    assert("lli"@.len() == 3 && "data_gap"@.len() == 8 && "geometry_free"@.len() == 13);
    assert("melbourne_wubbena"@.len() == 17);
}

/// The single character of a one-character string; any other length is a
/// `TypeError` carrying `message`.
pub fn one_char(value: &str, message: &str) -> (r: Result<char, BindingError>)
    ensures
        value@.len() == 1 ==> (r matches Ok(c) && c == value@[0]),
        value@.len() != 1 ==> (r matches Err(e) && e.kind == ErrorKind::Type && e.message@ == message@),
{
    let mut chars = value.chars();
    let first = chars.next();
    let second = chars.next();
    match (first, second) {
        (Some(ch), None) => Ok(ch),
        _ => Err(type_error(message.to_owned())),
    }
}

/// The pseudorange variance models a host may name.
#[derive(Clone, Copy, Debug, PartialEq, Eq, Structural)]
pub enum VarianceModel {
    Elevation,
    ElevationCn0,
}

/// The variance model a label names, if any.
pub open spec fn variance_model_of_label(t: Seq<char>) -> Option<VarianceModel> {
    if t == "elevation"@ {
        Some(VarianceModel::Elevation)
    } else if t == "elevation_cn0"@ {
        Some(VarianceModel::ElevationCn0)
    } else {
        None
    }
}

/// Each label names a fixed `VarianceModel`: "elevation" names Elevation, "elevation_cn0" names ElevationCn0; no other text names one.
pub proof fn law_variance_model_of_label_literals(t: Seq<char>)
    ensures
        variance_model_of_label("elevation"@) == Some(VarianceModel::Elevation),
        variance_model_of_label("elevation_cn0"@) == Some(VarianceModel::ElevationCn0),
        variance_model_of_label(t) is Some ==> (t == "elevation"@ || t == "elevation_cn0"@),
{
    reveal_strlit("elevation");
    reveal_strlit("elevation_cn0");
    assert("elevation"@.len() == 9);
    assert("elevation_cn0"@.len() == 13);
}

/// The tail of the message for an unknown variance model label.
pub open spec fn variance_model_hint() -> Seq<char> {
    ": expected \"elevation\" or \"elevation_cn0\""@
}

/// Parses an optional variance model label; absent means elevation-only,
/// an unknown label is a `TypeError` that quotes it.
pub fn parse_variance_model(value: Option<&str>) -> (r: Result<VarianceModel, BindingError>)
    ensures
        (value matches Some(s) && s@ == "elevation"@) ==> (r matches Ok(x) && x == VarianceModel::Elevation),
        (value matches Some(s) && s@ == "elevation_cn0"@) ==> (r matches Ok(x) && x == VarianceModel::ElevationCn0),
        match value {
            None => r matches Ok(m) && m == VarianceModel::Elevation,
            Some(v) => match variance_model_of_label(v@) {
                Some(m) => r matches Ok(x) && x == m,
                None => r matches Err(e) && e.kind == ErrorKind::Type
                    && e.message@ == invalid_label_text("variance model"@, v@, variance_model_hint()),
            },
        },
{
    proof {
        law_variance_model_of_label_literals(Seq::empty());
    }
    match value {
        None => Ok(VarianceModel::Elevation),
        Some(v) => {
            if str_eq(v, "elevation") {
                Ok(VarianceModel::Elevation)
            } else if str_eq(v, "elevation_cn0") {
                Ok(VarianceModel::ElevationCn0)
            } else {
                Err(type_error(invalid_label_message("variance model", v, ": expected \"elevation\" or \"elevation_cn0\"")))
            }
        },
    }
}

} // verus!
