//! RTK solution vocabulary.
use vstd::prelude::*;
use crate::error::{invalid_label_message, invalid_label_text, type_error, BindingError, ErrorKind};
use crate::text::str_eq;
use crate::rtk_arc::{integer_status_label as rtk_arc_integer_status_label, integer_status_text, IntegerStatus};

verus! {

/// The label of an integer ambiguity-resolution outcome, as an owned string.
pub fn integer_status_label(status: IntegerStatus) -> (r: String)
    ensures
        r@ == integer_status_text(status),
        status is Fixed ==> r@ == "Fixed"@,
        status is NotFixed ==> r@ == "NotFixed"@,
{
    rtk_arc_integer_status_label(status).to_owned()
}

/// The stochastic model of the RTK measurement weights.
#[derive(Clone, Copy, Debug, PartialEq, Eq, Structural)]
pub enum StochasticKind {
    /// Constant sigmas, optionally scaled by elevation.
    Simple { elevation_weighting: bool },
    /// The RTKLIB elevation-dependent model.
    Rtklib,
}

/// The model a label names, if any, with the elevation-weighting switch.
pub open spec fn stochastic_of_label(t: Seq<char>, elevation_weighting: bool) -> Option<StochasticKind> {
    if t == "simple"@ {
        Some(StochasticKind::Simple { elevation_weighting })
    } else if t == "rtklib"@ {
        Some(StochasticKind::Rtklib)
    } else {
        None
    }
}

/// Parses the stochastic-model label (`simple` when the host omits it);
/// the elevation-weighting switch applies to the simple model only. An
/// unknown label is a `TypeError`.
pub fn stochastic_model(label: &str, elevation_weighting: bool) -> (r: Result<StochasticKind, BindingError>)
    ensures
        r matches Err(e) ==> e.message@ == invalid_label_text("stochastic model"@, label@, ": expected \"simple\" or \"rtklib\""@),
        match stochastic_of_label(label@, elevation_weighting) {
            Some(v) => r matches Ok(w) && w == v,
            None => r matches Err(e) && e.kind == ErrorKind::Type,
        },
{
    if str_eq(label, "simple") {
        Ok(StochasticKind::Simple { elevation_weighting })
    } else if str_eq(label, "rtklib") {
        Ok(StochasticKind::Rtklib)
    } else {
        Err(type_error(invalid_label_message("stochastic model", label, ": expected \"simple\" or \"rtklib\"")))
    }
}

/// The two labels name different models.
pub proof fn lemma_stochastic_labels(elevation_weighting: bool)
    ensures
        stochastic_of_label("simple"@, elevation_weighting) == Some(StochasticKind::Simple { elevation_weighting }),
        stochastic_of_label("rtklib"@, elevation_weighting) == Some(StochasticKind::Rtklib),
{
    reveal_strlit("simple");
    reveal_strlit("rtklib");
    assert("simple"@.len() == 6 && "rtklib"@.len() == 6);
    assert("simple"@[0] != "rtklib"@[0]);
}

} // verus!
