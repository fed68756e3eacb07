//! Solar-system observation vocabulary.
use vstd::prelude::*;
use crate::error::{invalid_label_message, invalid_label_text, type_error, BindingError, ErrorKind};
use crate::text::str_eq;

verus! {

/// A body that can be observed from a ground station.
#[derive(Clone, Copy, Debug, PartialEq, Eq, Structural)]
pub enum ObserveTarget {
    Sun,
    Moon,
}

/// The label of an observation target.
pub open spec fn target_text(v: ObserveTarget) -> Seq<char> {
    match v {
        ObserveTarget::Sun => "sun"@,
        ObserveTarget::Moon => "moon"@,
    }
}

/// Each `ObserveTarget` has its own fixed label: Sun is "sun", Moon is "moon".
pub proof fn law_target_text_literals(v: ObserveTarget)
    ensures
        v is Sun ==> target_text(v) == "sun"@,
        v is Moon ==> target_text(v) == "moon"@,
{
}

/// The target a label names, if any.
pub open spec fn target_of_label(t: Seq<char>) -> Option<ObserveTarget> {
    if t == "sun"@ {
        Some(ObserveTarget::Sun)
    } else if t == "moon"@ {
        Some(ObserveTarget::Moon)
    } else {
        None
    }
}

/// Each label names a fixed `ObserveTarget`: "sun" names Sun, "moon" names Moon; no other text names one.
pub proof fn law_target_of_label_literals(t: Seq<char>)
    ensures
        target_of_label("sun"@) == Some(ObserveTarget::Sun),
        target_of_label("moon"@) == Some(ObserveTarget::Moon),
        target_of_label(t) is Some ==> (t == "sun"@ || t == "moon"@),
{
    reveal_strlit("sun");
    reveal_strlit("moon");
    assert("sun"@.len() == 3);
    assert("moon"@.len() == 4);
}

/// Parses an observation target label; an unknown label is a `TypeError`.
pub fn parse_target(label: &str) -> (r: Result<ObserveTarget, BindingError>)
    ensures
        label@ == "sun"@ ==> (r matches Ok(x) && x == ObserveTarget::Sun),
        label@ == "moon"@ ==> (r matches Ok(x) && x == ObserveTarget::Moon),
        r matches Err(e) ==> e.message@ == invalid_label_text("target"@, label@, ": expected \"sun\" or \"moon\""@),
        match target_of_label(label@) {
            Some(v) => r matches Ok(w) && w == v,
            None => r matches Err(e) && e.kind == ErrorKind::Type,
        },
{
    proof {
        law_target_of_label_literals(Seq::empty());
    }
    if str_eq(label, "sun") {
        Ok(ObserveTarget::Sun)
    } else if str_eq(label, "moon") {
        Ok(ObserveTarget::Moon)
    } else {
        Err(type_error(invalid_label_message("target", label, ": expected \"sun\" or \"moon\"")))
    }
}

/// Every target label parses back to its target.
pub proof fn lemma_target_label_roundtrip(v: ObserveTarget)
    ensures
        target_of_label(target_text(v)) == Some(v),
{
    reveal_strlit("sun");
    reveal_strlit("moon");
    assert("sun"@.len() == 3 && "moon"@.len() == 4);
}

} // verus!
