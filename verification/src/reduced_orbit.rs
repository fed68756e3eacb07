//! Reduced-orbit fitting vocabulary: element models and sample frames.
use vstd::prelude::*;
use crate::error::{invalid_label_message, invalid_label_text, type_error, BindingError, ErrorKind};
use crate::text::str_eq;

verus! {

/// Element model of a fitted reduced orbit.
#[derive(Clone, Copy, Debug, PartialEq, Eq, Structural)]
pub enum ReducedOrbitModel {
    CircularSecular,
    EccentricSecular,
}

/// The label of a reduced orbit model.
pub open spec fn model_text(v: ReducedOrbitModel) -> Seq<char> {
    match v {
        ReducedOrbitModel::CircularSecular => "circular_secular"@,
        ReducedOrbitModel::EccentricSecular => "eccentric_secular"@,
    }
}

/// Each `ReducedOrbitModel` has its own fixed label: CircularSecular is "circular_secular", EccentricSecular is "eccentric_secular".
pub proof fn law_model_text_literals(v: ReducedOrbitModel)
    ensures
        v is CircularSecular ==> model_text(v) == "circular_secular"@,
        v is EccentricSecular ==> model_text(v) == "eccentric_secular"@,
{
}

/// The label of a reduced orbit model.
pub fn model_label(v: ReducedOrbitModel) -> (r: &'static str)
    ensures
        r@ == model_text(v),
        v is CircularSecular ==> r@ == "circular_secular"@,
        v is EccentricSecular ==> r@ == "eccentric_secular"@,
{
    match v {
        ReducedOrbitModel::CircularSecular => "circular_secular",
        ReducedOrbitModel::EccentricSecular => "eccentric_secular",
    }
}

/// Distinct values have distinct labels.
pub proof fn lemma_model_text_injective(a: ReducedOrbitModel, b: ReducedOrbitModel)
    ensures
        model_text(a) == model_text(b) ==> a == b,
{
    reveal_strlit("circular_secular");
    reveal_strlit("eccentric_secular");
    assert("circular_secular"@.len() == 16 && "eccentric_secular"@.len() == 17);
}

/// The value a label names, if any.
pub open spec fn reduced_orbit_model_of_label(t: Seq<char>) -> Option<ReducedOrbitModel> {
    if t == "circular_secular"@ {
        Some(ReducedOrbitModel::CircularSecular)
    } else if t == "eccentric_secular"@ {
        Some(ReducedOrbitModel::EccentricSecular)
    } else {
        None
    }
}

/// Each label names a fixed `ReducedOrbitModel`: "circular_secular" names CircularSecular, "eccentric_secular" names EccentricSecular; no other text names one.
pub proof fn law_reduced_orbit_model_of_label_literals(t: Seq<char>)
    ensures
        reduced_orbit_model_of_label("circular_secular"@) == Some(ReducedOrbitModel::CircularSecular),
        reduced_orbit_model_of_label("eccentric_secular"@) == Some(ReducedOrbitModel::EccentricSecular),
        reduced_orbit_model_of_label(t) is Some ==> (t == "circular_secular"@ || t == "eccentric_secular"@),
{
    reveal_strlit("circular_secular");
    reveal_strlit("eccentric_secular");
    assert("circular_secular"@.len() == 16);
    assert("eccentric_secular"@.len() == 17);
}

/// Parses a reduced-orbit model label; an unknown label is a `TypeError`.
pub fn model_from_str(label: &str) -> (r: Result<ReducedOrbitModel, BindingError>)
    ensures
        label@ == "circular_secular"@ ==> (r matches Ok(x) && x == ReducedOrbitModel::CircularSecular),
        label@ == "eccentric_secular"@ ==> (r matches Ok(x) && x == ReducedOrbitModel::EccentricSecular),
        r matches Err(e) ==> e.message@ == invalid_label_text("model"@, label@, ": expected \"circular_secular\" or \"eccentric_secular\""@),
        match reduced_orbit_model_of_label(label@) {
            Some(v) => r matches Ok(w) && w == v,
            None => r matches Err(e) && e.kind == ErrorKind::Type,
        },
{
    proof {
        law_reduced_orbit_model_of_label_literals(Seq::empty());
    }
    if str_eq(label, "circular_secular") {
        Ok(ReducedOrbitModel::CircularSecular)
    } else if str_eq(label, "eccentric_secular") {
        Ok(ReducedOrbitModel::EccentricSecular)
    } else {
        Err(type_error(invalid_label_message("model", label, ": expected \"circular_secular\" or \"eccentric_secular\"")))
    }
}

/// Every label parses back to the value it names.
pub proof fn lemma_reduced_orbit_model_label_roundtrip(v: ReducedOrbitModel)
    ensures
        reduced_orbit_model_of_label(model_text(v)) == Some(v),
{
    reveal_strlit("circular_secular");
    reveal_strlit("eccentric_secular");
    assert("circular_secular"@.len() == 16 && "eccentric_secular"@.len() == 17);
}

/// Reference frame of the samples a reduced orbit is fitted to.
#[derive(Clone, Copy, Debug, PartialEq, Eq, Structural)]
pub enum OrbitFrame {
    Ecef,
    Gcrs,
}

/// The label of a reference frame of fitted samples.
pub open spec fn frame_text(v: OrbitFrame) -> Seq<char> {
    match v {
        OrbitFrame::Ecef => "ecef"@,
        OrbitFrame::Gcrs => "gcrs"@,
    }
}

/// Each `OrbitFrame` has its own fixed label: Ecef is "ecef", Gcrs is "gcrs".
pub proof fn law_frame_text_literals(v: OrbitFrame)
    ensures
        v is Ecef ==> frame_text(v) == "ecef"@,
        v is Gcrs ==> frame_text(v) == "gcrs"@,
{
}

/// The value a label names, if any.
pub open spec fn orbit_frame_of_label(t: Seq<char>) -> Option<OrbitFrame> {
    if t == "ecef"@ {
        Some(OrbitFrame::Ecef)
    } else if t == "gcrs"@ {
        Some(OrbitFrame::Gcrs)
    } else {
        None
    }
}

/// Each label names a fixed `OrbitFrame`: "ecef" names Ecef, "gcrs" names Gcrs; no other text names one.
pub proof fn law_orbit_frame_of_label_literals(t: Seq<char>)
    ensures
        orbit_frame_of_label("ecef"@) == Some(OrbitFrame::Ecef),
        orbit_frame_of_label("gcrs"@) == Some(OrbitFrame::Gcrs),
        orbit_frame_of_label(t) is Some ==> (t == "ecef"@ || t == "gcrs"@),
{
    reveal_strlit("ecef");
    reveal_strlit("gcrs");
    assert("ecef"@.len() == 4);
    assert("gcrs"@.len() == 4);
    assert("ecef"@[0] != "gcrs"@[0]);
}

/// Parses a reference-frame label; an unknown label is a `TypeError`.
pub fn frame_from_str(label: &str) -> (r: Result<OrbitFrame, BindingError>)
    ensures
        label@ == "ecef"@ ==> (r matches Ok(x) && x == OrbitFrame::Ecef),
        label@ == "gcrs"@ ==> (r matches Ok(x) && x == OrbitFrame::Gcrs),
        r matches Err(e) ==> e.message@ == invalid_label_text("frame"@, label@, ": expected \"ecef\" or \"gcrs\""@),
        match orbit_frame_of_label(label@) {
            Some(v) => r matches Ok(w) && w == v,
            None => r matches Err(e) && e.kind == ErrorKind::Type,
        },
{
    proof {
        law_orbit_frame_of_label_literals(Seq::empty());
    }
    if str_eq(label, "ecef") {
        Ok(OrbitFrame::Ecef)
    } else if str_eq(label, "gcrs") {
        Ok(OrbitFrame::Gcrs)
    } else {
        Err(type_error(invalid_label_message("frame", label, ": expected \"ecef\" or \"gcrs\"")))
    }
}

/// Every label parses back to the value it names.
pub proof fn lemma_orbit_frame_label_roundtrip(v: OrbitFrame)
    ensures
        orbit_frame_of_label(frame_text(v)) == Some(v),
{
    reveal_strlit("ecef");
    reveal_strlit("gcrs");
    assert("ecef"@.len() == 4 && "gcrs"@.len() == 4);
    assert("ecef"@[0] != "gcrs"@[0]);
}

} // verus!
