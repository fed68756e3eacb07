//! RTK arc vocabulary: ambiguity-resolution outcomes, solve statuses,
//! static reference-station modes, and the constellation option parser.
use vstd::prelude::*;

use crate::error::{invalid_label_message, invalid_label_text, type_error, BindingError, ErrorKind};
use crate::gnss::{display_label, lower_label, rinex_letter, Constellation};
use crate::text::str_eq;

verus! {

/// Outcome of integer ambiguity resolution.
#[derive(Clone, Copy, Debug, PartialEq, Eq, Structural)]
pub enum IntegerStatus {
    Fixed,
    NotFixed,
}

/// The label of an integer ambiguity-resolution outcome.
pub open spec fn integer_status_text(v: IntegerStatus) -> Seq<char> {
    match v {
        IntegerStatus::Fixed => "Fixed"@,
        IntegerStatus::NotFixed => "NotFixed"@,
    }
}

/// Each `IntegerStatus` has its own fixed label: Fixed is "Fixed", NotFixed is "NotFixed".
pub proof fn law_integer_status_text_literals(v: IntegerStatus)
    ensures
        v is Fixed ==> integer_status_text(v) == "Fixed"@,
        v is NotFixed ==> integer_status_text(v) == "NotFixed"@,
{
}

/// The label of an integer ambiguity-resolution outcome.
pub fn integer_status_label(v: IntegerStatus) -> (r: &'static str)
    ensures
        r@ == integer_status_text(v),
        v is Fixed ==> r@ == "Fixed"@,
        v is NotFixed ==> r@ == "NotFixed"@,
{
    match v {
        IntegerStatus::Fixed => "Fixed",
        IntegerStatus::NotFixed => "NotFixed",
    }
}

/// Distinct values have distinct labels.
pub proof fn lemma_integer_status_text_injective(a: IntegerStatus, b: IntegerStatus)
    ensures
        integer_status_text(a) == integer_status_text(b) ==> a == b,
{
    reveal_strlit("Fixed");
    reveal_strlit("NotFixed");
    assert("Fixed"@.len() == 5 && "NotFixed"@.len() == 8);
}

/// How a wide-lane fixed RTK arc resolves its integers.
#[derive(Clone, Copy, Debug, PartialEq, Eq, Structural)]
pub enum WideLaneFixedArcIntegerMethod {
    WideLaneNarrowLaneLambda,
    WideLaneNarrowLaneSequential,
}

/// The label of a wide-lane fixed-arc integer method.
pub open spec fn wide_lane_fixed_integer_method_text(v: WideLaneFixedArcIntegerMethod) -> Seq<char> {
    match v {
        WideLaneFixedArcIntegerMethod::WideLaneNarrowLaneLambda => "wideLaneNarrowLaneLambda"@,
        WideLaneFixedArcIntegerMethod::WideLaneNarrowLaneSequential => "wideLaneNarrowLaneSequential"@,
    }
}

/// Each `WideLaneFixedArcIntegerMethod` has its own fixed label: WideLaneNarrowLaneLambda is "wideLaneNarrowLaneLambda", WideLaneNarrowLaneSequential is "wideLaneNarrowLaneSequential".
pub proof fn law_wide_lane_fixed_integer_method_text_literals(v: WideLaneFixedArcIntegerMethod)
    ensures
        v is WideLaneNarrowLaneLambda ==> wide_lane_fixed_integer_method_text(v) == "wideLaneNarrowLaneLambda"@,
        v is WideLaneNarrowLaneSequential ==> wide_lane_fixed_integer_method_text(v) == "wideLaneNarrowLaneSequential"@,
{
}

/// The label of a wide-lane fixed-arc integer method.
pub fn wide_lane_fixed_integer_method_label(v: WideLaneFixedArcIntegerMethod) -> (r: &'static str)
    ensures
        r@ == wide_lane_fixed_integer_method_text(v),
        v is WideLaneNarrowLaneLambda ==> r@ == "wideLaneNarrowLaneLambda"@,
        v is WideLaneNarrowLaneSequential ==> r@ == "wideLaneNarrowLaneSequential"@,
{
    match v {
        WideLaneFixedArcIntegerMethod::WideLaneNarrowLaneLambda => "wideLaneNarrowLaneLambda",
        WideLaneFixedArcIntegerMethod::WideLaneNarrowLaneSequential => "wideLaneNarrowLaneSequential",
    }
}

/// Distinct values have distinct labels.
pub proof fn lemma_wide_lane_fixed_integer_method_text_injective(a: WideLaneFixedArcIntegerMethod, b: WideLaneFixedArcIntegerMethod)
    ensures
        wide_lane_fixed_integer_method_text(a) == wide_lane_fixed_integer_method_text(b) ==> a == b,
{
    reveal_strlit("wideLaneNarrowLaneLambda");
    reveal_strlit("wideLaneNarrowLaneSequential");
    assert("wideLaneNarrowLaneLambda"@.len() == 24 && "wideLaneNarrowLaneSequential"@.len() == 28);
}

/// How an iterative float solve stopped.
#[derive(Clone, Copy, Debug, PartialEq, Eq, Structural)]
pub enum FloatSolveStatus {
    StateTolerance,
    MaxIterations,
}

/// The label of how a float solve stopped.
pub open spec fn float_solve_status_text(v: FloatSolveStatus) -> Seq<char> {
    match v {
        FloatSolveStatus::StateTolerance => "StateTolerance"@,
        FloatSolveStatus::MaxIterations => "MaxIterations"@,
    }
}

/// Each `FloatSolveStatus` has its own fixed label: StateTolerance is "StateTolerance", MaxIterations is "MaxIterations".
pub proof fn law_float_solve_status_text_literals(v: FloatSolveStatus)
    ensures
        v is StateTolerance ==> float_solve_status_text(v) == "StateTolerance"@,
        v is MaxIterations ==> float_solve_status_text(v) == "MaxIterations"@,
{
}

/// The label of how a float solve stopped.
pub fn float_solve_status_label(v: FloatSolveStatus) -> (r: &'static str)
    ensures
        r@ == float_solve_status_text(v),
        v is StateTolerance ==> r@ == "StateTolerance"@,
        v is MaxIterations ==> r@ == "MaxIterations"@,
{
    match v {
        FloatSolveStatus::StateTolerance => "StateTolerance",
        FloatSolveStatus::MaxIterations => "MaxIterations",
    }
}

/// Distinct values have distinct labels.
pub proof fn lemma_float_solve_status_text_injective(a: FloatSolveStatus, b: FloatSolveStatus)
    ensures
        float_solve_status_text(a) == float_solve_status_text(b) ==> a == b,
{
    reveal_strlit("StateTolerance");
    reveal_strlit("MaxIterations");
    assert("StateTolerance"@.len() == 14 && "MaxIterations"@.len() == 13);
}

/// Which measurement a residual belongs to.
#[derive(Clone, Copy, Debug, PartialEq, Eq, Structural)]
pub enum ResidualComponentKind {
    Code,
    Phase,
}

/// The label of a residual component.
pub open spec fn residual_component_text(v: ResidualComponentKind) -> Seq<char> {
    match v {
        ResidualComponentKind::Code => "code"@,
        ResidualComponentKind::Phase => "phase"@,
    }
}

/// Each `ResidualComponentKind` has its own fixed label: Code is "code", Phase is "phase".
pub proof fn law_residual_component_text_literals(v: ResidualComponentKind)
    ensures
        v is Code ==> residual_component_text(v) == "code"@,
        v is Phase ==> residual_component_text(v) == "phase"@,
{
}

/// The label of a residual component.
pub fn residual_component_label(v: ResidualComponentKind) -> (r: &'static str)
    ensures
        r@ == residual_component_text(v),
        v is Code ==> r@ == "code"@,
        v is Phase ==> r@ == "phase"@,
{
    match v {
        ResidualComponentKind::Code => "code",
        ResidualComponentKind::Phase => "phase",
    }
}

/// Distinct values have distinct labels.
pub proof fn lemma_residual_component_text_injective(a: ResidualComponentKind, b: ResidualComponentKind)
    ensures
        residual_component_text(a) == residual_component_text(b) ==> a == b,
{
    reveal_strlit("code");
    reveal_strlit("phase");
    assert("code"@.len() == 4 && "phase"@.len() == 5);
}

/// Processing mode of a static reference-station solution.
#[derive(Clone, Copy, Debug, PartialEq, Eq, Structural)]
pub enum StaticReferenceStationMode {
    CodeDgnss,
    CarrierFloat,
    CarrierFixed,
}

/// The label of a static reference-station mode.
pub open spec fn static_reference_mode_text(v: StaticReferenceStationMode) -> Seq<char> {
    match v {
        StaticReferenceStationMode::CodeDgnss => "codeDgnss"@,
        StaticReferenceStationMode::CarrierFloat => "carrierFloat"@,
        StaticReferenceStationMode::CarrierFixed => "carrierFixed"@,
    }
}

/// Each `StaticReferenceStationMode` has its own fixed label: CodeDgnss is "codeDgnss", CarrierFloat is "carrierFloat", CarrierFixed is "carrierFixed".
pub proof fn law_static_reference_mode_text_literals(v: StaticReferenceStationMode)
    ensures
        v is CodeDgnss ==> static_reference_mode_text(v) == "codeDgnss"@,
        v is CarrierFloat ==> static_reference_mode_text(v) == "carrierFloat"@,
        v is CarrierFixed ==> static_reference_mode_text(v) == "carrierFixed"@,
{
}

/// The label of a static reference-station mode.
pub fn static_reference_mode_label(v: StaticReferenceStationMode) -> (r: &'static str)
    ensures
        r@ == static_reference_mode_text(v),
        v is CodeDgnss ==> r@ == "codeDgnss"@,
        v is CarrierFloat ==> r@ == "carrierFloat"@,
        v is CarrierFixed ==> r@ == "carrierFixed"@,
{
    match v {
        StaticReferenceStationMode::CodeDgnss => "codeDgnss",
        StaticReferenceStationMode::CarrierFloat => "carrierFloat",
        StaticReferenceStationMode::CarrierFixed => "carrierFixed",
    }
}

/// Distinct values have distinct labels.
pub proof fn lemma_static_reference_mode_text_injective(a: StaticReferenceStationMode, b: StaticReferenceStationMode)
    ensures
        static_reference_mode_text(a) == static_reference_mode_text(b) ==> a == b,
{
    reveal_strlit("codeDgnss");
    reveal_strlit("carrierFloat");
    reveal_strlit("carrierFixed");
    assert("codeDgnss"@.len() == 9 && "carrierFloat"@.len() == 12 && "carrierFixed"@.len() == 12);
    assert("carrierFloat"@[8] != "carrierFixed"@[8]);
}

/// Best fix a static reference-station solution reached.
#[derive(Clone, Copy, Debug, PartialEq, Eq, Structural)]
pub enum StaticReferenceFixStatus {
    CodeDgnss,
    CarrierFloat,
    CarrierFixed,
}

/// The label of a static reference-station fix status.
pub open spec fn static_reference_fix_status_text(v: StaticReferenceFixStatus) -> Seq<char> {
    match v {
        StaticReferenceFixStatus::CodeDgnss => "codeDgnss"@,
        StaticReferenceFixStatus::CarrierFloat => "carrierFloat"@,
        StaticReferenceFixStatus::CarrierFixed => "carrierFixed"@,
    }
}

/// Each `StaticReferenceFixStatus` has its own fixed label: CodeDgnss is "codeDgnss", CarrierFloat is "carrierFloat", CarrierFixed is "carrierFixed".
pub proof fn law_static_reference_fix_status_text_literals(v: StaticReferenceFixStatus)
    ensures
        v is CodeDgnss ==> static_reference_fix_status_text(v) == "codeDgnss"@,
        v is CarrierFloat ==> static_reference_fix_status_text(v) == "carrierFloat"@,
        v is CarrierFixed ==> static_reference_fix_status_text(v) == "carrierFixed"@,
{
}

/// The label of a static reference-station fix status.
pub fn static_reference_fix_status_label(v: StaticReferenceFixStatus) -> (r: &'static str)
    ensures
        r@ == static_reference_fix_status_text(v),
        v is CodeDgnss ==> r@ == "codeDgnss"@,
        v is CarrierFloat ==> r@ == "carrierFloat"@,
        v is CarrierFixed ==> r@ == "carrierFixed"@,
{
    match v {
        StaticReferenceFixStatus::CodeDgnss => "codeDgnss",
        StaticReferenceFixStatus::CarrierFloat => "carrierFloat",
        StaticReferenceFixStatus::CarrierFixed => "carrierFixed",
    }
}

/// Distinct values have distinct labels.
pub proof fn lemma_static_reference_fix_status_text_injective(a: StaticReferenceFixStatus, b: StaticReferenceFixStatus)
    ensures
        static_reference_fix_status_text(a) == static_reference_fix_status_text(b) ==> a == b,
{
    reveal_strlit("codeDgnss");
    reveal_strlit("carrierFloat");
    reveal_strlit("carrierFixed");
    assert("codeDgnss"@.len() == 9 && "carrierFloat"@.len() == 12 && "carrierFixed"@.len() == 12);
    assert("carrierFloat"@[8] != "carrierFixed"@[8]);
}

/// Whether one static reference-station mode solved.
#[derive(Clone, Copy, Debug, PartialEq, Eq, Structural)]
pub enum StaticReferenceModeStatus {
    Solved,
    Failed,
}

/// The label of a static reference-station mode outcome.
pub open spec fn static_reference_mode_status_text(v: StaticReferenceModeStatus) -> Seq<char> {
    match v {
        StaticReferenceModeStatus::Solved => "solved"@,
        StaticReferenceModeStatus::Failed => "failed"@,
    }
}

/// Each `StaticReferenceModeStatus` has its own fixed label: Solved is "solved", Failed is "failed".
pub proof fn law_static_reference_mode_status_text_literals(v: StaticReferenceModeStatus)
    ensures
        v is Solved ==> static_reference_mode_status_text(v) == "solved"@,
        v is Failed ==> static_reference_mode_status_text(v) == "failed"@,
{
}

/// The label of a static reference-station mode outcome.
pub fn static_reference_mode_status_label(v: StaticReferenceModeStatus) -> (r: &'static str)
    ensures
        r@ == static_reference_mode_status_text(v),
        v is Solved ==> r@ == "solved"@,
        v is Failed ==> r@ == "failed"@,
{
    match v {
        StaticReferenceModeStatus::Solved => "solved",
        StaticReferenceModeStatus::Failed => "failed",
    }
}

/// Distinct values have distinct labels.
pub proof fn lemma_static_reference_mode_status_text_injective(a: StaticReferenceModeStatus, b: StaticReferenceModeStatus)
    ensures
        static_reference_mode_status_text(a) == static_reference_mode_status_text(b) ==> a == b,
{
    reveal_strlit("solved");
    reveal_strlit("failed");
    assert("solved"@.len() == 6 && "failed"@.len() == 6);
    assert("solved"@[0] != "failed"@[0]);
}

/// Why one static reference-station mode failed.
#[derive(Clone, Copy, Debug, PartialEq, Eq, Structural)]
pub enum StaticReferenceModeErrorKind {
    RinexAssembly,
    NoMatchedCodeEpochs,
    CodeDgnss,
    StaticSolve,
    CarrierArc,
    CarrierSolve,
    Frame,
    CorrectedObservation,
    InvalidCorrectedSatelliteId,
}

/// The label of why a static reference-station mode failed.
pub open spec fn static_reference_mode_error_text(v: StaticReferenceModeErrorKind) -> Seq<char> {
    match v {
        StaticReferenceModeErrorKind::RinexAssembly => "rinexAssembly"@,
        StaticReferenceModeErrorKind::NoMatchedCodeEpochs => "noMatchedCodeEpochs"@,
        StaticReferenceModeErrorKind::CodeDgnss => "codeDgnss"@,
        StaticReferenceModeErrorKind::StaticSolve => "staticSolve"@,
        StaticReferenceModeErrorKind::CarrierArc => "carrierArc"@,
        StaticReferenceModeErrorKind::CarrierSolve => "carrierSolve"@,
        StaticReferenceModeErrorKind::Frame => "frame"@,
        StaticReferenceModeErrorKind::CorrectedObservation => "correctedObservation"@,
        StaticReferenceModeErrorKind::InvalidCorrectedSatelliteId => "invalidCorrectedSatelliteId"@,
    }
}

/// Each `StaticReferenceModeErrorKind` has its own fixed label: RinexAssembly is "rinexAssembly", NoMatchedCodeEpochs is "noMatchedCodeEpochs", CodeDgnss is "codeDgnss", StaticSolve is "staticSolve", CarrierArc is "carrierArc", CarrierSolve is "carrierSolve", Frame is "frame", CorrectedObservation is "correctedObservation", InvalidCorrectedSatelliteId is "invalidCorrectedSatelliteId".
pub proof fn law_static_reference_mode_error_text_literals(v: StaticReferenceModeErrorKind)
    ensures
        v is RinexAssembly ==> static_reference_mode_error_text(v) == "rinexAssembly"@,
        v is NoMatchedCodeEpochs ==> static_reference_mode_error_text(v) == "noMatchedCodeEpochs"@,
        v is CodeDgnss ==> static_reference_mode_error_text(v) == "codeDgnss"@,
        v is StaticSolve ==> static_reference_mode_error_text(v) == "staticSolve"@,
        v is CarrierArc ==> static_reference_mode_error_text(v) == "carrierArc"@,
        v is CarrierSolve ==> static_reference_mode_error_text(v) == "carrierSolve"@,
        v is Frame ==> static_reference_mode_error_text(v) == "frame"@,
        v is CorrectedObservation ==> static_reference_mode_error_text(v) == "correctedObservation"@,
        v is InvalidCorrectedSatelliteId ==> static_reference_mode_error_text(v) == "invalidCorrectedSatelliteId"@,
{
}

/// The label of why a static reference-station mode failed.
pub fn static_reference_mode_error_kind(v: StaticReferenceModeErrorKind) -> (r: &'static str)
    ensures
        r@ == static_reference_mode_error_text(v),
        v is RinexAssembly ==> r@ == "rinexAssembly"@,
        v is NoMatchedCodeEpochs ==> r@ == "noMatchedCodeEpochs"@,
        v is CodeDgnss ==> r@ == "codeDgnss"@,
        v is StaticSolve ==> r@ == "staticSolve"@,
        v is CarrierArc ==> r@ == "carrierArc"@,
        v is CarrierSolve ==> r@ == "carrierSolve"@,
        v is Frame ==> r@ == "frame"@,
        v is CorrectedObservation ==> r@ == "correctedObservation"@,
        v is InvalidCorrectedSatelliteId ==> r@ == "invalidCorrectedSatelliteId"@,
{
    match v {
        StaticReferenceModeErrorKind::RinexAssembly => "rinexAssembly",
        StaticReferenceModeErrorKind::NoMatchedCodeEpochs => "noMatchedCodeEpochs",
        StaticReferenceModeErrorKind::CodeDgnss => "codeDgnss",
        StaticReferenceModeErrorKind::StaticSolve => "staticSolve",
        StaticReferenceModeErrorKind::CarrierArc => "carrierArc",
        StaticReferenceModeErrorKind::CarrierSolve => "carrierSolve",
        StaticReferenceModeErrorKind::Frame => "frame",
        StaticReferenceModeErrorKind::CorrectedObservation => "correctedObservation",
        StaticReferenceModeErrorKind::InvalidCorrectedSatelliteId => "invalidCorrectedSatelliteId",
    }
}

/// Distinct values have distinct labels.
pub proof fn lemma_static_reference_mode_error_text_injective(a: StaticReferenceModeErrorKind, b: StaticReferenceModeErrorKind)
    ensures
        static_reference_mode_error_text(a) == static_reference_mode_error_text(b) ==> a == b,
{
    reveal_strlit("rinexAssembly");
    reveal_strlit("noMatchedCodeEpochs");
    reveal_strlit("codeDgnss");
    reveal_strlit("staticSolve");
    reveal_strlit("carrierArc");
    reveal_strlit("carrierSolve");
    reveal_strlit("frame");
    reveal_strlit("correctedObservation");
    reveal_strlit("invalidCorrectedSatelliteId");
    assert("rinexAssembly"@.len() == 13 && "noMatchedCodeEpochs"@.len() == 19 && "codeDgnss"@.len() == 9);
    assert("staticSolve"@.len() == 11 && "carrierArc"@.len() == 10 && "carrierSolve"@.len() == 12);
    assert("frame"@.len() == 5 && "correctedObservation"@.len() == 20 && "invalidCorrectedSatelliteId"@.len() == 27);
}

/// The receiver of an RTK baseline on which a cycle slip was seen.
#[derive(Clone, Copy, Debug, PartialEq, Eq, Structural)]
pub enum CycleSlipReceiver {
    Base,
    Rover,
}

/// The label of the receiver a cycle slip was seen on.
pub open spec fn cycle_slip_receiver_text(v: CycleSlipReceiver) -> Seq<char> {
    match v {
        CycleSlipReceiver::Base => "base"@,
        CycleSlipReceiver::Rover => "rover"@,
    }
}

/// Each `CycleSlipReceiver` has its own fixed label: Base is "base", Rover is "rover".
pub proof fn law_cycle_slip_receiver_text_literals(v: CycleSlipReceiver)
    ensures
        v is Base ==> cycle_slip_receiver_text(v) == "base"@,
        v is Rover ==> cycle_slip_receiver_text(v) == "rover"@,
{
}

/// The label of the receiver a cycle slip was seen on.
pub fn cycle_slip_receiver_label(v: CycleSlipReceiver) -> (r: &'static str)
    ensures
        r@ == cycle_slip_receiver_text(v),
        v is Base ==> r@ == "base"@,
        v is Rover ==> r@ == "rover"@,
{
    match v {
        CycleSlipReceiver::Base => "base",
        CycleSlipReceiver::Rover => "rover",
    }
}

/// Distinct values have distinct labels.
pub proof fn lemma_cycle_slip_receiver_text_injective(a: CycleSlipReceiver, b: CycleSlipReceiver)
    ensures
        cycle_slip_receiver_text(a) == cycle_slip_receiver_text(b) ==> a == b,
{
    reveal_strlit("base");
    reveal_strlit("rover");
    assert("base"@.len() == 4 && "rover"@.len() == 5);
}

/// Whether a token is one of the spellings of a constellation accepted by the RTK-arc options.
pub open spec fn is_system_token(s: Constellation, t: Seq<char>) -> bool {
    match s {
        Constellation::Gps => t == "G"@ || t == "GPS"@ || t == "gps"@ || t == "Gps"@,
        Constellation::Glonass => t == "R"@ || t == "GLO"@ || t == "GLONASS"@ || t == "glonass"@ || t == "Glonass"@,
        Constellation::Galileo => t == "E"@ || t == "GAL"@ || t == "GALILEO"@ || t == "galileo"@ || t == "Galileo"@,
        Constellation::BeiDou => t == "C"@ || t == "BDS"@ || t == "BEIDOU"@ || t == "beidou"@ || t == "BeiDou"@,
        Constellation::Qzss => t == "J"@ || t == "QZSS"@ || t == "qzss"@ || t == "Qzss"@,
        Constellation::Navic => t == "I"@ || t == "IRNSS"@ || t == "NAVIC"@ || t == "navic"@ || t == "NavIC"@ || t == "Navic"@,
        Constellation::Sbas => t == "S"@ || t == "SBAS"@ || t == "sbas"@ || t == "Sbas"@,
    }
}

/// The constellation a token names, if any.
pub open spec fn system_of_token(t: Seq<char>) -> Option<Constellation> {
    if is_system_token(Constellation::Gps, t) {
        Some(Constellation::Gps)
    } else if is_system_token(Constellation::Glonass, t) {
        Some(Constellation::Glonass)
    } else if is_system_token(Constellation::Galileo, t) {
        Some(Constellation::Galileo)
    } else if is_system_token(Constellation::BeiDou, t) {
        Some(Constellation::BeiDou)
    } else if is_system_token(Constellation::Qzss, t) {
        Some(Constellation::Qzss)
    } else if is_system_token(Constellation::Navic, t) {
        Some(Constellation::Navic)
    } else if is_system_token(Constellation::Sbas, t) {
        Some(Constellation::Sbas)
    } else {
        None
    }
}

/// Each accepted token names a fixed constellation: the RINEX letter, the
/// upper-case abbreviation and the spellings of its name (as in `G`, `GPS`,
/// `gps`); no other text names one.
pub proof fn law_system_of_token_literals(t: Seq<char>)
    ensures
        system_of_token("G"@) == Some(Constellation::Gps),
        system_of_token("GPS"@) == Some(Constellation::Gps),
        system_of_token("gps"@) == Some(Constellation::Gps),
        system_of_token("Gps"@) == Some(Constellation::Gps),
        system_of_token("R"@) == Some(Constellation::Glonass),
        system_of_token("GLO"@) == Some(Constellation::Glonass),
        system_of_token("GLONASS"@) == Some(Constellation::Glonass),
        system_of_token("glonass"@) == Some(Constellation::Glonass),
        system_of_token("Glonass"@) == Some(Constellation::Glonass),
        system_of_token("E"@) == Some(Constellation::Galileo),
        system_of_token("GAL"@) == Some(Constellation::Galileo),
        system_of_token("GALILEO"@) == Some(Constellation::Galileo),
        system_of_token("galileo"@) == Some(Constellation::Galileo),
        system_of_token("Galileo"@) == Some(Constellation::Galileo),
        system_of_token("C"@) == Some(Constellation::BeiDou),
        system_of_token("BDS"@) == Some(Constellation::BeiDou),
        system_of_token("BEIDOU"@) == Some(Constellation::BeiDou),
        system_of_token("beidou"@) == Some(Constellation::BeiDou),
        system_of_token("BeiDou"@) == Some(Constellation::BeiDou),
        system_of_token("J"@) == Some(Constellation::Qzss),
        system_of_token("QZSS"@) == Some(Constellation::Qzss),
        system_of_token("qzss"@) == Some(Constellation::Qzss),
        system_of_token("Qzss"@) == Some(Constellation::Qzss),
        system_of_token("I"@) == Some(Constellation::Navic),
        system_of_token("IRNSS"@) == Some(Constellation::Navic),
        system_of_token("NAVIC"@) == Some(Constellation::Navic),
        system_of_token("navic"@) == Some(Constellation::Navic),
        system_of_token("NavIC"@) == Some(Constellation::Navic),
        system_of_token("Navic"@) == Some(Constellation::Navic),
        system_of_token("S"@) == Some(Constellation::Sbas),
        system_of_token("SBAS"@) == Some(Constellation::Sbas),
        system_of_token("sbas"@) == Some(Constellation::Sbas),
        system_of_token("Sbas"@) == Some(Constellation::Sbas),
        system_of_token(t) is Some ==> (t == "G"@ || t == "GPS"@ || t == "gps"@ || t == "Gps"@ || t == "R"@ || t == "GLO"@ || t == "GLONASS"@ || t == "glonass"@ || t == "Glonass"@ || t == "E"@ || t == "GAL"@ || t == "GALILEO"@ || t == "galileo"@ || t == "Galileo"@ || t == "C"@ || t == "BDS"@ || t == "BEIDOU"@ || t == "beidou"@ || t == "BeiDou"@ || t == "J"@ || t == "QZSS"@ || t == "qzss"@ || t == "Qzss"@ || t == "I"@ || t == "IRNSS"@ || t == "NAVIC"@ || t == "navic"@ || t == "NavIC"@ || t == "Navic"@ || t == "S"@ || t == "SBAS"@ || t == "sbas"@ || t == "Sbas"@),
{
    reveal_strlit("G");
    reveal_strlit("GPS");
    reveal_strlit("gps");
    reveal_strlit("Gps");
    reveal_strlit("R");
    reveal_strlit("GLO");
    reveal_strlit("GLONASS");
    reveal_strlit("glonass");
    reveal_strlit("Glonass");
    reveal_strlit("E");
    reveal_strlit("GAL");
    reveal_strlit("GALILEO");
    reveal_strlit("galileo");
    reveal_strlit("Galileo");
    reveal_strlit("C");
    reveal_strlit("BDS");
    reveal_strlit("BEIDOU");
    reveal_strlit("beidou");
    reveal_strlit("BeiDou");
    reveal_strlit("J");
    reveal_strlit("QZSS");
    reveal_strlit("qzss");
    reveal_strlit("Qzss");
    reveal_strlit("I");
    reveal_strlit("IRNSS");
    reveal_strlit("NAVIC");
    reveal_strlit("navic");
    reveal_strlit("NavIC");
    reveal_strlit("Navic");
    reveal_strlit("S");
    reveal_strlit("SBAS");
    reveal_strlit("sbas");
    reveal_strlit("Sbas");
    assert("G"@.len() == 1);
    assert("GPS"@.len() == 3);
    assert("gps"@.len() == 3);
    assert("Gps"@.len() == 3);
    assert("R"@.len() == 1);
    assert("GLO"@.len() == 3);
    assert("GLONASS"@.len() == 7);
    assert("glonass"@.len() == 7);
    assert("Glonass"@.len() == 7);
    assert("E"@.len() == 1);
    assert("GAL"@.len() == 3);
    assert("GALILEO"@.len() == 7);
    assert("galileo"@.len() == 7);
    assert("Galileo"@.len() == 7);
    assert("C"@.len() == 1);
    assert("BDS"@.len() == 3);
    assert("BEIDOU"@.len() == 6);
    assert("beidou"@.len() == 6);
    assert("BeiDou"@.len() == 6);
    assert("J"@.len() == 1);
    assert("QZSS"@.len() == 4);
    assert("qzss"@.len() == 4);
    assert("Qzss"@.len() == 4);
    assert("I"@.len() == 1);
    assert("IRNSS"@.len() == 5);
    assert("NAVIC"@.len() == 5);
    assert("navic"@.len() == 5);
    assert("NavIC"@.len() == 5);
    assert("Navic"@.len() == 5);
    assert("S"@.len() == 1);
    assert("SBAS"@.len() == 4);
    assert("sbas"@.len() == 4);
    assert("Sbas"@.len() == 4);
    assert("G"@[0] != "R"@[0]);
    assert("G"@[0] != "E"@[0]);
    assert("G"@[0] != "C"@[0]);
    assert("G"@[0] != "J"@[0]);
    assert("G"@[0] != "I"@[0]);
    assert("G"@[0] != "S"@[0]);
    assert("GPS"@[1] != "GLO"@[1]);
    assert("GPS"@[1] != "GAL"@[1]);
    assert("GPS"@[0] != "BDS"@[0]);
    assert("gps"@[0] != "GLO"@[0]);
    assert("gps"@[0] != "GAL"@[0]);
    assert("gps"@[0] != "BDS"@[0]);
    assert("Gps"@[1] != "GLO"@[1]);
    assert("Gps"@[1] != "GAL"@[1]);
    assert("Gps"@[0] != "BDS"@[0]);
    assert("R"@[0] != "E"@[0]);
    assert("R"@[0] != "C"@[0]);
    assert("R"@[0] != "J"@[0]);
    assert("R"@[0] != "I"@[0]);
    assert("R"@[0] != "S"@[0]);
    assert("GLO"@[1] != "GAL"@[1]);
    assert("GLO"@[0] != "BDS"@[0]);
    assert("GLONASS"@[1] != "GALILEO"@[1]);
    assert("GLONASS"@[0] != "galileo"@[0]);
    assert("GLONASS"@[1] != "Galileo"@[1]);
    assert("glonass"@[0] != "GALILEO"@[0]);
    assert("glonass"@[1] != "galileo"@[1]);
    assert("glonass"@[0] != "Galileo"@[0]);
    assert("Glonass"@[1] != "GALILEO"@[1]);
    assert("Glonass"@[0] != "galileo"@[0]);
    assert("Glonass"@[1] != "Galileo"@[1]);
    assert("E"@[0] != "C"@[0]);
    assert("E"@[0] != "J"@[0]);
    assert("E"@[0] != "I"@[0]);
    assert("E"@[0] != "S"@[0]);
    assert("GAL"@[0] != "BDS"@[0]);
    assert("C"@[0] != "J"@[0]);
    assert("C"@[0] != "I"@[0]);
    assert("C"@[0] != "S"@[0]);
    assert("J"@[0] != "I"@[0]);
    assert("J"@[0] != "S"@[0]);
    assert("QZSS"@[0] != "SBAS"@[0]);
    assert("QZSS"@[0] != "sbas"@[0]);
    assert("QZSS"@[0] != "Sbas"@[0]);
    assert("qzss"@[0] != "SBAS"@[0]);
    assert("qzss"@[0] != "sbas"@[0]);
    assert("qzss"@[0] != "Sbas"@[0]);
    assert("Qzss"@[0] != "SBAS"@[0]);
    assert("Qzss"@[0] != "sbas"@[0]);
    assert("Qzss"@[0] != "Sbas"@[0]);
    assert("I"@[0] != "S"@[0]);
}

/// Parses an optional constellation token (a RINEX letter, an
/// abbreviation or a label in one of its usual spellings); absent means GPS,
/// an unknown token is a `TypeError`.
pub fn parse_gnss_system(value: Option<&str>) -> (r: Result<Constellation, BindingError>)
    ensures
        (value matches Some(s) && s@ == "G"@) ==> (r matches Ok(x) && x == Constellation::Gps),
        (value matches Some(s) && s@ == "GPS"@) ==> (r matches Ok(x) && x == Constellation::Gps),
        (value matches Some(s) && s@ == "gps"@) ==> (r matches Ok(x) && x == Constellation::Gps),
        (value matches Some(s) && s@ == "Gps"@) ==> (r matches Ok(x) && x == Constellation::Gps),
        (value matches Some(s) && s@ == "R"@) ==> (r matches Ok(x) && x == Constellation::Glonass),
        (value matches Some(s) && s@ == "GLO"@) ==> (r matches Ok(x) && x == Constellation::Glonass),
        (value matches Some(s) && s@ == "GLONASS"@) ==> (r matches Ok(x) && x == Constellation::Glonass),
        (value matches Some(s) && s@ == "glonass"@) ==> (r matches Ok(x) && x == Constellation::Glonass),
        (value matches Some(s) && s@ == "Glonass"@) ==> (r matches Ok(x) && x == Constellation::Glonass),
        (value matches Some(s) && s@ == "E"@) ==> (r matches Ok(x) && x == Constellation::Galileo),
        (value matches Some(s) && s@ == "GAL"@) ==> (r matches Ok(x) && x == Constellation::Galileo),
        (value matches Some(s) && s@ == "GALILEO"@) ==> (r matches Ok(x) && x == Constellation::Galileo),
        (value matches Some(s) && s@ == "galileo"@) ==> (r matches Ok(x) && x == Constellation::Galileo),
        (value matches Some(s) && s@ == "Galileo"@) ==> (r matches Ok(x) && x == Constellation::Galileo),
        (value matches Some(s) && s@ == "C"@) ==> (r matches Ok(x) && x == Constellation::BeiDou),
        (value matches Some(s) && s@ == "BDS"@) ==> (r matches Ok(x) && x == Constellation::BeiDou),
        (value matches Some(s) && s@ == "BEIDOU"@) ==> (r matches Ok(x) && x == Constellation::BeiDou),
        (value matches Some(s) && s@ == "beidou"@) ==> (r matches Ok(x) && x == Constellation::BeiDou),
        (value matches Some(s) && s@ == "BeiDou"@) ==> (r matches Ok(x) && x == Constellation::BeiDou),
        (value matches Some(s) && s@ == "J"@) ==> (r matches Ok(x) && x == Constellation::Qzss),
        (value matches Some(s) && s@ == "QZSS"@) ==> (r matches Ok(x) && x == Constellation::Qzss),
        (value matches Some(s) && s@ == "qzss"@) ==> (r matches Ok(x) && x == Constellation::Qzss),
        (value matches Some(s) && s@ == "Qzss"@) ==> (r matches Ok(x) && x == Constellation::Qzss),
        (value matches Some(s) && s@ == "I"@) ==> (r matches Ok(x) && x == Constellation::Navic),
        (value matches Some(s) && s@ == "IRNSS"@) ==> (r matches Ok(x) && x == Constellation::Navic),
        (value matches Some(s) && s@ == "NAVIC"@) ==> (r matches Ok(x) && x == Constellation::Navic),
        (value matches Some(s) && s@ == "navic"@) ==> (r matches Ok(x) && x == Constellation::Navic),
        (value matches Some(s) && s@ == "NavIC"@) ==> (r matches Ok(x) && x == Constellation::Navic),
        (value matches Some(s) && s@ == "Navic"@) ==> (r matches Ok(x) && x == Constellation::Navic),
        (value matches Some(s) && s@ == "S"@) ==> (r matches Ok(x) && x == Constellation::Sbas),
        (value matches Some(s) && s@ == "SBAS"@) ==> (r matches Ok(x) && x == Constellation::Sbas),
        (value matches Some(s) && s@ == "sbas"@) ==> (r matches Ok(x) && x == Constellation::Sbas),
        (value matches Some(s) && s@ == "Sbas"@) ==> (r matches Ok(x) && x == Constellation::Sbas),
        r matches Err(e) ==> (value matches Some(l) && e.message@ == invalid_label_text("GNSS system"@, l@, ": expected a RINEX system letter or label"@)),
        match value {
            None => r matches Ok(s) && s == Constellation::Gps,
            Some(t) => match system_of_token(t@) {
                Some(s) => r matches Ok(u) && u == s,
                None => r matches Err(e) && e.kind == ErrorKind::Type,
            },
        },
{
    proof {
        law_system_of_token_literals(Seq::empty());
    }
    let t = match value {
        None => return Ok(Constellation::Gps),
        Some(t) => t,
    };
    if str_eq(t, "G") || str_eq(t, "GPS") || str_eq(t, "gps") || str_eq(t, "Gps") {
        Ok(Constellation::Gps)
    } else if str_eq(t, "R") || str_eq(t, "GLO") || str_eq(t, "GLONASS") || str_eq(t, "glonass") || str_eq(t, "Glonass") {
        Ok(Constellation::Glonass)
    } else if str_eq(t, "E") || str_eq(t, "GAL") || str_eq(t, "GALILEO") || str_eq(t, "galileo") || str_eq(t, "Galileo") {
        Ok(Constellation::Galileo)
    } else if str_eq(t, "C") || str_eq(t, "BDS") || str_eq(t, "BEIDOU") || str_eq(t, "beidou") || str_eq(t, "BeiDou") {
        Ok(Constellation::BeiDou)
    } else if str_eq(t, "J") || str_eq(t, "QZSS") || str_eq(t, "qzss") || str_eq(t, "Qzss") {
        Ok(Constellation::Qzss)
    } else if str_eq(t, "I") || str_eq(t, "IRNSS") || str_eq(t, "NAVIC") || str_eq(t, "navic") || str_eq(t, "NavIC") || str_eq(t, "Navic") {
        Ok(Constellation::Navic)
    } else if str_eq(t, "S") || str_eq(t, "SBAS") || str_eq(t, "sbas") || str_eq(t, "Sbas") {
        Ok(Constellation::Sbas)
    } else {
        Err(type_error(invalid_label_message("GNSS system", t, ": expected a RINEX system letter or label")))
    }
}

/// The display label, the RINEX letter and the lower-case label of every
/// constellation all parse back to it.
pub proof fn lemma_system_tokens_roundtrip(s: Constellation)
    ensures
        system_of_token(display_label(s)) == Some(s),
        system_of_token(rinex_letter(s)) == Some(s),
        system_of_token(lower_label(s)) == Some(s),
{
    reveal_strlit("G");
    reveal_strlit("GPS");
    reveal_strlit("gps");
    reveal_strlit("Gps");
    reveal_strlit("R");
    reveal_strlit("GLO");
    reveal_strlit("GLONASS");
    reveal_strlit("glonass");
    reveal_strlit("Glonass");
    reveal_strlit("E");
    reveal_strlit("GAL");
    reveal_strlit("GALILEO");
    reveal_strlit("galileo");
    reveal_strlit("Galileo");
    reveal_strlit("C");
    reveal_strlit("BDS");
    reveal_strlit("BEIDOU");
    reveal_strlit("beidou");
    reveal_strlit("BeiDou");
    reveal_strlit("J");
    reveal_strlit("QZSS");
    reveal_strlit("qzss");
    reveal_strlit("Qzss");
    reveal_strlit("I");
    reveal_strlit("IRNSS");
    reveal_strlit("NAVIC");
    reveal_strlit("navic");
    reveal_strlit("NavIC");
    reveal_strlit("Navic");
    reveal_strlit("S");
    reveal_strlit("SBAS");
    reveal_strlit("sbas");
    reveal_strlit("Sbas");
    assert("BDS"@.len() == 3 && "BEIDOU"@.len() == 6 && "BeiDou"@.len() == 6);
    assert("C"@.len() == 1 && "E"@.len() == 1 && "G"@.len() == 1);
    assert("GAL"@.len() == 3 && "GALILEO"@.len() == 7 && "GLO"@.len() == 3);
    assert("GLONASS"@.len() == 7 && "GPS"@.len() == 3 && "Galileo"@.len() == 7);
    assert("Glonass"@.len() == 7 && "Gps"@.len() == 3 && "I"@.len() == 1);
    assert("IRNSS"@.len() == 5 && "J"@.len() == 1 && "NAVIC"@.len() == 5);
    assert("NavIC"@.len() == 5 && "Navic"@.len() == 5 && "QZSS"@.len() == 4);
    assert("Qzss"@.len() == 4 && "R"@.len() == 1 && "S"@.len() == 1);
    assert("SBAS"@.len() == 4 && "Sbas"@.len() == 4 && "beidou"@.len() == 6);
    assert("galileo"@.len() == 7 && "glonass"@.len() == 7 && "gps"@.len() == 3);
    assert("navic"@.len() == 5 && "qzss"@.len() == 4 && "sbas"@.len() == 4);
    assert("BDS"@[0] != "GAL"@[0]);
    assert("BDS"@[0] != "GLO"@[0]);
    assert("BDS"@[0] != "GPS"@[0]);
    assert("BDS"@[0] != "Gps"@[0]);
    assert("BDS"@[0] != "gps"@[0]);
    assert("BEIDOU"@[1] != "BeiDou"@[1]);
    assert("BEIDOU"@[0] != "beidou"@[0]);
    assert("BeiDou"@[0] != "beidou"@[0]);
    assert("C"@[0] != "E"@[0]);
    assert("C"@[0] != "G"@[0]);
    assert("C"@[0] != "I"@[0]);
    assert("C"@[0] != "J"@[0]);
    assert("C"@[0] != "R"@[0]);
    assert("C"@[0] != "S"@[0]);
    assert("E"@[0] != "G"@[0]);
    assert("E"@[0] != "I"@[0]);
    assert("E"@[0] != "J"@[0]);
    assert("E"@[0] != "R"@[0]);
    assert("E"@[0] != "S"@[0]);
    assert("G"@[0] != "I"@[0]);
    assert("G"@[0] != "J"@[0]);
    assert("G"@[0] != "R"@[0]);
    assert("G"@[0] != "S"@[0]);
    assert("GAL"@[1] != "GLO"@[1]);
    assert("GAL"@[1] != "GPS"@[1]);
    assert("GAL"@[1] != "Gps"@[1]);
    assert("GAL"@[0] != "gps"@[0]);
    assert("GALILEO"@[1] != "GLONASS"@[1]);
    assert("GALILEO"@[1] != "Galileo"@[1]);
    assert("GALILEO"@[1] != "Glonass"@[1]);
    assert("GALILEO"@[0] != "galileo"@[0]);
    assert("GALILEO"@[0] != "glonass"@[0]);
    assert("GLO"@[1] != "GPS"@[1]);
    assert("GLO"@[1] != "Gps"@[1]);
    assert("GLO"@[0] != "gps"@[0]);
    assert("GLONASS"@[1] != "Galileo"@[1]);
    assert("GLONASS"@[1] != "Glonass"@[1]);
    assert("GLONASS"@[0] != "galileo"@[0]);
    assert("GLONASS"@[0] != "glonass"@[0]);
    assert("GPS"@[1] != "Gps"@[1]);
    assert("GPS"@[0] != "gps"@[0]);
    assert("Galileo"@[1] != "Glonass"@[1]);
    assert("Galileo"@[0] != "galileo"@[0]);
    assert("Galileo"@[0] != "glonass"@[0]);
    assert("Glonass"@[0] != "galileo"@[0]);
    assert("Glonass"@[0] != "glonass"@[0]);
    assert("Gps"@[0] != "gps"@[0]);
    assert("I"@[0] != "J"@[0]);
    assert("I"@[0] != "R"@[0]);
    assert("I"@[0] != "S"@[0]);
    assert("IRNSS"@[0] != "NAVIC"@[0]);
    assert("IRNSS"@[0] != "NavIC"@[0]);
    assert("IRNSS"@[0] != "Navic"@[0]);
    assert("IRNSS"@[0] != "navic"@[0]);
    assert("J"@[0] != "R"@[0]);
    assert("J"@[0] != "S"@[0]);
    assert("NAVIC"@[1] != "NavIC"@[1]);
    assert("NAVIC"@[1] != "Navic"@[1]);
    assert("NAVIC"@[0] != "navic"@[0]);
    assert("NavIC"@[3] != "Navic"@[3]);
    assert("NavIC"@[0] != "navic"@[0]);
    assert("Navic"@[0] != "navic"@[0]);
    assert("QZSS"@[1] != "Qzss"@[1]);
    assert("QZSS"@[0] != "SBAS"@[0]);
    assert("QZSS"@[0] != "Sbas"@[0]);
    assert("QZSS"@[0] != "qzss"@[0]);
    assert("QZSS"@[0] != "sbas"@[0]);
    assert("Qzss"@[0] != "SBAS"@[0]);
    assert("Qzss"@[0] != "Sbas"@[0]);
    assert("Qzss"@[0] != "qzss"@[0]);
    assert("Qzss"@[0] != "sbas"@[0]);
    assert("R"@[0] != "S"@[0]);
    assert("SBAS"@[1] != "Sbas"@[1]);
    assert("SBAS"@[0] != "qzss"@[0]);
    assert("SBAS"@[0] != "sbas"@[0]);
    assert("Sbas"@[0] != "qzss"@[0]);
    assert("Sbas"@[0] != "sbas"@[0]);
    assert("galileo"@[1] != "glonass"@[1]);
    assert("qzss"@[0] != "sbas"@[0]);
}

} // verus!
