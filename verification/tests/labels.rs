use sidereon_wasm::error::ErrorKind;
use sidereon_wasm::gnss::{system_display_label, Constellation};
use sidereon_wasm::observables::{
    one_char, parse_variance_model, pseudorange_drop_reason_label, slip_reason_label,
    PseudorangeDropReason, SlipReason, VarianceModel,
};
use sidereon_wasm::observation::{parse_target, ObserveTarget};
use sidereon_wasm::orbit_determination::{linear_solve, system_label as od_system_label, LinearSolve};
use sidereon_wasm::precise_samples::{
    observable_state_status_label, sample_status_label, EphemerisSampleStatus,
    ObservableStateElementStatus,
};
use sidereon_wasm::reduced_orbit::{frame_from_str, model_from_str, model_label, OrbitFrame, ReducedOrbitModel};
use sidereon_wasm::rinex_nav::{nav_message_label, NavMessage};
use sidereon_wasm::rinex_obs::{observation_kind_label, ObservationKind};
use sidereon_wasm::rinex_qc::{interval_source_label, severity_label, system_label as qc_system_label, IntervalSource, Severity};
use sidereon_wasm::rtk::{integer_status_label as rtk_integer_status_label, stochastic_model, StochasticKind};
use sidereon_wasm::rtk_arc::{
    cycle_slip_receiver_label, float_solve_status_label, integer_status_label, parse_gnss_system,
    residual_component_label, static_reference_fix_status_label, static_reference_mode_error_kind,
    static_reference_mode_label, static_reference_mode_status_label,
    wide_lane_fixed_integer_method_label, CycleSlipReceiver, FloatSolveStatus, IntegerStatus,
    ResidualComponentKind, StaticReferenceFixStatus, StaticReferenceModeErrorKind,
    StaticReferenceModeStatus, StaticReferenceStationMode, WideLaneFixedArcIntegerMethod,
};
use sidereon_wasm::sbas_pl::{sbas_pl_error_label, sbas_pl_error_name, SbasPlError};
use sidereon_wasm::sgp4::{ops_mode, OpsMode};

#[test]
fn display_labels_of_every_constellation() {
    assert_eq!(system_display_label(Constellation::Gps), "GPS");
    assert_eq!(system_display_label(Constellation::Glonass), "GLONASS");
    assert_eq!(system_display_label(Constellation::Galileo), "Galileo");
    assert_eq!(system_display_label(Constellation::BeiDou), "BeiDou");
    assert_eq!(system_display_label(Constellation::Qzss), "QZSS");
    assert_eq!(system_display_label(Constellation::Navic), "NavIC");
    assert_eq!(system_display_label(Constellation::Sbas), "SBAS");
    assert_eq!(od_system_label(Constellation::Galileo), "Galileo");
    assert_eq!(qc_system_label(Constellation::BeiDou), "BeiDou");
}

#[test]
fn observable_reason_labels() {
    assert_eq!(pseudorange_drop_reason_label(PseudorangeDropReason::MissingBand1), "missing_band1");
    assert_eq!(pseudorange_drop_reason_label(PseudorangeDropReason::MissingBand2), "missing_band2");
    assert_eq!(
        pseudorange_drop_reason_label(PseudorangeDropReason::DuplicateObservation),
        "duplicate_observation"
    );
    assert_eq!(pseudorange_drop_reason_label(PseudorangeDropReason::UnknownSystem), "unknown_system");
    assert_eq!(slip_reason_label(SlipReason::Lli), "lli");
    assert_eq!(slip_reason_label(SlipReason::DataGap), "data_gap");
    assert_eq!(slip_reason_label(SlipReason::GeometryFree), "geometry_free");
    assert_eq!(slip_reason_label(SlipReason::MelbourneWubbena), "melbourne_wubbena");
}

#[test]
fn one_char_takes_exactly_one_character() {
    assert_eq!(one_char("G", "bad").unwrap(), 'G');
    assert_eq!(one_char("é", "bad").unwrap(), 'é');
    let e = one_char("GR", "override system must be one character").unwrap_err();
    assert_eq!(e.kind, ErrorKind::Type);
    assert_eq!(e.message, "override system must be one character");
    assert_eq!(one_char("", "empty").unwrap_err().message, "empty");
}

#[test]
fn observation_targets_parse() {
    assert_eq!(parse_target("sun").unwrap(), ObserveTarget::Sun);
    assert_eq!(parse_target("moon").unwrap(), ObserveTarget::Moon);
    let e = parse_target("mars").unwrap_err();
    assert_eq!(e.kind, ErrorKind::Type);
    assert_eq!(e.message, "invalid target \"mars\": expected \"sun\" or \"moon\"");
}

#[test]
fn linear_solve_defaults_and_spellings() {
    assert_eq!(linear_solve(None).unwrap(), LinearSolve::OwnedGaussianFirstTie);
    assert_eq!(linear_solve(Some("nalgebraLu".to_string())).unwrap(), LinearSolve::NalgebraLu);
    assert_eq!(linear_solve(Some("nalgebra_lu".to_string())).unwrap(), LinearSolve::NalgebraLu);
    assert_eq!(
        linear_solve(Some("owned_gaussian_first_tie".to_string())).unwrap(),
        LinearSolve::OwnedGaussianFirstTie
    );
    let e = linear_solve(Some("qr".to_string())).unwrap_err();
    assert_eq!(e.kind, ErrorKind::Type);
    assert_eq!(
        e.message,
        "invalid orbit linearSolve \"qr\": expected \"nalgebraLu\" or \"ownedGaussianFirstTie\""
    );
}

#[test]
fn precise_sample_status_labels() {
    assert_eq!(sample_status_label(EphemerisSampleStatus::Valid), "valid");
    assert_eq!(sample_status_label(EphemerisSampleStatus::Gap), "gap");
    assert_eq!(observable_state_status_label(ObservableStateElementStatus::Valid), "valid");
    assert_eq!(observable_state_status_label(ObservableStateElementStatus::Gap), "gap");
    assert_eq!(observable_state_status_label(ObservableStateElementStatus::Error), "error");
}

#[test]
fn reduced_orbit_models_round_trip() {
    for m in [ReducedOrbitModel::CircularSecular, ReducedOrbitModel::EccentricSecular] {
        assert_eq!(model_from_str(model_label(m)).unwrap(), m);
    }
    assert_eq!(model_label(ReducedOrbitModel::CircularSecular), "circular_secular");
    assert_eq!(model_from_str("kepler").unwrap_err().kind, ErrorKind::Type);
    assert_eq!(frame_from_str("ecef").unwrap(), OrbitFrame::Ecef);
    assert_eq!(frame_from_str("gcrs").unwrap(), OrbitFrame::Gcrs);
    assert_eq!(frame_from_str("itrf").unwrap_err().kind, ErrorKind::Type);
}

#[test]
fn rinex_labels() {
    assert_eq!(nav_message_label(NavMessage::GpsLnav), "gps_lnav");
    assert_eq!(nav_message_label(NavMessage::GalileoFnav), "galileo_fnav");
    assert_eq!(nav_message_label(NavMessage::BeidouD2), "beidou_d2");
    assert_eq!(observation_kind_label(ObservationKind::CarrierPhase), "carrier_phase");
    assert_eq!(observation_kind_label(ObservationKind::SignalStrength), "signal_strength");
    assert_eq!(severity_label(Severity::Fatal), "fatal");
    assert_eq!(severity_label(Severity::Warning), "warning");
    assert_eq!(interval_source_label(IntervalSource::Inferred), "inferred");
    assert_eq!(interval_source_label(IntervalSource::Unresolved), "unresolved");
}

#[test]
fn rtk_labels_and_stochastic_model() {
    assert_eq!(integer_status_label(IntegerStatus::Fixed), "Fixed");
    assert_eq!(rtk_integer_status_label(IntegerStatus::NotFixed), "NotFixed");
    assert_eq!(
        wide_lane_fixed_integer_method_label(WideLaneFixedArcIntegerMethod::WideLaneNarrowLaneSequential),
        "wideLaneNarrowLaneSequential"
    );
    assert_eq!(float_solve_status_label(FloatSolveStatus::MaxIterations), "MaxIterations");
    assert_eq!(residual_component_label(ResidualComponentKind::Phase), "phase");
    assert_eq!(static_reference_mode_label(StaticReferenceStationMode::CarrierFixed), "carrierFixed");
    assert_eq!(static_reference_fix_status_label(StaticReferenceFixStatus::CodeDgnss), "codeDgnss");
    assert_eq!(static_reference_mode_status_label(StaticReferenceModeStatus::Failed), "failed");
    assert_eq!(
        static_reference_mode_error_kind(StaticReferenceModeErrorKind::InvalidCorrectedSatelliteId),
        "invalidCorrectedSatelliteId"
    );
    assert_eq!(cycle_slip_receiver_label(CycleSlipReceiver::Rover), "rover");
    assert_eq!(
        stochastic_model("simple", true).unwrap(),
        StochasticKind::Simple { elevation_weighting: true }
    );
    assert_eq!(stochastic_model("rtklib", true).unwrap(), StochasticKind::Rtklib);
    let e = stochastic_model("kalman", false).unwrap_err();
    assert_eq!(e.kind, ErrorKind::Type);
    assert_eq!(e.message, "invalid stochastic model \"kalman\": expected \"simple\" or \"rtklib\"");
}

#[test]
fn gnss_system_tokens_in_every_spelling() {
    assert_eq!(parse_gnss_system(None).unwrap(), Constellation::Gps);
    assert_eq!(parse_gnss_system(Some("G")).unwrap(), Constellation::Gps);
    assert_eq!(parse_gnss_system(Some("R")).unwrap(), Constellation::Glonass);
    assert_eq!(parse_gnss_system(Some("Galileo")).unwrap(), Constellation::Galileo);
    assert_eq!(parse_gnss_system(Some("C")).unwrap(), Constellation::BeiDou);
    assert_eq!(parse_gnss_system(Some("qzss")).unwrap(), Constellation::Qzss);
    assert_eq!(parse_gnss_system(Some("IRNSS")).unwrap(), Constellation::Navic);
    assert_eq!(parse_gnss_system(Some("S")).unwrap(), Constellation::Sbas);
    assert_eq!(parse_gnss_system(Some("X")).unwrap_err().kind, ErrorKind::Type);
}

#[test]
fn sbas_protection_level_error_labels() {
    assert_eq!(sbas_pl_error_name(SbasPlError::InsufficientGeometry), "InsufficientGeometry");
    assert_eq!(sbas_pl_error_name(SbasPlError::NumericalFailure), "NumericalFailure");
    assert_eq!(sbas_pl_error_label(SbasPlError::InvalidErrorModel), "InvalidErrorModel");
}

#[test]
fn sgp4_ops_mode_defaults_to_improved() {
    assert_eq!(ops_mode(None).unwrap(), OpsMode::Improved);
    assert_eq!(ops_mode(Some("improved".to_string())).unwrap(), OpsMode::Improved);
    assert_eq!(ops_mode(Some("afspc".to_string())).unwrap(), OpsMode::Afspc);
    let e = ops_mode(Some("sgp8".to_string())).unwrap_err();
    assert_eq!(e.kind, ErrorKind::Type);
    assert_eq!(e.message, "invalid opsMode \"sgp8\": expected \"improved\" or \"afspc\"");
}

#[test]
fn variance_model_labels() {
    assert_eq!(parse_variance_model(None).unwrap(), VarianceModel::Elevation);
    assert_eq!(parse_variance_model(Some("elevation")).unwrap(), VarianceModel::Elevation);
    assert_eq!(parse_variance_model(Some("elevation_cn0")).unwrap(), VarianceModel::ElevationCn0);
    let e = parse_variance_model(Some("snr")).unwrap_err();
    assert_eq!(e.kind, ErrorKind::Type);
    assert_eq!(e.message, "invalid variance model \"snr\": expected \"elevation\" or \"elevation_cn0\"");
}
