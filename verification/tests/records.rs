use sidereon_wasm::batch::{
    check_receiver_ecef_len, check_satellite_epoch_lengths, check_vec3_len, check_weight_lengths,
    iq_sample_count, predict_request_count,
};
use sidereon_wasm::ccsds::{check_oem_segments, keplerian_anomaly, resolve_header, AnomalyKind, HeaderInput};
use sidereon_wasm::error::ErrorKind;
use sidereon_wasm::gnss::Constellation;
use sidereon_wasm::omm::{omm_meta, OmmEpoch, OmmMetaInput};
use sidereon_wasm::ppp_corrections::{check_blq_row, check_blq_row_count};
use sidereon_wasm::rinex_obs::check_epoch;
use sidereon_wasm::rinex_qc::{
    lint_rinex_nav, lint_rinex_obs, repair_options, repair_rinex_obs, RepairOptionsInput,
};
use sidereon_wasm::satellite::{parse_sat, satellite_token, SatelliteId};
use sidereon_wasm::sbas::{
    decode_block, form_label, parse_form, parse_mode, parse_time_scale, sat_to_sbas_prn,
    sbas_prn_to_sat, GnssTimeScale, SbasSolveMode, SbasWireForm,
};
use sidereon_wasm::scenario::{default_scenario_seed_hex, hex_u64, scenario_engine_version, scenario_schema_version};
use sidereon_wasm::text::{str_eq, utf8_text};

#[test]
fn omm_epoch_renders_iso8601() {
    let e = OmmEpoch::new(2024, 1, 2, 3, 4, 5, 6, None).unwrap();
    assert_eq!(e.iso8601(), "2024-01-02T03:04:05.000006");
    assert_eq!((e.year(), e.month(), e.day()), (2024, 1, 2));
    assert_eq!((e.hour(), e.minute(), e.second()), (3, 4, 5));
    assert_eq!((e.microsecond(), e.femtosecond()), (6, 0));
    let f = OmmEpoch::new(2016, 12, 31, 23, 59, 60, 999_999, Some(5)).unwrap();
    assert_eq!(f.iso8601(), "2016-12-31T23:59:60.999999");
    assert_eq!(f.femtosecond(), 5);
    let g = OmmEpoch::new(2024, 1, 2, 3, 4, 5, 6, Some(7)).unwrap();
    assert_eq!(g.iso8601(), e.iso8601());
    let early = OmmEpoch::new(-44, 3, 15, 0, 0, 0, 0, None).unwrap();
    assert_eq!(early.iso8601(), "-044-03-15T00:00:00.000000");
    assert_eq!(OmmEpoch::new(7, 7, 7, 7, 7, 7, 7, None).unwrap().iso8601(), "0007-07-07T07:07:07.000007");
}

#[test]
fn omm_epoch_refuses_fields_out_of_range() {
    assert_eq!(OmmEpoch::new(2024, 0, 1, 0, 0, 0, 0, None).unwrap_err().kind, ErrorKind::Range);
    assert_eq!(OmmEpoch::new(2024, 13, 1, 0, 0, 0, 0, None).unwrap_err().kind, ErrorKind::Range);
    assert_eq!(OmmEpoch::new(2024, 1, 32, 0, 0, 0, 0, None).unwrap_err().kind, ErrorKind::Range);
    assert_eq!(OmmEpoch::new(2024, 1, 1, 24, 0, 0, 0, None).unwrap_err().kind, ErrorKind::Range);
    assert_eq!(OmmEpoch::new(2024, 1, 1, 0, 60, 0, 0, None).unwrap_err().kind, ErrorKind::Range);
    assert_eq!(OmmEpoch::new(2024, 1, 1, 0, 0, 61, 0, None).unwrap_err().kind, ErrorKind::Range);
    assert_eq!(OmmEpoch::new(2024, 1, 1, 0, 0, 0, 1_000_000, None).unwrap_err().kind, ErrorKind::Range);
    assert_eq!(
        OmmEpoch::new(2024, 1, 1, 0, 0, 0, 0, Some(1_000_000_000)).unwrap_err().kind,
        ErrorKind::Range
    );
}

#[test]
fn omm_meta_defaults() {
    let none = OmmMetaInput {
        ccsds_omm_vers: None,
        creation_date: None,
        originator: None,
        object_name: Some("ISS".to_string()),
        object_id: None,
        center_name: None,
        ref_frame: None,
        time_system: None,
        mean_element_theory: None,
        ephemeris_type: None,
        classification_type: None,
        element_set_no: None,
        rev_at_epoch: None,
    };
    let m = omm_meta(none.clone());
    assert_eq!(m.ccsds_omm_vers, "2.0");
    assert_eq!(m.classification_type, "U");
    assert_eq!((m.ephemeris_type, m.element_set_no, m.rev_at_epoch), (0, 999, 0));
    assert_eq!(m.object_name.as_deref(), Some("ISS"));
    let mut given = none;
    given.ccsds_omm_vers = Some("3.0".to_string());
    given.element_set_no = Some(12);
    let g = omm_meta(given);
    assert_eq!(g.ccsds_omm_vers, "3.0");
    assert_eq!(g.element_set_no, 12);
}

#[test]
fn ccsds_header_and_block_rules() {
    let h = resolve_header(HeaderInput { version: None, creation_date: Some("2024".to_string()), originator: None });
    assert_eq!(h.version, "2.0");
    assert_eq!(h.creation_date.as_deref(), Some("2024"));
    let k = resolve_header(HeaderInput { version: Some("3.0".to_string()), creation_date: None, originator: None });
    assert_eq!(k.version, "3.0");
    assert!(check_oem_segments(1).is_ok());
    let e = check_oem_segments(0).unwrap_err();
    assert_eq!(e.kind, ErrorKind::Type);
    assert_eq!(e.message, "Oem requires at least one segment");
    assert_eq!(keplerian_anomaly(true, false).unwrap(), AnomalyKind::True);
    assert_eq!(keplerian_anomaly(false, true).unwrap(), AnomalyKind::Mean);
    assert_eq!(
        keplerian_anomaly(false, false).unwrap_err().message,
        "Keplerian block requires trueAnomalyDeg or meanAnomalyDeg"
    );
    assert_eq!(
        keplerian_anomaly(true, true).unwrap_err().message,
        "Keplerian block cannot carry both trueAnomalyDeg and meanAnomalyDeg"
    );
}

#[test]
fn batch_shapes() {
    assert_eq!(predict_request_count(2, 6, 2).unwrap(), 2);
    assert_eq!(predict_request_count(0, 0, 0).unwrap_err().message, "satellites must not be empty");
    assert_eq!(
        predict_request_count(2, 7, 2).unwrap_err().message,
        "receiversEcefM length (7) must be a multiple of 3 (flat row-major n-by-3)"
    );
    assert_eq!(
        predict_request_count(2, 9, 2).unwrap_err().message,
        "receiversEcefM (3 rows) and satellites (2) must have the same length"
    );
    let e = predict_request_count(2, 6, 5).unwrap_err();
    assert_eq!(e.kind, ErrorKind::Type);
    assert_eq!(e.message, "epochsJ2000S (5) and satellites (2) must have the same length");
    assert!(check_satellite_epoch_lengths(4, 4).is_ok());
    assert_eq!(
        check_satellite_epoch_lengths(10, 3).unwrap_err().message,
        "satellites (10) and epochsJ2000S (3) must have the same length"
    );
    assert!(check_weight_lengths(3, 3).is_ok());
    assert_eq!(
        check_weight_lengths(3, 2).unwrap_err().message,
        "satelliteIds and weights must have the same length"
    );
}

#[test]
fn ocean_loading_block_shape() {
    assert!(check_blq_row_count("oceanLoading.amplitudeM", 3).is_ok());
    assert_eq!(
        check_blq_row_count("oceanLoading.amplitudeM", 2).unwrap_err().message,
        "oceanLoading.amplitudeM must have 3 component rows (radial, EW, NS), got 2"
    );
    assert!(check_blq_row("oceanLoading.phaseDeg", 1, 11).is_ok());
    let e = check_blq_row("oceanLoading.phaseDeg", 1, 10).unwrap_err();
    assert_eq!(e.kind, ErrorKind::Type);
    assert_eq!(e.message, "oceanLoading.phaseDeg row 1 must have 11 constituents, got 10");
}

#[test]
fn epoch_index_checks() {
    assert_eq!(check_epoch(0, 3).unwrap(), 0);
    assert_eq!(check_epoch(2, 3).unwrap(), 2);
    let e = check_epoch(3, 3).unwrap_err();
    assert_eq!(e.kind, ErrorKind::Range);
    assert_eq!(e.message, "epoch index 3 out of range for 3 epochs");
}

#[test]
fn repair_option_defaults() {
    let d = repair_options(None);
    assert!(d.file_stamp.is_none());
    assert!(d.sort_records);
    assert!(!d.set_interval && !d.set_time_of_last_obs && !d.set_obs_counts);
    assert!(!d.drop_empty_records && !d.drop_unsupported);
    let o = repair_options(Some(RepairOptionsInput {
        file_stamp: None,
        set_interval: Some(true),
        set_time_of_last_obs: None,
        set_obs_counts: None,
        drop_empty_records: None,
        sort_records: Some(false),
        drop_unsupported: None,
    }));
    assert!(o.set_interval);
    assert!(!o.sort_records);
    assert!(!o.drop_unsupported);
}

#[test]
fn satellite_tokens_round_trip() {
    let g = parse_sat("G01").unwrap();
    assert_eq!(g, SatelliteId { system: Constellation::Gps, prn: 1 });
    assert_eq!(satellite_token(g), "G01");
    let e = parse_sat("E5").unwrap();
    assert_eq!(satellite_token(e), "E05");
    assert_eq!(parse_sat(&satellite_token(e)).unwrap(), e);
    let bad = parse_sat("X01").unwrap_err();
    assert_eq!(bad.kind, ErrorKind::Type);
    assert!(bad.message.starts_with("invalid satellite token \"X01\": "));
    assert!(bad.message.len() > "invalid satellite token \"X01\": ".len());
    assert_eq!(parse_sat("G00").unwrap_err().kind, ErrorKind::Type);
}

#[test]
fn sbas_prns_and_labels() {
    assert_eq!(sbas_prn_to_sat(129).as_deref(), Some("S29"));
    assert_eq!(sbas_prn_to_sat(120).as_deref(), Some("S20"));
    assert_eq!(sbas_prn_to_sat(159), None);
    assert_eq!(sat_to_sbas_prn("S29").unwrap(), Some(129));
    assert_eq!(sat_to_sbas_prn("G01").unwrap(), None);
    assert_eq!(sat_to_sbas_prn("??").unwrap_err().kind, ErrorKind::Type);
    assert_eq!(parse_form(None).unwrap(), SbasWireForm::Framed250);
    assert_eq!(parse_form(Some("body226".to_string())).unwrap(), SbasWireForm::Body226);
    assert_eq!(form_label(SbasWireForm::Framed250), "framed250");
    assert_eq!(parse_form(Some("raw".to_string())).unwrap_err().kind, ErrorKind::Type);
    assert_eq!(parse_time_scale(None).unwrap(), GnssTimeScale::Gpst);
    assert_eq!(parse_time_scale(Some("bdt".to_string())).unwrap(), GnssTimeScale::Bdt);
    assert_eq!(parse_mode(None).unwrap(), SbasSolveMode::MixedAugmentation);
    assert_eq!(decode_block(&[0u8; 5], None).unwrap_err().kind, ErrorKind::Engine);
    assert_eq!(decode_block(&[0u8; 32], Some("x".to_string())).unwrap_err().kind, ErrorKind::Type);
}

#[test]
fn scenario_constants() {
    assert_eq!(scenario_schema_version(), 1);
    assert_eq!(default_scenario_seed_hex(), "0x515c1e7e0b5ea11d");
    assert_eq!(hex_u64(0), "0x0000000000000000");
    assert_eq!(hex_u64(u64::MAX), "0xffffffffffffffff");
    assert_eq!(hex_u64(0xABC), "0x0000000000000abc");
    assert_eq!(scenario_engine_version(), "3.0.6:scenario-observables-v1");
}

#[test]
fn text_helpers() {
    assert!(str_eq("abc", "abc"));
    assert!(!str_eq("abc", "abd"));
    assert!(!str_eq("abc", "ab"));
    assert_eq!(utf8_text(b"hello", "x").unwrap(), "hello");
    let e = utf8_text(&[0xC3, 0x28], "RINEX").unwrap_err();
    assert_eq!(e.kind, ErrorKind::Type);
    assert_eq!(e.message, "RINEX is not valid UTF-8");
}

#[test]
fn vectors_have_three_components() {
    assert!(check_vec3_len("positionKm", 3).is_ok());
    let e = check_vec3_len("velocityKmS", 2).unwrap_err();
    assert_eq!(e.kind, ErrorKind::Type);
    assert_eq!(e.message, "velocityKmS must have exactly 3 elements, got 2");
}

#[test]
fn receiver_and_iq_shapes() {
    assert!(check_receiver_ecef_len(3).is_ok());
    assert_eq!(check_receiver_ecef_len(4).unwrap_err().message, "receiverEcefM must have length 3");
    assert_eq!(iq_sample_count("samples", 8).unwrap(), 4);
    assert_eq!(iq_sample_count("samples", 0).unwrap(), 0);
    let e = iq_sample_count("samples", 7).unwrap_err();
    assert_eq!(e.kind, ErrorKind::Type);
    assert_eq!(e.message, "samples must be an interleaved [i, q] array of even length");
}

#[test]
fn lint_and_repair_of_text_that_is_not_rinex() {
    let report = lint_rinex_obs(b"not a rinex file\n").unwrap();
    assert!(!report.is_clean());
    assert_eq!(report.findings.len(), 1);
    assert!(lint_rinex_nav(b"not a rinex file\n").is_ok());
    assert_eq!(lint_rinex_obs(&[0xFF]).unwrap_err().kind, ErrorKind::Type);
    assert_eq!(repair_rinex_obs(b"not a rinex file\n", None).unwrap_err().kind, ErrorKind::Engine);
    assert_eq!(repair_rinex_obs(&[0xC0], None).unwrap_err().kind, ErrorKind::Type);
}
