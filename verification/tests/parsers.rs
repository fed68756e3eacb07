use sidereon_wasm::ccsds::{parse_oem_kvn, parse_oem_xml, parse_opm_kvn, parse_opm_xml};
use sidereon_wasm::error::{BindingError, ErrorKind};
use sidereon_wasm::gnss::Constellation;
use sidereon_wasm::omm::{parse_omm_json, parse_omm_kvn, parse_omm_xml};
use sidereon_wasm::ppp_corrections::code_bias_selection;
use sidereon_wasm::rinex_clock::{load_rinex_clock_lossy, parse_rinex_clock, parse_rinex_clock_lossy};
use sidereon_wasm::rinex_nav::{
    parse_rinex_glonass_records, parse_rinex_iono_corrections, parse_rinex_nav, parse_rinex_nav_records,
};
use sidereon_wasm::rinex_obs::{load_rinex_obs, parse_rinex_obs};
use sidereon_wasm::satellite::SatelliteId;
use sidereon_wasm::sgp4::{parse_tle_file, tle_file_skipped, tle_record};

const ISS_LINE1: &str = "1 25544U 98067A   08264.51782528 -.00002182  00000-0 -11606-4 0  2927";
const ISS_LINE2: &str = "2 25544  51.6416 247.4627 0006703 130.5360 325.0288 15.72125391563537";

fn err_kind<T>(r: Result<T, BindingError>) -> ErrorKind {
    match r {
        Err(e) => e.kind,
        Ok(_) => panic!("expected an error"),
    }
}

fn triple(a: &str, b: &str, c: &str) -> (String, String, String) {
    (a.to_string(), b.to_string(), c.to_string())
}

#[test]
fn ccsds_parsers_refuse_empty_text() {
    assert_eq!(parse_oem_kvn("").unwrap_err().kind, ErrorKind::Engine);
    assert_eq!(parse_oem_xml("").unwrap_err().kind, ErrorKind::Engine);
    assert_eq!(parse_opm_kvn("").unwrap_err().kind, ErrorKind::Engine);
    assert_eq!(parse_opm_xml("").unwrap_err().kind, ErrorKind::Engine);
    assert_eq!(parse_omm_kvn("").unwrap_err().kind, ErrorKind::Engine);
    assert_eq!(parse_omm_xml("").unwrap_err().kind, ErrorKind::Engine);
    assert_eq!(parse_omm_json("").unwrap_err().kind, ErrorKind::Engine);
}

#[test]
fn rinex_parsers_refuse_malformed_utf8() {
    let bad = [0xFFu8, 0xFE];
    assert_eq!(parse_rinex_obs(&bad).unwrap_err().kind, ErrorKind::Type);
    assert_eq!(load_rinex_obs(&bad).unwrap_err().kind, ErrorKind::Type);
    assert_eq!(parse_rinex_clock(&bad).unwrap_err().kind, ErrorKind::Type);
    assert_eq!(parse_rinex_clock_lossy(&bad).unwrap_err().kind, ErrorKind::Type);
    assert_eq!(err_kind(parse_rinex_nav(&bad)), ErrorKind::Type);
    assert_eq!(parse_rinex_nav_records(&bad).unwrap_err().kind, ErrorKind::Type);
    assert_eq!(parse_rinex_glonass_records(&bad).unwrap_err().kind, ErrorKind::Type);
    assert_eq!(parse_rinex_iono_corrections(&bad).unwrap_err().kind, ErrorKind::Type);
    assert_eq!(parse_rinex_obs(b"not a rinex file").unwrap_err().kind, ErrorKind::Engine);
}

#[test]
fn lossy_clock_parse_accepts_any_text() {
    assert!(parse_rinex_clock_lossy(b"").is_ok());
    assert!(load_rinex_clock_lossy(b"garbage\nlines\n").is_ok());
}

#[test]
fn tle_record_and_file() {
    assert!(tle_record(ISS_LINE1, ISS_LINE2, None).is_ok());
    assert!(tle_record(ISS_LINE1, ISS_LINE2, Some("afspc".to_string())).is_ok());
    assert_eq!(err_kind(tle_record(ISS_LINE1, ISS_LINE2, Some("fast".to_string()))), ErrorKind::Type);
    assert_eq!(err_kind(tle_record(ISS_LINE1, "2 garbage", None)), ErrorKind::Engine);
    let text = format!("ISS\n{ISS_LINE1}\n{ISS_LINE2}\n");
    let file = parse_tle_file(&text, None).unwrap();
    assert_eq!(file.satellites.len(), 1);
    assert_eq!(tle_file_skipped(&file), 0);
    let with_stray = format!("{text}stray line\n");
    let file = parse_tle_file(&with_stray, None).unwrap();
    assert_eq!(file.satellites.len(), 1);
    assert!(tle_file_skipped(&file) >= 1);
    assert_eq!(parse_tle_file(&text, Some("x".to_string())).unwrap_err().kind, ErrorKind::Type);
}

#[test]
fn code_bias_selection_keeps_order() {
    let c = code_bias_selection(
        vec![triple("G05", "C1C", "C2W"), triple("E11", "C1C", "C5Q")],
        vec![triple("galileo", "C1C", "C5Q")],
        vec![triple("gps", "C1W", "C2W"), triple("beidou", "C2I", "C6I")],
    )
    .unwrap();
    assert_eq!(c.per_sat.len(), 2);
    assert_eq!(c.per_sat[0].sat, SatelliteId { system: Constellation::Gps, prn: 5 });
    assert_eq!(c.per_sat[1].sat, SatelliteId { system: Constellation::Galileo, prn: 11 });
    assert_eq!((c.per_sat[1].obs1.as_str(), c.per_sat[1].obs2.as_str()), ("C1C", "C5Q"));
    assert_eq!(c.defaults[0].system, Constellation::Galileo);
    assert_eq!(c.clock_reference[1].system, Constellation::BeiDou);
    assert_eq!(c.clock_reference[1].obs2, "C6I");
    let e = code_bias_selection(vec![triple("Z99", "a", "b")], vec![], vec![]).unwrap_err();
    assert_eq!((e.kind, e.message.as_str()), (ErrorKind::Type, "invalid satellite token: Z99"));
    let e = code_bias_selection(vec![], vec![triple("GPS", "a", "b")], vec![]).unwrap_err();
    assert_eq!((e.kind, e.message.as_str()), (ErrorKind::Type, "invalid GNSS system label \"GPS\""));
    assert!(code_bias_selection(vec![], vec![], vec![triple("mars", "a", "b")]).is_err());
    assert!(code_bias_selection(vec![], vec![], vec![]).is_ok());
}
