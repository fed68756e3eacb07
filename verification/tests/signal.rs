use sidereon_wasm::error::ErrorKind;
use sidereon_wasm::signal::{ca_chip, ca_code, PredictBatch};

#[test]
fn ca_code_of_prn_one() {
    let code = ca_code(1).unwrap();
    assert_eq!(code.len(), 1023);
    assert!(code.iter().all(|&c| c == 1 || c == -1));
    // The first ten chips of PRN 1 are 1440 in octal: 1100100000.
    assert_eq!(&code[..10], &[-1, -1, 1, 1, -1, 1, 1, 1, 1, 1]);
    assert_ne!(ca_code(2).unwrap(), code);
}

#[test]
fn ca_chip_wraps_with_the_code_period() {
    let code = ca_code(7).unwrap();
    assert_eq!(ca_chip(7, 0).unwrap(), code[0]);
    assert_eq!(ca_chip(7, 1023).unwrap(), code[0]);
    assert_eq!(ca_chip(7, 1500).unwrap(), code[477]);
    assert_eq!(ca_chip(7, -1).unwrap(), code[1022]);
}

#[test]
fn unsupported_prn_is_a_range_error() {
    assert_eq!(ca_code(0).unwrap_err().kind, ErrorKind::Range);
    assert_eq!(ca_code(33).unwrap_err().kind, ErrorKind::Range);
    assert_eq!(ca_chip(-4, 3).unwrap_err().kind, ErrorKind::Range);
}

#[test]
fn batch_outcomes_by_index() {
    let batch = PredictBatch::new(vec![Ok(5u32), Err("no ephemeris".to_string())]);
    assert_eq!(batch.count(), 2);
    assert!(batch.is_ok(0).unwrap());
    assert!(!batch.is_ok(1).unwrap());
    assert_eq!(*batch.result(0).unwrap(), 5);
    let e = batch.result(1).unwrap_err();
    assert_eq!(e.kind, ErrorKind::Engine);
    assert_eq!(e.message, "no ephemeris");
    assert_eq!(batch.error(0).unwrap(), None);
    assert_eq!(batch.error(1).unwrap().as_deref(), Some("no ephemeris"));
    let r = batch.is_ok(2).unwrap_err();
    assert_eq!(r.kind, ErrorKind::Range);
    assert_eq!(r.message, "request index 2 out of range");
    assert_eq!(batch.error(9).unwrap_err().message, "request index 9 out of range");
}
