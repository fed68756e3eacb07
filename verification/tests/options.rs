use sidereon_wasm::error::ErrorKind;
use sidereon_wasm::qc::{check_fde_observations, fde_max_iterations, robust_max_outer};
use sidereon_wasm::sgp4::{check_epoch_grid, check_time_window};

#[test]
fn pass_windows_must_move_forward() {
    assert!(check_time_window(0, 1).is_ok());
    let e = check_time_window(5, 5).unwrap_err();
    assert_eq!(e.kind, ErrorKind::Range);
    assert_eq!(e.message, "endUnixUs must be after startUnixUs");
    assert!(check_time_window(10, -10).is_err());
}

#[test]
fn epoch_grids_are_strictly_increasing() {
    assert!(check_epoch_grid(&[1, 2]).is_ok());
    assert!(check_epoch_grid(&[-5, 0, 7, 1_000_000]).is_ok());
    let short = check_epoch_grid(&[3]).unwrap_err();
    assert_eq!(short.kind, ErrorKind::Type);
    assert_eq!(short.message, "epochsUnixUs must contain at least two samples");
    assert_eq!(check_epoch_grid(&[]).unwrap_err().kind, ErrorKind::Type);
    let flat = check_epoch_grid(&[1, 2, 2, 3]).unwrap_err();
    assert_eq!(flat.kind, ErrorKind::Range);
    assert_eq!(flat.message, "epochsUnixUs must be strictly increasing");
    assert_eq!(check_epoch_grid(&[4, 3]).unwrap_err().kind, ErrorKind::Range);
}

#[test]
fn fde_option_defaults() {
    assert_eq!(robust_max_outer(None).unwrap(), 100);
    assert_eq!(robust_max_outer(Some(3)).unwrap(), 3);
    let e = robust_max_outer(Some(0)).unwrap_err();
    assert_eq!(e.kind, ErrorKind::Range);
    assert_eq!(e.message, "robust.maxOuter must be at least 1");
    assert_eq!(fde_max_iterations(None, 9), 5);
    assert_eq!(fde_max_iterations(None, 3), 0);
    assert_eq!(fde_max_iterations(Some(2), 9), 2);
    assert!(check_fde_observations(1).is_ok());
    assert_eq!(
        check_fde_observations(0).unwrap_err().message,
        "observations must contain at least one entry"
    );
}
