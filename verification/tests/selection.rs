use tap_windows::catalog::DriverCandidate;
use tap_windows::catalog::select_driver;
use tap_windows::error::TapError;
use tap_windows::strcase::eq_ignore_ascii_case;

fn candidate(version: u64, hardware_id: &str) -> DriverCandidate {
    DriverCandidate { version, hardware_id: Some(String::from(hardware_id)) }
}

#[test]
fn selection_takes_the_highest_version() {
    // candidates with versions [3, 7, 5], all matching the hardware id
    let cands = vec![
        candidate(3, "tap0901"),
        candidate(7, "tap0901"),
        candidate(5, "tap0901"),
    ];
    let picked = select_driver(&cands, "tap0901").unwrap();
    assert_eq!(picked, (1, 7));
}

#[test]
fn selection_is_deterministic() {
    let cands = vec![
        candidate(3, "tap0901"),
        candidate(7, "tap0901"),
        candidate(5, "tap0901"),
    ];
    let first = select_driver(&cands, "tap0901").unwrap();
    let second = select_driver(&cands, "tap0901").unwrap();
    assert_eq!(first, second);
}

#[test]
fn earliest_candidate_wins_a_version_tie() {
    let cands = vec![
        candidate(5, "tap0901"),
        candidate(7, "tap0901"),
        candidate(7, "tap0901"),
    ];
    let picked = select_driver(&cands, "tap0901").unwrap();
    assert_eq!(picked, (1, 7));
}

#[test]
fn hardware_id_comparison_ignores_ascii_case() {
    let cands = vec![candidate(4, "TAP0901")];
    let picked = select_driver(&cands, "tap0901").unwrap();
    assert_eq!(picked, (0, 4));
}

#[test]
fn no_matching_hardware_id_is_not_found() {
    let cands = vec![
        candidate(3, "othervendor0001"),
        candidate(9, "othervendor0002"),
    ];
    let r = select_driver(&cands, "tap0901");
    assert_eq!(r, Err(TapError::NotFound));
}

#[test]
fn empty_candidate_list_is_not_found() {
    let cands: Vec<DriverCandidate> = Vec::new();
    assert_eq!(select_driver(&cands, "tap0901"), Err(TapError::NotFound));
}

#[test]
fn failed_detail_fetch_is_skipped_not_an_error() {
    let cands = vec![
        DriverCandidate { version: 9, hardware_id: None },
        candidate(2, "tap0901"),
    ];
    let picked = select_driver(&cands, "tap0901").unwrap();
    assert_eq!(picked, (1, 2));
}

#[test]
fn version_zero_is_never_selected() {
    let cands = vec![candidate(0, "tap0901")];
    assert_eq!(select_driver(&cands, "tap0901"), Err(TapError::NotFound));
}

#[test]
fn case_insensitive_equality() {
    assert!(eq_ignore_ascii_case("TAP0901", "tap0901"));
    assert!(eq_ignore_ascii_case("Tap0901", "tAp0901"));
    assert!(!eq_ignore_ascii_case("tap0901", "othervendor0001"));
    assert!(!eq_ignore_ascii_case("tap0901", "tap0902"));
    assert!(eq_ignore_ascii_case("", ""));
    assert!(!eq_ignore_ascii_case("a", ""));
    // the fold applies to ASCII letters only
    assert!(!eq_ignore_ascii_case("[", "{"));
}
