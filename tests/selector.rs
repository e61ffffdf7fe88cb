use hr_relay::config::SelectionMode;
use hr_relay::selector::{
    contains_bytes, name_matches, scan_candidates, select_device, Candidates, Observation,
    SelectError,
};

fn seen(name: Option<&str>, rssi: Option<i16>) -> Option<Observation> {
    Some(Observation { name: name.map(|n| n.to_string()), rssi })
}

fn targets() -> Vec<String> {
    vec!["Xiaomi Smart Band 9".to_string(), "HUAWEI".to_string(), "HONOR".to_string()]
}

#[test]
fn unique_name_wins_by_name() {
    let obs = vec![
        seen(Some("Phone"), Some(-30)),
        seen(Some("Band"), Some(-40)),
        seen(Some("HUAWEI WATCH GT"), Some(-90)),
        seen(None, Some(-20)),
    ];
    assert_eq!(select_device(1, &obs, &targets(), SelectionMode::ByName), Ok(2));
}

#[test]
fn first_name_hit_is_kept() {
    let obs = vec![
        seen(Some("Laptop"), Some(-50)),
        seen(Some("HONOR Band 7"), Some(-80)),
        seen(Some("HUAWEI Band"), Some(-40)),
    ];
    let c = scan_candidates(&obs, &targets());
    assert_eq!(c, Candidates { by_name: Some(1), strongest: Some(2) });
}

#[test]
fn strongest_signal_wins() {
    let obs = vec![
        seen(Some("A"), Some(-70)),
        seen(Some("B"), Some(-45)),
        seen(None, None),
        seen(Some("C"), Some(-60)),
    ];
    assert_eq!(select_device(1, &obs, &targets(), SelectionMode::StrongestSignal), Ok(1));
}

#[test]
fn strongest_tie_keeps_first() {
    let obs = vec![
        seen(Some("A"), Some(-70)),
        seen(Some("B"), Some(-50)),
        seen(Some("C"), Some(-50)),
    ];
    assert_eq!(select_device(1, &obs, &targets(), SelectionMode::StrongestSignal), Ok(1));
}

#[test]
fn unreadable_properties_are_skipped() {
    let obs = vec![None, seen(Some("HONOR"), None), None];
    let c = scan_candidates(&obs, &targets());
    assert_eq!(c, Candidates { by_name: Some(1), strongest: None });
}

#[test]
fn chosen_mode_absent_fails() {
    let obs = vec![seen(Some("Phone"), Some(-30))];
    assert_eq!(
        select_device(1, &obs, &targets(), SelectionMode::ByName),
        Err(SelectError::NoDeviceFound)
    );
    let obs = vec![seen(Some("HUAWEI"), None)];
    assert_eq!(
        select_device(1, &obs, &targets(), SelectionMode::StrongestSignal),
        Err(SelectError::NoDeviceFound)
    );
}

#[test]
fn empty_scan_and_no_adapter() {
    let obs: Vec<Option<Observation>> = Vec::new();
    assert_eq!(
        select_device(1, &obs, &targets(), SelectionMode::StrongestSignal),
        Err(SelectError::NoDeviceFound)
    );
    let obs = vec![seen(Some("HUAWEI"), Some(-10))];
    assert_eq!(
        select_device(0, &obs, &targets(), SelectionMode::ByName),
        Err(SelectError::NoAdapter)
    );
}

#[test]
fn name_match_is_case_sensitive_substring() {
    let t = targets();
    assert!(name_matches(&"My HUAWEI Band".to_string(), &t));
    assert!(!name_matches(&"huawei band".to_string(), &t));
    assert!(name_matches(&"Xiaomi Smart Band 9 Pro".to_string(), &t));
    assert!(!name_matches(&"Xiaomi Smart Band".to_string(), &t));
    assert!(!name_matches(&"HUAWEI".to_string(), &Vec::new()));
}

#[test]
fn byte_search() {
    assert!(contains_bytes(b"abcdef", b"cde"));
    assert!(contains_bytes(b"abcdef", b"abcdef"));
    assert!(contains_bytes(b"abcdef", b""));
    assert!(!contains_bytes(b"abcdef", b"abd"));
    assert!(!contains_bytes(b"abc", b"abcd"));
    assert!(contains_bytes(b"aab", b"ab"));
}
