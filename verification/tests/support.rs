use crucible::health::{health_port, is_production, readiness_reply, HealthState};
use crucible::string_map::StringMap;
use crucible::text::{i32_to_decimal, join, parse_u16, str_eq_ignore_ascii_case, u64_to_decimal};

#[test]
fn decimal_rendering() {
    assert_eq!(u64_to_decimal(0), "0");
    assert_eq!(u64_to_decimal(9), "9");
    assert_eq!(u64_to_decimal(10), "10");
    assert_eq!(u64_to_decimal(18446744073709551615), "18446744073709551615");
}

#[test]
fn joining() {
    assert_eq!(join(&vec![], " "), "");
    assert_eq!(join(&vec!["a".to_string()], " "), "a");
    assert_eq!(join(&vec!["a".to_string(), "b".to_string(), "c".to_string()], ", "), "a, b, c");
}

#[test]
fn port_parsing_matches_std() {
    for s in ["8081", "+80", "0", "65535", "65536", "", "+", "-1", "80a", " 80", "0065535", "99999999999"] {
        assert_eq!(parse_u16(s), s.parse::<u16>().ok(), "input {s:?}");
    }
}

#[test]
fn health_port_defaults() {
    assert_eq!(health_port(&None), 8081);
    assert_eq!(health_port(&Some("9000".to_string())), 9000);
    assert_eq!(health_port(&Some("not-a-port".to_string())), 8081);
    assert_eq!(health_port(&Some("70000".to_string())), 8081);
}

#[test]
fn production_switch_ignores_case() {
    assert!(is_production("production"));
    assert!(is_production("PRODUCTION"));
    assert!(is_production("Production"));
    assert!(!is_production("prod"));
    assert!(!is_production(""));
    assert!(!is_production("productions"));
    assert!(str_eq_ignore_ascii_case("ÄbC", "Äbc"));
}

#[test]
fn readiness() {
    let r = readiness_reply(true);
    assert_eq!((r.status_code, r.body.as_str()), (200, "ready"));
    let r = readiness_reply(false);
    assert_eq!((r.status_code, r.body.as_str()), (503, "not ready"));
    let state = HealthState::new();
    assert!(!state.is_ready());
    state.set_ready();
    assert!(state.is_ready());
}

#[test]
fn string_map_keeps_keys_sorted_and_unique() {
    let mut m = StringMap::new();
    m.insert("b".to_string(), "2".to_string());
    m.insert("a".to_string(), "1".to_string());
    m.insert("c".to_string(), "3".to_string());
    m.insert("b".to_string(), "20".to_string());
    assert_eq!(m.len(), 3);
    let keys: Vec<&str> = (0..m.len()).map(|i| m.key_at(i).as_str()).collect();
    assert_eq!(keys, vec!["a", "b", "c"]);
    assert_eq!(m.get("b").unwrap(), "20");
    assert!(m.contains_key("c"));
    assert!(!m.contains_key("d"));
    let copy = m.clone();
    assert_eq!(copy.value_at(1), "20");
}

#[test]
fn string_map_from_pairs_later_wins() {
    let m = StringMap::from_pairs(vec![
        ("k".to_string(), "first".to_string()),
        ("ab".to_string(), "x".to_string()),
        ("k".to_string(), "second".to_string()),
        ("a".to_string(), "y".to_string()),
    ]);
    assert_eq!(m.len(), 3);
    assert_eq!(m.get("k").unwrap(), "second");
    let keys: Vec<&str> = (0..m.len()).map(|i| m.key_at(i).as_str()).collect();
    assert_eq!(keys, vec!["a", "ab", "k"]);
}

#[test]
fn signed_decimal_rendering() {
    assert_eq!(i32_to_decimal(0), "0");
    assert_eq!(i32_to_decimal(3), "3");
    assert_eq!(i32_to_decimal(-7), "-7");
    assert_eq!(i32_to_decimal(i32::MIN), "-2147483648");
    assert_eq!(i32_to_decimal(i32::MAX), "2147483647");
}
