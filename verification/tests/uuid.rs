use nus_bridge::uuid::{
    is_nus_rx, is_nus_service, is_nus_tx, lower, uuid_matches, NUS_RX_UUID, NUS_SERVICE_UUID,
    NUS_TX_UUID,
};

#[test]
fn constants_are_the_nordic_uart_identifiers() {
    assert_eq!(NUS_SERVICE_UUID, "6e400001-b5a3-f393-e0a9-e50e24dcca9e");
    assert_eq!(NUS_RX_UUID, "6e400002-b5a3-f393-e0a9-e50e24dcca9e");
    assert_eq!(NUS_TX_UUID, "6e400003-b5a3-f393-e0a9-e50e24dcca9e");
}

#[test]
fn uuid_matches_itself() {
    assert!(uuid_matches(NUS_SERVICE_UUID, NUS_SERVICE_UUID));
    assert!(is_nus_service("6e400001-b5a3-f393-e0a9-e50e24dcca9e"));
    assert!(is_nus_rx("6e400002-b5a3-f393-e0a9-e50e24dcca9e"));
    assert!(is_nus_tx("6e400003-b5a3-f393-e0a9-e50e24dcca9e"));
}

#[test]
fn uuid_case_is_ignored() {
    assert!(is_nus_service("6E400001-B5A3-F393-E0A9-E50E24DCCA9E"));
    assert!(is_nus_rx("6E400002-b5a3-F393-e0a9-E50E24DCCA9e"));
    assert!(uuid_matches("ABCDEF", "abcdef"));
    assert!(uuid_matches("abcdef", "ABCDEF"));
}

#[test]
fn uuid_match_is_exact() {
    assert!(!is_nus_service("6e400001b5a3f393e0a9e50e24dcca9e"));
    assert!(!is_nus_service("{6e400001-b5a3-f393-e0a9-e50e24dcca9e}"));
    assert!(!is_nus_service("6e400001-b5a3-f393-e0a9-e50e24dcca9"));
    assert!(!is_nus_service("6e400001-b5a3-f393-e0a9-e50e24dcca9e "));
    assert!(!is_nus_service(""));
    assert!(!is_nus_service("6e400001-b5a3-f393-e0a9-e50e24dcca9f"));
}

#[test]
fn the_three_identifiers_do_not_match_one_another() {
    assert!(!is_nus_service(NUS_RX_UUID));
    assert!(!is_nus_service(NUS_TX_UUID));
    assert!(!is_nus_rx(NUS_SERVICE_UUID));
    assert!(!is_nus_rx(NUS_TX_UUID));
    assert!(!is_nus_tx(NUS_SERVICE_UUID));
    assert!(!is_nus_tx(NUS_RX_UUID));
}

#[test]
fn only_ascii_capitals_are_folded() {
    assert_eq!(lower('A'), 'a');
    assert_eq!(lower('Z'), 'z');
    assert_eq!(lower('F'), 'f');
    assert_eq!(lower('a'), 'a');
    assert_eq!(lower('0'), '0');
    assert_eq!(lower('-'), '-');
    assert_eq!(lower('@'), '@');
    assert_eq!(lower('['), '[');
    assert_eq!(lower('\u{c9}'), '\u{c9}');
    assert!(!uuid_matches("\u{c9}", "\u{e9}"));
    assert!(uuid_matches("\u{e9}A", "\u{e9}a"));
}
