use mvg::models::TransportType;
use mvg::text::{contains_str, i64_to_decimal, u64_to_decimal};

#[test]
fn transport_type_labels() {
    assert_eq!(TransportType::Bahn.label(), "Bahn");
    assert_eq!(TransportType::Sbahn.label(), "S-Bahn");
    assert_eq!(TransportType::Ubahn.label(), "U-Bahn");
    assert_eq!(TransportType::Tram.label(), "Tram");
    assert_eq!(TransportType::Bus.label(), "Bus");
    assert_eq!(TransportType::RegionalBus.label(), "Regionalbus");
    assert_eq!(TransportType::Sev.label(), "SEV");
    assert_eq!(TransportType::Schiff.label(), "Schiff");
}

#[test]
fn transport_type_icons() {
    assert_eq!(TransportType::Bahn.icon(), "mdi:train");
    assert_eq!(TransportType::Sbahn.icon(), "mdi:subway-variant");
    assert_eq!(TransportType::Ubahn.icon(), "mdi:subway");
    assert_eq!(TransportType::Tram.icon(), "mdi:tram");
    assert_eq!(TransportType::Bus.icon(), "mdi:bus");
    assert_eq!(TransportType::RegionalBus.icon(), "mdi:bus");
    assert_eq!(TransportType::Sev.icon(), "mdi:bus");
    assert_eq!(TransportType::Schiff.icon(), "mdi:bus");
}

#[test]
fn transport_type_api_codes() {
    assert_eq!(TransportType::Bahn.api_code(), "BAHN");
    assert_eq!(TransportType::Sbahn.api_code(), "SBAHN");
    assert_eq!(TransportType::Ubahn.api_code(), "UBAHN");
    assert_eq!(TransportType::Tram.api_code(), "TRAM");
    assert_eq!(TransportType::Bus.api_code(), "BUS");
    assert_eq!(TransportType::RegionalBus.api_code(), "REGIONALBUS");
    assert_eq!(TransportType::Sev.api_code(), "SEV");
    assert_eq!(TransportType::Schiff.api_code(), "SCHIFF");
}

#[test]
fn decimal_rendering_matches_to_string() {
    for n in [0u64, 1, 9, 10, 42, 100, 1234567890, u64::MAX] {
        assert_eq!(u64_to_decimal(n), n.to_string());
    }
    for n in [0i64, 5, -1, -10, 30, -123456, i64::MAX, i64::MIN] {
        assert_eq!(i64_to_decimal(n), n.to_string());
    }
}

#[test]
fn substring_search() {
    assert!(contains_str("marienplatz", "platz"));
    assert!(contains_str("marienplatz", "marienplatz"));
    assert!(contains_str("marienplatz", ""));
    assert!(contains_str("", ""));
    assert!(!contains_str("marienplatz", "platzl"));
    assert!(!contains_str("", "a"));
    assert!(contains_str("münchen hbf", "n h"));
    assert!(!contains_str("abc", "abcd"));
}
