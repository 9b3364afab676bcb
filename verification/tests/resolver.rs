use nus_bridge::error::SessionError;
use nus_bridge::resolver::{
    first_uuid_match, resolve, select_characteristics, select_service, CharacteristicPair,
    DiscoveredService, ResolvedProfile,
};

const SERVICE: &str = "6e400001-b5a3-f393-e0a9-e50e24dcca9e";
const RX: &str = "6e400002-b5a3-f393-e0a9-e50e24dcca9e";
const TX: &str = "6e400003-b5a3-f393-e0a9-e50e24dcca9e";
const BATTERY: &str = "0000180f-0000-1000-8000-00805f9b34fb";
const LEVEL: &str = "00002a19-0000-1000-8000-00805f9b34fb";

fn strings(items: &[&str]) -> Vec<String> {
    items.iter().map(|s| s.to_string()).collect()
}

fn service(uuid: &str, characteristics: &[&str]) -> DiscoveredService {
    DiscoveredService { uuid: uuid.to_string(), characteristics: strings(characteristics) }
}

#[test]
fn resolves_a_matching_profile() {
    let profile = vec![service(BATTERY, &[LEVEL]), service(SERVICE, &[RX, TX])];
    assert_eq!(resolve(&profile), Ok(ResolvedProfile { service: 1, rx: 0, tx: 1 }));
}

#[test]
fn characteristics_are_told_apart_whatever_their_order() {
    let profile = vec![service(SERVICE, &[LEVEL, TX, RX])];
    assert_eq!(resolve(&profile), Ok(ResolvedProfile { service: 0, rx: 2, tx: 1 }));
    assert_eq!(
        select_characteristics(&strings(&[TX, RX])),
        Ok(CharacteristicPair { rx: 1, tx: 0 })
    );
}

#[test]
fn resolves_identifiers_written_in_capitals() {
    let profile = vec![service(
        "6E400001-B5A3-F393-E0A9-E50E24DCCA9E",
        &["6E400002-B5A3-F393-E0A9-E50E24DCCA9E", "6E400003-B5A3-F393-E0A9-E50E24DCCA9E"],
    )];
    assert_eq!(resolve(&profile), Ok(ResolvedProfile { service: 0, rx: 0, tx: 1 }));
}

#[test]
fn first_of_duplicate_services_wins() {
    let profile = vec![service(SERVICE, &[RX, TX, RX, TX]), service(SERVICE, &[TX, RX])];
    assert_eq!(resolve(&profile), Ok(ResolvedProfile { service: 0, rx: 0, tx: 1 }));
}

#[test]
fn missing_service_is_unsupported() {
    let profile = vec![service(BATTERY, &[RX, TX])];
    assert_eq!(resolve(&profile), Err(SessionError::ProfileUnsupported));
    assert_eq!(resolve(&Vec::new()), Err(SessionError::ProfileUnsupported));
    assert_eq!(select_service(&strings(&[BATTERY])), Err(SessionError::ProfileUnsupported));
}

#[test]
fn missing_write_target_is_unsupported() {
    let profile = vec![service(SERVICE, &[TX, LEVEL])];
    assert_eq!(resolve(&profile), Err(SessionError::ProfileUnsupported));
    assert_eq!(select_characteristics(&strings(&[TX])), Err(SessionError::ProfileUnsupported));
}

#[test]
fn missing_notify_source_is_unsupported() {
    let profile = vec![service(SERVICE, &[RX, LEVEL])];
    assert_eq!(resolve(&profile), Err(SessionError::ProfileUnsupported));
    assert_eq!(select_characteristics(&strings(&[RX])), Err(SessionError::ProfileUnsupported));
    assert_eq!(select_characteristics(&Vec::new()), Err(SessionError::ProfileUnsupported));
}

#[test]
fn a_later_service_does_not_complete_the_first() {
    let profile = vec![service(SERVICE, &[RX]), service(SERVICE, &[RX, TX])];
    assert_eq!(resolve(&profile), Err(SessionError::ProfileUnsupported));
}

#[test]
fn select_service_picks_the_first_match() {
    assert_eq!(select_service(&strings(&[BATTERY, SERVICE, SERVICE])), Ok(1));
    assert_eq!(first_uuid_match(&strings(&[BATTERY, SERVICE, BATTERY]), BATTERY), Some(0));
    assert_eq!(first_uuid_match(&strings(&[BATTERY, SERVICE]), LEVEL), None);
}

#[test]
fn write_target_and_notify_source_are_never_the_same() {
    let pair = select_characteristics(&strings(&[RX, TX])).unwrap();
    assert_ne!(pair.rx, pair.tx);
    let pair = select_characteristics(&strings(&[TX, TX, RX, RX])).unwrap();
    assert_eq!(pair, CharacteristicPair { rx: 2, tx: 0 });
}
