use nus_bridge::error::{Handling, SessionError};

const ALL: [SessionError; 9] = [
    SessionError::AdapterUnavailable,
    SessionError::ScanFailed,
    SessionError::NoMatchingDevice,
    SessionError::ConnectFailed,
    SessionError::DiscoveryFailed,
    SessionError::ProfileUnsupported,
    SessionError::WriteFailed,
    SessionError::NotifyDecodeError,
    SessionError::DisconnectFailed,
];

#[test]
fn setup_errors_end_the_session() {
    assert_eq!(SessionError::AdapterUnavailable.handling(), Handling::EndSession);
    assert_eq!(SessionError::ScanFailed.handling(), Handling::EndSession);
    assert_eq!(SessionError::NoMatchingDevice.handling(), Handling::EndSession);
    assert_eq!(SessionError::ConnectFailed.handling(), Handling::EndSession);
    assert_eq!(SessionError::DiscoveryFailed.handling(), Handling::EndSession);
    assert_eq!(SessionError::ProfileUnsupported.handling(), Handling::EndSession);
}

#[test]
fn steady_state_errors_are_recovered() {
    assert_eq!(SessionError::WriteFailed.handling(), Handling::Recover);
    assert_eq!(SessionError::NotifyDecodeError.handling(), Handling::Recover);
}

#[test]
fn disconnect_failure_is_only_logged() {
    assert_eq!(SessionError::DisconnectFailed.handling(), Handling::LogOnly);
}

#[test]
fn codes_are_exact() {
    assert_eq!(SessionError::NoMatchingDevice.code(), -1);
    assert_eq!(SessionError::AdapterUnavailable.code(), 1);
    assert_eq!(SessionError::ScanFailed.code(), 2);
    assert_eq!(SessionError::ConnectFailed.code(), 3);
    assert_eq!(SessionError::DiscoveryFailed.code(), 4);
    assert_eq!(SessionError::ProfileUnsupported.code(), 5);
    assert_eq!(SessionError::WriteFailed.code(), 6);
    assert_eq!(SessionError::NotifyDecodeError.code(), 7);
    assert_eq!(SessionError::DisconnectFailed.code(), 8);
}

#[test]
fn codes_are_non_zero_and_distinct() {
    for (i, a) in ALL.iter().enumerate() {
        assert_ne!(a.code(), 0);
        for b in ALL.iter().skip(i + 1) {
            assert_ne!(a.code(), b.code());
        }
    }
}

#[test]
fn messages_are_exact() {
    assert_eq!(SessionError::AdapterUnavailable.message(), "Bluetooth adapter unavailable");
    assert_eq!(SessionError::ScanFailed.message(), "scan failed");
    assert_eq!(SessionError::NoMatchingDevice.message(), "No device found!");
    assert_eq!(SessionError::ConnectFailed.message(), "connection failed");
    assert_eq!(SessionError::DiscoveryFailed.message(), "discovery failed");
    assert_eq!(SessionError::ProfileUnsupported.message(), "profile not supported");
    assert_eq!(SessionError::WriteFailed.message(), "write failed");
    assert_eq!(SessionError::NotifyDecodeError.message(), "notification is not valid UTF-8");
    assert_eq!(SessionError::DisconnectFailed.message(), "disconnect failed");
}
