use nus_bridge::downlink::{drain, receive, DownlinkEvent, Notification};
use nus_bridge::error::SessionError;

fn payload(bytes: &[u8]) -> Notification {
    Notification::Payload(bytes.to_vec())
}

#[test]
fn valid_payload_is_reported_as_text() {
    assert_eq!(receive(payload(b"hello")), DownlinkEvent::Text("hello".to_string()));
    assert_eq!(receive(payload(b"")), DownlinkEvent::Text(String::new()));
}

#[test]
fn multibyte_payload_is_decoded() {
    assert_eq!(
        receive(payload(&[0xe2, 0x82, 0xac, 0x20, 0xc3, 0xa9, 0xf0, 0x9f, 0x98, 0x80])),
        DownlinkEvent::Text("\u{20ac} \u{e9}\u{1f600}".to_string())
    );
}

#[test]
fn invalid_payload_is_a_warning() {
    let warning = DownlinkEvent::Warning(SessionError::NotifyDecodeError);
    assert_eq!(receive(payload(&[0xff])), warning);
    assert_eq!(receive(payload(&[0x68, 0x69, 0x80])), warning);
    assert_eq!(receive(payload(&[0xc3])), warning);
    assert_eq!(receive(payload(&[0xc0, 0xaf])), warning);
    assert_eq!(receive(payload(&[0xed, 0xa0, 0x80])), warning);
    assert_eq!(receive(payload(&[0xf4, 0x90, 0x80, 0x80])), warning);
}

#[test]
fn undelivered_item_is_skipped() {
    assert_eq!(receive(Notification::Failed), DownlinkEvent::Skipped);
}

#[test]
fn mixed_stream_gives_one_event_per_item() {
    let items = vec![
        payload(b"one"),
        payload(&[0xff, 0xfe]),
        payload(b"two"),
        payload(&[0x80]),
        payload(&[0xc3, 0x28]),
        payload(b"three"),
    ];
    let events = drain(items);
    assert_eq!(
        events,
        vec![
            DownlinkEvent::Text("one".to_string()),
            DownlinkEvent::Warning(SessionError::NotifyDecodeError),
            DownlinkEvent::Text("two".to_string()),
            DownlinkEvent::Warning(SessionError::NotifyDecodeError),
            DownlinkEvent::Warning(SessionError::NotifyDecodeError),
            DownlinkEvent::Text("three".to_string()),
        ]
    );
    let reports = events.iter().filter(|e| matches!(e, DownlinkEvent::Text(_))).count();
    let warnings = events.iter().filter(|e| matches!(e, DownlinkEvent::Warning(_))).count();
    assert_eq!(reports, 3);
    assert_eq!(warnings, 3);
}

#[test]
fn invalid_first_item_does_not_end_the_stream() {
    let events = drain(vec![payload(&[0xff]), payload(b"still here")]);
    assert_eq!(events.len(), 2);
    assert_eq!(events[1], DownlinkEvent::Text("still here".to_string()));
}

#[test]
fn stream_with_transport_errors_is_drained_to_its_end() {
    let events = drain(vec![Notification::Failed, payload(b"a"), Notification::Failed]);
    assert_eq!(
        events,
        vec![DownlinkEvent::Skipped, DownlinkEvent::Text("a".to_string()), DownlinkEvent::Skipped]
    );
}

#[test]
fn empty_stream_gives_no_event() {
    assert_eq!(drain(Vec::new()), Vec::new());
}

#[test]
fn event_lines() {
    assert_eq!(receive(payload(b"pong")).line(), Some("Read: pong".to_string()));
    assert_eq!(
        receive(payload(&[0xff])).line(),
        Some("notification is not valid UTF-8".to_string())
    );
    assert_eq!(receive(Notification::Failed).line(), None);
}
