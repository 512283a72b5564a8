use notecard::hal::{DelayMs, I2cBus};
use notecard::resp::{classify_response, is_err_response};
use notecard::{NoteError, Notecard};

#[test]
fn test_card_time_err() {
    let r = br#"{"err":"time is not yet set","zone":"UTC,Unknown"}"#;
    assert!(is_err_response(r));
    match classify_response(r) {
        NoteError::NotecardErr(msg) => assert_eq!(msg, "time is not yet set"),
        other => panic!("expected a device-reported error, got {:?}", other),
    }
}

#[test]
fn test_location_mode_err() {
    let r = br#"{"err":"seconds: field seconds: unmarshal: expected a int32 {io}"}"#;
    assert!(is_err_response(r));
    match classify_response(r) {
        NoteError::NotecardErr(msg) => {
            assert_eq!(msg, "seconds: field seconds: unmarshal: expected a int32 {io}")
        }
        other => panic!("expected a device-reported error, got {:?}", other),
    }
}

#[test]
fn firmware_update_sentinel_classifies_specifically() {
    let r = br#"{"err":"cannot restart now {dfu-in-progress} try later"}"#;
    assert!(is_err_response(r));
    assert!(matches!(classify_response(r), NoteError::DFUInProgress));
}

#[test]
fn sentinel_must_match_exactly() {
    let r = br#"{"err":"no {dfu-in-progress marker here"}"#;
    assert!(matches!(classify_response(r), NoteError::NotecardErr(_)));
}

#[test]
fn escaped_quotes_in_the_message_are_resolved() {
    let r = br#"{"err":"bad name \"axl.qo\" \\ rejected"}"#;
    match classify_response(r) {
        NoteError::NotecardErr(msg) => assert_eq!(msg, "bad name \"axl.qo\" \\ rejected"),
        other => panic!("expected a device-reported error, got {:?}", other),
    }
}

#[test]
fn unreadable_error_payload_becomes_deser_error() {
    // The marker is there but the err value is not a string.
    let r = br#"{"err":42}"#;
    assert!(is_err_response(r));
    match classify_response(r) {
        NoteError::DeserError(text) => assert_eq!(text, r#"{"err":42}"#),
        other => panic!("expected a deserialization error, got {:?}", other),
    }
}

#[test]
fn ordinary_responses_are_not_error_payloads() {
    assert!(!is_err_response(br#"{"minutes":120}"#));
    assert!(!is_err_response(br#"{}"#));
    assert!(!is_err_response(br#""err""#));
}

/// A device that always answers with one scripted response.
struct OneShotBus {
    payload: Vec<u8>,
    stage: usize,
}

impl I2cBus for OneShotBus {
    fn bus_write(&mut self, _addr: u8, _data: &[u8]) -> Result<(), ()> {
        Ok(())
    }

    fn bus_read(&mut self, _addr: u8, n: usize) -> Result<Vec<u8>, ()> {
        let mut v = match self.stage {
            // Handshake: idle.
            0 => vec![0, 0],
            // Availability after the request: the whole payload at once.
            1 => vec![self.payload.len() as u8, 0],
            // The read itself.
            _ => {
                let mut r = vec![0, self.payload.len() as u8];
                r.extend_from_slice(&self.payload);
                r
            }
        };
        self.stage += 1;
        v.resize(n, 0);
        Ok(v)
    }
}

struct NoDelay;

impl DelayMs for NoDelay {
    fn delay_ms(&mut self, _ms: u16) {}
}

#[test]
fn device_errors_surface_through_wait() {
    let bus = OneShotBus { payload: br#"{"err":"time is not yet set","zone":"UTC,Unknown"}"#.to_vec(), stage: 0 };
    let mut note = Notecard::new(bus);
    let mut delay = NoDelay;
    note.initialize(&mut delay).unwrap();
    note.request_raw(&mut delay, b"{\"req\":\"card.time\"}\n").unwrap();
    match note.wait_response_raw(&mut delay) {
        Err(NoteError::NotecardErr(msg)) => assert_eq!(msg, "time is not yet set"),
        other => panic!("expected a device-reported error, got {:?}", other),
    }
}

#[test]
fn good_responses_surface_through_wait() {
    let bus = OneShotBus { payload: br#"{"minutes":120}"#.to_vec(), stage: 0 };
    let mut note = Notecard::new(bus);
    let mut delay = NoDelay;
    note.initialize(&mut delay).unwrap();
    note.request_raw(&mut delay, b"{\"req\":\"card.time\"}\n").unwrap();
    let body = note.wait_response_raw(&mut delay).unwrap();
    assert_eq!(body, br#"{"minutes":120}"#.to_vec());
}
