use notecard::chunk::build_frames;
use notecard::hal::{DelayMs, I2cBus};
use notecard::{NoteError, Notecard};

/// A bus that accepts everything and reports an idle device.
struct SinkBus {
    writes: Vec<Vec<u8>>,
}

impl I2cBus for SinkBus {
    fn bus_write(&mut self, _addr: u8, data: &[u8]) -> Result<(), ()> {
        self.writes.push(data.to_vec());
        Ok(())
    }

    fn bus_read(&mut self, _addr: u8, n: usize) -> Result<Vec<u8>, ()> {
        Ok(vec![0u8; n])
    }
}

struct NoDelay;

impl DelayMs for NoDelay {
    fn delay_ms(&mut self, _ms: u16) {}
}

fn sent_request(note: Notecard<SinkBus>) -> Vec<u8> {
    let (bus, _) = note.suspend();
    let mut sent = Vec::new();
    for c in &bus.writes {
        if c.len() >= 2 && c[0] as usize == c.len() - 1 {
            sent.extend_from_slice(&c[1..]);
        }
    }
    sent
}

fn fresh() -> Notecard<SinkBus> {
    let mut note = Notecard::new(SinkBus { writes: Vec::new() });
    note.initialize(&mut NoDelay).unwrap();
    note
}

#[test]
fn build_frames_splits_and_prefixes() {
    let data: Vec<u8> = (0u8..70).collect();
    let frames = build_frames(&data);
    assert_eq!(frames.len(), 3);
    assert_eq!(frames[0][0], 30);
    assert_eq!(frames[1][0], 30);
    assert_eq!(frames[2][0], 10);
    let mut cat = Vec::new();
    for f in &frames {
        cat.extend_from_slice(&f[1..]);
    }
    assert_eq!(cat, data);
}

#[test]
fn build_frames_single_chunk() {
    let data = b"abc".to_vec();
    let frames = build_frames(&data);
    assert_eq!(frames.len(), 1);
    assert_eq!(frames[0], vec![3, b'a', b'b', b'c']);
}

#[test]
fn card_time_sends_its_literal_command() {
    let mut note = fresh();
    notecard::card::time(&mut note, &mut NoDelay).unwrap();
    assert_eq!(sent_request(note), b"{\"req\":\"card.time\"}\n".to_vec());
}

#[test]
fn hub_set_sends_the_serialized_request() {
    let mut note = fresh();
    notecard::hub::set(
        &mut note,
        &mut NoDelay,
        Some("testprod"),
        Some("testhost"),
        Some(notecard::hub::req::HubMode::Periodic),
        None,
        None,
        None,
        None,
        None,
        None,
        None,
        None,
    )
    .unwrap();
    assert_eq!(
        sent_request(note),
        b"{\"req\":\"hub.set\",\"product\":\"testprod\",\"host\":\"testhost\",\"mode\":\"periodic\"}\n"
            .to_vec()
    );
}

#[test]
fn hub_sync_request_reflects_allow() {
    let mut note = fresh();
    notecard::hub::sync(&mut note, &mut NoDelay, true).unwrap();
    assert_eq!(sent_request(note), b"{\"req\":\"hub.sync\",\"allow\":true}\n".to_vec());
}

#[test]
fn card_dfu_builder_applies_the_exclusive_pairs() {
    let mut note = fresh();
    notecard::card::dfu(&mut note, &mut NoDelay, None, Some(false), Some(false)).unwrap();
    assert_eq!(
        sent_request(note),
        b"{\"req\":\"card.dfu\",\"off\":true,\"start\":true}\n".to_vec()
    );
}

#[test]
fn card_transport_builder_uses_the_method_name() {
    let mut note = fresh();
    notecard::card::transport(
        &mut note,
        &mut NoDelay,
        notecard::card::Transport::WifiCell,
        Some(true),
        None,
    )
    .unwrap();
    assert_eq!(
        sent_request(note),
        b"{\"req\":\"card.transport\",\"method\":\"wifi-cell\",\"allow\":true}\n".to_vec()
    );
}

#[test]
fn note_template_rejects_ports_out_of_range() {
    let mut note = fresh();
    let r = notecard::note::template(
        &mut note,
        &mut NoDelay,
        Some("data.qo"),
        None,
        None,
        notecard::note::TemplateFormat::Compact,
        Some(101),
        None,
    );
    assert!(matches!(r, Err(NoteError::InvalidRequest)));
    let r = notecard::note::template(
        &mut note,
        &mut NoDelay,
        Some("data.qo"),
        None,
        None,
        notecard::note::TemplateFormat::Compact,
        Some(0),
        None,
    );
    assert!(matches!(r, Err(NoteError::InvalidRequest)));
}

#[test]
fn note_template_sends_format_and_port() {
    let mut note = fresh();
    notecard::note::template(
        &mut note,
        &mut NoDelay,
        Some("data.qo"),
        Some(br#"{"temp":14.1}"#),
        None,
        notecard::note::TemplateFormat::Compact,
        Some(12),
        None,
    )
    .unwrap();
    assert_eq!(
        sent_request(note),
        b"{\"req\":\"note.template\",\"file\":\"data.qo\",\"body\":{\"temp\":14.1},\"format\":\"compact\",\"port\":12}\n".to_vec()
    );
}

#[test]
fn note_delete_sends_identifiers() {
    let mut note = fresh();
    notecard::note::delete(&mut note, &mut NoDelay, "data.db", "reading-7").unwrap();
    assert_eq!(
        sent_request(note),
        b"{\"req\":\"note.delete\",\"file\":\"data.db\",\"note\":\"reading-7\",\"verify\":false}\n"
            .to_vec()
    );
}

#[test]
fn ntn_gps_builder_maps_the_source() {
    let mut note = fresh();
    notecard::ntn::gps(&mut note, &mut NoDelay, Some(notecard::ntn::NtnSetGps::Notecard)).unwrap();
    assert_eq!(
        sent_request(note),
        b"{\"req\":\"ntn.gps\",\"on\":true,\"off\":false}\n".to_vec()
    );
}

#[test]
fn card_wireless_builder_sends_options() {
    let mut note = fresh();
    notecard::card::wireless(&mut note, &mut NoDelay, Some("auto"), None, None, Some(24)).unwrap();
    assert_eq!(
        sent_request(note),
        b"{\"req\":\"card.wireless\",\"mode\":\"auto\",\"hours\":24}\n".to_vec()
    );
}
