use notecard::card::req::{DFUName, DFU};
use notecard::card::Transport;
use notecard::dfu::req::{StatusName, Version};
use notecard::dfu::res::StatusMode;
use notecard::hub::req::{HubLog, HubMode, HubSet, HubSync};
use notecard::ntn::req::Gps;

#[test]
fn test_dfu_name() {
    assert_eq!(DFUName::parse_token(br#""esp32""#), Some(DFUName::Esp32));
    assert_eq!(DFUName::parse_token(br#""stm32""#), Some(DFUName::Stm32));
    assert_eq!(DFUName::parse_token(br#""stm32-bi""#), Some(DFUName::Stm32Bi));
    assert_eq!(DFUName::parse_token(br#""mcuboot""#), Some(DFUName::McuBoot));
    assert_eq!(DFUName::parse_token(br#""-""#), Some(DFUName::Reset));
    assert_eq!(DFUName::parse_token(br#""riscv""#), None);
}

#[test]
fn test_dfu_req() {
    // Test basic request
    let req = DFU::new(None, None, None);
    assert_eq!(req.to_json(), br#"{"req":"card.dfu"}"#.to_vec());

    // Test name & on request
    let req = DFU::new(Some(DFUName::Esp32), Some(true), None);
    assert_eq!(req.to_json(), br#"{"req":"card.dfu","name":"esp32","on":true}"#.to_vec());

    // Test off request
    let req = DFU::new(None, Some(false), None);
    assert_eq!(req.to_json(), br#"{"req":"card.dfu","off":true}"#.to_vec());

    // Test stop request
    let req = DFU::new(None, None, Some(true));
    assert_eq!(req.to_json(), br#"{"req":"card.dfu","stop":true}"#.to_vec());

    // Test start request
    let req = DFU::new(None, None, Some(false));
    assert_eq!(req.to_json(), br#"{"req":"card.dfu","start":true}"#.to_vec());
}

#[test]
fn test_status_name() {
    assert_eq!(StatusName::Card.to_json(), br#""card""#.to_vec());
    assert_eq!(StatusName::User.to_json(), br#""user""#.to_vec());
}

#[test]
fn test_status_req() {
    // Test basic request
    let req = notecard::dfu::req::Status::new(None, None, None, None, None, None, None);
    assert_eq!(req.to_json(), br#"{"req":"dfu.status"}"#.to_vec());

    // Test a bunch of fields set
    let ver = Version {
        org: Some("Organization"),
        product: Some("Product"),
        description: Some("Firmware Description"),
        firmware: Some("Firmware Name"),
        version: "Firmware Version 1.0.0",
        ver_major: 1,
        ver_minor: 0,
        ver_patch: 0,
        ver_build: Some(12345),
        built: Some("Some Sunny Day In December"),
        builder: Some("The Compnay"),
    };
    let ver_bytes = ver.to_json();
    let ver_str = std::str::from_utf8(&ver_bytes).unwrap();
    let req = notecard::dfu::req::Status::new(
        Some(StatusName::User),
        Some(true),
        Some("test status"),
        Some(ver_str),
        Some("usb:1;high:1;normal:1;low:0;dead:0"),
        Some(true),
        Some("test error"),
    );
    assert_eq!(
        std::str::from_utf8(&req.to_json()).unwrap(),
        r#"{"req":"dfu.status","name":"user","stop":true,"status":"test status","version":"{\"org\":\"Organization\",\"product\":\"Product\",\"description\":\"Firmware Description\",\"firmware\":\"Firmware Name\",\"version\":\"Firmware Version 1.0.0\",\"ver_major\":1,\"ver_minor\":0,\"ver_patch\":0,\"ver_build\":12345,\"built\":\"Some Sunny Day In December\",\"builder\":\"The Compnay\"}","vvalue":"usb:1;high:1;normal:1;low:0;dead:0","on":true,"err":"test error"}"#
    );

    // Test off set
    let req = notecard::dfu::req::Status::new(None, None, None, None, None, Some(false), None);
    assert_eq!(req.to_json(), br#"{"req":"dfu.status","off":true}"#.to_vec());
}

#[test]
fn test_status_mode() {
    assert_eq!(StatusMode::parse_token(br#""downloading""#), Some(StatusMode::Downloading));
    assert_eq!(StatusMode::parse_token(br#""error""#), Some(StatusMode::Error));
    assert_eq!(StatusMode::parse_token(br#""idle""#), Some(StatusMode::Idle));
    assert_eq!(StatusMode::parse_token(br#""ready""#), Some(StatusMode::Ready));
    assert_eq!(StatusMode::parse_token(br#""paused""#), None);
}

#[test]
pub fn test_empty() {
    assert!(notecard::hub::res::Empty::parse(br#"{}"#).is_some());
    assert!(notecard::hub::res::Empty::parse(br#"{"x":1}"#).is_none());
}

#[test]
pub fn hub_set_some() {
    let hb = HubSet {
        req: "hub.set",
        product: Some("testprod"),
        host: Some("testhost"),
        mode: Some(HubMode::Periodic),
        sn: None,
        outbound: None,
        duration: None,
        voutbound: None,
        inbound: None,
        vinbound: None,
        align: None,
        sync: None,
    };
    assert_eq!(
        std::str::from_utf8(&hb.to_json()).unwrap(),
        r#"{"req":"hub.set","product":"testprod","host":"testhost","mode":"periodic"}"#
    );
}

#[test]
fn hub_set_product_is_null_when_unset() {
    let hb = HubSet {
        req: "hub.set",
        product: None,
        host: None,
        mode: None,
        sn: None,
        outbound: Some(60),
        duration: None,
        voutbound: None,
        inbound: Some(240),
        vinbound: None,
        align: Some(true),
        sync: None,
    };
    assert_eq!(
        std::str::from_utf8(&hb.to_json()).unwrap(),
        r#"{"req":"hub.set","product":null,"outbound":60,"inbound":240,"align":true}"#
    );
}

#[test]
fn hub_sync_carries_allow_only_when_set() {
    let s = HubSync { req: "hub.sync", allow: Some(true) };
    assert_eq!(s.to_json(), br#"{"req":"hub.sync","allow":true}"#.to_vec());
    let s = HubSync { req: "hub.sync", allow: None };
    assert_eq!(s.to_json(), br#"{"req":"hub.sync"}"#.to_vec());
}

#[test]
fn hub_log_escapes_its_text() {
    let l = HubLog { req: "hub.log", text: "level \"low\"\nbattery \\ 3%", alert: true, sync: false };
    assert_eq!(
        std::str::from_utf8(&l.to_json()).unwrap(),
        r#"{"req":"hub.log","text":"level \"low\"\nbattery \\ 3%","alert":true,"sync":false}"#
    );
}

#[test]
fn control_characters_get_unicode_escapes() {
    let l = HubLog { req: "hub.log", text: "a\u{1}b\u{1f}c", alert: false, sync: false };
    assert_eq!(
        std::str::from_utf8(&l.to_json()).unwrap(),
        r#"{"req":"hub.log","text":"a\u0001b\u001fc","alert":false,"sync":false}"#
    );
}

#[test]
fn dfu_get_formats_numbers_in_decimal() {
    let g = notecard::dfu::req::Get { req: "dfu.get", length: 4096, offset: Some(0) };
    assert_eq!(g.to_json(), br#"{"req":"dfu.get","length":4096,"offset":0}"#.to_vec());
    let g = notecard::dfu::req::Get { req: "dfu.get", length: 0, offset: None };
    assert_eq!(g.to_json(), br#"{"req":"dfu.get","length":0}"#.to_vec());
}

#[test]
fn version_omits_unset_leading_members() {
    let ver = Version {
        org: None,
        product: None,
        description: None,
        firmware: None,
        version: "1.2.3",
        ver_major: 1,
        ver_minor: 2,
        ver_patch: 3,
        ver_build: None,
        built: None,
        builder: None,
    };
    assert_eq!(
        std::str::from_utf8(&ver.to_json()).unwrap(),
        r#"{"version":"1.2.3","ver_major":1,"ver_minor":2,"ver_patch":3}"#
    );
}

#[test]
fn location_track_maps_start_to_stop() {
    let t = notecard::card::req::LocationTrack {
        req: "card.location.track",
        start: None,
        heartbeat: Some(true),
        sync: None,
        stop: Some(true),
        hours: Some(-3),
        file: Some("track.qo"),
    };
    assert_eq!(
        std::str::from_utf8(&t.to_json()).unwrap(),
        r#"{"req":"card.location.track","heartbeat":true,"stop":true,"hours":-3,"file":"track.qo"}"#
    );
}

#[test]
fn transport_method_names() {
    assert_eq!(Transport::Reset.str(), "-");
    assert_eq!(Transport::WifiCell.str(), "wifi-cell");
    assert_eq!(Transport::Wifi.str(), "wifi");
    assert_eq!(Transport::Cell.str(), "cell");
    assert_eq!(Transport::NTN.str(), "ntn");
    assert_eq!(Transport::WifiNTN.str(), "wifi-ntn");
    assert_eq!(Transport::CellNTN.str(), "cell-ntn");
    assert_eq!(Transport::WifiCellNTN.str(), "wifi-cell-ntn");
}

#[test]
fn ntn_gps_request_shapes() {
    let g = Gps { req: "ntn.gps", on: Some(true), off: Some(false) };
    assert_eq!(g.to_json(), br#"{"req":"ntn.gps","on":true,"off":false}"#.to_vec());
    let g = Gps { req: "ntn.gps", on: None, off: None };
    assert_eq!(g.to_json(), br#"{"req":"ntn.gps"}"#.to_vec());
}

#[test]
fn note_add_embeds_a_raw_body() {
    let a = notecard::note::req::Add {
        req: "note.add",
        file: Some("axl.qo"),
        note: Some("?"),
        body: Some(br#"{"temp":23}"#),
        payload: Some("QUJD"),
        sync: Some(false),
        key: None,
        verify: None,
    };
    assert_eq!(
        std::str::from_utf8(&a.to_json()).unwrap(),
        r#"{"req":"note.add","file":"axl.qo","note":"?","body":{"temp":23},"payload":"QUJD","sync":false}"#
    );
}

#[test]
fn web_post_request_shape() {
    let p = notecard::web::req::Post {
        req: "web.post",
        route: "sensors",
        name: Some("/data"),
        body: Some(br#"{"v":1}"#),
        payload: None,
        content: Some("application/json"),
        seconds: Some(90),
        max: None,
        verify: Some(true),
        nasync: Some(true),
    };
    assert_eq!(
        std::str::from_utf8(&p.to_json()).unwrap(),
        r#"{"req":"web.post","route":"sensors","name":"/data","body":{"v":1},"content":"application/json","seconds":90,"verify":true,"async":true}"#
    );
}

#[test]
fn decimal_rendering_covers_extremes() {
    let g = notecard::dfu::req::Get { req: "dfu.get", length: usize::MAX, offset: None };
    let expected = format!(r#"{{"req":"dfu.get","length":{}}}"#, usize::MAX);
    assert_eq!(std::str::from_utf8(&g.to_json()).unwrap(), expected);

    let t = notecard::card::req::LocationTrack {
        req: "card.location.track",
        start: None,
        heartbeat: None,
        sync: None,
        stop: None,
        hours: Some(i32::MIN),
        file: None,
    };
    let expected = format!(r#"{{"req":"card.location.track","hours":{}}}"#, i32::MIN);
    assert_eq!(std::str::from_utf8(&t.to_json()).unwrap(), expected);
}
