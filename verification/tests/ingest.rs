use std::collections::HashMap;
use std::time::SystemTime;

use chrono::{DateTime, Utc};
use tilt_ingest::color::TiltColor;
use tilt_ingest::ingest::{on_event, on_event_at, Event, TILT_MFG_ID};
use tilt_ingest::reading::{Reading, Timestamp};

const AT: Timestamp = Timestamp { secs: 1_700_000_000, nanos: 0 };

fn payload(code: u8, temp: [u8; 2], gravity: [u8; 2]) -> Vec<u8> {
    let mut bytes: Vec<u8> = vec![0x02, 0x15, 0xA4, 0x95, 0xBB, code];
    bytes.extend_from_slice(&[
        0xC5, 0xB1, 0x4B, 0x44, 0xB5, 0x12, 0x13, 0x70, 0xF0, 0x2D, 0x74, 0xDE,
    ]);
    bytes.extend_from_slice(&temp);
    bytes.extend_from_slice(&gravity);
    bytes.push(0xC5);
    bytes
}

fn advertisement(entries: Vec<(u16, Vec<u8>)>) -> Event {
    let mut data: HashMap<u16, Vec<u8>> = HashMap::new();
    for (id, bytes) in entries {
        data.insert(id, bytes);
    }
    Event::ManufacturerData(data)
}

#[test]
fn the_company_identifier_is_apples() {
    assert_eq!(TILT_MFG_ID, 0x4C);
    assert_eq!(TILT_MFG_ID, 76);
}

#[test]
fn tilt_advertisement_gives_a_reading() {
    let event: Event = advertisement(vec![(0x4C, payload(0x20, [0x00, 0x46], [0x04, 0x1A]))]);
    assert_eq!(
        on_event_at(&event, AT),
        Some(Reading { time: AT, color: TiltColor::Green, temp: 70, sg_milli: 1050 })
    );
}

#[test]
fn other_event_kinds_give_nothing() {
    assert_eq!(on_event_at(&Event::Other, AT), None);
    assert_eq!(on_event(&Event::Other), None);
}

#[test]
fn advertisement_without_the_identifier_gives_nothing() {
    assert_eq!(on_event_at(&advertisement(vec![]), AT), None);
    // A Tilt payload under another company identifier is not looked at.
    let event: Event = advertisement(vec![(0x004D, payload(0x20, [0x00, 0x46], [0x04, 0x1A]))]);
    assert_eq!(on_event_at(&event, AT), None);
    let event: Event = advertisement(vec![(0x4C00, payload(0x20, [0x00, 0x46], [0x04, 0x1A]))]);
    assert_eq!(on_event_at(&event, AT), None);
}

#[test]
fn only_the_payload_under_the_identifier_counts() {
    let event: Event = advertisement(vec![
        (0x0006, vec![0x01, 0x09, 0x20, 0x02]),
        (0x4C, payload(0x80, [0x00, 0x40], [0x03, 0xE9])),
        (0x00E0, payload(0x10, [0x00, 0x01], [0x00, 0x02])),
    ]);
    assert_eq!(
        on_event_at(&event, AT),
        Some(Reading { time: AT, color: TiltColor::Pink, temp: 64, sg_milli: 1001 })
    );
}

#[test]
fn payloads_that_are_no_tilt_give_nothing() {
    // Other traffic under the same company identifier.
    let event: Event = advertisement(vec![(0x4C, vec![0x10, 0x05, 0x0B, 0x1C, 0x6F, 0x4E, 0x02])]);
    assert_eq!(on_event_at(&event, AT), None);
    // A Tilt payload cut short.
    let cut: Vec<u8> = payload(0x10, [0x00, 0x45], [0x03, 0xE8])[..18].to_vec();
    assert_eq!(on_event_at(&advertisement(vec![(0x4C, cut)]), AT), None);
    // An empty payload.
    assert_eq!(on_event_at(&advertisement(vec![(0x4C, vec![])]), AT), None);
    // A colour that does not exist.
    let event: Event = advertisement(vec![(0x4C, payload(0x00, [0x00, 0x45], [0x03, 0xE8]))]);
    assert_eq!(on_event_at(&event, AT), None);
}

#[test]
fn the_clock_stamps_the_reading() {
    let event: Event = advertisement(vec![(0x4C, payload(0x50, [0x00, 0x45], [0x03, 0xE8]))]);
    let before: i64 = DateTime::<Utc>::from(SystemTime::now()).timestamp();
    let reading: Reading = on_event(&event).unwrap();
    let after: i64 = DateTime::<Utc>::from(SystemTime::now()).timestamp();
    assert!(before <= reading.time.secs, "{before} <= {}", reading.time.secs);
    assert!(reading.time.secs <= after, "{} <= {after}", reading.time.secs);
    assert!(reading.time.nanos < 1_000_000_000);
    assert!(reading.time.unix_nanos().is_some());
    assert_eq!(on_event_at(&event, reading.time), Some(reading));
    assert_eq!(reading.color, TiltColor::Orange);
    assert_eq!(reading.temp, 69);
    assert_eq!(reading.sg_milli, 1000);
}

#[test]
fn the_clock_decides_nothing_but_the_time() {
    let hit: Event = advertisement(vec![(0x4C, payload(0x50, [0x00, 0x45], [0x03, 0xE8]))]);
    let miss: Event = advertisement(vec![(0x4C, payload(0x51, [0x00, 0x45], [0x03, 0xE8]))]);
    let first: Reading = on_event(&hit).unwrap();
    let second: Reading = on_event(&hit).unwrap();
    assert!(first.same_measurement(second));
    assert!(first.same_measurement(on_event_at(&hit, AT).unwrap()));
    assert_eq!(on_event(&miss), None);
    assert_eq!(on_event_at(&miss, AT), None);
}

#[test]
fn the_stamp_is_an_instant_that_chrono_gives_back() {
    let event: Event = advertisement(vec![(0x4C, payload(0x10, [0x00, 0x45], [0x03, 0xE8]))]);
    let reading: Reading = on_event(&event).unwrap();
    let instant: DateTime<Utc> =
        DateTime::from_timestamp(reading.time.secs, reading.time.nanos).unwrap();
    assert_eq!(instant.timestamp(), reading.time.secs);
    assert_eq!(instant.timestamp_subsec_nanos(), reading.time.nanos);
    let shown: DateTime<Utc> = DateTime::<Utc>::from(SystemTime::now());
    assert!(instant <= shown);
    assert!((shown - instant).num_seconds() < 60);
}
