use std::io::{Cursor, Write};

use mapimsg::props::PValue;
use mapimsg::resolve::{resolve_variable, Resolved};
use mapimsg::time::UtcTime;
use mapimsg::{EmailMessage, Error};

type Builder = cfb::CompoundFile<Cursor<Vec<u8>>>;

fn utf16le(s: &str) -> Vec<u8> {
    let mut out = Vec::new();
    for u in s.encode_utf16() {
        out.extend_from_slice(&u.to_le_bytes());
    }
    out
}

fn prop_entry(ptype: u16, pid: u16, flags: u32, value: [u8; 8]) -> Vec<u8> {
    let mut out = Vec::new();
    out.extend_from_slice(&ptype.to_le_bytes());
    out.extend_from_slice(&pid.to_le_bytes());
    out.extend_from_slice(&flags.to_le_bytes());
    out.extend_from_slice(&value);
    out
}

fn top_stream(recipients: u32, attachments: u32, entries: &[Vec<u8>]) -> Vec<u8> {
    let mut out = vec![0u8; 8];
    out.extend_from_slice(&1u32.to_le_bytes());
    out.extend_from_slice(&1u32.to_le_bytes());
    out.extend_from_slice(&recipients.to_le_bytes());
    out.extend_from_slice(&attachments.to_le_bytes());
    out.extend_from_slice(&[0u8; 8]);
    for e in entries {
        out.extend_from_slice(e);
    }
    out
}

fn delivery_entry(unix_seconds: i64) -> Vec<u8> {
    let ticks = (unix_seconds + 11_644_473_600) * 10_000_000;
    prop_entry(0x0040, 0x0E06, 2, ticks.to_le_bytes())
}

fn write_stream(comp: &mut Builder, path: &str, bytes: &[u8]) {
    let mut s = comp.create_stream(path).unwrap();
    s.write_all(bytes).unwrap();
}

fn build_container(fill: impl FnOnce(&mut Builder)) -> Vec<u8> {
    let mut comp = cfb::CompoundFile::create(Cursor::new(Vec::new())).unwrap();
    fill(&mut comp);
    comp.flush().unwrap();
    comp.into_inner().into_inner()
}

fn minimal_message(comp: &mut Builder, recipients: u32, attachments: u32, extra: &[Vec<u8>]) {
    write_stream(comp, "/__substg1.0_0037001F", &utf16le("Hello"));
    write_stream(comp, "/__substg1.0_0C1F001F", &utf16le("sender@example.com"));
    let mut entries = vec![delivery_entry(1603814400)];
    entries.extend_from_slice(extra);
    write_stream(
        comp,
        "/__properties_version1.0",
        &top_stream(recipients, attachments, &entries),
    );
}

#[test]
fn empty_message_parses() {
    let buffer = build_container(|comp| minimal_message(comp, 0, 0, &[]));
    let msg = EmailMessage::parse_bytes(buffer).unwrap();
    assert_eq!(msg.subject, "Hello");
    assert_eq!(msg.sender, "sender@example.com");
    assert_eq!(msg.delivery_time, UtcTime { seconds: 1603814400, nanoseconds: 0 });
    assert_eq!(msg.recipients.len(), 0);
    assert_eq!(msg.attachments.len(), 0);
}

#[test]
fn delivery_time_comes_from_the_property_stream() {
    let buffer = build_container(|comp| minimal_message(comp, 0, 0, &[]));
    let msg = EmailMessage::parse_bytes(buffer).unwrap();
    let dt = chrono::DateTime::from_timestamp(
        msg.delivery_time.seconds,
        msg.delivery_time.nanoseconds,
    )
    .unwrap();
    assert_eq!(dt.to_rfc3339(), "2020-10-27T16:00:00+00:00");
}

#[test]
fn recipients_keep_storage_order() {
    let buffer = build_container(|comp| {
        minimal_message(comp, 2, 0, &[]);
        comp.create_storage("/__recip_version1.0_#00000000").unwrap();
        write_stream(
            comp,
            "/__recip_version1.0_#00000000/__substg1.0_39FE001F",
            &utf16le("a@x"),
        );
        comp.create_storage("/__recip_version1.0_#00000001").unwrap();
        write_stream(
            comp,
            "/__recip_version1.0_#00000001/__substg1.0_39FE001F",
            &utf16le("b@y"),
        );
    });
    let msg = EmailMessage::parse_bytes(buffer).unwrap();
    assert_eq!(msg.recipients.len(), 2);
    assert_eq!(msg.recipients[0].cfb_name, "__recip_version1.0_#00000000");
    assert_eq!(msg.recipients[0].address, "a@x");
    assert_eq!(msg.recipients[1].cfb_name, "__recip_version1.0_#00000001");
    assert_eq!(msg.recipients[1].address, "b@y");
}

#[test]
fn recipient_address_falls_back_to_display_name() {
    let buffer = build_container(|comp| {
        minimal_message(comp, 1, 0, &[]);
        comp.create_storage("/__recip_version1.0_#00000000").unwrap();
        write_stream(
            comp,
            "/__recip_version1.0_#00000000/__substg1.0_3003001F",
            &utf16le("display@x"),
        );
    });
    let msg = EmailMessage::parse_bytes(buffer).unwrap();
    assert_eq!(msg.recipients[0].address, "display@x");
}

#[test]
fn hidden_attachment_with_payload() {
    let buffer = build_container(|comp| {
        minimal_message(comp, 0, 1, &[]);
        comp.create_storage("/__attach_version1.0_#00000000").unwrap();
        let mut props = vec![0u8; 8];
        props.extend_from_slice(&prop_entry(0x000B, 0x7FFE, 2, [1, 0, 0, 0, 0, 0, 0, 0]));
        write_stream(
            comp,
            "/__attach_version1.0_#00000000/__properties_version1.0",
            &props,
        );
        write_stream(
            comp,
            "/__attach_version1.0_#00000000/__substg1.0_3707001F",
            &utf16le("file.bin"),
        );
        write_stream(
            comp,
            "/__attach_version1.0_#00000000/__substg1.0_37010102",
            &[1, 2, 3, 4, 5, 6, 7],
        );
    });
    let msg = EmailMessage::parse_bytes(buffer).unwrap();
    assert_eq!(msg.attachments.len(), 1);
    let a = &msg.attachments[0];
    assert_eq!(a.cfb_name, "__attach_version1.0_#00000000");
    assert_eq!(a.name, "file.bin");
    assert!(a.hidden);
    assert_eq!(a.data.as_ref().unwrap().bytes, vec![1, 2, 3, 4, 5, 6, 7]);
    assert!(msg.is_attached("file.bin"));
    assert!(!msg.is_attached("other.bin"));
}

#[test]
fn attachment_without_payload_has_no_data() {
    let buffer = build_container(|comp| {
        minimal_message(comp, 0, 1, &[]);
        comp.create_storage("/__attach_version1.0_#00000000").unwrap();
        write_stream(
            comp,
            "/__attach_version1.0_#00000000/__substg1.0_3707001F",
            &utf16le("empty.txt"),
        );
    });
    let msg = EmailMessage::parse_bytes(buffer).unwrap();
    let a = &msg.attachments[0];
    assert_eq!(a.name, "empty.txt");
    assert!(a.data.is_none());
    assert!(!a.hidden);
}

#[test]
fn attachment_name_falls_back_to_display_name() {
    let buffer = build_container(|comp| {
        minimal_message(comp, 0, 1, &[]);
        comp.create_storage("/__attach_version1.0_#00000000").unwrap();
        write_stream(
            comp,
            "/__attach_version1.0_#00000000/__substg1.0_3001001F",
            &utf16le("display.txt"),
        );
    });
    let msg = EmailMessage::parse_bytes(buffer).unwrap();
    assert_eq!(msg.attachments[0].name, "display.txt");
}

#[test]
fn unresolvable_substream_is_tolerated() {
    // A variable-length property whose sub-stream cannot be opened stays
    // unmaterialised; the parse itself continues.
    let extra = prop_entry(0x001F, 0x3FFA, 2, [8, 0, 0, 0, 0, 0, 0, 0]);
    let buffer = build_container(|comp| minimal_message(comp, 0, 0, &[extra]));
    let msg = EmailMessage::parse_bytes(buffer.clone()).unwrap();
    assert_eq!(msg.subject, "Hello");

    let mut comp = mapimsg::cfbio::open_container(buffer).unwrap();
    let top = mapimsg::props::parse_property_stream_top_level(&mut comp, "/").unwrap();
    let entry = top
        .properties
        .iter()
        .find(|e| matches!(e.value, PValue::String(_)))
        .unwrap();
    assert_eq!(resolve_variable(&mut comp, "/", entry), Ok(None));
}

#[test]
fn resolver_materialises_present_streams() {
    let extra = prop_entry(0x001F, 0x3FFA, 2, [8, 0, 0, 0, 0, 0, 0, 0]);
    let buffer = build_container(|comp| {
        minimal_message(comp, 0, 0, &[extra]);
        write_stream(comp, "/__substg1.0_3FFA001F", &utf16le("body"));
    });
    let mut comp = mapimsg::cfbio::open_container(buffer).unwrap();
    let top = mapimsg::props::parse_property_stream_top_level(&mut comp, "/").unwrap();
    let entry = top
        .properties
        .iter()
        .find(|e| matches!(e.value, PValue::String(_)))
        .unwrap();
    match resolve_variable(&mut comp, "/", entry).unwrap() {
        Some(Resolved::Text(t)) => assert_eq!(t, "body"),
        other => panic!("unexpected resolution: {:?}", other),
    }
}

#[test]
fn missing_subject_is_fatal() {
    let buffer = build_container(|comp| {
        write_stream(comp, "/__substg1.0_0C1F001F", &utf16le("s@x"));
        write_stream(
            comp,
            "/__properties_version1.0",
            &top_stream(0, 0, &[delivery_entry(0)]),
        );
    });
    assert_eq!(EmailMessage::parse_bytes(buffer).unwrap_err(), Error::MissingSubject);
}

#[test]
fn missing_delivery_time_is_fatal() {
    let buffer = build_container(|comp| {
        write_stream(comp, "/__substg1.0_0037001F", &utf16le("s"));
        write_stream(comp, "/__substg1.0_0C1F001F", &utf16le("s@x"));
        write_stream(comp, "/__properties_version1.0", &top_stream(0, 0, &[]));
    });
    assert_eq!(
        EmailMessage::parse_bytes(buffer).unwrap_err(),
        Error::MissingDeliveryTime
    );
}

#[test]
fn header_count_mismatch_is_fatal() {
    let buffer = build_container(|comp| minimal_message(comp, 1, 0, &[]));
    assert_eq!(EmailMessage::parse_bytes(buffer).unwrap_err(), Error::CountMismatch);
}

#[test]
fn garbage_bytes_are_not_a_container() {
    assert_eq!(
        EmailMessage::parse_bytes(vec![0u8; 100]).unwrap_err(),
        Error::InvalidContainer
    );
}
