use std::io::{Cursor, Write};

use mapimsg::nameid::{parse_mapping_record, GuidStream};
use mapimsg::props::PValue;
use mapimsg::resolve::{resolve_variable, Resolved};
use mapimsg::{EmailMessage, Error};

type Builder = cfb::CompoundFile<Cursor<Vec<u8>>>;

fn utf16(s: &str) -> Vec<u8> {
    s.encode_utf16().flat_map(|u| u.to_le_bytes()).collect()
}

fn entry16(ptype: u16, pid: u16, value: [u8; 8]) -> Vec<u8> {
    let mut out = Vec::new();
    out.extend_from_slice(&ptype.to_le_bytes());
    out.extend_from_slice(&pid.to_le_bytes());
    out.extend_from_slice(&2u32.to_le_bytes());
    out.extend_from_slice(&value);
    out
}

fn top_props(entries: &[Vec<u8>]) -> Vec<u8> {
    let mut out = vec![0u8; 24];
    out.extend_from_slice(&[0u8; 8]);
    for e in entries {
        out.extend_from_slice(e);
    }
    out
}

fn delivery() -> Vec<u8> {
    let ticks = 11_644_473_600i64 * 10_000_000;
    entry16(0x0040, 0x0E06, ticks.to_le_bytes())
}

fn build(fill: impl FnOnce(&mut Builder)) -> Vec<u8> {
    let mut comp = cfb::CompoundFile::create(Cursor::new(Vec::new())).unwrap();
    fill(&mut comp);
    comp.flush().unwrap();
    comp.into_inner().into_inner()
}

fn put(comp: &mut Builder, path: &str, bytes: &[u8]) {
    let mut s = comp.create_stream(path).unwrap();
    s.write_all(bytes).unwrap();
}

#[test]
fn missing_sender_is_fatal() {
    let buffer = build(|comp| {
        put(comp, "/__substg1.0_0037001F", &utf16("s"));
        put(comp, "/__properties_version1.0", &top_props(&[delivery()]));
    });
    assert_eq!(EmailMessage::parse_bytes(buffer).unwrap_err(), Error::MissingSender);
}

#[test]
fn missing_property_stream_is_fatal() {
    let buffer = build(|comp| {
        put(comp, "/__substg1.0_0037001F", &utf16("s"));
        put(comp, "/__substg1.0_0C1F001F", &utf16("s@x"));
    });
    assert_eq!(
        EmailMessage::parse_bytes(buffer).unwrap_err(),
        Error::MissingProperties
    );
}

#[test]
fn truncated_property_stream_is_fatal() {
    let buffer = build(|comp| {
        put(comp, "/__substg1.0_0037001F", &utf16("s"));
        put(comp, "/__substg1.0_0C1F001F", &utf16("s@x"));
        put(comp, "/__properties_version1.0", &[0u8; 30]);
    });
    assert_eq!(EmailMessage::parse_bytes(buffer).unwrap_err(), Error::ShortInput);
}

#[test]
fn odd_subject_stream_is_fatal() {
    let buffer = build(|comp| {
        put(comp, "/__substg1.0_0037001F", &[0x48, 0x00, 0x65]);
        put(comp, "/__substg1.0_0C1F001F", &utf16("s@x"));
        put(comp, "/__properties_version1.0", &top_props(&[delivery()]));
    });
    assert_eq!(EmailMessage::parse_bytes(buffer).unwrap_err(), Error::OddByteCount);
}

#[test]
fn slot_out_of_range_record_is_rejected() {
    // Property index 0x8000 would push the runtime id past 16 bits.
    let record = [0x00, 0x00, 0x00, 0x80, 0x02, 0x00, 0x00, 0x80];
    let guid_stream = GuidStream::new(Vec::new());
    assert_eq!(
        parse_mapping_record(&guid_stream, record).unwrap_err(),
        Error::SlotOutOfRange
    );
}

#[test]
fn multi_valued_strings_resolve_element_wise() {
    let entry_bytes = entry16(0x101F, 0x3FFA, [2, 0, 0, 0, 0, 0, 0, 0]);
    let buffer = build(|comp| {
        put(comp, "/__substg1.0_0037001F", &utf16("s"));
        put(comp, "/__substg1.0_0C1F001F", &utf16("s@x"));
        put(
            comp,
            "/__properties_version1.0",
            &top_props(&[delivery(), entry_bytes]),
        );
        put(comp, "/__substg1.0_3FFA101F-00000000", &utf16("one"));
        put(comp, "/__substg1.0_3FFA101F-00000001", &utf16("two"));
    });
    let mut comp = mapimsg::cfbio::open_container(buffer).unwrap();
    let top = mapimsg::props::parse_property_stream_top_level(&mut comp, "/").unwrap();
    let entry = top
        .properties
        .iter()
        .find(|e| matches!(e.value, PValue::MultipleString(_)))
        .unwrap();
    match resolve_variable(&mut comp, "/", entry).unwrap() {
        Some(Resolved::TextList(ts)) => assert_eq!(ts, vec!["one", "two"]),
        other => panic!("unexpected resolution: {:?}", other),
    }
}

#[test]
fn multi_valued_property_with_missing_element_is_absent() {
    let entry_bytes = entry16(0x1102, 0x3FFB, [2, 0, 0, 0, 0, 0, 0, 0]);
    let buffer = build(|comp| {
        put(comp, "/__substg1.0_0037001F", &utf16("s"));
        put(comp, "/__substg1.0_0C1F001F", &utf16("s@x"));
        put(
            comp,
            "/__properties_version1.0",
            &top_props(&[delivery(), entry_bytes]),
        );
        // Only element 0 of the two declared is present.
        put(comp, "/__substg1.0_3FFB1102-00000000", &[1, 2, 3]);
    });
    let mut comp = mapimsg::cfbio::open_container(buffer).unwrap();
    let top = mapimsg::props::parse_property_stream_top_level(&mut comp, "/").unwrap();
    let entry = top
        .properties
        .iter()
        .find(|e| matches!(e.value, PValue::MultipleBinary(_)))
        .unwrap();
    assert_eq!(resolve_variable(&mut comp, "/", entry), Ok(None));
}

#[test]
fn fixed_entries_resolve_to_nothing() {
    let buffer = build(|comp| {
        put(comp, "/__substg1.0_0037001F", &utf16("s"));
        put(comp, "/__substg1.0_0C1F001F", &utf16("s@x"));
        put(comp, "/__properties_version1.0", &top_props(&[delivery()]));
    });
    let mut comp = mapimsg::cfbio::open_container(buffer).unwrap();
    let top = mapimsg::props::parse_property_stream_top_level(&mut comp, "/").unwrap();
    let entry = top
        .properties
        .iter()
        .find(|e| matches!(e.value, PValue::Time(_)))
        .unwrap();
    assert_eq!(resolve_variable(&mut comp, "/", entry), Ok(None));
}
