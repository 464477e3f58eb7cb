use mapimsg::property_ids::{Pid, Tag};
use mapimsg::props::{
    parse_fixed_length_property_entry, parse_property_stream_header_other,
    parse_property_stream_header_top_level, Flags, PValue,
};
use mapimsg::ptype::PType;
use mapimsg::time::UtcTime;
use mapimsg::Error;

fn entry_bytes(ptype: u16, pid: u16, flags: u32, value: [u8; 8]) -> [u8; 16] {
    let mut out = [0u8; 16];
    out[0..2].copy_from_slice(&ptype.to_le_bytes());
    out[2..4].copy_from_slice(&pid.to_le_bytes());
    out[4..8].copy_from_slice(&flags.to_le_bytes());
    out[8..16].copy_from_slice(&value);
    out
}

#[test]
fn fixed_values_decode_inline() {
    assert_eq!(
        PValue::from_bytes(PType::Integer16, [0xFE, 0xFF, 0, 0, 0, 0, 0, 0]),
        PValue::Integer16(-2)
    );
    assert_eq!(
        PValue::from_bytes(PType::Integer32, [1, 0, 0, 0, 0, 0, 0, 0]),
        PValue::Integer32(1)
    );
    assert_eq!(
        PValue::from_bytes(PType::Integer64, [0xFF; 8]),
        PValue::Integer64(-1)
    );
    assert_eq!(
        PValue::from_bytes(PType::Currency, [0x10, 0x27, 0, 0, 0, 0, 0, 0]),
        PValue::Currency(10000)
    );
    assert_eq!(
        PValue::from_bytes(PType::Boolean, [1, 0, 0, 0, 0, 0, 0, 0]),
        PValue::Boolean(true)
    );
    assert_eq!(
        PValue::from_bytes(PType::Boolean, [0, 0, 0, 0, 0, 0, 0, 0]),
        PValue::Boolean(false)
    );
    assert_eq!(PValue::from_bytes(PType::Null, [7; 8]), PValue::Null);
    assert_eq!(PValue::from_bytes(PType::Object, [7; 8]), PValue::Object);
    assert_eq!(PValue::from_bytes(PType::ErrorCode, [7; 8]), PValue::ErrorCode);
    // Floating-point values keep their bit patterns.
    let bits = 1.5f64.to_bits();
    assert_eq!(
        PValue::from_bytes(PType::Floating64, bits.to_le_bytes()),
        PValue::Floating64(bits)
    );
    let fbits = 0.25f32.to_bits();
    let mut v = [0u8; 8];
    v[0..4].copy_from_slice(&fbits.to_le_bytes());
    assert_eq!(PValue::from_bytes(PType::Floating32, v), PValue::Floating32(fbits));
}

#[test]
fn variable_values_keep_their_size_hint() {
    assert_eq!(
        PValue::from_bytes(PType::String, [0x0A, 0, 0, 0, 0, 0, 0, 0]),
        PValue::String(10)
    );
    assert_eq!(
        PValue::from_bytes(PType::Binary, [7, 0, 0, 0, 0, 0, 0, 0]),
        PValue::Binary(7)
    );
    assert_eq!(
        PValue::from_bytes(PType::MultipleString, [3, 0, 0, 0, 0, 0, 0, 0]),
        PValue::MultipleString(3)
    );
}

#[test]
fn time_values_decode_to_utc() {
    // 2020-10-27T16:00:00Z as a FILETIME.
    let ticks: i64 = (1603814400 + 11_644_473_600) * 10_000_000;
    let v = PValue::from_bytes(PType::Time, ticks.to_le_bytes());
    assert_eq!(v, PValue::Time(UtcTime { seconds: 1603814400, nanoseconds: 0 }));
}

#[test]
fn entry_decoding_combines_type_id_flags_and_value() {
    let bytes = entry_bytes(0x0040, 0x0E06, 0x0006, (132482880000000000i64).to_le_bytes());
    let entry = parse_fixed_length_property_entry(bytes);
    assert_eq!(entry.property_id, Pid::Tag(Tag::MessageDeliveryTime));
    assert_eq!(entry.flags.bits, 6);
    assert!(entry.flags.is_readable());
    assert!(entry.flags.is_writable());
    assert!(!entry.flags.is_mandatory());
    assert_eq!(
        entry.value,
        PValue::Time(UtcTime { seconds: 1603814400, nanoseconds: 0 })
    );
}

#[test]
fn flags_from_bits_accepts_only_defined_bits() {
    assert_eq!(Flags::from_bits(0), Some(Flags { bits: 0 }));
    assert_eq!(Flags::from_bits(7), Some(Flags { bits: 7 }));
    assert_eq!(Flags::from_bits(8), None);
    assert_eq!(Flags::raw(0xFFFF_FFFF).bits, 0xFFFF_FFFF);
}

#[test]
fn top_level_header_layout() {
    let mut data = vec![0u8; 32];
    data[8..12].copy_from_slice(&7u32.to_le_bytes());
    data[12..16].copy_from_slice(&9u32.to_le_bytes());
    data[16..20].copy_from_slice(&2u32.to_le_bytes());
    data[20..24].copy_from_slice(&3u32.to_le_bytes());
    data.extend_from_slice(&entry_bytes(0x000B, 0x7FFE, 2, [1, 0, 0, 0, 0, 0, 0, 0]));
    let top = parse_property_stream_header_top_level(&data).unwrap();
    assert_eq!(top.next_recipient_id, 7);
    assert_eq!(top.next_attachment_id, 9);
    assert_eq!(top.recipient_count, 2);
    assert_eq!(top.attachment_count, 3);
    assert_eq!(top.properties.len(), 1);
    assert_eq!(top.properties[0].value, PValue::Boolean(true));
}

#[test]
fn short_property_streams_are_rejected() {
    assert_eq!(
        parse_property_stream_header_top_level(&[0u8; 31]).unwrap_err(),
        Error::ShortInput
    );
    assert_eq!(
        parse_property_stream_header_top_level(&[0u8; 40]).unwrap_err(),
        Error::ShortInput
    );
    assert_eq!(
        parse_property_stream_header_other(&[0u8; 7]).unwrap_err(),
        Error::ShortInput
    );
    assert_eq!(
        parse_property_stream_header_other(&[0u8; 9]).unwrap_err(),
        Error::ShortInput
    );
    // A bare header with no entries is fine.
    assert_eq!(parse_property_stream_header_other(&[0u8; 8]).unwrap().properties.len(), 0);
}
