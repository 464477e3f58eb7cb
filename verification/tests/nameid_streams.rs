use mapimsg::nameid::{
    derive_stream_id, derive_stream_name, parse_entry, parse_kind_index, parse_mapping_record,
    parse_properties, EntryStream, GuidIndex, GuidStream, PropertyKind, PropertyMapping,
    PropertyMappingIdentifier, StringStream,
};
use mapimsg::property_sets::PropertySet;
use mapimsg::Error;

const PSETID_ADDRESS_ON_DISK: [u8; 16] = [
    0x04, 0x20, 0x06, 0x00, 0x00, 0x00, 0x00, 0x00, 0xC0, 0x00, 0x00, 0x00, 0x00, 0x00, 0x00,
    0x46,
];

#[test]
fn guid_index_encoding() {
    assert_eq!(GuidIndex::new(1), GuidIndex::PsMapi);
    assert_eq!(GuidIndex::new(2), GuidIndex::PublicStrings);
    assert_eq!(GuidIndex::new(3), GuidIndex::StreamIndex(0));
    assert_eq!(GuidIndex::new(7), GuidIndex::StreamIndex(4));
    assert_eq!(GuidIndex::PsMapi.as_num(), 1);
    assert_eq!(GuidIndex::PublicStrings.as_num(), 2);
    assert_eq!(GuidIndex::StreamIndex(0).as_num(), 3);
}

#[test]
fn kind_index_decoding() {
    // Low bit is the kind; the rest of the low word, shifted, is the GUID
    // index; the high word is the property index.
    let (idx, gi, kind) = parse_kind_index([0x06, 0x00, 0x05, 0x00]).unwrap();
    assert_eq!(idx, 5);
    assert_eq!(gi, GuidIndex::StreamIndex(0));
    assert_eq!(kind, PropertyKind::Numerical);
    let (idx, gi, kind) = parse_kind_index([0x07, 0x00, 0x02, 0x00]).unwrap();
    assert_eq!(idx, 2);
    assert_eq!(gi, GuidIndex::StreamIndex(0));
    assert_eq!(kind, PropertyKind::String);
    // A zero GUID-index field is invalid.
    assert_eq!(
        parse_kind_index([0x00, 0x00, 0x01, 0x00]).unwrap_err(),
        Error::InvalidGuidIndex
    );
}

#[test]
fn bucket_ids_stay_in_range() {
    for id in [0u32, 1, 0xFFFF, 0xDEAD] {
        for g in [1u16, 2, 3, 40] {
            for k in [0u32, 1] {
                let sid = derive_stream_id(id, g, k);
                assert!((0x1000..0x101F).contains(&sid));
                let name = derive_stream_name(sid);
                assert_eq!(name.len(), 20);
                assert!(name.starts_with("__substg1.0_1"));
                assert!(name.ends_with("0102"));
                assert_eq!(name, format!("__substg1.0_{:X}", ((sid as u32) << 16) | 0x102));
            }
        }
    }
}

#[test]
fn numeric_entry_record_decodes() {
    // LID 0x80000000, GUID slot 0, numerical kind, property index 5.
    let record = [0x00, 0x00, 0x00, 0x80, 0x06, 0x00, 0x05, 0x00];
    let guid_stream = GuidStream::new(PSETID_ADDRESS_ON_DISK.to_vec());
    let string_stream = StringStream::new(Vec::new());
    let entry = parse_entry(&string_stream, &guid_stream, record).unwrap();
    assert_eq!(entry.property_set, PropertySet::Address);
    assert_eq!(entry.property_index, 5);
    assert_eq!(entry.property_kind, PropertyKind::Numerical);
    // The bucket id hashes the low 16 bits of the LID with the shifted
    // GUID index: (0x0000 ^ 0b110) % 0x1F = 6.
    assert_eq!(entry.stream_name, "__substg1.0_10060102");

    let (mapping, sid) = parse_mapping_record(&guid_stream, record).unwrap();
    assert_eq!(
        mapping,
        PropertyMapping {
            property_set: PropertySet::Address,
            property_name: PropertyMappingIdentifier::Number(0x80000000),
            property_id: 0x8005,
        }
    );
    assert_eq!(sid, 0x1006);
}

#[test]
fn string_entry_record_uses_crc32() {
    // Offset 0 into the string stream, GUID slot 0, string kind.
    let record = [0x00, 0x00, 0x00, 0x00, 0x07, 0x00, 0x02, 0x00];
    let guid_stream = GuidStream::new(PSETID_ADDRESS_ON_DISK.to_vec());
    // One string entry at offset 0: length 4, then "AB" as UTF-16LE.
    let string_stream = StringStream::new(vec![4, 0, 0, 0, 0x41, 0x00, 0x42, 0x00]);
    let entry = parse_entry(&string_stream, &guid_stream, record).unwrap();
    assert_eq!(entry.property_kind, PropertyKind::String);
    let checksum = crc::Crc::<u32>::new(&crc::CRC_32_ISO_HDLC).checksum(&record[0..4]);
    let expected_sid = 0x1000 + ((checksum ^ ((3u32 << 1) | 1)) % 0x1F) as u16;
    assert_eq!(
        entry.stream_name,
        format!("__substg1.0_{:X}", ((expected_sid as u32) << 16) | 0x102)
    );
    // A record whose name offset lies outside the string stream fails.
    let bad = [0xFF, 0x00, 0x00, 0x00, 0x07, 0x00, 0x02, 0x00];
    assert_eq!(
        parse_entry(&string_stream, &guid_stream, bad).unwrap_err(),
        Error::ShortInput
    );
}

#[test]
fn entry_stream_parses_record_by_record() {
    let mut data = Vec::new();
    data.extend_from_slice(&[0x00, 0x00, 0x00, 0x80, 0x06, 0x00, 0x00, 0x00]);
    data.extend_from_slice(&[0x01, 0x00, 0x00, 0x80, 0x06, 0x00, 0x01, 0x00]);
    let guid_stream = GuidStream::new(PSETID_ADDRESS_ON_DISK.to_vec());
    let string_stream = StringStream::new(Vec::new());
    let entries = parse_properties(&string_stream, &guid_stream, &data).unwrap();
    assert_eq!(entries.len(), 2);
    assert_eq!(entries[0].property_index, 0);
    assert_eq!(entries[1].property_index, 1);
    // A stream that is not a multiple of eight bytes is truncated input.
    assert_eq!(
        parse_properties(&string_stream, &guid_stream, &data[0..12]).unwrap_err(),
        Error::ShortInput
    );
}

#[test]
fn entry_stream_get_bytes_is_bounds_checked() {
    let es = EntryStream::new(vec![1, 2, 3, 4, 5, 6, 7, 8]);
    assert_eq!(es.get_bytes(0), Some(vec![1, 2, 3, 4, 5, 6, 7, 8]));
    assert_eq!(es.get_bytes(1), None);
}

#[test]
fn string_stream_reads_length_prefixed_entries() {
    // Entry at offset 0: length 4, "AB"; aligned, next entry at 8:
    // length 2, "C".
    let ss = StringStream::new(vec![
        4, 0, 0, 0, 0x41, 0x00, 0x42, 0x00, 2, 0, 0, 0, 0x43, 0x00,
    ]);
    assert_eq!(ss.get(0).unwrap(), "AB");
    assert_eq!(ss.get(8).unwrap(), "C");
    assert_eq!(ss.get_bytes(0).unwrap(), vec![0x41, 0x00, 0x42, 0x00]);
    assert_eq!(ss.get(100).unwrap_err(), Error::ShortInput);
}

#[test]
fn string_stream_walk_stops_cleanly_on_truncation() {
    // The second entry declares more bytes than remain: the walk ends
    // without an error, keeping the first entry.
    let ss = StringStream::new(vec![
        4, 0, 0, 0, 0x41, 0x00, 0x42, 0x00, 100, 0, 0, 0, 0x43, 0x00,
    ]);
    let entries = ss.entries();
    assert_eq!(entries, vec![vec![0x41, 0x00, 0x42, 0x00]]);
    // An empty stream has no entries.
    assert_eq!(StringStream::new(Vec::new()).entries(), Vec::<Vec<u8>>::new());
}
