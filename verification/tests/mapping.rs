use std::io::{Cursor, Write};

use mapimsg::nameid::{
    parse_named_property_mapping, parse_property_mappings, PropertyMapping,
    PropertyMappingIdentifier,
};
use mapimsg::property_sets::PropertySet;
use mapimsg::Warning;

const PSETID_ADDRESS_DISK: [u8; 16] = [
    0x04, 0x20, 0x06, 0x00, 0x00, 0x00, 0x00, 0x00, 0xC0, 0x00, 0x00, 0x00, 0x00, 0x00, 0x00,
    0x46,
];

// LID 0x80000000, GUID slot 0, numerical kind, property index 5; it
// hashes to bucket stream id 0x1006.
const RECORD: [u8; 8] = [0x00, 0x00, 0x00, 0x80, 0x06, 0x00, 0x05, 0x00];

fn nameid_container(bucket_name: &str) -> Vec<u8> {
    let mut comp = cfb::CompoundFile::create(Cursor::new(Vec::new())).unwrap();
    comp.create_storage("/__nameid_version1.0").unwrap();
    let mut gs = comp
        .create_stream("/__nameid_version1.0/__substg1.0_00020102")
        .unwrap();
    gs.write_all(&PSETID_ADDRESS_DISK).unwrap();
    drop(gs);
    comp.create_stream("/__nameid_version1.0/__substg1.0_00040102")
        .unwrap();
    let mut es = comp
        .create_stream("/__nameid_version1.0/__substg1.0_00030102")
        .unwrap();
    es.write_all(&RECORD).unwrap();
    drop(es);
    let mut bucket = comp
        .create_stream(&format!("/__nameid_version1.0/{bucket_name}"))
        .unwrap();
    bucket.write_all(&RECORD).unwrap();
    drop(bucket);
    comp.flush().unwrap();
    comp.into_inner().into_inner()
}

#[test]
fn mapping_walk_decodes_bucketed_records() {
    let buffer = nameid_container("__substg1.0_10060102");
    let mut comp = mapimsg::cfbio::open_container(buffer).unwrap();
    let named = parse_named_property_mapping(&mut comp).unwrap();
    assert_eq!(named.guid_stream.buffer, PSETID_ADDRESS_DISK.to_vec());
    assert_eq!(named.entry_stream.buffer, RECORD.to_vec());
    let (mappings, warnings) = parse_property_mappings(&named, &mut comp);
    assert_eq!(
        mappings,
        vec![PropertyMapping {
            property_set: PropertySet::Address,
            property_name: PropertyMappingIdentifier::Number(0x80000000),
            property_id: 0x8005,
        }]
    );
    assert!(warnings.is_empty());
}

#[test]
fn record_in_wrong_bucket_yields_checksum_warning() {
    // The record hashes to bucket 0x1006 but sits in bucket 0x1007.
    let buffer = nameid_container("__substg1.0_10070102");
    let mut comp = mapimsg::cfbio::open_container(buffer).unwrap();
    let named = parse_named_property_mapping(&mut comp).unwrap();
    let (mappings, warnings) = parse_property_mappings(&named, &mut comp);
    assert_eq!(mappings.len(), 1);
    assert_eq!(
        warnings,
        vec![Warning::MappingChecksum(String::from("__substg1.0_10070102"))]
    );
}

#[test]
fn missing_nameid_stream_is_fatal() {
    let mut comp = cfb::CompoundFile::create(Cursor::new(Vec::new())).unwrap();
    comp.create_storage("/__nameid_version1.0").unwrap();
    comp.flush().unwrap();
    let buffer = comp.into_inner().into_inner();
    let mut comp = mapimsg::cfbio::open_container(buffer).unwrap();
    assert_eq!(
        parse_named_property_mapping(&mut comp).unwrap_err(),
        mapimsg::Error::MissingStorage
    );
}
