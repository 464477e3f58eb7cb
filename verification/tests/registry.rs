use mapimsg::guid::{parse_guid, Guid};
use mapimsg::property_ids::{Pid, Tag};
use mapimsg::property_sets::PropertySet;
use mapimsg::ptype::PType;

const ALL_PTYPES: [(PType, u16); 32] = [
    (PType::Integer16, 0x0002),
    (PType::Integer32, 0x0003),
    (PType::Floating32, 0x0004),
    (PType::Floating64, 0x0005),
    (PType::Currency, 0x0006),
    (PType::FloatingTime, 0x0007),
    (PType::ErrorCode, 0x000A),
    (PType::Boolean, 0x000B),
    (PType::Integer64, 0x0014),
    (PType::String, 0x001F),
    (PType::String8, 0x001E),
    (PType::Time, 0x0040),
    (PType::Guid, 0x0048),
    (PType::ServerId, 0x00FB),
    (PType::Restriction, 0x00FD),
    (PType::RuleAction, 0x00FE),
    (PType::Binary, 0x0102),
    (PType::MultipleInteger16, 0x1002),
    (PType::MultipleInteger32, 0x1003),
    (PType::MultipleFloating32, 0x1004),
    (PType::MultipleFloating64, 0x1005),
    (PType::MultipleCurrency, 0x1006),
    (PType::MultipleFloatingTime, 0x1007),
    (PType::MultipleInteger64, 0x1014),
    (PType::MultipleString, 0x101F),
    (PType::MultipleString8, 0x101E),
    (PType::MultipleTime, 0x1040),
    (PType::MultipleGuid, 0x1048),
    (PType::MultipleBinary, 0x1102),
    (PType::Unspecified, 0x0000),
    (PType::Null, 0x0001),
    (PType::Object, 0x000D),
];

#[test]
fn ptype_codes_are_a_bijection() {
    for &(t, code) in ALL_PTYPES.iter() {
        assert_eq!(t.to_bits(), code);
        assert_eq!(PType::from_bits(code), t);
        assert_eq!(PType::from_bits(t.to_bits()), t);
        assert_eq!(PType::from_bits(code).to_bits(), code);
    }
}

#[test]
fn unknown_ptype_degrades_to_null() {
    assert_eq!(PType::from_bits(0x0F0F), PType::Null);
    assert_eq!(PType::from_bits(0xFFFF), PType::Null);
}

#[test]
fn pid_decoding_partitions_the_space() {
    assert_eq!(Pid::from_u16(0x0E06), Pid::Tag(Tag::MessageDeliveryTime));
    assert_eq!(Pid::from_u16(0x0C1F), Pid::Tag(Tag::SenderEmailAddress));
    assert_eq!(Pid::from_u16(0x3001), Pid::Tag(Tag::DisplayName));
    assert_eq!(Pid::from_u16(0x7FFE), Pid::Tag(Tag::AttachmentHidden));
    assert_eq!(Pid::from_u16(0x8005), Pid::Named(0x8005));
    assert_eq!(Pid::from_u16(0x1234), Pid::Other(0x1234));
    for n in [0x0037u16, 0x0039, 0x0C1F, 0x0E06, 0x3001, 0x3003, 0x39FE, 0x3701, 0x3707, 0x7FFE]
    {
        assert_eq!(Pid::from_u16(n).to_u16(), Some(n));
    }
    assert_eq!(Pid::from_u16(0x9000).to_u16(), Some(0x9000));
}

fn all_catalogue_sets() -> Vec<PropertySet> {
    vec![
        PropertySet::PublicStrings,
        PropertySet::Common,
        PropertySet::Address,
        PropertySet::Headers,
        PropertySet::Appointment,
        PropertySet::Meeting,
        PropertySet::Log,
        PropertySet::Messaging,
        PropertySet::Note,
        PropertySet::PostRss,
        PropertySet::Task,
        PropertySet::UnifiedMessaging,
        PropertySet::PsMapi,
        PropertySet::AirSync,
        PropertySet::Sharing,
        PropertySet::XmlExtrEntities,
        PropertySet::Attachment,
        PropertySet::CalendarAssistant,
    ]
}

#[test]
fn property_set_guids_round_trip() {
    let sets = all_catalogue_sets();
    assert_eq!(sets.len(), 18);
    for s in sets {
        assert_eq!(PropertySet::from_uuid(s.to_uuid()), s);
    }
    let other = Guid(0x1234_5678_9ABC_DEF0_1234_5678_9ABC_DEF0);
    assert_eq!(PropertySet::from_uuid(other), PropertySet::Other(other));
    assert_eq!(PropertySet::Other(other).to_uuid(), other);
}

#[test]
fn property_set_guids_match_uuid_crate() {
    // The canonical value equals what the uuid crate builds from the
    // big-endian byte layout.
    let ps_mapi = uuid::Uuid::from_bytes([
        0x00, 0x02, 0x03, 0x28, 0x00, 0x00, 0x00, 0x00, 0xC0, 0x00, 0x00, 0x00, 0x00, 0x00,
        0x00, 0x46,
    ]);
    assert_eq!(PropertySet::PsMapi.to_uuid().0, ps_mapi.as_u128());
    let meeting = uuid::Uuid::from_bytes([
        0x6E, 0xD8, 0xDA, 0x90, 0x45, 0x0B, 0x10, 0x1B, 0x98, 0xDA, 0x00, 0xAA, 0x00, 0x3F,
        0x13, 0x05,
    ]);
    assert_eq!(PropertySet::Meeting.to_uuid().0, meeting.as_u128());
}

#[test]
fn property_set_names() {
    assert_eq!(PropertySet::PsMapi.to_string(), "PS_MAPI");
    assert_eq!(PropertySet::PublicStrings.to_string(), "PS_PUBLIC_STRINGS");
    assert_eq!(PropertySet::Address.to_string(), "PSETID_Address");
    assert_eq!(PropertySet::Headers.to_string(), "PS_INTERNET_HEADERS");
    assert_eq!(
        PropertySet::XmlExtrEntities.to_string(),
        "PSETID_XmlExtractedEntities"
    );
    assert_eq!(
        PropertySet::CalendarAssistant.to_string(),
        "PSETID_CalendarAssistant"
    );
}

#[test]
fn parse_guid_reorders_mixed_endian_fields() {
    // PSETID_Address in on-disk order: three little-endian fields, then
    // big-endian bytes.
    let on_disk = [
        0x04, 0x20, 0x06, 0x00, 0x00, 0x00, 0x00, 0x00, 0xC0, 0x00, 0x00, 0x00, 0x00, 0x00,
        0x00, 0x46,
    ];
    let g = parse_guid(&on_disk).unwrap();
    assert_eq!(g, PropertySet::Address.to_uuid());
    assert_eq!(PropertySet::from_uuid(g), PropertySet::Address);
    // The same value the uuid crate computes from the canonical order.
    let expected = uuid::Uuid::from_bytes([
        0x00, 0x06, 0x20, 0x04, 0x00, 0x00, 0x00, 0x00, 0xC0, 0x00, 0x00, 0x00, 0x00, 0x00,
        0x00, 0x46,
    ]);
    assert_eq!(g.0, expected.as_u128());
}

#[test]
fn parse_guid_needs_sixteen_bytes() {
    assert_eq!(parse_guid(&[0u8; 15]), Err(mapimsg::Error::ShortInput));
}
