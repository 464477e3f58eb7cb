use mapimsg::paths::{
    attachment_storage_name, make_root_path, make_sub_stream_path, make_substg_element_name,
    make_substg_name, recipient_storage_name,
};
use mapimsg::{AttachmentNameIter, RecipientNameIter};

#[test]
fn storage_names_use_eight_hex_digits() {
    assert_eq!(recipient_storage_name(0), "__recip_version1.0_#00000000");
    assert_eq!(recipient_storage_name(1), "__recip_version1.0_#00000001");
    assert_eq!(recipient_storage_name(0xABC), "__recip_version1.0_#00000ABC");
    assert_eq!(attachment_storage_name(0), "__attach_version1.0_#00000000");
    assert_eq!(attachment_storage_name(2047), "__attach_version1.0_#000007FF");
}

#[test]
fn substg_names_combine_id_and_type() {
    assert_eq!(make_substg_name(0x0037, 0x001F), "__substg1.0_0037001F");
    assert_eq!(make_substg_name(0x3701, 0x0102), "__substg1.0_37010102");
    assert_eq!(
        make_substg_element_name(0x8005, 0x101F, 3),
        "__substg1.0_8005101F-00000003"
    );
}

#[test]
fn path_joining_uses_the_reader_separator() {
    assert_eq!(make_root_path("__properties_version1.0"), "/__properties_version1.0");
    assert_eq!(
        make_sub_stream_path("__attach_version1.0_#00000000", "__substg1.0_37010102"),
        "/__attach_version1.0_#00000000/__substg1.0_37010102"
    );
}

#[test]
fn name_iterators_count_up_to_the_cap() {
    let mut it = AttachmentNameIter::new();
    assert_eq!(it.next().unwrap(), "__attach_version1.0_#00000000");
    assert_eq!(it.next().unwrap(), "__attach_version1.0_#00000001");
    let mut it = RecipientNameIter::new();
    let mut last = String::new();
    let mut count = 0u32;
    while let Some(name) = it.next() {
        last = name;
        count += 1;
    }
    assert_eq!(count, 2048);
    assert_eq!(last, "__recip_version1.0_#000007FF");
    assert_eq!(it.next(), None);
}
