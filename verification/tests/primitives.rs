use mapimsg::bytes::{
    hex_upper, read, read_i16_le, read_i32_le, read_i64_le, read_le_u16, read_u16_le, read_u32_le,
    read_u64_le, sub_bytes,
};
use mapimsg::Error;

#[test]
fn le_readers_decode_known_values() {
    assert_eq!(read_u16_le(&[0x34, 0x12]), Ok(0x1234));
    assert_eq!(read_u32_le(&[0x78, 0x56, 0x34, 0x12]), Ok(0x12345678));
    assert_eq!(
        read_u64_le(&[0xEF, 0xCD, 0xAB, 0x89, 0x67, 0x45, 0x23, 0x01]),
        Ok(0x0123456789ABCDEF)
    );
    assert_eq!(read_i16_le(&[0xFF, 0xFF]), Ok(-1));
    assert_eq!(read_i32_le(&[0xFE, 0xFF, 0xFF, 0xFF]), Ok(-2));
    assert_eq!(
        read_i64_le(&[0x00, 0x00, 0x00, 0x00, 0x00, 0x00, 0x00, 0x80]),
        Ok(i64::MIN)
    );
}

#[test]
fn le_readers_fail_on_short_input() {
    assert_eq!(read_u16_le(&[1]), Err(Error::ShortInput));
    assert_eq!(read_u32_le(&[1, 2, 3]), Err(Error::ShortInput));
    assert_eq!(read_u64_le(&[0; 7]), Err(Error::ShortInput));
    assert_eq!(read_i16_le(&[]), Err(Error::ShortInput));
    assert_eq!(read_i32_le(&[0]), Err(Error::ShortInput));
    assert_eq!(read_i64_le(&[0; 3]), Err(Error::ShortInput));
}

#[test]
fn utf16_decoding_matches_std() {
    // "Hello" as UTF-16LE.
    let bytes = [0x48, 0x00, 0x65, 0x00, 0x6C, 0x00, 0x6C, 0x00, 0x6F, 0x00];
    assert_eq!(read(&bytes).unwrap(), "Hello");
    // A character outside the basic plane survives as a surrogate pair.
    let s = "a\u{1F600}z";
    let units: Vec<u16> = s.encode_utf16().collect();
    let mut enc = Vec::new();
    for u in &units {
        enc.extend_from_slice(&u.to_le_bytes());
    }
    assert_eq!(read(&enc).unwrap(), s);
    // An unpaired surrogate is replaced, as in std's lossy decoding.
    let lone = [0x00, 0xD8];
    assert_eq!(read(&lone).unwrap(), "\u{FFFD}");
    assert_eq!(
        read(&lone).unwrap(),
        String::from_utf16_lossy(&[0xD800])
    );
}

#[test]
fn utf16_decoding_rejects_odd_length() {
    assert_eq!(read(&[0x48, 0x00, 0x65]), Err(Error::OddByteCount));
    assert_eq!(read_le_u16(&[1, 2, 3]).unwrap_err(), Error::OddByteCount);
}

#[test]
fn utf16_unit_splitting() {
    assert_eq!(read_le_u16(&[0x41, 0x00, 0x00, 0xD8]).unwrap(), vec![0x0041, 0xD800]);
    assert_eq!(read_le_u16(&[]).unwrap(), Vec::<u16>::new());
}

#[test]
fn hex_formatting_matches_std() {
    assert_eq!(hex_upper(0x10020102, 8), format!("{:08X}", 0x10020102u32));
    assert_eq!(hex_upper(0, 8), "00000000");
    assert_eq!(hex_upper(0xABC, 4), "0ABC");
    assert_eq!(hex_upper(0xDEADBEEF, 8), "DEADBEEF");
    assert_eq!(hex_upper(5, 0), "");
}

#[test]
fn sub_bytes_copies_a_range() {
    let v = [1u8, 2, 3, 4, 5];
    assert_eq!(sub_bytes(&v, 1, 4).unwrap(), vec![2, 3, 4]);
    assert_eq!(sub_bytes(&v, 0, 0).unwrap(), Vec::<u8>::new());
    assert_eq!(sub_bytes(&v, 3, 6), Err(Error::ShortInput));
    assert_eq!(sub_bytes(&v, 4, 3), Err(Error::ShortInput));
}
