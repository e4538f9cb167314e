use dem::bits::BitStream;
use dem::{DemError, ParseFail};

fn stream(bytes: &[u8]) -> BitStream {
    BitStream::from_bytes(bytes.to_vec())
}

#[test]
fn nts_stops_at_zero() {
    let mut s = stream(b"abc\0rest");
    assert_eq!(s.read_nts(), Ok("abc".to_string()));
    assert_eq!(s.read_u8(8), Ok(b'r'));
}

#[test]
fn nts_takes_each_byte_as_its_char() {
    let mut s = stream(&[0x63, 0x61, 0x66, 0xe9, 0x00]);
    let r = s.read_nts().unwrap();
    assert_eq!(r, "caf\u{e9}");
    assert_eq!(r.len(), 5);
}

#[test]
fn nts_empty_string() {
    let mut s = stream(&[0x00]);
    assert_eq!(s.read_nts(), Ok(String::new()));
}

#[test]
fn nts_without_zero_is_eof() {
    let mut s = stream(b"abc");
    assert_eq!(s.read_nts(), Err(ParseFail::Error(DemError::Eof)));
}

#[test]
fn capped_string_within_cap() {
    let mut bytes = vec![b'x'; 259];
    bytes.push(0);
    let mut s = BitStream::from_bytes(bytes);
    let a = s.read_nts_arraystring260().unwrap();
    assert_eq!(a.len(), 259);
    assert!(a.as_str().chars().all(|c| c == 'x'));
}

#[test]
fn capped_string_without_zero_is_too_long() {
    let mut s = BitStream::from_bytes(vec![b'x'; 300]);
    assert_eq!(s.read_nts_capped(4), Err(ParseFail::Error(DemError::StringTooLong)));
    let mut s = BitStream::from_bytes(vec![b'y'; 256]);
    assert_eq!(s.read_nts_arraystring256().map(|a| a.len()), Err(ParseFail::Error(DemError::StringTooLong)));
}

#[test]
fn capped_string_short_stream_is_eof() {
    let mut s = stream(b"ab");
    assert_eq!(s.read_nts_capped(10), Err(ParseFail::Error(DemError::Eof)));
}

#[test]
fn capped_string_overflowing_its_buffer_has_no_answer() {
    // three bytes above 127 need six UTF-8 bytes, more than a buffer of four
    let mut s = stream(&[0xc0, 0xc1, 0xc2, 0x00]);
    assert_eq!(s.read_nts_capped(4), Err(ParseFail::Abort));
    let mut s = stream(&[0xc0, 0x41, 0x00]);
    assert_eq!(s.read_nts_capped(4), Ok("\u{c0}A".to_string()));
}

#[test]
fn capped_string_fits_exactly() {
    let mut s = stream(&[b'a', b'b', b'c', 0x00]);
    assert_eq!(s.read_nts_capped(4), Ok("abc".to_string()));
}

#[test]
fn fixed_field_is_trimmed_at_first_zero() {
    let mut bytes = b"de_dust2\0junk".to_vec();
    bytes.resize(260, 0x41);
    bytes.push(0x99);
    let mut s = BitStream::from_bytes(bytes);
    let a = s.read_fixed_arraystr260().unwrap();
    assert_eq!(a.as_str(), "de_dust2");
    assert_eq!(s.read_u8(8), Ok(0x99));
}

#[test]
fn fixed_field_without_zero_is_whole() {
    let bytes = vec![b'z'; 260];
    let mut s = BitStream::from_bytes(bytes);
    assert_eq!(s.read_fixed_arraystr260().unwrap().len(), 260);
}

#[test]
fn fixed_field_must_be_utf8() {
    let mut bytes = vec![0xff, 0xfe];
    bytes.resize(260, 0);
    let mut s = BitStream::from_bytes(bytes);
    assert_eq!(s.read_fixed_arraystr260().map(|a| a.len()), Err(ParseFail::Error(DemError::InvalidUtf8)));
}

#[test]
fn fixed_field_short_stream_is_eof() {
    let mut s = BitStream::from_bytes(vec![0x41; 100]);
    assert_eq!(s.read_fixed_arraystr260().map(|a| a.len()), Err(ParseFail::Error(DemError::Eof)));
}

#[test]
fn stamp_field_keeps_its_zero() {
    let mut s = stream(b"HL2DEMO\0");
    let a = s.read_fixed_arraystr_notrim8().unwrap();
    assert_eq!(a.as_str(), "HL2DEMO\0");
    assert!(dem::text::stamp_is_hl2demo(&a));
}

#[test]
fn other_stamps_are_not_demo_stamps() {
    let mut s = stream(b"HL2DEMOX");
    let a = s.read_fixed_arraystr_notrim8().unwrap();
    assert!(!dem::text::stamp_is_hl2demo(&a));
}

#[test]
fn stamp_field_must_be_utf8() {
    let mut s = stream(&[0xff, 0, 0, 0, 0, 0, 0, 0]);
    assert_eq!(s.read_fixed_arraystr_notrim8().map(|a| a.len()), Err(ParseFail::Error(DemError::InvalidUtf8)));
}

#[test]
fn too_long_string_leaves_stream_after_cap() {
    let mut s = stream(b"ab\0");
    assert_eq!(s.read_nts_capped(2), Err(ParseFail::Error(DemError::StringTooLong)));
    assert_eq!(s.read_u8(8), Ok(0));
    let mut s = stream(b"ab\0z");
    assert_eq!(s.read_nts_capped(3), Ok("ab".to_string()));
    assert_eq!(s.read_u8(8), Ok(b'z'));
}

#[test]
fn nts_latin1_leaves_stream_after_terminator() {
    let mut s = stream(&[0xe9, b'a', 0xff, 0x00, 0x42]);
    let r = s.read_nts().unwrap();
    assert_eq!(r.chars().collect::<Vec<char>>(), vec!['\u{e9}', 'a', '\u{ff}']);
    assert_eq!(s.read_u8(8), Ok(0x42));
}
