use bitstream_io::{BitWrite, BitWriter, LittleEndian};
use dem::bits::BitStream;
use dem::{DemError, ParseFail};

fn eof<T>() -> Result<T, ParseFail> {
    Err(ParseFail::Error(DemError::Eof))
}

#[test]
fn bits_come_least_significant_first() {
    let mut s = BitStream::from_bytes(vec![0b1011_0111]);
    let bits: Vec<bool> = (0..8).map(|_| s.read_bit().unwrap()).collect();
    assert_eq!(bits, vec![true, true, true, false, true, true, false, true]);
    assert_eq!(s.read_bit(), eof());
}

#[test]
fn unsigned_reads_take_low_bits_first() {
    let mut s = BitStream::from_bytes(vec![0b1011_0111]);
    assert_eq!(s.read_u8(1), Ok(0b1));
    assert_eq!(s.read_u8(2), Ok(0b11));
    assert_eq!(s.read_u8(5), Ok(0b10110));
    assert_eq!(s.read_u8(1), eof());
}

#[test]
fn multi_byte_values_are_little_endian() {
    let mut s = BitStream::from_bytes(vec![0x78, 0x56, 0x34, 0x12, 0xff, 0xff]);
    assert_eq!(s.read_u32(32), Ok(0x1234_5678));
    assert_eq!(s.read_u16(16), Ok(0xffff));
}

#[test]
fn signed_reads_are_twos_complement() {
    let mut s = BitStream::from_bytes(vec![0b1011_0111]);
    assert_eq!(s.read_i32(4), Ok(7));
    assert_eq!(s.read_i32(4), Ok(-5));
    let mut s = BitStream::from_bytes(vec![0xfe, 0xff, 0xff, 0xff, 0x00, 0x80]);
    assert_eq!(s.read_i32(32), Ok(-2));
    assert_eq!(s.read_i16(16), Ok(i16::MIN));
}

#[test]
fn unsigned_bits_kept_as_i32() {
    let mut s = BitStream::from_bytes(vec![0xff, 0xff, 0xff, 0xff]);
    assert_eq!(s.read_u32_as_i32(), Ok(-1));
    assert_eq!(s.read_u32_as_i32(), eof());
}

#[test]
fn read_past_end_is_eof() {
    let mut s = BitStream::from_bytes(vec![0xaa, 0xbb]);
    assert_eq!(s.read_u32(17), eof());
    let mut s = BitStream::from_bytes(vec![]);
    assert_eq!(s.read_bit(), eof());
    assert_eq!(s.read_to_vec(1), eof());
}

#[test]
fn skip_and_align() {
    let mut s = BitStream::from_bytes(vec![0b1011_0111, 0xab]);
    assert_eq!(s.skip(3), Ok(()));
    assert_eq!(s.read_u8(5), Ok(0b10110));
    assert_eq!(s.read_u8(8), Ok(0xab));
    let mut s = BitStream::from_bytes(vec![0x00, 0xff]);
    assert_eq!(s.read_u8(4), Ok(0));
    s.byte_align();
    assert_eq!(s.read_u8(8), Ok(0xff));
    let mut s = BitStream::from_bytes(vec![0x00]);
    assert_eq!(s.skip(9), eof());
}

#[test]
fn align_on_a_boundary_keeps_everything() {
    let mut s = BitStream::from_bytes(vec![0x12, 0x34]);
    s.byte_align();
    assert_eq!(s.read_u8(8), Ok(0x12));
    s.byte_align();
    assert_eq!(s.read_u8(8), Ok(0x34));
}

#[test]
fn bytes_read_back_in_order() {
    let data = vec![1u8, 2, 3, 250, 0, 7];
    let mut s = BitStream::from_bytes(data.clone());
    assert_eq!(s.read_to_vec(4), Ok(vec![1, 2, 3, 250]));
    assert_eq!(s.read_to_vec(2), Ok(vec![0, 7]));
    assert_eq!(s.read_to_vec(1), eof());
}

#[test]
fn unaligned_bytes_read_back() {
    let mut w = BitWriter::endian(Vec::new(), LittleEndian);
    w.write_bit(true).unwrap();
    w.write_bytes(&[0xde, 0xad]).unwrap();
    w.byte_align().unwrap();
    let mut s = BitStream::from_bytes(w.into_writer());
    assert_eq!(s.read_bit(), Ok(true));
    assert_eq!(s.read_to_vec(2), Ok(vec![0xde, 0xad]));
}

#[test]
fn first_byte_is_first_eight_bits() {
    let mut s = BitStream::from_bytes(vec![0x9c, 0x01]);
    assert_eq!(s.read_u8(8), Ok(0x9c));
}

#[test]
fn float_bits_read_as_stored() {
    let mut s = BitStream::from_bytes(0.015f32.to_le_bytes().to_vec());
    assert_eq!(s.read_float_bits().map(f32::from_bits), Ok(0.015f32));
}

#[test]
fn optional_values_follow_a_presence_bit() {
    let mut w = BitWriter::endian(Vec::new(), LittleEndian);
    w.write_bit(true).unwrap();
    w.write(11, 1234u32).unwrap();
    w.write_bit(false).unwrap();
    w.write_bit(true).unwrap();
    w.write_signed(16, -300i32).unwrap();
    w.byte_align().unwrap();
    let mut s = BitStream::from_bytes(w.into_writer());
    assert_eq!(s.read_option_u32(11), Ok(Some(1234)));
    assert_eq!(s.read_option_u32(32), Ok(None));
    assert_eq!(s.read_option_i32(16), Ok(Some(-300)));
}

#[test]
fn missing_optional_value_is_eof() {
    let mut s = BitStream::from_bytes(vec![0x01]);
    assert_eq!(s.read_option_u32(16), eof());
}
