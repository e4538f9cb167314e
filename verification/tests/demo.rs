use bitstream_io::{BitWrite, BitWriter, LittleEndian};
use dem::bits::BitStream;
use dem::messages::{NetSvcMessage, SStringTables};
use dem::{DemError, Demo, Frame, FrameData, Header, ParseFail};

type W = BitWriter<Vec<u8>, LittleEndian>;

fn writer() -> W {
    BitWriter::endian(Vec::new(), LittleEndian)
}

fn nts(w: &mut W, s: &[u8]) {
    w.write_bytes(s).unwrap();
    w.write(8, 0u8).unwrap();
}

fn header(w: &mut W, stamp: &[u8; 8], demo_protocol: i32, network_protocol: i32) {
    w.write_bytes(stamp).unwrap();
    w.write_signed(32, demo_protocol).unwrap();
    w.write_signed(32, network_protocol).unwrap();
    for name in [&b"server"[..], b"client", b"map", b"game"] {
        let mut f = name.to_vec();
        f.resize(260, 0);
        w.write_bytes(&f).unwrap();
    }
    w.write(32, 60.0f32.to_bits()).unwrap();
    w.write_signed(32, 4000i32).unwrap();
    w.write_signed(32, 4100i32).unwrap();
    w.write(32, 0u32).unwrap();
}

fn bytes(w: W) -> Vec<u8> {
    let mut w = w;
    w.byte_align().unwrap();
    w.into_writer()
}

fn simple_frame(w: &mut W, msg: i8, tick: i32) {
    w.write_signed(8, msg).unwrap();
    w.write_signed(32, tick).unwrap();
}

fn stop(w: &mut W) {
    w.write_signed(8, 7i8).unwrap();
}

fn signon_with_server_info(w: &mut W, tick_interval: f32) {
    simple_frame(w, 1, 0);
    for _ in 0..19 {
        w.write(32, 0u32).unwrap();
    }
    w.write(32, 1u32).unwrap();
    w.write(32, 2u32).unwrap();
    // 6 bits of kind, 186 fixed bits and four one-char names: 256 bits
    w.write(32, 32u32).unwrap();
    w.write(6, 8u8).unwrap();
    w.write(16, 24u16).unwrap();
    w.write(32, 1u32).unwrap();
    w.write_bit(false).unwrap();
    w.write_bit(false).unwrap();
    w.write(32, 0u32).unwrap();
    w.write(16, 10u16).unwrap();
    w.write(32, 0u32).unwrap();
    w.write(8, 1u8).unwrap();
    w.write(8, 8u8).unwrap();
    w.write(32, tick_interval.to_bits()).unwrap();
    w.write(8, b'w').unwrap();
    for name in [b"a", b"b", b"c", b"d"] {
        nts(w, name);
    }
}

#[test]
fn demo_ends_at_first_stop() {
    let mut w = writer();
    header(&mut w, b"HL2DEMO\0", 3, 7);
    simple_frame(&mut w, 3, 0);
    simple_frame(&mut w, 3, 1);
    stop(&mut w);
    // anything after the stop frame is not read
    w.write_bytes(&[0xff, 0xff]).unwrap();
    let d = Demo::decode(bytes(w)).unwrap();
    assert_eq!(d.header.map_name.as_str(), "map");
    assert_eq!(d.frames.len(), 3);
    assert_eq!(d.frames[0].data, FrameData::SyncTick);
    assert_eq!(d.frames[0].tick, Some(0));
    assert_eq!(d.frames[0].slot, None);
    assert_eq!(d.frames[1].tick, Some(1));
    assert_eq!(d.frames[2].data, FrameData::Stop);
    assert_eq!(d.frames[2].tick, None);
}

#[test]
fn from_bytes_agrees_with_decode() {
    let mut w = writer();
    header(&mut w, b"HL2DEMO\0", 3, 7);
    stop(&mut w);
    let b = bytes(w);
    let d = Demo::from_bytes(b.clone()).unwrap();
    assert_eq!(d.frames.len(), 1);
    assert_eq!(Demo::decode(b).unwrap().frames.len(), 1);
}

#[test]
fn wrong_stamp_is_invalid_signature() {
    let mut w = writer();
    header(&mut w, b"HL2DEMO!", 3, 7);
    stop(&mut w);
    assert_eq!(Demo::from_bytes(bytes(w)).map(|d| d.frames.len()), Err(DemError::InvalidSignature));
}

#[test]
fn empty_input_is_eof() {
    assert_eq!(Demo::from_bytes(vec![]).map(|d| d.frames.len()), Err(DemError::Eof));
}

#[test]
fn missing_stop_is_eof() {
    let mut w = writer();
    header(&mut w, b"HL2DEMO\0", 3, 7);
    simple_frame(&mut w, 3, 0);
    assert_eq!(Demo::from_bytes(bytes(w)).map(|d| d.frames.len()), Err(DemError::Eof));
}

#[test]
fn unknown_frame_type_is_error() {
    let mut w = writer();
    header(&mut w, b"HL2DEMO\0", 3, 7);
    simple_frame(&mut w, 10, 0);
    assert_eq!(Demo::from_bytes(bytes(w)).map(|d| d.frames.len()), Err(DemError::InvalidFrameType(10)));
}

#[test]
fn tick_interval_from_signon_server_info() {
    let mut w = writer();
    header(&mut w, b"HL2DEMO\0", 3, 7);
    simple_frame(&mut w, 3, 0);
    signon_with_server_info(&mut w, 0.015);
    stop(&mut w);
    let d = Demo::decode(bytes(w)).unwrap();
    assert_eq!(d.frames.len(), 3);
    let p = d.frames[1].as_signon().unwrap();
    assert!(matches!(p.data[0], NetSvcMessage::SvcServerInfo(_)));
    assert!(d.frames[1].as_packet().is_none());
    assert_eq!(d.svc_tick_interval_bits().map(f32::from_bits), Some(0.015));
}

#[test]
fn no_server_info_no_tick_interval() {
    let mut w = writer();
    header(&mut w, b"HL2DEMO\0", 3, 7);
    simple_frame(&mut w, 3, 0);
    stop(&mut w);
    let d = Demo::decode(bytes(w)).unwrap();
    assert_eq!(d.svc_tick_interval_bits(), None);
}

#[test]
fn old_engine_type_8_is_string_tables() {
    let mut w = writer();
    header(&mut w, b"HL2DEMO\0", 3, 7);
    simple_frame(&mut w, 8, 5);
    w.write(32, 2u32).unwrap();
    w.write_bytes(&[1, 2]).unwrap();
    simple_frame(&mut w, 6, 5);
    w.write(32, 1u32).unwrap();
    w.write_bytes(&[3]).unwrap();
    simple_frame(&mut w, 4, 6);
    w.write(32, 5u32).unwrap();
    nts(&mut w, b"quit");
    stop(&mut w);
    let d = Demo::decode(bytes(w)).unwrap();
    assert_eq!(d.frames[0].data, FrameData::StringTables(SStringTables {}));
    assert!(matches!(d.frames[1].data, FrameData::DataTables(_)));
    assert_eq!(d.frames[2].data, FrameData::ConsoleCmd("quit".to_string()));
    assert_eq!(d.frames.len(), 4);
}

#[test]
fn new_engine_frames_carry_a_slot_and_custom_data() {
    let mut w = writer();
    header(&mut w, b"HL2DEMO\0", 4, 2001);
    w.write_signed(8, 8i8).unwrap();
    w.write_signed(32, 9i32).unwrap();
    w.write(8, 1u8).unwrap();
    w.write(32, 0u32).unwrap();
    w.write(32, 3u32).unwrap();
    w.write_bytes(&[1, 2, 3]).unwrap();
    w.write_signed(8, 9i8).unwrap();
    w.write_signed(32, 10i32).unwrap();
    w.write(8, 0u8).unwrap();
    w.write(32, 0u32).unwrap();
    stop(&mut w);
    let d = Demo::decode(bytes(w)).unwrap();
    assert_eq!(d.header.mssc, 2);
    assert_eq!(d.frames[0].slot, Some(1));
    assert_eq!(d.frames[0].data, FrameData::CustomData(vec![]));
    assert_eq!(d.frames[1].data, FrameData::StringTables(SStringTables {}));
    assert_eq!(d.frames[2].data, FrameData::Stop);
}

#[test]
fn overflowing_custom_data_has_no_answer() {
    let mut w = writer();
    header(&mut w, b"HL2DEMO\0", 4, 2001);
    w.write_signed(8, 8i8).unwrap();
    w.write_signed(32, 9i32).unwrap();
    w.write(8, 1u8).unwrap();
    w.write(32, 0u32).unwrap();
    w.write(32, 0xffff_ffffu32).unwrap();
    assert_eq!(Demo::decode(bytes(w)).map(|d| d.frames.len()), Err(ParseFail::Abort));
}

#[test]
fn frames_decode_one_at_a_time() {
    let mut w = writer();
    header(&mut w, b"HL2DEMO\0", 3, 7);
    simple_frame(&mut w, 2, 3);
    for _ in 0..19 {
        w.write(32, 0u32).unwrap();
    }
    w.write(32, 1u32).unwrap();
    w.write(32, 1u32).unwrap();
    w.write(32, 0u32).unwrap();
    let mut s = BitStream::from_bytes(bytes(w));
    let h = Header::from_br(&mut s).unwrap();
    let f = Frame::from_br(&mut s, &h).unwrap();
    assert_eq!(f.tick, Some(3));
    let p = f.as_packet().unwrap();
    assert_eq!(p.in_seq, 1);
    assert!(p.data.is_empty());
    assert!(f.as_signon().is_none());
}
