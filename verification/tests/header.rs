use dem::bits::BitStream;
use dem::{DemError, Game, Header, ParseFail};

fn field(name: &str) -> Vec<u8> {
    let mut f = name.as_bytes().to_vec();
    f.resize(260, 0);
    f
}

fn header_bytes(stamp: &[u8; 8], demo_protocol: i32, network_protocol: i32) -> Vec<u8> {
    let mut v = stamp.to_vec();
    v.extend(demo_protocol.to_le_bytes());
    v.extend(network_protocol.to_le_bytes());
    v.extend(field("localhost:27015"));
    v.extend(field("player"));
    v.extend(field("de_dust2"));
    v.extend(field("cstrike"));
    v.extend(12.5f32.to_bits().to_le_bytes());
    v.extend(825i32.to_le_bytes());
    v.extend(830i32.to_le_bytes());
    v.extend(0x8000_0001u32.to_le_bytes());
    v
}

fn parse(demo_protocol: i32, network_protocol: i32) -> Header {
    let mut s = BitStream::from_bytes(header_bytes(b"HL2DEMO\0", demo_protocol, network_protocol));
    Header::from_br(&mut s).unwrap()
}

#[test]
fn header_fields_in_order() {
    let h = parse(3, 7);
    assert_eq!(h.stamp.as_str(), "HL2DEMO\0");
    assert_eq!(h.demo_protocol, 3);
    assert_eq!(h.network_protocol, 7);
    assert_eq!(h.server_name.as_str(), "localhost:27015");
    assert_eq!(h.client_name.as_str(), "player");
    assert_eq!(h.map_name.as_str(), "de_dust2");
    assert_eq!(h.game_directory.as_str(), "cstrike");
    assert_eq!(f32::from_bits(h.time_bits), 12.5);
    assert_eq!(h.ticks, 825);
    assert_eq!(h.frames, 830);
    assert_eq!(h.signon_len, 0x8000_0001u32 as i32);
    assert!(h.is_valid());
}

#[test]
fn orangebox_games_have_one_player() {
    for (np, g) in [(7, Game::HL2OldEngine), (14, Game::Portal3420), (15, Game::SourceUnpack), (24, Game::Source2013)] {
        let h = parse(3, np);
        assert_eq!(h.game, g);
        assert_eq!(h.mssc, 1);
        assert!(h.is_oe());
        assert!(h.game.is_orangebox());
        assert!(!h.game.is_l4d());
    }
}

#[test]
fn l4d_games_have_four_players() {
    for (np, g) in [
        (37, Game::L4D1005),
        (1040, Game::L4D1040),
        (2000, Game::L4D2000),
        (2012, Game::L4D2012),
        (2027, Game::L4D2027),
        (2042, Game::L4D2042),
        (2100, Game::L4D2203),
    ] {
        let h = parse(4, np);
        assert_eq!(h.game, g);
        assert_eq!(h.mssc, 4);
        assert!(!h.is_oe());
        assert!(h.game.is_l4d());
        assert!(!h.game.is_orangebox());
    }
}

#[test]
fn portal2_has_two_players() {
    let h = parse(4, 2001);
    assert_eq!(h.game, Game::Portal2);
    assert_eq!(h.mssc, 2);
    assert!(!h.game.is_l4d() && !h.game.is_orangebox());
}

#[test]
fn unknown_protocol_4_has_two_players() {
    let h = parse(4, 9999);
    assert_eq!(h.game, Game::Unknown);
    assert_eq!(h.mssc, 2);
}

#[test]
fn other_unknown_games_have_one_player() {
    let h = parse(3, 9999);
    assert_eq!(h.game, Game::Unknown);
    assert_eq!(h.mssc, 1);
    assert!(h.is_oe());
    let h = parse(5, 7);
    assert_eq!(h.game, Game::Unknown);
    assert_eq!(h.mssc, 1);
    assert!(!h.is_oe());
}

#[test]
fn wrong_stamp_is_not_valid() {
    let mut s = BitStream::from_bytes(header_bytes(b"HL2DEMX\0", 3, 7));
    let h = Header::from_br(&mut s).unwrap();
    assert!(!h.is_valid());
}

#[test]
fn truncated_header_is_eof() {
    let mut bytes = header_bytes(b"HL2DEMO\0", 3, 7);
    bytes.truncate(1000);
    let mut s = BitStream::from_bytes(bytes);
    assert_eq!(Header::from_br(&mut s).map(|h| h.ticks), Err(ParseFail::Error(DemError::Eof)));
}

#[test]
fn no_game_is_both_kinds() {
    for g in [
        Game::HL2OldEngine,
        Game::Portal3420,
        Game::SourceUnpack,
        Game::Source2013,
        Game::L4D1005,
        Game::L4D1040,
        Game::L4D2000,
        Game::Portal2,
        Game::L4D2012,
        Game::L4D2027,
        Game::L4D2042,
        Game::L4D2203,
        Game::Unknown,
    ] {
        assert!(!(g.is_l4d() && g.is_orangebox()));
    }
}

#[test]
fn header_consumes_exactly_its_bytes() {
    let mut v = header_bytes(b"HL2DEMO\0", 4, 2001);
    assert_eq!(v.len(), 1072);
    v.push(0x5c);
    let mut s = BitStream::from_bytes(v);
    let h = Header::from_br(&mut s).unwrap();
    assert_eq!(h.game, Game::Portal2);
    assert_eq!(s.read_u8(8), Ok(0x5c));
}

#[test]
fn game_table_pairs() {
    let table = [
        (3, 7, Game::HL2OldEngine),
        (3, 14, Game::Portal3420),
        (3, 15, Game::SourceUnpack),
        (3, 24, Game::Source2013),
        (4, 37, Game::L4D1005),
        (4, 1040, Game::L4D1040),
        (4, 2000, Game::L4D2000),
        (4, 2001, Game::Portal2),
        (4, 2012, Game::L4D2012),
        (4, 2027, Game::L4D2027),
        (4, 2042, Game::L4D2042),
        (4, 2100, Game::L4D2203),
        (3, 37, Game::Unknown),
        (4, 7, Game::Unknown),
        (5, 2001, Game::Unknown),
    ];
    for (dp, np, g) in table {
        assert_eq!(parse(dp, np).game, g);
    }
}

#[test]
fn name_text_must_be_utf8() {
    let mut v = header_bytes(b"HL2DEMO\0", 3, 7);
    v[16] = 0xff;
    let mut s = BitStream::from_bytes(v);
    assert_eq!(Header::from_br(&mut s).map(|h| h.ticks), Err(ParseFail::Error(DemError::InvalidUtf8)));
    let mut v = header_bytes(b"HL2DEMO\0", 3, 7);
    v[16 + 200] = 0xff;
    let mut s = BitStream::from_bytes(v);
    assert_eq!(Header::from_br(&mut s).map(|h| h.server_name.len()), Ok(15));
}
