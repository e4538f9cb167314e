use bitstream_io::{BitWrite, BitWriter, LittleEndian};
use dem::bits::BitStream;
use dem::messages::consolecmd::parse_concmd;
use dem::messages::packet::read_net_svc_message;
use dem::messages::{CmdInfo, NetSvcMessage, SPacket, SStringTables, SUserCmd};
use dem::svcnetmessage::{
    EventDescriptorType, GameEventDescription, SNetFile, SNetSignOnState, SNetTick, SSvcClassInfo,
    SSvcCreateStringTable, SSvcGameEventList, SSvcServerInfo, SSvcVoiceInit, SignOnState,
};
use dem::{DemError, Header, ParseFail};

type W = BitWriter<Vec<u8>, LittleEndian>;

fn writer() -> W {
    BitWriter::endian(Vec::new(), LittleEndian)
}

fn finish(mut w: W) -> BitStream {
    w.byte_align().unwrap();
    BitStream::from_bytes(w.into_writer())
}

fn nts(w: &mut W, s: &[u8]) {
    w.write_bytes(s).unwrap();
    w.write(8, 0u8).unwrap();
}

fn header(demo_protocol: i32, network_protocol: i32) -> Header {
    let mut v = b"HL2DEMO\0".to_vec();
    v.extend(demo_protocol.to_le_bytes());
    v.extend(network_protocol.to_le_bytes());
    for _ in 0..4 {
        v.extend([0u8; 260]);
    }
    v.extend([0u8; 16]);
    Header::from_br(&mut BitStream::from_bytes(v)).unwrap()
}

fn err<T>(e: DemError) -> Result<T, ParseFail> {
    Err(ParseFail::Error(e))
}

#[test]
fn netfile_fields_and_size() {
    let mut w = writer();
    w.write_signed(32, -5i32).unwrap();
    nts(&mut w, b"maps/x.bsp");
    w.write_bit(true).unwrap();
    let (m, size) = SNetFile::bitread(&mut finish(w)).unwrap();
    assert_eq!(m.transfer_id, -5);
    assert_eq!(m.file_name.as_str(), "maps/x.bsp");
    assert!(m.requested);
    assert_eq!(size, 32 + 11 * 8 + 1);
}

#[test]
fn nettick_keeps_raw_frame_times() {
    let mut w = writer();
    w.write_signed(32, 4242i32).unwrap();
    w.write_signed(16, 150i16).unwrap();
    w.write_signed(16, -2i16).unwrap();
    let (m, size) = SNetTick::bitread(&mut finish(w)).unwrap();
    assert_eq!(m, SNetTick { tick: 4242, host_frametime_raw: 150, host_frametime_stddev_raw: -2 });
    assert_eq!(size, 64);
}

#[test]
fn signon_state_codes() {
    assert_eq!(SignOnState::try_from(0), Ok(SignOnState::NoState));
    assert_eq!(SignOnState::try_from(1), Ok(SignOnState::Challenge));
    assert_eq!(SignOnState::try_from(2), Ok(SignOnState::Connected));
    assert_eq!(SignOnState::try_from(3), Ok(SignOnState::New));
    assert_eq!(SignOnState::try_from(4), Ok(SignOnState::PreSpawn));
    assert_eq!(SignOnState::try_from(5), Ok(SignOnState::Spawn));
    assert_eq!(SignOnState::try_from(6), Ok(SignOnState::Full));
    assert_eq!(SignOnState::try_from(7), Ok(SignOnState::ChangeLevel));
    assert_eq!(SignOnState::try_from(8), Err(DemError::NoSuchSignOnState(8)));
    assert_eq!(SignOnState::try_from(255), Err(DemError::NoSuchSignOnState(255)));
}

#[test]
fn signon_old_engine() {
    let mut w = writer();
    w.write(8, 6u8).unwrap();
    w.write_signed(32, 3i32).unwrap();
    let (m, size) = SNetSignOnState::bitread(&mut finish(w), true).unwrap();
    assert_eq!(m.signon_state, SignOnState::Full);
    assert_eq!(m.spawn_count, 3);
    assert_eq!(m.num_server_players, None);
    assert_eq!(m.players_network_ids, None);
    assert_eq!(m.mapname, None);
    assert_eq!(size, 40);
}

#[test]
fn signon_new_engine() {
    let mut w = writer();
    w.write(8, 2u8).unwrap();
    w.write_signed(32, 1i32).unwrap();
    w.write(32, 8u32).unwrap();
    w.write(32, 3u32).unwrap();
    w.write_bytes(&[9, 8, 7]).unwrap();
    w.write(32, 4u32).unwrap();
    w.write_bytes(b"c1m1").unwrap();
    let (m, size) = SNetSignOnState::bitread(&mut finish(w), false).unwrap();
    assert_eq!(m.signon_state, SignOnState::Connected);
    assert_eq!(m.num_server_players, Some(8));
    assert_eq!(m.players_network_ids, Some(vec![9, 8, 7]));
    assert_eq!(m.mapname, Some("c1m1".to_string()));
    assert_eq!(size, 8 + 32 + 4 * 8 + 32 + 3 * 8);
}

#[test]
fn signon_bad_state_is_error() {
    let mut w = writer();
    w.write(8, 9u8).unwrap();
    w.write_signed(32, 1i32).unwrap();
    assert_eq!(SNetSignOnState::bitread(&mut finish(w), true).map(|m| m.1), err(DemError::NoSuchSignOnState(9)));
}

#[test]
fn signon_map_name_must_be_utf8() {
    let mut w = writer();
    w.write(8, 2u8).unwrap();
    w.write_signed(32, 1i32).unwrap();
    w.write(32, 8u32).unwrap();
    w.write(32, 0u32).unwrap();
    w.write(32, 2u32).unwrap();
    w.write_bytes(&[0xc3, 0x28]).unwrap();
    assert_eq!(SNetSignOnState::bitread(&mut finish(w), false).map(|m| m.1), err(DemError::InvalidUtf8));
}

#[test]
fn voiceinit_quality_255_skips_32_bits() {
    let mut w = writer();
    nts(&mut w, b"vaudio_celt");
    w.write(8, 255u8).unwrap();
    w.write(32, 0xdead_beefu32).unwrap();
    w.write(8, 0x5au8).unwrap();
    let mut s = finish(w);
    let (m, size) = SSvcVoiceInit::bitread(&mut s).unwrap();
    assert_eq!(m.codec.as_str(), "vaudio_celt");
    assert_eq!(m.quality, 255);
    assert_eq!(size, 12 * 8 + 8 + 32);
    assert_eq!(s.read_u8(8), Ok(0x5a));
}

#[test]
fn voiceinit_other_quality() {
    let mut w = writer();
    nts(&mut w, b"speex");
    w.write(8, 5u8).unwrap();
    let (m, size) = SSvcVoiceInit::bitread(&mut finish(w)).unwrap();
    assert_eq!(m.quality, 5);
    assert_eq!(size, 6 * 8 + 8);
}

fn server_info_bits(w: &mut W, oe: bool, tick_interval: f32) {
    w.write(16, 24u16).unwrap();
    w.write(32, 7u32).unwrap();
    w.write_bit(false).unwrap();
    w.write_bit(true).unwrap();
    w.write(32, 0xffff_fffeu32).unwrap();
    if !oe {
        w.write(32, 99u32).unwrap();
    }
    w.write(16, 300u16).unwrap();
    w.write(32, 0x1234u32).unwrap();
    w.write(8, 3u8).unwrap();
    w.write(8, 32u8).unwrap();
    w.write(32, tick_interval.to_bits()).unwrap();
    w.write(8, b'l').unwrap();
    nts(w, b"hl2mp");
    nts(w, b"dm_lockdown");
    nts(w, b"sky_day01");
    nts(w, b"Host");
}

#[test]
fn serverinfo_old_engine() {
    let mut w = writer();
    server_info_bits(&mut w, true, 0.015);
    let (m, size) = SSvcServerInfo::bitread(&mut finish(w), &header(3, 7)).unwrap();
    assert_eq!(m.protocol, 24);
    assert_eq!(m.server_count, 7);
    assert!(!m.is_hltv);
    assert!(m.is_dedicated);
    assert_eq!(m.client_crc, -2);
    assert_eq!(m.string_table_crc, None);
    assert_eq!(m.max_classes, 300);
    assert_eq!(m.map_crc, 0x1234);
    assert_eq!(m.player_count, 3);
    assert_eq!(m.max_clients, 32);
    assert_eq!(f32::from_bits(m.tick_interval_bits), 0.015);
    assert_eq!(m.platform, 'l');
    assert_eq!(m.game_dir.as_str(), "hl2mp");
    assert_eq!(m.map_name.as_str(), "dm_lockdown");
    assert_eq!(m.sky_name.as_str(), "sky_day01");
    assert_eq!(m.host_name.as_str(), "Host");
    assert_eq!(size, 186 + (5 + 11 + 9 + 4 + 4) * 8);
}

#[test]
fn serverinfo_new_engine_has_string_table_crc() {
    let mut w = writer();
    server_info_bits(&mut w, false, 0.03);
    let (m, size) = SSvcServerInfo::bitread(&mut finish(w), &header(4, 2042)).unwrap();
    assert_eq!(m.string_table_crc, Some(99));
    assert_eq!(size, 186 + 32 + (5 + 11 + 9 + 4 + 4) * 8);
}

#[test]
fn classinfo_with_classes() {
    let mut w = writer();
    w.write(16, 2u16).unwrap();
    w.write_bit(false).unwrap();
    w.write(16, 0u16).unwrap();
    nts(&mut w, b"CWorld");
    nts(&mut w, b"DT_World");
    w.write(16, 1u16).unwrap();
    nts(&mut w, b"CPlayer");
    nts(&mut w, b"DT_Player");
    let (m, size) = SSvcClassInfo::bitread(&mut finish(w)).unwrap();
    assert_eq!(m.num_classes, 2);
    assert!(!m.create_on_client);
    let classes = m.server_classes.unwrap();
    assert_eq!(classes.len(), 2);
    assert_eq!(classes[0].id, 0);
    assert_eq!(classes[0].name, "CWorld");
    assert_eq!(classes[0].data_table, "DT_World");
    assert_eq!(classes[1].id, 1);
    assert_eq!(classes[1].name, "CPlayer");
    assert_eq!(classes[1].data_table, "DT_Player");
    assert_eq!(size, 17 + (16 + 7 * 8 + 9 * 8) + (16 + 8 * 8 + 10 * 8));
}

#[test]
fn classinfo_created_on_client() {
    let mut w = writer();
    w.write(16, 40u16).unwrap();
    w.write_bit(true).unwrap();
    let (m, size) = SSvcClassInfo::bitread(&mut finish(w)).unwrap();
    assert_eq!(m.num_classes, 40);
    assert!(m.create_on_client);
    assert!(m.server_classes.is_none());
    assert_eq!(size, 17);
}

#[test]
fn create_string_table_old_engine() {
    let mut w = writer();
    nts(&mut w, b"downloadables");
    w.write(16, 8192u16).unwrap();
    w.write(14, 3u16).unwrap();
    w.write(20, 10u32).unwrap();
    w.write_bit(true).unwrap();
    w.write(12, 100u16).unwrap();
    w.write(4, 7u8).unwrap();
    w.write_bit(true).unwrap();
    w.write(10, 0u16).unwrap();
    w.write(8, 0xc3u8).unwrap();
    let mut s = finish(w);
    let (m, size) = SSvcCreateStringTable::bitread(&mut s, true).unwrap();
    assert_eq!(m.name.as_str(), "downloadables");
    assert_eq!(m.max_entries, 8192);
    assert_eq!(m.num_entries, 3);
    assert_eq!(m.user_data_size, Some(100));
    assert_eq!(m.user_data_size_bits, Some(7));
    assert!(m.flags.data_compressed);
    assert!(!m.flags.dictionary_maybe_enabled);
    assert_eq!(size, 14 * 8 + 16 + 14 + 20 + 1 + 1 + 16 + 10);
    assert_eq!(s.read_u8(8), Ok(0xc3));
}

#[test]
fn create_string_table_new_engine() {
    let mut w = writer();
    nts(&mut w, b"t");
    w.write(16, 1u16).unwrap();
    w.write(1, 1u16).unwrap();
    w.write(20, 0u32).unwrap();
    w.write_bit(false).unwrap();
    w.write_bit(false).unwrap();
    w.write_bit(true).unwrap();
    let (m, size) = SSvcCreateStringTable::bitread(&mut finish(w), false).unwrap();
    assert_eq!(m.max_entries, 1);
    assert_eq!(m.num_entries, 1);
    assert_eq!(m.user_data_size, None);
    assert!(!m.flags.data_compressed);
    assert!(m.flags.dictionary_maybe_enabled);
    assert_eq!(size, 2 * 8 + 16 + 1 + 20 + 1 + 1 + 1);
}

#[test]
fn create_string_table_zero_capacity_has_no_answer() {
    let mut w = writer();
    nts(&mut w, b"t");
    w.write(16, 0u16).unwrap();
    w.write(32, 0u32).unwrap();
    assert_eq!(SSvcCreateStringTable::bitread(&mut finish(w), true).map(|m| m.1), Err(ParseFail::Abort));
}

#[test]
fn event_type_codes() {
    assert_eq!(EventDescriptorType::from(1), EventDescriptorType::String);
    assert_eq!(EventDescriptorType::from(2), EventDescriptorType::Float);
    assert_eq!(EventDescriptorType::from(3), EventDescriptorType::Int32);
    assert_eq!(EventDescriptorType::from(4), EventDescriptorType::Int16);
    assert_eq!(EventDescriptorType::from(5), EventDescriptorType::Int8);
    assert_eq!(EventDescriptorType::from(6), EventDescriptorType::Bool);
    assert_eq!(EventDescriptorType::from(7), EventDescriptorType::UInt64);
    assert_eq!(EventDescriptorType::from(0), EventDescriptorType::Unknown(0));
    assert_eq!(EventDescriptorType::from(9), EventDescriptorType::Unknown(9));
}

fn event_bits(w: &mut W, id: u16, name: &[u8], keys: &[(u8, &[u8])]) {
    w.write(9, id).unwrap();
    nts(w, name);
    for (kind, key) in keys {
        w.write(3, *kind).unwrap();
        nts(w, key);
    }
    w.write(3, 0u8).unwrap();
}

#[test]
fn game_event_description() {
    let mut w = writer();
    event_bits(&mut w, 12, b"player_death", &[(4, b"userid"), (1, b"weapon")]);
    let (d, size) = GameEventDescription::bitread(&mut finish(w)).unwrap();
    assert_eq!(d.event_id, 12);
    assert_eq!(d.name, "player_death");
    assert_eq!(
        d.keys,
        vec![("userid".to_string(), EventDescriptorType::Int16), ("weapon".to_string(), EventDescriptorType::String)]
    );
    assert_eq!(size, 9 + 13 * 8 + (3 + 7 * 8) * 2 + 3);
}

#[test]
fn game_event_list_counts_events() {
    let mut w = writer();
    w.write(9, 2u16).unwrap();
    w.write(20, 1000u32).unwrap();
    event_bits(&mut w, 0, b"a", &[]);
    event_bits(&mut w, 1, b"bc", &[(6, b"ok")]);
    let (l, size) = SSvcGameEventList::bitread(&mut finish(w)).unwrap();
    assert_eq!(l.events, 2);
    assert_eq!(l.descriptors.len(), 2);
    assert_eq!(l.descriptors[1].keys, vec![("ok".to_string(), EventDescriptorType::Bool)]);
    assert_eq!(size, 29 + (9 + 2 * 8 + 3) + (9 + 3 * 8 + 3 + 3 * 8 + 3));
}

#[test]
fn console_command_skips_rest_of_size() {
    let mut w = writer();
    w.write(32, 10u32).unwrap();
    nts(&mut w, b"+jump");
    w.write_bytes(&[1, 2, 3, 4]).unwrap();
    w.write(8, 0x77u8).unwrap();
    let mut s = finish(w);
    assert_eq!(parse_concmd(&mut s), Ok("+jump".to_string()));
    assert_eq!(s.read_u8(8), Ok(0x77));
}

#[test]
fn console_command_size_too_small_has_no_answer() {
    let mut w = writer();
    w.write(32, 3u32).unwrap();
    nts(&mut w, b"+jump");
    assert_eq!(parse_concmd(&mut finish(w)), Err(ParseFail::Abort));
}

#[test]
fn string_tables_are_skipped() {
    let mut w = writer();
    w.write(32, 3u32).unwrap();
    w.write_bytes(&[9, 9, 9, 0x42]).unwrap();
    let mut s = finish(w);
    assert_eq!(SStringTables::from_br(&mut s), Ok(SStringTables {}));
    assert_eq!(s.read_u8(8), Ok(0x42));
}

#[test]
fn string_tables_huge_size_has_no_answer() {
    let mut w = writer();
    w.write(32, u32::MAX).unwrap();
    assert_eq!(SStringTables::from_br(&mut finish(w)), Err(ParseFail::Abort));
}

#[test]
fn usercmd_fields() {
    let mut w = writer();
    w.write_signed(32, 5i32).unwrap();
    w.write(32, 0u32).unwrap();
    w.write_bit(true).unwrap();
    w.write_signed(32, 100i32).unwrap();
    w.write_bit(false).unwrap();
    w.write_bit(true).unwrap();
    w.write(32, 1.5f32.to_bits()).unwrap();
    w.write_bit(false).unwrap();
    w.write_bit(false).unwrap();
    w.write_bit(false).unwrap();
    w.write_bit(true).unwrap();
    w.write(32, (-2.0f32).to_bits()).unwrap();
    w.write_bit(false).unwrap();
    w.write_bit(true).unwrap();
    w.write(32, 0xffff_ffffu32).unwrap();
    w.write_bit(true).unwrap();
    w.write(8, 0x80u8).unwrap();
    w.write_bit(true).unwrap();
    w.write(11, 1025u16).unwrap();
    w.write(6, 33u8).unwrap();
    w.write_bit(true).unwrap();
    w.write_signed(16, -7i16).unwrap();
    w.write_bit(false).unwrap();
    w.byte_align().unwrap();
    w.write(8, 0x99u8).unwrap();
    let mut s = finish(w);
    let u = SUserCmd::from_br(&mut s).unwrap();
    assert_eq!(u.cmd, 5);
    assert_eq!(u.command_number, Some(100));
    assert_eq!(u.tick_count, None);
    assert_eq!(u.view_angles, [Some(1.5f32.to_bits()), None, None]);
    assert_eq!(u.forward_move, None);
    assert_eq!(u.side_move.map(f32::from_bits), Some(-2.0));
    assert_eq!(u.up_move, None);
    assert_eq!(u.buttons, Some(-1));
    assert_eq!(u.impulse, Some(-128));
    assert_eq!(u.weapon_select, Some(1025));
    assert_eq!(u.weapon_subtype, Some(33));
    assert_eq!(u.mouse_dx, Some(-7));
    assert_eq!(u.mouse_dy, None);
    assert_eq!(s.read_u8(8), Ok(0x99));
}

#[test]
fn usercmd_without_weapon_has_no_subtype() {
    let mut w = writer();
    w.write_signed(32, 1i32).unwrap();
    w.write(32, 0u32).unwrap();
    for _ in 0..10 {
        w.write_bit(false).unwrap();
    }
    w.write_bit(false).unwrap();
    w.write_bit(false).unwrap();
    w.write_bit(false).unwrap();
    let u = SUserCmd::from_br(&mut finish(w)).unwrap();
    assert_eq!(u.weapon_select, None);
    assert_eq!(u.weapon_subtype, None);
}

#[test]
fn usercmd_padding_count_is_not_used() {
    let mut s = BitStream::from_bytes(vec![0, 0, 0, 0, 0, 0, 0, 0x20, 0, 0, 0x6b]);
    let u = SUserCmd::from_br(&mut s).unwrap();
    assert_eq!(u.cmd, 0);
    assert_eq!(u.command_number, None);
    assert_eq!(u.tick_count, None);
    assert_eq!(u.view_angles, [None, None, None]);
    assert_eq!(u.forward_move, None);
    assert_eq!(u.side_move, None);
    assert_eq!(u.up_move, None);
    assert_eq!(u.buttons, None);
    assert_eq!(u.impulse, None);
    assert_eq!(u.weapon_select, None);
    assert_eq!(u.weapon_subtype, None);
    assert_eq!(u.mouse_dx, None);
    assert_eq!(u.mouse_dy, None);
    assert_eq!(s.read_u8(8), Ok(0x6b));
}

#[test]
fn cmd_info_words() {
    let mut w = writer();
    w.write_signed(32, -3i32).unwrap();
    for k in 1..19u32 {
        w.write(32, k).unwrap();
    }
    let c = CmdInfo::from_br(&mut finish(w)).unwrap();
    assert_eq!(c.flags, -3);
    assert_eq!(c.view_origin, [1, 2, 3]);
    assert_eq!(c.view_angles, [4, 5, 6]);
    assert_eq!(c.local_view_angles, [7, 8, 9]);
    assert_eq!(c.view_origin_2, [10, 11, 12]);
    assert_eq!(c.view_angles_2, [13, 14, 15]);
    assert_eq!(c.local_view_angles_2, [16, 17, 18]);
}

#[test]
fn cmd_info_short_is_eof() {
    let mut s = BitStream::from_bytes(vec![0; 75]);
    assert_eq!(CmdInfo::from_br(&mut s).map(|c| c.flags), err(DemError::Eof));
}

fn packet_prefix(w: &mut W, players: usize) {
    for _ in 0..players {
        for _ in 0..19 {
            w.write(32, 0u32).unwrap();
        }
    }
    w.write(32, 11u32).unwrap();
    w.write(32, 0xffff_fff0u32).unwrap();
}

#[test]
fn packet_with_nop_and_tick() {
    let h = header(3, 7);
    let mut w = writer();
    packet_prefix(&mut w, 1);
    w.write(32, 10u32).unwrap();
    w.write(6, 0u8).unwrap();
    w.write(6, 3u8).unwrap();
    w.write_signed(32, 77i32).unwrap();
    w.write_signed(16, 1i16).unwrap();
    w.write_signed(16, 2i16).unwrap();
    w.write(4, 0u8).unwrap();
    w.write(8, 0xeeu8).unwrap();
    let mut s = finish(w);
    let p = SPacket::from_br(&mut s, &h).unwrap();
    assert_eq!(p.info.len(), 1);
    assert_eq!(p.in_seq, 11);
    assert_eq!(p.out_seq, -16);
    assert_eq!(
        p.data,
        vec![
            NetSvcMessage::NetNop,
            NetSvcMessage::NetTick(SNetTick { tick: 77, host_frametime_raw: 1, host_frametime_stddev_raw: 2 })
        ]
    );
    assert_eq!(s.read_u8(8), Ok(0xee));
}

#[test]
fn packet_has_one_info_per_player() {
    let h = header(4, 2042);
    assert_eq!(h.mssc, 4);
    let mut w = writer();
    packet_prefix(&mut w, 4);
    w.write(32, 0u32).unwrap();
    let p = SPacket::from_br(&mut finish(w), &h).unwrap();
    assert_eq!(p.info.len(), 4);
    assert!(p.data.is_empty());
}

#[test]
fn packet_tick_kind_depends_on_engine() {
    let h = header(4, 2042);
    let mut w = writer();
    w.write_signed(32, 9i32).unwrap();
    w.write_signed(16, 0i16).unwrap();
    w.write_signed(16, 0i16).unwrap();
    let (m, _) = read_net_svc_message(&mut finish(w), 4, &h).unwrap();
    assert!(matches!(m, NetSvcMessage::NetTick(_)));
    let mut s = BitStream::from_bytes(vec![0; 8]);
    assert_eq!(read_net_svc_message(&mut s, 3, &h).map(|m| m.1), err(DemError::UnknownNetSvcMessage(3)));
}

#[test]
fn packet_disconnect_keeps_second_string() {
    let h = header(3, 7);
    let mut w = writer();
    nts(&mut w, b"ab");
    nts(&mut w, b"kicked");
    let (m, size) = read_net_svc_message(&mut finish(w), 1, &h).unwrap();
    assert_eq!(m, NetSvcMessage::NetDisconnect("kicked".to_string()));
    assert_eq!(size, 8 * 2 + 1);
}

#[test]
fn packet_unknown_message_is_error() {
    let h = header(3, 7);
    let mut w = writer();
    packet_prefix(&mut w, 1);
    w.write(32, 1u32).unwrap();
    w.write(6, 9u8).unwrap();
    assert_eq!(SPacket::from_br(&mut finish(w), &h).map(|p| p.in_seq), err(DemError::UnknownNetSvcMessage(9)));
}

#[test]
fn packet_message_larger_than_body_has_no_answer() {
    let h = header(3, 7);
    let mut w = writer();
    packet_prefix(&mut w, 1);
    w.write(32, 2u32).unwrap();
    w.write(6, 3u8).unwrap();
    w.write(64, 0u64).unwrap();
    assert_eq!(SPacket::from_br(&mut finish(w), &h).map(|p| p.in_seq), Err(ParseFail::Abort));
}

#[test]
fn empty_game_event_list_is_29_bits() {
    let mut s = BitStream::from_bytes(vec![0, 0, 0, 0]);
    let (l, size) = SSvcGameEventList::bitread(&mut s).unwrap();
    assert_eq!(l.events, 0);
    assert!(l.descriptors.is_empty());
    assert_eq!(size, 29);
}

#[test]
fn serverinfo_size_is_bits_consumed() {
    let mut w = writer();
    server_info_bits(&mut w, false, 0.03);
    w.write(8, 0x3cu8).unwrap();
    let mut s = finish(w);
    let (_, size) = SSvcServerInfo::bitread(&mut s, &header(4, 2001)).unwrap();
    assert_eq!(size, 186 + 32 + (5 + 11 + 9 + 4 + 4) * 8);
    assert_eq!(s.read_u8(8), Ok(0x3c));
}

#[test]
fn console_command_bytes_example() {
    let mut s = BitStream::from_bytes(vec![4, 0, 0, 0, b'h', b'i', 0, 0, 0x21]);
    assert_eq!(parse_concmd(&mut s), Ok("hi".to_string()));
    assert_eq!(s.read_u8(8), Ok(0x21));
}

#[test]
fn undecoded_kinds_are_unknown() {
    let old = header(3, 7);
    let new = header(4, 2001);
    for kind in 0u8..64 {
        let decoded_old = matches!(kind, 0 | 1 | 2 | 3 | 6 | 7 | 8 | 10 | 12 | 14 | 30);
        let decoded_new = matches!(kind, 0 | 1 | 2 | 4 | 7 | 8 | 10 | 12 | 14 | 30);
        let mut s = BitStream::from_bytes(vec![]);
        let r = read_net_svc_message(&mut s, kind, &old).map(|m| m.1);
        assert_eq!(r == err(DemError::UnknownNetSvcMessage(kind)), !decoded_old);
        let mut s = BitStream::from_bytes(vec![]);
        let r = read_net_svc_message(&mut s, kind, &new).map(|m| m.1);
        assert_eq!(r == err(DemError::UnknownNetSvcMessage(kind)), !decoded_new);
    }
}
