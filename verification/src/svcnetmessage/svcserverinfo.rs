use vstd::prelude::*;
use arrayvec::ArrayString;
use crate::error::ParseFail;
use crate::bits::{Bits, BitStream, Step, sp_bit, sp_u16, sp_u32, sp_u32_as_i32, sp_u8, step_matches};
use crate::header::Header;
use crate::text::{astr260_chars, astr260_len, sp_nts_cap, utf8_len};

verus! {

/// The description of the server a demo was recorded on.
#[derive(Debug, Clone, PartialEq)]
pub struct SSvcServerInfo {
    pub protocol: u16,
    pub server_count: u32,
    pub is_hltv: bool,
    pub is_dedicated: bool,
    pub client_crc: i32,
    pub string_table_crc: Option<u32>,
    pub max_classes: u16,
    pub map_crc: u32,
    pub player_count: u8,
    pub max_clients: u8,
    /// The tick interval in seconds, as the bits of an `f32`.
    pub tick_interval_bits: u32,
    pub platform: char,
    pub game_dir: ArrayString<260>,
    pub map_name: ArrayString<260>,
    pub sky_name: ArrayString<260>,
    pub host_name: ArrayString<260>,
}

pub struct SpecSvcServerInfo {
    pub protocol: u16,
    pub server_count: u32,
    pub is_hltv: bool,
    pub is_dedicated: bool,
    pub client_crc: i32,
    pub string_table_crc: Option<u32>,
    pub max_classes: u16,
    pub map_crc: u32,
    pub player_count: u8,
    pub max_clients: u8,
    pub tick_interval_bits: u32,
    pub platform: char,
    pub game_dir: Seq<char>,
    pub map_name: Seq<char>,
    pub sky_name: Seq<char>,
    pub host_name: Seq<char>,
}

impl DeepView for SSvcServerInfo {
    type V = SpecSvcServerInfo;

    open spec fn deep_view(&self) -> SpecSvcServerInfo {
        SpecSvcServerInfo {
            protocol: self.protocol,
            server_count: self.server_count,
            is_hltv: self.is_hltv,
            is_dedicated: self.is_dedicated,
            client_crc: self.client_crc,
            string_table_crc: self.string_table_crc,
            max_classes: self.max_classes,
            map_crc: self.map_crc,
            player_count: self.player_count,
            max_clients: self.max_clients,
            tick_interval_bits: self.tick_interval_bits,
            platform: self.platform,
            game_dir: astr260_chars(self.game_dir),
            map_name: astr260_chars(self.map_name),
            sky_name: astr260_chars(self.sky_name),
            host_name: astr260_chars(self.host_name),
        }
    }
}

/// The string table checksum, present beyond the old engine.
pub open spec fn sp_string_table_crc(b: Bits, oe: bool) -> Step<Option<u32>> {
    if oe {
        Step::Done(None, b)
    } else {
        sp_u32(b, 32).map(|v: u32| Some(v))
    }
}

/// The server info fields in order; the size counts the fixed fields, the
/// string table checksum where present, and the four names with their
/// terminators.
pub open spec fn sp_serverinfo(b: Bits, oe: bool) -> Step<(SpecSvcServerInfo, u64)> {
    sp_u16(b, 16).and_then(|protocol: u16, b1: Bits|
    sp_u32(b1, 32).and_then(|server_count: u32, b2: Bits|
    sp_bit(b2).and_then(|is_hltv: bool, b3: Bits|
    sp_bit(b3).and_then(|is_dedicated: bool, b4: Bits|
    sp_u32_as_i32(b4).and_then(|client_crc: i32, b5: Bits|
    sp_string_table_crc(b5, oe).and_then(|string_table_crc: Option<u32>, b6: Bits|
    sp_u16(b6, 16).and_then(|max_classes: u16, b7: Bits|
    sp_u32(b7, 32).and_then(|map_crc: u32, b8: Bits|
    sp_u8(b8, 8).and_then(|player_count: u8, b9: Bits|
    sp_u8(b9, 8).and_then(|max_clients: u8, b10: Bits|
    sp_u32(b10, 32).and_then(|tick_interval_bits: u32, b11: Bits|
    sp_u8(b11, 8).and_then(|platform: u8, b12: Bits|
    sp_nts_cap(b12, 260).and_then(|game_dir: Seq<char>, b13: Bits|
    sp_nts_cap(b13, 260).and_then(|map_name: Seq<char>, b14: Bits|
    sp_nts_cap(b14, 260).and_then(|sky_name: Seq<char>, b15: Bits|
    sp_nts_cap(b15, 260).and_then(|host_name: Seq<char>, b16: Bits|
        Step::Done(
            (
                SpecSvcServerInfo {
                    protocol,
                    server_count,
                    is_hltv,
                    is_dedicated,
                    client_crc,
                    string_table_crc,
                    max_classes,
                    map_crc,
                    player_count,
                    max_clients,
                    tick_interval_bits,
                    platform: platform as char,
                    game_dir,
                    map_name,
                    sky_name,
                    host_name,
                },
                (16 + 32 + 1 + 1 + 32 + 16 + 32 + 8 + 8 + 32 + 8 + (utf8_len(game_dir) + utf8_len(map_name)
                    + utf8_len(sky_name) + utf8_len(host_name) + 4) * 8 + if oe { 0nat } else { 32nat }) as u64,
            ),
            b16,
        )))))))))))))))))
}

impl SSvcServerInfo {
    #[verifier::rlimit(40)]
    pub fn bitread(reader: &mut BitStream, header: &Header) -> (res: Result<(SSvcServerInfo, u64), ParseFail>)
        ensures
            step_matches(res, old(reader)@, final(reader)@, sp_serverinfo(old(reader)@, header.deep_view().oe())),
    {
        let mut extrabits: u64 = 0;

        let protocol = reader.read_u16(16)?;
        let server_count = reader.read_u32(32)?;
        let is_hltv = reader.read_bit()?;
        let is_dedicated = reader.read_bit()?;
        let client_crc = reader.read_u32_as_i32()?;

        let string_table_crc = if !header.is_oe() {
            extrabits = extrabits + 32;
            Some(reader.read_u32(32)?)
        } else {
            None
        };

        let max_classes = reader.read_u16(16)?;
        let map_crc = reader.read_u32(32)?;
        let player_count = reader.read_u8(8)?;
        let max_clients = reader.read_u8(8)?;
        let tick_interval_bits = reader.read_float_bits()?;
        let platform = reader.read_u8(8)? as char;
        let game_dir = reader.read_nts_arraystring260()?;
        let map_name = reader.read_nts_arraystring260()?;
        let sky_name = reader.read_nts_arraystring260()?;
        let host_name = reader.read_nts_arraystring260()?;

        let lens = astr260_len(&game_dir) as u64 + astr260_len(&map_name) as u64 + astr260_len(&sky_name) as u64
            + astr260_len(&host_name) as u64;

        Ok((
            SSvcServerInfo {
                protocol,
                server_count,
                is_hltv,
                is_dedicated,
                client_crc,
                string_table_crc,
                max_classes,
                map_crc,
                player_count,
                max_clients,
                tick_interval_bits,
                platform,
                game_dir,
                map_name,
                sky_name,
                host_name,
            },
            16 + 32 + 1 + 1 + 32 + 16 + 32 + 8 + 8 + 32 + 8 + (lens + 4) * 8 + extrabits,
        ))
    }
}

} // verus!
