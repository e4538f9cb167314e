//! The demo header: its fields, the game it identifies and how many local
//! players each packet describes.
use vstd::prelude::*;
use arrayvec::ArrayString;
use crate::error::ParseFail;
use crate::bits::{Bits, BitStream, Step, sp_i32, sp_u32, sp_u32_as_i32, step_matches};
use crate::text::{astr8_chars, astr260_chars, sp_fixed_str, sp_fixed_str_notrim, stamp_is_hl2demo};

verus! {

/// The longest path a header field holds, in bytes.
pub const MAX_PATH: usize = 260;

/// The game and engine version a demo comes from, as its protocol numbers tell.
#[derive(Copy, Clone, Debug, PartialEq, Eq, Structural)]
pub enum Game {
    HL2OldEngine,
    Portal3420,
    SourceUnpack,
    Source2013,
    L4D1005,
    L4D1040,
    L4D2000,
    Portal2,
    L4D2012,
    L4D2027,
    L4D2042,
    L4D2203,
    Unknown,
}

impl DeepView for Game {
    type V = Game;

    open spec fn deep_view(&self) -> Game {
        *self
    }
}

impl Game {
    /// The Left 4 Dead builds.
    pub open spec fn l4d(self) -> bool {
        ||| self is L4D1005
        ||| self is L4D1040
        ||| self is L4D2000
        ||| self is L4D2012
        ||| self is L4D2027
        ||| self is L4D2042
        ||| self is L4D2203
    }

    /// The Orange Box era builds.
    pub open spec fn orangebox(self) -> bool {
        ||| self is HL2OldEngine
        ||| self is Portal3420
        ||| self is SourceUnpack
        ||| self is Source2013
    }

    pub fn is_l4d(&self) -> (r: bool)
        ensures
            r == self.l4d(),
    {
        match self {
            Game::L4D1005 | Game::L4D1040 | Game::L4D2000 | Game::L4D2012 | Game::L4D2027
            | Game::L4D2042 | Game::L4D2203 => true,
            _ => false,
        }
    }

    pub fn is_orangebox(&self) -> (r: bool)
        ensures
            r == self.orangebox(),
    {
        match self {
            Game::HL2OldEngine | Game::Portal3420 | Game::SourceUnpack | Game::Source2013 => true,
            _ => false,
        }
    }
}

/// The game that a pair of demo and network protocol numbers identifies.
pub open spec fn game_of(demo_protocol: i32, network_protocol: i32) -> Game {
    if demo_protocol == 3 {
        if network_protocol == 7 {
            Game::HL2OldEngine
        } else if network_protocol == 14 {
            Game::Portal3420
        } else if network_protocol == 15 {
            Game::SourceUnpack
        } else if network_protocol == 24 {
            Game::Source2013
        } else {
            Game::Unknown
        }
    } else if demo_protocol == 4 {
        if network_protocol == 37 {
            Game::L4D1005
        } else if network_protocol == 1040 {
            Game::L4D1040
        } else if network_protocol == 2000 {
            Game::L4D2000
        } else if network_protocol == 2001 {
            Game::Portal2
        } else if network_protocol == 2012 {
            Game::L4D2012
        } else if network_protocol == 2027 {
            Game::L4D2027
        } else if network_protocol == 2042 {
            Game::L4D2042
        } else if network_protocol == 2100 {
            Game::L4D2203
        } else {
            Game::Unknown
        }
    } else {
        Game::Unknown
    }
}

/// How many local players (each with its own command info) a packet carries
/// for a demo of this game and demo protocol.
pub open spec fn mssc_of(game: Game, demo_protocol: i32) -> u8 {
    if game.orangebox() {
        1
    } else if game is Portal2 || (game is Unknown && demo_protocol == 4) {
        2
    } else if game.l4d() {
        4
    } else {
        1
    }
}

/// The header of a demo file.
#[derive(Clone, Debug)]
pub struct Header {
    pub stamp: ArrayString<8>,
    pub demo_protocol: i32,
    pub network_protocol: i32,
    pub server_name: ArrayString<MAX_PATH>,
    pub client_name: ArrayString<MAX_PATH>,
    pub map_name: ArrayString<MAX_PATH>,
    pub game_directory: ArrayString<MAX_PATH>,
    /// The playback time in seconds, as the bits of an `f32`.
    pub time_bits: u32,
    pub ticks: i32,
    pub frames: i32,
    pub signon_len: i32,
    pub game: Game,
    pub mssc: u8,
}

/// The mathematical value of a [`Header`].
pub struct SpecHeader {
    pub stamp: Seq<char>,
    pub demo_protocol: i32,
    pub network_protocol: i32,
    pub server_name: Seq<char>,
    pub client_name: Seq<char>,
    pub map_name: Seq<char>,
    pub game_directory: Seq<char>,
    pub time_bits: u32,
    pub ticks: i32,
    pub frames: i32,
    pub signon_len: i32,
    pub game: Game,
    pub mssc: u8,
}

impl SpecHeader {
    /// Demos of the old engine (demo protocol below 4).
    pub open spec fn oe(self) -> bool {
        self.demo_protocol < 4
    }
}

impl DeepView for Header {
    type V = SpecHeader;

    open spec fn deep_view(&self) -> SpecHeader {
        SpecHeader {
            stamp: astr8_chars(self.stamp),
            demo_protocol: self.demo_protocol,
            network_protocol: self.network_protocol,
            server_name: astr260_chars(self.server_name),
            client_name: astr260_chars(self.client_name),
            map_name: astr260_chars(self.map_name),
            game_directory: astr260_chars(self.game_directory),
            time_bits: self.time_bits,
            ticks: self.ticks,
            frames: self.frames,
            signon_len: self.signon_len,
            game: self.game,
            mssc: self.mssc,
        }
    }
}

/// The stamp that opens every valid demo.
pub open spec fn demo_stamp() -> Seq<char> {
    seq!['H', 'L', '2', 'D', 'E', 'M', 'O', '\0']
}

/// The header fields in order, the game and the local player count derived
/// from the protocol numbers.
pub open spec fn sp_header(b: Bits) -> Step<SpecHeader> {
    sp_fixed_str_notrim(b, 8).and_then(|stamp: Seq<char>, b1: Bits|
    sp_i32(b1, 32).and_then(|demo_protocol: i32, b2: Bits|
    sp_i32(b2, 32).and_then(|network_protocol: i32, b3: Bits|
    sp_fixed_str(b3, 260).and_then(|server_name: Seq<char>, b4: Bits|
    sp_fixed_str(b4, 260).and_then(|client_name: Seq<char>, b5: Bits|
    sp_fixed_str(b5, 260).and_then(|map_name: Seq<char>, b6: Bits|
    sp_fixed_str(b6, 260).and_then(|game_directory: Seq<char>, b7: Bits|
    sp_u32(b7, 32).and_then(|time_bits: u32, b8: Bits|
    sp_i32(b8, 32).and_then(|ticks: i32, b9: Bits|
    sp_i32(b9, 32).and_then(|frames: i32, b10: Bits|
    sp_u32_as_i32(b10).and_then(|signon_len: i32, b11: Bits|
        {
            let game = game_of(demo_protocol, network_protocol);
            Step::Done(
                SpecHeader {
                    stamp,
                    demo_protocol,
                    network_protocol,
                    server_name,
                    client_name,
                    map_name,
                    game_directory,
                    time_bits,
                    ticks,
                    frames,
                    signon_len,
                    game,
                    mssc: mssc_of(game, demo_protocol),
                },
                b11,
            )
        })))))))))))
}

fn game_from_protocols(demo_protocol: i32, network_protocol: i32) -> (g: Game)
    ensures
        g == game_of(demo_protocol, network_protocol),
{
    match (demo_protocol, network_protocol) {
        (3, 7) => Game::HL2OldEngine,
        (3, 14) => Game::Portal3420,
        (3, 15) => Game::SourceUnpack,
        (3, 24) => Game::Source2013,
        (4, 37) => Game::L4D1005,
        (4, 1040) => Game::L4D1040,
        (4, 2000) => Game::L4D2000,
        (4, 2001) => Game::Portal2,
        (4, 2012) => Game::L4D2012,
        (4, 2027) => Game::L4D2027,
        (4, 2042) => Game::L4D2042,
        (4, 2100) => Game::L4D2203,
        _ => Game::Unknown,
    }
}

impl Header {
    /// Decodes the header at the start of a demo.
    pub fn from_br(br: &mut BitStream) -> (res: Result<Self, ParseFail>)
        ensures
            step_matches(res, old(br)@, final(br)@, sp_header(old(br)@)),
    {
        let stamp = br.read_fixed_arraystr_notrim8()?;
        let demo_protocol = br.read_i32(32)?;
        let network_protocol = br.read_i32(32)?;
        let server_name = br.read_fixed_arraystr260()?;
        let client_name = br.read_fixed_arraystr260()?;
        let map_name = br.read_fixed_arraystr260()?;
        let game_directory = br.read_fixed_arraystr260()?;
        let time_bits = br.read_float_bits()?;
        let ticks = br.read_i32(32)?;
        let frames = br.read_i32(32)?;
        let signon_len = br.read_u32_as_i32()?;

        let game = game_from_protocols(demo_protocol, network_protocol);

        let mssc;
        if game.is_orangebox() {
            mssc = 1;
        } else if game == Game::Portal2 || (game == Game::Unknown && demo_protocol == 4) {
            mssc = 2;
        } else if game.is_l4d() {
            mssc = 4;
        } else {
            mssc = 1;
        }

        Ok(Header {
            stamp,
            demo_protocol,
            network_protocol,
            server_name,
            client_name,
            map_name,
            game_directory,
            time_bits,
            ticks,
            frames,
            signon_len,
            game,
            mssc,
        })
    }

    /// Whether the stamp is that of a demo.
    pub fn is_valid(&self) -> (r: bool)
        ensures
            r == (self.deep_view().stamp == demo_stamp()),
    {
        stamp_is_hl2demo(&self.stamp)
    }

    /// Whether the demo comes from the old engine.
    pub fn is_oe(&self) -> (r: bool)
        ensures
            r == self.deep_view().oe(),
    {
        self.demo_protocol < 4
    }
}

} // verus!
