use vstd::prelude::*;
use vstd::utf8::{decode_utf8, valid_utf8};
use crate::error::{DemError, ParseFail};
use crate::bits::{Bits, BitStream, Step, sp_bytes, sp_i32, sp_u32, sp_u8, step_matches};
use crate::text::str_from_utf8;

verus! {

/// Where a client stands in the sign-on handshake.
#[derive(Debug, Clone, Copy, PartialEq, Eq, Structural)]
pub enum SignOnState {
    NoState,
    Challenge,
    Connected,
    New,
    PreSpawn,
    Spawn,
    Full,
    ChangeLevel,
}

impl DeepView for SignOnState {
    type V = SignOnState;

    open spec fn deep_view(&self) -> SignOnState {
        *self
    }
}

/// The state of each code from 0 to 7; other codes name none.
pub open spec fn signon_state_of(i: u8) -> Option<SignOnState> {
    if i == 0 {
        Some(SignOnState::NoState)
    } else if i == 1 {
        Some(SignOnState::Challenge)
    } else if i == 2 {
        Some(SignOnState::Connected)
    } else if i == 3 {
        Some(SignOnState::New)
    } else if i == 4 {
        Some(SignOnState::PreSpawn)
    } else if i == 5 {
        Some(SignOnState::Spawn)
    } else if i == 6 {
        Some(SignOnState::Full)
    } else if i == 7 {
        Some(SignOnState::ChangeLevel)
    } else {
        Option::None
    }
}

impl SignOnState {
    /// The state of a code, an error for a code above 7.
    pub fn try_from(i: u8) -> (res: Result<SignOnState, DemError>)
        ensures
            match signon_state_of(i) {
                Some(s) => res == Ok::<SignOnState, DemError>(s),
                Option::None => res == Err::<SignOnState, DemError>(DemError::NoSuchSignOnState(i)),
            },
    {
        match i {
            0 => Ok(SignOnState::NoState),
            1 => Ok(SignOnState::Challenge),
            2 => Ok(SignOnState::Connected),
            3 => Ok(SignOnState::New),
            4 => Ok(SignOnState::PreSpawn),
            5 => Ok(SignOnState::Spawn),
            6 => Ok(SignOnState::Full),
            7 => Ok(SignOnState::ChangeLevel),
            _ => Err(DemError::NoSuchSignOnState(i)),
        }
    }
}

/// A change of sign-on state.
#[derive(Debug, Clone, PartialEq)]
pub struct SNetSignOnState {
    pub signon_state: SignOnState,
    pub spawn_count: i32,
    pub num_server_players: Option<u32>,
    pub players_network_ids: Option<Vec<u8>>,
    pub mapname: Option<String>,
}

pub struct SpecNetSignOnState {
    pub signon_state: SignOnState,
    pub spawn_count: i32,
    pub num_server_players: Option<u32>,
    pub players_network_ids: Option<Seq<u8>>,
    pub mapname: Option<Seq<char>>,
}

impl DeepView for SNetSignOnState {
    type V = SpecNetSignOnState;

    open spec fn deep_view(&self) -> SpecNetSignOnState {
        SpecNetSignOnState {
            signon_state: self.signon_state,
            spawn_count: self.spawn_count,
            num_server_players: self.num_server_players,
            players_network_ids: self.players_network_ids.deep_view(),
            mapname: self.mapname.deep_view(),
        }
    }
}

/// The state and spawn count; beyond the old engine also the player count,
/// the network ids and the map name, each of the last two after its byte
/// length.  The size counts the state, the spawn count, the id bytes, one
/// length field and the name bytes.
pub open spec fn sp_signon(b: Bits, oe: bool) -> Step<(SpecNetSignOnState, u64)> {
    sp_u8(b, 8).and_then(|code: u8, b1: Bits|
        match signon_state_of(code) {
            Option::None => Step::Failed(DemError::NoSuchSignOnState(code)),
            Some(signon_state) => sp_i32(b1, 32).and_then(|spawn_count: i32, b2: Bits|
                if oe {
                    Step::Done(
                        (
                            SpecNetSignOnState {
                                signon_state,
                                spawn_count,
                                num_server_players: Option::None,
                                players_network_ids: Option::None,
                                mapname: Option::None,
                            },
                            40u64,
                        ),
                        b2,
                    )
                } else {
                    sp_u32(b2, 32).and_then(|num_server_players: u32, b3: Bits|
                    sp_u32(b3, 32).and_then(|idlen: u32, b4: Bits|
                    sp_bytes(b4, idlen as nat).and_then(|ids: Seq<u8>, b5: Bits|
                    sp_u32(b5, 32).and_then(|strlen: u32, b6: Bits|
                    sp_bytes(b6, strlen as nat).and_then(|name: Seq<u8>, b7: Bits|
                        if valid_utf8(name) {
                            Step::Done(
                                (
                                    SpecNetSignOnState {
                                        signon_state,
                                        spawn_count,
                                        num_server_players: Some(num_server_players),
                                        players_network_ids: Some(ids),
                                        mapname: Some(decode_utf8(name)),
                                    },
                                    (8 + 32 + strlen * 8 + 32 + idlen * 8) as u64,
                                ),
                                b7,
                            )
                        } else {
                            Step::Failed(DemError::InvalidUtf8)
                        })))))
                }),
        })
}

impl SNetSignOnState {
    pub fn bitread(reader: &mut BitStream, oe: bool) -> (res: Result<(SNetSignOnState, u64), ParseFail>)
        ensures
            step_matches(res, old(reader)@, final(reader)@, sp_signon(old(reader)@, oe)),
    {
        let code = reader.read_u8(8)?;
        let signon_state = match SignOnState::try_from(code) {
            Ok(s) => s,
            Err(e) => return Err(ParseFail::Error(e)),
        };
        let spawn_count = reader.read_i32(32)?;

        let mut num_server_players = None;
        let mut players_network_ids = None;
        let mut mapname = None;
        let mut nebits: u64 = 0;

        if !oe {
            num_server_players = Some(reader.read_u32(32)?);

            let idlen = reader.read_u32(32)?;
            let ids = reader.read_to_vec(idlen as usize)?;
            players_network_ids = Some(ids);

            let strlen = reader.read_u32(32)?;
            let name = reader.read_to_vec(strlen as usize)?;
            assert(name.deep_view() =~= name@);
            mapname = match str_from_utf8(name.as_slice()) {
                Some(s) => Some(s.to_owned()),
                None => return Err(ParseFail::Error(DemError::InvalidUtf8)),
            };

            nebits = strlen as u64 * 8 + 32 + idlen as u64 * 8;
        }

        Ok((
            SNetSignOnState {
                signon_state,
                spawn_count,
                num_server_players,
                players_network_ids,
                mapname,
            },
            8 + 32 + nebits,
        ))
    }
}

} // verus!
