//! Frames: the units a demo is made of after its header.
use vstd::prelude::*;
use crate::error::{DemError, ParseFail};
use crate::bits::{Bits, BitStream, Step, sp_i32, sp_skip, sp_u32, sp_u8, step_matches};
use crate::header::{Header, SpecHeader};
use crate::messages::consolecmd::{parse_concmd, sp_concmd};
use crate::messages::packet::{SPacket, SpecPacket, sp_packet};
use crate::messages::stringtables::{SDataTables, SStringTables, sp_sized_skip};
use crate::messages::usercmd::{SUserCmd, SpecUserCmd, sp_usercmd};

verus! {

/// A frame: its tick and player slot where present, and its data.
#[derive(Debug, Clone)]
pub struct Frame {
    pub tick: Option<i32>,
    pub slot: Option<u8>,
    pub data: FrameData,
}

/// The data of a frame, by frame type.
#[derive(PartialEq, Clone, Debug)]
pub enum FrameData {
    SignOn(SPacket),
    Packet(SPacket),
    SyncTick,
    ConsoleCmd(String),
    UserCmd(SUserCmd),
    DataTables(SDataTables),
    Stop,
    CustomData(Vec<u8>),
    StringTables(SStringTables),
}

pub enum SpecFrameData {
    SignOn(SpecPacket),
    Packet(SpecPacket),
    SyncTick,
    ConsoleCmd(Seq<char>),
    UserCmd(SpecUserCmd),
    DataTables(SDataTables),
    Stop,
    CustomData(Seq<u8>),
    StringTables(SStringTables),
}

pub struct SpecFrame {
    pub tick: Option<i32>,
    pub slot: Option<u8>,
    pub data: SpecFrameData,
}

impl DeepView for FrameData {
    type V = SpecFrameData;

    open spec fn deep_view(&self) -> SpecFrameData {
        match self {
            FrameData::SignOn(p) => SpecFrameData::SignOn(p.deep_view()),
            FrameData::Packet(p) => SpecFrameData::Packet(p.deep_view()),
            FrameData::SyncTick => SpecFrameData::SyncTick,
            FrameData::ConsoleCmd(s) => SpecFrameData::ConsoleCmd(s@),
            FrameData::UserCmd(u) => SpecFrameData::UserCmd(u.deep_view()),
            FrameData::DataTables(d) => SpecFrameData::DataTables(*d),
            FrameData::Stop => SpecFrameData::Stop,
            FrameData::CustomData(v) => SpecFrameData::CustomData(v.deep_view()),
            FrameData::StringTables(t) => SpecFrameData::StringTables(*t),
        }
    }
}

impl DeepView for Frame {
    type V = SpecFrame;

    open spec fn deep_view(&self) -> SpecFrame {
        SpecFrame { tick: self.tick, slot: self.slot, data: self.data.deep_view() }
    }
}

/// The tick, absent from stop frames.
pub open spec fn sp_frame_tick(b: Bits, msg: i8) -> Step<Option<i32>> {
    if msg == 7 {
        Step::Done(None, b)
    } else {
        sp_i32(b, 32).map(|t: i32| Some(t))
    }
}

/// The player slot, absent from stop frames and from old-engine demos.
pub open spec fn sp_frame_slot(b: Bits, msg: i8, oe: bool) -> Step<Option<u8>> {
    if msg == 7 || oe {
        Step::Done(None, b)
    } else {
        sp_u8(b, 8).map(|s: u8| Some(s))
    }
}

/// Custom data: 32 bits passed over, a size, then that many bytes passed
/// over (a size whose bit count does not fit 32 bits has no answer); the
/// data kept is empty.
pub open spec fn sp_custom_data(b: Bits) -> Step<Seq<u8>> {
    sp_skip(b, 32).and_then(|u: (), b1: Bits|
    sp_u32(b1, 32).and_then(|size: u32, b2: Bits|
        if size * 8 > u32::MAX {
            Step::Abort
        } else {
            sp_skip(b2, (size * 8) as nat).map(|v: ()| Seq::<u8>::empty())
        }))
}

/// The data of a frame of type `msg` in a demo with header `h`.
pub open spec fn sp_frame_data(b: Bits, msg: i8, h: SpecHeader) -> Step<SpecFrameData> {
    if msg == 1 {
        sp_packet(b, h).map(|p: SpecPacket| SpecFrameData::SignOn(p))
    } else if msg == 2 {
        sp_packet(b, h).map(|p: SpecPacket| SpecFrameData::Packet(p))
    } else if msg == 3 {
        Step::Done(SpecFrameData::SyncTick, b)
    } else if msg == 4 {
        sp_concmd(b).map(|s: Seq<char>| SpecFrameData::ConsoleCmd(s))
    } else if msg == 5 {
        sp_usercmd(b).map(|u: SpecUserCmd| SpecFrameData::UserCmd(u))
    } else if msg == 6 {
        sp_sized_skip(b).map(|u: ()| SpecFrameData::DataTables(SDataTables {}))
    } else if msg == 7 {
        Step::Done(SpecFrameData::Stop, b)
    } else if msg == 8 && !h.oe() {
        sp_custom_data(b).map(|v: Seq<u8>| SpecFrameData::CustomData(v))
    } else if msg == 8 || msg == 9 {
        sp_sized_skip(b).map(|u: ()| SpecFrameData::StringTables(SStringTables {}))
    } else {
        Step::Failed(DemError::InvalidFrameType(msg))
    }
}

/// A frame: its type byte, its tick and slot, and its data.
pub open spec fn sp_frame(b: Bits, h: SpecHeader) -> Step<SpecFrame> {
    sp_i32(b, 8).and_then(|m: i32, b1: Bits|
        {
            let msg = m as i8;
            sp_frame_tick(b1, msg).and_then(|tick: Option<i32>, b2: Bits|
            sp_frame_slot(b2, msg, h.oe()).and_then(|slot: Option<u8>, b3: Bits|
            sp_frame_data(b3, msg, h).and_then(|data: SpecFrameData, b4: Bits|
                Step::Done(SpecFrame { tick, slot, data }, b4))))
        })
}

/// `read_custom_data`.
fn read_custom_data(br: &mut BitStream) -> (res: Result<Vec<u8>, ParseFail>)
    ensures
        step_matches(res, old(br)@, final(br)@, sp_custom_data(old(br)@)),
{
    br.skip(32)?;
    let raw = br.read_u32(32)?;
    if raw > u32::MAX / 8 {
        return Err(ParseFail::Abort);
    }
    br.skip(raw * 8)?;
    let v: Vec<u8> = Vec::new();
    assert(v.deep_view() =~= Seq::<u8>::empty());
    Ok(v)
}

#[verifier::rlimit(50)]
fn read_frame_data(br: &mut BitStream, msg: i8, header: &Header) -> (res: Result<FrameData, ParseFail>)
    ensures
        step_matches(res, old(br)@, final(br)@, sp_frame_data(old(br)@, msg, header.deep_view())),
{
    if msg == 1 {
        Ok(FrameData::SignOn(SPacket::from_br(br, header)?))
    } else if msg == 2 {
        Ok(FrameData::Packet(SPacket::from_br(br, header)?))
    } else if msg == 3 {
        Ok(FrameData::SyncTick)
    } else if msg == 4 {
        Ok(FrameData::ConsoleCmd(parse_concmd(br)?))
    } else if msg == 5 {
        Ok(FrameData::UserCmd(SUserCmd::from_br(br)?))
    } else if msg == 6 {
        Ok(FrameData::DataTables(SDataTables::from_br(br)?))
    } else if msg == 7 {
        Ok(FrameData::Stop)
    } else if msg == 8 && !header.is_oe() {
        Ok(FrameData::CustomData(read_custom_data(br)?))
    } else if msg == 8 || msg == 9 {
        Ok(FrameData::StringTables(SStringTables::from_br(br)?))
    } else {
        Err(ParseFail::Error(DemError::InvalidFrameType(msg)))
    }
}

impl Frame {
    /// Decodes the next frame of a demo with this header.  A frame always
    /// consumes at least its type byte.
    pub fn from_br(br: &mut BitStream, header: &Header) -> (res: Result<Self, ParseFail>)
        ensures
            step_matches(res, old(br)@, final(br)@, sp_frame(old(br)@, header.deep_view())),
            res is Ok ==> final(br)@.len() + 8 <= old(br)@.len(),
    {
        let msg = br.read_i32(8)? as i8;

        let tick = if msg == 7 {
            None
        } else {
            Some(br.read_i32(32)?)
        };

        let slot = if msg == 7 || header.is_oe() {
            None
        } else {
            Some(br.read_u8(8)?)
        };

        let data = read_frame_data(br, msg, header)?;

        Ok(Frame { tick, slot, data })
    }

    /// The packet of a sign-on frame.
    pub fn as_signon(&self) -> (r: Option<&SPacket>)
        ensures
            match self.data {
                FrameData::SignOn(p) => r == Some(&p),
                _ => r is None,
            },
    {
        if let FrameData::SignOn(packet) = &self.data {
            Some(packet)
        } else {
            None
        }
    }

    /// The packet of a packet frame.
    pub fn as_packet(&self) -> (r: Option<&SPacket>)
        ensures
            match self.data {
                FrameData::Packet(p) => r == Some(&p),
                _ => r is None,
            },
    {
        if let FrameData::Packet(packet) = &self.data {
            Some(packet)
        } else {
            None
        }
    }
}

} // verus!
