use vstd::prelude::*;
use crate::error::{DemError, ParseFail};
use crate::bits::{Bits, BitStream, Step, sp_skip, sp_u32, sp_u32_as_i32, sp_u8, step_matches, uval};
use crate::header::{Header, SpecHeader};
use crate::text::{sp_nts, string_len, utf8_len};
use crate::svcnetmessage::netfile::{SNetFile, SpecNetFile, sp_netfile};
use crate::svcnetmessage::netsignonstate::{SNetSignOnState, SpecNetSignOnState, sp_signon};
use crate::svcnetmessage::nettick::{SNetTick, sp_nettick};
use crate::svcnetmessage::svcclassinfo::{SSvcClassInfo, SpecSvcClassInfo, sp_classinfo};
use crate::svcnetmessage::svccreatestringtable::{SSvcCreateStringTable, SpecSvcCreateStringTable, sp_create_string_table};
use crate::svcnetmessage::svcgameeventlist::{SSvcGameEventList, SpecSvcGameEventList, sp_game_event_list};
use crate::svcnetmessage::svcserverinfo::{SSvcServerInfo, SpecSvcServerInfo, sp_serverinfo};
use crate::svcnetmessage::svcvoiceinit::{SSvcVoiceInit, SpecSvcVoiceInit, sp_voiceinit};

verus! {

/// A net or svc message inside a packet.  Only some kinds carry decoded data.
#[derive(PartialEq, Clone, Debug)]
pub enum NetSvcMessage {
    NetNop,
    NetDisconnect(String),
    NetFile(SNetFile),
    NetSplitScreenUser,
    NetTick(SNetTick),
    NetStringCmd,
    NetSetConVar,
    NetSignonState(SNetSignOnState),
    SvcServerInfo(SSvcServerInfo),
    SvcSendTable,
    SvcClassInfo(SSvcClassInfo),
    SvcSetPause,
    SvcCreateStringTable(SSvcCreateStringTable),
    SvcUpdateStringTable,
    SvcVoiceInit(SSvcVoiceInit),
    SvcVoiceData,
    SvcPrint,
    SvcSounds,
    SvcSetView,
    SvcFixAngle,
    SvcCrosshairAngle,
    SvcBspDecal,
    SvcSplitScreen,
    SvcUserMessage,
    SvcEntityMessage,
    SvcGameEvent,
    SvcPacketEntities,
    SvcTempEntities,
    SvcPrefetch,
    SvcMenu,
    SvcGameEventList(SSvcGameEventList),
    SvcGetCvarValue,
    SvcCmdKeyValues,
    SvcPaintmapData,
    SvcEncryptedData,
    SvcHltvReplay,
    SvcBroadcastCommand,
    NetPlayerAvatarData,
}

/// The mathematical value of a [`NetSvcMessage`].
pub enum SpecNetSvcMessage {
    NetNop,
    NetDisconnect(Seq<char>),
    NetFile(SpecNetFile),
    NetSplitScreenUser,
    NetTick(SNetTick),
    NetStringCmd,
    NetSetConVar,
    NetSignonState(SpecNetSignOnState),
    SvcServerInfo(SpecSvcServerInfo),
    SvcSendTable,
    SvcClassInfo(SpecSvcClassInfo),
    SvcSetPause,
    SvcCreateStringTable(SpecSvcCreateStringTable),
    SvcUpdateStringTable,
    SvcVoiceInit(SpecSvcVoiceInit),
    SvcVoiceData,
    SvcPrint,
    SvcSounds,
    SvcSetView,
    SvcFixAngle,
    SvcCrosshairAngle,
    SvcBspDecal,
    SvcSplitScreen,
    SvcUserMessage,
    SvcEntityMessage,
    SvcGameEvent,
    SvcPacketEntities,
    SvcTempEntities,
    SvcPrefetch,
    SvcMenu,
    SvcGameEventList(SpecSvcGameEventList),
    SvcGetCvarValue,
    SvcCmdKeyValues,
    SvcPaintmapData,
    SvcEncryptedData,
    SvcHltvReplay,
    SvcBroadcastCommand,
    NetPlayerAvatarData,
}

impl DeepView for NetSvcMessage {
    type V = SpecNetSvcMessage;

    open spec fn deep_view(&self) -> SpecNetSvcMessage {
        match self {
            NetSvcMessage::NetNop => SpecNetSvcMessage::NetNop,
            NetSvcMessage::NetDisconnect(s) => SpecNetSvcMessage::NetDisconnect(s@),
            NetSvcMessage::NetFile(m) => SpecNetSvcMessage::NetFile(m.deep_view()),
            NetSvcMessage::NetSplitScreenUser => SpecNetSvcMessage::NetSplitScreenUser,
            NetSvcMessage::NetTick(m) => SpecNetSvcMessage::NetTick(*m),
            NetSvcMessage::NetStringCmd => SpecNetSvcMessage::NetStringCmd,
            NetSvcMessage::NetSetConVar => SpecNetSvcMessage::NetSetConVar,
            NetSvcMessage::NetSignonState(m) => SpecNetSvcMessage::NetSignonState(m.deep_view()),
            NetSvcMessage::SvcServerInfo(m) => SpecNetSvcMessage::SvcServerInfo(m.deep_view()),
            NetSvcMessage::SvcSendTable => SpecNetSvcMessage::SvcSendTable,
            NetSvcMessage::SvcClassInfo(m) => SpecNetSvcMessage::SvcClassInfo(m.deep_view()),
            NetSvcMessage::SvcSetPause => SpecNetSvcMessage::SvcSetPause,
            NetSvcMessage::SvcCreateStringTable(m) => SpecNetSvcMessage::SvcCreateStringTable(m.deep_view()),
            NetSvcMessage::SvcUpdateStringTable => SpecNetSvcMessage::SvcUpdateStringTable,
            NetSvcMessage::SvcVoiceInit(m) => SpecNetSvcMessage::SvcVoiceInit(m.deep_view()),
            NetSvcMessage::SvcVoiceData => SpecNetSvcMessage::SvcVoiceData,
            NetSvcMessage::SvcPrint => SpecNetSvcMessage::SvcPrint,
            NetSvcMessage::SvcSounds => SpecNetSvcMessage::SvcSounds,
            NetSvcMessage::SvcSetView => SpecNetSvcMessage::SvcSetView,
            NetSvcMessage::SvcFixAngle => SpecNetSvcMessage::SvcFixAngle,
            NetSvcMessage::SvcCrosshairAngle => SpecNetSvcMessage::SvcCrosshairAngle,
            NetSvcMessage::SvcBspDecal => SpecNetSvcMessage::SvcBspDecal,
            NetSvcMessage::SvcSplitScreen => SpecNetSvcMessage::SvcSplitScreen,
            NetSvcMessage::SvcUserMessage => SpecNetSvcMessage::SvcUserMessage,
            NetSvcMessage::SvcEntityMessage => SpecNetSvcMessage::SvcEntityMessage,
            NetSvcMessage::SvcGameEvent => SpecNetSvcMessage::SvcGameEvent,
            NetSvcMessage::SvcPacketEntities => SpecNetSvcMessage::SvcPacketEntities,
            NetSvcMessage::SvcTempEntities => SpecNetSvcMessage::SvcTempEntities,
            NetSvcMessage::SvcPrefetch => SpecNetSvcMessage::SvcPrefetch,
            NetSvcMessage::SvcMenu => SpecNetSvcMessage::SvcMenu,
            NetSvcMessage::SvcGameEventList(m) => SpecNetSvcMessage::SvcGameEventList(m.deep_view()),
            NetSvcMessage::SvcGetCvarValue => SpecNetSvcMessage::SvcGetCvarValue,
            NetSvcMessage::SvcCmdKeyValues => SpecNetSvcMessage::SvcCmdKeyValues,
            NetSvcMessage::SvcPaintmapData => SpecNetSvcMessage::SvcPaintmapData,
            NetSvcMessage::SvcEncryptedData => SpecNetSvcMessage::SvcEncryptedData,
            NetSvcMessage::SvcHltvReplay => SpecNetSvcMessage::SvcHltvReplay,
            NetSvcMessage::SvcBroadcastCommand => SpecNetSvcMessage::SvcBroadcastCommand,
            NetSvcMessage::NetPlayerAvatarData => SpecNetSvcMessage::NetPlayerAvatarData,
        }
    }
}

/// The command info of one local player.  The vectors are kept as the bits
/// of their `f32` components.
#[derive(PartialEq, Eq, Clone, Copy, Debug)]
pub struct CmdInfo {
    pub flags: i32,
    pub view_origin: [u32; 3],
    pub view_angles: [u32; 3],
    pub local_view_angles: [u32; 3],
    pub view_origin_2: [u32; 3],
    pub view_angles_2: [u32; 3],
    pub local_view_angles_2: [u32; 3],
}

pub struct SpecCmdInfo {
    pub flags: i32,
    pub view_origin: Seq<u32>,
    pub view_angles: Seq<u32>,
    pub local_view_angles: Seq<u32>,
    pub view_origin_2: Seq<u32>,
    pub view_angles_2: Seq<u32>,
    pub local_view_angles_2: Seq<u32>,
}

impl DeepView for CmdInfo {
    type V = SpecCmdInfo;

    open spec fn deep_view(&self) -> SpecCmdInfo {
        SpecCmdInfo {
            flags: self.flags,
            view_origin: self.view_origin@,
            view_angles: self.view_angles@,
            local_view_angles: self.local_view_angles@,
            view_origin_2: self.view_origin_2@,
            view_angles_2: self.view_angles_2@,
            local_view_angles_2: self.local_view_angles_2@,
        }
    }
}

/// The number of 32-bit words of a command info (76 bytes).
pub open spec fn cmd_info_words() -> nat {
    19
}

/// `n` consecutive 32-bit values.
pub open spec fn sp_words(b: Bits, n: nat) -> Step<Seq<u32>> {
    if b.len() >= 32 * n {
        Step::Done(Seq::new(n, |i: int| uval(b.skip(32 * i), 32)), b.skip(32 * n as int))
    } else {
        Step::Failed(DemError::Eof)
    }
}

/// The command info that 19 words spell: the flags, then six vectors of
/// three components each.
pub open spec fn cmd_info_of(w: Seq<u32>) -> SpecCmdInfo {
    SpecCmdInfo {
        flags: w[0] as i32,
        view_origin: w.subrange(1, 4),
        view_angles: w.subrange(4, 7),
        local_view_angles: w.subrange(7, 10),
        view_origin_2: w.subrange(10, 13),
        view_angles_2: w.subrange(13, 16),
        local_view_angles_2: w.subrange(16, 19),
    }
}

pub open spec fn sp_cmd_info(b: Bits) -> Step<SpecCmdInfo> {
    sp_words(b, cmd_info_words()).map(|w: Seq<u32>| cmd_info_of(w))
}

/// `left` more command infos appended to `acc`.
pub open spec fn sp_cmd_infos(b: Bits, left: nat, acc: Seq<SpecCmdInfo>) -> Step<Seq<SpecCmdInfo>>
    decreases left,
{
    if left == 0 {
        Step::Done(acc, b)
    } else {
        match sp_cmd_info(b) {
            Step::Done(c, b1) => sp_cmd_infos(b1, (left - 1) as nat, acc.push(c)),
            Step::Failed(e) => Step::Failed(e),
            Step::Abort => Step::Abort,
        }
    }
}

/// A disconnect message: two zero-terminated strings, the second being the
/// reason kept; the size counts eight bits per UTF-8 byte of the first and
/// one bit more.
pub open spec fn sp_disconnect(b: Bits) -> Step<(SpecNetSvcMessage, u64)> {
    sp_nts(b).and_then(|first: Seq<char>, b1: Bits|
    sp_nts(b1).and_then(|reason: Seq<char>, b2: Bits|
        if 8 * utf8_len(first) + 1 > u64::MAX {
            Step::Abort
        } else {
            Step::Done((SpecNetSvcMessage::NetDisconnect(reason), (8 * utf8_len(first) + 1) as u64), b2)
        }))
}

/// The message of type `kind` and its size count, as decoded for a demo
/// with header `h`; unknown kinds are an error.
pub open spec fn sp_net_svc_message(b: Bits, kind: u8, h: SpecHeader) -> Step<(SpecNetSvcMessage, u64)> {
    let oe = h.oe();
    if kind == 0 {
        Step::Done((SpecNetSvcMessage::NetNop, 0u64), b)
    } else if kind == 1 {
        sp_disconnect(b)
    } else if kind == 2 {
        sp_netfile(b).map(|p: (SpecNetFile, u64)| (SpecNetSvcMessage::NetFile(p.0), p.1))
    } else if (kind == 3 && oe) || (kind == 4 && !oe) {
        sp_nettick(b).map(|p: (SNetTick, u64)| (SpecNetSvcMessage::NetTick(p.0), p.1))
    } else if (kind == 6 && oe) || kind == 7 {
        sp_signon(b, oe).map(|p: (SpecNetSignOnState, u64)| (SpecNetSvcMessage::NetSignonState(p.0), p.1))
    } else if kind == 8 {
        sp_serverinfo(b, oe).map(|p: (SpecSvcServerInfo, u64)| (SpecNetSvcMessage::SvcServerInfo(p.0), p.1))
    } else if kind == 10 {
        sp_classinfo(b).map(|p: (SpecSvcClassInfo, u64)| (SpecNetSvcMessage::SvcClassInfo(p.0), p.1))
    } else if kind == 12 {
        sp_create_string_table(b, oe).map(
            |p: (SpecSvcCreateStringTable, u64)| (SpecNetSvcMessage::SvcCreateStringTable(p.0), p.1),
        )
    } else if kind == 14 {
        sp_voiceinit(b).map(|p: (SpecSvcVoiceInit, u64)| (SpecNetSvcMessage::SvcVoiceInit(p.0), p.1))
    } else if kind == 30 {
        sp_game_event_list(b).map(|p: (SpecSvcGameEventList, u64)| (SpecNetSvcMessage::SvcGameEventList(p.0), p.1))
    } else {
        Step::Failed(DemError::UnknownNetSvcMessage(kind))
    }
}

/// Messages appended to `acc` while at least six bits of the `remaining`
/// count are left; each costs six bits for its kind and its size count, and
/// a size beyond what is left has no answer.  Fewer than six bits left are
/// passed over.
pub open spec fn sp_net_svc_messages(b: Bits, remaining: nat, h: SpecHeader, acc: Seq<SpecNetSvcMessage>) -> Step<
    Seq<SpecNetSvcMessage>,
>
    decreases remaining,
{
    if remaining < 6 {
        sp_skip(b, remaining).map(|u: ()| acc)
    } else {
        match sp_u8(b, 6) {
            Step::Done(kind, b1) => match sp_net_svc_message(b1, kind, h) {
                Step::Done(ms, b2) => if ms.1 > remaining - 6 {
                    Step::Abort
                } else {
                    sp_net_svc_messages(b2, (remaining - 6 - ms.1) as nat, h, acc.push(ms.0))
                },
                Step::Failed(e) => Step::Failed(e),
                Step::Abort => Step::Abort,
            },
            Step::Failed(e) => Step::Failed(e),
            Step::Abort => Step::Abort,
        }
    }
}

/// A packet: one command info per local player, the two sequence numbers,
/// then a byte count and that many bytes of messages.
#[derive(PartialEq, Clone, Debug)]
pub struct SPacket {
    pub info: Vec<CmdInfo>,
    pub in_seq: i32,
    pub out_seq: i32,
    pub data: Vec<NetSvcMessage>,
}

pub struct SpecPacket {
    pub info: Seq<SpecCmdInfo>,
    pub in_seq: i32,
    pub out_seq: i32,
    pub data: Seq<SpecNetSvcMessage>,
}

impl DeepView for SPacket {
    type V = SpecPacket;

    open spec fn deep_view(&self) -> SpecPacket {
        SpecPacket {
            info: self.info.deep_view(),
            in_seq: self.in_seq,
            out_seq: self.out_seq,
            data: self.data.deep_view(),
        }
    }
}

pub open spec fn sp_packet(b: Bits, h: SpecHeader) -> Step<SpecPacket> {
    sp_cmd_infos(b, h.mssc as nat, seq![]).and_then(|info: Seq<SpecCmdInfo>, b1: Bits|
    sp_u32_as_i32(b1).and_then(|in_seq: i32, b2: Bits|
    sp_u32_as_i32(b2).and_then(|out_seq: i32, b3: Bits|
    sp_u32(b3, 32).and_then(|size: u32, b4: Bits|
    sp_net_svc_messages(b4, size as nat * 8, h, seq![]).and_then(|data: Seq<SpecNetSvcMessage>, b5: Bits|
        Step::Done(SpecPacket { info, in_seq, out_seq, data }, b5))))))
}

impl CmdInfo {
    pub fn from_br(br: &mut BitStream) -> (res: Result<Self, ParseFail>)
        ensures
            step_matches(res, old(br)@, final(br)@, sp_cmd_info(old(br)@)),
    {
        let ghost b0 = br@;
        let mut w: Vec<u32> = Vec::with_capacity(19);
        let mut i: usize = 0;
        while i < 19
            invariant
                i <= 19,
                w.len() == i,
                b0.len() >= 32 * i,
                br@ == b0.skip(32 * i),
                forall|j: int| 0 <= j < i ==> w@[j] == uval(b0.skip(32 * j), 32),
                b0 == old(br)@,
            decreases 19 - i,
        {
            let ghost before = br@;
            let v = br.read_u32(32)?;
            proof {
                assert(b0.skip(32 * i).skip(32) =~= b0.skip(32 * (i + 1)));
            }
            w.push(v);
            i = i + 1;
        }
        let ghost ws = w@;
        proof {
            assert(ws =~= Seq::new(19, |k: int| uval(b0.skip(32 * k), 32)));
        }
        let info = CmdInfo {
            flags: w[0] as i32,
            view_origin: [w[1], w[2], w[3]],
            view_angles: [w[4], w[5], w[6]],
            local_view_angles: [w[7], w[8], w[9]],
            view_origin_2: [w[10], w[11], w[12]],
            view_angles_2: [w[13], w[14], w[15]],
            local_view_angles_2: [w[16], w[17], w[18]],
        };
        assert(info.view_origin@ =~= ws.subrange(1, 4));
        assert(info.view_angles@ =~= ws.subrange(4, 7));
        assert(info.local_view_angles@ =~= ws.subrange(7, 10));
        assert(info.view_origin_2@ =~= ws.subrange(10, 13));
        assert(info.view_angles_2@ =~= ws.subrange(13, 16));
        assert(info.local_view_angles_2@ =~= ws.subrange(16, 19));
        Ok(info)
    }
}

/// `left` command infos.
fn read_cmd_infos(br: &mut BitStream, count: u8) -> (res: Result<Vec<CmdInfo>, ParseFail>)
    ensures
        step_matches(res, old(br)@, final(br)@, sp_cmd_infos(old(br)@, count as nat, seq![])),
{
    let mut info: Vec<CmdInfo> = Vec::with_capacity(count as usize);
    let mut i: u8 = 0;
    assert(info.deep_view() =~= Seq::<SpecCmdInfo>::empty());
    while i < count
        invariant
            i <= count,
            sp_cmd_infos(br@, (count - i) as nat, info.deep_view()) == sp_cmd_infos(old(br)@, count as nat, seq![]),
            br@.len() <= old(br)@.len(),
        decreases count - i,
    {
        let c = CmdInfo::from_br(br)?;
        let ghost old_info = info.deep_view();
        info.push(c);
        assert(info.deep_view() =~= old_info.push(c.deep_view()));
        i = i + 1;
    }
    Ok(info)
}

fn read_disconnect(br: &mut BitStream) -> (res: Result<(NetSvcMessage, u64), ParseFail>)
    ensures
        step_matches(res, old(br)@, final(br)@, sp_disconnect(old(br)@)),
{
    let first = br.read_nts()?;
    let reason = br.read_nts()?;
    let len = string_len(&first);
    if len as u128 * 8 + 1 > u64::MAX as u128 {
        return Err(ParseFail::Abort);
    }
    Ok((NetSvcMessage::NetDisconnect(reason), 8 * len as u64 + 1))
}

/// The message of type `kind`, for a demo with this header.
pub fn read_net_svc_message(br: &mut BitStream, kind: u8, header: &Header) -> (res: Result<(NetSvcMessage, u64), ParseFail>)
    ensures
        step_matches(res, old(br)@, final(br)@, sp_net_svc_message(old(br)@, kind, header.deep_view())),
{
    let oe = header.is_oe();
    if kind == 0 {
        Ok((NetSvcMessage::NetNop, 0))
    } else if kind == 1 {
        read_disconnect(br)
    } else if kind == 2 {
        let (m, size) = SNetFile::bitread(br)?;
        Ok((NetSvcMessage::NetFile(m), size))
    } else if (kind == 3 && oe) || (kind == 4 && !oe) {
        let (m, size) = SNetTick::bitread(br)?;
        Ok((NetSvcMessage::NetTick(m), size))
    } else if (kind == 6 && oe) || kind == 7 {
        let (m, size) = SNetSignOnState::bitread(br, oe)?;
        Ok((NetSvcMessage::NetSignonState(m), size))
    } else if kind == 8 {
        let (m, size) = SSvcServerInfo::bitread(br, header)?;
        Ok((NetSvcMessage::SvcServerInfo(m), size))
    } else if kind == 10 {
        let (m, size) = SSvcClassInfo::bitread(br)?;
        Ok((NetSvcMessage::SvcClassInfo(m), size))
    } else if kind == 12 {
        let (m, size) = SSvcCreateStringTable::bitread(br, oe)?;
        Ok((NetSvcMessage::SvcCreateStringTable(m), size))
    } else if kind == 14 {
        let (m, size) = SSvcVoiceInit::bitread(br)?;
        Ok((NetSvcMessage::SvcVoiceInit(m), size))
    } else if kind == 30 {
        let (m, size) = SSvcGameEventList::bitread(br)?;
        Ok((NetSvcMessage::SvcGameEventList(m), size))
    } else {
        Err(ParseFail::Error(DemError::UnknownNetSvcMessage(kind)))
    }
}

/// The messages of a packet body of `remaining` bits.
fn read_net_svc_messages(br: &mut BitStream, total: u64, header: &Header) -> (res: Result<Vec<NetSvcMessage>, ParseFail>)
    ensures
        step_matches(res, old(br)@, final(br)@, sp_net_svc_messages(old(br)@, total as nat, header.deep_view(), seq![])),
{
    let mut data: Vec<NetSvcMessage> = Vec::new();
    let mut remaining = total;
    assert(data.deep_view() =~= Seq::<SpecNetSvcMessage>::empty());
    loop
        invariant
            sp_net_svc_messages(br@, remaining as nat, header.deep_view(), data.deep_view())
                == sp_net_svc_messages(old(br)@, total as nat, header.deep_view(), seq![]),
            br@.len() <= old(br)@.len(),
        decreases remaining,
    {
        if remaining < 6 {
            br.skip(remaining as u32)?;
            return Ok(data);
        }
        let kind = br.read_u8(6)?;
        remaining = remaining - 6;
        let (variant, size) = read_net_svc_message(br, kind, header)?;
        if size > remaining {
            return Err(ParseFail::Abort);
        }
        let ghost old_data = data.deep_view();
        let ghost vv = variant.deep_view();
        data.push(variant);
        assert(data.deep_view() =~= old_data.push(vv));
        remaining = remaining - size;
    }
}

impl SPacket {
    pub fn from_br(br: &mut BitStream, header: &Header) -> (res: Result<Self, ParseFail>)
        ensures
            step_matches(res, old(br)@, final(br)@, sp_packet(old(br)@, header.deep_view())),
    {
        // one for each local player
        let info = read_cmd_infos(br, header.mssc)?;
        let in_seq = br.read_u32_as_i32()?;
        let out_seq = br.read_u32_as_i32()?;
        let size = br.read_u32(32)?;
        let data = read_net_svc_messages(br, size as u64 * 8, header)?;
        Ok(SPacket { info, in_seq, out_seq, data })
    }
}

} // verus!
