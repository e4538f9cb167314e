//! Where each decoded value comes from: which decoder a frame type or a
//! message kind selects, and which bits of the stream each field is.
use vstd::prelude::*;
use crate::bits::{Bits, Step, ival, uval};
use crate::demo::{first_server_info, first_server_info_in};
use crate::header::SpecHeader;
use crate::message::{SpecFrame, SpecFrameData, sp_custom_data, sp_frame, sp_frame_data};
use crate::messages::consolecmd::sp_concmd;
use crate::messages::packet::{SpecNetSvcMessage, SpecPacket, sp_net_svc_message, sp_packet};
use crate::messages::stringtables::{SDataTables, SStringTables, sp_sized_skip};
use crate::messages::usercmd::{SpecUserCmd, sp_usercmd};
use crate::svcnetmessage::netsignonstate::{SpecNetSignOnState, signon_state_of, sp_signon};
use crate::svcnetmessage::svcserverinfo::sp_serverinfo;
use crate::text::sp_nts_cap;

verus! {

/// `t` is the step `s` with its value, when it has one, turned by `f`: the
/// same bits left, the same error, or likewise no answer.
pub open spec fn step_lifts<A, B>(s: Step<A>, t: Step<B>, f: spec_fn(A) -> B) -> bool {
    match s {
        Step::Done(v, r) => t == Step::Done(f(v), r),
        Step::Failed(e) => t == Step::<B>::Failed(e),
        Step::Abort => t == Step::<B>::Abort,
    }
}

/// Each frame type selects its decoder: 1 a sign-on packet, 2 a packet, 3 a
/// sync tick with no data, 4 a console command, 5 a user command, 6 data
/// tables, 7 the stop frame with no data, 8 custom data beyond the old engine
/// and string tables on it, 9 string tables; any other type is an error.
pub proof fn law_frame_types(b: Bits, h: SpecHeader, msg: i8)
    ensures
        step_lifts(sp_packet(b, h), sp_frame_data(b, 1, h), |p: SpecPacket| SpecFrameData::SignOn(p)),
        step_lifts(sp_packet(b, h), sp_frame_data(b, 2, h), |p: SpecPacket| SpecFrameData::Packet(p)),
        sp_frame_data(b, 3, h) == Step::Done(SpecFrameData::SyncTick, b),
        step_lifts(sp_concmd(b), sp_frame_data(b, 4, h), |s: Seq<char>| SpecFrameData::ConsoleCmd(s)),
        step_lifts(sp_usercmd(b), sp_frame_data(b, 5, h), |u: SpecUserCmd| SpecFrameData::UserCmd(u)),
        step_lifts(sp_sized_skip(b), sp_frame_data(b, 6, h), |u: ()| SpecFrameData::DataTables(SDataTables {})),
        sp_frame_data(b, 7, h) == Step::Done(SpecFrameData::Stop, b),
        !h.oe() ==> step_lifts(sp_custom_data(b), sp_frame_data(b, 8, h), |v: Seq<u8>| SpecFrameData::CustomData(v)),
        h.oe() ==> step_lifts(
            sp_sized_skip(b),
            sp_frame_data(b, 8, h),
            |u: ()| SpecFrameData::StringTables(SStringTables {}),
        ),
        step_lifts(sp_sized_skip(b), sp_frame_data(b, 9, h), |u: ()| SpecFrameData::StringTables(SStringTables {})),
        (msg < 1 || msg > 9) ==> sp_frame_data(b, msg, h) == Step::<SpecFrameData>::Failed(
            crate::error::DemError::InvalidFrameType(msg),
        ),
{
}

/// Frames of every type but packets (whose command infos follow the local
/// player count) and type 8 decode alike whatever the demo's engine.
pub proof fn law_frame_types_engine(b: Bits, h1: SpecHeader, h2: SpecHeader, msg: i8)
    ensures
        (3 <= msg <= 7 || msg == 9 || msg < 1 || msg > 9) ==> sp_frame_data(b, msg, h1) == sp_frame_data(b, msg, h2),
{
}

/// A sign-on state message inside a packet is decoded with the demo's own
/// engine: kind 7 always, and kind 6 on the old engine.
pub proof fn law_signon_in_packet(b: Bits, h: SpecHeader)
    ensures
        step_lifts(
            sp_signon(b, h.oe()),
            sp_net_svc_message(b, 7, h),
            |p: (SpecNetSignOnState, u64)| (SpecNetSvcMessage::NetSignonState(p.0), p.1),
        ),
        h.oe() ==> step_lifts(
            sp_signon(b, h.oe()),
            sp_net_svc_message(b, 6, h),
            |p: (SpecNetSignOnState, u64)| (SpecNetSvcMessage::NetSignonState(p.0), p.1),
        ),
{
}

/// A sign-on state message takes its state from its first byte and its spawn
/// count from the next 32 bits; it carries the player count, the network ids
/// and the map name exactly beyond the old engine, the player count being
/// the 32 bits after the spawn count.
pub proof fn law_signon_fields(b: Bits, oe: bool)
    ensures
        sp_signon(b, oe) matches Step::Done(v, _) ==> {
            &&& signon_state_of(uval(b, 8) as u8) == Some(v.0.signon_state)
            &&& v.0.spawn_count == ival(b.skip(8), 32)
            &&& (v.0.num_server_players is Some <==> !oe)
            &&& (v.0.players_network_ids is Some <==> !oe)
            &&& (v.0.mapname is Some <==> !oe)
            &&& (v.0.num_server_players matches Some(n) ==> n == uval(b.skip(40), 32))
        },
{
    if b.len() >= 72 {
        assert(b.skip(8).skip(32) =~= b.skip(40));
    } else if b.len() >= 40 {
        assert(b.skip(8).skip(32) =~= b.skip(40));
    }
}

/// The tick interval depends on the frames' data alone: two frame sequences
/// whose frames carry the same data, whatever their ticks and slots, give the
/// same answer.
pub proof fn law_tick_interval_by_data(fs1: Seq<SpecFrame>, fs2: Seq<SpecFrame>)
    requires
        fs1.len() == fs2.len(),
        forall|i: int| 0 <= i < fs1.len() ==> fs1[i].data == fs2[i].data,
    ensures
        first_server_info(fs1) == first_server_info(fs2),
    decreases fs1.len(),
{
    if fs1.len() > 0 {
        assert(fs1[0].data == fs2[0].data);
        law_tick_interval_by_data(fs1.drop_first(), fs2.drop_first());
    }
}

/// The tick interval is that of the first server info of the first sign-on
/// frame that carries one, whatever the frame's tick and slot: a sign-on
/// frame without server info, and any other frame, are passed over.
pub proof fn law_tick_interval_first(fs: Seq<SpecFrame>)
    ensures
        fs.len() > 0 ==> (fs[0].data matches SpecFrameData::SignOn(p) ==> (p.data.len() > 0 ==> (
        p.data[0] matches SpecNetSvcMessage::SvcServerInfo(i) ==> first_server_info(fs) == Some(
            i.tick_interval_bits,
        )))),
        fs.len() > 0 ==> (fs[0].data matches SpecFrameData::SignOn(p) ==> first_server_info_in(p.data) is None
            ==> first_server_info(fs) == first_server_info(fs.drop_first())),
        fs.len() > 0 ==> !(fs[0].data is SignOn) ==> first_server_info(fs) == first_server_info(fs.drop_first()),
        fs.len() == 0 ==> first_server_info(fs) is None,
{
}

/// Each field of a server info is the value of its own bits: the protocol
/// the first 16, the server count the next 32, the HLTV flag bit 48, the
/// dedicated flag bit 49, the client checksum the 32 bits from 50, the string
/// table checksum beyond the old engine the 32 bits from 82, then from
/// offset `o` (82, or 114 beyond the old engine) the class count, the map
/// checksum, the player count, the client limit, the tick interval and the
/// platform byte; then the four names, each a zero-terminated string read
/// from just after the previous one.
#[verifier::rlimit(60)]
#[verifier::spinoff_prover]
pub proof fn law_serverinfo_fields(b: Bits, oe: bool)
    ensures
        sp_serverinfo(b, oe) matches Step::Done(v, _) ==> {
            let o: int = if oe { 82 } else { 114 };
            let n1 = o + 104 + 8 * (v.0.game_dir.len() + 1);
            let n2 = n1 + 8 * (v.0.map_name.len() + 1);
            let n3 = n2 + 8 * (v.0.sky_name.len() + 1);
            &&& v.0.protocol == uval(b, 16) as u16
            &&& v.0.server_count == uval(b.skip(16), 32)
            &&& v.0.is_hltv == b[48]
            &&& v.0.is_dedicated == b[49]
            &&& v.0.client_crc == uval(b.skip(50), 32) as i32
            &&& (v.0.string_table_crc matches Some(c) ==> c == uval(b.skip(82), 32))
            &&& v.0.max_classes == uval(b.skip(o), 16) as u16
            &&& v.0.map_crc == uval(b.skip(o + 16), 32)
            &&& v.0.player_count == uval(b.skip(o + 48), 8) as u8
            &&& v.0.max_clients == uval(b.skip(o + 56), 8) as u8
            &&& v.0.tick_interval_bits == uval(b.skip(o + 64), 32)
            &&& v.0.platform == (uval(b.skip(o + 96), 8) as u8) as char
            &&& sp_nts_cap(b.skip(o + 104), 260) matches Step::Done(s, _) && s == v.0.game_dir
            &&& sp_nts_cap(b.skip(n1), 260) matches Step::Done(s, _) && s == v.0.map_name
            &&& sp_nts_cap(b.skip(n2), 260) matches Step::Done(s, _) && s == v.0.sky_name
            &&& sp_nts_cap(b.skip(n3), 260) matches Step::Done(s, _) && s == v.0.host_name
        },
{
    broadcast use crate::sizes::lemma_nts_cap_consumed;

    if let Step::Done(v, r) = sp_serverinfo(b, oe) {
        let o: int = if oe { 82 } else { 114 };
        assert(b.skip(16).skip(32) =~= b.skip(48));
        assert(b.skip(48).drop_first() =~= b.skip(49));
        assert(b.skip(49).drop_first() =~= b.skip(50));
        assert(b.skip(50).skip(32) =~= b.skip(82));
        if !oe {
            assert(b.skip(82).skip(32) =~= b.skip(114));
        }
        assert(b.skip(o).skip(16) =~= b.skip(o + 16));
        assert(b.skip(o + 16).skip(32) =~= b.skip(o + 48));
        assert(b.skip(o + 48).skip(8) =~= b.skip(o + 56));
        assert(b.skip(o + 56).skip(8) =~= b.skip(o + 64));
        assert(b.skip(o + 64).skip(32) =~= b.skip(o + 96));
        assert(b.skip(o + 96).skip(8) =~= b.skip(o + 104));
        let n1 = o + 104 + 8 * (v.0.game_dir.len() + 1);
        let n2 = n1 + 8 * (v.0.map_name.len() + 1);
        let n3 = n2 + 8 * (v.0.sky_name.len() + 1);
        assert(b.skip(o + 104).skip(8 * (v.0.game_dir.len() + 1) as int) =~= b.skip(n1));
        assert(b.skip(n1).skip(8 * (v.0.map_name.len() + 1) as int) =~= b.skip(n2));
        assert(b.skip(n2).skip(8 * (v.0.sky_name.len() + 1) as int) =~= b.skip(n3));
    }
}

/// A frame is its type byte, then, except for a stop frame, a 32-bit tick
/// and, beyond the old engine, a player slot byte; its data is decoded, by
/// its type, from just after these.
pub proof fn law_frame_layout(b: Bits, h: SpecHeader)
    ensures
        sp_frame(b, h) matches Step::Done(f, r) ==> {
            let msg = ival(b, 8) as i8;
            let at: int = if msg == 7 { 8 } else if h.oe() { 40 } else { 48 };
            &&& f.tick == (if msg == 7 { None } else { Some(ival(b.skip(8), 32)) })
            &&& f.slot == (if msg == 7 || h.oe() { None } else { Some(uval(b.skip(40), 8) as u8) })
            &&& sp_frame_data(b.skip(at), msg, h) == Step::Done(f.data, r)
        },
{
    if b.len() >= 40 {
        assert(b.skip(8).skip(32) =~= b.skip(40));
    }
    if b.len() >= 48 {
        assert(b.skip(40).skip(8) =~= b.skip(48));
    }
}

} // verus!
