//! Properties of the decoders that hold for every input.
use vstd::prelude::*;
use vstd::arithmetic::power2::{pow2, lemma2_to64};
use crate::bits::{Bits, Step, bits_to_bytes, ival, sp_align, bits_to_nat, byte_bits, bytes_to_bits, sp_bytes, sp_u8, uval};
use crate::demo::{SpecDemo, demo_of_bytes, sp_frames};
use crate::header::{Game, SpecHeader, demo_stamp, game_of, mssc_of, sp_header};
use crate::message::SpecFrame;
use crate::messages::packet::{SpecCmdInfo, SpecNetSvcMessage, SpecPacket, sp_cmd_infos, sp_net_svc_message, sp_net_svc_messages, sp_packet};
use crate::svcnetmessage::svccreatestringtable::{lemma_log2_below, log2, sp_create_string_table};
use crate::messages::consolecmd::sp_concmd;
use crate::messages::usercmd::{SpecUserCmd, sp_usercmd};
use crate::svcnetmessage::netsignonstate::signon_state_of;
use crate::svcnetmessage::svcclassinfo::{SpecServerClass, SpecSvcClassInfo, sp_classinfo, sp_server_classes};
use crate::svcnetmessage::svcgameeventlist::{
    SpecGameEventDescription, SpecSvcGameEventList, event_type_of, sp_event_descriptions, sp_game_event_list,
};
use crate::text::{first_zero, sp_nts, sp_nts_cap, sp_nts_cap_from, sp_nts_from, utf8_len, lemma_utf8_len_push_byte};

verus! {

/// No game is both a Left 4 Dead build and an Orange Box build.
pub proof fn law_game_classes_disjoint(g: Game)
    ensures
        !(g.l4d() && g.orangebox()),
{
}

/// A demo describes one, two or four local players: four exactly for the
/// Left 4 Dead builds, two exactly for Portal 2 and for unknown games of demo
/// protocol 4, and one otherwise.
pub proof fn law_local_players(demo_protocol: i32, network_protocol: i32)
    ensures
        ({
            let g = game_of(demo_protocol, network_protocol);
            let m = mssc_of(g, demo_protocol);
            &&& m == 1 || m == 2 || m == 4
            &&& m == 4 <==> g.l4d()
            &&& m == 2 <==> (g is Portal2 || (g is Unknown && demo_protocol == 4))
        }),
{
}

/// Distinct key type codes give distinct key types.
pub proof fn law_event_type_codes_distinct(a: u8, b: u8)
    ensures
        event_type_of(a) == event_type_of(b) ==> a == b,
{
}

/// A sign-on state code names a state exactly when it is at most 7, and
/// distinct codes name distinct states.
pub proof fn law_signon_state_codes(a: u8, b: u8)
    ensures
        signon_state_of(a) is Some <==> a <= 7,
        signon_state_of(a) is Some && signon_state_of(a) == signon_state_of(b) ==> a == b,
{
}

proof fn lemma_cmd_infos_count(b: Bits, left: nat, acc: Seq<SpecCmdInfo>)
    ensures
        sp_cmd_infos(b, left, acc) matches Step::Done(infos, _) ==> infos.len() == acc.len() + left,
    decreases left,
{
    if left > 0 {
        if let Step::Done(c, b1) = crate::messages::packet::sp_cmd_info(b) {
            lemma_cmd_infos_count(b1, (left - 1) as nat, acc.push(c));
        }
    }
}

/// A packet carries one command info per local player of its demo.
pub proof fn law_packet_info_per_player(b: Bits, h: SpecHeader)
    ensures
        sp_packet(b, h) matches Step::Done(p, _) ==> p.info.len() == h.mssc,
{
    lemma_cmd_infos_count(b, h.mssc as nat, seq![]);
}

proof fn lemma_server_classes_count(b: Bits, left: nat, acc: Seq<SpecServerClass>, bits: nat)
    ensures
        sp_server_classes(b, left, acc, bits) matches Step::Done(cs, _) ==> cs.0.len() == acc.len() + left,
    decreases left,
{
    if left > 0 {
        if let Step::Done(c, b1) = crate::svcnetmessage::svcclassinfo::sp_server_class(b) {
            lemma_server_classes_count(b1, (left - 1) as nat, acc.push(c.0), bits + c.1);
        }
    }
}

/// A class info lists its server classes exactly when the client does not
/// build them, and then lists as many as it announces.
pub proof fn law_class_info_count(b: Bits)
    ensures
        sp_classinfo(b) matches Step::Done(ci, _) ==> {
            &&& ci.0.server_classes is Some <==> !ci.0.create_on_client
            &&& ci.0.server_classes matches Some(v) ==> v.len() == ci.0.num_classes
        },
{
    if let Step::Done(n, b1) = crate::bits::sp_u16(b, 16) {
        if let Step::Done(coc, b2) = crate::bits::sp_bit(b1) {
            lemma_server_classes_count(b2, n as nat, seq![], 0);
        }
    }
}

proof fn lemma_event_descriptions_count(b: Bits, left: nat, acc: Seq<SpecGameEventDescription>, total: nat)
    ensures
        sp_event_descriptions(b, left, acc, total) matches Step::Done(ds, _) ==> ds.0.len() == acc.len() + left,
    decreases left,
{
    if left > 0 {
        if let Step::Done(d, b1) = crate::svcnetmessage::svcgameeventlist::sp_event_description(b) {
            lemma_event_descriptions_count(b1, (left - 1) as nat, acc.push(d.0), total + d.1);
        }
    }
}

/// A game event list describes as many events as it announces.
pub proof fn law_event_list_count(b: Bits)
    ensures
        sp_game_event_list(b) matches Step::Done(l, _) ==> l.0.descriptors.len() == l.0.events,
{
    if let Step::Done(events, b1) = crate::bits::sp_u16(b, 9) {
        if let Step::Done(length, b2) = crate::bits::sp_u32(b1, 20) {
            lemma_event_descriptions_count(b2, events as nat, seq![], 0);
        }
    }
}

proof fn lemma_nts_from_no_zero(b: Bits, acc: Seq<char>)
    requires
        forall|i: int| 0 <= i < acc.len() ==> acc[i] != '\0',
    ensures
        sp_nts_from(b, acc) matches Step::Done(s, _) ==> forall|i: int| 0 <= i < s.len() ==> s[i] != '\0',
    decreases b.len(),
{
    if b.len() >= 8 {
        let v = uval(b, 8) as u8;
        if v != 0 {
            assert((v as char) as u32 == v as u32);
            lemma_nts_from_no_zero(b.skip(8), acc.push(v as char));
        }
    }
}

/// A zero-terminated string holds no zero char.
pub proof fn law_nts_has_no_zero(b: Bits)
    ensures
        sp_nts(b) matches Step::Done(s, _) ==> forall|i: int| 0 <= i < s.len() ==> s[i] != '\0',
{
    lemma_nts_from_no_zero(b, seq![]);
}

proof fn lemma_nts_cap_from_bound(b: Bits, acc: Seq<char>, left: nat, cap: nat)
    requires
        utf8_len(acc) <= cap,
        acc.len() + left <= cap,
    ensures
        sp_nts_cap_from(b, acc, left, cap) matches Step::Done(s, _) ==> utf8_len(s) <= cap && s.len() < cap,
    decreases left,
{
    if left > 0 && b.len() >= 8 {
        let v = uval(b, 8) as u8;
        if v != 0 && utf8_len(acc.push(v as char)) <= cap {
            lemma_nts_cap_from_bound(b.skip(8), acc.push(v as char), (left - 1) as nat, cap);
        }
    }
}

/// A string read into a buffer of `cap` bytes fits it, terminator aside: its
/// UTF-8 encoding is at most `cap` bytes and it has fewer than `cap` chars.
pub proof fn law_capped_string_fits(b: Bits, cap: nat)
    ensures
        sp_nts_cap(b, cap) matches Step::Done(s, _) ==> utf8_len(s) <= cap && s.len() < cap,
{
    assert(vstd::utf8::encode_utf8(Seq::<char>::empty()) =~= Seq::<u8>::empty());
    lemma_nts_cap_from_bound(b, seq![], cap, cap);
}

/// The frames that `sp_frames` appends after `acc` hold exactly one stop
/// frame, the last.
proof fn lemma_frames_end_at_stop(b: Bits, h: SpecHeader, acc: Seq<SpecFrame>)
    requires
        forall|i: int| 0 <= i < acc.len() ==> !(acc[i].data is Stop),
    ensures
        sp_frames(b, h, acc) matches Step::Done(fs, _) ==> {
            &&& fs.len() > acc.len()
            &&& fs.take(acc.len() as int) == acc
            &&& fs.last().data is Stop
            &&& forall|i: int| 0 <= i < fs.len() - 1 ==> !(fs[i].data is Stop)
        },
    decreases b.len(),
{
    if let Step::Done(f, b1) = crate::message::sp_frame(b, h) {
        if f.data is Stop {
            assert(acc.push(f).take(acc.len() as int) =~= acc);
        } else if b1.len() < b.len() {
            lemma_frames_end_at_stop(b1, h, acc.push(f));
            if let Step::Done(fs, _) = sp_frames(b1, h, acc.push(f)) {
                assert(fs.take(acc.len() as int) =~= fs.take(acc.len() + 1int).take(acc.len() as int));
                assert(acc.push(f).take(acc.len() as int) =~= acc);
            }
        }
    }
}

/// A decoded demo carries the demo stamp and ends at its first stop frame:
/// it has at least one frame, its last frame is a stop frame and no other is.
pub proof fn law_demo_ends_at_first_stop(bytes: Seq<u8>)
    ensures
        demo_of_bytes(bytes) matches Step::Done(d, _) ==> {
            &&& d.header.stamp == demo_stamp()
            &&& d.frames.len() >= 1
            &&& d.frames.last().data is Stop
            &&& forall|i: int| 0 <= i < d.frames.len() - 1 ==> !(d.frames[i].data is Stop)
        },
{
    let b = bytes_to_bits(bytes);
    if let Step::Done(h, b1) = crate::header::sp_header(b) {
        lemma_frames_end_at_stop(b1, h, seq![]);
    }
}

proof fn lemma_low_bits_value(b: u8, k: nat)
    requires
        k <= 8,
    ensures
        bits_to_nat(Seq::new(k, |i: int| (b >> (i as u8)) & 1u8 == 1u8)) == (b as nat) % pow2(k),
    decreases k,
{
    lemma2_to64();
    let s = Seq::new(k, |i: int| (b >> (i as u8)) & 1u8 == 1u8);
    if k == 0 {
    } else {
        let c = b >> 1u8;
        let t = Seq::new((k - 1) as nat, |i: int| (c >> (i as u8)) & 1u8 == 1u8);
        assert forall|i: int| 0 <= i < k - 1 implies s.drop_first()[i] == t[i] by {
            let j = i as u8;
            assert((b >> (j + 1u8)) & 1u8 == ((b >> 1u8) >> j) & 1u8) by (bit_vector)
                requires j < 7u8;
        }
        assert(s.drop_first() =~= t);
        lemma_low_bits_value(c, (k - 1) as nat);
        assert(s[0] == ((b & 1u8) == 1u8)) by {
            assert((b >> 0u8) & 1u8 == b & 1u8) by (bit_vector);
        }
        let low: u8 = b & 1u8;
        assert(low == 0 || low == 1) by (bit_vector)
            requires low == b & 1u8;
        assert(crate::bits::bit_val(s[0]) == low as nat);
        assert(bits_to_nat(s) == crate::bits::bit_val(s[0]) + 2 * bits_to_nat(s.drop_first()));
        assert(bits_to_nat(s) == low as nat + 2 * ((c as nat) % pow2((k - 1) as nat)));
        if k == 1 {
            assert(b & 1u8 == b % 2) by (bit_vector);
            assert(pow2(0) == 1 && pow2(1) == 2);
        } else if k == 2 {
            assert((b & 1u8) + 2 * ((b >> 1u8) % 2) == b % 4) by (bit_vector);
            assert(pow2(1) == 2 && pow2(2) == 4);
        } else if k == 3 {
            assert((b & 1u8) + 2 * ((b >> 1u8) % 4) == b % 8) by (bit_vector);
            assert(pow2(2) == 4 && pow2(3) == 8);
        } else if k == 4 {
            assert((b & 1u8) + 2 * ((b >> 1u8) % 8) == b % 16) by (bit_vector);
            assert(pow2(3) == 8 && pow2(4) == 16);
        } else if k == 5 {
            assert((b & 1u8) + 2 * ((b >> 1u8) % 16) == b % 32) by (bit_vector);
            assert(pow2(4) == 16 && pow2(5) == 32);
        } else if k == 6 {
            assert((b & 1u8) + 2 * ((b >> 1u8) % 32) == b % 64) by (bit_vector);
            assert(pow2(5) == 32 && pow2(6) == 64);
        } else if k == 7 {
            assert((b & 1u8) + 2 * ((b >> 1u8) % 64) == b % 128) by (bit_vector);
            assert(pow2(6) == 64 && pow2(7) == 128);
        } else {
            assert((b & 1u8) + 2 * ((b >> 1u8) % 128) == b) by (bit_vector);
            assert(pow2(7) == 128 && pow2(8) == 256);
            assert((b as nat) % 256 == b as nat);
        }
    }
}

/// The eight bits of a byte spell the byte.
pub proof fn lemma_byte_bits_value(b: u8)
    ensures
        bits_to_nat(byte_bits(b)) == b,
{
    lemma_low_bits_value(b, 8);
    lemma2_to64();
}

/// Reading `n` bytes from the start of a stream over `s` gives back the
/// first `n` bytes of `s` and leaves the stream over the rest of `s`.
pub proof fn law_bytes_read_back(s: Seq<u8>, n: nat)
    requires
        n <= s.len(),
    ensures
        sp_bytes(bytes_to_bits(s), n) == Step::Done(s.take(n as int), bytes_to_bits(s.skip(n as int))),
{
    let b = bytes_to_bits(s);
    assert forall|i: int| 0 <= i < n implies bits_to_bytes(b, n)[i] == s.take(n as int)[i] by {
        assert(b.subrange(8 * i, 8 * i + 8) =~= byte_bits(s[i])) by {
            assert forall|j: int| 0 <= j < 8 implies b.subrange(8 * i, 8 * i + 8)[j] == byte_bits(s[i])[j] by {
                assert((8 * i + j) / 8 == i);
                assert((8 * i + j) % 8 == j);
            }
        }
        lemma_byte_bits_value(s[i]);
    }
    assert(bits_to_bytes(b, n) =~= s.take(n as int));
    assert forall|j: int| 0 <= j < b.skip(8 * n as int).len() implies b.skip(8 * n as int)[j] == bytes_to_bits(
        s.skip(n as int),
    )[j] by {
        assert((8 * n + j) / 8 == n + j / 8);
        assert((8 * n + j) % 8 == j % 8);
    }
    assert(b.skip(8 * n as int) =~= bytes_to_bits(s.skip(n as int)));
}

/// The first eight bits of a stream over a non-empty `s` are its first byte.
pub proof fn law_first_byte(s: Seq<u8>)
    requires
        s.len() >= 1,
    ensures
        sp_u8(bytes_to_bits(s), 8) == Step::Done(s[0], bytes_to_bits(s.skip(1))),
{
    law_bytes_read_back(s, 1);
    let b = bytes_to_bits(s);
    assert(b.take(8) =~= b.subrange(0, 8));
    assert(bits_to_bytes(b, 1)[0] == s[0]);
    lemma2_to64();
    crate::bits::lemma_bits_to_nat_bound(b.take(8));
    assert(b.skip(8 * 1nat as int) == b.skip(8));
}

/// The protocol pairs that name each game: demo protocol 3 with network
/// protocol 7, 14, 15 or 24 for the Orange Box era builds, demo protocol 4
/// with network protocol 37, 1040, 2000, 2001, 2012, 2027, 2042 or 2100 for
/// the Left 4 Dead builds and Portal 2; every other pair is unknown.
pub proof fn law_game_table(dp: i32, np: i32)
    ensures
        game_of(dp, np) is HL2OldEngine <==> (dp == 3 && np == 7),
        game_of(dp, np) is Portal3420 <==> (dp == 3 && np == 14),
        game_of(dp, np) is SourceUnpack <==> (dp == 3 && np == 15),
        game_of(dp, np) is Source2013 <==> (dp == 3 && np == 24),
        game_of(dp, np) is L4D1005 <==> (dp == 4 && np == 37),
        game_of(dp, np) is L4D1040 <==> (dp == 4 && np == 1040),
        game_of(dp, np) is L4D2000 <==> (dp == 4 && np == 2000),
        game_of(dp, np) is Portal2 <==> (dp == 4 && np == 2001),
        game_of(dp, np) is L4D2012 <==> (dp == 4 && np == 2012),
        game_of(dp, np) is L4D2027 <==> (dp == 4 && np == 2027),
        game_of(dp, np) is L4D2042 <==> (dp == 4 && np == 2042),
        game_of(dp, np) is L4D2203 <==> (dp == 4 && np == 2100),
        game_of(dp, np) is Unknown <==> !((dp == 3 && (np == 7 || np == 14 || np == 15 || np == 24)) || (dp == 4
            && (np == 37 || np == 1040 || np == 2000 || np == 2001 || np == 2012 || np == 2027 || np == 2042 || np
            == 2100))),
{
}

/// A decoded header takes its protocol numbers from the two 32-bit fields
/// after the eight-byte stamp, and its game and local player count from them.
pub proof fn law_header_game(b: Bits)
    ensures
        sp_header(b) matches Step::Done(h, _) ==> {
            &&& h.demo_protocol == ival(b.skip(64), 32)
            &&& h.network_protocol == ival(b.skip(96), 32)
            &&& h.game == game_of(h.demo_protocol, h.network_protocol)
            &&& h.mssc == mssc_of(h.game, h.demo_protocol)
        },
{
    if let Step::Done(stamp, b1) = crate::text::sp_fixed_str_notrim(b, 8) {
        assert(b1 == b.skip(64));
        if b.len() >= 96 {
            assert(b.skip(64).skip(32) =~= b.skip(96));
        }
    }
}

proof fn lemma_nts_from_bytes(c: Seq<u8>, k: nat, acc: Seq<char>)
    requires
        k < c.len(),
        c[k as int] == 0,
        forall|i: int| 0 <= i < k ==> c[i] != 0,
    ensures
        sp_nts_from(bytes_to_bits(c), acc) == Step::Done(
            acc + Seq::new(k, |i: int| c[i] as char),
            bytes_to_bits(c.skip(k + 1int)),
        ),
    decreases k,
{
    let b = bytes_to_bits(c);
    law_first_byte(c);
    assert(uval(b, 8) as u8 == c[0]);
    assert(b.skip(8) == bytes_to_bits(c.skip(1)));
    if k == 0 {
        assert(acc + Seq::new(0, |i: int| c[i] as char) =~= acc);
    } else {
        let d = c.skip(1);
        assert forall|i: int| 0 <= i < k - 1 implies d[i] != 0 by {
            assert(d[i] == c[i + 1]);
        }
        lemma_nts_from_bytes(d, (k - 1) as nat, acc.push(c[0] as char));
        assert(d.skip(k as int) =~= c.skip(k + 1int));
        assert(acc.push(c[0] as char) + Seq::new((k - 1) as nat, |i: int| d[i] as char) =~= acc + Seq::new(
            k,
            |i: int| c[i] as char,
        ));
    }
}

proof fn lemma_nts_from_no_terminator(c: Seq<u8>, acc: Seq<char>)
    requires
        forall|i: int| 0 <= i < c.len() ==> c[i] != 0,
    ensures
        sp_nts_from(bytes_to_bits(c), acc) == Step::<Seq<char>>::Failed(crate::error::DemError::Eof),
    decreases c.len(),
{
    if c.len() > 0 {
        let b = bytes_to_bits(c);
        law_first_byte(c);
        let d = c.skip(1);
        assert forall|i: int| 0 <= i < d.len() implies d[i] != 0 by {
            assert(d[i] == c[i + 1]);
        }
        lemma_nts_from_no_terminator(d, acc.push(c[0] as char));
    }
}

/// A zero-terminated string read from bytes `c`: when `c[k]` is the first
/// zero byte, the string is the `k` bytes before it, each taken as the char
/// of the same code (Latin-1), and the stream is left after the zero byte;
/// when `c` holds no zero byte, the read fails at the end of the stream.
pub proof fn law_nts_latin1(c: Seq<u8>, k: nat)
    ensures
        (k < c.len() && c[k as int] == 0 && forall|i: int| 0 <= i < k ==> c[i] != 0) ==> sp_nts(bytes_to_bits(c))
            == Step::Done(Seq::new(k, |i: int| c[i] as char), bytes_to_bits(c.skip(k + 1int))),
        (forall|i: int| 0 <= i < c.len() ==> c[i] != 0) ==> sp_nts(bytes_to_bits(c)) == Step::<Seq<char>>::Failed(
            crate::error::DemError::Eof,
        ),
{
    if k < c.len() && c[k as int] == 0 && forall|i: int| 0 <= i < k ==> c[i] != 0 {
        lemma_nts_from_bytes(c, k, seq![]);
        assert(Seq::<char>::empty() + Seq::new(k, |i: int| c[i] as char) =~= Seq::new(k, |i: int| c[i] as char));
    }
    if forall|i: int| 0 <= i < c.len() ==> c[i] != 0 {
        lemma_nts_from_no_terminator(c, seq![]);
    }
}

/// The bits an optional field of `n` bits takes after its presence bit.
#[verifier::opaque]
pub open spec fn opt_width<T>(o: Option<T>, n: nat) -> int {
    if o is Some { n as int } else { 0 }
}

proof fn lemma_skip_skip(b: Bits, x: int, y: int)
    requires
        0 <= x,
        0 <= y,
        x + y <= b.len(),
    ensures
        b.skip(x).skip(y) == b.skip(x + y),
{
    assert(b.skip(x).skip(y) =~= b.skip(x + y));
}

proof fn lemma_opt_u32(b: Bits, n: nat)
    ensures
        crate::bits::sp_opt_u32(b, n) matches Step::Done(o, r) ==> {
            &&& opt_width(o, n) >= 0
            &&& (o is Some <==> b[0])
            &&& 1 + opt_width(o, n) <= b.len()
            &&& r == b.skip(1 + opt_width(o, n))
            &&& (o matches Some(v) ==> v == uval(b.skip(1), n))
        },
{
    reveal(opt_width);
    if b.len() >= 1 {
        lemma_skip_skip(b, 1, 0);
        if b.len() >= 1 + n {
            lemma_skip_skip(b, 1, n as int);
        }
        assert(b.drop_first() =~= b.skip(1));
    }
}

proof fn lemma_opt_i32(b: Bits, n: nat)
    ensures
        crate::bits::sp_opt_i32(b, n) matches Step::Done(o, r) ==> {
            &&& opt_width(o, n) >= 0
            &&& (o is Some <==> b[0])
            &&& 1 + opt_width(o, n) <= b.len()
            &&& r == b.skip(1 + opt_width(o, n))
            &&& (o matches Some(v) ==> v == ival(b.skip(1), n))
        },
{
    reveal(opt_width);
    if b.len() >= 1 {
        lemma_skip_skip(b, 1, 0);
        if b.len() >= 1 + n {
            lemma_skip_skip(b, 1, n as int);
        }
        assert(b.drop_first() =~= b.skip(1));
    }
}

/// What the head of a user command at `b` holds, and where it ends.
spec fn head_facts(b: Bits, h: (i32, Option<i32>, Option<i32>), r: Bits) -> bool {
    &&& h.0 == ival(b, 32)
    &&& (h.1 is Some <==> b[64])
    &&& (h.2 is Some <==> b[65 + opt_width(h.1, 32)])
    &&& opt_width(h.1, 32) >= 0 && opt_width(h.2, 32) >= 0
    &&& 66 + opt_width(h.1, 32) + opt_width(h.2, 32) <= b.len()
    &&& r == b.skip(66 + opt_width(h.1, 32) + opt_width(h.2, 32))
}

proof fn lemma_usercmd_head(b: Bits)
    ensures
        crate::messages::usercmd::sp_usercmd_head(b) matches Step::Done(h, r) ==> head_facts(b, h, r),
{
    if b.len() >= 64 {
        lemma_skip_skip(b, 32, 32);
        let b2 = b.skip(64);
        lemma_opt_i32(b2, 32);
        if let Step::Done(cn, b3) = crate::bits::sp_opt_i32(b2, 32) {
            let w1 = 1 + opt_width(cn, 32);
            lemma_skip_skip(b, 64, w1 as int);
            lemma_opt_i32(b3, 32);
            if let Step::Done(tc, b4) = crate::bits::sp_opt_i32(b3, 32) {
                let w2 = 1 + opt_width(tc, 32);
                lemma_skip_skip(b, 64 + w1, w2 as int);
                assert(b3[0] == b[64 + w1]);
            }
        }
    }
}

/// Where the presence bits of the motion fields at `b` stand, and where they end.
spec fn motion_facts(b: Bits, m: (Seq<Option<u32>>, Option<u32>, Option<u32>, Option<u32>), r: Bits) -> bool {
    let q1 = 1 + opt_width(m.0[0], 32);
    let q2 = q1 + 1 + opt_width(m.0[1], 32);
    let q3 = q2 + 1 + opt_width(m.0[2], 32);
    let q4 = q3 + 1 + opt_width(m.1, 32);
    let q5 = q4 + 1 + opt_width(m.2, 32);
    let q6 = q5 + 1 + opt_width(m.3, 32);
    &&& 0 < q1 < q2 < q3 < q4 < q5 < q6
    &&& m.0.len() == 3
    &&& (m.0[0] is Some <==> b[0])
    &&& (m.0[1] is Some <==> b[q1 as int])
    &&& (m.0[2] is Some <==> b[q2 as int])
    &&& (m.1 is Some <==> b[q3 as int])
    &&& (m.2 is Some <==> b[q4 as int])
    &&& (m.3 is Some <==> b[q5 as int])
    &&& q6 <= b.len()
    &&& r == b.skip(q6 as int)
}

#[verifier::rlimit(60)]
proof fn lemma_usercmd_motion(b: Bits)
    ensures
        crate::messages::usercmd::sp_usercmd_motion(b) matches Step::Done(m, r) ==> motion_facts(b, m, r),
{
    lemma_skip_skip(b, 0, 0);
    assert(b.skip(0) =~= b);
    lemma_opt_u32(b, 32);
    if let Step::Done(x, c1) = crate::bits::sp_opt_u32(b, 32) {
        let q1 = 1 + opt_width(x, 32);
        lemma_opt_u32(c1, 32);
        if let Step::Done(y, c2) = crate::bits::sp_opt_u32(c1, 32) {
            let q2 = q1 + 1 + opt_width(y, 32);
            lemma_skip_skip(b, q1 as int, q2 - q1);
            lemma_opt_u32(c2, 32);
            if let Step::Done(z, c3) = crate::bits::sp_opt_u32(c2, 32) {
                let q3 = q2 + 1 + opt_width(z, 32);
                lemma_skip_skip(b, q2 as int, q3 - q2);
                lemma_opt_u32(c3, 32);
                if let Step::Done(f, c4) = crate::bits::sp_opt_u32(c3, 32) {
                    let q4 = q3 + 1 + opt_width(f, 32);
                    lemma_skip_skip(b, q3 as int, q4 - q3);
                    lemma_opt_u32(c4, 32);
                    if let Step::Done(sd, c5) = crate::bits::sp_opt_u32(c4, 32) {
                        let q5 = q4 + 1 + opt_width(sd, 32);
                        lemma_skip_skip(b, q4 as int, q5 - q4);
                        lemma_opt_u32(c5, 32);
                        if let Step::Done(up, c6) = crate::bits::sp_opt_u32(c5, 32) {
                            let q6 = q5 + 1 + opt_width(up, 32);
                            lemma_skip_skip(b, q5 as int, q6 - q5);
                            assert(seq![x, y, z][0] == x && seq![x, y, z][1] == y && seq![x, y, z][2] == z);
                        }
                    }
                }
            }
        }
    }
}

/// Where the presence bits of the input fields at `b` stand, their bounds, and
/// where they end.
spec fn input_facts(b: Bits, v: (Option<i32>, Option<i8>, Option<u16>, Option<u8>, Option<i16>, Option<i16>), r: Bits) -> bool {
    let q1 = 1 + opt_width(v.0, 32);
    let q2 = q1 + 1 + opt_width(v.1, 8);
    let q3 = q2 + 1 + opt_width(v.2, 17);
    let q4 = q3 + 1 + opt_width(v.4, 16);
    let q5 = q4 + 1 + opt_width(v.5, 16);
    &&& 0 < q1 < q2 < q3 < q4 < q5
    &&& (v.0 is Some <==> b[0])
    &&& (v.1 is Some <==> b[q1 as int])
    &&& (v.2 is Some <==> b[q2 as int])
    &&& (v.4 is Some <==> b[q3 as int])
    &&& (v.5 is Some <==> b[q4 as int])
    &&& (v.3 is Some <==> v.2 is Some)
    &&& (v.2 matches Some(w) ==> w < 2048)
    &&& (v.3 matches Some(t) ==> t < 64)
    &&& q5 <= b.len()
    &&& r == b.skip(q5 as int)
}

proof fn lemma_usercmd_input(b: Bits)
    ensures
        crate::messages::usercmd::sp_usercmd_input(b) matches Step::Done(v, r) ==> input_facts(b, v, r),
{
    reveal(opt_width);
    assert(b.skip(0) =~= b);
    lemma_opt_u32(b, 32);
    if let Step::Done(x, c1) = crate::bits::sp_opt_u32(b, 32) {
        let q1 = 1 + opt_width(x, 32);
        lemma_opt_u32(c1, 8);
        if let Step::Done(y, c2) = crate::bits::sp_opt_u32(c1, 8) {
            let q2 = q1 + 1 + opt_width(y, 8);
            lemma_skip_skip(b, q1 as int, q2 - q1);
            lemma_opt_u32(c2, 11);
            if let Step::Done(z, c3) = crate::bits::sp_opt_u32(c2, 11) {
                let p3 = q2 + 1 + opt_width(z, 11);
                lemma_skip_skip(b, q2 as int, p3 - q2);
                let ws = crate::messages::usercmd::opt_u32_as_u16(z);
                lemma2_to64();
                if z is Some {
                    crate::sizes::lemma_uval_bound(c2.skip(1), 11);
                    if c3.len() >= 6 {
                        crate::sizes::lemma_uval_bound(c3, 6);
                    }
                }
                if let Step::Done(st, c4) = crate::messages::usercmd::sp_weapon_subtype(c3, ws) {
                    let q3 = q2 + 1 + opt_width(ws, 17);
                    if ws is Some {
                        lemma_skip_skip(b, p3 as int, 6);
                    } else {
                        assert(c3 == b.skip(q3 as int));
                    }
                    assert(c4 == b.skip(q3 as int));
                    lemma_opt_i32(c4, 16);
                    if let Step::Done(dx, c5) = crate::bits::sp_opt_i32(c4, 16) {
                        let q4 = q3 + 1 + opt_width(dx, 16);
                        lemma_skip_skip(b, q3 as int, q4 - q3);
                        lemma_opt_i32(c5, 16);
                        if let Step::Done(dy, c6) = crate::bits::sp_opt_i32(c5, 16) {
                            let q5 = q4 + 1 + opt_width(dy, 16);
                            lemma_skip_skip(b, q4 as int, q5 - q4);
                        }
                    }
                }
            }
        }
    }
}

proof fn lemma_usercmd_split(b: Bits)
    ensures
        sp_usercmd(b) matches Step::Done(u, r) ==> {
            &&& crate::messages::usercmd::sp_usercmd_head(b) matches Step::Done(h, b1)
            &&& crate::messages::usercmd::sp_usercmd_motion(b1) matches Step::Done(m, b2)
            &&& crate::messages::usercmd::sp_usercmd_input(b2) matches Step::Done(v, b3)
            &&& u.cmd == h.0 && u.command_number == h.1 && u.tick_count == h.2
            &&& u.view_angles == m.0 && u.forward_move == m.1 && u.side_move == m.2 && u.up_move == m.3
            &&& u.buttons == v.0 && u.impulse == v.1 && u.weapon_select == v.2 && u.weapon_subtype == v.3
            &&& u.mouse_dx == v.4 && u.mouse_dy == v.5
            &&& r == sp_align(b3)
        },
{
}

/// The presence bits of a user command's parts, placed in the whole stream.
proof fn lemma_usercmd_positions(
    b: Bits,
    h: (i32, Option<i32>, Option<i32>),
    b1: Bits,
    m: (Seq<Option<u32>>, Option<u32>, Option<u32>, Option<u32>),
    b2: Bits,
    v: (Option<i32>, Option<i8>, Option<u16>, Option<u8>, Option<i16>, Option<i16>),
    b3: Bits,
)
    requires
        head_facts(b, h, b1),
        motion_facts(b1, m, b2),
        input_facts(b2, v, b3),
    ensures
        ({
            let p_tick = 65 + opt_width(h.1, 32);
            let p_va0 = p_tick + 1 + opt_width(h.2, 32);
            let p_va1 = p_va0 + 1 + opt_width(m.0[0], 32);
            let p_va2 = p_va1 + 1 + opt_width(m.0[1], 32);
            let p_fwd = p_va2 + 1 + opt_width(m.0[2], 32);
            let p_side = p_fwd + 1 + opt_width(m.1, 32);
            let p_up = p_side + 1 + opt_width(m.2, 32);
            let p_buttons = p_up + 1 + opt_width(m.3, 32);
            let p_impulse = p_buttons + 1 + opt_width(v.0, 32);
            let p_weapon = p_impulse + 1 + opt_width(v.1, 8);
            let p_dx = p_weapon + 1 + opt_width(v.2, 17);
            let p_dy = p_dx + 1 + opt_width(v.4, 16);
            &&& h.0 == ival(b, 32)
            &&& (h.1 is Some <==> b[64])
            &&& (h.2 is Some <==> b[p_tick])
            &&& m.0.len() == 3
            &&& (m.0[0] is Some <==> b[p_va0])
            &&& (m.0[1] is Some <==> b[p_va1])
            &&& (m.0[2] is Some <==> b[p_va2])
            &&& (m.1 is Some <==> b[p_fwd])
            &&& (m.2 is Some <==> b[p_side])
            &&& (m.3 is Some <==> b[p_up])
            &&& (v.0 is Some <==> b[p_buttons])
            &&& (v.1 is Some <==> b[p_impulse])
            &&& (v.2 is Some <==> b[p_weapon])
            &&& (v.4 is Some <==> b[p_dx])
            &&& (v.5 is Some <==> b[p_dy])
            &&& (v.3 is Some <==> v.2 is Some)
            &&& (v.2 matches Some(w) ==> w < 2048)
            &&& (v.3 matches Some(t) ==> t < 64)
        }),
{
    let o1 = 66 + opt_width(h.1, 32) + opt_width(h.2, 32);
    let q1 = 1 + opt_width(m.0[0], 32);
    let q2 = q1 + 1 + opt_width(m.0[1], 32);
    let q3 = q2 + 1 + opt_width(m.0[2], 32);
    let q4 = q3 + 1 + opt_width(m.1, 32);
    let q5 = q4 + 1 + opt_width(m.2, 32);
    let o2 = q5 + 1 + opt_width(m.3, 32);
    assert(b1[0] == b[o1]);
    assert(b1[q1] == b[o1 + q1]);
    assert(b1[q2] == b[o1 + q2]);
    assert(b1[q3] == b[o1 + q3]);
    assert(b1[q4] == b[o1 + q4]);
    assert(b1[q5] == b[o1 + q5]);
    lemma_skip_skip(b, o1, o2);
    let o = o1 + o2;
    let r1 = 1 + opt_width(v.0, 32);
    let r2 = r1 + 1 + opt_width(v.1, 8);
    let r3 = r2 + 1 + opt_width(v.2, 17);
    let r4 = r3 + 1 + opt_width(v.4, 16);
    assert(b2[0] == b[o]);
    assert(b2[r1] == b[o + r1]);
    assert(b2[r2] == b[o + r2]);
    assert(b2[r3] == b[o + r3]);
    assert(b2[r4] == b[o + r4]);
}

/// The values of the head's optional fields at `b`.
spec fn head_values(b: Bits, h: (i32, Option<i32>, Option<i32>)) -> bool {
    &&& (h.1 matches Some(x) ==> x == ival(b.skip(65), 32))
    &&& (h.2 matches Some(x) ==> x == ival(b.skip(66 + opt_width(h.1, 32)), 32))
}

proof fn lemma_usercmd_head_values(b: Bits)
    ensures
        crate::messages::usercmd::sp_usercmd_head(b) matches Step::Done(h, r) ==> head_values(b, h),
{
    if b.len() >= 64 {
        lemma_skip_skip(b, 32, 32);
        let b2 = b.skip(64);
        lemma_opt_i32(b2, 32);
        if let Step::Done(cn, b3) = crate::bits::sp_opt_i32(b2, 32) {
            let w1 = 1 + opt_width(cn, 32);
            lemma_skip_skip(b, 64, 1);
            lemma_skip_skip(b, 64, w1 as int);
            lemma_opt_i32(b3, 32);
            if let Step::Done(tc, b4) = crate::bits::sp_opt_i32(b3, 32) {
                lemma_skip_skip(b, 64 + w1, 1);
            }
        }
    }
}

/// The values of the motion fields at `b`.
spec fn motion_values(b: Bits, m: (Seq<Option<u32>>, Option<u32>, Option<u32>, Option<u32>)) -> bool {
    let q1 = 1 + opt_width(m.0[0], 32);
    let q2 = q1 + 1 + opt_width(m.0[1], 32);
    let q3 = q2 + 1 + opt_width(m.0[2], 32);
    let q4 = q3 + 1 + opt_width(m.1, 32);
    let q5 = q4 + 1 + opt_width(m.2, 32);
    &&& (m.0[0] matches Some(x) ==> x == uval(b.skip(1), 32))
    &&& (m.0[1] matches Some(x) ==> x == uval(b.skip(q1 + 1), 32))
    &&& (m.0[2] matches Some(x) ==> x == uval(b.skip(q2 + 1), 32))
    &&& (m.1 matches Some(x) ==> x == uval(b.skip(q3 + 1), 32))
    &&& (m.2 matches Some(x) ==> x == uval(b.skip(q4 + 1), 32))
    &&& (m.3 matches Some(x) ==> x == uval(b.skip(q5 + 1), 32))
}

#[verifier::rlimit(60)]
proof fn lemma_usercmd_motion_values(b: Bits)
    ensures
        crate::messages::usercmd::sp_usercmd_motion(b) matches Step::Done(m, r) ==> motion_values(b, m),
{
    lemma_opt_u32(b, 32);
    if let Step::Done(x, c1) = crate::bits::sp_opt_u32(b, 32) {
        let q1 = 1 + opt_width(x, 32);
        lemma_opt_u32(c1, 32);
        if let Step::Done(y, c2) = crate::bits::sp_opt_u32(c1, 32) {
            lemma_skip_skip(b, q1, 1);
            let q2 = q1 + 1 + opt_width(y, 32);
            lemma_skip_skip(b, q1, q2 - q1);
            lemma_opt_u32(c2, 32);
            if let Step::Done(z, c3) = crate::bits::sp_opt_u32(c2, 32) {
                lemma_skip_skip(b, q2, 1);
                let q3 = q2 + 1 + opt_width(z, 32);
                lemma_skip_skip(b, q2, q3 - q2);
                lemma_opt_u32(c3, 32);
                if let Step::Done(f, c4) = crate::bits::sp_opt_u32(c3, 32) {
                    lemma_skip_skip(b, q3, 1);
                    let q4 = q3 + 1 + opt_width(f, 32);
                    lemma_skip_skip(b, q3, q4 - q3);
                    lemma_opt_u32(c4, 32);
                    if let Step::Done(sd, c5) = crate::bits::sp_opt_u32(c4, 32) {
                        lemma_skip_skip(b, q4, 1);
                        let q5 = q4 + 1 + opt_width(sd, 32);
                        lemma_skip_skip(b, q4, q5 - q4);
                        lemma_opt_u32(c5, 32);
                        if let Step::Done(up, c6) = crate::bits::sp_opt_u32(c5, 32) {
                            lemma_skip_skip(b, q5, 1);
                            assert(seq![x, y, z][0] == x && seq![x, y, z][1] == y && seq![x, y, z][2] == z);
                        }
                    }
                }
            }
        }
    }
}

/// The values of the input fields at `b`.
spec fn input_values(b: Bits, v: (Option<i32>, Option<i8>, Option<u16>, Option<u8>, Option<i16>, Option<i16>)) -> bool {
    let q1 = 1 + opt_width(v.0, 32);
    let q2 = q1 + 1 + opt_width(v.1, 8);
    let q3 = q2 + 1 + opt_width(v.2, 17);
    let q4 = q3 + 1 + opt_width(v.4, 16);
    &&& (v.2 is Some ==> opt_width(v.2, 17) == 17)
    &&& (v.0 matches Some(x) ==> x == uval(b.skip(1), 32) as i32)
    &&& (v.1 matches Some(x) ==> x == (uval(b.skip(q1 + 1), 8) as u8) as i8)
    &&& (v.2 matches Some(x) ==> x == uval(b.skip(q2 + 1), 11) as u16)
    &&& (v.3 matches Some(x) ==> x == uval(b.skip(q2 + 12), 6) as u8)
    &&& (v.4 matches Some(x) ==> x == ival(b.skip(q3 + 1), 16) as i16)
    &&& (v.5 matches Some(x) ==> x == ival(b.skip(q4 + 1), 16) as i16)
}

proof fn lemma_usercmd_input_values(b: Bits)
    ensures
        crate::messages::usercmd::sp_usercmd_input(b) matches Step::Done(v, r) ==> input_values(b, v),
{
    reveal(opt_width);
    lemma_opt_u32(b, 32);
    if let Step::Done(x, c1) = crate::bits::sp_opt_u32(b, 32) {
        let q1 = 1 + opt_width(x, 32);
        lemma_opt_u32(c1, 8);
        if let Step::Done(y, c2) = crate::bits::sp_opt_u32(c1, 8) {
            lemma_skip_skip(b, q1, 1);
            let q2 = q1 + 1 + opt_width(y, 8);
            lemma_skip_skip(b, q1, q2 - q1);
            lemma_opt_u32(c2, 11);
            if let Step::Done(z, c3) = crate::bits::sp_opt_u32(c2, 11) {
                lemma_skip_skip(b, q2, 1);
                let p3 = q2 + 1 + opt_width(z, 11);
                lemma_skip_skip(b, q2, p3 - q2);
                let ws = crate::messages::usercmd::opt_u32_as_u16(z);
                if let Step::Done(st, c4) = crate::messages::usercmd::sp_weapon_subtype(c3, ws) {
                    let q3 = q2 + 1 + opt_width(ws, 17);
                    if ws is Some {
                        lemma_skip_skip(b, p3, 6);
                        assert(c3 == b.skip(q2 + 12));
                    } else {
                        assert(c3 == b.skip(q3));
                    }
                    assert(c4 == b.skip(q3));
                    lemma_opt_i32(c4, 16);
                    if let Step::Done(dx, c5) = crate::bits::sp_opt_i32(c4, 16) {
                        lemma_skip_skip(b, q3, 1);
                        let q4 = q3 + 1 + opt_width(dx, 16);
                        lemma_skip_skip(b, q3, q4 - q3);
                        lemma_opt_i32(c5, 16);
                        if let Step::Done(dy, c6) = crate::bits::sp_opt_i32(c5, 16) {
                            lemma_skip_skip(b, q4, 1);
                        }
                    }
                }
            }
        }
    }
}

/// The values of a user command's optional fields, placed in the whole stream.
#[verifier::rlimit(100)]
#[verifier::spinoff_prover]
proof fn lemma_usercmd_value_positions(
    b: Bits,
    h: (i32, Option<i32>, Option<i32>),
    b1: Bits,
    m: (Seq<Option<u32>>, Option<u32>, Option<u32>, Option<u32>),
    b2: Bits,
    v: (Option<i32>, Option<i8>, Option<u16>, Option<u8>, Option<i16>, Option<i16>),
    b3: Bits,
)
    requires
        head_facts(b, h, b1),
        motion_facts(b1, m, b2),
        input_facts(b2, v, b3),
        head_values(b, h),
        motion_values(b1, m),
        input_values(b2, v),
    ensures
        ({
            let p_tick = 65 + opt_width(h.1, 32);
            let p_va0 = p_tick + 1 + opt_width(h.2, 32);
            let p_va1 = p_va0 + 1 + opt_width(m.0[0], 32);
            let p_va2 = p_va1 + 1 + opt_width(m.0[1], 32);
            let p_fwd = p_va2 + 1 + opt_width(m.0[2], 32);
            let p_side = p_fwd + 1 + opt_width(m.1, 32);
            let p_up = p_side + 1 + opt_width(m.2, 32);
            let p_buttons = p_up + 1 + opt_width(m.3, 32);
            let p_impulse = p_buttons + 1 + opt_width(v.0, 32);
            let p_weapon = p_impulse + 1 + opt_width(v.1, 8);
            let p_dx = p_weapon + 1 + opt_width(v.2, 17);
            let p_dy = p_dx + 1 + opt_width(v.4, 16);
            &&& (h.1 matches Some(x) ==> x == ival(b.skip(65), 32))
            &&& (h.2 matches Some(x) ==> x == ival(b.skip(p_tick + 1), 32))
            &&& (m.0[0] matches Some(x) ==> x == uval(b.skip(p_va0 + 1), 32))
            &&& (m.0[1] matches Some(x) ==> x == uval(b.skip(p_va1 + 1), 32))
            &&& (m.0[2] matches Some(x) ==> x == uval(b.skip(p_va2 + 1), 32))
            &&& (m.1 matches Some(x) ==> x == uval(b.skip(p_fwd + 1), 32))
            &&& (m.2 matches Some(x) ==> x == uval(b.skip(p_side + 1), 32))
            &&& (m.3 matches Some(x) ==> x == uval(b.skip(p_up + 1), 32))
            &&& (v.0 matches Some(x) ==> x == uval(b.skip(p_buttons + 1), 32) as i32)
            &&& (v.1 matches Some(x) ==> x == (uval(b.skip(p_impulse + 1), 8) as u8) as i8)
            &&& (v.2 matches Some(x) ==> x == uval(b.skip(p_weapon + 1), 11) as u16)
            &&& (v.3 matches Some(x) ==> x == uval(b.skip(p_weapon + 12), 6) as u8)
            &&& (v.4 matches Some(x) ==> x == ival(b.skip(p_dx + 1), 16) as i16)
            &&& (v.5 matches Some(x) ==> x == ival(b.skip(p_dy + 1), 16) as i16)
        }),
{
    let o1 = 66 + opt_width(h.1, 32) + opt_width(h.2, 32);
    let q1 = 1 + opt_width(m.0[0], 32);
    let q2 = q1 + 1 + opt_width(m.0[1], 32);
    let q3 = q2 + 1 + opt_width(m.0[2], 32);
    let q4 = q3 + 1 + opt_width(m.1, 32);
    let q5 = q4 + 1 + opt_width(m.2, 32);
    let o2 = q5 + 1 + opt_width(m.3, 32);
    lemma_skip_skip(b, o1, 1);
    lemma_skip_skip(b, o1, q1 + 1);
    lemma_skip_skip(b, o1, q2 + 1);
    lemma_skip_skip(b, o1, q3 + 1);
    lemma_skip_skip(b, o1, q4 + 1);
    lemma_skip_skip(b, o1, q5 + 1);
    lemma_skip_skip(b, o1, o2);
    let o = o1 + o2;
    let r1 = 1 + opt_width(v.0, 32);
    let r2 = r1 + 1 + opt_width(v.1, 8);
    let r3 = r2 + 1 + opt_width(v.2, 17);
    let r4 = r3 + 1 + opt_width(v.4, 16);
    lemma_skip_skip(b, o, 1);
    lemma_skip_skip(b, o, r1 + 1);
    lemma_skip_skip(b, o, r2 + 1);
    if v.2 is Some {
        lemma_skip_skip(b, o, r2 + 12);
    }
    lemma_skip_skip(b, o, r3 + 1);
    lemma_skip_skip(b, o, r4 + 1);
}

/// When present, each optional field of a user command is the value of the
/// bits right after its presence bit: the command number and the tick count
/// 32-bit two's-complement values, the view angles and the moves 32-bit
/// patterns, the buttons all 32 bits, the impulse 8 bits, the weapon
/// selection 11 bits followed by a 6-bit subtype, and the mouse deltas 16-bit
/// two's-complement values.
#[verifier::rlimit(60)]
#[verifier::spinoff_prover]
pub proof fn law_usercmd_values(b: Bits)
    ensures
        sp_usercmd(b) matches Step::Done(u, r) ==> {
            let p_tick = 65 + opt_width(u.command_number, 32);
            let p_va0 = p_tick + 1 + opt_width(u.tick_count, 32);
            let p_va1 = p_va0 + 1 + opt_width(u.view_angles[0], 32);
            let p_va2 = p_va1 + 1 + opt_width(u.view_angles[1], 32);
            let p_fwd = p_va2 + 1 + opt_width(u.view_angles[2], 32);
            let p_side = p_fwd + 1 + opt_width(u.forward_move, 32);
            let p_up = p_side + 1 + opt_width(u.side_move, 32);
            let p_buttons = p_up + 1 + opt_width(u.up_move, 32);
            let p_impulse = p_buttons + 1 + opt_width(u.buttons, 32);
            let p_weapon = p_impulse + 1 + opt_width(u.impulse, 8);
            let p_dx = p_weapon + 1 + opt_width(u.weapon_select, 17);
            let p_dy = p_dx + 1 + opt_width(u.mouse_dx, 16);
            &&& (u.command_number matches Some(x) ==> x == ival(b.skip(65), 32))
            &&& (u.tick_count matches Some(x) ==> x == ival(b.skip(p_tick + 1), 32))
            &&& (u.view_angles[0] matches Some(x) ==> x == uval(b.skip(p_va0 + 1), 32))
            &&& (u.view_angles[1] matches Some(x) ==> x == uval(b.skip(p_va1 + 1), 32))
            &&& (u.view_angles[2] matches Some(x) ==> x == uval(b.skip(p_va2 + 1), 32))
            &&& (u.forward_move matches Some(x) ==> x == uval(b.skip(p_fwd + 1), 32))
            &&& (u.side_move matches Some(x) ==> x == uval(b.skip(p_side + 1), 32))
            &&& (u.up_move matches Some(x) ==> x == uval(b.skip(p_up + 1), 32))
            &&& (u.buttons matches Some(x) ==> x == uval(b.skip(p_buttons + 1), 32) as i32)
            &&& (u.impulse matches Some(x) ==> x == (uval(b.skip(p_impulse + 1), 8) as u8) as i8)
            &&& (u.weapon_select matches Some(x) ==> x == uval(b.skip(p_weapon + 1), 11) as u16)
            &&& (u.weapon_subtype matches Some(x) ==> x == uval(b.skip(p_weapon + 12), 6) as u8)
            &&& (u.mouse_dx matches Some(x) ==> x == ival(b.skip(p_dx + 1), 16) as i16)
            &&& (u.mouse_dy matches Some(x) ==> x == ival(b.skip(p_dy + 1), 16) as i16)
        },
{
    lemma_usercmd_split(b);
    if let Step::Done(h, b1) = crate::messages::usercmd::sp_usercmd_head(b) {
        if let Step::Done(m, b2) = crate::messages::usercmd::sp_usercmd_motion(b1) {
            if let Step::Done(v, b3) = crate::messages::usercmd::sp_usercmd_input(b2) {
                lemma_usercmd_head(b);
                lemma_usercmd_motion(b1);
                lemma_usercmd_input(b2);
                lemma_usercmd_head_values(b);
                lemma_usercmd_motion_values(b1);
                lemma_usercmd_input_values(b2);
                lemma_usercmd_value_positions(b, h, b1, m, b2, v, b3);
            }
        }
    }
}

/// A user command takes its command from its first 32 bits; after its
/// 32-bit padding count each optional field is present exactly when its
/// presence bit is set, that bit standing just after the previous field; its
/// weapon selection fits 11 bits and its weapon subtype 6 bits, the subtype
/// present exactly with the selection and carrying no presence bit; and the
/// stream is left at a byte boundary.
#[verifier::rlimit(60)]
#[verifier::spinoff_prover]
pub proof fn law_usercmd_fields(b: Bits)
    ensures
        sp_usercmd(b) matches Step::Done(u, r) ==> {
            let p_tick = 65 + opt_width(u.command_number, 32);
            let p_va0 = p_tick + 1 + opt_width(u.tick_count, 32);
            let p_va1 = p_va0 + 1 + opt_width(u.view_angles[0], 32);
            let p_va2 = p_va1 + 1 + opt_width(u.view_angles[1], 32);
            let p_fwd = p_va2 + 1 + opt_width(u.view_angles[2], 32);
            let p_side = p_fwd + 1 + opt_width(u.forward_move, 32);
            let p_up = p_side + 1 + opt_width(u.side_move, 32);
            let p_buttons = p_up + 1 + opt_width(u.up_move, 32);
            let p_impulse = p_buttons + 1 + opt_width(u.buttons, 32);
            let p_weapon = p_impulse + 1 + opt_width(u.impulse, 8);
            let p_dx = p_weapon + 1 + opt_width(u.weapon_select, 17);
            let p_dy = p_dx + 1 + opt_width(u.mouse_dx, 16);
            &&& u.cmd == ival(b, 32)
            &&& (u.command_number is Some <==> b[64])
            &&& (u.tick_count is Some <==> b[p_tick])
            &&& u.view_angles.len() == 3
            &&& (u.view_angles[0] is Some <==> b[p_va0])
            &&& (u.view_angles[1] is Some <==> b[p_va1])
            &&& (u.view_angles[2] is Some <==> b[p_va2])
            &&& (u.forward_move is Some <==> b[p_fwd])
            &&& (u.side_move is Some <==> b[p_side])
            &&& (u.up_move is Some <==> b[p_up])
            &&& (u.buttons is Some <==> b[p_buttons])
            &&& (u.impulse is Some <==> b[p_impulse])
            &&& (u.weapon_select is Some <==> b[p_weapon])
            &&& (u.mouse_dx is Some <==> b[p_dx])
            &&& (u.mouse_dy is Some <==> b[p_dy])
            &&& (u.weapon_subtype is Some <==> u.weapon_select is Some)
            &&& (u.weapon_select matches Some(w) ==> w < 2048)
            &&& (u.weapon_subtype matches Some(t) ==> t < 64)
            &&& r.len() % 8 == 0
        },
{
    lemma_usercmd_split(b);
    if let Step::Done(h, b1) = crate::messages::usercmd::sp_usercmd_head(b) {
        if let Step::Done(m, b2) = crate::messages::usercmd::sp_usercmd_motion(b1) {
            if let Step::Done(v, b3) = crate::messages::usercmd::sp_usercmd_input(b2) {
                lemma_usercmd_head(b);
                lemma_usercmd_motion(b1);
                lemma_usercmd_input(b2);
                lemma_usercmd_positions(b, h, b1, m, b2, v, b3);
                let n = b3.len();
                assert((n - n % 8) % 8 == 0) by (nonlinear_arith);
                assert(sp_align(b3).len() == n - n % 8);
            }
        }
    }
}

/// The text of the 260-byte name field at byte `at` of `c`: its bytes up to
/// the first zero byte.
pub open spec fn name_field(c: Seq<u8>, at: int) -> Seq<u8> {
    let f = c.subrange(at, at + 260);
    f.take(first_zero(f) as int)
}

/// Reading `m` bytes at byte `k` of `c` gives the bytes there and leaves the
/// stream at byte `k + m`.
proof fn lemma_bytes_at(c: Seq<u8>, k: nat, m: nat)
    requires
        k + m <= c.len(),
    ensures
        sp_bytes(bytes_to_bits(c.skip(k as int)), m) == Step::Done(
            c.subrange(k as int, (k + m) as int),
            bytes_to_bits(c.skip((k + m) as int)),
        ),
        bytes_to_bits(c.skip(k as int)).len() >= 8 * m,
        bytes_to_bits(c.skip(k as int)).skip(8 * m as int) == bytes_to_bits(c.skip((k + m) as int)),
{
    law_bytes_read_back(c.skip(k as int), m);
    assert(c.skip(k as int).take(m as int) =~= c.subrange(k as int, (k + m) as int));
    assert(c.skip(k as int).skip(m as int) =~= c.skip((k + m) as int));
}

/// A stream at byte `k` of `c` holds eight bits per byte left.
proof fn lemma_bits_at_len(c: Seq<u8>, k: nat)
    requires
        k <= c.len(),
    ensures
        bytes_to_bits(c.skip(k as int)).len() == 8 * (c.len() - k),
{
}

/// A header decodes from bytes `c` exactly when `c` holds its 1072 bytes,
/// its eight-byte stamp is UTF-8 and so is the text of each of its four name
/// fields; then the stamp is those eight bytes (zero bytes kept), each name
/// is the text of its field up to the field's first zero byte, the numbers
/// are the little-endian values at their offsets, and the stream is left
/// just after the 1072 bytes.
#[verifier::rlimit(100)]
#[verifier::spinoff_prover]
pub proof fn law_header_bytes(c: Seq<u8>)
    ensures
        sp_header(bytes_to_bits(c)) is Done <==> (c.len() >= 1072 && vstd::utf8::valid_utf8(c.take(8))
            && vstd::utf8::valid_utf8(name_field(c, 16)) && vstd::utf8::valid_utf8(name_field(c, 276))
            && vstd::utf8::valid_utf8(name_field(c, 536)) && vstd::utf8::valid_utf8(name_field(c, 796))),
        sp_header(bytes_to_bits(c)) matches Step::Done(h, r) ==> {
            &&& h.stamp == vstd::utf8::decode_utf8(c.take(8))
            &&& h.demo_protocol == ival(bytes_to_bits(c.skip(8)), 32)
            &&& h.network_protocol == ival(bytes_to_bits(c.skip(12)), 32)
            &&& h.server_name == vstd::utf8::decode_utf8(name_field(c, 16))
            &&& h.client_name == vstd::utf8::decode_utf8(name_field(c, 276))
            &&& h.map_name == vstd::utf8::decode_utf8(name_field(c, 536))
            &&& h.game_directory == vstd::utf8::decode_utf8(name_field(c, 796))
            &&& h.time_bits == uval(bytes_to_bits(c.skip(1056)), 32)
            &&& h.ticks == ival(bytes_to_bits(c.skip(1060)), 32)
            &&& h.frames == ival(bytes_to_bits(c.skip(1064)), 32)
            &&& h.signon_len == uval(bytes_to_bits(c.skip(1068)), 32) as i32
            &&& r == bytes_to_bits(c.skip(1072))
        },
{
    assert(c.skip(0) =~= c);
    assert(c.subrange(0, 8) =~= c.take(8));
    let offsets: Seq<(nat, nat)> = seq![
        (0nat, 8nat),
        (8, 4),
        (12, 4),
        (16, 260),
        (276, 260),
        (536, 260),
        (796, 260),
        (1056, 4),
        (1060, 4),
        (1064, 4),
        (1068, 4),
    ];
    assert forall|j: int| 0 <= j < offsets.len() && offsets[j].0 + offsets[j].1 <= c.len() implies {
        &&& sp_bytes(bytes_to_bits(c.skip(offsets[j].0 as int)), offsets[j].1) == Step::Done(
            c.subrange(offsets[j].0 as int, (offsets[j].0 + offsets[j].1) as int),
            bytes_to_bits(c.skip((offsets[j].0 + offsets[j].1) as int)),
        )
        &&& bytes_to_bits(c.skip(offsets[j].0 as int)).skip(8 * offsets[j].1 as int) == bytes_to_bits(
            c.skip((offsets[j].0 + offsets[j].1) as int),
        )
    } by {
        lemma_bytes_at(c, offsets[j].0, offsets[j].1);
    }
    assert forall|j: int| 0 <= j < offsets.len() && offsets[j].0 <= c.len() implies bytes_to_bits(
        c.skip(offsets[j].0 as int),
    ).len() == 8 * (c.len() - offsets[j].0) by {
        lemma_bits_at_len(c, offsets[j].0);
    }
    assert(offsets[0] == (0nat, 8nat));
    assert(offsets[1] == (8nat, 4nat));
    assert(offsets[2] == (12nat, 4nat));
    assert(offsets[3] == (16nat, 260nat));
    assert(offsets[4] == (276nat, 260nat));
    assert(offsets[5] == (536nat, 260nat));
    assert(offsets[6] == (796nat, 260nat));
    assert(offsets[7] == (1056nat, 4nat));
    assert(offsets[8] == (1060nat, 4nat));
    assert(offsets[9] == (1064nat, 4nat));
    assert(offsets[10] == (1068nat, 4nat));
}

/// The message kinds that a packet decodes: 0 to 2, 3 on the old engine and
/// 4 beyond it, 6 on the old engine, 7, 8, 10, 12, 14 and 30.
pub open spec fn kind_is_decoded(kind: u8, oe: bool) -> bool {
    ||| kind == 0 || kind == 1 || kind == 2
    ||| (kind == 3 && oe) || (kind == 4 && !oe)
    ||| (kind == 6 && oe) || kind == 7
    ||| kind == 8 || kind == 10 || kind == 12 || kind == 14 || kind == 30
}

/// Each decoded message kind gives its message: 0 a no-op, 1 a disconnect, 2
/// a file, 3 (old engine) or 4 (beyond it) a tick, 6 (old engine) or 7 a
/// sign-on state, 8 server info, 10 class info, 12 a new string table, 14
/// voice setup and 30 a game event list; any other kind is an unknown-kind
/// error, for a single message and, at a message boundary, for the run of
/// messages of a packet.
pub proof fn law_message_kinds(b: Bits, kind: u8, h: SpecHeader, remaining: nat, acc: Seq<SpecNetSvcMessage>)
    ensures
        !kind_is_decoded(kind, h.oe()) ==> sp_net_svc_message(b, kind, h) == Step::<(SpecNetSvcMessage, u64)>::Failed(
            crate::error::DemError::UnknownNetSvcMessage(kind),
        ),
        sp_net_svc_message(b, kind, h) matches Step::Done(m, _) ==> {
            &&& kind_is_decoded(kind, h.oe())
            &&& kind == 0 ==> m.0 is NetNop
            &&& kind == 1 ==> m.0 is NetDisconnect
            &&& kind == 2 ==> m.0 is NetFile
            &&& (kind == 3 || kind == 4) ==> m.0 is NetTick
            &&& (kind == 6 || kind == 7) ==> m.0 is NetSignonState
            &&& kind == 8 ==> m.0 is SvcServerInfo
            &&& kind == 10 ==> m.0 is SvcClassInfo
            &&& kind == 12 ==> m.0 is SvcCreateStringTable
            &&& kind == 14 ==> m.0 is SvcVoiceInit
            &&& kind == 30 ==> m.0 is SvcGameEventList
        },
        remaining >= 6 ==> (sp_u8(b, 6) matches Step::Done(k, _) ==> (!kind_is_decoded(k, h.oe())
            ==> sp_net_svc_messages(b, remaining, h, acc) == Step::<Seq<SpecNetSvcMessage>>::Failed(
            crate::error::DemError::UnknownNetSvcMessage(k),
        ))),
{
    if remaining >= 6 {
        if let Step::Done(k, b1) = sp_u8(b, 6) {
            if !kind_is_decoded(k, h.oe()) {
                assert(sp_net_svc_message(b1, k, h) == Step::<(SpecNetSvcMessage, u64)>::Failed(
                    crate::error::DemError::UnknownNetSvcMessage(k),
                ));
            }
        }
    }
}

/// A new string table has user data sizes exactly in pairs, a 12-bit size
/// and a 4-bit size width; a dictionary flag only beyond the old engine; a
/// positive capacity; and an entry count that fits one bit more than the
/// capacity's logarithm.
pub proof fn law_create_string_table_ranges(b: Bits, oe: bool)
    ensures
        sp_create_string_table(b, oe) matches Step::Done(v, _) ==> {
            let t = v.0;
            &&& (t.user_data_size is Some <==> t.user_data_size_bits is Some)
            &&& (t.user_data_size matches Some(n) ==> n < 4096)
            &&& (t.user_data_size_bits matches Some(n) ==> n < 16)
            &&& (oe ==> !t.flags.dictionary_maybe_enabled)
            &&& t.max_entries > 0
            &&& t.num_entries < pow2(log2(t.max_entries as nat) + 1)
        },
{
    lemma2_to64();
    if let Step::Done(name, b1) = sp_nts_cap(b, 256) {
        if let Step::Done(me, b2) = crate::bits::sp_u16(b1, 16) {
            if me != 0 {
                let lg = log2(me as nat);
                lemma_log2_below(me as nat, 16);
                if b2.len() >= lg + 1 {
                    crate::sizes::lemma_uval_bound(b2, lg + 1);
                    if lg + 1 < 16 {
                        vstd::arithmetic::power2::lemma_pow2_strictly_increases(lg + 1, 16);
                    }
                }
                if let Step::Done(ne, b3) = crate::bits::sp_u16(b2, lg + 1) {
                    if let Step::Done(len, b4) = crate::bits::sp_u32(b3, 20) {
                        if let Step::Done(p, b5) = crate::bits::sp_bit(b4) {
                            if p && b5.len() >= 16 {
                                crate::sizes::lemma_uval_bound(b5, 12);
                                crate::sizes::lemma_uval_bound(b5.skip(12), 4);
                            }
                        }
                    }
                }
            }
        }
    }
}

/// A console command frame read from bytes `c`: a little-endian 32-bit size
/// `s`, then `k` ASCII bytes and a zero byte, then the rest of the `s` bytes.
/// It gives the `k` bytes as chars and leaves the stream just after the `s`
/// bytes, when those fit in `c` and the rest is shorter than 2^29 bytes.
pub proof fn law_concmd_bytes(c: Seq<u8>, k: nat)
    ensures
        ({
            let s = uval(bytes_to_bits(c), 32);
            (4 + k < c.len() && c[4 + k as int] == 0 && (forall|i: int| 0 <= i < k ==> 0 < #[trigger] c[4 + i] < 128)
                && k + 1 <= s && 4 + s <= c.len() && (s - k - 1) * 8 <= u32::MAX) ==> sp_concmd(bytes_to_bits(c))
                == Step::Done(Seq::new(k, |i: int| c[4 + i] as char), bytes_to_bits(c.skip(4 + s)))
        }),
{
    broadcast use crate::sizes::lemma_ascii_utf8_len;

    let s = uval(bytes_to_bits(c), 32);
    if 4 + k < c.len() && c[4 + k as int] == 0 && (forall|i: int| 0 <= i < k ==> 0 < #[trigger] c[4 + i] < 128) && k
        + 1 <= s && 4 + s <= c.len() && (s - k - 1) * 8 <= u32::MAX {
        let bb = bytes_to_bits(c);
        law_bytes_read_back(c, 4);
        let d = c.skip(4);
        assert forall|i: int| 0 <= i < k implies d[i] != 0 by {
            assert(d[i] == c[4 + i]);
        }
        assert(d[k as int] == c[4 + k as int]);
        law_nts_latin1(d, k);
        let cmd = Seq::new(k, |i: int| d[i] as char);
        assert(cmd =~= Seq::new(k, |i: int| c[4 + i] as char));
        assert forall|i: int| 0 <= i < cmd.len() implies (cmd[i] as u32) < 128 by {
            assert(d[i] == c[4 + i]);
            assert((d[i] as char) as u32 == d[i] as u32);
        }
        assert(crate::sizes::is_ascii(cmd));
        assert(utf8_len(cmd) == k);
        let e = d.skip(k + 1int);
        assert(e =~= c.skip(4 + k + 1int));
        law_bytes_read_back(e, (s - k - 1) as nat);
        assert(e.skip(s - k - 1) =~= c.skip(4 + s));
    }
}

/// The frame that decodes from `b` in a demo with header `h`.
#[verifier::opaque]
pub open spec fn frame_at(b: Bits, h: SpecHeader) -> Step<SpecFrame> {
    crate::message::sp_frame(b, h)
}

/// Each frame of `fs` decodes from one position of `bs` to the next: the
/// first from `bs[0]`, the last ending at the last position.
pub open spec fn frames_chained(bs: Seq<Bits>, h: SpecHeader, fs: Seq<SpecFrame>) -> bool
    decreases fs.len(),
{
    &&& bs.len() == fs.len() + 1
    &&& fs.len() > 0 ==> {
        &&& frame_at(bs[0], h) == Step::Done(fs[0], bs[1])
        &&& frames_chained(bs.drop_first(), h, fs.drop_first())
    }
}

/// The frames that `sp_frames` appends after `acc`, and the stream positions
/// between them.
#[verifier::rlimit(60)]
#[verifier::spinoff_prover]
proof fn lemma_frames_chain(b: Bits, h: SpecHeader, acc: Seq<SpecFrame>) -> (bs: Seq<Bits>)
    requires
        forall|i: int| 0 <= i < acc.len() ==> !(acc[i].data is Stop),
    ensures
        sp_frames(b, h, acc) matches Step::Done(fs, r) ==> {
            &&& frames_chained(bs, h, fs.skip(acc.len() as int))
            &&& bs[0] == b
            &&& bs.last() == r
        },
    decreases b.len(),
{
    assert(frame_at(b, h) == crate::message::sp_frame(b, h)) by {
        reveal(frame_at);
    }
    if let Step::Done(f, b1) = crate::message::sp_frame(b, h) {
        if f.data is Stop {
            let fs = acc.push(f);
            assert(fs.skip(acc.len() as int) =~= seq![f]);
            assert(seq![b, b1].drop_first() =~= seq![b1]);
            assert(seq![f].drop_first() =~= Seq::<SpecFrame>::empty());
            assert(frames_chained(seq![b1], h, Seq::<SpecFrame>::empty()));
            seq![b, b1]
        } else if b1.len() < b.len() {
            let rest = lemma_frames_chain(b1, h, acc.push(f));
            lemma_frames_end_at_stop(b1, h, acc.push(f));
            let bs = seq![b] + rest;
            if let Step::Done(fs, r) = sp_frames(b1, h, acc.push(f)) {
                assert(fs[acc.len() as int] == fs.take(acc.len() + 1int)[acc.len() as int]);
                assert(fs[acc.len() as int] == f);
                assert(fs.skip(acc.len() as int).drop_first() =~= fs.skip(acc.len() + 1int));
                assert(bs.drop_first() =~= rest);
                assert(bs[1] == rest[0]);
            }
            bs
        } else {
            seq![b]
        }
    } else {
        seq![b]
    }
}

/// A decoded demo is its header, decoded from the first 1072 bytes, then its
/// frames decoded one after another: the first from just after the header,
/// each next one from where the previous one ended, the last ending where
/// the demo does.
pub proof fn law_demo_successive(bytes: Seq<u8>)
    ensures
        demo_of_bytes(bytes) matches Step::Done(d, r) ==> {
            &&& sp_header(bytes_to_bits(bytes)) == Step::Done(d.header, bytes_to_bits(bytes.skip(1072)))
            &&& exists|bs: Seq<Bits>|
                {
                    &&& frames_chained(bs, d.header, d.frames)
                    &&& bs[0] == bytes_to_bits(bytes.skip(1072))
                    &&& bs.last() == r
                }
        },
{
    law_header_bytes(bytes);
    let b = bytes_to_bits(bytes);
    if let Step::Done(h, b1) = sp_header(b) {
        let bs = lemma_frames_chain(b1, h, seq![]);
        if let Step::Done(d, r) = demo_of_bytes(bytes) {
            assert(d.header == h);
            assert(d.frames.skip(0) =~= d.frames);
            assert(frames_chained(bs, d.header, d.frames));
        }
    }
}

} // verus!
