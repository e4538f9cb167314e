//! How many bits each decoder consumes, and how that compares with the size
//! in bits that a message reports for itself.
//!
//! A message counts eight bits for each UTF-8 byte of its strings, while the
//! stream holds one byte for each char; the two agree exactly on strings whose
//! chars are all below 128.
use vstd::prelude::*;
use vstd::arithmetic::power2::{pow2, lemma2_to64};
use crate::bits::{Bits, Step, bits_to_nat, sp_u8, lemma_bits_to_nat_bound, uval};
use crate::header::SpecHeader;
use crate::messages::consolecmd::sp_concmd;
use crate::messages::packet::{SpecCmdInfo, SpecNetSvcMessage, sp_cmd_info, sp_cmd_infos, sp_net_svc_message, sp_net_svc_messages, sp_packet};
use crate::svcnetmessage::svcclassinfo::{SpecServerClass, sp_classinfo, sp_server_class, sp_server_classes};
use crate::svcnetmessage::svccreatestringtable::{lemma_log2_below, log2, sp_create_string_table};
use crate::svcnetmessage::svcgameeventlist::{
    EventDescriptorType, SpecGameEventDescription, event_type_of, sp_event_description, sp_event_descriptions,
    sp_event_keys, sp_game_event_list,
};
use crate::svcnetmessage::svcserverinfo::sp_serverinfo;
use crate::text::{lemma_encode_utf8_push, lemma_sp_nts_from_shrinks, sp_nts, sp_nts_cap, sp_nts_cap_from, sp_nts_from, utf8_len};

verus! {

/// Every char of `s` is below 128.
pub open spec fn is_ascii(s: Seq<char>) -> bool {
    forall|i: int| 0 <= i < s.len() ==> (s[i] as u32) < 128
}

/// The UTF-8 length of an ASCII string is its length.
pub broadcast proof fn lemma_ascii_utf8_len(s: Seq<char>)
    requires
        is_ascii(s),
    ensures
        #[trigger] utf8_len(s) == s.len(),
    decreases s.len(),
{
    if s.len() == 0 {
        assert(vstd::utf8::encode_utf8(s) =~= Seq::<u8>::empty());
    } else {
        let t = s.drop_last();
        lemma_ascii_utf8_len(t);
        let c = s.last() as u32;
        assert(c < 128);
        assert(t.push(s.last()) =~= s);
        lemma_encode_utf8_push(t, s.last());
        assert(vstd::utf8::encode_scalar(c).len() == 1) by {
            assert(c & 0x7f == c) by (bit_vector)
                requires
                    c < 128u32,
            ;
        }
    }
}

/// The value of the first `n` bits of a stream holding at least `n` fits
/// `n` bits.
pub broadcast proof fn lemma_uval_bound(s: Bits, n: nat)
    requires
        n <= s.len(),
        n <= 32,
    ensures
        #[trigger] uval(s, n) < pow2(n),
{
    lemma_bits_to_nat_bound(s.take(n as int));
    lemma2_to64();
    if n < 32 {
        vstd::arithmetic::power2::lemma_pow2_strictly_increases(n, 32);
    }
}

proof fn lemma_nts_from_consumed(b: Bits, acc: Seq<char>)
    ensures
        sp_nts_from(b, acc) matches Step::Done(s, r) ==> s.len() >= acc.len() && b.len() == r.len() + 8 * (
        s.len() - acc.len() + 1),
    decreases b.len(),
{
    if b.len() >= 8 {
        let v = uval(b, 8) as u8;
        if v != 0 {
            lemma_nts_from_consumed(b.skip(8), acc.push(v as char));
        }
    }
}

/// A zero-terminated string consumes eight bits per char and eight for its
/// terminator.
pub broadcast proof fn lemma_nts_consumed(b: Bits)
    ensures
        #[trigger] sp_nts(b) matches Step::Done(s, r) ==> b.len() == r.len() + 8 * (s.len() + 1),
{
    lemma_nts_from_consumed(b, seq![]);
}

proof fn lemma_nts_cap_from_consumed(b: Bits, acc: Seq<char>, left: nat, cap: nat)
    ensures
        sp_nts_cap_from(b, acc, left, cap) matches Step::Done(s, r) ==> s.len() >= acc.len() && s.len()
            < acc.len() + left && b.len() == r.len() + 8 * (s.len() - acc.len() + 1) && r == b.skip(
            8 * (s.len() - acc.len() + 1),
        ),
    decreases left,
{
    if left > 0 && b.len() >= 8 {
        let v = uval(b, 8) as u8;
        if v != 0 && utf8_len(acc.push(v as char)) <= cap {
            lemma_nts_cap_from_consumed(b.skip(8), acc.push(v as char), (left - 1) as nat, cap);
            if let Step::Done(s, r) = sp_nts_cap_from(b.skip(8), acc.push(v as char), (left - 1) as nat, cap) {
                assert(b.skip(8).skip(8 * (s.len() - acc.len())) =~= b.skip(8 * (s.len() - acc.len() + 1)));
            }
        }
    }
}

/// A string read into a buffer of `cap` bytes consumes eight bits per char
/// and eight for its terminator, and has fewer than `cap` chars.
pub broadcast proof fn lemma_nts_cap_consumed(b: Bits, cap: nat)
    ensures
        #[trigger] sp_nts_cap(b, cap) matches Step::Done(s, r) ==> s.len() < cap && b.len() == r.len() + 8 * (
        s.len() + 1) && r == b.skip(8 * (s.len() + 1) as int),
{
    lemma_nts_cap_from_consumed(b, seq![], cap, cap);
}

/// Server info carries the string table checksum exactly beyond the old
/// engine, and the size it reports is the number of bits it consumed when
/// its four names are ASCII.
pub proof fn law_serverinfo_size(b: Bits, oe: bool)
    ensures
        sp_serverinfo(b, oe) matches Step::Done(v, r) ==> {
            &&& (v.0.string_table_crc is Some <==> !oe)
            &&& (is_ascii(v.0.game_dir) && is_ascii(v.0.map_name) && is_ascii(v.0.sky_name) && is_ascii(
                v.0.host_name,
            )) ==> v.1 == b.len() - r.len()
        },
{
    broadcast use lemma_nts_cap_consumed, lemma_ascii_utf8_len;

}

/// A new string table reports as its size the number of bits it consumed,
/// its data included, when its name is ASCII.
pub proof fn law_create_string_table_size(b: Bits, oe: bool)
    ensures
        sp_create_string_table(b, oe) matches Step::Done(v, r) ==> {
            &&& v.0.max_entries > 0
            &&& is_ascii(v.0.name) ==> v.1 == b.len() - r.len()
        },
{
    broadcast use lemma_nts_cap_consumed, lemma_ascii_utf8_len;

    if let Step::Done(name, b1) = sp_nts_cap(b, 256) {
        if let Step::Done(me, b2) = crate::bits::sp_u16(b1, 16) {
            if me != 0 {
                lemma2_to64();
                lemma_log2_below(me as nat, 16);
            }
        }
    }
}

/// A console command frame consumes its 32-bit size field and exactly the
/// number of bytes that field gives, when its command is ASCII and shorter
/// than 2^32 bytes.
pub proof fn law_concmd_consumes_size(b: Bits)
    ensures
        sp_concmd(b) matches Step::Done(s, r) ==> (is_ascii(s) && s.len() <= u32::MAX) ==> b.len() == r.len()
            + 32 + 8 * uval(b, 32),
{
    broadcast use lemma_nts_consumed, lemma_ascii_utf8_len;

}

/// Both names of a server class are ASCII.
pub open spec fn class_is_ascii(c: SpecServerClass) -> bool {
    is_ascii(c.name) && is_ascii(c.data_table)
}

proof fn lemma_server_classes_size(b: Bits, left: nat, acc: Seq<SpecServerClass>, tb: nat)
    ensures
        sp_server_classes(b, left, acc, tb) matches Step::Done(v, r) ==> {
            &&& v.0.len() == acc.len() + left
            &&& forall|i: int| 0 <= i < acc.len() ==> v.0[i] == acc[i]
            &&& v.1 >= tb
            &&& (forall|i: int| acc.len() <= i < v.0.len() ==> class_is_ascii(#[trigger] v.0[i])) ==> v.1 - tb
                == b.len() - r.len()
        },
    decreases left,
{
    broadcast use lemma_nts_consumed, lemma_ascii_utf8_len;

    if left > 0 {
        if let Step::Done(c, b1) = sp_server_class(b) {
            if tb + c.1 <= u64::MAX {
                lemma_server_classes_size(b1, (left - 1) as nat, acc.push(c.0), tb + c.1);
                if let Step::Done(v, r) = sp_server_classes(b1, (left - 1) as nat, acc.push(c.0), tb + c.1) {
                    assert(v.0[acc.len() as int] == acc.push(c.0)[acc.len() as int]);
                    assert forall|i: int| 0 <= i < acc.len() implies v.0[i] == acc[i] by {
                        assert(v.0[i] == acc.push(c.0)[i]);
                    }
                }
            }
        }
    }
}

/// Every listed server class of `classes` has ASCII names.
pub open spec fn classes_are_ascii(classes: Option<Seq<SpecServerClass>>) -> bool {
    match classes {
        Some(v) => all_classes_ascii(v),
        None => true,
    }
}

/// Every server class of `v` has ASCII names.
pub open spec fn all_classes_ascii(v: Seq<SpecServerClass>) -> bool {
    forall|i: int| 0 <= i < v.len() ==> class_is_ascii(#[trigger] v[i])
}

/// A class info reports 17 bits when the client builds the classes, and in
/// every case reports as its size the number of bits it consumed when the
/// names of its classes are ASCII.
pub proof fn law_class_info_size(b: Bits)
    ensures
        sp_classinfo(b) matches Step::Done(v, r) ==> {
            &&& v.0.create_on_client ==> v.1 == 17
            &&& classes_are_ascii(v.0.server_classes) ==> v.1 == b.len() - r.len()
        },
{
    if let Step::Done(n, b1) = crate::bits::sp_u16(b, 16) {
        if let Step::Done(coc, b2) = crate::bits::sp_bit(b1) {
            lemma_server_classes_size(b2, n as nat, seq![], 0);
            if !coc {
                if let Step::Done(ct, b3) = sp_server_classes(b2, n as nat, seq![], 0) {
                    if let Step::Done(v, r) = sp_classinfo(b) {
                        assert(v.0.server_classes == Some(ct.0));
                        assert(r == b3);
                        if classes_are_ascii(v.0.server_classes) {
                            assert(all_classes_ascii(ct.0));
                            assert(ct.1 == b2.len() - b3.len());
                        }
                    }
                }
            }
        }
    }
}

/// The keys appended after `acc` have known types; with ASCII names, the key
/// bits they add are the bits they consumed.
proof fn lemma_event_keys_size(b: Bits, acc: Seq<(Seq<char>, EventDescriptorType)>, kb: nat)
    ensures
        sp_event_keys(b, acc, kb) matches Step::Done(v, r) ==> {
            &&& v.0.len() >= acc.len()
            &&& forall|i: int| 0 <= i < acc.len() ==> v.0[i] == acc[i]
            &&& forall|i: int| acc.len() <= i < v.0.len() ==> (#[trigger] v.0[i]).1 !is Unknown
            &&& v.1 >= kb
            &&& (forall|i: int| acc.len() <= i < v.0.len() ==> is_ascii((#[trigger] v.0[i]).0)) ==> v.1 - kb
                == b.len() - r.len()
        },
    decreases b.len(),
{
    broadcast use lemma_nts_consumed, lemma_ascii_utf8_len;

    if b.len() >= 3 && kb + 3 <= u64::MAX {
        let kind = uval(b, 3) as u8;
        let b1 = b.skip(3);
        if kind != 0 {
            if let Step::Done(key, b2) = sp_nts(b1) {
                let next = kb + 3 + (utf8_len(key) + 1) * 8;
                if next <= u64::MAX {
                    lemma_sp_nts_from_shrinks(b1, seq![]);
                    lemma_uval_bound(b, 3);
                    lemma2_to64();
                    assert(1 <= kind <= 7);
                    let e = (key, event_type_of(kind));
                    lemma_event_keys_size(b2, acc.push(e), next);
                    if let Step::Done(v, r) = sp_event_keys(b2, acc.push(e), next) {
                        assert(v.0[acc.len() as int] == acc.push(e)[acc.len() as int]);
                        assert forall|i: int| 0 <= i < acc.len() implies v.0[i] == acc[i] by {
                            assert(v.0[i] == acc.push(e)[i]);
                        }
                    }
                }
            }
        }
    }
}

/// The name and every key name of an event description are ASCII.
pub open spec fn description_is_ascii(d: SpecGameEventDescription) -> bool {
    is_ascii(d.name) && forall|i: int| 0 <= i < d.keys.len() ==> is_ascii((#[trigger] d.keys[i]).0)
}

/// An event description has an id below 512 and keys of known types only (a
/// zero type code ends the list), and reports as its size the number of bits
/// it consumed when its names are ASCII.
pub proof fn law_event_description_size(b: Bits)
    ensures
        sp_event_description(b) matches Step::Done(v, r) ==> {
            &&& v.0.event_id < 512
            &&& forall|i: int| 0 <= i < v.0.keys.len() ==> (#[trigger] v.0.keys[i]).1 !is Unknown
            &&& description_is_ascii(v.0) ==> v.1 == b.len() - r.len()
        },
{
    broadcast use lemma_nts_consumed, lemma_ascii_utf8_len;

    if let Step::Done(id, b1) = crate::bits::sp_u16(b, 9) {
        lemma_uval_bound(b, 9);
        lemma2_to64();
        if let Step::Done(name, b2) = sp_nts(b1) {
            lemma_event_keys_size(b2, seq![], 0);
        }
    }
}

proof fn lemma_event_descriptions_size(b: Bits, left: nat, acc: Seq<SpecGameEventDescription>, total: nat)
    ensures
        sp_event_descriptions(b, left, acc, total) matches Step::Done(v, r) ==> {
            &&& v.0.len() == acc.len() + left
            &&& forall|i: int| 0 <= i < acc.len() ==> v.0[i] == acc[i]
            &&& v.1 >= total
            &&& (forall|i: int| acc.len() <= i < v.0.len() ==> description_is_ascii(#[trigger] v.0[i])) ==> v.1
                - total == b.len() - r.len()
        },
    decreases left,
{
    if left > 0 {
        if let Step::Done(d, b1) = sp_event_description(b) {
            if total + d.1 <= u64::MAX {
                law_event_description_size(b);
                lemma_event_descriptions_size(b1, (left - 1) as nat, acc.push(d.0), total + d.1);
                if let Step::Done(v, r) = sp_event_descriptions(b1, (left - 1) as nat, acc.push(d.0), total + d.1) {
                    assert(v.0[acc.len() as int] == acc.push(d.0)[acc.len() as int]);
                    assert forall|i: int| 0 <= i < acc.len() implies v.0[i] == acc[i] by {
                        assert(v.0[i] == acc.push(d.0)[i]);
                    }
                }
            }
        }
    }
}

/// A game event list announces fewer than 512 events and reports as its size
/// the number of bits it consumed when all its names are ASCII.
pub proof fn law_event_list_size(b: Bits)
    ensures
        sp_game_event_list(b) matches Step::Done(v, r) ==> {
            &&& v.0.events < 512
            &&& (forall|i: int| 0 <= i < v.0.descriptors.len() ==> description_is_ascii(
                #[trigger] v.0.descriptors[i],
            )) ==> v.1 == b.len() - r.len()
        },
{
    if let Step::Done(events, b1) = crate::bits::sp_u16(b, 9) {
        lemma_uval_bound(b, 9);
        lemma2_to64();
        if let Step::Done(length, b2) = crate::bits::sp_u32(b1, 20) {
            lemma_event_descriptions_size(b2, events as nat, seq![], 0);
            if let Step::Done(dd, b3) = sp_event_descriptions(b2, events as nat, seq![], 0) {
                if let Step::Done(v, r) = sp_game_event_list(b) {
                    assert(v.0.descriptors == dd.0);
                    assert(r == b3);
                }
            }
        }
    }
}

/// Each message of the run that starts at `b`, with `remaining` bits of the
/// packet still counted, reports as its size the number of bits it consumed.
pub open spec fn sizes_exact(b: Bits, remaining: nat, h: SpecHeader) -> bool
    decreases remaining,
{
    if remaining < 6 {
        true
    } else {
        match sp_u8(b, 6) {
            Step::Done(kind, b1) => match sp_net_svc_message(b1, kind, h) {
                Step::Done(ms, b2) => ms.1 == b1.len() - b2.len() && (ms.1 <= remaining - 6 ==> sizes_exact(
                    b2,
                    (remaining - 6 - ms.1) as nat,
                    h,
                )),
                _ => true,
            },
            _ => true,
        }
    }
}

proof fn lemma_messages_consumed(b: Bits, remaining: nat, h: SpecHeader, acc: Seq<SpecNetSvcMessage>)
    requires
        sizes_exact(b, remaining, h),
    ensures
        sp_net_svc_messages(b, remaining, h, acc) matches Step::Done(_, r) ==> b.len() == r.len() + remaining,
    decreases remaining,
{
    if remaining >= 6 {
        if let Step::Done(kind, b1) = sp_u8(b, 6) {
            if let Step::Done(ms, b2) = sp_net_svc_message(b1, kind, h) {
                if ms.1 <= remaining - 6 {
                    lemma_messages_consumed(b2, (remaining - 6 - ms.1) as nat, h, acc.push(ms.0));
                }
            }
        }
    }
}

proof fn lemma_cmd_infos_consumed(b: Bits, left: nat, acc: Seq<SpecCmdInfo>)
    ensures
        sp_cmd_infos(b, left, acc) matches Step::Done(_, r) ==> b.len() >= 608 * left && r == b.skip(
            608 * left as int,
        ),
    decreases left,
{
    if left == 0 {
        assert(b.skip(0) =~= b);
    } else if let Step::Done(c, b1) = sp_cmd_info(b) {
        assert(b1 == b.skip(608));
        lemma_cmd_infos_consumed(b1, (left - 1) as nat, acc.push(c));
        if b1.len() >= 608 * (left - 1) {
            assert(b1.skip(608 * (left - 1)) =~= b.skip(608 * left as int));
        }
    }
}

/// A packet takes its sequence numbers from the two 32-bit fields after its
/// command infos, and consumes its command infos (608 bits for each local player), its
/// two sequence numbers and its byte count, then exactly the bytes that count
/// gives, whenever each of its messages reports as its size the bits it
/// consumed.
pub proof fn law_packet_consumed(b: Bits, h: SpecHeader)
    ensures
        ({
            let at = 608 * h.mssc;
            let size = uval(b.skip(at + 64), 32);
            sp_packet(b, h) matches Step::Done(p, r) ==> {
                &&& p.in_seq == uval(b.skip(at), 32) as i32
                &&& p.out_seq == uval(b.skip(at + 32), 32) as i32
                &&& sizes_exact(b.skip(at + 96), 8 * size as nat, h) ==> b.len() == r.len() + at + 96 + 8 * size
            }
        }),
{
    let at = 608 * h.mssc;
    lemma_cmd_infos_consumed(b, h.mssc as nat, seq![]);
    if let Step::Done(info, b1) = sp_cmd_infos(b, h.mssc as nat, seq![]) {
        if b1.len() >= 96 {
            assert(b1 == b.skip(at));
            assert(b1.skip(32) =~= b.skip(at + 32));
            assert(b1.skip(32).skip(32) =~= b.skip(at + 64));
            assert(b1.skip(32).skip(32).skip(32) =~= b.skip(at + 96));
            let size = uval(b.skip(at + 64), 32);
            if sizes_exact(b.skip(at + 96), 8 * size as nat, h) {
                lemma_messages_consumed(b.skip(at + 96), size as nat * 8, h, seq![]);
            }
        }
    }
}

/// The size a new string table reports, field by field, for an ASCII name:
/// eight bits per name byte and terminator, 16 for the capacity, one more
/// than the capacity's logarithm for the entry count, 20 for the data
/// length, one for the user data bit and 16 more when user data sizes
/// follow, one for the compression flag and, beyond the old engine, one for
/// the dictionary flag, then the data length itself, read from the 20 bits
/// after the entry count.
pub proof fn law_create_string_table_formula(b: Bits, oe: bool)
    ensures
        sp_create_string_table(b, oe) matches Step::Done(v, _) ==> is_ascii(v.0.name) ==> {
            let lg = log2(v.0.max_entries as nat);
            let at = 8 * (v.0.name.len() + 1) + 16 + lg + 1;
            v.1 == 8 * (v.0.name.len() + 1) + 16 + (lg + 1) + 20 + 1 + (if v.0.user_data_size is Some {
                16nat
            } else {
                0nat
            }) + 1 + (if oe { 0nat } else { 1nat }) + uval(b.skip(at as int), 20)
        },
{
    broadcast use lemma_nts_cap_consumed, lemma_ascii_utf8_len;

    if let Step::Done(name, b1) = sp_nts_cap(b, 256) {
        if let Step::Done(me, b2) = crate::bits::sp_u16(b1, 16) {
            if me != 0 {
                lemma2_to64();
                lemma_log2_below(me as nat, 16);
                let lg = log2(me as nat) as int;
                if b1.len() >= 16 + lg + 1 {
                    assert(b1.skip(16).skip(lg + 1) =~= b1.skip(16 + lg + 1));
                    assert(b1.skip(16 + lg + 1) =~= b.skip(8 * (name.len() + 1) as int + 16 + lg + 1));
                }
            }
        }
    }
}

/// The size a server class contributes, for ASCII names: 16 bits for its id
/// and eight per byte and terminator of each name.
pub open spec fn class_bits(c: SpecServerClass) -> nat {
    16 + 8 * (c.name.len() + 1) + 8 * (c.data_table.len() + 1)
}

/// The sizes of the server classes of `v`, added up.
pub open spec fn classes_bits(v: Seq<SpecServerClass>) -> nat
    decreases v.len(),
{
    if v.len() == 0 {
        0
    } else {
        classes_bits(v.drop_last()) + class_bits(v.last())
    }
}

proof fn lemma_server_classes_sum(b: Bits, left: nat, acc: Seq<SpecServerClass>, tb: nat)
    ensures
        sp_server_classes(b, left, acc, tb) matches Step::Done(v, _) ==> (forall|i: int|
            acc.len() <= i < v.0.len() ==> class_is_ascii(#[trigger] v.0[i])) ==> v.1 + classes_bits(acc) == tb
            + classes_bits(v.0),
    decreases left,
{
    broadcast use lemma_ascii_utf8_len;

    if left > 0 {
        if let Step::Done(c, b1) = sp_server_class(b) {
            if tb + c.1 <= u64::MAX {
                lemma_server_classes_size(b1, (left - 1) as nat, acc.push(c.0), tb + c.1);
                lemma_server_classes_sum(b1, (left - 1) as nat, acc.push(c.0), tb + c.1);
                assert(acc.push(c.0).drop_last() =~= acc);
                if let Step::Done(v, r) = sp_server_classes(b1, (left - 1) as nat, acc.push(c.0), tb + c.1) {
                    assert(v.0[acc.len() as int] == acc.push(c.0)[acc.len() as int]);
                    if forall|i: int| acc.len() <= i < v.0.len() ==> class_is_ascii(#[trigger] v.0[i]) {
                        assert(class_is_ascii(v.0[acc.len() as int]));
                        assert(c.1 == class_bits(c.0));
                    }
                }
            }
        }
    }
}

/// With ASCII class names, a class info reports 17 bits and the sizes of its
/// listed server classes, added up.
pub proof fn law_class_info_sum(b: Bits)
    ensures
        sp_classinfo(b) matches Step::Done(v, _) ==> classes_are_ascii(v.0.server_classes) ==> v.1 == 17 + (
        match v.0.server_classes {
            Some(cs) => classes_bits(cs),
            None => 0,
        }),
{
    if let Step::Done(n, b1) = crate::bits::sp_u16(b, 16) {
        if let Step::Done(coc, b2) = crate::bits::sp_bit(b1) {
            lemma_server_classes_sum(b2, n as nat, seq![], 0);
            if !coc {
                if let Step::Done(ct, b3) = sp_server_classes(b2, n as nat, seq![], 0) {
                    if let Step::Done(v, r) = sp_classinfo(b) {
                        assert(v.0.server_classes == Some(ct.0));
                        assert(classes_bits(Seq::<SpecServerClass>::empty()) == 0);
                        if classes_are_ascii(v.0.server_classes) {
                            assert(all_classes_ascii(ct.0));
                        }
                    }
                }
            }
        }
    }
}

/// The size an event key contributes, for an ASCII name: three bits for its
/// type and eight per byte and terminator of its name.
pub open spec fn key_bits(k: (Seq<char>, EventDescriptorType)) -> nat {
    3 + 8 * (k.0.len() + 1)
}

/// The sizes of the keys of `v`, added up.
pub open spec fn keys_bits(v: Seq<(Seq<char>, EventDescriptorType)>) -> nat
    decreases v.len(),
{
    if v.len() == 0 {
        0
    } else {
        keys_bits(v.drop_last()) + key_bits(v.last())
    }
}

/// The size an event description reports, for ASCII names: nine bits for its
/// id, eight per byte and terminator of its name, its keys, and three for the
/// zero type code that ends them.
pub open spec fn description_bits(d: SpecGameEventDescription) -> nat {
    9 + 8 * (d.name.len() + 1) + keys_bits(d.keys) + 3
}

proof fn lemma_event_keys_sum(b: Bits, acc: Seq<(Seq<char>, EventDescriptorType)>, kb: nat)
    ensures
        sp_event_keys(b, acc, kb) matches Step::Done(v, _) ==> (forall|i: int|
            acc.len() <= i < v.0.len() ==> is_ascii((#[trigger] v.0[i]).0)) ==> v.1 + keys_bits(acc) == kb
            + keys_bits(v.0) + 3,
    decreases b.len(),
{
    broadcast use lemma_ascii_utf8_len;

    if b.len() >= 3 && kb + 3 <= u64::MAX {
        let kind = uval(b, 3) as u8;
        let b1 = b.skip(3);
        if kind != 0 {
            if let Step::Done(key, b2) = sp_nts(b1) {
                let next = kb + 3 + (utf8_len(key) + 1) * 8;
                if next <= u64::MAX {
                    lemma_sp_nts_from_shrinks(b1, seq![]);
                    let e = (key, event_type_of(kind));
                    lemma_event_keys_size(b2, acc.push(e), next);
                    lemma_event_keys_sum(b2, acc.push(e), next);
                    assert(acc.push(e).drop_last() =~= acc);
                    if let Step::Done(v, r) = sp_event_keys(b2, acc.push(e), next) {
                        assert(v.0[acc.len() as int] == acc.push(e)[acc.len() as int]);
                        if forall|i: int| acc.len() <= i < v.0.len() ==> is_ascii((#[trigger] v.0[i]).0) {
                            assert(is_ascii(v.0[acc.len() as int].0));
                        }
                    }
                }
            }
        }
    }
}

/// With ASCII names, an event description reports nine bits for its id,
/// eight per byte and terminator of its name, the sizes of its keys added
/// up, and three for the zero type code that ends them.
pub proof fn law_event_description_sum(b: Bits)
    ensures
        sp_event_description(b) matches Step::Done(v, _) ==> description_is_ascii(v.0) ==> v.1 == description_bits(
            v.0,
        ),
{
    broadcast use lemma_ascii_utf8_len;

    if let Step::Done(id, b1) = crate::bits::sp_u16(b, 9) {
        if let Step::Done(name, b2) = sp_nts(b1) {
            lemma_event_keys_sum(b2, seq![], 0);
            assert(keys_bits(Seq::<(Seq<char>, EventDescriptorType)>::empty()) == 0);
        }
    }
}

/// The sizes of the event descriptions of `v`, added up.
pub open spec fn descriptions_bits(v: Seq<SpecGameEventDescription>) -> nat
    decreases v.len(),
{
    if v.len() == 0 {
        0
    } else {
        descriptions_bits(v.drop_last()) + description_bits(v.last())
    }
}

proof fn lemma_event_descriptions_sum(b: Bits, left: nat, acc: Seq<SpecGameEventDescription>, total: nat)
    ensures
        sp_event_descriptions(b, left, acc, total) matches Step::Done(v, _) ==> (forall|i: int|
            acc.len() <= i < v.0.len() ==> description_is_ascii(#[trigger] v.0[i])) ==> v.1 + descriptions_bits(
            acc,
        ) == total + descriptions_bits(v.0),
    decreases left,
{
    if left > 0 {
        if let Step::Done(d, b1) = sp_event_description(b) {
            if total + d.1 <= u64::MAX {
                law_event_description_sum(b);
                lemma_event_descriptions_size(b1, (left - 1) as nat, acc.push(d.0), total + d.1);
                lemma_event_descriptions_sum(b1, (left - 1) as nat, acc.push(d.0), total + d.1);
                assert(acc.push(d.0).drop_last() =~= acc);
                if let Step::Done(v, r) = sp_event_descriptions(b1, (left - 1) as nat, acc.push(d.0), total + d.1) {
                    assert(v.0[acc.len() as int] == acc.push(d.0)[acc.len() as int]);
                    if forall|i: int| acc.len() <= i < v.0.len() ==> description_is_ascii(#[trigger] v.0[i]) {
                        assert(description_is_ascii(v.0[acc.len() as int]));
                    }
                }
            }
        }
    }
}

/// With ASCII names, a game event list reports 29 bits for its count and
/// length fields and the sizes of its descriptions, added up.
pub proof fn law_event_list_sum(b: Bits)
    ensures
        sp_game_event_list(b) matches Step::Done(v, _) ==> (forall|i: int|
            0 <= i < v.0.descriptors.len() ==> description_is_ascii(#[trigger] v.0.descriptors[i])) ==> v.1 == 29
            + descriptions_bits(v.0.descriptors),
{
    if let Step::Done(events, b1) = crate::bits::sp_u16(b, 9) {
        if let Step::Done(length, b2) = crate::bits::sp_u32(b1, 20) {
            lemma_event_descriptions_sum(b2, events as nat, seq![], 0);
            assert(descriptions_bits(Seq::<SpecGameEventDescription>::empty()) == 0);
            if let Step::Done(dd, b3) = sp_event_descriptions(b2, events as nat, seq![], 0) {
                if let Step::Done(v, r) = sp_game_event_list(b) {
                    assert(v.0.descriptors == dd.0);
                }
            }
        }
    }
}

} // verus!
