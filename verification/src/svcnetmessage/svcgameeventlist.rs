use vstd::prelude::*;
use crate::error::ParseFail;
use crate::bits::{Bits, BitStream, Step, eof, sp_u16, sp_u32, step_matches, uval};
use crate::text::{lemma_sp_nts_from_shrinks, sp_nts, string_len, utf8_len};

verus! {

/// The list of game events a server may send, with their descriptions.
#[derive(Debug, Clone, PartialEq)]
pub struct SSvcGameEventList {
    pub events: u16,
    pub descriptors: Vec<GameEventDescription>,
}

/// A game event: its id, its name and the names and types of its keys.
#[derive(Debug, Clone, PartialEq)]
pub struct GameEventDescription {
    pub event_id: u16,
    pub name: String,
    pub keys: Vec<(String, EventDescriptorType)>,
}

/// The type of a game event key.
#[derive(Debug, Clone, Copy, PartialEq, Eq, Structural)]
pub enum EventDescriptorType {
    String,
    Float,
    Int32,
    Int16,
    Int8,
    Bool,
    UInt64,
    Unknown(u8),
}

impl DeepView for EventDescriptorType {
    type V = EventDescriptorType;

    open spec fn deep_view(&self) -> EventDescriptorType {
        *self
    }
}

/// The type of each code from 1 to 7; any other code is kept as unknown.
pub open spec fn event_type_of(n: u8) -> EventDescriptorType {
    if n == 1 {
        EventDescriptorType::String
    } else if n == 2 {
        EventDescriptorType::Float
    } else if n == 3 {
        EventDescriptorType::Int32
    } else if n == 4 {
        EventDescriptorType::Int16
    } else if n == 5 {
        EventDescriptorType::Int8
    } else if n == 6 {
        EventDescriptorType::Bool
    } else if n == 7 {
        EventDescriptorType::UInt64
    } else {
        EventDescriptorType::Unknown(n)
    }
}

impl From<u8> for EventDescriptorType {
    fn from(n: u8) -> (r: EventDescriptorType) {
        match n {
            1 => EventDescriptorType::String,
            2 => EventDescriptorType::Float,
            3 => EventDescriptorType::Int32,
            4 => EventDescriptorType::Int16,
            5 => EventDescriptorType::Int8,
            6 => EventDescriptorType::Bool,
            7 => EventDescriptorType::UInt64,
            _ => EventDescriptorType::Unknown(n),
        }
    }
}

impl vstd::std_specs::convert::FromSpecImpl<u8> for EventDescriptorType {
    open spec fn obeys_from_spec() -> bool {
        true
    }

    open spec fn from_spec(n: u8) -> EventDescriptorType {
        event_type_of(n)
    }
}

pub struct SpecGameEventDescription {
    pub event_id: u16,
    pub name: Seq<char>,
    pub keys: Seq<(Seq<char>, EventDescriptorType)>,
}

pub struct SpecSvcGameEventList {
    pub events: u16,
    pub descriptors: Seq<SpecGameEventDescription>,
}

impl DeepView for GameEventDescription {
    type V = SpecGameEventDescription;

    open spec fn deep_view(&self) -> SpecGameEventDescription {
        SpecGameEventDescription { event_id: self.event_id, name: self.name@, keys: self.keys.deep_view() }
    }
}

impl DeepView for SSvcGameEventList {
    type V = SpecSvcGameEventList;

    open spec fn deep_view(&self) -> SpecSvcGameEventList {
        SpecSvcGameEventList { events: self.events, descriptors: self.descriptors.deep_view() }
    }
}

/// Keys appended to `acc` until a zero type code, `key_bits` counting three
/// bits per code and eight per UTF-8 byte and terminator of each key name; a
/// running count beyond `u64::MAX` has no answer.
pub open spec fn sp_event_keys(b: Bits, acc: Seq<(Seq<char>, EventDescriptorType)>, key_bits: nat) -> Step<
    (Seq<(Seq<char>, EventDescriptorType)>, nat),
>
    decreases b.len(),
{
    if b.len() < 3 {
        eof()
    } else if key_bits + 3 > u64::MAX {
        Step::Abort
    } else {
        let kind = uval(b, 3) as u8;
        let b1 = b.skip(3);
        if kind == 0 {
            Step::Done((acc, key_bits + 3), b1)
        } else {
            match sp_nts(b1) {
                Step::Done(key, b2) => {
                    let next = key_bits + 3 + (utf8_len(key) + 1) * 8;
                    if next > u64::MAX {
                        Step::Abort
                    } else {
                        proof {
                            lemma_sp_nts_from_shrinks(b1, seq![]);
                        }
                        sp_event_keys(b2, acc.push((key, event_type_of(kind))), next)
                    }
                },
                Step::Failed(e) => Step::Failed(e),
                Step::Abort => Step::Abort,
            }
        }
    }
}

/// The event id in 9 bits, the name and the keys; the size is 9 bits, eight
/// per UTF-8 byte and terminator of the name, and the key bits.
pub open spec fn sp_event_description(b: Bits) -> Step<(SpecGameEventDescription, nat)> {
    sp_u16(b, 9).and_then(|event_id: u16, b1: Bits|
    sp_nts(b1).and_then(|name: Seq<char>, b2: Bits|
    sp_event_keys(b2, seq![], 0).and_then(|kk: (Seq<(Seq<char>, EventDescriptorType)>, nat), b3: Bits|
        if 9 + (utf8_len(name) + 1) * 8 + kk.1 > u64::MAX {
            Step::Abort
        } else {
            Step::Done(
                (SpecGameEventDescription { event_id, name, keys: kk.0 }, 9 + (utf8_len(name) + 1) * 8 + kk.1),
                b3,
            )
        })))
}

/// `left` more event descriptions appended to `acc`, their sizes added to
/// `total`; a running size beyond `u64::MAX` has no answer.
pub open spec fn sp_event_descriptions(b: Bits, left: nat, acc: Seq<SpecGameEventDescription>, total: nat) -> Step<
    (Seq<SpecGameEventDescription>, nat),
>
    decreases left,
{
    if left == 0 {
        Step::Done((acc, total), b)
    } else {
        match sp_event_description(b) {
            Step::Done(ds, b1) => if total + ds.1 > u64::MAX {
                Step::Abort
            } else {
                sp_event_descriptions(b1, (left - 1) as nat, acc.push(ds.0), total + ds.1)
            },
            Step::Failed(e) => Step::Failed(e),
            Step::Abort => Step::Abort,
        }
    }
}

/// The event count in 9 bits, a length in 20 bits, then that many
/// descriptions; the size is 29 bits and the sizes of the descriptions.
pub open spec fn sp_game_event_list(b: Bits) -> Step<(SpecSvcGameEventList, u64)> {
    sp_u16(b, 9).and_then(|events: u16, b1: Bits|
    sp_u32(b1, 20).and_then(|length: u32, b2: Bits|
    sp_event_descriptions(b2, events as nat, seq![], 0).and_then(
        |dd: (Seq<SpecGameEventDescription>, nat), b3: Bits|
            if 9 + 20 + dd.1 > u64::MAX {
                Step::Abort
            } else {
                Step::Done((SpecSvcGameEventList { events, descriptors: dd.0 }, (9 + 20 + dd.1) as u64), b3)
            },
    )))
}

/// The keys of a game event, up to a zero type code, with their size count.
fn read_event_keys(reader: &mut BitStream) -> (res: Result<(Vec<(String, EventDescriptorType)>, u64), ParseFail>)
    ensures
        step_matches(res, old(reader)@, final(reader)@, sp_event_keys(old(reader)@, seq![], 0).map(
            |kk: (Seq<(Seq<char>, EventDescriptorType)>, nat)| (kk.0, kk.1 as u64),
        )),
        res matches Ok(r) ==> (sp_event_keys(old(reader)@, seq![], 0) matches Step::Done(kk, _) && kk.1 == r.1),
{
    let mut keys: Vec<(String, EventDescriptorType)> = Vec::new();
    let mut keysize: u64 = 0;
    assert(keys.deep_view() =~= Seq::<(Seq<char>, EventDescriptorType)>::empty());
    loop
        invariant
            sp_event_keys(reader@, keys.deep_view(), keysize as nat) == sp_event_keys(old(reader)@, seq![], 0),
            reader@.len() <= old(reader)@.len(),
        decreases reader@.len(),
    {
        let kind = reader.read_u8(3)?;
        if keysize > u64::MAX - 3 {
            return Err(ParseFail::Abort);
        }
        keysize = keysize + 3;
        if kind == 0 {
            return Ok((keys, keysize));
        }
        let ghost b1 = reader@;
        let key = reader.read_nts()?;
        proof {
            lemma_sp_nts_from_shrinks(b1, seq![]);
        }
        let add: u128 = (string_len(&key) as u128 + 1) * 8;
        if keysize as u128 + add > u64::MAX as u128 {
            return Err(ParseFail::Abort);
        }
        keysize = (keysize as u128 + add) as u64;
        let ghost old_keys = keys.deep_view();
        let entry = (key, EventDescriptorType::from(kind));
        keys.push(entry);
        assert(keys.deep_view() =~= old_keys.push(entry.deep_view()));
    }
}

impl GameEventDescription {
    pub fn bitread(reader: &mut BitStream) -> (res: Result<(GameEventDescription, u64), ParseFail>)
        ensures
            step_matches(res, old(reader)@, final(reader)@, sp_event_description(old(reader)@).map(
                |ds: (SpecGameEventDescription, nat)| (ds.0, ds.1 as u64),
            )),
    {
        let event_id = reader.read_u16(9)?;
        let name = reader.read_nts()?;
        let namesize = string_len(&name) as u128 + 1;
        let (keys, keysize) = read_event_keys(reader)?;
        let total: u128 = 9 + namesize * 8 + keysize as u128;
        if total > u64::MAX as u128 {
            return Err(ParseFail::Abort);
        }
        Ok((GameEventDescription { event_id, name, keys }, total as u64))
    }
}

impl SSvcGameEventList {
    #[verifier::loop_isolation(false)]
    pub fn bitread(reader: &mut BitStream) -> (res: Result<(SSvcGameEventList, u64), ParseFail>)
        ensures
            step_matches(res, old(reader)@, final(reader)@, sp_game_event_list(old(reader)@)),
    {
        let events = reader.read_u16(9)?;
        let length = reader.read_u32(20)?;

        let ghost b2 = reader@;
        let mut descriptors: Vec<GameEventDescription> = Vec::with_capacity(length as usize);
        let mut descriptor_size: u64 = 0;
        let mut i: u16 = 0;
        assert(descriptors.deep_view() =~= Seq::<SpecGameEventDescription>::empty());
        while i < events
            invariant
                i <= events,
                sp_event_descriptions(reader@, (events - i) as nat, descriptors.deep_view(), descriptor_size as nat)
                    == sp_event_descriptions(b2, events as nat, seq![], 0),
                reader@.len() <= old(reader)@.len(),
            decreases events - i,
        {
            let (desc, size) = GameEventDescription::bitread(reader)?;
            if descriptor_size > u64::MAX - size {
                return Err(ParseFail::Abort);
            }
            descriptor_size = descriptor_size + size;
            let ghost old_descs = descriptors.deep_view();
            let ghost dv = desc.deep_view();
            descriptors.push(desc);
            assert(descriptors.deep_view() =~= old_descs.push(dv));
            i = i + 1;
        }
        if descriptor_size > u64::MAX - 29 {
            return Err(ParseFail::Abort);
        }

        Ok((SSvcGameEventList { events, descriptors }, 9 + 20 + descriptor_size))
    }
}

} // verus!
