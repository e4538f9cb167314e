use vstd::prelude::*;
use crate::error::ParseFail;
use crate::bits::{Bits, BitStream, Step, sp_bit, sp_u16, step_matches};
use crate::text::{sp_nts, string_len, utf8_len};

verus! {

/// The server classes of a game, or word that the client builds them itself.
#[derive(Debug, Clone, PartialEq)]
pub struct SSvcClassInfo {
    pub num_classes: u16,
    pub create_on_client: bool,
    pub server_classes: Option<Vec<ServerClass>>,
}

/// A server class: its id, name and data table name.
#[derive(Debug, Clone, PartialEq)]
pub struct ServerClass {
    pub id: u16,
    pub name: String,
    pub data_table: String,
}

pub struct SpecServerClass {
    pub id: u16,
    pub name: Seq<char>,
    pub data_table: Seq<char>,
}

pub struct SpecSvcClassInfo {
    pub num_classes: u16,
    pub create_on_client: bool,
    pub server_classes: Option<Seq<SpecServerClass>>,
}

impl DeepView for ServerClass {
    type V = SpecServerClass;

    open spec fn deep_view(&self) -> SpecServerClass {
        SpecServerClass { id: self.id, name: self.name@, data_table: self.data_table@ }
    }
}

impl DeepView for SSvcClassInfo {
    type V = SpecSvcClassInfo;

    open spec fn deep_view(&self) -> SpecSvcClassInfo {
        SpecSvcClassInfo {
            num_classes: self.num_classes,
            create_on_client: self.create_on_client,
            server_classes: self.server_classes.deep_view(),
        }
    }
}

/// One server class and the bits the size count gives it: 16 for the id and
/// eight for each UTF-8 byte and terminator of the two names.
pub open spec fn sp_server_class(b: Bits) -> Step<(SpecServerClass, nat)> {
    sp_u16(b, 16).and_then(|id: u16, b1: Bits|
    sp_nts(b1).and_then(|name: Seq<char>, b2: Bits|
    sp_nts(b2).and_then(|data_table: Seq<char>, b3: Bits|
        Step::Done(
            (
                SpecServerClass { id, name, data_table },
                16 + (utf8_len(name) + 1) * 8 + (utf8_len(data_table) + 1) * 8,
            ),
            b3,
        ))))
}

/// `left` more server classes appended to `acc`, their sizes added to
/// `table_bits`; a running size beyond `u64::MAX` has no answer.
pub open spec fn sp_server_classes(b: Bits, left: nat, acc: Seq<SpecServerClass>, table_bits: nat) -> Step<
    (Seq<SpecServerClass>, nat),
>
    decreases left,
{
    if left == 0 {
        Step::Done((acc, table_bits), b)
    } else {
        match sp_server_class(b) {
            Step::Done(cs, b1) => if table_bits + cs.1 > u64::MAX {
                Step::Abort
            } else {
                sp_server_classes(b1, (left - 1) as nat, acc.push(cs.0), table_bits + cs.1)
            },
            Step::Failed(e) => Step::Failed(e),
            Step::Abort => Step::Abort,
        }
    }
}

/// The class count and the client-side bit; when the bit is clear, that many
/// server classes.  The size is 17 bits and the sizes of the classes.
pub open spec fn sp_classinfo(b: Bits) -> Step<(SpecSvcClassInfo, u64)> {
    sp_u16(b, 16).and_then(|num_classes: u16, b1: Bits|
    sp_bit(b1).and_then(|create_on_client: bool, b2: Bits|
        if !create_on_client {
            sp_server_classes(b2, num_classes as nat, seq![], 0).and_then(
                |ct: (Seq<SpecServerClass>, nat), b3: Bits|
                    if 16 + 1 + ct.1 > u64::MAX {
                        Step::Abort
                    } else {
                        Step::Done(
                            (
                                SpecSvcClassInfo { num_classes, create_on_client, server_classes: Some(ct.0) },
                                (16 + 1 + ct.1) as u64,
                            ),
                            b3,
                        )
                    },
            )
        } else {
            Step::Done((SpecSvcClassInfo { num_classes, create_on_client, server_classes: None }, 17u64), b2)
        }))
}

impl SSvcClassInfo {
    #[verifier::loop_isolation(false)]
    pub fn bitread(reader: &mut BitStream) -> (res: Result<(SSvcClassInfo, u64), ParseFail>)
        ensures
            step_matches(res, old(reader)@, final(reader)@, sp_classinfo(old(reader)@)),
    {
        let mut table_bits: u64 = 0;
        let num_classes = reader.read_u16(16)?;
        let create_on_client = reader.read_bit()?;
        let ghost b2 = reader@;
        let server_classes = if !create_on_client {
            let mut vec: Vec<ServerClass> = Vec::with_capacity(num_classes as usize);
            let mut i: u16 = 0;
            assert(vec.deep_view() =~= Seq::<SpecServerClass>::empty());
            while i < num_classes
                invariant
                    i <= num_classes,
                    sp_server_classes(reader@, (num_classes - i) as nat, vec.deep_view(), table_bits as nat)
                        == sp_server_classes(b2, num_classes as nat, seq![], 0),
                    reader@.len() <= old(reader)@.len(),
                decreases num_classes - i,
            {
                let ghost before = reader@;
                let id = reader.read_u16(16)?;
                let name = reader.read_nts()?;
                let data_table = reader.read_nts()?;
                let add: u128 = 16 + (string_len(&name) as u128 + 1) * 8 + (string_len(&data_table) as u128 + 1) * 8;
                if table_bits as u128 + add > u64::MAX as u128 {
                    return Err(ParseFail::Abort);
                }
                table_bits = (table_bits as u128 + add) as u64;
                let ghost old_vec = vec.deep_view();
                let class = ServerClass { id, name, data_table };
                assert(sp_server_class(before) == Step::Done((class.deep_view(), add as nat), reader@));
                vec.push(class);
                assert(vec.deep_view() =~= old_vec.push(class.deep_view()));
                i = i + 1;
            }
            Some(vec)
        } else {
            None
        };
        if table_bits > u64::MAX - 17 {
            return Err(ParseFail::Abort);
        }

        Ok((SSvcClassInfo { num_classes, create_on_client, server_classes }, 16 + 1 + table_bits))
    }
}

} // verus!
