use vstd::prelude::*;
use arrayvec::ArrayString;
use crate::error::ParseFail;
use crate::bits::{Bits, BitStream, Step, sp_bit, sp_i32, step_matches};
use crate::text::{astr260_chars, astr260_len, sp_nts_cap, utf8_len};

verus! {

/// A file transfer request or denial.
#[derive(Debug, Clone, PartialEq)]
pub struct SNetFile {
    pub transfer_id: i32,
    pub file_name: ArrayString<260>,
    pub requested: bool,
}

pub struct SpecNetFile {
    pub transfer_id: i32,
    pub file_name: Seq<char>,
    pub requested: bool,
}

impl DeepView for SNetFile {
    type V = SpecNetFile;

    open spec fn deep_view(&self) -> SpecNetFile {
        SpecNetFile {
            transfer_id: self.transfer_id,
            file_name: astr260_chars(self.file_name),
            requested: self.requested,
        }
    }
}

/// The transfer id, the file name (at most 260 bytes) and the requested bit;
/// the size counts the name's UTF-8 bytes and its terminator.
pub open spec fn sp_netfile(b: Bits) -> Step<(SpecNetFile, u64)> {
    sp_i32(b, 32).and_then(|transfer_id: i32, b1: Bits|
    sp_nts_cap(b1, 260).and_then(|file_name: Seq<char>, b2: Bits|
    sp_bit(b2).and_then(|requested: bool, b3: Bits|
        Step::Done(
            (
                SpecNetFile { transfer_id, file_name, requested },
                (32 + (utf8_len(file_name) + 1) * 8 + 1) as u64,
            ),
            b3,
        ))))
}

impl SNetFile {
    pub fn bitread(reader: &mut BitStream) -> (res: Result<(SNetFile, u64), ParseFail>)
        ensures
            step_matches(res, old(reader)@, final(reader)@, sp_netfile(old(reader)@)),
    {
        let transfer_id = reader.read_i32(32)?;
        let file_name = reader.read_nts_arraystring260()?;
        let requested = reader.read_bit()?;
        let len = astr260_len(&file_name) as u64;
        Ok((SNetFile { transfer_id, file_name, requested }, 32 + (len + 1) * 8 + 1))
    }
}

} // verus!
