use vstd::prelude::*;
use crate::error::ParseFail;
use crate::bits::{Bits, BitStream, Step, sp_skip, sp_u32, step_matches};

verus! {

/// A string tables frame; its contents are passed over.
#[derive(Debug, Clone, Copy, PartialEq, Eq, Structural)]
pub struct SStringTables {}

impl DeepView for SStringTables {
    type V = SStringTables;

    open spec fn deep_view(&self) -> SStringTables {
        *self
    }
}

/// A data tables frame; its contents are passed over.
#[derive(Debug, Clone, Copy, PartialEq, Eq, Structural)]
pub struct SDataTables {}

impl DeepView for SDataTables {
    type V = SDataTables;

    open spec fn deep_view(&self) -> SDataTables {
        *self
    }
}

/// A size in bytes, then that many bytes passed over; a size whose bit
/// count does not fit 32 bits has no answer.
pub open spec fn sp_sized_skip(b: Bits) -> Step<()> {
    sp_u32(b, 32).and_then(|size: u32, b1: Bits|
        if size * 8 > u32::MAX {
            Step::Abort
        } else {
            sp_skip(b1, (size * 8) as nat)
        })
}

fn skip_sized(br: &mut BitStream) -> (res: Result<(), ParseFail>)
    ensures
        step_matches(res, old(br)@, final(br)@, sp_sized_skip(old(br)@)),
{
    let size = br.read_u32(32)?;
    if size > u32::MAX / 8 {
        return Err(ParseFail::Abort);
    }
    br.skip(size * 8)
}

impl SStringTables {
    pub fn from_br(br: &mut BitStream) -> (res: Result<Self, ParseFail>)
        ensures
            step_matches(res, old(br)@, final(br)@, sp_sized_skip(old(br)@).map(|u: ()| SStringTables {})),
    {
        skip_sized(br)?;
        Ok(SStringTables {})
    }
}

impl SDataTables {
    pub fn from_br(br: &mut BitStream) -> (res: Result<Self, ParseFail>)
        ensures
            step_matches(res, old(br)@, final(br)@, sp_sized_skip(old(br)@).map(|u: ()| SDataTables {})),
    {
        skip_sized(br)?;
        Ok(SDataTables {})
    }
}

} // verus!
