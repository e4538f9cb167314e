use vstd::prelude::*;
use crate::error::ParseFail;
use crate::bits::{Bits, BitStream, Step, sp_skip, sp_u32, step_matches};
use crate::text::{sp_nts, string_len, utf8_len};

verus! {

/// A console command frame: its declared size in bytes, the zero-terminated
/// command, then the rest of the declared size, which is passed over.  The
/// rest is the size less the command's UTF-8 length (taken modulo 2^32) and
/// its terminator; a size too small for that, or a rest whose bit count does
/// not fit 32 bits, has no answer.
pub open spec fn sp_concmd(b: Bits) -> Step<Seq<char>> {
    sp_u32(b, 32).and_then(|size: u32, b1: Bits|
    sp_nts(b1).and_then(|command: Seq<char>, b2: Bits|
        {
            let taken = utf8_len(command) as u32;
            if (size as int) < (taken as int) + 1 {
                Step::Abort
            } else if (size - taken - 1) * 8 > u32::MAX {
                Step::Abort
            } else {
                sp_skip(b2, ((size - taken - 1) * 8) as nat).map(|u: ()| command)
            }
        }))
}

/// Decodes a console command frame.
pub fn parse_concmd(br: &mut BitStream) -> (res: Result<String, ParseFail>)
    ensures
        step_matches(res, old(br)@, final(br)@, sp_concmd(old(br)@)),
{
    let size = br.read_u32(32)?;
    let command = br.read_nts()?;
    let taken = string_len(&command) as u32;
    if size < taken {
        return Err(ParseFail::Abort);
    }
    let rest = size - taken;
    if rest < 1 {
        return Err(ParseFail::Abort);
    }
    let rest = rest - 1;
    if rest > u32::MAX / 8 {
        return Err(ParseFail::Abort);
    }
    br.skip(rest * 8)?;
    Ok(command)
}

} // verus!
