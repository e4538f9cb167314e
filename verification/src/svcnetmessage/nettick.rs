use vstd::prelude::*;
use crate::error::ParseFail;
use crate::bits::{Bits, BitStream, Step, sp_i16, sp_i32, step_matches};

verus! {

/// The server tick and its frame time statistics.  The frame times are kept
/// as the raw counts of the stream; a count `n` stands for `n / 10e5` seconds.
#[derive(Debug, Clone, Copy, PartialEq, Eq, Structural)]
pub struct SNetTick {
    pub tick: i32,
    pub host_frametime_raw: i16,
    pub host_frametime_stddev_raw: i16,
}

impl DeepView for SNetTick {
    type V = SNetTick;

    open spec fn deep_view(&self) -> SNetTick {
        *self
    }
}

/// A 32-bit tick and two 16-bit frame time counts; 64 bits in all.
pub open spec fn sp_nettick(b: Bits) -> Step<(SNetTick, u64)> {
    sp_i32(b, 32).and_then(|tick: i32, b1: Bits|
    sp_i16(b1, 16).and_then(|host_frametime_raw: i16, b2: Bits|
    sp_i16(b2, 16).and_then(|host_frametime_stddev_raw: i16, b3: Bits|
        Step::Done((SNetTick { tick, host_frametime_raw, host_frametime_stddev_raw }, 64u64), b3))))
}

impl SNetTick {
    pub fn bitread(reader: &mut BitStream) -> (res: Result<(SNetTick, u64), ParseFail>)
        ensures
            step_matches(res, old(reader)@, final(reader)@, sp_nettick(old(reader)@)),
    {
        let tick = reader.read_i32(32)?;
        let host_frametime_raw = reader.read_i16(16)?;
        let host_frametime_stddev_raw = reader.read_i16(16)?;
        Ok((SNetTick { tick, host_frametime_raw, host_frametime_stddev_raw }, 32 + 16 + 16))
    }
}

} // verus!
