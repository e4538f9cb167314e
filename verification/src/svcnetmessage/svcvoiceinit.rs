use vstd::prelude::*;
use arrayvec::ArrayString;
use crate::error::ParseFail;
use crate::bits::{Bits, BitStream, Step, sp_skip, sp_u8, step_matches};
use crate::text::{astr256_chars, astr256_len, sp_nts_cap, utf8_len};

verus! {

/// The voice codec of the server and its quality.
#[derive(Debug, Clone, PartialEq)]
pub struct SSvcVoiceInit {
    pub codec: ArrayString<256>,
    pub quality: u8,
}

pub struct SpecSvcVoiceInit {
    pub codec: Seq<char>,
    pub quality: u8,
}

impl DeepView for SSvcVoiceInit {
    type V = SpecSvcVoiceInit;

    open spec fn deep_view(&self) -> SpecSvcVoiceInit {
        SpecSvcVoiceInit { codec: astr256_chars(self.codec), quality: self.quality }
    }
}

/// The codec name (at most 256 bytes) and the quality; a quality of 255 is
/// followed by 32 more bits, which are passed over.
pub open spec fn sp_voiceinit(b: Bits) -> Step<(SpecSvcVoiceInit, u64)> {
    sp_nts_cap(b, 256).and_then(|codec: Seq<char>, b1: Bits|
    sp_u8(b1, 8).and_then(|quality: u8, b2: Bits|
        if quality == 255 {
            sp_skip(b2, 32).and_then(|u: (), b3: Bits|
                Step::Done(
                    (SpecSvcVoiceInit { codec, quality }, ((utf8_len(codec) + 1) * 8 + 8 + 32) as u64),
                    b3,
                ))
        } else {
            Step::Done((SpecSvcVoiceInit { codec, quality }, ((utf8_len(codec) + 1) * 8 + 8) as u64), b2)
        }))
}

impl SSvcVoiceInit {
    pub fn bitread(reader: &mut BitStream) -> (res: Result<(SSvcVoiceInit, u64), ParseFail>)
        ensures
            step_matches(res, old(reader)@, final(reader)@, sp_voiceinit(old(reader)@)),
    {
        let codec = reader.read_nts_arraystring256()?;
        let quality = reader.read_u8(8)?;

        let mut skipped: u64 = 0;
        if quality == 255 {
            skipped = 32;
            reader.skip(32)?;
        }

        let len = astr256_len(&codec) as u64;
        Ok((SSvcVoiceInit { codec, quality }, (len + 1) * 8 + 8 + skipped))
    }
}

} // verus!
