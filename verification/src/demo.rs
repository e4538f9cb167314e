//! A whole demo: its header and its frames up to the stop frame.
use vstd::prelude::*;
use crate::error::{DemError, ParseFail};
use crate::bits::{Bits, BitStream, Step, bytes_to_bits, step_matches};
use crate::header::{Header, SpecHeader, demo_stamp, sp_header};
use crate::message::{Frame, FrameData, SpecFrame, SpecFrameData, sp_frame};
use crate::messages::packet::{NetSvcMessage, SpecNetSvcMessage};

verus! {

/// A decoded demo.
#[derive(Clone, Debug)]
pub struct Demo {
    pub header: Header,
    pub frames: Vec<Frame>,
}

pub struct SpecDemo {
    pub header: SpecHeader,
    pub frames: Seq<SpecFrame>,
}

impl DeepView for Demo {
    type V = SpecDemo;

    open spec fn deep_view(&self) -> SpecDemo {
        SpecDemo { header: self.header.deep_view(), frames: self.frames.deep_view() }
    }
}

/// Frames appended to `acc` up to and including the first stop frame.  Each
/// frame consumes at least its type byte, so the last branch is never taken.
pub open spec fn sp_frames(b: Bits, h: SpecHeader, acc: Seq<SpecFrame>) -> Step<Seq<SpecFrame>>
    decreases b.len(),
{
    match sp_frame(b, h) {
        Step::Done(f, b1) => if f.data is Stop {
            Step::Done(acc.push(f), b1)
        } else if b1.len() < b.len() {
            sp_frames(b1, h, acc.push(f))
        } else {
            Step::Abort
        },
        Step::Failed(e) => Step::Failed(e),
        Step::Abort => Step::Abort,
    }
}

/// A demo: its header, which must carry the demo stamp, then its frames.
pub open spec fn sp_demo(b: Bits) -> Step<SpecDemo> {
    sp_header(b).and_then(|h: SpecHeader, b1: Bits|
        if h.stamp != demo_stamp() {
            Step::Failed(DemError::InvalidSignature)
        } else {
            sp_frames(b1, h, seq![]).and_then(|frames: Seq<SpecFrame>, b2: Bits|
                Step::Done(SpecDemo { header: h, frames }, b2))
        })
}

/// The demo that `bytes` hold.
pub open spec fn demo_of_bytes(bytes: Seq<u8>) -> Step<SpecDemo> {
    sp_demo(bytes_to_bits(bytes))
}

/// The tick interval bits of the first server info among `msgs`.
pub open spec fn first_server_info_in(msgs: Seq<SpecNetSvcMessage>) -> Option<u32>
    decreases msgs.len(),
{
    if msgs.len() == 0 {
        None
    } else {
        match msgs[0] {
            SpecNetSvcMessage::SvcServerInfo(info) => Some(info.tick_interval_bits),
            _ => first_server_info_in(msgs.drop_first()),
        }
    }
}

/// The tick interval bits of the first server info carried by a sign-on
/// frame, frames and their messages taken in order.
pub open spec fn first_server_info(frames: Seq<SpecFrame>) -> Option<u32>
    decreases frames.len(),
{
    if frames.len() == 0 {
        None
    } else {
        match frames[0].data {
            SpecFrameData::SignOn(p) => match first_server_info_in(p.data) {
                Some(t) => Some(t),
                None => first_server_info(frames.drop_first()),
            },
            _ => first_server_info(frames.drop_first()),
        }
    }
}

fn read_frames(br: &mut BitStream, header: &Header) -> (res: Result<Vec<Frame>, ParseFail>)
    ensures
        step_matches(res, old(br)@, final(br)@, sp_frames(old(br)@, header.deep_view(), seq![])),
{
    let mut frames: Vec<Frame> = Vec::new();
    assert(frames.deep_view() =~= Seq::<SpecFrame>::empty());
    loop
        invariant
            sp_frames(br@, header.deep_view(), frames.deep_view()) == sp_frames(
                old(br)@,
                header.deep_view(),
                seq![],
            ),
            br@.len() <= old(br)@.len(),
        decreases br@.len(),
    {
        let frame = Frame::from_br(br, header)?;
        let stop = matches!(frame.data, FrameData::Stop);
        let ghost old_frames = frames.deep_view();
        let ghost fv = frame.deep_view();
        frames.push(frame);
        assert(frames.deep_view() =~= old_frames.push(fv));
        if stop {
            return Ok(frames);
        }
    }
}

impl Demo {
    /// Decodes a demo from its bytes: the header, which must carry the demo
    /// stamp, then frames up to the stop frame.  `ParseFail::Abort` marks the
    /// inputs on which the decoding rules have no answer.
    pub fn decode(bytes: Vec<u8>) -> (res: Result<Demo, ParseFail>)
        ensures
            step_matches_bytes(res, demo_of_bytes(bytes@)),
    {
        let mut br = BitStream::from_bytes(bytes);
        let header = Header::from_br(&mut br)?;
        if !header.is_valid() {
            return Err(ParseFail::Error(DemError::InvalidSignature));
        }
        let frames = read_frames(&mut br, &header)?;
        Ok(Demo { header, frames })
    }

    /// Decodes a demo from its bytes, on the inputs on which the decoding
    /// rules have an answer.
    pub fn from_bytes(bytes: Vec<u8>) -> (res: Result<Demo, DemError>)
        requires
            !(demo_of_bytes(bytes@) is Abort),
        ensures
            match demo_of_bytes(bytes@) {
                Step::Done(d, _) => res matches Ok(x) && x.deep_view() == d,
                Step::Failed(e) => res == Err::<Demo, DemError>(e),
                Step::Abort => false,
            },
    {
        match Demo::decode(bytes) {
            Ok(d) => Ok(d),
            Err(ParseFail::Error(e)) => Err(e),
            Err(ParseFail::Abort) => Err(DemError::Eof),
        }
    }

    /// The tick interval, as the bits of an `f32`, that the first server
    /// info of a sign-on frame announces.
    #[verifier::loop_isolation(false)]
    pub fn svc_tick_interval_bits(&self) -> (r: Option<u32>)
        ensures
            r == first_server_info(self.deep_view().frames),
    {
        let mut i: usize = 0;
        assert(self.deep_view().frames.skip(0) =~= self.deep_view().frames);
        while i < self.frames.len()
            invariant
                i <= self.frames.len(),
                first_server_info(self.deep_view().frames) == first_server_info(
                    self.deep_view().frames.skip(i as int),
                ),
            decreases self.frames.len() - i,
        {
            let ghost rest = self.deep_view().frames.skip(i as int);
            assert(rest.drop_first() =~= self.deep_view().frames.skip(i + 1));
            if let Some(packet) = self.frames[i].as_signon() {
                let mut j: usize = 0;
                assert(packet.deep_view().data.skip(0) =~= packet.deep_view().data);
                assert(rest[0] == self.frames[i as int].deep_view());
                while j < packet.data.len()
                    invariant
                        j <= packet.data.len(),
                        first_server_info_in(packet.deep_view().data) == first_server_info_in(
                            packet.deep_view().data.skip(j as int),
                        ),
                    decreases packet.data.len() - j,
                {
                    let ghost mrest = packet.deep_view().data.skip(j as int);
                    assert(mrest.drop_first() =~= packet.deep_view().data.skip(j + 1));
                    if let NetSvcMessage::SvcServerInfo(info) = &packet.data[j] {
                        return Some(info.tick_interval_bits);
                    }
                    j = j + 1;
                }
                assert(packet.deep_view().data.skip(j as int) =~= Seq::<SpecNetSvcMessage>::empty());
            }
            i = i + 1;
        }
        assert(self.deep_view().frames.skip(i as int) =~= Seq::<SpecFrame>::empty());
        None
    }
}

/// `res` is the demo, or the failure, that the step describes.
pub open spec fn step_matches_bytes(res: Result<Demo, ParseFail>, s: Step<SpecDemo>) -> bool {
    match s {
        Step::Done(d, _) => res matches Ok(x) && x.deep_view() == d,
        Step::Failed(e) => res == Err::<Demo, ParseFail>(ParseFail::Error(e)),
        Step::Abort => res == Err::<Demo, ParseFail>(ParseFail::Abort),
    }
}

} // verus!
