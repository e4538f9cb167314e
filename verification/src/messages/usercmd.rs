use vstd::prelude::*;
use crate::error::ParseFail;
use crate::bits::{Bits, BitStream, Step, sp_align, sp_i32, sp_opt_i32, sp_opt_u32, sp_u32, sp_u8, step_matches, step_matches_with};

verus! {

/// A user command frame.  Angles and moves are kept as the bits of their
/// `f32` values.
#[derive(Debug, Clone, Copy, PartialEq, Eq)]
pub struct SUserCmd {
    pub cmd: i32,
    pub command_number: Option<i32>,
    pub tick_count: Option<i32>,
    pub view_angles: [Option<u32>; 3],
    pub forward_move: Option<u32>,
    pub side_move: Option<u32>,
    pub up_move: Option<u32>,
    pub buttons: Option<i32>,
    pub impulse: Option<i8>,
    pub weapon_select: Option<u16>,
    pub weapon_subtype: Option<u8>,
    pub mouse_dx: Option<i16>,
    pub mouse_dy: Option<i16>,
}

pub struct SpecUserCmd {
    pub cmd: i32,
    pub command_number: Option<i32>,
    pub tick_count: Option<i32>,
    pub view_angles: Seq<Option<u32>>,
    pub forward_move: Option<u32>,
    pub side_move: Option<u32>,
    pub up_move: Option<u32>,
    pub buttons: Option<i32>,
    pub impulse: Option<i8>,
    pub weapon_select: Option<u16>,
    pub weapon_subtype: Option<u8>,
    pub mouse_dx: Option<i16>,
    pub mouse_dy: Option<i16>,
}

impl DeepView for SUserCmd {
    type V = SpecUserCmd;

    open spec fn deep_view(&self) -> SpecUserCmd {
        SpecUserCmd {
            cmd: self.cmd,
            command_number: self.command_number,
            tick_count: self.tick_count,
            view_angles: self.view_angles@,
            forward_move: self.forward_move,
            side_move: self.side_move,
            up_move: self.up_move,
            buttons: self.buttons,
            impulse: self.impulse,
            weapon_select: self.weapon_select,
            weapon_subtype: self.weapon_subtype,
            mouse_dx: self.mouse_dx,
            mouse_dy: self.mouse_dy,
        }
    }
}

pub open spec fn opt_u32_as_i32(o: Option<u32>) -> Option<i32> {
    match o {
        Some(v) => Some(v as i32),
        None => None,
    }
}

pub open spec fn opt_u32_as_i8(o: Option<u32>) -> Option<i8> {
    match o {
        Some(v) => Some((v as u8) as i8),
        None => None,
    }
}

pub open spec fn opt_u32_as_u16(o: Option<u32>) -> Option<u16> {
    match o {
        Some(v) => Some(v as u16),
        None => None,
    }
}

pub open spec fn opt_i32_as_i16(o: Option<i32>) -> Option<i16> {
    match o {
        Some(v) => Some(v as i16),
        None => None,
    }
}

/// The weapon subtype, six bits present exactly when a weapon was selected.
pub open spec fn sp_weapon_subtype(b: Bits, weapon_select: Option<u16>) -> Step<Option<u8>> {
    if weapon_select is Some {
        sp_u8(b, 6).map(|v: u8| Some(v))
    } else {
        Step::Done(None, b)
    }
}

/// The command, a 32-bit padding count that is read and not used, the
/// command number and the tick count.
pub open spec fn sp_usercmd_head(b: Bits) -> Step<(i32, Option<i32>, Option<i32>)> {
    sp_i32(b, 32).and_then(|cmd: i32, b1: Bits|
    sp_u32(b1, 32).and_then(|padding: u32, b2: Bits|
    sp_opt_i32(b2, 32).and_then(|command_number: Option<i32>, b3: Bits|
    sp_opt_i32(b3, 32).and_then(|tick_count: Option<i32>, b4: Bits|
        Step::Done((cmd, command_number, tick_count), b4)))))
}

/// The three view angles and the three moves, each an optional 32-bit value.
pub open spec fn sp_usercmd_motion(b: Bits) -> Step<(Seq<Option<u32>>, Option<u32>, Option<u32>, Option<u32>)> {
    sp_opt_u32(b, 32).and_then(|view_angles_x: Option<u32>, b1: Bits|
    sp_opt_u32(b1, 32).and_then(|view_angles_y: Option<u32>, b2: Bits|
    sp_opt_u32(b2, 32).and_then(|view_angles_z: Option<u32>, b3: Bits|
    sp_opt_u32(b3, 32).and_then(|forward_move: Option<u32>, b4: Bits|
    sp_opt_u32(b4, 32).and_then(|side_move: Option<u32>, b5: Bits|
    sp_opt_u32(b5, 32).and_then(|up_move: Option<u32>, b6: Bits|
        Step::Done((seq![view_angles_x, view_angles_y, view_angles_z], forward_move, side_move, up_move), b6)))))))
}

/// The buttons, the impulse, the weapon selection and subtype and the mouse
/// deltas.
pub open spec fn sp_usercmd_input(b: Bits) -> Step<(Option<i32>, Option<i8>, Option<u16>, Option<u8>, Option<i16>, Option<i16>)> {
    sp_opt_u32(b, 32).and_then(|buttons: Option<u32>, b1: Bits|
    sp_opt_u32(b1, 8).and_then(|impulse: Option<u32>, b2: Bits|
    sp_opt_u32(b2, 11).and_then(|weapon_select: Option<u32>, b3: Bits|
    sp_weapon_subtype(b3, opt_u32_as_u16(weapon_select)).and_then(|weapon_subtype: Option<u8>, b4: Bits|
    sp_opt_i32(b4, 16).and_then(|mouse_dx: Option<i32>, b5: Bits|
    sp_opt_i32(b5, 16).and_then(|mouse_dy: Option<i32>, b6: Bits|
        Step::Done(
            (
                opt_u32_as_i32(buttons),
                opt_u32_as_i8(impulse),
                opt_u32_as_u16(weapon_select),
                weapon_subtype,
                opt_i32_as_i16(mouse_dx),
                opt_i32_as_i16(mouse_dy),
            ),
            b6,
        )))))))
}

/// The head, the motion and the input fields in order; the frame ends at the
/// next byte boundary.
pub open spec fn sp_usercmd(b: Bits) -> Step<SpecUserCmd> {
    sp_usercmd_head(b).and_then(|head: (i32, Option<i32>, Option<i32>), b1: Bits|
    sp_usercmd_motion(b1).and_then(|motion: (Seq<Option<u32>>, Option<u32>, Option<u32>, Option<u32>), b2: Bits|
    sp_usercmd_input(b2).and_then(
        |input: (Option<i32>, Option<i8>, Option<u16>, Option<u8>, Option<i16>, Option<i16>), b3: Bits|
            Step::Done(
                SpecUserCmd {
                    cmd: head.0,
                    command_number: head.1,
                    tick_count: head.2,
                    view_angles: motion.0,
                    forward_move: motion.1,
                    side_move: motion.2,
                    up_move: motion.3,
                    buttons: input.0,
                    impulse: input.1,
                    weapon_select: input.2,
                    weapon_subtype: input.3,
                    mouse_dx: input.4,
                    mouse_dy: input.5,
                },
                sp_align(b3),
            ))))
}

fn read_head(br: &mut BitStream) -> (res: Result<(i32, Option<i32>, Option<i32>), ParseFail>)
    ensures
        step_matches(res, old(br)@, final(br)@, sp_usercmd_head(old(br)@)),
{
    let cmd = br.read_i32(32)?;
    let _padding = br.read_u32(32)?;
    let command_number = br.read_option_i32(32)?;
    let tick_count = br.read_option_i32(32)?;
    Ok((cmd, command_number, tick_count))
}

fn read_motion(br: &mut BitStream) -> (res: Result<([Option<u32>; 3], Option<u32>, Option<u32>, Option<u32>), ParseFail>)
    ensures
        step_matches_with(res, old(br)@, final(br)@,
            sp_usercmd_motion(old(br)@),
            |m: ([Option<u32>; 3], Option<u32>, Option<u32>, Option<u32>)| (m.0@, m.1, m.2, m.3),
        ),
{
    let view_angles_x = br.read_option_u32(32)?;
    let view_angles_y = br.read_option_u32(32)?;
    let view_angles_z = br.read_option_u32(32)?;
    let view_angles = [view_angles_x, view_angles_y, view_angles_z];
    assert(view_angles@ =~= seq![view_angles_x, view_angles_y, view_angles_z]);
    let forward_move = br.read_option_u32(32)?;
    let side_move = br.read_option_u32(32)?;
    let up_move = br.read_option_u32(32)?;
    Ok((view_angles, forward_move, side_move, up_move))
}

fn read_input(br: &mut BitStream) -> (res: Result<(Option<i32>, Option<i8>, Option<u16>, Option<u8>, Option<i16>, Option<i16>), ParseFail>)
    ensures
        step_matches(res, old(br)@, final(br)@, sp_usercmd_input(old(br)@)),
{
    let buttons = match br.read_option_u32(32)? {
        Some(v) => Some(v as i32),
        None => None,
    };
    let impulse = match br.read_option_u32(8)? {
        Some(v) => Some((v as u8) as i8),
        None => None,
    };
    let weapon_select = match br.read_option_u32(11)? {
        Some(v) => Some(v as u16),
        None => None,
    };
    let weapon_subtype = if weapon_select.is_some() {
        Some(br.read_u8(6)?)
    } else {
        None
    };
    let mouse_dx = match br.read_option_i32(16)? {
        Some(v) => Some(v as i16),
        None => None,
    };
    let mouse_dy = match br.read_option_i32(16)? {
        Some(v) => Some(v as i16),
        None => None,
    };
    Ok((buttons, impulse, weapon_select, weapon_subtype, mouse_dx, mouse_dy))
}

impl SUserCmd {
    pub fn from_br(br: &mut BitStream) -> (res: Result<Self, ParseFail>)
        ensures
            step_matches(res, old(br)@, final(br)@, sp_usercmd(old(br)@)),
    {
        let (cmd, command_number, tick_count) = read_head(br)?;
        let (view_angles, forward_move, side_move, up_move) = read_motion(br)?;
        let (buttons, impulse, weapon_select, weapon_subtype, mouse_dx, mouse_dy) = read_input(br)?;

        br.byte_align();

        Ok(SUserCmd {
            cmd,
            command_number,
            tick_count,
            view_angles,
            forward_move,
            side_move,
            up_move,
            buttons,
            impulse,
            weapon_select,
            weapon_subtype,
            mouse_dx,
            mouse_dy,
        })
    }
}

} // verus!
