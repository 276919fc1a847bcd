//! The button bits of a command.

use vstd::prelude::*;

verus! {

pub const IN_ATTACK: u16 = 0x0001;

pub const IN_JUMP: u16 = 0x0002;

pub const IN_DUCK: u16 = 0x0004;

pub const IN_FORWARD: u16 = 0x0008;

pub const IN_BACK: u16 = 0x0010;

pub const IN_USE: u16 = 0x0020;

pub const IN_MOVELEFT: u16 = 0x0200;

pub const IN_MOVERIGHT: u16 = 0x0400;

pub const IN_ATTACK2: u16 = 0x0800;

pub const IN_RELOAD: u16 = 0x2000;

/// Whether a button mask holds any bit of `button`.
pub open spec fn spec_pressed(buttons: u16, button: u16) -> bool {
    buttons & button != 0
}

/// Whether a button mask holds any bit of `button`.
#[verifier::when_used_as_spec(spec_pressed)]
pub fn pressed(buttons: u16, button: u16) -> (held: bool)
    ensures
        held == spec_pressed(buttons, button),
{
    buttons & button != 0
}

} // verus!
