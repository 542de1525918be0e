//! The control bytes that commands start with.

use vstd::prelude::*;

verus! {

/// Escape: the first byte of most commands.
pub const ESC: u8 = 0x1B;

/// Group separator: the first byte of the others.
pub const GS: u8 = 0x1D;

/// Line feed: prints the line and moves to the next.
pub const LF: u8 = 0x0A;

/// A switch as the device takes it: one for on, zero for off.
pub open spec fn flag(on: bool) -> u8 {
    if on {
        1
    } else {
        0
    }
}

/// A switch as the device takes it: one for on, zero for off.
pub fn flag_byte(on: bool) -> (b: u8)
    ensures
        b == flag(on),
{
    if on {
        1
    } else {
        0
    }
}

} // verus!
