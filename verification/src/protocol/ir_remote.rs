//! IR remote command values used for menu navigation.
use vstd::prelude::*;

verus! {

pub const STEP_UP: u8 = 0x1E;
pub const STEP_DOWN: u8 = 0x1F;
pub const ARROW_RIGHT: u8 = 0x08;
pub const ARROW_LEFT: u8 = 0x09;

} // verus!
