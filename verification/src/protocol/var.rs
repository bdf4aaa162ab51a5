//! Variable IDs of the I22 protocol.
use vstd::prelude::*;

verus! {

pub const STANDBY: u8 = 0x01;
pub const INPUT: u8 = 0x02;
pub const VOLUME: u8 = 0x03;
pub const BALANCE: u8 = 0x04;
pub const MUTE: u8 = 0x09;
pub const DIM: u8 = 0x0A;
pub const VERBOSE: u8 = 0x0D;
pub const MENU: u8 = 0x0E;
pub const REMOTE: u8 = 0x0F;
pub const IR_INPUT: u8 = 0x12;
pub const FACTORY_RESET: u8 = 0x13;
pub const INPUT_NAME: u8 = 0x14;
pub const PRODUCT_LINE: u8 = 0x15;
pub const MODEL_NAME: u8 = 0x16;
pub const VERSION: u8 = 0x17;

// Direct-mode forms (`variable | 0x80`) of the variables that are set or
// queried directly.
pub const STANDBY_DIRECT: u8 = 0x81;
pub const INPUT_DIRECT: u8 = 0x82;
pub const VOLUME_DIRECT: u8 = 0x83;
pub const BALANCE_DIRECT: u8 = 0x84;
pub const MUTE_DIRECT: u8 = 0x89;
pub const DIM_DIRECT: u8 = 0x8A;
pub const VERBOSE_DIRECT: u8 = 0x8D;
pub const MENU_DIRECT: u8 = 0x8E;
pub const IR_INPUT_DIRECT: u8 = 0x92;
pub const INPUT_NAME_DIRECT: u8 = 0x94;

} // verus!
