//! The command table of the bridge: which command, variable and default
//! value each operation sends.

use vstd::prelude::*;

use crate::protocol::{self, var, CMD_READ, CMD_WRITE};
use crate::protocol::{command_payload, decode_reply, encode_frame, law_decode_encoded_frame};

verus! {

#[derive(Clone, Copy, Debug, PartialEq, Eq, Structural)]
pub struct CommandSpec {
    pub cmd: u8,
    pub variable: u8,
    pub default_value: Option<u8>,
}

/// The value a command sends: the one given, else its default.
pub open spec fn effective_value(value: Option<u8>, default_value: Option<u8>) -> Option<u8> {
    match value {
        Some(v) => Some(v),
        None => default_value,
    }
}

/// The wire bytes of a command sent with the given value.
pub open spec fn command_frame(spec: CommandSpec, value: Option<u8>) -> Seq<u8> {
    encode_frame(command_payload(spec.cmd, spec.variable, effective_value(value, spec.default_value)))
}

/// The frame of any command, sent with any value, reads back as a reply whose
/// variable is the command byte and whose values are the variable and the
/// value sent.
pub proof fn law_command_frame_decodes(spec: CommandSpec, value: Option<u8>)
    ensures
        decode_reply(command_frame(spec, value)) == Some(
            (
                spec.cmd,
                command_payload(spec.cmd, spec.variable, effective_value(value, spec.default_value)).drop_first(),
            ),
        ),
{
    let payload = command_payload(spec.cmd, spec.variable, effective_value(value, spec.default_value));
    law_decode_encoded_frame(payload);
}

impl CommandSpec {
    /// The frame of this command with the value given, else its default value.
    /// Writes go through `build_write`, reads of 0x00 through `build_read`;
    /// whichever way, the frame is `<STX> <cmd> <variable> [<value>] <DLE> <ETX>`.
    pub fn frame(self, value: Option<u8>) -> (f: Vec<u8>)
        ensures
            f@ == command_frame(self, value),
    {
        let value = match value {
            Some(v) => Some(v),
            None => self.default_value,
        };
        if self.cmd == CMD_WRITE {
            protocol::build_write(self.variable, value)
        } else if self.cmd == CMD_READ {
            match value {
                Some(0x00) => protocol::build_read(self.variable),
                _ => protocol::build_frame(self.cmd, self.variable, value),
            }
        } else {
            protocol::build_frame(self.cmd, self.variable, value)
        }
    }
}

/// Turns verbose mode on, so that commands reply with the current state.
#[verifier::allow_in_spec]
pub fn verbose_on() -> CommandSpec
    returns
        (CommandSpec { cmd: CMD_WRITE, variable: var::VERBOSE_DIRECT, default_value: Some(0x01) }),
{
    CommandSpec { cmd: CMD_WRITE, variable: var::VERBOSE_DIRECT, default_value: Some(0x01) }
}

/// Turns verbose mode off. It uses the non-direct toggle: the direct form with 0x00 is a query while verbose is on.
#[verifier::allow_in_spec]
pub fn verbose_off() -> CommandSpec
    returns
        (CommandSpec { cmd: CMD_WRITE, variable: var::VERBOSE, default_value: Some(0x00) }),
{
    CommandSpec { cmd: CMD_WRITE, variable: var::VERBOSE, default_value: Some(0x00) }
}

/// Queries the power state (direct 0x00 is a query while verbose is on).
#[verifier::allow_in_spec]
pub fn power_get() -> CommandSpec
    returns
        (CommandSpec { cmd: CMD_WRITE, variable: var::STANDBY_DIRECT, default_value: Some(0x00) }),
{
    CommandSpec { cmd: CMD_WRITE, variable: var::STANDBY_DIRECT, default_value: Some(0x00) }
}

/// Leaves standby.
#[verifier::allow_in_spec]
pub fn power_on() -> CommandSpec
    returns
        (CommandSpec { cmd: CMD_WRITE, variable: var::STANDBY_DIRECT, default_value: Some(0x01) }),
{
    CommandSpec { cmd: CMD_WRITE, variable: var::STANDBY_DIRECT, default_value: Some(0x01) }
}

/// Enters standby.
#[verifier::allow_in_spec]
pub fn power_off() -> CommandSpec
    returns
        (CommandSpec { cmd: CMD_WRITE, variable: var::STANDBY_DIRECT, default_value: Some(0x00) }),
{
    CommandSpec { cmd: CMD_WRITE, variable: var::STANDBY_DIRECT, default_value: Some(0x00) }
}

/// Toggles standby (non-direct).
#[verifier::allow_in_spec]
pub fn power_toggle() -> CommandSpec
    returns
        (CommandSpec { cmd: CMD_WRITE, variable: var::STANDBY, default_value: Some(0x00) }),
{
    CommandSpec { cmd: CMD_WRITE, variable: var::STANDBY, default_value: Some(0x00) }
}

/// Queries the volume.
#[verifier::allow_in_spec]
pub fn volume_get() -> CommandSpec
    returns
        (CommandSpec { cmd: CMD_WRITE, variable: var::VOLUME_DIRECT, default_value: Some(0x00) }),
{
    CommandSpec { cmd: CMD_WRITE, variable: var::VOLUME_DIRECT, default_value: Some(0x00) }
}

/// Sets the volume to the value given.
#[verifier::allow_in_spec]
pub fn volume_set() -> CommandSpec
    returns
        (CommandSpec { cmd: CMD_WRITE, variable: var::VOLUME_DIRECT, default_value: None }),
{
    CommandSpec { cmd: CMD_WRITE, variable: var::VOLUME_DIRECT, default_value: None }
}

/// Steps the volume by the relative value given.
#[verifier::allow_in_spec]
pub fn volume_step() -> CommandSpec
    returns
        (CommandSpec { cmd: CMD_WRITE, variable: var::VOLUME, default_value: None }),
{
    CommandSpec { cmd: CMD_WRITE, variable: var::VOLUME, default_value: None }
}

/// Queries the input.
#[verifier::allow_in_spec]
pub fn input_get() -> CommandSpec
    returns
        (CommandSpec { cmd: CMD_WRITE, variable: var::INPUT_DIRECT, default_value: Some(0x00) }),
{
    CommandSpec { cmd: CMD_WRITE, variable: var::INPUT_DIRECT, default_value: Some(0x00) }
}

/// Selects the input given.
#[verifier::allow_in_spec]
pub fn input_set() -> CommandSpec
    returns
        (CommandSpec { cmd: CMD_WRITE, variable: var::INPUT_DIRECT, default_value: None }),
{
    CommandSpec { cmd: CMD_WRITE, variable: var::INPUT_DIRECT, default_value: None }
}

/// Steps the input by the relative value given.
#[verifier::allow_in_spec]
pub fn input_step() -> CommandSpec
    returns
        (CommandSpec { cmd: CMD_WRITE, variable: var::INPUT, default_value: None }),
{
    CommandSpec { cmd: CMD_WRITE, variable: var::INPUT, default_value: None }
}

/// Queries mute.
#[verifier::allow_in_spec]
pub fn mute_get() -> CommandSpec
    returns
        (CommandSpec { cmd: CMD_WRITE, variable: var::MUTE_DIRECT, default_value: Some(0x00) }),
{
    CommandSpec { cmd: CMD_WRITE, variable: var::MUTE_DIRECT, default_value: Some(0x00) }
}

/// Sets mute to the value given.
#[verifier::allow_in_spec]
pub fn mute_set() -> CommandSpec
    returns
        (CommandSpec { cmd: CMD_WRITE, variable: var::MUTE_DIRECT, default_value: None }),
{
    CommandSpec { cmd: CMD_WRITE, variable: var::MUTE_DIRECT, default_value: None }
}

/// Toggles mute.
#[verifier::allow_in_spec]
pub fn mute_toggle() -> CommandSpec
    returns
        (CommandSpec { cmd: CMD_WRITE, variable: var::MUTE, default_value: Some(0x00) }),
{
    CommandSpec { cmd: CMD_WRITE, variable: var::MUTE, default_value: Some(0x00) }
}

/// Queries the balance.
#[verifier::allow_in_spec]
pub fn balance_get() -> CommandSpec
    returns
        (CommandSpec { cmd: CMD_WRITE, variable: var::BALANCE_DIRECT, default_value: Some(0x00) }),
{
    CommandSpec { cmd: CMD_WRITE, variable: var::BALANCE_DIRECT, default_value: Some(0x00) }
}

/// Sets the balance to the value given.
#[verifier::allow_in_spec]
pub fn balance_set() -> CommandSpec
    returns
        (CommandSpec { cmd: CMD_WRITE, variable: var::BALANCE_DIRECT, default_value: None }),
{
    CommandSpec { cmd: CMD_WRITE, variable: var::BALANCE_DIRECT, default_value: None }
}

/// Steps the balance by the relative value given.
#[verifier::allow_in_spec]
pub fn balance_step() -> CommandSpec
    returns
        (CommandSpec { cmd: CMD_WRITE, variable: var::BALANCE, default_value: None }),
{
    CommandSpec { cmd: CMD_WRITE, variable: var::BALANCE, default_value: None }
}

/// Queries the display brightness.
#[verifier::allow_in_spec]
pub fn dim_get() -> CommandSpec
    returns
        (CommandSpec { cmd: CMD_WRITE, variable: var::DIM_DIRECT, default_value: Some(0x00) }),
{
    CommandSpec { cmd: CMD_WRITE, variable: var::DIM_DIRECT, default_value: Some(0x00) }
}

/// Sets the display brightness to the value given.
#[verifier::allow_in_spec]
pub fn dim_set() -> CommandSpec
    returns
        (CommandSpec { cmd: CMD_WRITE, variable: var::DIM_DIRECT, default_value: None }),
{
    CommandSpec { cmd: CMD_WRITE, variable: var::DIM_DIRECT, default_value: None }
}

/// Steps the display brightness to the next level.
#[verifier::allow_in_spec]
pub fn dim_step() -> CommandSpec
    returns
        (CommandSpec { cmd: CMD_WRITE, variable: var::DIM, default_value: Some(0x00) }),
{
    CommandSpec { cmd: CMD_WRITE, variable: var::DIM, default_value: Some(0x00) }
}

/// Enters the menu (direct 0x01, non-zero, so it also works with verbose on).
#[verifier::allow_in_spec]
pub fn menu_enter() -> CommandSpec
    returns
        (CommandSpec { cmd: CMD_WRITE, variable: var::MENU_DIRECT, default_value: Some(0x01) }),
{
    CommandSpec { cmd: CMD_WRITE, variable: var::MENU_DIRECT, default_value: Some(0x01) }
}

/// Exits the menu (non-direct toggle: direct 0x00 is a query while verbose is on).
#[verifier::allow_in_spec]
pub fn menu_exit() -> CommandSpec
    returns
        (CommandSpec { cmd: CMD_WRITE, variable: var::MENU, default_value: Some(0x01) }),
{
    CommandSpec { cmd: CMD_WRITE, variable: var::MENU, default_value: Some(0x01) }
}

/// Sends the IR remote command given, for menu navigation.
#[verifier::allow_in_spec]
pub fn menu_nav() -> CommandSpec
    returns
        (CommandSpec { cmd: CMD_WRITE, variable: var::REMOTE, default_value: None }),
{
    CommandSpec { cmd: CMD_WRITE, variable: var::REMOTE, default_value: None }
}

/// Queries the IR input (front or back).
#[verifier::allow_in_spec]
pub fn ir_input_get() -> CommandSpec
    returns
        (CommandSpec { cmd: CMD_WRITE, variable: var::IR_INPUT_DIRECT, default_value: Some(0x00) }),
{
    CommandSpec { cmd: CMD_WRITE, variable: var::IR_INPUT_DIRECT, default_value: Some(0x00) }
}

/// Selects the IR input given.
#[verifier::allow_in_spec]
pub fn ir_input_set() -> CommandSpec
    returns
        (CommandSpec { cmd: CMD_WRITE, variable: var::IR_INPUT_DIRECT, default_value: None }),
{
    CommandSpec { cmd: CMD_WRITE, variable: var::IR_INPUT_DIRECT, default_value: None }
}

/// Reads the product line text.
#[verifier::allow_in_spec]
pub fn product_line_read() -> CommandSpec
    returns
        (CommandSpec { cmd: CMD_READ, variable: var::PRODUCT_LINE, default_value: Some(0x00) }),
{
    CommandSpec { cmd: CMD_READ, variable: var::PRODUCT_LINE, default_value: Some(0x00) }
}

/// Reads the model name text.
#[verifier::allow_in_spec]
pub fn model_name_read() -> CommandSpec
    returns
        (CommandSpec { cmd: CMD_READ, variable: var::MODEL_NAME, default_value: Some(0x00) }),
{
    CommandSpec { cmd: CMD_READ, variable: var::MODEL_NAME, default_value: Some(0x00) }
}

/// Reads the firmware version text.
#[verifier::allow_in_spec]
pub fn version_read() -> CommandSpec
    returns
        (CommandSpec { cmd: CMD_READ, variable: var::VERSION, default_value: Some(0x00) }),
{
    CommandSpec { cmd: CMD_READ, variable: var::VERSION, default_value: Some(0x00) }
}

/// Reads the name of the current input.
#[verifier::allow_in_spec]
pub fn input_name_read() -> CommandSpec
    returns
        (CommandSpec { cmd: CMD_READ, variable: var::INPUT_NAME, default_value: Some(0x00) }),
{
    CommandSpec { cmd: CMD_READ, variable: var::INPUT_NAME, default_value: Some(0x00) }
}

/// Reads the name of the input given (1-7; 0x00 would mean the current input).
#[verifier::allow_in_spec]
pub fn input_name_by_id_read() -> CommandSpec
    returns
        (CommandSpec { cmd: CMD_READ, variable: var::INPUT_NAME_DIRECT, default_value: None }),
{
    CommandSpec { cmd: CMD_READ, variable: var::INPUT_NAME_DIRECT, default_value: None }
}

/// Resets the device to factory settings; it sends no reply.
#[verifier::allow_in_spec]
pub fn factory_reset() -> CommandSpec
    returns
        (CommandSpec { cmd: CMD_WRITE, variable: var::FACTORY_RESET, default_value: Some(0x00) }),
{
    CommandSpec { cmd: CMD_WRITE, variable: var::FACTORY_RESET, default_value: Some(0x00) }
}

} // verus!
