//! What each operation puts on the wire, stated in the protocol's own terms:
//! the command byte, the variable and the value that the amplifier reads back
//! out of the frame. These laws hold whatever way the frames are built.

use vstd::prelude::*;

use crate::api::{MenuAction, PowerState};
use crate::commands::{command_frame, effective_value, law_command_frame_decodes, CommandSpec};
use crate::device::{
    as_flag, as_nonzero, as_signed, read_event, reply_value, BalanceCommand, CacheEvent, DimCommand,
    InputCommand, IrInputCommand, MuteCommand, TextCommand, VolumeCommand,
};
use crate::api::spec_ir_source_str;
use crate::error::{message_is, spec_should_disconnect, spec_status_code, AppError};
use crate::protocol::{
    command_payload, decode_reply, first_value, ir_remote, var, Reply, CMD_READ, CMD_WRITE, STX,
};

verus! {

/// `frame` tells the amplifier: command `cmd`, variable `variable`, value `value`.
pub open spec fn sends(frame: Seq<u8>, cmd: u8, variable: u8, value: u8) -> bool {
    decode_reply(frame) == Some((cmd, seq![variable, value]))
}

proof fn lemma_sends(spec: CommandSpec, value: Option<u8>, sent: u8)
    requires
        effective_value(value, spec.default_value) == Some(sent),
    ensures
        sends(command_frame(spec, value), spec.cmd, spec.variable, sent),
{
    law_command_frame_decodes(spec, value);
    assert(command_payload(spec.cmd, spec.variable, effective_value(value, spec.default_value)).drop_first()
        =~= seq![spec.variable, sent]);
}

proof fn lemma_different(a: Seq<u8>, b: Seq<u8>, cmd: u8, variable: u8, x: u8, y: u8)
    requires
        sends(a, cmd, variable, x),
        sends(b, cmd, variable, y),
        x != y,
    ensures
        a != b,
{
    if a == b {
        assert(seq![variable, x][1] == seq![variable, y][1]);
    }
}

/// Volume: a read queries the direct volume variable (0x83) with 0x00; a set
/// writes the level to it; a step writes +1 (0x01) up or -1 (0xFF) down to the
/// relative volume variable (0x03). Stepping up and down send different frames.
pub proof fn law_volume_frames(c: VolumeCommand)
    ensures
        c is Get ==> sends(c.spec_wire(), CMD_WRITE, var::VOLUME_DIRECT, 0x00),
        c matches VolumeCommand::SetTo(level) ==> sends(c.spec_wire(), CMD_WRITE, var::VOLUME_DIRECT, level),
        c matches VolumeCommand::Step(up) ==> sends(
            c.spec_wire(),
            CMD_WRITE,
            var::VOLUME,
            if up { 0x01u8 } else { 0xFFu8 },
        ),
        VolumeCommand::Step(true).spec_wire() != VolumeCommand::Step(false).spec_wire(),
{
    match c {
        VolumeCommand::Get => lemma_sends(crate::commands::volume_get(), None, 0x00),
        VolumeCommand::SetTo(level) => lemma_sends(crate::commands::volume_set(), Some(level), level),
        VolumeCommand::Step(up) => lemma_sends(
            crate::commands::volume_step(),
            Some(if up { 0x01u8 } else { 0xFFu8 }),
            if up { 0x01u8 } else { 0xFFu8 },
        ),
    }
    lemma_sends(crate::commands::volume_step(), Some(0x01u8), 0x01u8);
    lemma_sends(crate::commands::volume_step(), Some(0xFFu8), 0xFFu8);
    lemma_different(
        VolumeCommand::Step(true).spec_wire(),
        VolumeCommand::Step(false).spec_wire(),
        CMD_WRITE,
        var::VOLUME,
        0x01,
        0xFF,
    );
}

/// Input: a read queries the direct input variable (0x82) with 0x00; a
/// selection writes the input to it; a step writes +1 (0x01) to the next or
/// -1 (0xFF) to the previous input on the relative input variable (0x02).
/// Stepping up and down send different frames.
pub proof fn law_input_frames(c: InputCommand)
    ensures
        c is Get ==> sends(c.spec_wire(), CMD_WRITE, var::INPUT_DIRECT, 0x00),
        c matches InputCommand::SetTo(input) ==> sends(c.spec_wire(), CMD_WRITE, var::INPUT_DIRECT, input),
        c matches InputCommand::Step(up) ==> sends(
            c.spec_wire(),
            CMD_WRITE,
            var::INPUT,
            if up { 0x01u8 } else { 0xFFu8 },
        ),
        InputCommand::Step(true).spec_wire() != InputCommand::Step(false).spec_wire(),
{
    match c {
        InputCommand::Get => lemma_sends(crate::commands::input_get(), None, 0x00),
        InputCommand::SetTo(input) => lemma_sends(crate::commands::input_set(), Some(input), input),
        InputCommand::Step(up) => lemma_sends(
            crate::commands::input_step(),
            Some(if up { 0x01u8 } else { 0xFFu8 }),
            if up { 0x01u8 } else { 0xFFu8 },
        ),
    }
    lemma_sends(crate::commands::input_step(), Some(0x01u8), 0x01u8);
    lemma_sends(crate::commands::input_step(), Some(0xFFu8), 0xFFu8);
    lemma_different(
        InputCommand::Step(true).spec_wire(),
        InputCommand::Step(false).spec_wire(),
        CMD_WRITE,
        var::INPUT,
        0x01,
        0xFF,
    );
}

/// Mute: a read queries the direct mute variable (0x89) with 0x00; setting it
/// writes 0x01 for muted and 0x00 for not muted; toggling writes 0x00 to the
/// plain mute variable (0x09). Muting and unmuting send different frames.
pub proof fn law_mute_frames(c: MuteCommand)
    ensures
        c is Get ==> sends(c.spec_wire(), CMD_WRITE, var::MUTE_DIRECT, 0x00),
        c matches MuteCommand::SetTo(muted) ==> sends(
            c.spec_wire(),
            CMD_WRITE,
            var::MUTE_DIRECT,
            if muted { 0x01u8 } else { 0x00u8 },
        ),
        c is Toggle ==> sends(c.spec_wire(), CMD_WRITE, var::MUTE, 0x00),
        MuteCommand::SetTo(true).spec_wire() != MuteCommand::SetTo(false).spec_wire(),
{
    match c {
        MuteCommand::Get => lemma_sends(crate::commands::mute_get(), None, 0x00),
        MuteCommand::SetTo(muted) => lemma_sends(
            crate::commands::mute_set(),
            Some(if muted { 0x01u8 } else { 0x00u8 }),
            if muted { 0x01u8 } else { 0x00u8 },
        ),
        MuteCommand::Toggle => lemma_sends(crate::commands::mute_toggle(), None, 0x00),
    }
    lemma_sends(crate::commands::mute_set(), Some(0x01u8), 0x01u8);
    lemma_sends(crate::commands::mute_set(), Some(0x00u8), 0x00u8);
    lemma_different(
        MuteCommand::SetTo(true).spec_wire(),
        MuteCommand::SetTo(false).spec_wire(),
        CMD_WRITE,
        var::MUTE_DIRECT,
        0x01,
        0x00,
    );
}

/// Balance: a read queries the direct balance variable (0x84) with 0x00;
/// setting it writes the value as a two's complement byte; a step writes the
/// number of steps, as a two's complement byte, to the relative balance
/// variable (0x04).
pub proof fn law_balance_frames(c: BalanceCommand)
    ensures
        c is Get ==> sends(c.spec_wire(), CMD_WRITE, var::BALANCE_DIRECT, 0x00),
        c matches BalanceCommand::SetTo(v) ==> sends(
            c.spec_wire(),
            CMD_WRITE,
            var::BALANCE_DIRECT,
            (if v >= 0 { v as int } else { v + 256 }) as u8,
        ),
        c matches BalanceCommand::Step(s) ==> sends(
            c.spec_wire(),
            CMD_WRITE,
            var::BALANCE,
            (if s >= 0 { s as int } else { s + 256 }) as u8,
        ),
{
    match c {
        BalanceCommand::Get => lemma_sends(crate::commands::balance_get(), None, 0x00),
        BalanceCommand::SetTo(v) => {
            assert((v as u8) == (if v >= 0 { v as int } else { v + 256 }) as u8) by (bit_vector);
            lemma_sends(crate::commands::balance_set(), Some(v as u8), v as u8);
        },
        BalanceCommand::Step(s) => {
            assert((s as u8) == (if s >= 0 { s as int } else { s + 256 }) as u8) by (bit_vector);
            lemma_sends(crate::commands::balance_step(), Some(s as u8), s as u8);
        },
    }
}

/// Display brightness: a read queries the direct dim variable (0x8A) with
/// 0x00; setting it writes the level; a step writes 0x00 to the plain dim
/// variable (0x0A).
pub proof fn law_dim_frames(c: DimCommand)
    ensures
        c is Get ==> sends(c.spec_wire(), CMD_WRITE, var::DIM_DIRECT, 0x00),
        c matches DimCommand::SetTo(level) ==> sends(c.spec_wire(), CMD_WRITE, var::DIM_DIRECT, level),
        c is Step ==> sends(c.spec_wire(), CMD_WRITE, var::DIM, 0x00),
{
    match c {
        DimCommand::Get => lemma_sends(crate::commands::dim_get(), None, 0x00),
        DimCommand::SetTo(level) => lemma_sends(crate::commands::dim_set(), Some(level), level),
        DimCommand::Step => lemma_sends(crate::commands::dim_step(), None, 0x00),
    }
}

/// IR receiver: a read queries the direct IR input variable (0x92) with 0x00;
/// selecting writes 0x01 for the back and 0x00 for the front receiver. Front
/// and back send different frames.
pub proof fn law_ir_input_frames(c: IrInputCommand)
    ensures
        c is Get ==> sends(c.spec_wire(), CMD_WRITE, var::IR_INPUT_DIRECT, 0x00),
        c matches IrInputCommand::SetTo(back) ==> sends(
            c.spec_wire(),
            CMD_WRITE,
            var::IR_INPUT_DIRECT,
            if back { 0x01u8 } else { 0x00u8 },
        ),
        IrInputCommand::SetTo(true).spec_wire() != IrInputCommand::SetTo(false).spec_wire(),
{
    match c {
        IrInputCommand::Get => lemma_sends(crate::commands::ir_input_get(), None, 0x00),
        IrInputCommand::SetTo(back) => lemma_sends(
            crate::commands::ir_input_set(),
            Some(if back { 0x01u8 } else { 0x00u8 }),
            if back { 0x01u8 } else { 0x00u8 },
        ),
    }
    lemma_sends(crate::commands::ir_input_set(), Some(0x01u8), 0x01u8);
    lemma_sends(crate::commands::ir_input_set(), Some(0x00u8), 0x00u8);
    lemma_different(
        IrInputCommand::SetTo(true).spec_wire(),
        IrInputCommand::SetTo(false).spec_wire(),
        CMD_WRITE,
        var::IR_INPUT_DIRECT,
        0x01,
        0x00,
    );
}

/// Text reads: each is a read command (0x52) of its own variable with 0x00 —
/// product line 0x15, model name 0x16, firmware version 0x17, current input
/// name 0x14 — and the name of input `i` is a read of the direct input name
/// variable (0x94) with `i`. No two of the fixed reads send the same frame.
pub proof fn law_text_frames(c: TextCommand)
    ensures
        c is ProductLine ==> sends(c.spec_wire(), CMD_READ, var::PRODUCT_LINE, 0x00),
        c is ModelName ==> sends(c.spec_wire(), CMD_READ, var::MODEL_NAME, 0x00),
        c is Version ==> sends(c.spec_wire(), CMD_READ, var::VERSION, 0x00),
        c is CurrentInputName ==> sends(c.spec_wire(), CMD_READ, var::INPUT_NAME, 0x00),
        c matches TextCommand::InputName(i) ==> sends(c.spec_wire(), CMD_READ, var::INPUT_NAME_DIRECT, i),
        TextCommand::ProductLine.spec_wire() != TextCommand::ModelName.spec_wire(),
        TextCommand::ModelName.spec_wire() != TextCommand::Version.spec_wire(),
        TextCommand::ProductLine.spec_wire() != TextCommand::Version.spec_wire(),
        TextCommand::CurrentInputName.spec_wire() != TextCommand::ModelName.spec_wire(),
{
    match c {
        TextCommand::ProductLine => lemma_sends(crate::commands::product_line_read(), None, 0x00),
        TextCommand::ModelName => lemma_sends(crate::commands::model_name_read(), None, 0x00),
        TextCommand::Version => lemma_sends(crate::commands::version_read(), None, 0x00),
        TextCommand::CurrentInputName => lemma_sends(crate::commands::input_name_read(), None, 0x00),
        TextCommand::InputName(i) => lemma_sends(crate::commands::input_name_by_id_read(), Some(i), i),
    }
    lemma_sends(crate::commands::product_line_read(), None, 0x00);
    lemma_sends(crate::commands::model_name_read(), None, 0x00);
    lemma_sends(crate::commands::version_read(), None, 0x00);
    lemma_sends(crate::commands::input_name_read(), None, 0x00);
    let p = TextCommand::ProductLine.spec_wire();
    let m = TextCommand::ModelName.spec_wire();
    let v = TextCommand::Version.spec_wire();
    let n = TextCommand::CurrentInputName.spec_wire();
    if p == m {
        assert(seq![var::PRODUCT_LINE, 0x00u8][0] == seq![var::MODEL_NAME, 0x00u8][0]);
    }
    if m == v {
        assert(seq![var::MODEL_NAME, 0x00u8][0] == seq![var::VERSION, 0x00u8][0]);
    }
    if p == v {
        assert(seq![var::PRODUCT_LINE, 0x00u8][0] == seq![var::VERSION, 0x00u8][0]);
    }
    if n == m {
        assert(seq![var::INPUT_NAME, 0x00u8][0] == seq![var::MODEL_NAME, 0x00u8][0]);
    }
}

/// Power: on writes 0x01 and off writes 0x00 to the direct standby variable
/// (0x81), toggle writes 0x00 to the plain standby variable (0x01). On and off
/// are preceded by turning verbose off (0x00 to the plain verbose variable
/// 0x0D) and followed by turning it on again (0x01 to the direct verbose
/// variable 0x8D); toggle is sent alone.
pub proof fn law_power_frames(c: PowerState)
    ensures
        c is On ==> sends(c.spec_wire(), CMD_WRITE, var::STANDBY_DIRECT, 0x01),
        c is Off ==> sends(c.spec_wire(), CMD_WRITE, var::STANDBY_DIRECT, 0x00),
        c is Toggle ==> sends(c.spec_wire(), CMD_WRITE, var::STANDBY, 0x00),
        !(c is Toggle) ==> c.spec_frames().len() == 2 && sends(c.spec_frames()[0], CMD_WRITE, var::VERBOSE, 0x00)
            && c.spec_frames()[1] == c.spec_wire() && c.spec_frames_after().len() == 1 && sends(
            c.spec_frames_after()[0],
            CMD_WRITE,
            var::VERBOSE_DIRECT,
            0x01,
        ),
        c is Toggle ==> c.spec_frames() == seq![c.spec_wire()] && c.spec_frames_after().len() == 0,
{
    lemma_sends(crate::commands::power_on(), None, 0x01);
    lemma_sends(crate::commands::power_off(), None, 0x00);
    lemma_sends(crate::commands::power_toggle(), None, 0x00);
    lemma_sends(crate::commands::verbose_off(), None, 0x00);
    lemma_sends(crate::commands::verbose_on(), None, 0x01);
}

/// Menu: enter writes 0x01 to the direct menu variable (0x8E) and exit 0x01
/// to the plain menu variable (0x0E); the arrows write the IR remote codes
/// step up 0x1E, step down 0x1F, right 0x08 and left 0x09 to the remote
/// variable (0x0F).
pub proof fn law_menu_frames(c: MenuAction)
    ensures
        c is Enter ==> sends(c.spec_wire(), CMD_WRITE, var::MENU_DIRECT, 0x01),
        c is Exit ==> sends(c.spec_wire(), CMD_WRITE, var::MENU, 0x01),
        c is Up ==> sends(c.spec_wire(), CMD_WRITE, var::REMOTE, ir_remote::STEP_UP),
        c is Down ==> sends(c.spec_wire(), CMD_WRITE, var::REMOTE, ir_remote::STEP_DOWN),
        c is Right ==> sends(c.spec_wire(), CMD_WRITE, var::REMOTE, ir_remote::ARROW_RIGHT),
        c is Left ==> sends(c.spec_wire(), CMD_WRITE, var::REMOTE, ir_remote::ARROW_LEFT),
{
    match c {
        MenuAction::Enter => lemma_sends(crate::commands::menu_enter(), None, 0x01),
        MenuAction::Exit => lemma_sends(crate::commands::menu_exit(), None, 0x01),
        MenuAction::Up => lemma_sends(crate::commands::menu_nav(), Some(ir_remote::STEP_UP), ir_remote::STEP_UP),
        MenuAction::Down => lemma_sends(
            crate::commands::menu_nav(),
            Some(ir_remote::STEP_DOWN),
            ir_remote::STEP_DOWN,
        ),
        MenuAction::Right => lemma_sends(
            crate::commands::menu_nav(),
            Some(ir_remote::ARROW_RIGHT),
            ir_remote::ARROW_RIGHT,
        ),
        MenuAction::Left => lemma_sends(
            crate::commands::menu_nav(),
            Some(ir_remote::ARROW_LEFT),
            ir_remote::ARROW_LEFT,
        ),
    }
}

/// The parameter ranges: volume 0-79, input 1-7, balance -9 to +9, dim 0-3,
/// input names 1-7. Reads and steps are always accepted.
pub proof fn law_parameter_ranges(level: u8, input: u8, balance: i8, steps: i8, dim: u8, up: bool)
    ensures
        VolumeCommand::SetTo(level).valid() <==> level <= 79,
        VolumeCommand::Get.valid() && VolumeCommand::Step(up).valid(),
        InputCommand::SetTo(input).valid() <==> 1 <= input && input <= 7,
        InputCommand::Get.valid() && InputCommand::Step(up).valid(),
        BalanceCommand::SetTo(balance).valid() <==> -9 <= balance && balance <= 9,
        BalanceCommand::Get.valid() && BalanceCommand::Step(steps).valid(),
        DimCommand::SetTo(dim).valid() <==> dim <= 3,
        DimCommand::Get.valid() && DimCommand::Step.valid(),
        TextCommand::InputName(input).valid() <==> 1 <= input && input <= 7,
        TextCommand::ProductLine.valid() && TextCommand::ModelName.valid() && TextCommand::Version.valid()
            && TextCommand::CurrentInputName.valid(),
{
}

/// What a reply means: its first value byte is the value (no byte is an
/// invalid reply, a failed exchange keeps its error); for on/off states 0x01
/// means on and anything else off; for the IR receiver 0x00 means front and
/// anything else back; a balance byte reads as two's complement.
pub proof fn law_reply_meanings(reply: Reply, e: AppError)
    ensures
        reply.values@.len() > 0 ==> {
            let b = reply.values@[0];
            &&& first_value(reply.values@) == Some(b)
            &&& reply_value(Ok(reply)) == Ok::<u8, AppError>(b)
            &&& as_flag(reply_value(Ok(reply))) == Ok::<bool, AppError>(b == 0x01)
            &&& as_nonzero(reply_value(Ok(reply))) == Ok::<bool, AppError>(b != 0x00)
            &&& as_signed(reply_value(Ok(reply))) == Ok::<i8, AppError>(
                (if b < 128 { b as int } else { b - 256 }) as i8,
            )
        },
        reply.values@.len() == 0 ==> first_value(reply.values@) is None && reply_value(Ok(reply))
            == Err::<u8, AppError>(AppError::InvalidReply),
        reply_value(Err(e)) == Err::<u8, AppError>(e),
        as_flag(Err(e)) == Err::<bool, AppError>(e),
        as_nonzero(Err(e)) == Err::<bool, AppError>(e),
        as_signed(Err(e)) == Err::<i8, AppError>(e),
{
    if reply.values@.len() > 0 {
        let b = reply.values@[0];
        assert((b as i8) == (if b < 128 { b as int } else { b - 256 }) as i8) by (bit_vector);
    }
}

/// Setting the power on or off settles on the requested state when the device
/// does not reply in time; toggling does not. Otherwise the reply's first
/// value says the state (0x01 on).
pub proof fn law_power_results(c: PowerState, reply: Reply, e: AppError)
    ensures
        c.power_result(Err(AppError::Timeout)) == (if c is Toggle {
            Err::<bool, AppError>(AppError::Timeout)
        } else {
            Ok::<bool, AppError>(c is On)
        }),
        reply.values@.len() > 0 ==> c.power_result(Ok(reply)) == Ok::<bool, AppError>(
            reply.values@[0] == 0x01,
        ),
        !(e is Timeout) ==> c.power_result(Err(e)) == Err::<bool, AppError>(e),
{
}

/// Which operations take a timeout to mean the amplifier is off: reads and
/// sets of a value and text reads do; steps, toggles and named-input reads do
/// not. Only a timeout is such news.
pub proof fn law_timeout_means_off(up: bool, steps: i8, v: u8, i: u8, m: bool, b: i8, reply: Reply, e: AppError)
    ensures
        read_event(Err(AppError::Timeout)) == CacheEvent::ReadTimedOut,
        read_event(Ok(reply)) == CacheEvent::NoChange,
        !(e is Timeout) ==> read_event(Err(e)) == CacheEvent::NoChange,
        VolumeCommand::Get.reads_value() && VolumeCommand::SetTo(v).reads_value() && !VolumeCommand::Step(
            up,
        ).reads_value(),
        InputCommand::Get.reads_value() && InputCommand::SetTo(v).reads_value() && !InputCommand::Step(
            up,
        ).reads_value(),
        MuteCommand::Get.reads_value() && MuteCommand::SetTo(m).reads_value()
            && !MuteCommand::Toggle.reads_value(),
        BalanceCommand::Get.reads_value() && BalanceCommand::SetTo(b).reads_value()
            && !BalanceCommand::Step(steps).reads_value(),
        DimCommand::Get.reads_value() && DimCommand::SetTo(v).reads_value() && !DimCommand::Step.reads_value(),
        TextCommand::ProductLine.reads_value() && TextCommand::ModelName.reads_value()
            && TextCommand::Version.reads_value() && TextCommand::CurrentInputName.reads_value()
            && !TextCommand::InputName(i).reads_value(),
{
}

/// A named input is queried twice (the device answers with the previously
/// queried name); every other text read once.
pub proof fn law_text_exchanges(i: u8)
    ensures
        TextCommand::InputName(i).spec_exchanges() == 2,
        TextCommand::ProductLine.spec_exchanges() == 1,
        TextCommand::ModelName.spec_exchanges() == 1,
        TextCommand::Version.spec_exchanges() == 1,
        TextCommand::CurrentInputName.spec_exchanges() == 1,
{
}

/// A raw reply shorter than 4 bytes, or not starting with STX (0x02), carries
/// no reply.
pub proof fn law_reply_framing(raw: Seq<u8>)
    ensures
        raw.len() < 4 ==> decode_reply(raw) is None,
        raw.len() > 0 && raw[0] != 0x02u8 ==> decode_reply(raw) is None,
        STX == 0x02u8,
{
}

/// The HTTP answer to each error: serial and I/O errors 500, timeout 504,
/// invalid reply 502, invalid parameter 400 with its own message; all but an
/// invalid parameter call for a reconnect.
pub proof fn law_error_answers(e: AppError, m: String)
    ensures
        (e is Serial || e is Io) ==> spec_status_code(e) == 500,
        e is Timeout ==> spec_status_code(e) == 504 && message_is(e, "No reply from device (timeout)"@),
        e is InvalidReply ==> spec_status_code(e) == 502 && message_is(e, "Invalid reply from device"@),
        spec_status_code(AppError::InvalidParameter(m)) == 400,
        message_is(AppError::InvalidParameter(m), m@),
        spec_should_disconnect(e) <==> !(e is InvalidParameter),
{
}

/// The IR receivers are named "back" and "front", and the names differ.
pub proof fn law_ir_source_names()
    ensures
        spec_ir_source_str(true) == "back"@,
        spec_ir_source_str(false) == "front"@,
        spec_ir_source_str(true) != spec_ir_source_str(false),
{
    reveal_strlit("back");
    reveal_strlit("front");
    assert(spec_ir_source_str(true)[0] != spec_ir_source_str(false)[0]);
}

} // verus!
