//! Requests and responses of the HTTP API, and what each request asks of
//! the amplifier.

use vstd::prelude::*;

use crate::device::{BalanceCommand, DimCommand, InputCommand, IrInputCommand, MuteCommand, VolumeCommand};
use crate::error::{invalid_parameter, AppError};

verus! {

/// Requested power state.
#[derive(Clone, Copy, Debug, PartialEq, Eq, Structural)]
pub enum PowerState {
    On,
    Off,
    Toggle,
}

/// Menu navigation action.
#[derive(Clone, Copy, Debug, PartialEq, Eq, Structural)]
pub enum MenuAction {
    Enter,
    Exit,
    Up,
    Down,
    Left,
    Right,
}

/// Step direction.
#[derive(Clone, Copy, Debug, PartialEq, Eq, Structural)]
pub enum Direction {
    Up,
    Down,
}

/// IR receiver in use.
#[derive(Clone, Copy, Debug, PartialEq, Eq, Structural)]
pub enum IrSource {
    Front,
    Back,
}

pub open spec fn spec_ir_source_str(back: bool) -> Seq<char> {
    if back {
        "back"@
    } else {
        "front"@
    }
}

/// The name of the IR receiver in API messages.
pub fn ir_source_str(back: bool) -> (r: &'static str)
    ensures
        r@ == spec_ir_source_str(back),
{
    if back {
        "back"
    } else {
        "front"
    }
}

// ---- Health ----

pub struct HealthResponse {
    pub status: String,
    /// Whether the serial connection is open.
    pub serial_ok: bool,
}

impl HealthResponse {
    /// The service is up; says whether the serial connection is open.
    pub fn new(serial_ok: bool) -> (r: Self)
        ensures
            r.status@ == "ok"@,
            r.serial_ok == serial_ok,
    {
        HealthResponse { status: "ok".to_owned(), serial_ok }
    }
}

// ---- Status ----

/// All current state in one report.
pub struct StatusResponse {
    pub power: bool,
    pub volume: u8,
    pub input: u8,
    pub mute: bool,
    pub balance: i8,
    pub dim: u8,
}

// ---- Power ----

pub struct PowerResponse {
    pub power: bool,
}

pub struct PowerRequest {
    pub state: PowerState,
}

// ---- Volume ----

pub struct VolumeResponse {
    pub volume: u8,
}

pub struct VolumeRequest {
    /// Absolute level 0-79
    pub level: Option<u8>,
    /// Relative step: +1 or -1
    pub step: Option<i8>,
}

impl VolumeRequest {
    /// A level sets the volume (it takes precedence over a step); a step
    /// raises it when positive and lowers it otherwise.
    pub fn command(&self) -> (r: Result<VolumeCommand, AppError>)
        ensures
            match (self.level, self.step) {
                (Some(level), _) => r == Ok::<VolumeCommand, AppError>(VolumeCommand::SetTo(level)),
                (None, Some(step)) => r == Ok::<VolumeCommand, AppError>(VolumeCommand::Step(step > 0)),
                (None, None) => (r matches Err(e) && invalid_parameter(
                    e,
                    "Provide either 'level' (0-79) or 'step' (+1/-1)"@,
                )),
            },
    {
        match (self.level, self.step) {
            (Some(level), _) => Ok(VolumeCommand::SetTo(level)),
            (_, Some(step)) => Ok(VolumeCommand::Step(step > 0)),
            _ => Err(
                AppError::InvalidParameter(
                    "Provide either 'level' (0-79) or 'step' (+1/-1)".to_owned(),
                ),
            ),
        }
    }
}

// ---- Input ----

pub struct InputResponse {
    pub input: u8,
}

pub struct InputRequest {
    /// Direct input 1-7
    pub input: Option<u8>,
    pub step: Option<Direction>,
}

impl InputRequest {
    /// An input selects it directly (it takes precedence over a step);
    /// otherwise the step moves up or down.
    pub fn command(&self) -> (r: Result<InputCommand, AppError>)
        ensures
            match (self.input, self.step) {
                (Some(input), _) => r == Ok::<InputCommand, AppError>(InputCommand::SetTo(input)),
                (None, Some(direction)) => r == Ok::<InputCommand, AppError>(
                    InputCommand::Step(direction is Up),
                ),
                (None, None) => (r matches Err(e) && invalid_parameter(
                    e,
                    "Provide either 'input' (1-7) or 'step' (up/down)"@,
                )),
            },
    {
        match (self.input, self.step) {
            (Some(i), _) => Ok(InputCommand::SetTo(i)),
            (_, Some(Direction::Up)) => Ok(InputCommand::Step(true)),
            (_, Some(Direction::Down)) => Ok(InputCommand::Step(false)),
            _ => Err(
                AppError::InvalidParameter(
                    "Provide either 'input' (1-7) or 'step' (up/down)".to_owned(),
                ),
            ),
        }
    }
}

// ---- Mute ----

pub struct MuteResponse {
    pub mute: bool,
}

pub struct MuteRequest {
    /// true, false, or null for toggle
    pub state: Option<bool>,
}

impl MuteRequest {
    /// A state sets mute; no state toggles it.
    pub fn command(&self) -> (r: MuteCommand)
        ensures
            r == match self.state {
                Some(v) => MuteCommand::SetTo(v),
                None => MuteCommand::Toggle,
            },
    {
        match self.state {
            Some(v) => MuteCommand::SetTo(v),
            None => MuteCommand::Toggle,
        }
    }
}

// ---- Balance ----

pub struct BalanceResponse {
    pub balance: i8,
}

pub struct BalanceRequest {
    /// Direct value -9 to +9
    pub value: Option<i8>,
    /// Relative step
    pub step: Option<i8>,
}

impl BalanceRequest {
    /// A value sets the balance (it takes precedence over a step); a step
    /// moves it by that many steps.
    pub fn command(&self) -> (r: Result<BalanceCommand, AppError>)
        ensures
            match (self.value, self.step) {
                (Some(v), _) => r == Ok::<BalanceCommand, AppError>(BalanceCommand::SetTo(v)),
                (None, Some(step)) => r == Ok::<BalanceCommand, AppError>(BalanceCommand::Step(step)),
                (None, None) => (r matches Err(e) && invalid_parameter(
                    e,
                    "Provide either 'value' (-9..9) or 'step'"@,
                )),
            },
    {
        match (self.value, self.step) {
            (Some(v), _) => Ok(BalanceCommand::SetTo(v)),
            (_, Some(step)) => Ok(BalanceCommand::Step(step)),
            _ => Err(AppError::InvalidParameter("Provide either 'value' (-9..9) or 'step'".to_owned())),
        }
    }
}

// ---- Dim ----

pub struct DimResponse {
    /// 0=off, 1-3=brightness levels
    pub dim: u8,
}

pub struct DimRequest {
    /// Direct level 0-3
    pub level: Option<u8>,
    /// true = step to next level
    pub step: bool,
}

impl DimRequest {
    /// A level sets the brightness (it takes precedence over a step); a true
    /// step moves to the next level.
    pub fn command(&self) -> (r: Result<DimCommand, AppError>)
        ensures
            match self.level {
                Some(l) => r == Ok::<DimCommand, AppError>(DimCommand::SetTo(l)),
                None => if self.step {
                    r == Ok::<DimCommand, AppError>(DimCommand::Step)
                } else {
                    (r matches Err(e) && invalid_parameter(
                        e,
                        "Provide either 'level' (0-3) or 'step': true"@,
                    ))
                },
            },
    {
        match (self.level, self.step) {
            (Some(l), _) => Ok(DimCommand::SetTo(l)),
            (None, true) => Ok(DimCommand::Step),
            _ => Err(
                AppError::InvalidParameter("Provide either 'level' (0-3) or 'step': true".to_owned()),
            ),
        }
    }
}

// ---- Menu ----

pub struct MenuRequest {
    pub action: MenuAction,
}

pub struct OkResponse {
    pub ok: bool,
}

// ---- IR Input ----

pub struct IrInputResponse {
    /// "front" or "back"
    pub source: String,
}

impl IrInputResponse {
    /// Names the IR receiver in use (`true` = back).
    pub fn new(back: bool) -> (r: Self)
        ensures
            r.source@ == spec_ir_source_str(back),
    {
        IrInputResponse { source: ir_source_str(back).to_owned() }
    }
}

pub struct IrInputRequest {
    pub source: IrSource,
}

impl IrInputRequest {
    pub fn command(&self) -> (r: IrInputCommand)
        ensures
            r == IrInputCommand::SetTo(self.source is Back),
    {
        match self.source {
            IrSource::Back => IrInputCommand::SetTo(true),
            IrSource::Front => IrInputCommand::SetTo(false),
        }
    }
}

// ---- Info ----

pub struct InfoResponse {
    pub product_line: String,
    pub model: String,
    pub firmware: String,
}

// ---- Input names ----

pub struct InputNameResponse {
    pub name: String,
}

// ---- Factory reset ----

pub struct FactoryResetRequest {
    pub confirm: bool,
}

impl FactoryResetRequest {
    /// A factory reset goes ahead only when confirmed.
    pub fn check(&self) -> (r: Result<(), AppError>)
        ensures
            self.confirm ==> r == Ok::<(), AppError>(()),
            !self.confirm ==> (r matches Err(e) && invalid_parameter(
                e,
                "Set 'confirm': true to proceed with factory reset"@,
            )),
    {
        if !self.confirm {
            return Err(
                AppError::InvalidParameter(
                    "Set 'confirm': true to proceed with factory reset".to_owned(),
                ),
            );
        }
        Ok(())
    }
}

} // verus!
