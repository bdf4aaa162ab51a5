//! What the bridge decides around each exchange with the amplifier: the frame
//! each operation sends (with its parameter checks), and how a reply, a
//! timeout or an I/O failure turns into a result and into the connection's
//! state (whether the link is dead, and the cached power state).
//!
//! The exchanges themselves (writing the frame, reading the reply frame with a
//! timeout) are done by the caller, which hands their outcome back here.

use vstd::prelude::*;
use vstd::utf8::{decode_utf8, valid_utf8};

use crate::api::{MenuAction, PowerState};
use crate::commands::{
    balance_get, balance_set, balance_step, command_frame, dim_get, dim_set, dim_step, input_get,
    input_name_by_id_read, input_name_read, input_set, input_step, ir_input_get, ir_input_set,
    menu_enter, menu_exit, menu_nav, model_name_read, mute_get, mute_set, mute_toggle, power_off,
    power_on, power_toggle, product_line_read, verbose_off, verbose_on, version_read, volume_get, volume_set,
    volume_step,
};
use crate::error::{invalid_parameter, AppError};
use crate::protocol::{decode_reply, first_value, ir_remote, parse_reply, Reply};

verus! {

/// The outcome of one exchange: sending a frame and reading the reply frame.
pub enum Exchange {
    /// Writing the frame failed.
    WriteFailed(std::io::Error),
    /// Reading the reply failed.
    ReadFailed(std::io::Error),
    /// No whole reply frame arrived in time.
    TimedOut,
    /// The bytes of the reply frame.
    Received(Vec<u8>),
}

/// The state of a serial connection to the amplifier.
pub struct Link {
    /// The port failed; the connection has to be reopened.
    pub dead: bool,
    /// Cached power state. None = unknown (not yet determined).
    pub power_state: Option<bool>,
    /// An exchange failed (I/O error, timeout or invalid reply): the
    /// connection is to be reopened, which enables verbose mode again.
    pub reopen: bool,
    /// What each operation so far told about the power state, in order.
    pub history: Ghost<Seq<CacheEvent>>,
}

// ---- What replies mean ----

/// The first value of the reply, or the error of the exchange.
pub open spec fn reply_value(outcome: Result<Reply, AppError>) -> Result<u8, AppError> {
    match outcome {
        Ok(reply) => match first_value(reply.values@) {
            Some(v) => Ok(v),
            None => Err(AppError::InvalidReply),
        },
        Err(e) => Err(e),
    }
}

/// A value of 0x01 means on.
pub open spec fn as_flag(r: Result<u8, AppError>) -> Result<bool, AppError> {
    match r {
        Ok(v) => Ok(v == 0x01),
        Err(e) => Err(e),
    }
}

/// Any value but 0x00 means set.
pub open spec fn as_nonzero(r: Result<u8, AppError>) -> Result<bool, AppError> {
    match r {
        Ok(v) => Ok(v != 0x00),
        Err(e) => Err(e),
    }
}

/// The value read as a two's complement signed byte.
pub open spec fn as_signed(r: Result<u8, AppError>) -> Result<i8, AppError> {
    match r {
        Ok(v) => Ok(v as i8),
        Err(e) => Err(e),
    }
}

/// The text of the reply: its values decoded as UTF-8.
pub open spec fn reply_text_is(outcome: Result<Reply, AppError>, r: Result<String, AppError>) -> bool {
    match outcome {
        Ok(reply) => if valid_utf8(reply.values@) {
            r matches Ok(s) && s@ == decode_utf8(reply.values@)
        } else {
            r == Err::<String, AppError>(AppError::InvalidReply)
        },
        Err(e) => r == Err::<String, AppError>(e),
    }
}

/// What an operation tells about the amplifier's power state.
#[derive(Clone, Copy, Debug, PartialEq, Eq, Structural)]
pub enum CacheEvent {
    /// A power operation confirmed this state.
    Confirmed(bool),
    /// A read or write of a value timed out: the amplifier is likely off.
    ReadTimedOut,
    /// Nothing about the power state.
    NoChange,
}

/// The cached power state after an operation that brought `event`.
pub open spec fn cache_after(power: Option<bool>, event: CacheEvent) -> Option<bool> {
    match event {
        CacheEvent::Confirmed(state) => Some(state),
        CacheEvent::ReadTimedOut => Some(false),
        CacheEvent::NoChange => power,
    }
}

/// What a read or write of a value tells about the power state.
pub open spec fn read_event(outcome: Result<Reply, AppError>) -> CacheEvent {
    if outcome matches Err(AppError::Timeout) {
        CacheEvent::ReadTimedOut
    } else {
        CacheEvent::NoChange
    }
}

/// What the result of a power operation tells about the power state.
pub open spec fn power_event(r: Result<bool, AppError>) -> CacheEvent {
    match r {
        Ok(state) => CacheEvent::Confirmed(state),
        Err(_) => CacheEvent::NoChange,
    }
}

/// The cached power state after a run of operations, from `power`.
pub open spec fn replay(power: Option<bool>, events: Seq<CacheEvent>) -> Option<bool>
    decreases events.len(),
{
    if events.len() == 0 {
        power
    } else {
        cache_after(replay(power, events.drop_last()), events.last())
    }
}

/// The power cache holds what the last operation that told anything about
/// the power told: starting from a new link (power unknown), after any run of
/// operations, the cached state is the one the last power operation confirmed
/// unless a read or write of a value timed out after it (then off); when no
/// operation told anything, it is still unknown (and `get_power` says off).
pub proof fn law_power_cache(events: Seq<CacheEvent>)
    ensures
        (forall|i: int| 0 <= i < events.len() ==> #[trigger] events[i] == CacheEvent::NoChange)
            ==> replay(None, events) is None,
        forall|i: int|
            0 <= i < events.len() && #[trigger] events[i] != CacheEvent::NoChange && (forall|j: int|
                i < j < events.len() ==> events[j] == CacheEvent::NoChange) ==> replay(None, events)
                == cache_after(None, events[i]),
    decreases events.len(),
{
    if events.len() > 0 {
        let rest = events.drop_last();
        law_power_cache(rest);
        assert forall|i: int| 0 <= i < rest.len() implies #[trigger] rest[i] == events[i] by {}
        assert forall|i: int|
            0 <= i < events.len() && #[trigger] events[i] != CacheEvent::NoChange && (forall|j: int|
                i < j < events.len() ==> events[j] == CacheEvent::NoChange) implies replay(None, events)
                == cache_after(None, events[i]) by {
            if i < events.len() - 1 {
                assert(events[events.len() - 1] == CacheEvent::NoChange);
                assert(rest[i] == events[i]);
                assert forall|j: int| i < j < rest.len() implies rest[j] == CacheEvent::NoChange by {
                    assert(rest[j] == events[j]);
                }
            }
        }
        if forall|i: int| 0 <= i < events.len() ==> #[trigger] events[i] == CacheEvent::NoChange {
            assert(events[events.len() - 1] == CacheEvent::NoChange);
            assert forall|i: int| 0 <= i < rest.len() implies #[trigger] rest[i] == CacheEvent::NoChange by {
                assert(rest[i] == events[i]);
            }
        }
    }
}

/// Every operation keeps the cached power state equal to what its history
/// leads to.
pub proof fn law_operation_keeps_cache(before: Link, after: Link, event: CacheEvent)
    requires
        before.cache_consistent(),
        after.after_event(before, event),
    ensures
        after.cache_consistent(),
{
    assert(after.history@.drop_last() =~= before.history@);
}

/// What `get_power` reports of a link that started new: off while no
/// operation told anything about the power; otherwise on exactly when the
/// last operation that told something was a power operation that confirmed
/// "on" (a later timed-out read or write of a value means off).
pub proof fn law_get_power(link: Link)
    requires
        link.cache_consistent(),
    ensures
        (forall|i: int| 0 <= i < link.history@.len() ==> #[trigger] link.history@[i] == CacheEvent::NoChange)
            ==> link.power_state is None,
        forall|i: int|
            0 <= i < link.history@.len() && #[trigger] link.history@[i] != CacheEvent::NoChange && (
            forall|j: int| i < j < link.history@.len() ==> link.history@[j] == CacheEvent::NoChange)
                ==> (link.power_state == Some(true) <==> link.history@[i] == CacheEvent::Confirmed(true)),
{
    law_power_cache(link.history@);
}

pub open spec fn spec_step_byte(up: bool) -> u8 {
    if up {
        0x01
    } else {
        0xFF
    }
}

/// The result of handing an exchange's outcome on.
pub open spec fn exchange_result_is(ex: Exchange, r: Result<Reply, AppError>) -> bool {
    match ex {
        Exchange::WriteFailed(e) => r == Err::<Reply, AppError>(AppError::Io(e)),
        Exchange::ReadFailed(e) => r == Err::<Reply, AppError>(AppError::Io(e)),
        Exchange::TimedOut => r == Err::<Reply, AppError>(AppError::Timeout),
        Exchange::Received(bytes) => match decode_reply(bytes@) {
            Some(v) => r matches Ok(reply) && reply@ == v,
            None => r == Err::<Reply, AppError>(AppError::InvalidReply),
        },
    }
}

impl Link {
    /// `self` is `before` after an operation that told `event` about the power:
    /// the cache took the event in and the history records it.
    pub open spec fn after_event(self, before: Link, event: CacheEvent) -> bool {
        &&& self.dead == before.dead
        &&& self.reopen == before.reopen
        &&& self.power_state == cache_after(before.power_state, event)
        &&& self.history@ == before.history@.push(event)
    }

    /// The cached power state is the one its history leads to from unknown.
    pub open spec fn cache_consistent(self) -> bool {
        self.power_state == replay(None, self.history@)
    }

    pub fn new() -> (l: Link)
        ensures
            !l.dead,
            !l.reopen,
            l.power_state is None,
            l.history@ == Seq::<CacheEvent>::empty(),
            l.cache_consistent(),
    {
        Link { dead: false, power_state: None, reopen: false, history: Ghost(Seq::empty()) }
    }

    /// Whether the connection is to be reopened before it is used again.
    pub fn needs_reopen(&self) -> (r: bool)
        ensures
            r == self.reopen,
    {
        self.reopen
    }

    /// Record what an operation told about the power state.
    fn record(&mut self, Ghost(event): Ghost<CacheEvent>)
        ensures
            final(self).history@ == old(self).history@.push(event),
            final(self).dead == old(self).dead,
            final(self).reopen == old(self).reopen,
            final(self).power_state == old(self).power_state,
    {
        self.history = Ghost(self.history@.push(event));
    }

    pub fn is_dead(&self) -> (r: bool)
        ensures
            r == self.dead,
    {
        self.dead
    }

    /// Returns cached power state. Returns `false` if unknown (no power operation yet).
    pub fn get_power(&self) -> (r: bool)
        ensures
            r == (self.power_state == Some(true)),
    {
        match self.power_state {
            Some(p) => p,
            None => false,
        }
    }

    /// The result of an exchange (send a frame, read one reply frame). A failed
    /// write or read marks the link dead; the reply must parse.
    pub fn exchange_result(&mut self, ex: Exchange) -> (r: Result<Reply, AppError>)
        ensures
            exchange_result_is(ex, r),
            final(self).dead == (old(self).dead || ex is WriteFailed || ex is ReadFailed),
            final(self).reopen == (old(self).reopen || r is Err),
            final(self).power_state == old(self).power_state,
            final(self).history == old(self).history,
    {
        let r = match ex {
            Exchange::WriteFailed(e) => {
                self.dead = true;
                Err(AppError::Io(e))
            },
            Exchange::ReadFailed(e) => {
                self.dead = true;
                Err(AppError::Io(e))
            },
            Exchange::TimedOut => Err(AppError::Timeout),
            Exchange::Received(bytes) => match parse_reply(bytes.as_slice()) {
                Some(reply) => Ok(reply),
                None => Err(AppError::InvalidReply),
            },
        };
        if r.is_err() {
            self.reopen = true;
        }
        r
    }

    /// The result of sending a frame that gets no reply (factory reset).
    pub fn send_result(&mut self, written: Result<(), std::io::Error>) -> (r: Result<(), AppError>)
        ensures
            match written {
                Ok(()) => r == Ok::<(), AppError>(()) && final(self).dead == old(self).dead,
                Err(e) => r == Err::<(), AppError>(AppError::Io(e)) && final(self).dead,
            },
            final(self).reopen == (old(self).reopen || written is Err),
            final(self).power_state == old(self).power_state,
            final(self).history == old(self).history,
    {
        match written {
            Ok(()) => Ok(()),
            Err(e) => {
                self.dead = true;
                self.reopen = true;
                Err(AppError::Io(e))
            },
        }
    }

    /// Encode the step direction as the relative value the protocol expects:
    /// up = 0x01 (increase by 1), down = 0xFF (-1 as u8).
    pub fn step_byte(up: bool) -> (r: u8)
        ensures
            r == spec_step_byte(up),
    {
        if up {
            0x01
        } else {
            0xFF
        }
    }

    /// The value of a reply to a read or write of a value.
    /// Timeout indicates the amp is likely off.
    pub fn read_value(&mut self, outcome: Result<Reply, AppError>) -> (r: Result<u8, AppError>)
        ensures
            r == reply_value(outcome),
            final(self).after_event(*old(self), read_event(outcome)),
    {
        self.record(Ghost(read_event(outcome)));
        match outcome {
            Ok(reply) => reply_value_of(reply),
            Err(AppError::Timeout) => {
                self.power_state = Some(false);
                Err(AppError::Timeout)
            },
            Err(e) => Err(e),
        }
    }

    /// The text of a reply to a text read (CMD_READ).
    /// Timeout indicates the amp is likely off.
    pub fn read_text(&mut self, outcome: Result<Reply, AppError>) -> (r: Result<String, AppError>)
        ensures
            reply_text_is(outcome, r),
            final(self).after_event(*old(self), read_event(outcome)),
    {
        self.record(Ghost(read_event(outcome)));
        if let Err(AppError::Timeout) = outcome {
            self.power_state = Some(false);
        }
        reply_text(outcome)
    }

    /// The result of enabling verbose mode: a timeout is no failure (the
    /// device is in standby or not yet ready, and later requests will retry).
    pub fn enable_verbose(outcome: Result<Reply, AppError>) -> (r: Result<(), AppError>)
        ensures
            r == match outcome {
                Ok(_) => Ok::<(), AppError>(()),
                Err(AppError::Timeout) => Ok::<(), AppError>(()),
                Err(e) => Err::<(), AppError>(e),
            },
    {
        match outcome {
            Ok(_) => Ok(()),
            Err(AppError::Timeout) => Ok(()),
            Err(e) => Err(e),
        }
    }

    /// The result of switching the power on or off. The reply's value 0x01
    /// means on; a timeout likely means the device is already in the
    /// requested state. The state is cached.
    pub fn set_power(&mut self, on: bool, outcome: Result<Reply, AppError>) -> (r: Result<bool, AppError>)
        ensures
            outcome matches Err(AppError::Timeout) ==> r == Ok::<bool, AppError>(on),
            !(outcome matches Err(AppError::Timeout)) ==> r == as_flag(reply_value(outcome)),
            final(self).after_event(*old(self), power_event(r)),
    {
        let r = match outcome {
            Ok(reply) => match reply.value() {
                Some(v) => Ok(v == 0x01),
                None => Err(AppError::InvalidReply),
            },
            Err(AppError::Timeout) => Ok(on),
            Err(e) => Err(e),
        };
        if let Ok(state) = r {
            self.power_state = Some(state);
        }
        self.record(Ghost(power_event(r)));
        r
    }

    /// The result of toggling the power: the reply's value 0x01 means on. The
    /// state is cached.
    pub fn toggle_power(&mut self, outcome: Result<Reply, AppError>) -> (r: Result<bool, AppError>)
        ensures
            r == as_flag(reply_value(outcome)),
            final(self).after_event(*old(self), power_event(r)),
    {
        let r = match reply_value_of_outcome(outcome) {
            Ok(v) => Ok(v == 0x01),
            Err(e) => Err(e),
        };
        if let Ok(state) = r {
            self.power_state = Some(state);
        }
        self.record(Ghost(power_event(r)));
        r
    }
}

// ---- Operations ----

/// Reading, setting or stepping the volume.
#[derive(Clone, Copy, Debug, PartialEq, Eq, Structural)]
pub enum VolumeCommand {
    Get,
    SetTo(u8),
    Step(bool),
}

impl VolumeCommand {
    /// Volume must be 0-79.
    pub open spec fn valid(self) -> bool {
        !(self matches VolumeCommand::SetTo(level) && level > 79)
    }

    pub open spec fn spec_wire(self) -> Seq<u8> {
        match self {
            VolumeCommand::Get => command_frame(volume_get(), None),
            VolumeCommand::SetTo(level) => command_frame(volume_set(), Some(level)),
            VolumeCommand::Step(up) => command_frame(volume_step(), Some(spec_step_byte(up))),
        }
    }

    /// Whether a timeout marks the amplifier as off.
    pub open spec fn reads_value(self) -> bool {
        !(self is Step)
    }

    pub fn frame(&self) -> (r: Result<Vec<u8>, AppError>)
        ensures
            self.valid() ==> (r matches Ok(f) && f@ == self.spec_wire()),
            !self.valid() ==> (r matches Err(e) && invalid_parameter(e, "Volume must be 0-79"@)),
    {
        match *self {
            VolumeCommand::Get => Ok(volume_get().frame(None)),
            VolumeCommand::SetTo(level) => {
                if level > 79 {
                    return Err(AppError::InvalidParameter("Volume must be 0-79".to_owned()));
                }
                Ok(volume_set().frame(Some(level)))
            },
            VolumeCommand::Step(up) => Ok(volume_step().frame(Some(Link::step_byte(up)))),
        }
    }

    /// The volume confirmed by the reply.
    pub fn settle(&self, link: &mut Link, outcome: Result<Reply, AppError>) -> (r: Result<u8, AppError>)
        ensures
            r == reply_value(outcome),
            final(link).after_event(
                *old(link),
                if self.reads_value() {
                    read_event(outcome)
                } else {
                    CacheEvent::NoChange
                },
            ),
    {
        match *self {
            VolumeCommand::Step(_) => {
                link.record(Ghost(CacheEvent::NoChange));
                reply_value_of_outcome(outcome)
            },
            _ => link.read_value(outcome),
        }
    }
}

/// Reading, selecting or stepping the input.
#[derive(Clone, Copy, Debug, PartialEq, Eq, Structural)]
pub enum InputCommand {
    Get,
    SetTo(u8),
    Step(bool),
}

impl InputCommand {
    /// Input must be 1-7.
    pub open spec fn valid(self) -> bool {
        !(self matches InputCommand::SetTo(input) && !(1 <= input <= 7))
    }

    pub open spec fn spec_wire(self) -> Seq<u8> {
        match self {
            InputCommand::Get => command_frame(input_get(), None),
            InputCommand::SetTo(input) => command_frame(input_set(), Some(input)),
            InputCommand::Step(up) => command_frame(input_step(), Some(spec_step_byte(up))),
        }
    }

    /// Whether a timeout marks the amplifier as off.
    pub open spec fn reads_value(self) -> bool {
        !(self is Step)
    }

    pub fn frame(&self) -> (r: Result<Vec<u8>, AppError>)
        ensures
            self.valid() ==> (r matches Ok(f) && f@ == self.spec_wire()),
            !self.valid() ==> (r matches Err(e) && invalid_parameter(e, "Input must be 1-7"@)),
    {
        match *self {
            InputCommand::Get => Ok(input_get().frame(None)),
            InputCommand::SetTo(input) => {
                if !(1 <= input && input <= 7) {
                    return Err(AppError::InvalidParameter("Input must be 1-7".to_owned()));
                }
                Ok(input_set().frame(Some(input)))
            },
            InputCommand::Step(up) => Ok(input_step().frame(Some(Link::step_byte(up)))),
        }
    }

    /// The input confirmed by the reply.
    pub fn settle(&self, link: &mut Link, outcome: Result<Reply, AppError>) -> (r: Result<u8, AppError>)
        ensures
            r == reply_value(outcome),
            final(link).after_event(
                *old(link),
                if self.reads_value() {
                    read_event(outcome)
                } else {
                    CacheEvent::NoChange
                },
            ),
    {
        match *self {
            InputCommand::Step(_) => {
                link.record(Ghost(CacheEvent::NoChange));
                reply_value_of_outcome(outcome)
            },
            _ => link.read_value(outcome),
        }
    }
}

/// Reading, setting or toggling mute.
#[derive(Clone, Copy, Debug, PartialEq, Eq, Structural)]
pub enum MuteCommand {
    Get,
    SetTo(bool),
    Toggle,
}

impl MuteCommand {
    pub open spec fn spec_wire(self) -> Seq<u8> {
        match self {
            MuteCommand::Get => command_frame(mute_get(), None),
            MuteCommand::SetTo(muted) => command_frame(mute_set(), Some(if muted { 0x01u8 } else { 0x00u8 })),
            MuteCommand::Toggle => command_frame(mute_toggle(), None),
        }
    }

    /// Whether a timeout marks the amplifier as off.
    pub open spec fn reads_value(self) -> bool {
        !(self is Toggle)
    }

    pub fn frame(&self) -> (f: Vec<u8>)
        ensures
            f@ == self.spec_wire(),
    {
        match *self {
            MuteCommand::Get => mute_get().frame(None),
            MuteCommand::SetTo(muted) => {
                let value: u8 = if muted {
                    0x01
                } else {
                    0x00
                };
                mute_set().frame(Some(value))
            },
            MuteCommand::Toggle => mute_toggle().frame(None),
        }
    }

    /// Whether the reply says muted (0x01).
    pub fn settle(&self, link: &mut Link, outcome: Result<Reply, AppError>) -> (r: Result<bool, AppError>)
        ensures
            r == as_flag(reply_value(outcome)),
            final(link).after_event(
                *old(link),
                if self.reads_value() {
                    read_event(outcome)
                } else {
                    CacheEvent::NoChange
                },
            ),
    {
        let v = match *self {
            MuteCommand::Toggle => {
                link.record(Ghost(CacheEvent::NoChange));
                reply_value_of_outcome(outcome)?
            },
            _ => link.read_value(outcome)?,
        };
        Ok(v == 0x01)
    }
}

/// Reading, setting or stepping the balance (-9 to +9).
#[derive(Clone, Copy, Debug, PartialEq, Eq, Structural)]
pub enum BalanceCommand {
    Get,
    SetTo(i8),
    Step(i8),
}

impl BalanceCommand {
    /// Balance must be -9 to 9.
    pub open spec fn valid(self) -> bool {
        !(self matches BalanceCommand::SetTo(value) && !(-9 <= value <= 9))
    }

    pub open spec fn spec_wire(self) -> Seq<u8> {
        match self {
            BalanceCommand::Get => command_frame(balance_get(), None),
            BalanceCommand::SetTo(value) => command_frame(balance_set(), Some(value as u8)),
            BalanceCommand::Step(steps) => command_frame(balance_step(), Some(steps as u8)),
        }
    }

    /// Whether a timeout marks the amplifier as off.
    pub open spec fn reads_value(self) -> bool {
        !(self is Step)
    }

    pub fn frame(&self) -> (r: Result<Vec<u8>, AppError>)
        ensures
            self.valid() ==> (r matches Ok(f) && f@ == self.spec_wire()),
            !self.valid() ==> (r matches Err(e) && invalid_parameter(e, "Balance must be -9 to 9"@)),
    {
        match *self {
            BalanceCommand::Get => Ok(balance_get().frame(None)),
            BalanceCommand::SetTo(value) => {
                if !(-9 <= value && value <= 9) {
                    return Err(AppError::InvalidParameter("Balance must be -9 to 9".to_owned()));
                }
                Ok(balance_set().frame(Some(value as u8)))
            },
            BalanceCommand::Step(steps) => Ok(balance_step().frame(Some(steps as u8))),
        }
    }

    /// The balance confirmed by the reply, read as a signed byte.
    pub fn settle(&self, link: &mut Link, outcome: Result<Reply, AppError>) -> (r: Result<i8, AppError>)
        ensures
            r == as_signed(reply_value(outcome)),
            final(link).after_event(
                *old(link),
                if self.reads_value() {
                    read_event(outcome)
                } else {
                    CacheEvent::NoChange
                },
            ),
    {
        let v = match *self {
            BalanceCommand::Step(_) => {
                link.record(Ghost(CacheEvent::NoChange));
                reply_value_of_outcome(outcome)?
            },
            _ => link.read_value(outcome)?,
        };
        Ok(v as i8)
    }
}

/// Reading, setting or stepping the display brightness (0 = off, 1-3).
#[derive(Clone, Copy, Debug, PartialEq, Eq, Structural)]
pub enum DimCommand {
    Get,
    SetTo(u8),
    Step,
}

impl DimCommand {
    /// Dim level must be 0-3.
    pub open spec fn valid(self) -> bool {
        !(self matches DimCommand::SetTo(level) && level > 3)
    }

    pub open spec fn spec_wire(self) -> Seq<u8> {
        match self {
            DimCommand::Get => command_frame(dim_get(), None),
            DimCommand::SetTo(level) => command_frame(dim_set(), Some(level)),
            DimCommand::Step => command_frame(dim_step(), None),
        }
    }

    /// Whether a timeout marks the amplifier as off.
    pub open spec fn reads_value(self) -> bool {
        !(self is Step)
    }

    pub fn frame(&self) -> (r: Result<Vec<u8>, AppError>)
        ensures
            self.valid() ==> (r matches Ok(f) && f@ == self.spec_wire()),
            !self.valid() ==> (r matches Err(e) && invalid_parameter(e, "Dim level must be 0-3"@)),
    {
        match *self {
            DimCommand::Get => Ok(dim_get().frame(None)),
            DimCommand::SetTo(level) => {
                if level > 3 {
                    return Err(AppError::InvalidParameter("Dim level must be 0-3".to_owned()));
                }
                Ok(dim_set().frame(Some(level)))
            },
            DimCommand::Step => Ok(dim_step().frame(None)),
        }
    }

    /// The brightness confirmed by the reply.
    pub fn settle(&self, link: &mut Link, outcome: Result<Reply, AppError>) -> (r: Result<u8, AppError>)
        ensures
            r == reply_value(outcome),
            final(link).after_event(
                *old(link),
                if self.reads_value() {
                    read_event(outcome)
                } else {
                    CacheEvent::NoChange
                },
            ),
    {
        match *self {
            DimCommand::Step => {
                link.record(Ghost(CacheEvent::NoChange));
                reply_value_of_outcome(outcome)
            },
            _ => link.read_value(outcome),
        }
    }
}

/// Reading or selecting the IR receiver (`true` = back).
#[derive(Clone, Copy, Debug, PartialEq, Eq, Structural)]
pub enum IrInputCommand {
    Get,
    SetTo(bool),
}

impl IrInputCommand {
    pub open spec fn spec_wire(self) -> Seq<u8> {
        match self {
            IrInputCommand::Get => command_frame(ir_input_get(), None),
            IrInputCommand::SetTo(back) => command_frame(ir_input_set(), Some(if back { 0x01u8 } else { 0x00u8 })),
        }
    }

    pub fn frame(&self) -> (f: Vec<u8>)
        ensures
            f@ == self.spec_wire(),
    {
        match *self {
            IrInputCommand::Get => ir_input_get().frame(None),
            IrInputCommand::SetTo(back) => {
                let value: u8 = if back {
                    0x01
                } else {
                    0x00
                };
                ir_input_set().frame(Some(value))
            },
        }
    }

    /// Whether the reply says back (0x00 = front, any other = back).
    /// Timeout indicates the amp is likely off.
    pub fn settle(&self, link: &mut Link, outcome: Result<Reply, AppError>) -> (r: Result<bool, AppError>)
        ensures
            r == as_nonzero(reply_value(outcome)),
            final(link).after_event(*old(link), read_event(outcome)),
    {
        let v = link.read_value(outcome)?;
        Ok(v != 0x00)
    }
}

/// Reading a text variable.
#[derive(Clone, Copy, Debug, PartialEq, Eq, Structural)]
pub enum TextCommand {
    ProductLine,
    ModelName,
    Version,
    CurrentInputName,
    /// The name of input 1-7.
    InputName(u8),
}

impl TextCommand {
    /// Input must be 1-7.
    pub open spec fn valid(self) -> bool {
        !(self matches TextCommand::InputName(input) && !(1 <= input <= 7))
    }

    pub open spec fn spec_wire(self) -> Seq<u8> {
        match self {
            TextCommand::ProductLine => command_frame(product_line_read(), None),
            TextCommand::ModelName => command_frame(model_name_read(), None),
            TextCommand::Version => command_frame(version_read(), None),
            TextCommand::CurrentInputName => command_frame(input_name_read(), None),
            TextCommand::InputName(input) => command_frame(input_name_by_id_read(), Some(input)),
        }
    }

    /// Whether a timeout marks the amplifier as off.
    pub open spec fn reads_value(self) -> bool {
        !(self is InputName)
    }

    pub open spec fn spec_exchanges(self) -> nat {
        if self is InputName {
            2
        } else {
            1
        }
    }

    pub fn frame(&self) -> (r: Result<Vec<u8>, AppError>)
        ensures
            self.valid() ==> (r matches Ok(f) && f@ == self.spec_wire()),
            !self.valid() ==> (r matches Err(e) && invalid_parameter(e, "Input must be 1-7"@)),
    {
        match *self {
            TextCommand::ProductLine => Ok(product_line_read().frame(None)),
            TextCommand::ModelName => Ok(model_name_read().frame(None)),
            TextCommand::Version => Ok(version_read().frame(None)),
            TextCommand::CurrentInputName => Ok(input_name_read().frame(None)),
            TextCommand::InputName(input) => {
                if !(1 <= input && input <= 7) {
                    return Err(AppError::InvalidParameter("Input must be 1-7".to_owned()));
                }
                Ok(input_name_by_id_read().frame(Some(input)))
            },
        }
    }

    /// How many times the frame is sent; only the last reply counts, and a
    /// failed earlier exchange fails the read. Firmware quirk: for a named
    /// input, the device returns the previously queried input's name, so the
    /// query is sent twice.
    pub fn exchanges(&self) -> (n: usize)
        ensures
            n == self.spec_exchanges(),
    {
        match *self {
            TextCommand::InputName(_) => 2,
            _ => 1,
        }
    }

    /// The text of the last reply.
    pub fn settle(&self, link: &mut Link, outcome: Result<Reply, AppError>) -> (r: Result<String, AppError>)
        ensures
            reply_text_is(outcome, r),
            final(link).after_event(
                *old(link),
                if self.reads_value() {
                    read_event(outcome)
                } else {
                    CacheEvent::NoChange
                },
            ),
    {
        match *self {
            TextCommand::InputName(_) => {
                link.record(Ghost(CacheEvent::NoChange));
                reply_text(outcome)
            },
            _ => link.read_text(outcome),
        }
    }
}

impl PowerState {
    pub open spec fn spec_wire(self) -> Seq<u8> {
        match self {
            PowerState::On => command_frame(power_on(), None),
            PowerState::Off => command_frame(power_off(), None),
            PowerState::Toggle => command_frame(power_toggle(), None),
        }
    }

    /// The power state that results: for on and off, a timeout means the
    /// device is likely already in the requested state.
    pub open spec fn power_result(self, outcome: Result<Reply, AppError>) -> Result<bool, AppError> {
        if !(self is Toggle) && outcome matches Err(AppError::Timeout) {
            Ok(self is On)
        } else {
            as_flag(reply_value(outcome))
        }
    }

    /// Setting the power on or off must be sent with verbose mode off (a
    /// direct 0x00 is a query while verbose is on), so verbose mode is turned
    /// off first; toggling needs no such step.
    pub open spec fn spec_frames(self) -> Seq<Seq<u8>> {
        if self is Toggle {
            seq![self.spec_wire()]
        } else {
            seq![command_frame(verbose_off(), None), self.spec_wire()]
        }
    }

    /// The frames of the operation, in the order they are sent. Only the
    /// reply to the last one is the power state (see `settle`); the replies to
    /// the others go to `settle_before`.
    pub fn frames(&self) -> (r: Vec<Vec<u8>>)
        ensures
            r@.len() == self.spec_frames().len(),
            forall|i: int| 0 <= i < r@.len() ==> #[trigger] r@[i]@ == self.spec_frames()[i],
    {
        let mut frames: Vec<Vec<u8>> = Vec::new();
        if !(*self == PowerState::Toggle) {
            frames.push(verbose_off().frame(None));
        }
        frames.push(self.frame());
        frames
    }

    /// The result of an exchange that goes before the power command (turning
    /// verbose mode off): a timeout is no failure, since the device may not
    /// reply; any other failure fails the operation.
    pub fn settle_before(&self, outcome: Result<Reply, AppError>) -> (r: Result<(), AppError>)
        ensures
            r == match outcome {
                Ok(_) => Ok::<(), AppError>(()),
                Err(AppError::Timeout) => Ok::<(), AppError>(()),
                Err(e) => Err::<(), AppError>(e),
            },
    {
        Link::enable_verbose(outcome)
    }

    /// Verbose mode, turned off for setting the power, is turned back on
    /// after the power command, so that later commands reply again.
    pub open spec fn spec_frames_after(self) -> Seq<Seq<u8>> {
        if self is Toggle {
            Seq::empty()
        } else {
            seq![command_frame(verbose_on(), None)]
        }
    }

    /// The frames sent after the power command, in order; their replies go
    /// to `settle_after`.
    pub fn frames_after(&self) -> (r: Vec<Vec<u8>>)
        ensures
            r@.len() == self.spec_frames_after().len(),
            forall|i: int| 0 <= i < r@.len() ==> #[trigger] r@[i]@ == self.spec_frames_after()[i],
    {
        let mut frames: Vec<Vec<u8>> = Vec::new();
        if !(*self == PowerState::Toggle) {
            frames.push(verbose_on().frame(None));
        }
        frames
    }

    /// The result of an exchange after the power command (turning verbose
    /// mode back on): a timeout is no failure (the device may be in standby);
    /// any other failure fails the operation.
    pub fn settle_after(&self, outcome: Result<Reply, AppError>) -> (r: Result<(), AppError>)
        ensures
            r == match outcome {
                Ok(_) => Ok::<(), AppError>(()),
                Err(AppError::Timeout) => Ok::<(), AppError>(()),
                Err(e) => Err::<(), AppError>(e),
            },
    {
        Link::enable_verbose(outcome)
    }

    /// The frame of the power command itself.
    pub fn frame(&self) -> (f: Vec<u8>)
        ensures
            f@ == self.spec_wire(),
    {
        match *self {
            PowerState::On => power_on().frame(None),
            PowerState::Off => power_off().frame(None),
            PowerState::Toggle => power_toggle().frame(None),
        }
    }

    /// The power state confirmed by the reply, which is cached.
    pub fn settle(&self, link: &mut Link, outcome: Result<Reply, AppError>) -> (r: Result<bool, AppError>)
        ensures
            r == self.power_result(outcome),
            final(link).after_event(*old(link), power_event(r)),
    {
        match *self {
            PowerState::On => link.set_power(true, outcome),
            PowerState::Off => link.set_power(false, outcome),
            PowerState::Toggle => link.toggle_power(outcome),
        }
    }
}

impl MenuAction {
    pub open spec fn spec_wire(self) -> Seq<u8> {
        match self {
            MenuAction::Enter => command_frame(menu_enter(), None),
            MenuAction::Exit => command_frame(menu_exit(), None),
            MenuAction::Up => command_frame(menu_nav(), Some(ir_remote::STEP_UP)),
            MenuAction::Down => command_frame(menu_nav(), Some(ir_remote::STEP_DOWN)),
            MenuAction::Right => command_frame(menu_nav(), Some(ir_remote::ARROW_RIGHT)),
            MenuAction::Left => command_frame(menu_nav(), Some(ir_remote::ARROW_LEFT)),
        }
    }

    /// Enter and exit are menu commands; the arrows are sent as IR remote
    /// commands.
    pub fn frame(&self) -> (f: Vec<u8>)
        ensures
            f@ == self.spec_wire(),
    {
        match *self {
            MenuAction::Enter => menu_enter().frame(None),
            MenuAction::Exit => menu_exit().frame(None),
            MenuAction::Up => menu_nav().frame(Some(ir_remote::STEP_UP)),
            MenuAction::Down => menu_nav().frame(Some(ir_remote::STEP_DOWN)),
            MenuAction::Right => menu_nav().frame(Some(ir_remote::ARROW_RIGHT)),
            MenuAction::Left => menu_nav().frame(Some(ir_remote::ARROW_LEFT)),
        }
    }

    /// Any reply will do; a failed exchange fails the action.
    pub fn settle(&self, outcome: Result<Reply, AppError>) -> (r: Result<(), AppError>)
        ensures
            r == match outcome {
                Ok(_) => Ok::<(), AppError>(()),
                Err(e) => Err::<(), AppError>(e),
            },
    {
        match outcome {
            Ok(_) => Ok(()),
            Err(e) => Err(e),
        }
    }
}

fn reply_value_of(reply: Reply) -> (r: Result<u8, AppError>)
    ensures
        r == reply_value(Ok(reply)),
{
    match reply.value() {
        Some(v) => Ok(v),
        None => Err(AppError::InvalidReply),
    }
}

fn reply_value_of_outcome(outcome: Result<Reply, AppError>) -> (r: Result<u8, AppError>)
    ensures
        r == reply_value(outcome),
{
    match outcome {
        Ok(reply) => reply_value_of(reply),
        Err(e) => Err(e),
    }
}

/// The text of a reply, with no effect on the connection.
fn reply_text(outcome: Result<Reply, AppError>) -> (r: Result<String, AppError>)
    ensures
        reply_text_is(outcome, r),
{
    match outcome {
        Ok(reply) => match reply.as_text() {
            Some(s) => Ok(s.to_owned()),
            None => Err(AppError::InvalidReply),
        },
        Err(e) => Err(e),
    }
}

} // verus!
