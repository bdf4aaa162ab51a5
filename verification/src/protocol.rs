//! Primare I22 RS232 protocol: building command frames, parsing reply frames,
//! and finding the end of a frame in a stream of bytes.
//!
//! Frame format:  `<STX> <CMD> <VAR> [<VALUE>] <DLE> <ETX>`
//! Reply format:  `<STX> <VAR> <VALUE> [<VALUE2>...] <DLE> <ETX>`
//!
//! A data byte equal to DLE is sent doubled, so that `<DLE> <ETX>` can only
//! occur at the end of a frame.

pub mod ir_remote;
pub mod var;

use vstd::prelude::*;
use vstd::utf8::{decode_utf8, valid_utf8};

verus! {

pub const STX: u8 = 0x02;

pub const DLE: u8 = 0x10;

pub const ETX: u8 = 0x03;

/// Write command ('W').
pub const CMD_WRITE: u8 = 0x57;

/// Read command ('R').
pub const CMD_READ: u8 = 0x52;

pub open spec fn spec_direct(variable: u8) -> u8 {
    variable | 0x80
}

/// Direct-mode variables use `variable | 0x80`.
pub fn direct(variable: u8) -> (r: u8)
    ensures
        r == spec_direct(variable),
{
    variable | 0x80
}

/// Each direct-mode variable ID is its variable's ID with the high bit set.
pub proof fn law_direct_variables()
    ensures
        var::STANDBY_DIRECT == spec_direct(var::STANDBY),
        var::INPUT_DIRECT == spec_direct(var::INPUT),
        var::VOLUME_DIRECT == spec_direct(var::VOLUME),
        var::BALANCE_DIRECT == spec_direct(var::BALANCE),
        var::MUTE_DIRECT == spec_direct(var::MUTE),
        var::DIM_DIRECT == spec_direct(var::DIM),
        var::VERBOSE_DIRECT == spec_direct(var::VERBOSE),
        var::MENU_DIRECT == spec_direct(var::MENU),
        var::IR_INPUT_DIRECT == spec_direct(var::IR_INPUT),
        var::INPUT_NAME_DIRECT == spec_direct(var::INPUT_NAME),
{
    assert(0x81u8 == 0x01u8 | 0x80u8 && 0x82u8 == 0x02u8 | 0x80u8 && 0x83u8 == 0x03u8 | 0x80u8
        && 0x84u8 == 0x04u8 | 0x80u8 && 0x89u8 == 0x09u8 | 0x80u8 && 0x8Au8 == 0x0Au8 | 0x80u8
        && 0x8Du8 == 0x0Du8 | 0x80u8 && 0x8Eu8 == 0x0Eu8 | 0x80u8 && 0x92u8 == 0x12u8 | 0x80u8
        && 0x94u8 == 0x14u8 | 0x80u8) by (bit_vector);
}

// ---------------------------------------------------------------------------
// Encoding
// ---------------------------------------------------------------------------

/// The wire bytes that carry one data byte.
pub open spec fn escaped_byte(b: u8) -> Seq<u8> {
    if b == DLE {
        seq![DLE, DLE]
    } else {
        seq![b]
    }
}

/// The wire bytes that carry a sequence of data bytes.
pub open spec fn escaped(data: Seq<u8>) -> Seq<u8>
    decreases data.len(),
{
    if data.len() == 0 {
        Seq::empty()
    } else {
        escaped_byte(data[0]) + escaped(data.drop_first())
    }
}

/// A whole frame carrying `payload`.
pub open spec fn encode_frame(payload: Seq<u8>) -> Seq<u8> {
    seq![STX] + escaped(payload) + seq![DLE, ETX]
}

/// The payload of a command frame: command, variable and optional value.
pub open spec fn command_payload(cmd: u8, variable: u8, value: Option<u8>) -> Seq<u8> {
    match value {
        Some(v) => seq![cmd, variable, v],
        None => seq![cmd, variable],
    }
}

pub proof fn lemma_escaped_push(data: Seq<u8>, b: u8)
    ensures
        escaped(data.push(b)) == escaped(data) + escaped_byte(b),
    decreases data.len(),
{
    if data.len() == 0 {
        assert(data.push(b)[0] == b);
        assert(data.push(b).drop_first() =~= Seq::<u8>::empty());
        assert(escaped(data.push(b).drop_first()) =~= Seq::<u8>::empty());
        assert(escaped(data) =~= Seq::<u8>::empty());
        assert(escaped(data.push(b)) =~= escaped(data) + escaped_byte(b));
    } else {
        assert(data.push(b)[0] == data[0]);
        assert(data.push(b).drop_first() =~= data.drop_first().push(b));
        lemma_escaped_push(data.drop_first(), b);
        assert(escaped(data.push(b)) == escaped_byte(data[0]) + escaped(data.drop_first().push(b)));
        assert(escaped(data.push(b)) =~= escaped(data) + escaped_byte(b));
    }
}

pub proof fn lemma_escaped_len(data: Seq<u8>)
    ensures
        escaped(data).len() >= data.len(),
    decreases data.len(),
{
    if data.len() > 0 {
        lemma_escaped_len(data.drop_first());
    }
}

/// Escape a data byte: if it equals DLE, double it.
fn escape(byte: u8, buf: &mut Vec<u8>)
    ensures
        final(buf)@ == old(buf)@ + escaped_byte(byte),
{
    buf.push(byte);
    if byte == DLE {
        buf.push(DLE);
    }
}

/// Build a command frame: `<STX> <cmd> <variable> [<value>] <DLE> <ETX>`.
/// All bytes are DLE-escaped as required by the protocol.
pub fn build_frame(cmd: u8, variable: u8, value: Option<u8>) -> (frame: Vec<u8>)
    ensures
        frame@ == encode_frame(command_payload(cmd, variable, value)),
{
    let mut buf: Vec<u8> = Vec::with_capacity(8);
    buf.push(STX);
    escape(cmd, &mut buf);
    escape(variable, &mut buf);
    match value {
        Some(v) => escape(v, &mut buf),
        None => {},
    }
    buf.push(DLE);
    buf.push(ETX);
    proof {
        let p0 = Seq::<u8>::empty();
        let p1 = p0.push(cmd);
        let p2 = p1.push(variable);
        lemma_escaped_push(p0, cmd);
        lemma_escaped_push(p1, variable);
        assert(escaped(p0) =~= Seq::<u8>::empty());
        match value {
            Some(v) => {
                lemma_escaped_push(p2, v);
                assert(command_payload(cmd, variable, value) =~= p2.push(v));
            },
            None => {
                assert(command_payload(cmd, variable, value) =~= p2);
            },
        }
    }
    buf
}

/// Build a write (CMD_WRITE) frame.
pub fn build_write(variable: u8, value: Option<u8>) -> (frame: Vec<u8>)
    ensures
        frame@ == encode_frame(command_payload(CMD_WRITE, variable, value)),
{
    build_frame(CMD_WRITE, variable, value)
}

/// Build a read (CMD_READ) frame. Sends 0x00 as value, which per protocol
/// replies with the current value when verbose mode is active.
pub fn build_read(variable: u8) -> (frame: Vec<u8>)
    ensures
        frame@ == encode_frame(command_payload(CMD_READ, variable, Some(0x00u8))),
{
    build_frame(CMD_READ, variable, Some(0x00))
}

// ---------------------------------------------------------------------------
// Decoding
// ---------------------------------------------------------------------------

/// Parsed reply from the I22.
#[derive(Debug, Clone)]
pub struct Reply {
    pub variable: u8,
    pub values: Vec<u8>,
}

impl View for Reply {
    type V = (u8, Seq<u8>);

    open spec fn view(&self) -> (u8, Seq<u8>) {
        (self.variable, self.values@)
    }
}

/// The first value byte of a reply, if there is one.
pub open spec fn first_value(values: Seq<u8>) -> Option<u8> {
    if values.len() > 0 {
        Some(values[0])
    } else {
        None
    }
}

/// Wraps `std::str::from_utf8`: it gives the string slice exactly when the
/// bytes are valid UTF-8; that slice is made of the same bytes, so it holds
/// the characters those bytes encode.
#[verifier::external_body]
fn str_from_utf8<'a>(bytes: &'a [u8]) -> (r: Option<&'a str>)
    ensures
        r is Some <==> valid_utf8(bytes@),
        r matches Some(s) ==> s@ == decode_utf8(bytes@),
{
    std::str::from_utf8(bytes).ok()
}

impl Reply {
    /// First value byte, if present
    pub fn value(&self) -> (r: Option<u8>)
        ensures
            r == first_value(self.values@),
    {
        if self.values.len() > 0 {
            Some(self.values[0])
        } else {
            None
        }
    }

    /// All value bytes decoded as UTF-8 string (for text replies)
    pub fn as_text(&self) -> (r: Option<&str>)
        ensures
            r is Some <==> valid_utf8(self.values@),
            r matches Some(s) ==> s@ == decode_utf8(self.values@),
    {
        str_from_utf8(self.values.as_slice())
    }
}

/// The data bytes carried by `wire`, read up to the first unescaped `<DLE> <ETX>`
/// (or to the end when there is none). A doubled DLE stands for one DLE; any
/// other byte, a lone DLE included, stands for itself.
pub open spec fn unescaped(wire: Seq<u8>) -> Seq<u8>
    decreases wire.len(),
{
    if wire.len() == 0 {
        Seq::empty()
    } else if wire[0] == DLE && wire.len() >= 2 && wire[1] == ETX {
        Seq::empty()
    } else if wire[0] == DLE && wire.len() >= 2 && wire[1] == DLE {
        seq![DLE] + unescaped(wire.skip(2))
    } else {
        seq![wire[0]] + unescaped(wire.drop_first())
    }
}

/// The reply carried by a raw frame, as (variable, values): the frame must be at
/// least 4 bytes long, start with STX and carry at least one data byte.
pub open spec fn decode_reply(raw: Seq<u8>) -> Option<(u8, Seq<u8>)> {
    if raw.len() < 4 || raw[0] != STX {
        None
    } else {
        let payload = unescaped(raw.drop_first());
        if payload.len() == 0 {
            None
        } else {
            Some((payload[0], payload.drop_first()))
        }
    }
}

/// Parse a raw reply frame (including STX/DLE/ETX delimiters).
/// Handles DLE un-escaping.
pub fn parse_reply(raw: &[u8]) -> (r: Option<Reply>)
    ensures
        match r {
            Some(reply) => decode_reply(raw@) == Some(reply@),
            None => decode_reply(raw@) is None,
        },
{
    // Expect: STX ... DLE ETX
    if raw.len() < 4 {
        return None;
    }
    if raw[0] != STX {
        return None;
    }
    // Walk the payload up to the terminal DLE ETX, un-doubling DLE bytes.

    let mut payload: Vec<u8> = Vec::new();
    let mut i: usize = 1;
    while i < raw.len()
        invariant
            1 <= i <= raw@.len(),
            payload@ + unescaped(raw@.skip(i as int)) == unescaped(raw@.drop_first()),
        ensures
            payload@ == unescaped(raw@.drop_first()),
        decreases raw@.len() - i,
    {
        let ghost rest = raw@.skip(i as int);
        let b = raw[i];
        if b == DLE {
            if i + 1 < raw.len() && raw[i + 1] == ETX {
                // end of frame
                assert(unescaped(rest) =~= Seq::<u8>::empty());
                assert(payload@ =~= payload@ + unescaped(rest));
                break;
            } else if i + 1 < raw.len() && raw[i + 1] == DLE {
                // escaped DLE
                assert(rest.skip(2) =~= raw@.skip(i + 2));
                assert(unescaped(rest) == seq![DLE] + unescaped(raw@.skip(i + 2)));
                let ghost before = payload@;
                payload.push(DLE);
                assert(payload@ + unescaped(raw@.skip(i + 2)) =~= before + unescaped(rest));
                i += 2;
                continue;
            }
        }
        assert(rest.drop_first() =~= raw@.skip(i + 1));
        assert(unescaped(rest) == seq![b] + unescaped(raw@.skip(i + 1)));
        let ghost before = payload@;
        payload.push(b);
        assert(payload@ + unescaped(raw@.skip(i + 1)) =~= before + unescaped(rest));
        i += 1;
    }
    assert(raw@.skip(raw@.len() as int) =~= Seq::<u8>::empty());

    if payload.len() == 0 {
        return None;
    }
    let mut values = payload;
    let variable = values.remove(0);
    assert(values@ =~= unescaped(raw@.drop_first()).drop_first());
    Some(Reply { variable, values })
}

/// Un-escaping what escaping produced, followed by the frame terminator and
/// anything after it, gives the data back.
pub proof fn lemma_unescaped_escaped(data: Seq<u8>, rest: Seq<u8>)
    ensures
        unescaped(escaped(data) + seq![DLE, ETX] + rest) == data,
    decreases data.len(),
{
    let wire = escaped(data) + seq![DLE, ETX] + rest;
    if data.len() == 0 {
        assert(wire =~= seq![DLE, ETX] + rest);
        assert(wire[0] == DLE && wire[1] == ETX);
        assert(unescaped(wire) =~= data);
    } else {
        let x = data[0];
        let tail = escaped(data.drop_first()) + seq![DLE, ETX] + rest;
        lemma_unescaped_escaped(data.drop_first(), rest);
        assert(wire =~= escaped_byte(x) + tail);
        if x == DLE {
            assert(wire[0] == DLE && wire[1] == DLE);
            assert(wire.skip(2) =~= tail);
        } else {
            assert(wire[0] == x);
            assert(wire.drop_first() =~= tail);
        }
        assert(unescaped(wire) =~= data);
    }
}

/// Decoding the frame that carries a non-empty payload gives back that payload:
/// its first byte as the reply's variable and the rest as its values.
/// (The wire bytes of a frame built by `build_frame` are `encode_frame` of
/// its `command_payload`, and `parse_reply` gives `decode_reply` of its input.)
pub proof fn law_decode_encoded_frame(payload: Seq<u8>)
    requires
        payload.len() > 0,
    ensures
        decode_reply(encode_frame(payload)) == Some((payload[0], payload.drop_first())),
{
    let frame = encode_frame(payload);
    lemma_escaped_len(payload);
    assert(frame.drop_first() =~= escaped(payload) + seq![DLE, ETX] + Seq::<u8>::empty());
    lemma_unescaped_escaped(payload, Seq::<u8>::empty());
}

// ---------------------------------------------------------------------------
// Finding the end of a frame in a byte stream
// ---------------------------------------------------------------------------

/// Whether the byte after `b` follows an unescaped DLE, given whether `b` did.
pub open spec fn next_after_dle(after_dle: bool, b: u8) -> bool {
    !after_dle && b == DLE
}

/// The number of bytes up to and including the first unescaped `<DLE> <ETX>`
/// in `bytes`, when reading starts in state `after_dle`; `None` when no frame
/// ends within `bytes`.
pub open spec fn frame_end(after_dle: bool, bytes: Seq<u8>) -> Option<nat>
    decreases bytes.len(),
{
    if bytes.len() == 0 {
        None
    } else if after_dle && bytes[0] == ETX {
        Some(1)
    } else {
        match frame_end(next_after_dle(after_dle, bytes[0]), bytes.drop_first()) {
            Some(n) => Some(n + 1),
            None => None,
        }
    }
}

/// The reading state after `bytes`, when reading starts in state `after_dle`.
pub open spec fn state_after(after_dle: bool, bytes: Seq<u8>) -> bool
    decreases bytes.len(),
{
    if bytes.len() == 0 {
        after_dle
    } else {
        state_after(next_after_dle(after_dle, bytes[0]), bytes.drop_first())
    }
}

pub open spec fn shifted(n: Option<nat>, k: nat) -> Option<nat> {
    match n {
        Some(m) => Some(m + k),
        None => None,
    }
}

pub proof fn lemma_frame_end_concat(after_dle: bool, s: Seq<u8>, t: Seq<u8>)
    ensures
        frame_end(after_dle, s + t) == match frame_end(after_dle, s) {
            Some(n) => Some(n),
            None => shifted(frame_end(state_after(after_dle, s), t), s.len()),
        },
    decreases s.len(),
{
    if s.len() == 0 {
        assert(s + t =~= t);
    } else {
        assert((s + t)[0] == s[0]);
        assert((s + t).drop_first() =~= s.drop_first() + t);
        lemma_frame_end_concat(next_after_dle(after_dle, s[0]), s.drop_first(), t);
    }
}

proof fn lemma_escaped_never_ends(data: Seq<u8>)
    ensures
        frame_end(false, escaped(data)) is None,
        state_after(false, escaped(data)) == false,
    decreases data.len(),
{
    if data.len() > 0 {
        let x = data[0];
        lemma_escaped_never_ends(data.drop_first());
        lemma_frame_end_concat(false, escaped_byte(x), escaped(data.drop_first()));
        lemma_state_after_concat(false, escaped_byte(x), escaped(data.drop_first()));
        if x == DLE {
            let e = escaped_byte(x);
            assert(e.drop_first().drop_first() =~= Seq::<u8>::empty());
            assert(frame_end(false, e.drop_first().drop_first()) is None);
            assert(frame_end(true, e.drop_first()) is None);
            assert(frame_end(false, e) is None);
            assert(state_after(false, e.drop_first().drop_first()) == false);
            assert(state_after(true, e.drop_first()) == false);
            assert(state_after(false, e) == false);
        } else {
            let e = escaped_byte(x);
            assert(e.drop_first() =~= Seq::<u8>::empty());
            assert(frame_end(false, e.drop_first()) is None);
            assert(state_after(false, e.drop_first()) == false);
        }
    }
}

/// A frame that carries any payload, followed by any bytes, ends exactly after
/// its own last byte: reading stops neither inside it nor after it.
pub proof fn law_encoded_frame_end(payload: Seq<u8>, rest: Seq<u8>)
    ensures
        frame_end(false, encode_frame(payload) + rest) == Some(encode_frame(payload).len()),
{
    let head = seq![STX];
    let body = escaped(payload);
    let tail = seq![DLE, ETX] + rest;
    lemma_escaped_never_ends(payload);
    assert(head.drop_first() =~= Seq::<u8>::empty());
    lemma_frame_end_concat(false, head, body);
    lemma_frame_end_concat(false, head + body, tail);
    assert(tail[0] == DLE);
    assert(tail.drop_first()[0] == ETX);
    assert(frame_end(true, tail.drop_first()) == Some(1nat));
    assert(frame_end(false, tail) == Some(2nat));
    assert(head[0] == STX);
    assert(frame_end(false, head.drop_first()) is None);
    assert(frame_end(false, head) is None);
    lemma_state_after_concat(false, head, body);
    assert(state_after(false, head.drop_first()) == false);
    assert(state_after(false, head) == false);
    assert(encode_frame(payload) + rest =~= (head + body) + tail);
}

/// Accumulates bytes read from the line until a whole frame has arrived.
pub struct FrameReader {
    bytes: Vec<u8>,
    after_dle: bool,
    done: bool,
}

impl View for FrameReader {
    type V = Seq<u8>;

    closed spec fn view(&self) -> Seq<u8> {
        self.bytes@
    }
}

pub proof fn lemma_state_after_concat(after_dle: bool, s: Seq<u8>, t: Seq<u8>)
    ensures
        state_after(after_dle, s + t) == state_after(state_after(after_dle, s), t),
    decreases s.len(),
{
    if s.len() == 0 {
        assert(s + t =~= t);
    } else {
        assert((s + t)[0] == s[0]);
        assert((s + t).drop_first() =~= s.drop_first() + t);
        lemma_state_after_concat(next_after_dle(after_dle, s[0]), s.drop_first(), t);
    }
}

impl FrameReader {
    /// Whether the reader holds a whole frame, its state is the one its bytes
    /// lead to, and it holds no bytes past the end of the frame.
    pub closed spec fn wf(&self) -> bool {
        &&& self.done == (frame_end(false, self.bytes@) is Some)
        &&& match frame_end(false, self.bytes@) {
            Some(n) => n == self.bytes@.len(),
            None => self.after_dle == state_after(false, self.bytes@),
        }
    }

    pub fn new() -> (r: Self)
        ensures
            r.wf(),
            r@ == Seq::<u8>::empty(),
    {
        FrameReader { bytes: Vec::new(), after_dle: false, done: false }
    }

    /// Whether the bytes received form a whole frame.
    pub fn is_complete(&self) -> (r: bool)
        requires
            self.wf(),
        ensures
            r == frame_end(false, self@) is Some,
    {
        self.done
    }

    /// Take the next byte from the line; returns whether the bytes received
    /// now form a whole frame. A byte that arrives after that is not taken.
    pub fn push(&mut self, b: u8) -> (done: bool)
        requires
            old(self).wf(),
        ensures
            final(self).wf(),
            frame_end(false, old(self)@) is Some ==> final(self)@ == old(self)@ && done,
            frame_end(false, old(self)@) is None ==> final(self)@ == old(self)@.push(b) && done
                == (frame_end(false, final(self)@) is Some),
    {
        if self.done {
            return true;
        }
        let was_after_dle = self.after_dle;
        proof {
            lemma_frame_end_concat(false, self.bytes@, seq![b]);
            lemma_state_after_concat(false, self.bytes@, seq![b]);
            let one = seq![b];
            assert(one.drop_first() =~= Seq::<u8>::empty());
            assert(frame_end(next_after_dle(was_after_dle, b), one.drop_first()) is None);
            assert(state_after(next_after_dle(was_after_dle, b), one.drop_first()) == next_after_dle(was_after_dle, b));
            assert(self.bytes@ + one =~= self.bytes@.push(b));
        }
        self.bytes.push(b);
        if was_after_dle && b == ETX {
            self.done = true;
        } else {
            self.after_dle = !was_after_dle && b == DLE;
        }
        self.done
    }

    pub fn into_bytes(self) -> (r: Vec<u8>)
        ensures
            r@ == self@,
    {
        self.bytes
    }
}

} // verus!
