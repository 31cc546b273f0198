use vstd::prelude::*;

use crate::error::CommandError;

verus! {

pub const REPORT_ID: u8 = 0x11;
pub const DEVICE_INDEX: u8 = 0xff;
pub const FEATURE_INDEX: u8 = 0x04;

pub const OPCODE_POWER: u8 = 0x1c;
pub const OPCODE_BRIGHTNESS: u8 = 0x4c;
pub const OPCODE_TEMPERATURE: u8 = 0x9c;

/// Bytes before the zero padding: three prefix bytes, the opcode and two argument bytes.
pub const HEADER_LEN: usize = 6;

/// Length of a frame sent as an HID output report.
pub const REPORT_FRAME_LEN: usize = 20;

/// The highest brightness percentage.
pub const MAX_PERCENT: u16 = 100;

/// The argument values of one firmware revision of the protocol.
#[derive(Clone, Copy, Debug, PartialEq, Eq, Structural)]
pub struct Profile {
    pub power_on: u16,
    pub power_off: u16,
    pub min_brightness: u16,
    pub max_brightness: u16,
}

impl Profile {
    pub open spec fn wf(self) -> bool {
        self.min_brightness <= self.max_brightness
    }

    /// The table this library uses: power on `0x0100`, power off `0x0000`,
    /// brightness over `0x00..=0xFF`.
    pub fn canonical() -> (r: Profile)
        ensures
            r.wf(),
            r == (Profile { power_on: 0x0100, power_off: 0x0000, min_brightness: 0x00, max_brightness: 0xff }),
    {
        Profile { power_on: 0x0100, power_off: 0x0000, min_brightness: 0x00, max_brightness: 0xff }
    }

    /// The brightness range seen in other captures, `0x14..=0xFA`. Those
    /// captures also disagree on the power-off argument (`0x0000` or
    /// `0x0100`); this profile keeps `0x0000`.
    pub fn alternate() -> (r: Profile)
        ensures
            r.wf(),
            r == (Profile { power_on: 0x0100, power_off: 0x0000, min_brightness: 0x14, max_brightness: 0xfa }),
    {
        Profile { power_on: 0x0100, power_off: 0x0000, min_brightness: 0x14, max_brightness: 0xfa }
    }
}

/// A high-level request to the light.
#[derive(Clone, Copy, Debug, PartialEq, Eq, Structural)]
pub enum Operation {
    PowerOn,
    PowerOff,
    /// Brightness in percent, `0..=100`.
    SetBrightness(u16),
    /// Colour temperature in the device's own unit, sent unscaled.
    SetTemperature(u16),
}

/// An opcode and its 16-bit argument.
#[derive(Clone, Copy, Debug, PartialEq, Eq, Structural)]
pub struct Command {
    pub opcode: u8,
    pub argument: u16,
}

/// `percent` mapped linearly onto the profile's brightness range, with
/// truncating division.
pub open spec fn brightness_argument(profile: Profile, percent: int) -> int {
    profile.min_brightness + (profile.max_brightness - profile.min_brightness) * percent / 100
}

pub open spec fn in_range(op: Operation) -> bool {
    match op {
        Operation::SetBrightness(p) => p <= 100,
        _ => true,
    }
}

/// The command for an in-range operation.
pub open spec fn command_of(op: Operation, profile: Profile) -> Command {
    match op {
        Operation::PowerOn => Command { opcode: 0x1c, argument: profile.power_on },
        Operation::PowerOff => Command { opcode: 0x1c, argument: profile.power_off },
        Operation::SetBrightness(p) => Command {
            opcode: 0x4c,
            argument: brightness_argument(profile, p as int) as u16,
        },
        Operation::SetTemperature(t) => Command { opcode: 0x9c, argument: t },
    }
}

/// The bytes of a frame of length `len` carrying `c`.
pub open spec fn frame_bytes(c: Command, len: nat) -> Seq<u8> {
    Seq::new(
        len,
        |i: int|
            if i == 0 {
                0x11u8
            } else if i == 1 {
                0xffu8
            } else if i == 2 {
                0x04u8
            } else if i == 3 {
                c.opcode
            } else if i == 4 {
                (c.argument / 256) as u8
            } else if i == 5 {
                (c.argument % 256) as u8
            } else {
                0u8
            },
    )
}

/// The scaled brightness argument for `percent`.
pub fn brightness(profile: Profile, percent: u16) -> (r: u16)
    requires
        profile.wf(),
        percent <= 100,
    ensures
        r == brightness_argument(profile, percent as int),
        profile.min_brightness <= r <= profile.max_brightness,
{
    let span: u32 = (profile.max_brightness - profile.min_brightness) as u32;
    proof {
        lemma_scaled_within(span as int, percent as int);
    }
    let scaled: u32 = span * (percent as u32) / 100;
    profile.min_brightness + scaled as u16
}

proof fn lemma_scaled_within(span: int, percent: int)
    requires
        0 <= span,
        0 <= percent <= 100,
    ensures
        0 <= span * percent / 100 <= span,
        span * percent <= span * 100,
{
    assert(0 <= span * percent <= span * 100) by (nonlinear_arith)
        requires
            0 <= span,
            0 <= percent <= 100,
    ;
    assert(span * percent / 100 <= span * 100 / 100) by (nonlinear_arith)
        requires
            0 <= span * percent <= span * 100,
    ;
    assert(span * 100 / 100 == span) by (nonlinear_arith);
    assert(0 <= span * percent / 100) by (nonlinear_arith)
        requires
            0 <= span * percent,
    ;
}

/// Maps an operation to its opcode and argument. A brightness above 100
/// percent is refused before anything is sent.
pub fn encode(op: Operation, profile: Profile) -> (r: Result<Command, CommandError>)
    requires
        profile.wf(),
    ensures
        in_range(op) ==> r == Ok::<Command, CommandError>(command_of(op, profile)),
        !in_range(op) ==> r == Err::<Command, CommandError>(
            CommandError::ProtocolRangeError { opcode: 0x4c, value: op->SetBrightness_0 },
        ),
{
    match op {
        Operation::PowerOn => Ok(Command { opcode: OPCODE_POWER, argument: profile.power_on }),
        Operation::PowerOff => Ok(Command { opcode: OPCODE_POWER, argument: profile.power_off }),
        Operation::SetBrightness(p) => {
            if p > MAX_PERCENT {
                Err(CommandError::ProtocolRangeError { opcode: OPCODE_BRIGHTNESS, value: p })
            } else {
                Ok(Command { opcode: OPCODE_BRIGHTNESS, argument: brightness(profile, p) })
            }
        },
        Operation::SetTemperature(t) => Ok(Command { opcode: OPCODE_TEMPERATURE, argument: t }),
    }
}

/// Lays `c` out in a zero-padded frame of `len` bytes:
/// `[0x11, 0xFF, 0x04, opcode, high, low, 0, ...]`.
pub fn assemble_frame(c: Command, len: usize) -> (r: Vec<u8>)
    requires
        HEADER_LEN <= len,
    ensures
        r@ == frame_bytes(c, len as nat),
{
    let high: u8 = ((c.argument >> 8) & 0xff) as u8;
    let low: u8 = (c.argument & 0xff) as u8;
    let arg = c.argument;
    assert(((arg >> 8) & 0xff) as u8 == (arg / 256) as u8) by (bit_vector);
    assert((arg & 0xff) as u8 == (arg % 256) as u8) by (bit_vector);
    let mut r: Vec<u8> = Vec::with_capacity(len);
    r.push(REPORT_ID);
    r.push(DEVICE_INDEX);
    r.push(FEATURE_INDEX);
    r.push(c.opcode);
    r.push(high);
    r.push(low);
    while r.len() < len
        invariant
            HEADER_LEN <= r@.len() <= len,
            r@ =~= frame_bytes(c, len as nat).take(r@.len() as int),
        decreases len - r@.len(),
    {
        r.push(0);
    }
    r
}

} // verus!

verus! {

/// Brightness scaling is monotone over `0..=100` and hits both ends of the
/// profile's range exactly.
pub proof fn lemma_brightness_monotone(profile: Profile, p: int, q: int)
    requires
        profile.wf(),
        0 <= p <= q <= 100,
    ensures
        brightness_argument(profile, p) <= brightness_argument(profile, q),
        brightness_argument(profile, 0) == profile.min_brightness,
        brightness_argument(profile, 100) == profile.max_brightness,
{
    let span = profile.max_brightness - profile.min_brightness;
    assert(span * p <= span * q) by (nonlinear_arith)
        requires
            0 <= span,
            p <= q,
    ;
    assert(span * p / 100 <= span * q / 100) by (nonlinear_arith)
        requires
            span * p <= span * q,
    ;
    assert(span * 0 / 100 == 0) by (nonlinear_arith);
    assert(span * 100 / 100 == span) by (nonlinear_arith);
}

/// Every operation gives a frame of the same length for a given frame size.
pub proof fn lemma_frame_length_invariant(a: Operation, b: Operation, profile: Profile, len: nat)
    ensures
        frame_bytes(command_of(a, profile), len).len() == frame_bytes(command_of(b, profile), len).len(),
        frame_bytes(command_of(a, profile), len).len() == len,
{
}

} // verus!
