//! The 64-byte lighting command packet.
use vstd::prelude::*;

verus! {

/// Length of every command packet, in bytes.
pub const PACKET_LEN: usize = 64;

/// Highest brightness level the keyboard accepts.
pub const MAX_BRIGHTNESS: u8 = 4;

/// The lighting modes the keyboard understands.
#[derive(Clone, Copy, Debug, PartialEq, Eq, Structural)]
pub enum Mode {
    /// Rainbow flowing effect.
    Rainbow,
    /// One static color.
    Color,
}

/// The selector byte of a mode.
pub open spec fn mode_selector(mode: Mode) -> u8 {
    match mode {
        Mode::Rainbow => 0x00,
        Mode::Color => 0x03,
    }
}

impl Mode {
    /// The selector byte written at offset 5 of the packet.
    pub fn selector(&self) -> (r: u8)
        ensures
            r == mode_selector(*self),
    {
        match self {
            Mode::Rainbow => 0x00,
            Mode::Color => 0x03,
        }
    }
}

/// The fixed preamble at the start of every packet.
pub open spec fn preamble() -> Seq<u8> {
    seq![0xbbu8, 0xaau8, 0x99u8, 0x88u8, 0xaau8]
}

/// Byte `i` of the packet for the given mode and parameters.
pub open spec fn packet_byte(mode: Mode, val1: u8, val2: u8, val3: u8, brightness: u8, i: int) -> u8 {
    if 0 <= i < 5 {
        preamble()[i]
    } else if i == 5 {
        mode_selector(mode)
    } else if i == 7 {
        val1
    } else if i == 8 {
        val2
    } else if i == 9 {
        brightness
    } else if i == 10 {
        val3
    } else {
        0
    }
}

/// The whole packet for the given mode and parameters.
pub open spec fn packet_spec(mode: Mode, val1: u8, val2: u8, val3: u8, brightness: u8) -> Seq<u8> {
    Seq::new(PACKET_LEN as nat, |i: int| packet_byte(mode, val1, val2, val3, brightness, i))
}

/// Builds the command packet: preamble, mode selector, a reserved zero, then
/// `val1`, `val2`, `brightness` and `val3`, and zeros to the end.
/// The brightness is not checked here; callers pass a validated level.
pub fn encode_packet(mode: Mode, val1: u8, val2: u8, val3: u8, brightness: u8) -> (r: [u8; 64])
    requires
        brightness <= MAX_BRIGHTNESS,
    ensures
        r@ == packet_spec(mode, val1, val2, val3, brightness),
{
    let mut buf: [u8; 64] = [0u8; 64];
    buf.set(0, 0xbb);
    buf.set(1, 0xaa);
    buf.set(2, 0x99);
    buf.set(3, 0x88);
    buf.set(4, 0xaa);
    buf.set(5, mode.selector());
    buf.set(6, 0x00);
    buf.set(7, val1);
    buf.set(8, val2);
    buf.set(9, brightness);
    buf.set(10, val3);
    assert(buf@ =~= packet_spec(mode, val1, val2, val3, brightness));
    buf
}

/// Every packet starts with the preamble, has a zero at offset 6, and is zero
/// past offset 10, the last parameter; the packet depends on its inputs alone.
pub proof fn lemma_packet_layout(mode: Mode, val1: u8, val2: u8, val3: u8, brightness: u8)
    requires
        brightness <= MAX_BRIGHTNESS,
    ensures
        packet_spec(mode, val1, val2, val3, brightness).len() == PACKET_LEN,
        packet_spec(mode, val1, val2, val3, brightness).subrange(0, 5) == preamble(),
        packet_spec(mode, val1, val2, val3, brightness)[5] == mode_selector(mode),
        packet_spec(mode, val1, val2, val3, brightness)[6] == 0,
        forall|i: int|
            10 < i < PACKET_LEN ==> #[trigger] packet_spec(mode, val1, val2, val3, brightness)[i]
                == 0,
{
    assert(packet_spec(mode, val1, val2, val3, brightness).subrange(0, 5) =~= preamble());
}

/// Why a lighting command was refused.
#[derive(Clone, Copy, Debug, PartialEq, Eq, Structural)]
pub enum CommandError {
    /// The brightness level is above `MAX_BRIGHTNESS`.
    BrightnessOutOfRange(u8),
}

/// Accepts a brightness level from 0 to `MAX_BRIGHTNESS` and refuses any other.
pub fn check_brightness(value: u8) -> (r: Result<u8, CommandError>)
    ensures
        value <= MAX_BRIGHTNESS ==> r == Ok::<u8, CommandError>(value),
        value > MAX_BRIGHTNESS ==> r == Err::<u8, CommandError>(
            CommandError::BrightnessOutOfRange(value),
        ),
{
    if value <= MAX_BRIGHTNESS {
        Ok(value)
    } else {
        Err(CommandError::BrightnessOutOfRange(value))
    }
}

/// A lighting effect as the user asks for it.
#[derive(Clone, Copy, Debug, PartialEq, Eq, Structural)]
pub enum LightingCommand {
    /// Rainbow flowing effect: direction (even right, odd left) and speed
    /// (0 is slowest).
    Rainbow { direction: u8, speed: u8, brightness: u8 },
    /// One static color.
    Color { red: u8, green: u8, blue: u8, brightness: u8 },
}

/// The mode and the parameters `(val1, val2, val3, brightness)` of a command.
pub open spec fn command_fields(cmd: LightingCommand) -> (Mode, u8, u8, u8, u8) {
    match cmd {
        LightingCommand::Rainbow { direction, speed, brightness } => (
            Mode::Rainbow,
            direction,
            speed,
            0,
            brightness,
        ),
        LightingCommand::Color { red, green, blue, brightness } => (
            Mode::Color,
            red,
            green,
            blue,
            brightness,
        ),
    }
}

/// The packet that carries a command.
pub open spec fn command_packet(cmd: LightingCommand) -> Seq<u8> {
    let (mode, val1, val2, val3, brightness) = command_fields(cmd);
    packet_spec(mode, val1, val2, val3, brightness)
}

impl LightingCommand {
    /// The brightness level the command asks for.
    pub fn brightness(&self) -> (r: u8)
        ensures
            r == command_fields(*self).4,
    {
        match self {
            LightingCommand::Rainbow { brightness, .. } => *brightness,
            LightingCommand::Color { brightness, .. } => *brightness,
        }
    }

    /// The mode and the parameters `(val1, val2, val3, brightness)`: a rainbow
    /// puts direction and speed first and leaves the third at zero; a color
    /// puts red, green and blue in that order.
    pub fn fields(&self) -> (r: (Mode, u8, u8, u8, u8))
        ensures
            r == command_fields(*self),
    {
        match self {
            LightingCommand::Rainbow { direction, speed, brightness } => (
                Mode::Rainbow,
                *direction,
                *speed,
                0,
                *brightness,
            ),
            LightingCommand::Color { red, green, blue, brightness } => (
                Mode::Color,
                *red,
                *green,
                *blue,
                *brightness,
            ),
        }
    }

    /// The packet for this command, or an error where its brightness is out
    /// of range; the encoder is never reached with such a level.
    pub fn packet(&self) -> (r: Result<[u8; 64], CommandError>)
        ensures
            command_fields(*self).4 <= MAX_BRIGHTNESS ==> r is Ok && r->Ok_0@ == command_packet(
                *self,
            ),
            command_fields(*self).4 > MAX_BRIGHTNESS ==> r == Err::<[u8; 64], CommandError>(
                CommandError::BrightnessOutOfRange(command_fields(*self).4),
            ),
    {
        let (mode, val1, val2, val3, brightness) = self.fields();
        match check_brightness(brightness) {
            Ok(level) => Ok(encode_packet(mode, val1, val2, val3, level)),
            Err(e) => Err(e),
        }
    }
}

} // verus!
