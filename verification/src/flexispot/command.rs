//! Desk commands and the fixed frames that carry them on the serial link.

use vstd::prelude::*;
use vstd::std_specs::convert::FromSpecImpl;

verus! {

/// First byte of every frame, in both directions.
pub const FRAME_START: u8 = 0x9b;

/// Last byte of every frame, in both directions.
pub const FRAME_END: u8 = 0x9d;

/// Number of bytes in a command frame.
pub const FRAME_LEN: usize = 8;

/// Wakes the desk without moving it.
pub const COMMAND_WAKEUP: [u8; 8] = [0x9b, 0x06, 0x02, 0x00, 0x00, 0x6c, 0xa1, 0x9d];

/// Moves the desk up.
pub const COMMAND_UP: [u8; 8] = [0x9b, 0x06, 0x02, 0x01, 0x00, 0xfc, 0xa0, 0x9d];

/// Moves the desk down.
pub const COMMAND_DOWN: [u8; 8] = [0x9b, 0x06, 0x02, 0x02, 0x00, 0x0c, 0xa0, 0x9d];

/// Presses the memory key.
pub const COMMAND_M: [u8; 8] = [0x9b, 0x06, 0x02, 0x20, 0x00, 0xac, 0xb8, 0x9d];

/// Recalls the first preset.
pub const COMMAND_PRESET1: [u8; 8] = [0x9b, 0x06, 0x02, 0x04, 0x00, 0xac, 0xa3, 0x9d];

/// Recalls the second preset.
pub const COMMAND_PRESET2: [u8; 8] = [0x9b, 0x06, 0x02, 0x08, 0x00, 0xac, 0xa6, 0x9d];

/// Recalls the third preset.
pub const COMMAND_PRESET3: [u8; 8] = [0x9b, 0x06, 0x02, 0x10, 0x00, 0xac, 0xac, 0x9d];

/// Recalls the fourth preset.
pub const COMMAND_PRESET4: [u8; 8] = [0x9b, 0x06, 0x02, 0x00, 0x01, 0xac, 0x60, 0x9d];

/// One of the four stored height positions.
#[derive(Debug, Clone, Copy, PartialEq, Eq, Structural)]
pub enum FlexispotPreset {
    Preset1,
    Preset2,
    Preset3,
    Preset4,
}

/// Everything the handset can ask of the desk.
#[derive(Debug, Clone, Copy, PartialEq, Eq, Structural)]
pub enum FlexispotCommand {
    Wakeup,
    Up,
    Down,
    M,
    Preset1,
    Preset2,
    Preset3,
    Preset4,
}

impl FlexispotPreset {
    /// The command that recalls this preset.
    pub open spec fn command(self) -> FlexispotCommand {
        match self {
            FlexispotPreset::Preset1 => FlexispotCommand::Preset1,
            FlexispotPreset::Preset2 => FlexispotCommand::Preset2,
            FlexispotPreset::Preset3 => FlexispotCommand::Preset3,
            FlexispotPreset::Preset4 => FlexispotCommand::Preset4,
        }
    }
}

impl<'a> From<&'a FlexispotPreset> for FlexispotCommand {
    fn from(value: &'a FlexispotPreset) -> (command: Self) {
        match value {
            FlexispotPreset::Preset1 => Self::Preset1,
            FlexispotPreset::Preset2 => Self::Preset2,
            FlexispotPreset::Preset3 => Self::Preset3,
            FlexispotPreset::Preset4 => Self::Preset4,
        }
    }
}

impl<'a> FromSpecImpl<&'a FlexispotPreset> for FlexispotCommand {
    open spec fn obeys_from_spec() -> bool {
        true
    }

    open spec fn from_spec(value: &'a FlexispotPreset) -> Self {
        value.command()
    }
}

impl FlexispotCommand {
    /// The eight bytes that carry this command: start marker, length, two
    /// opcode bytes, two check bytes, end marker.
    pub open spec fn frame(self) -> Seq<u8> {
        match self {
            Self::Wakeup => COMMAND_WAKEUP@,
            Self::Up => COMMAND_UP@,
            Self::Down => COMMAND_DOWN@,
            Self::M => COMMAND_M@,
            Self::Preset1 => COMMAND_PRESET1@,
            Self::Preset2 => COMMAND_PRESET2@,
            Self::Preset3 => COMMAND_PRESET3@,
            Self::Preset4 => COMMAND_PRESET4@,
        }
    }

    /// The frame to put on the wire for this command.
    pub fn to_u8_array(&self) -> (frame: &'static [u8])
        ensures
            frame@ == self.frame(),
            frame@.len() == FRAME_LEN,
    {
        match self {
            Self::Wakeup => &COMMAND_WAKEUP,
            Self::Up => &COMMAND_UP,
            Self::Down => &COMMAND_DOWN,
            Self::M => &COMMAND_M,
            Self::Preset1 => &COMMAND_PRESET1,
            Self::Preset2 => &COMMAND_PRESET2,
            Self::Preset3 => &COMMAND_PRESET3,
            Self::Preset4 => &COMMAND_PRESET4,
        }
    }
}

/// Acknowledgement that a command frame went out on the serial link.
#[derive(Debug, Clone, Copy, PartialEq, Eq, Structural)]
pub struct FlexispotCommandResponse {}

/// A command that did not go out, with the transport's own words for why.
#[derive(Debug, PartialEq, Eq)]
pub struct FlexispotCommandError(pub String);

impl FlexispotCommandResponse {
    /// Turns what the transport answered to a write into the outcome of the
    /// command: any count of bytes accepted is success, and a failure keeps
    /// the transport's message unchanged.
    pub fn from_write(written: Result<usize, String>) -> (outcome: Result<
        FlexispotCommandResponse,
        FlexispotCommandError,
    >)
        ensures
            written is Ok ==> outcome is Ok,
            written matches Err(reason) ==> (outcome matches Err(error) && error.0 == reason),
    {
        match written {
            Ok(_) => Ok(FlexispotCommandResponse {  }),
            Err(reason) => Err(FlexispotCommandError(reason)),
        }
    }
}

/// Two different commands never share a frame.
pub proof fn lemma_frames_distinct(a: FlexispotCommand, b: FlexispotCommand)
    requires
        a != b,
    ensures
        a.frame() != b.frame(),
{
}

/// Every frame is delimited by the start and end markers and announces six
/// bytes after its length field.
pub proof fn lemma_frame_shape(command: FlexispotCommand)
    ensures
        command.frame().len() == FRAME_LEN,
        command.frame()[0] == FRAME_START,
        command.frame()[1] == 6,
        command.frame()[7] == FRAME_END,
{
}

} // verus!
