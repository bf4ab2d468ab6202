//! Fixed protocol values: manufacturer identity, board addresses and command codes.
use vstd::prelude::*;

verus! {

/// First byte of the manufacturer identifier.
pub const MANUFACTURER_ID_0: u8 = 0x00;

/// Second byte of the manufacturer identifier.
pub const MANUFACTURER_ID_1: u8 = 0x21;

/// Third byte of the manufacturer identifier.
pub const MANUFACTURER_ID_2: u8 = 0x50;

/// Marker byte that a ping carries so that its echo can be recognised.
pub const TEST_ECHO: u8 = 0x7f;

/// The manufacturer identifier as a sequence of three bytes.
pub open spec fn manufacturer_id() -> Seq<u8> {
    seq![MANUFACTURER_ID_0, MANUFACTURER_ID_1, MANUFACTURER_ID_2]
}

/// Address of one board of the device: the controller itself, or one of the
/// five key matrices.
#[derive(Clone, Copy, Debug, PartialEq, Eq, Structural, Hash)]
pub enum BoardIndex {
    Server,
    Octave1,
    Octave2,
    Octave3,
    Octave4,
    Octave5,
}

/// The byte that addresses a board on the wire.
pub open spec fn board_byte(b: BoardIndex) -> u8 {
    match b {
        BoardIndex::Server => 0,
        BoardIndex::Octave1 => 1,
        BoardIndex::Octave2 => 2,
        BoardIndex::Octave3 => 3,
        BoardIndex::Octave4 => 4,
        BoardIndex::Octave5 => 5,
    }
}

impl BoardIndex {
    /// The board's wire byte.
    pub fn as_u8(self) -> (r: u8)
        ensures
            r == board_byte(self),
    {
        match self {
            BoardIndex::Server => 0,
            BoardIndex::Octave1 => 1,
            BoardIndex::Octave2 => 2,
            BoardIndex::Octave3 => 3,
            BoardIndex::Octave4 => 4,
            BoardIndex::Octave5 => 5,
        }
    }

    /// The board whose wire byte is `b`, if any.
    pub fn from_u8(b: u8) -> (r: Option<BoardIndex>)
        ensures
            b <= 5 ==> r is Some && board_byte(r->Some_0) == b,
            b > 5 ==> r is None,
    {
        match b {
            0 => Some(BoardIndex::Server),
            1 => Some(BoardIndex::Octave1),
            2 => Some(BoardIndex::Octave2),
            3 => Some(BoardIndex::Octave3),
            4 => Some(BoardIndex::Octave4),
            5 => Some(BoardIndex::Octave5),
            _ => None,
        }
    }
}

/// An operation understood by the device firmware.
#[derive(Clone, Copy, Debug, PartialEq, Eq, Structural, Hash)]
pub enum CommandId {
    ChangeKeyNote,
    SetKeyColour,
    SaveProgram,
    SetFootControllerSensitivity,
    InvertFootController,
    MacrobuttonColourOn,
    MacrobuttonColourOff,
    SetLightOnKeystrokes,
    LumaPing,
}

/// The byte that names a command on the wire.
pub open spec fn command_byte(c: CommandId) -> u8 {
    match c {
        CommandId::ChangeKeyNote => 0x00,
        CommandId::SetKeyColour => 0x01,
        CommandId::SaveProgram => 0x02,
        CommandId::SetFootControllerSensitivity => 0x03,
        CommandId::InvertFootController => 0x04,
        CommandId::MacrobuttonColourOn => 0x05,
        CommandId::MacrobuttonColourOff => 0x06,
        CommandId::SetLightOnKeystrokes => 0x07,
        CommandId::LumaPing => 0x33,
    }
}

/// Whether some command has wire byte `b`.
pub open spec fn is_command_byte(b: u8) -> bool {
    exists|c: CommandId| command_byte(c) == b
}

impl CommandId {
    /// The command's wire byte.
    pub fn as_u8(self) -> (r: u8)
        ensures
            r == command_byte(self),
    {
        match self {
            CommandId::ChangeKeyNote => 0x00,
            CommandId::SetKeyColour => 0x01,
            CommandId::SaveProgram => 0x02,
            CommandId::SetFootControllerSensitivity => 0x03,
            CommandId::InvertFootController => 0x04,
            CommandId::MacrobuttonColourOn => 0x05,
            CommandId::MacrobuttonColourOff => 0x06,
            CommandId::SetLightOnKeystrokes => 0x07,
            CommandId::LumaPing => 0x33,
        }
    }

    /// The command whose wire byte is `b`, if any.
    pub fn from_u8(b: u8) -> (r: Option<CommandId>)
        ensures
            r is Some <==> is_command_byte(b),
            r is Some ==> command_byte(r->Some_0) == b,
    {
        let r = match b {
            0x00 => Some(CommandId::ChangeKeyNote),
            0x01 => Some(CommandId::SetKeyColour),
            0x02 => Some(CommandId::SaveProgram),
            0x03 => Some(CommandId::SetFootControllerSensitivity),
            0x04 => Some(CommandId::InvertFootController),
            0x05 => Some(CommandId::MacrobuttonColourOn),
            0x06 => Some(CommandId::MacrobuttonColourOff),
            0x07 => Some(CommandId::SetLightOnKeystrokes),
            0x33 => Some(CommandId::LumaPing),
            _ => None,
        };
        proof {
            if r is Some {
                assert(command_byte(r->Some_0) == b);
            }
            if r is None {
                assert forall|c: CommandId| command_byte(c) != b by {
                    match c {
                        _ => {},
                    }
                }
            }
        }
        r
    }
}

/// Distinct commands have distinct wire bytes.
pub proof fn lemma_command_byte_injective(a: CommandId, b: CommandId)
    requires
        command_byte(a) == command_byte(b),
    ensures
        a == b,
{
}

/// Highest key index on a board: each board has 56 keys.
pub const MAX_KEY_INDEX: u8 = 55;

/// Number of keys on a board.
pub const KEYS_PER_BOARD: u8 = 56;

/// Index of a key on its board, from 0 to `MAX_KEY_INDEX`.
#[derive(Clone, Copy, Debug, PartialEq, Eq, Hash)]
pub struct LumatoneKeyIndex {
    index: u8,
}

impl LumatoneKeyIndex {
    /// The lowest key index.
    pub const MIN_VALUE: u8 = 0;

    /// The highest key index.
    pub const MAX_VALUE: u8 = 55;

    #[verifier::type_invariant]
    spec fn in_range(&self) -> bool {
        self.index <= MAX_KEY_INDEX
    }

    /// The index as a number.
    pub closed spec fn view(&self) -> nat {
        self.index as nat
    }

    /// The key index `k`, if it is in range.
    pub fn new(k: u8) -> (r: Option<LumatoneKeyIndex>)
        ensures
            k <= MAX_KEY_INDEX <==> r is Some,
            r matches Some(i) ==> i.view() == k,
    {
        if k <= MAX_KEY_INDEX {
            Some(LumatoneKeyIndex { index: k })
        } else {
            None
        }
    }

    /// The key index `k`, which the caller knows to be in range.
    pub fn unchecked(k: u8) -> (r: LumatoneKeyIndex)
        requires
            k <= MAX_KEY_INDEX,
        ensures
            r.view() == k,
    {
        LumatoneKeyIndex { index: k }
    }

    /// The index as a byte.
    pub fn get(&self) -> (r: u8)
        ensures
            r == self.view(),
            r <= MAX_KEY_INDEX,
    {
        proof {
            use_type_invariant(self);
        }
        self.index
    }
}

/// A key's place: its board and its index on that board.
#[derive(Clone, Copy, Debug, PartialEq, Eq, Hash)]
pub struct LumatoneKeyLocation(pub BoardIndex, pub LumatoneKeyIndex);

impl LumatoneKeyLocation {
    /// The key's board.
    pub fn board_index(&self) -> (r: BoardIndex)
        ensures
            r == self.0,
    {
        self.0
    }

    /// The key's index on its board.
    pub fn key_index(&self) -> (r: LumatoneKeyIndex)
        ensures
            r == self.1,
    {
        self.1
    }
}

/// The location of key `key` on the board with wire byte `board`, both known
/// to be in range.
pub fn key_loc_unchecked(board: u8, key: u8) -> (r: LumatoneKeyLocation)
    requires
        board <= 5,
        key <= MAX_KEY_INDEX,
    ensures
        board_byte(r.0) == board,
        r.1.view() == key,
{
    let b = match BoardIndex::from_u8(board) {
        Some(b) => b,
        None => BoardIndex::Server,
    };
    LumatoneKeyLocation(b, LumatoneKeyIndex::unchecked(key))
}

/// A MIDI channel, numbered from 1 to 16.
#[derive(Clone, Copy, Debug, PartialEq, Eq, Hash)]
pub struct MidiChannel {
    channel: u8,
}

impl MidiChannel {
    #[verifier::type_invariant]
    spec fn in_range(&self) -> bool {
        1 <= self.channel <= 16
    }

    /// The channel's number.
    pub closed spec fn view(&self) -> nat {
        self.channel as nat
    }

    /// Channel `n`, if it is from 1 to 16.
    pub fn new(n: u8) -> (r: Option<MidiChannel>)
        ensures
            1 <= n <= 16 <==> r is Some,
            r matches Some(c) ==> c.view() == n,
    {
        if 1 <= n && n <= 16 {
            Some(MidiChannel { channel: n })
        } else {
            None
        }
    }

    /// Channel `n`, which the caller knows to be from 1 to 16.
    pub fn unchecked(n: u8) -> (r: MidiChannel)
        requires
            1 <= n <= 16,
        ensures
            r.view() == n,
    {
        MidiChannel { channel: n }
    }

    /// The channel's number.
    pub fn get(&self) -> (r: u8)
        ensures
            r == self.view(),
            1 <= r <= 16,
    {
        proof {
            use_type_invariant(self);
        }
        self.channel
    }
}

impl Default for MidiChannel {
    /// Channel 1.
    fn default() -> (r: MidiChannel)
        ensures
            r.view() == 1,
    {
        MidiChannel { channel: 1 }
    }
}

/// A key colour, one byte each for red, green and blue.
#[derive(Clone, Copy, Debug, PartialEq, Eq, Structural, Hash)]
pub struct RGBColor(pub u8, pub u8, pub u8);

impl RGBColor {
    /// Full red.
    pub fn red() -> (r: RGBColor)
        ensures
            r == RGBColor(0xff, 0, 0),
    {
        RGBColor(0xff, 0, 0)
    }

    /// Full green.
    pub fn green() -> (r: RGBColor)
        ensures
            r == RGBColor(0, 0xff, 0),
    {
        RGBColor(0, 0xff, 0)
    }

    /// Full blue.
    pub fn blue() -> (r: RGBColor)
        ensures
            r == RGBColor(0, 0, 0xff),
    {
        RGBColor(0, 0, 0xff)
    }

    /// No light.
    pub fn black() -> (r: RGBColor)
        ensures
            r == RGBColor(0, 0, 0),
    {
        RGBColor(0, 0, 0)
    }
}

/// What a key does when it is struck.
#[derive(Clone, Copy, Debug, PartialEq, Eq, Hash)]
pub enum LumatoneKeyFunction {
    /// Sends note on and note off.
    NoteOnOff { channel: MidiChannel, note_num: u8 },
    /// Sends a continuous controller.
    ContinuousController { channel: MidiChannel, cc_num: u8, fader_up_is_null: bool },
    /// Sends a note with polyphonic pressure.
    LumaTouch { channel: MidiChannel, note_num: u8, fader_up_is_null: bool },
    /// Sends nothing.
    Disabled,
}

/// The key type code: 1 note on/off, 2 continuous controller, 3 pressure,
/// 4 disabled.
pub open spec fn key_type_code_of(f: LumatoneKeyFunction) -> u8 {
    match f {
        LumatoneKeyFunction::NoteOnOff { .. } => 1,
        LumatoneKeyFunction::ContinuousController { .. } => 2,
        LumatoneKeyFunction::LumaTouch { .. } => 3,
        LumatoneKeyFunction::Disabled => 4,
    }
}

/// The note or controller number that a key sends; 0 for a disabled key.
pub open spec fn note_or_cc_num_of(f: LumatoneKeyFunction) -> u8 {
    match f {
        LumatoneKeyFunction::NoteOnOff { channel: _, note_num } => note_num,
        LumatoneKeyFunction::ContinuousController { channel: _, cc_num, .. } => cc_num,
        LumatoneKeyFunction::LumaTouch { channel: _, note_num, .. } => note_num,
        LumatoneKeyFunction::Disabled => 0,
    }
}

/// The channel number (1 to 16) that a key sends on; 1 for a disabled key.
pub open spec fn midi_channel_of(f: LumatoneKeyFunction) -> nat {
    match f {
        LumatoneKeyFunction::NoteOnOff { channel, .. } => channel.view(),
        LumatoneKeyFunction::ContinuousController { channel, .. } => channel.view(),
        LumatoneKeyFunction::LumaTouch { channel, .. } => channel.view(),
        LumatoneKeyFunction::Disabled => 1,
    }
}

impl LumatoneKeyFunction {
    /// The key type code.
    pub fn key_type_code(&self) -> (r: u8)
        ensures
            r == key_type_code_of(*self),
    {
        match self {
            LumatoneKeyFunction::NoteOnOff { .. } => 1,
            LumatoneKeyFunction::ContinuousController { .. } => 2,
            LumatoneKeyFunction::LumaTouch { .. } => 3,
            LumatoneKeyFunction::Disabled => 4,
        }
    }

    /// The note or controller number.
    pub fn note_or_cc_num(&self) -> (r: u8)
        ensures
            r == note_or_cc_num_of(*self),
    {
        match self {
            LumatoneKeyFunction::NoteOnOff { channel: _, note_num } => *note_num,
            LumatoneKeyFunction::ContinuousController { channel: _, cc_num, .. } => *cc_num,
            LumatoneKeyFunction::LumaTouch { channel: _, note_num, .. } => *note_num,
            LumatoneKeyFunction::Disabled => 0,
        }
    }

    /// The channel number, from 1 to 16.
    pub fn midi_channel_byte(&self) -> (r: u8)
        ensures
            r == midi_channel_of(*self),
            1 <= r <= 16,
    {
        match self {
            LumatoneKeyFunction::NoteOnOff { channel, .. } => channel.get(),
            LumatoneKeyFunction::ContinuousController { channel, .. } => channel.get(),
            LumatoneKeyFunction::LumaTouch { channel, .. } => channel.get(),
            LumatoneKeyFunction::Disabled => 1,
        }
    }
}

} // verus!
