//! Building and taking apart system-exclusive frames.
//!
//! A frame on the wire is
//! `[START, manufacturer id (3 bytes), board, command, payload.., END]`.
use vstd::prelude::*;
use crate::constants::{
    lemma_command_byte_injective, board_byte, command_byte, is_command_byte, manufacturer_id, BoardIndex, CommandId,
    MANUFACTURER_ID_0, MANUFACTURER_ID_1, MANUFACTURER_ID_2,
};
use crate::error::LumatoneMidiError;

verus! {

/// Offset of the board byte in a frame whose markers are stripped.
pub const BOARD_IND: usize = 0x3;

/// Offset of the command byte in a frame whose markers are stripped.
pub const CMD_ID: usize = 0x4;

/// Offset of the payload in a frame whose markers are stripped: the header is
/// the manufacturer identifier, the board byte and the command byte.
pub const PAYLOAD_INIT: usize = 0x5;

/// Byte that opens a system-exclusive frame.
pub const SYSEX_START: u8 = 0xf0;

/// Byte that closes a system-exclusive frame.
pub const SYSEX_END: u8 = 0xf7;

/// A complete frame, markers included.
pub type EncodedSysex = Vec<u8>;

/// The frame that addresses `cmd` to `board` with the given payload.
pub open spec fn sysex_frame(board: BoardIndex, cmd: CommandId, data: Seq<u8>) -> Seq<u8> {
    seq![SYSEX_START] + manufacturer_id() + seq![board_byte(board), command_byte(cmd)] + data
        + seq![SYSEX_END]
}

/// `msg` without a leading start marker and without a trailing end marker.
pub open spec fn stripped(msg: Seq<u8>) -> Seq<u8> {
    let start: int = if msg.len() > 0 && msg[0] == SYSEX_START { 1 } else { 0 };
    let end: int = if msg.len() > start && msg[msg.len() - 1] == SYSEX_END {
        msg.len() - 1
    } else {
        msg.len() as int
    };
    msg.subrange(start, end)
}

/// Whether `msg`, once stripped, begins with the manufacturer identifier.
pub open spec fn is_protocol_message(msg: Seq<u8>) -> bool {
    let s = stripped(msg);
    s.len() >= 3 && s.subrange(0, 3) == manufacturer_id()
}

/// Builds the frame that addresses `cmd` to `board_index` with payload `data`.
pub fn create_sysex(board_index: BoardIndex, cmd: CommandId, data: Vec<u8>) -> (r: EncodedSysex)
    ensures
        r@ == sysex_frame(board_index, cmd, data@),
{
    let mut sysex: Vec<u8> = Vec::new();
    sysex.push(SYSEX_START);
    sysex.push(MANUFACTURER_ID_0);
    sysex.push(MANUFACTURER_ID_1);
    sysex.push(MANUFACTURER_ID_2);
    sysex.push(board_index.as_u8());
    sysex.push(cmd.as_u8());
    let mut i: usize = 0;
    while i < data.len()
        invariant
            i <= data@.len(),
            sysex@ == seq![SYSEX_START] + manufacturer_id() + seq![
                board_byte(board_index),
                command_byte(cmd),
            ] + data@.subrange(0, i as int),
        decreases data@.len() - i,
    {
        sysex.push(data[i]);
        i += 1;
        assert(data@.subrange(0, i as int) =~= data@.subrange(0, i - 1) + seq![data@[i - 1]]);
    }
    sysex.push(SYSEX_END);
    assert(data@.subrange(0, data@.len() as int) =~= data@);
    assert(sysex@ =~= sysex_frame(board_index, cmd, data@));
    sysex
}

/// Builds a frame whose payload is one byte: 1 for `state`, 0 otherwise.
pub fn create_sysex_toggle(board_index: BoardIndex, cmd: CommandId, state: bool) -> (r:
    EncodedSysex)
    ensures
        r@ == sysex_frame(board_index, cmd, seq![if state { 1u8 } else { 0u8 }]),
{
    let s: u8 = if state {
        1
    } else {
        0
    };
    let data = vec![s];
    assert(data@ =~= seq![s]);
    create_sysex(board_index, cmd, data)
}

/// The six nibbles of a colour, high nibble before low, red, then green, then blue.
pub open spec fn rgb_nibbles(red: u8, green: u8, blue: u8) -> Seq<u8> {
    seq![
        (red / 16) as u8,
        (red % 16) as u8,
        (green / 16) as u8,
        (green % 16) as u8,
        (blue / 16) as u8,
        (blue % 16) as u8,
    ]
}

/// Splits each colour channel into its high and low nibble, each in `0..=15`.
///
/// Only the eight bits of each channel are carried; the device puts a channel
/// back together as `(hi << 4) | lo`.
pub fn encode_rgb(red: u8, green: u8, blue: u8) -> (r: Vec<u8>)
    ensures
        r@ == rgb_nibbles(red, green, blue),
        forall|i: int| 0 <= i < r@.len() ==> r@[i] <= 15,
{
    let red_hi = red >> 4;
    let red_lo = red & 0xf;
    let green_hi = green >> 4;
    let green_lo = green & 0xf;
    let blue_hi = blue >> 4;
    let blue_lo = blue & 0xf;
    assert(red >> 4 == red / 16 && red & 0xf == red % 16) by (bit_vector);
    assert(green >> 4 == green / 16 && green & 0xf == green % 16) by (bit_vector);
    assert(blue >> 4 == blue / 16 && blue & 0xf == blue % 16) by (bit_vector);
    let r = vec![red_hi, red_lo, green_hi, green_lo, blue_hi, blue_lo];
    assert(r@ =~= rgb_nibbles(red, green, blue));
    r
}

/// Builds a frame that sets the colour of one key.
pub fn create_extended_key_color_sysex(
    board_index: BoardIndex,
    cmd: CommandId,
    key_index: u8,
    red: u8,
    green: u8,
    blue: u8,
) -> (r: EncodedSysex)
    ensures
        r@ == sysex_frame(board_index, cmd, seq![key_index] + rgb_nibbles(red, green, blue)),
{
    let mut colors = encode_rgb(red, green, blue);
    let mut data = vec![key_index];
    data.append(&mut colors);
    assert(data@ =~= seq![key_index] + rgb_nibbles(red, green, blue));
    create_sysex(board_index, cmd, data)
}

/// Builds a frame addressed to the controller that sets a macro button colour.
pub fn create_extended_macro_color_sysex(cmd: CommandId, red: u8, green: u8, blue: u8) -> (r:
    EncodedSysex)
    ensures
        r@ == sysex_frame(BoardIndex::Server, cmd, rgb_nibbles(red, green, blue)),
{
    let colors = encode_rgb(red, green, blue);
    create_sysex(BoardIndex::Server, cmd, colors)
}

/// Removes a leading start marker and a trailing end marker, where present.
/// An empty input gives an empty result.
pub fn strip_sysex_markers<'a>(msg: &'a [u8]) -> (r: &'a [u8])
    ensures
        r@ == stripped(msg@),
{
    if msg.len() == 0 {
        return msg;
    }
    let start: usize = if msg[0] == SYSEX_START {
        1
    } else {
        0
    };
    let end: usize = if msg.len() > start && msg[msg.len() - 1] == SYSEX_END {
        msg.len() - 1
    } else {
        msg.len()
    };
    &msg[start..end]
}

/// Whether `msg` is a frame of this protocol: once stripped, it is at least
/// three bytes long and begins with the manufacturer identifier.
pub fn is_lumatone_message(msg: &[u8]) -> (r: bool)
    ensures
        r == is_protocol_message(msg@),
{
    let msg = strip_sysex_markers(msg);
    if msg.len() < 3 {
        return false;
    }
    let r = msg[0] == MANUFACTURER_ID_0 && msg[1] == MANUFACTURER_ID_1 && msg[2]
        == MANUFACTURER_ID_2;
    assert(r == (msg@.subrange(0, 3) =~= manufacturer_id()));
    r
}

/// The payload of a frame, once stripped: what follows the command byte.
/// None where the frame is shorter than its header.
pub open spec fn payload_of(msg: Seq<u8>) -> Option<Seq<u8>> {
    let s = stripped(msg);
    if s.len() < PAYLOAD_INIT {
        None
    } else {
        Some(s.subrange(PAYLOAD_INIT as int, s.len() as int))
    }
}

/// The command that a frame carries, or why it carries none.
pub open spec fn command_of(msg: Seq<u8>) -> Result<CommandId, LumatoneMidiError> {
    let s = stripped(msg);
    if s.len() <= CMD_ID {
        Err(LumatoneMidiError::MessageTooShort { expected: (CMD_ID + 1) as usize, actual: s.len() as usize })
    } else if is_command_byte(s[CMD_ID as int]) {
        Ok(choose|c: CommandId| command_byte(c) == s[CMD_ID as int])
    } else {
        Err(LumatoneMidiError::UnknownCommandId(s[CMD_ID as int]))
    }
}

/// The payload of a frame: what follows the command byte, end marker excluded.
pub fn message_payload<'a>(msg: &'a [u8]) -> (r: Result<&'a [u8], LumatoneMidiError>)
    ensures
        r is Ok <==> payload_of(msg@) is Some,
        r is Ok ==> r->Ok_0@ == payload_of(msg@)->Some_0,
        r is Err ==> r->Err_0 == (LumatoneMidiError::MessageTooShort {
            expected: PAYLOAD_INIT,
            actual: stripped(msg@).len() as usize,
        }),
{
    let msg = strip_sysex_markers(msg);
    if msg.len() < PAYLOAD_INIT {
        return Err(LumatoneMidiError::MessageTooShort { expected: PAYLOAD_INIT, actual: msg.len() });
    }
    Ok(&msg[PAYLOAD_INIT..msg.len()])
}

/// The command that a frame carries.
pub fn message_command_id(msg: &[u8]) -> (r: Result<CommandId, LumatoneMidiError>)
    ensures
        r == command_of(msg@),
{
    let msg = strip_sysex_markers(msg);
    if msg.len() <= CMD_ID {
        return Err(LumatoneMidiError::MessageTooShort { expected: CMD_ID + 1, actual: msg.len() });
    }
    let cmd_id = msg[CMD_ID];
    match CommandId::from_u8(cmd_id) {
        Some(cmd) => {
            let ghost c = choose|c: CommandId| command_byte(c) == cmd_id;
            proof {
                lemma_command_byte_injective(c, cmd);
            }
            Ok(cmd)
        },
        None => Err(LumatoneMidiError::UnknownCommandId(cmd_id)),
    }
}

/// Bytes that, once stripped, are shorter than three bytes, or do not begin
/// with the manufacturer identifier, are no frame of this protocol.
pub proof fn lemma_foreign_bytes_rejected(msg: Seq<u8>, i: int)
    requires
        stripped(msg).len() < 3 || (0 <= i < 3 && stripped(msg).len() >= 3 && stripped(msg)[i]
            != manufacturer_id()[i]),
    ensures
        !is_protocol_message(msg),
{
    if stripped(msg).len() >= 3 {
        assert(stripped(msg).subrange(0, 3)[i] == stripped(msg)[i]);
    }
}

/// A frame built from a board, a command and a payload gives back that command
/// and that payload.
pub proof fn lemma_frame_round_trip(board: BoardIndex, cmd: CommandId, data: Seq<u8>)
    ensures
        command_of(sysex_frame(board, cmd, data)) == Ok::<CommandId, LumatoneMidiError>(cmd),
        payload_of(sysex_frame(board, cmd, data)) == Some(data),
{
    let f = sysex_frame(board, cmd, data);
    let body = manufacturer_id() + seq![board_byte(board), command_byte(cmd)] + data;
    assert(manufacturer_id().len() == 3);
    assert(body.len() == data.len() + 5);
    assert(stripped(f) =~= body);
    assert(body[CMD_ID as int] == command_byte(cmd));
    let c = choose|c: CommandId| command_byte(c) == command_byte(cmd);
    lemma_command_byte_injective(c, cmd);
    assert(body.subrange(PAYLOAD_INIT as int, body.len() as int) =~= data);
}

} // verus!
