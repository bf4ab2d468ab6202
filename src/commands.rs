//! Encoders for individual device commands, and the decoder of a ping's echo.
use vstd::prelude::*;
use crate::constants::{BoardIndex, CommandId, TEST_ECHO};
use crate::error::LumatoneMidiError;
use crate::sysex::{
    command_of, create_extended_key_color_sysex, create_sysex, is_lumatone_message,
    is_protocol_message, lemma_frame_round_trip, message_command_id, message_payload,
    payload_of, rgb_nibbles, stripped, sysex_frame, EncodedSysex,
};

verus! {

/// The type byte of a key: the key type code, with bit 4 set when the fader's
/// up position counts as null.
pub open spec fn key_type_byte(key_type: u8, fader_up_is_null: bool) -> u8 {
    if fader_up_is_null {
        key_type | 16u8
    } else {
        key_type
    }
}

/// Sets the function of one key: its note or controller number, its channel
/// (1 to 16, sent zero-based) and its type.
pub fn set_key_function_parameters(
    board_index: BoardIndex,
    key_index: u8,
    note_or_cc_num: u8,
    midi_channel: u8,
    key_type: u8,
    fader_up_is_null: bool,
) -> (r: EncodedSysex)
    requires
        1 <= midi_channel <= 16,
    ensures
        r@ == sysex_frame(
            board_index,
            CommandId::ChangeKeyNote,
            seq![
                key_index,
                note_or_cc_num,
                (midi_channel - 1) as u8,
                key_type_byte(key_type, fader_up_is_null),
            ],
        ),
{
    let zero_based: u8 = midi_channel - 1;
    let channel = zero_based & 0xf;
    assert(zero_based & 0xf == zero_based) by (bit_vector)
        requires
            zero_based <= 15,
    ;
    let type_byte: u8 = if fader_up_is_null {
        (1 << 4) | key_type
    } else {
        key_type
    };
    assert((1u8 << 4u8) | key_type == key_type | 16u8) by (bit_vector);
    let data = vec![key_index, note_or_cc_num, channel, type_byte];
    assert(data@ =~= seq![
        key_index,
        note_or_cc_num,
        (midi_channel - 1) as u8,
        key_type_byte(key_type, fader_up_is_null),
    ]);
    create_sysex(board_index, CommandId::ChangeKeyNote, data)
}

/// Sets the colour of one key, each channel split into two nibbles.
pub fn set_key_light_parameters(board_index: BoardIndex, key_index: u8, red: u8, green: u8, blue: u8)
    -> (r: EncodedSysex)
    ensures
        r@ == sysex_frame(
            board_index,
            CommandId::SetKeyColour,
            seq![key_index] + rgb_nibbles(red, green, blue),
        ),
{
    create_extended_key_color_sysex(board_index, CommandId::SetKeyColour, key_index, red, green, blue)
}

/// Saves the current configuration to preset button `preset_number` (0 to 9).
pub fn save_program(preset_number: u8) -> (r: Result<EncodedSysex, LumatoneMidiError>)
    ensures
        preset_number > 9 <==> r is Err,
        r is Err ==> r->Err_0 matches LumatoneMidiError::InvalidCommandInput(
            CommandId::SaveProgram,
            _,
        ),
        r is Ok ==> r->Ok_0@ == sysex_frame(
            BoardIndex::Server,
            CommandId::SaveProgram,
            seq![preset_number],
        ),
{
    if preset_number > 9 {
        return Err(
            LumatoneMidiError::InvalidCommandInput(
                CommandId::SaveProgram,
                "invalid input: max preset number is 9".to_string(),
            ),
        );
    }
    Ok(create_sysex(BoardIndex::Server, CommandId::SaveProgram, vec![preset_number]))
}

/// The payload of a ping: the echo flag, then bits 20..14, 13..7 and 6..0 of
/// the value. Of the 28 bits that the value is first cut to, only the low 21
/// fit in three seven-bit bytes.
pub open spec fn ping_payload(value: u32) -> Seq<u8> {
    let v = value & 0xfffffffu32;
    seq![
        TEST_ECHO,
        ((v >> 14u32) & 0x7fu32) as u8,
        ((v >> 7u32) & 0x7fu32) as u8,
        (v & 0x7fu32) as u8,
    ]
}

/// The value that an echo payload carries: three bytes, shifted into place.
pub open spec fn ping_value(p: Seq<u8>) -> u32 {
    ((p[1] as u32) << 14u32) | ((p[2] as u32) << 7u32) | (p[3] as u32)
}

/// Builds a ping addressed to the controller, carrying `value`.
pub fn ping(value: u32) -> (r: EncodedSysex)
    ensures
        r@ == sysex_frame(BoardIndex::Server, CommandId::LumaPing, ping_payload(value)),
{
    let val = value & 0xfffffff;
    let data = vec![
        TEST_ECHO,
        ((val >> 14) & 0x7f) as u8,
        ((val >> 7) & 0x7f) as u8,
        (val & 0x7f) as u8,
    ];
    assert(data@ =~= ping_payload(value));
    create_sysex(BoardIndex::Server, CommandId::LumaPing, data)
}

/// Reads a frame as the echo of a ping and returns the value it carries.
pub fn decode_ping(msg: &[u8]) -> (r: Result<u32, LumatoneMidiError>)
    ensures
        !is_protocol_message(msg@) ==> r is Err && r->Err_0 is NotLumatoneMessage
            && r->Err_0->NotLumatoneMessage_0@ == msg@,
        is_protocol_message(msg@) && command_of(msg@) is Err ==> r == Err::<
            u32,
            LumatoneMidiError,
        >(command_of(msg@)->Err_0),
        is_protocol_message(msg@) && command_of(msg@) is Ok && command_of(msg@)->Ok_0
            != CommandId::LumaPing ==> r == Err::<u32, LumatoneMidiError>(
            LumatoneMidiError::UnexpectedCommandId {
                expected: CommandId::LumaPing,
                actual: command_of(msg@)->Ok_0,
            },
        ),
        is_protocol_message(msg@) && command_of(msg@) == Ok::<CommandId, LumatoneMidiError>(
            CommandId::LumaPing,
        ) ==> ({
            let p = payload_of(msg@)->Some_0;
            &&& payload_of(msg@) is Some
            &&& p.len() < 4 ==> r == Err::<u32, LumatoneMidiError>(
                LumatoneMidiError::MessagePayloadTooShort { expected: 4, actual: p.len() as usize },
            )
            &&& p.len() >= 4 && p[0] != TEST_ECHO ==> (r is Err
                && r->Err_0 is InvalidResponseMessage)
            &&& p.len() >= 4 && p[0] == TEST_ECHO ==> r == Ok::<u32, LumatoneMidiError>(
                ping_value(p),
            )
        }),
{
    if !is_lumatone_message(msg) {
        return Err(LumatoneMidiError::NotLumatoneMessage(vstd::slice::slice_to_vec(msg)));
    }
    let cmd_id = match message_command_id(msg) {
        Ok(c) => c,
        Err(e) => return Err(e),
    };
    if cmd_id != CommandId::LumaPing {
        return Err(
            LumatoneMidiError::UnexpectedCommandId { expected: CommandId::LumaPing, actual: cmd_id },
        );
    }
    let payload = match message_payload(msg) {
        Ok(p) => p,
        Err(e) => return Err(e),
    };
    if payload.len() < 4 {
        return Err(
            LumatoneMidiError::MessagePayloadTooShort { expected: 4, actual: payload.len() },
        );
    }
    if payload[0] != TEST_ECHO {
        return Err(
            LumatoneMidiError::InvalidResponseMessage(
                "ping response has invalid echo flag value".to_string(),
            ),
        );
    }
    let value: u32 = ((payload[1] as u32) << 14) | ((payload[2] as u32) << 7) | (payload[3] as u32);
    Ok(value)
}

/// The echo of a ping carries the value back, for values of up to 21 bits:
/// these are the bits that the three seven-bit bytes of a ping can hold.
pub proof fn lemma_ping_round_trip(value: u32)
    requires
        value < 0x200000,
    ensures
        is_protocol_message(sysex_frame(BoardIndex::Server, CommandId::LumaPing, ping_payload(value))),
        command_of(sysex_frame(BoardIndex::Server, CommandId::LumaPing, ping_payload(value)))
            == Ok::<CommandId, LumatoneMidiError>(CommandId::LumaPing),
        payload_of(sysex_frame(BoardIndex::Server, CommandId::LumaPing, ping_payload(value)))
            == Some(ping_payload(value)),
        ping_payload(value)[0] == TEST_ECHO,
        ping_value(ping_payload(value)) == value,
{
    let p = ping_payload(value);
    let f = sysex_frame(BoardIndex::Server, CommandId::LumaPing, p);
    lemma_frame_round_trip(BoardIndex::Server, CommandId::LumaPing, p);
    assert(stripped(f).subrange(0, 3) =~= crate::constants::manufacturer_id());
    let v = value & 0xfffffffu32;
    assert(v == value) by (bit_vector)
        requires
            value < 0x200000u32,
            v == value & 0xfffffffu32,
    ;
    let a = ((v >> 14u32) & 0x7fu32) as u8;
    let b = ((v >> 7u32) & 0x7fu32) as u8;
    let c = (v & 0x7fu32) as u8;
    assert(((v >> 14u32) & 0x7fu32) as u8 as u32 == (v >> 14u32) & 0x7fu32) by (bit_vector);
    assert(((v >> 7u32) & 0x7fu32) as u8 as u32 == (v >> 7u32) & 0x7fu32) by (bit_vector);
    assert((v & 0x7fu32) as u8 as u32 == v & 0x7fu32) by (bit_vector);
    assert((((v >> 14u32) & 0x7fu32) << 14u32) | (((v >> 7u32) & 0x7fu32) << 7u32) | (v & 0x7fu32)
        == v) by (bit_vector)
        requires
            v < 0x200000u32,
    ;
}

} // verus!
