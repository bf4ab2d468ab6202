use lumatone::commands::{
    decode_ping, ping, save_program, set_key_function_parameters, set_key_light_parameters,
};
use lumatone::constants::{BoardIndex, CommandId, TEST_ECHO};
use lumatone::error::LumatoneMidiError;
use lumatone::sysex::{
    create_extended_key_color_sysex, create_extended_macro_color_sysex, create_sysex,
    create_sysex_toggle, encode_rgb, is_lumatone_message, message_command_id, message_payload,
    strip_sysex_markers,
};

#[test]
fn frame_layout() {
    let f = create_sysex(BoardIndex::Octave3, CommandId::SetKeyColour, vec![9, 8, 7]);
    assert_eq!(f, vec![0xf0, 0x00, 0x21, 0x50, 3, 0x01, 9, 8, 7, 0xf7]);
}

#[test]
fn frame_gives_back_command_and_payload() {
    let boards = [BoardIndex::Server, BoardIndex::Octave1, BoardIndex::Octave5];
    let cmds = [CommandId::ChangeKeyNote, CommandId::SaveProgram, CommandId::LumaPing];
    let payloads: Vec<Vec<u8>> = vec![vec![], vec![0xf7], vec![0xf0, 1, 2, 0xf7]];
    for b in boards {
        for c in cmds {
            for p in &payloads {
                let f = create_sysex(b, c, p.clone());
                assert_eq!(message_command_id(&f), Ok(c));
                assert_eq!(message_payload(&f), Ok(p.as_slice()));
            }
        }
    }
}

#[test]
fn strip_markers_edge_cases() {
    let empty: [u8; 0] = [];
    assert_eq!(strip_sysex_markers(&empty), &empty[..]);
    assert_eq!(strip_sysex_markers(&[0xf0]), &empty[..]);
    assert_eq!(strip_sysex_markers(&[0xf7]), &empty[..]);
    assert_eq!(strip_sysex_markers(&[0xf0, 0xf7]), &empty[..]);
    assert_eq!(strip_sysex_markers(&[0xf0, 1, 2, 0xf7]), &[1, 2][..]);
    assert_eq!(strip_sysex_markers(&[1, 2]), &[1, 2][..]);
    assert_eq!(strip_sysex_markers(&[0xf0, 1]), &[1][..]);
    assert_eq!(strip_sysex_markers(&[1, 0xf7]), &[1][..]);
}

#[test]
fn protocol_message_recognition() {
    assert!(!is_lumatone_message(&[]));
    assert!(!is_lumatone_message(&[0xf0, 0x00, 0x21, 0xf7]));
    assert!(!is_lumatone_message(&[0x00, 0x21]));
    assert!(is_lumatone_message(&[0xf0, 0x00, 0x21, 0x50, 0xf7]));
    assert!(is_lumatone_message(&[0x00, 0x21, 0x50]));
    assert!(!is_lumatone_message(&[0xf0, 0x00, 0x21, 0x51, 0, 0, 0xf7]));
    assert!(!is_lumatone_message(&[0xf0, 0x01, 0x21, 0x50, 0, 0, 0xf7]));
}

#[test]
fn command_id_errors() {
    assert_eq!(
        message_command_id(&[0xf0, 0x00, 0x21, 0x50, 1, 0xf7]),
        Err(LumatoneMidiError::MessageTooShort { expected: 5, actual: 4 })
    );
    assert_eq!(
        message_command_id(&[0xf0, 0x00, 0x21, 0x50, 1, 0x60, 0xf7]),
        Err(LumatoneMidiError::UnknownCommandId(0x60))
    );
    assert_eq!(
        message_payload(&[0xf0, 0x00, 0x21, 0x50, 0xf7]),
        Err(LumatoneMidiError::MessageTooShort { expected: 5, actual: 3 })
    );
}

#[test]
fn rgb_nibbles() {
    assert_eq!(encode_rgb(0xff, 0x00, 0x00), vec![0xf, 0xf, 0, 0, 0, 0]);
    assert_eq!(encode_rgb(0x12, 0xab, 0x3c), vec![0x1, 0x2, 0xa, 0xb, 0x3, 0xc]);
}

#[test]
fn key_color_frame_payload() {
    let f = set_key_light_parameters(BoardIndex::Octave1, 0, 0xff, 0x00, 0x00);
    let payload = message_payload(&f).unwrap();
    assert_eq!(payload, &[0, 0xf, 0xf, 0x0, 0x0, 0x0, 0x0][..]);
    assert_eq!(&payload[1..], &[0xf, 0xf, 0x0, 0x0, 0x0, 0x0][..]);
    assert_eq!(message_command_id(&f), Ok(CommandId::SetKeyColour));
    let g = create_extended_key_color_sysex(BoardIndex::Octave2, CommandId::SetKeyColour, 5, 1, 2, 3);
    assert_eq!(g, vec![0xf0, 0x00, 0x21, 0x50, 2, 0x01, 5, 0, 1, 0, 2, 0, 3, 0xf7]);
}

#[test]
fn macro_color_and_toggle_frames() {
    let f = create_extended_macro_color_sysex(CommandId::MacrobuttonColourOn, 0x10, 0x20, 0x30);
    assert_eq!(f, vec![0xf0, 0x00, 0x21, 0x50, 0, 0x05, 1, 0, 2, 0, 3, 0, 0xf7]);
    let t = create_sysex_toggle(BoardIndex::Server, CommandId::InvertFootController, true);
    assert_eq!(t, vec![0xf0, 0x00, 0x21, 0x50, 0, 0x04, 1, 0xf7]);
    let t = create_sysex_toggle(BoardIndex::Server, CommandId::SetLightOnKeystrokes, false);
    assert_eq!(t, vec![0xf0, 0x00, 0x21, 0x50, 0, 0x07, 0, 0xf7]);
}

#[test]
fn key_function_frame() {
    let f = set_key_function_parameters(BoardIndex::Octave2, 4, 60, 1, 1, false);
    assert_eq!(f, vec![0xf0, 0x00, 0x21, 0x50, 2, 0x00, 4, 60, 0, 1, 0xf7]);
    let f = set_key_function_parameters(BoardIndex::Octave2, 4, 60, 16, 3, true);
    assert_eq!(f, vec![0xf0, 0x00, 0x21, 0x50, 2, 0x00, 4, 60, 15, 0x13, 0xf7]);
}

#[test]
fn save_program_range() {
    assert!(matches!(
        save_program(10),
        Err(LumatoneMidiError::InvalidCommandInput(CommandId::SaveProgram, _))
    ));
    let f = save_program(9).unwrap();
    assert_eq!(message_payload(&f), Ok(&[9u8][..]));
    assert_eq!(f, vec![0xf0, 0x00, 0x21, 0x50, 0, 0x02, 9, 0xf7]);
    assert!(save_program(0).is_ok());
}

#[test]
fn ping_round_trip() {
    for v in [0u32, 1, 127, 128, 16383, 16384, 0x1fffff] {
        assert_eq!(decode_ping(&ping(v)), Ok(v));
    }
    let f = ping(0x1234);
    assert_eq!(f, vec![0xf0, 0x00, 0x21, 0x50, 0, 0x33, TEST_ECHO, 0x00, 0x24, 0x34, 0xf7]);
}

#[test]
fn ping_keeps_only_low_bits() {
    assert_eq!(decode_ping(&ping(0x200000)), Ok(0));
    assert_eq!(decode_ping(&ping(0xffff_ffff)), Ok(0x1fffff));
}

#[test]
fn decode_ping_errors() {
    let not_ours = [0xf0, 0x01, 0x02, 0x03, 0xf7];
    assert_eq!(decode_ping(&not_ours), Err(LumatoneMidiError::NotLumatoneMessage(not_ours.to_vec())));
    let wrong_cmd = save_program(1).unwrap();
    assert_eq!(
        decode_ping(&wrong_cmd),
        Err(LumatoneMidiError::UnexpectedCommandId {
            expected: CommandId::LumaPing,
            actual: CommandId::SaveProgram
        })
    );
    let short = create_sysex(BoardIndex::Server, CommandId::LumaPing, vec![TEST_ECHO, 1]);
    assert_eq!(
        decode_ping(&short),
        Err(LumatoneMidiError::MessagePayloadTooShort { expected: 4, actual: 2 })
    );
    let bad_echo = create_sysex(BoardIndex::Server, CommandId::LumaPing, vec![0x00, 1, 2, 3]);
    assert!(matches!(decode_ping(&bad_echo), Err(LumatoneMidiError::InvalidResponseMessage(_))));
    assert_eq!(
        decode_ping(&[0xf0, 0x00, 0x21, 0x50, 0xf7]),
        Err(LumatoneMidiError::MessageTooShort { expected: 5, actual: 3 })
    );
    let unknown = [0xf0, 0x00, 0x21, 0x50, 0, 0x70, 0xf7];
    assert_eq!(decode_ping(&unknown), Err(LumatoneMidiError::UnknownCommandId(0x70)));
}

#[test]
fn board_and_command_bytes() {
    assert_eq!(BoardIndex::from_u8(5), Some(BoardIndex::Octave5));
    assert_eq!(BoardIndex::from_u8(6), None);
    assert_eq!(BoardIndex::Octave4.as_u8(), 4);
    assert_eq!(CommandId::from_u8(0x33), Some(CommandId::LumaPing));
    assert_eq!(CommandId::from_u8(0x08), None);
    assert_eq!(CommandId::SaveProgram.as_u8(), 0x02);
}
