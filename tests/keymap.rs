use lumatone::constants::{key_loc_unchecked, LumatoneKeyFunction, LumatoneKeyIndex, MidiChannel, RGBColor};
use lumatone::keymap::{GeneralOptions, KeyDefinition, LumatoneKeyMap};

#[test]
fn test_keymap_to_ini() {
    let mut keymap = LumatoneKeyMap::new();

    keymap
        .set_key(
            key_loc_unchecked(1, 0),
            KeyDefinition {
                function: LumatoneKeyFunction::NoteOnOff {
                    channel: MidiChannel::default(),
                    note_num: 60,
                },
                color: RGBColor(0xff, 0, 0),
            },
        )
        .set_key(
            key_loc_unchecked(2, 0),
            KeyDefinition {
                function: LumatoneKeyFunction::LumaTouch {
                    channel: MidiChannel::unchecked(2),
                    note_num: 70,
                    fader_up_is_null: false,
                },
                color: RGBColor::green(),
            },
        );

    let ini = keymap.as_ini();
    let board_1 = ini.section(Some("Board1".to_string())).unwrap();
    assert_eq!(board_1.get("Key_0"), Some("60"));
    assert_eq!(board_1.get("Chan_0"), Some("1"));
    assert_eq!(board_1.get("Col_0"), Some("ff0000"));
    assert_eq!(board_1.get("KTyp_0"), None); // KTyp is only set if keytype is not NoteOnOff

    let board_2 = ini.section(Some("Board2".to_string())).unwrap();
    assert_eq!(board_2.get("Key_0"), Some("70"));
    assert_eq!(board_2.get("Chan_0"), Some("2"));
    assert_eq!(board_2.get("Col_0"), Some("00ff00"));
    assert_eq!(board_2.get("KTyp_0"), Some("3"));

    // missing keys should have KTyp == 4 (disabled), Key = 0, Chan = 1, Col = 000000
    let board_3 = ini.section(Some("Board3".to_string())).unwrap();
    assert_eq!(board_3.get("Key_10"), Some("0"));
    assert_eq!(board_3.get("Chan_10"), Some("1"));
    assert_eq!(board_3.get("Col_10"), Some("000000"));
    assert_eq!(board_3.get("KTyp_10"), Some("4"));

    let general = ini.general_section();
    assert_eq!(general.get("AfterTouchActive"), Some("0"));
    assert_eq!(general.get("LightOnKeyStrokes"), Some("0"));
    assert_eq!(general.get("InvertFootController"), Some("0"));
    assert_eq!(general.get("InvertSustain"), Some("0"));
    assert_eq!(general.get("ExprCtrlSensivity"), Some("0"));
}

#[test]
fn test_general_opts_to_ini() {
    let mut keymap = LumatoneKeyMap::new();

    keymap.set_global_options(GeneralOptions {
        after_touch_active: true,
        light_on_key_strokes: true,
        invert_foot_controller: true,
        invert_sustain: true,
        expression_controller_sensitivity: 100,
    });

    let ini = keymap.as_ini();
    let general = ini.general_section();
    assert_eq!(general.get("AfterTouchActive"), Some("1"));
    assert_eq!(general.get("LightOnKeyStrokes"), Some("1"));
    assert_eq!(general.get("InvertFootController"), Some("1"));
    assert_eq!(general.get("InvertSustain"), Some("1"));
    assert_eq!(general.get("ExprCtrlSensivity"), Some("100"));
}

#[test]
fn empty_board_writes_every_key_disabled() {
    let keymap = LumatoneKeyMap::new();
    let ini = keymap.as_ini();
    for b in 1..=5 {
        let board = ini.section(Some(format!("Board{b}"))).unwrap();
        for k in 0..=55 {
            assert_eq!(board.get(format!("Key_{k}")), Some("0"));
            assert_eq!(board.get(format!("Chan_{k}")), Some("1"));
            assert_eq!(board.get(format!("Col_{k}")), Some("000000"));
            assert_eq!(board.get(format!("KTyp_{k}")), Some("4"));
        }
        assert_eq!(board.get("Key_56"), None);
    }
    assert!(ini.section(Some("Board0".to_string())).is_none());
    assert!(ini.section(Some("Board6".to_string())).is_none());
}

#[test]
fn later_definition_replaces_earlier() {
    let mut keymap = LumatoneKeyMap::new();
    keymap
        .set_key(
            key_loc_unchecked(5, 55),
            KeyDefinition {
                function: LumatoneKeyFunction::NoteOnOff { channel: MidiChannel::unchecked(16), note_num: 1 },
                color: RGBColor::blue(),
            },
        )
        .set_key(
            key_loc_unchecked(5, 55),
            KeyDefinition {
                function: LumatoneKeyFunction::ContinuousController {
                    channel: MidiChannel::unchecked(16),
                    cc_num: 127,
                    fader_up_is_null: true,
                },
                color: RGBColor(0x12, 0xab, 0x0f),
            },
        );
    let ini = keymap.as_ini();
    let board = ini.section(Some("Board5".to_string())).unwrap();
    assert_eq!(board.get("Key_55"), Some("127"));
    assert_eq!(board.get("Chan_55"), Some("16"));
    assert_eq!(board.get("Col_55"), Some("12ab0f"));
    assert_eq!(board.get("KTyp_55"), Some("2"));
    assert_eq!(board.get("Key_54"), Some("0"));
}

#[test]
fn disabled_function_and_sensitivity_text() {
    let mut keymap = LumatoneKeyMap::new();
    keymap.set_key(
        key_loc_unchecked(4, 7),
        KeyDefinition { function: LumatoneKeyFunction::Disabled, color: RGBColor::black() },
    );
    keymap.set_global_options(GeneralOptions {
        after_touch_active: false,
        light_on_key_strokes: true,
        invert_foot_controller: false,
        invert_sustain: true,
        expression_controller_sensitivity: 7,
    });
    let ini = keymap.as_ini();
    let board = ini.section(Some("Board4".to_string())).unwrap();
    assert_eq!(board.get("Key_7"), Some("0"));
    assert_eq!(board.get("Chan_7"), Some("1"));
    assert_eq!(board.get("Col_7"), Some("000000"));
    assert_eq!(board.get("KTyp_7"), Some("4"));
    let general = ini.general_section();
    assert_eq!(general.get("LightOnKeyStrokes"), Some("1"));
    assert_eq!(general.get("InvertSustain"), Some("1"));
    assert_eq!(general.get("ExprCtrlSensivity"), Some("7"));
}

#[test]
fn key_on_controller_board_is_not_written() {
    let mut keymap = LumatoneKeyMap::new();
    keymap.set_key(
        key_loc_unchecked(0, 3),
        KeyDefinition {
            function: LumatoneKeyFunction::NoteOnOff { channel: MidiChannel::default(), note_num: 9 },
            color: RGBColor::red(),
        },
    );
    let ini = keymap.as_ini();
    assert!(ini.section(Some("Board0".to_string())).is_none());
    let board = ini.section(Some("Board1".to_string())).unwrap();
    assert_eq!(board.get("Key_3"), Some("0"));
}

#[test]
fn key_index_and_channel_ranges() {
    assert!(LumatoneKeyIndex::new(55).is_some());
    assert!(LumatoneKeyIndex::new(56).is_none());
    assert_eq!(LumatoneKeyIndex::new(12).unwrap().get(), 12);
    assert!(MidiChannel::new(0).is_none());
    assert!(MidiChannel::new(17).is_none());
    assert_eq!(MidiChannel::new(16).unwrap().get(), 16);
    assert_eq!(MidiChannel::default().get(), 1);
}
