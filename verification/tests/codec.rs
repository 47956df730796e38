use flexispot_controller::flexispot::command::{
    FlexispotCommand, FlexispotCommandError, FlexispotCommandResponse, FlexispotPreset,
    COMMAND_DOWN, COMMAND_M, COMMAND_PRESET1, COMMAND_PRESET2, COMMAND_PRESET3, COMMAND_PRESET4,
    COMMAND_UP, COMMAND_WAKEUP,
};
use flexispot_controller::flexispot::query::{
    FlexispotCurrentHeight, FlexispotPacket, FlexispotQueryError, FlexispotQueryResult,
};

const ALL_COMMANDS: [FlexispotCommand; 8] = [
    FlexispotCommand::Wakeup,
    FlexispotCommand::Up,
    FlexispotCommand::Down,
    FlexispotCommand::M,
    FlexispotCommand::Preset1,
    FlexispotCommand::Preset2,
    FlexispotCommand::Preset3,
    FlexispotCommand::Preset4,
];

fn height(tenths: u32) -> FlexispotCurrentHeight {
    FlexispotCurrentHeight::from_tenths(tenths).unwrap()
}

fn as_float(height: &FlexispotCurrentHeight) -> f32 {
    height.tenths() as f32 / 10.0
}

#[test]
fn test_parse_data_bytes() {
    let bytes = &[
        0xC3, 0x9D, // broken bytes
        0x9B, 0x04, 0x11, 0x7C, 0xC3, 0x9D, // unknown
        0x9B, 0x04, 0x11, 0x7C, 0xC3, 0x9D, // unknown
        0x9B, 0x04, 0x11, 0x7C, 0xC3, 0x9D, // unknown
        0x9B, 0x07, 0x12, 0x07, 0xED, 0x6F, 0x05, 0x28, 0x9D, // 75.9
        0x9B, 0x04, 0x11, 0x7C, 0xC3, 0x9D, // unknown
        0x9B, 0x07, 0x12, 0x00, 0x00, 0x00, 0xB8, 0x94, 0x9D, // sleeping
        0x9B, // broken bytes
    ];
    let res = FlexispotQueryResult::new(bytes).parse();
    let expected = [
        FlexispotPacket::Unknown,
        FlexispotPacket::Unknown,
        FlexispotPacket::Unknown,
        FlexispotPacket::Unknown,
        FlexispotPacket::CurrentHeight(height(759)),
        FlexispotPacket::Unknown,
        FlexispotPacket::Sleep,
    ];
    assert_eq!(res, expected);
    match &res[4] {
        FlexispotPacket::CurrentHeight(found) => assert_eq!(as_float(found), 75.9),
        other => panic!("not a height: {other:?}"),
    }
}

#[test]
fn every_command_has_its_frame() {
    assert_eq!(FlexispotCommand::Wakeup.to_u8_array(), &[0x9b, 0x06, 0x02, 0x00, 0x00, 0x6c, 0xa1, 0x9d]);
    assert_eq!(FlexispotCommand::Up.to_u8_array(), &[0x9b, 0x06, 0x02, 0x01, 0x00, 0xfc, 0xa0, 0x9d]);
    assert_eq!(FlexispotCommand::Down.to_u8_array(), &[0x9b, 0x06, 0x02, 0x02, 0x00, 0x0c, 0xa0, 0x9d]);
    assert_eq!(FlexispotCommand::M.to_u8_array(), &[0x9b, 0x06, 0x02, 0x20, 0x00, 0xac, 0xb8, 0x9d]);
    assert_eq!(FlexispotCommand::Preset1.to_u8_array(), &[0x9b, 0x06, 0x02, 0x04, 0x00, 0xac, 0xa3, 0x9d]);
    assert_eq!(FlexispotCommand::Preset2.to_u8_array(), &[0x9b, 0x06, 0x02, 0x08, 0x00, 0xac, 0xa6, 0x9d]);
    assert_eq!(FlexispotCommand::Preset3.to_u8_array(), &[0x9b, 0x06, 0x02, 0x10, 0x00, 0xac, 0xac, 0x9d]);
    assert_eq!(FlexispotCommand::Preset4.to_u8_array(), &[0x9b, 0x06, 0x02, 0x00, 0x01, 0xac, 0x60, 0x9d]);
}

#[test]
fn frames_match_the_published_table() {
    assert_eq!(FlexispotCommand::Wakeup.to_u8_array(), &COMMAND_WAKEUP);
    assert_eq!(FlexispotCommand::Up.to_u8_array(), &COMMAND_UP);
    assert_eq!(FlexispotCommand::Down.to_u8_array(), &COMMAND_DOWN);
    assert_eq!(FlexispotCommand::M.to_u8_array(), &COMMAND_M);
    assert_eq!(FlexispotCommand::Preset1.to_u8_array(), &COMMAND_PRESET1);
    assert_eq!(FlexispotCommand::Preset2.to_u8_array(), &COMMAND_PRESET2);
    assert_eq!(FlexispotCommand::Preset3.to_u8_array(), &COMMAND_PRESET3);
    assert_eq!(FlexispotCommand::Preset4.to_u8_array(), &COMMAND_PRESET4);
}

#[test]
fn encoding_is_repeatable() {
    for command in ALL_COMMANDS {
        let first = command.to_u8_array().to_vec();
        let second = command.to_u8_array().to_vec();
        assert_eq!(first, second);
    }
}

#[test]
fn distinct_commands_have_distinct_frames() {
    for (i, a) in ALL_COMMANDS.iter().enumerate() {
        for (j, b) in ALL_COMMANDS.iter().enumerate() {
            if i != j {
                assert_ne!(a.to_u8_array(), b.to_u8_array(), "{a:?} and {b:?}");
            }
        }
    }
}

#[test]
fn every_frame_is_delimited_and_eight_bytes_long() {
    for command in ALL_COMMANDS {
        let frame = command.to_u8_array();
        assert_eq!(frame.len(), 8);
        assert_eq!(frame[0], 0x9b);
        assert_eq!(frame[1], 0x06);
        assert_eq!(frame[7], 0x9d);
    }
}

#[test]
fn preset_frames_are_distinct_and_fixed() {
    let frames = [
        FlexispotCommand::from(&FlexispotPreset::Preset1).to_u8_array(),
        FlexispotCommand::from(&FlexispotPreset::Preset2).to_u8_array(),
        FlexispotCommand::from(&FlexispotPreset::Preset3).to_u8_array(),
        FlexispotCommand::from(&FlexispotPreset::Preset4).to_u8_array(),
    ];
    assert_eq!(frames[0], &[0x9b, 0x06, 0x02, 0x04, 0x00, 0xac, 0xa3, 0x9d]);
    assert_eq!(frames[1], &[0x9b, 0x06, 0x02, 0x08, 0x00, 0xac, 0xa6, 0x9d]);
    assert_eq!(frames[2], &[0x9b, 0x06, 0x02, 0x10, 0x00, 0xac, 0xac, 0x9d]);
    assert_eq!(frames[3], &[0x9b, 0x06, 0x02, 0x00, 0x01, 0xac, 0x60, 0x9d]);
    for i in 0..4 {
        assert!(!frames[i].is_empty());
        for j in 0..4 {
            if i != j {
                assert_ne!(frames[i], frames[j]);
            }
        }
    }
}

#[test]
fn each_preset_maps_to_its_command() {
    assert_eq!(FlexispotCommand::from(&FlexispotPreset::Preset1), FlexispotCommand::Preset1);
    assert_eq!(FlexispotCommand::from(&FlexispotPreset::Preset2), FlexispotCommand::Preset2);
    assert_eq!(FlexispotCommand::from(&FlexispotPreset::Preset3), FlexispotCommand::Preset3);
    assert_eq!(FlexispotCommand::from(&FlexispotPreset::Preset4), FlexispotCommand::Preset4);
}

#[test]
fn a_write_that_went_out_is_a_response() {
    assert_eq!(FlexispotCommandResponse::from_write(Ok(8)), Ok(FlexispotCommandResponse {}));
    assert_eq!(FlexispotCommandResponse::from_write(Ok(0)), Ok(FlexispotCommandResponse {}));
}

#[test]
fn a_write_that_failed_keeps_the_reason() {
    assert_eq!(
        FlexispotCommandResponse::from_write(Err("I/O error: broken pipe".to_string())),
        Err(FlexispotCommandError("I/O error: broken pipe".to_string()))
    );
}

#[test]
fn every_glyph_decodes_to_its_digit() {
    let glyphs = [0x3f, 0x06, 0x5b, 0x4f, 0x66, 0x6d, 0x7c, 0x07, 0x7f, 0x6f];
    for (digit, glyph) in glyphs.iter().enumerate() {
        let found = FlexispotCurrentHeight::from_digit_bytes(&[*glyph, 0x3f, 0x3f]).unwrap();
        assert_eq!(found.tenths(), (digit as u32) * 1000);
        let found = FlexispotCurrentHeight::from_digit_bytes(&[0x3f, *glyph, 0x3f]).unwrap();
        assert_eq!(found.tenths(), (digit as u32) * 100);
        let found = FlexispotCurrentHeight::from_digit_bytes(&[0x3f, 0x3f, *glyph]).unwrap();
        assert_eq!(found.tenths(), (digit as u32) * 10);
    }
}

#[test]
fn digits_without_a_point_count_units() {
    let found = FlexispotCurrentHeight::from_digit_bytes(&[0x06, 0x5b, 0x4f]).unwrap();
    assert_eq!(found.tenths(), 1230);
    assert_eq!(as_float(&found), 123.0);
}

#[test]
fn a_point_on_the_middle_digit_divides_by_ten() {
    let found = FlexispotCurrentHeight::from_digit_bytes(&[0x06, 0x5b | 0x80, 0x4f]).unwrap();
    assert_eq!(found.tenths(), 123);
    assert_eq!(as_float(&found), 12.3);
    let found = FlexispotCurrentHeight::from_digit_bytes(&[0x07, 0xED, 0x6F]).unwrap();
    assert_eq!(found, height(759));
    assert_eq!(as_float(&found), 75.9);
}

#[test]
fn a_point_on_an_outer_digit_changes_nothing() {
    let found = FlexispotCurrentHeight::from_digit_bytes(&[0x06 | 0x80, 0x5b, 0x4f | 0x80]).unwrap();
    assert_eq!(found.tenths(), 1230);
}

#[test]
fn three_glyph_zeros_are_a_height_of_zero() {
    let found = FlexispotCurrentHeight::from_digit_bytes(&[0x3f, 0x3f, 0x3f]).unwrap();
    assert_eq!(found.tenths(), 0);
    let found = FlexispotCurrentHeight::from_digit_bytes(&[0x6f, 0x6f, 0x6f]).unwrap();
    assert_eq!(found.tenths(), 9990);
}

#[test]
fn three_zero_bytes_are_sleep() {
    assert_eq!(
        FlexispotCurrentHeight::from_digit_bytes(&[0x00, 0x00, 0x00]),
        Err(FlexispotQueryError::DeviceIsSleeped)
    );
}

#[test]
fn the_first_byte_without_a_digit_is_reported() {
    assert_eq!(
        FlexispotCurrentHeight::from_digit_bytes(&[0x00, 0x06, 0x06]),
        Err(FlexispotQueryError::InvalidDigitByte(0x00))
    );
    assert_eq!(
        FlexispotCurrentHeight::from_digit_bytes(&[0x06, 0x01, 0x02]),
        Err(FlexispotQueryError::InvalidDigitByte(0x01))
    );
    assert_eq!(
        FlexispotCurrentHeight::from_digit_bytes(&[0x06, 0x06, 0x80]),
        Err(FlexispotQueryError::InvalidDigitByte(0x80))
    );
    assert_eq!(
        FlexispotCurrentHeight::from_digit_bytes(&[0x00, 0x00, 0x80]),
        Err(FlexispotQueryError::InvalidDigitByte(0x00))
    );
}

#[test]
fn heights_are_made_only_of_what_the_display_shows() {
    assert_eq!(FlexispotCurrentHeight::from_tenths(0).map(|h| h.tenths()), Some(0));
    assert_eq!(FlexispotCurrentHeight::from_tenths(759).map(|h| h.tenths()), Some(759));
    assert_eq!(FlexispotCurrentHeight::from_tenths(999).map(|h| h.tenths()), Some(999));
    assert_eq!(FlexispotCurrentHeight::from_tenths(1000).map(|h| h.tenths()), Some(1000));
    assert_eq!(FlexispotCurrentHeight::from_tenths(9990).map(|h| h.tenths()), Some(9990));
    assert_eq!(FlexispotCurrentHeight::from_tenths(1001), None);
    assert_eq!(FlexispotCurrentHeight::from_tenths(9991), None);
    assert_eq!(FlexispotCurrentHeight::from_tenths(10000), None);
    assert_eq!(FlexispotCurrentHeight::from_tenths(u32::MAX), None);
}

#[test]
fn a_span_of_another_length_is_unknown() {
    assert_eq!(FlexispotPacket::from_bytes_without_sep(&[]), FlexispotPacket::Unknown);
    assert_eq!(
        FlexispotPacket::from_bytes_without_sep(&[0x07, 0x12, 0x07, 0xED, 0x6F, 0x05]),
        FlexispotPacket::Unknown
    );
    assert_eq!(
        FlexispotPacket::from_bytes_without_sep(&[0x07, 0x12, 0x07, 0xED, 0x6F, 0x05, 0x28, 0x00]),
        FlexispotPacket::Unknown
    );
    assert_eq!(
        FlexispotPacket::from_bytes_without_sep(&[0x07, 0x12, 0x00, 0x00, 0x00, 0xB8]),
        FlexispotPacket::Unknown
    );
}

#[test]
fn zero_digits_are_sleep_whatever_surrounds_them() {
    for filler in [0x00u8, 0x07, 0x3f, 0x80, 0xff] {
        assert_eq!(
            FlexispotPacket::from_bytes_without_sep(&[filler, filler, 0, 0, 0, filler, filler]),
            FlexispotPacket::Sleep
        );
    }
}

#[test]
fn only_the_digit_bytes_of_a_span_are_read() {
    for filler in [0x00u8, 0x12, 0x3f, 0x80, 0xff] {
        assert_eq!(
            FlexispotPacket::from_bytes_without_sep(&[filler, filler, 0x07, 0xED, 0x6F, filler, filler]),
            FlexispotPacket::CurrentHeight(height(759))
        );
    }
}

#[test]
fn a_digit_byte_without_a_digit_makes_the_span_unknown() {
    assert_eq!(
        FlexispotPacket::from_bytes_without_sep(&[0x07, 0x12, 0x01, 0xED, 0x6F, 0x05, 0x28]),
        FlexispotPacket::Unknown
    );
    assert_eq!(
        FlexispotPacket::from_bytes_without_sep(&[0x07, 0x12, 0x07, 0x80, 0x6F, 0x05, 0x28]),
        FlexispotPacket::Unknown
    );
    assert_eq!(
        FlexispotPacket::from_bytes_without_sep(&[0x07, 0x12, 0x07, 0xED, 0x00, 0x05, 0x28]),
        FlexispotPacket::Unknown
    );
}

#[test]
fn splitting_cuts_at_both_markers_and_drops_empty_pieces() {
    let result = FlexispotQueryResult::new(&[0x9b, 0x9b, 0x01, 0x9d, 0x9d, 0x02, 0x03, 0x9b, 0x04]);
    assert_eq!(result.spans(), &vec![vec![0x01], vec![0x02, 0x03], vec![0x04]]);
}

#[test]
fn splitting_nothing_gives_nothing() {
    assert!(FlexispotQueryResult::new(&[]).spans().is_empty());
    assert!(FlexispotQueryResult::new(&[0x9b]).spans().is_empty());
    assert!(FlexispotQueryResult::new(&[0x9d, 0x9b, 0x9b, 0x9d]).spans().is_empty());
    assert!(FlexispotQueryResult::new(&[]).parse().is_empty());
}

#[test]
fn a_buffer_without_markers_is_one_span() {
    let result = FlexispotQueryResult::new(&[0x07, 0x12, 0x07, 0xED, 0x6F, 0x05, 0x28]);
    assert_eq!(result.spans(), &vec![vec![0x07, 0x12, 0x07, 0xED, 0x6F, 0x05, 0x28]]);
    assert_eq!(result.parse(), [FlexispotPacket::CurrentHeight(height(759))]);
}

#[test]
fn spans_keep_the_order_of_arrival() {
    let result = FlexispotQueryResult::new(&[
        0x9b, 0x07, 0x12, 0x06, 0x5b, 0x4f, 0x05, 0x28, 0x9d, // 123
        0x9b, 0x07, 0x12, 0x00, 0x00, 0x00, 0x05, 0x28, 0x9d, // sleeping
        0x9b, 0x07, 0x12, 0x06, 0xdb, 0x4f, 0x05, 0x28, 0x9d, // 12.3
    ]);
    assert_eq!(
        result.parse(),
        [
            FlexispotPacket::CurrentHeight(height(1230)),
            FlexispotPacket::Sleep,
            FlexispotPacket::CurrentHeight(height(123)),
        ]
    );
}

#[test]
fn a_stray_marker_inside_a_frame_leaves_two_unknown_spans() {
    let result = FlexispotQueryResult::new(&[0x9b, 0x07, 0x12, 0x07, 0x9b, 0xED, 0x6F, 0x05, 0x28, 0x9d]);
    assert_eq!(result.spans(), &vec![vec![0x07, 0x12, 0x07], vec![0xED, 0x6F, 0x05, 0x28]]);
    assert_eq!(result.parse(), [FlexispotPacket::Unknown, FlexispotPacket::Unknown]);
}
