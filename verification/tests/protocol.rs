use primare_i22::commands;
use primare_i22::protocol::{
    build_frame, build_read, build_write, direct, ir_remote, parse_reply, var, FrameReader, Reply,
    CMD_READ, CMD_WRITE, DLE, ETX, STX,
};

#[test]
fn test_build_write_volume_direct() {
    // Set volume to 10 (0x0A): variable = 0x83, value = 0x0A
    let frame = build_write(direct(var::VOLUME), Some(0x0A));
    assert_eq!(frame, vec![0x02, 0x57, 0x83, 0x0A, 0x10, 0x03]);
}

#[test]
fn test_build_write_dle_escaping() {
    // If value is 0x10 (DLE), it must be doubled
    let frame = build_write(var::VOLUME, Some(DLE));
    assert_eq!(frame[4], DLE);
    assert_eq!(frame[5], DLE); // doubled
}

#[test]
fn test_parse_reply_volume() {
    // Reply: 0x02 0x03 0x28 0x10 0x03  (volume = 40)
    let raw = vec![0x02, 0x03, 0x28, 0x10, 0x03];
    let reply = parse_reply(&raw).unwrap();
    assert_eq!(reply.variable, var::VOLUME);
    assert_eq!(reply.value(), Some(0x28));
}

#[test]
fn test_parse_reply_dle_unescaping() {
    // Reply containing escaped DLE in value
    let raw = vec![0x02, 0x03, 0x10, 0x10, 0x10, 0x03];
    let reply = parse_reply(&raw).unwrap();
    assert_eq!(reply.value(), Some(0x10));
}

#[test]
fn direct_sets_high_bit() {
    assert_eq!(direct(var::STANDBY), var::STANDBY_DIRECT);
    assert_eq!(direct(var::VOLUME), 0x83);
    assert_eq!(direct(var::INPUT_NAME), var::INPUT_NAME_DIRECT);
    assert_eq!(direct(0x80), 0x80);
}

#[test]
fn build_frame_without_value() {
    assert_eq!(build_frame(CMD_WRITE, var::MUTE, None), vec![STX, CMD_WRITE, var::MUTE, DLE, ETX]);
}

#[test]
fn build_read_sends_zero() {
    assert_eq!(build_read(var::MODEL_NAME), vec![0x02, 0x52, 0x16, 0x00, 0x10, 0x03]);
}

#[test]
fn build_frame_escapes_every_dle() {
    assert_eq!(
        build_frame(DLE, DLE, Some(DLE)),
        vec![STX, DLE, DLE, DLE, DLE, DLE, DLE, DLE, ETX]
    );
}

#[test]
fn parse_reply_rejects_short_and_unframed_input() {
    assert!(parse_reply(&[0x02, 0x10, 0x03]).is_none());
    assert!(parse_reply(&[0x03, 0x03, 0x28, 0x10, 0x03]).is_none());
    // No data byte before the terminator.
    assert!(parse_reply(&[0x02, 0x10, 0x03, 0x00]).is_none());
}

#[test]
fn parse_reply_without_terminator_takes_all_bytes() {
    let reply = parse_reply(&[0x02, 0x03, 0x28, 0x29]).unwrap();
    assert_eq!(reply.variable, 0x03);
    assert_eq!(reply.values, vec![0x28, 0x29]);
}

#[test]
fn parse_reply_stops_at_terminator() {
    let reply = parse_reply(&[0x02, 0x03, 0x28, 0x10, 0x03, 0x44, 0x45]).unwrap();
    assert_eq!(reply.values, vec![0x28]);
}

#[test]
fn parse_reply_keeps_lone_dle() {
    let reply = parse_reply(&[0x02, 0x03, 0x10, 0x07, 0x10, 0x03]).unwrap();
    assert_eq!(reply.values, vec![0x10, 0x07]);
}

#[test]
fn parsing_a_built_frame_gives_its_payload_back() {
    for value in [None, Some(0x00), Some(DLE), Some(ETX), Some(0xFF)] {
        let frame = build_frame(CMD_WRITE, DLE, value);
        let reply = parse_reply(&frame).unwrap();
        assert_eq!(reply.variable, CMD_WRITE);
        let mut expected = vec![DLE];
        if let Some(v) = value {
            expected.push(v);
        }
        assert_eq!(reply.values, expected);
    }
}

#[test]
fn reply_value_and_text() {
    let reply = Reply { variable: var::MODEL_NAME, values: vec![b'I', b'2', b'2'] };
    assert_eq!(reply.value(), Some(b'I'));
    assert_eq!(reply.as_text(), Some("I22"));
    let empty = Reply { variable: var::VOLUME, values: vec![] };
    assert_eq!(empty.value(), None);
    assert_eq!(empty.as_text(), Some(""));
    let invalid = Reply { variable: var::VERSION, values: vec![0xFF, 0x41] };
    assert_eq!(invalid.as_text(), None);
}

#[test]
fn frame_reader_stops_at_end_of_built_frame() {
    let frame = build_frame(CMD_WRITE, DLE, Some(ETX));
    let mut reader = FrameReader::new();
    for (i, b) in frame.iter().enumerate() {
        let done = reader.push(*b);
        assert_eq!(done, i + 1 == frame.len());
        assert_eq!(reader.is_complete(), i + 1 == frame.len());
    }
    // Bytes after the end are not taken.
    assert!(reader.push(0x55));
    assert_eq!(reader.into_bytes(), frame);
}

#[test]
fn frame_reader_treats_doubled_dle_as_data() {
    let mut reader = FrameReader::new();
    for b in [STX, 0x03, DLE, DLE] {
        assert!(!reader.push(b));
    }
    assert!(!reader.push(ETX));
    assert!(!reader.push(DLE));
    assert!(reader.push(ETX));
    assert_eq!(reader.into_bytes(), vec![STX, 0x03, DLE, DLE, ETX, DLE, ETX]);
}

#[test]
fn command_frames() {
    assert_eq!(commands::volume_set().frame(Some(25)), vec![0x02, 0x57, 0x83, 25, 0x10, 0x03]);
    assert_eq!(commands::verbose_on().frame(None), vec![0x02, 0x57, 0x8D, 0x01, 0x10, 0x03]);
    // A given value wins over the default.
    assert_eq!(commands::power_toggle().frame(Some(0x05)), vec![0x02, 0x57, 0x01, 0x05, 0x10, 0x03]);
    assert_eq!(commands::volume_step().frame(None), vec![0x02, 0x57, 0x03, 0x10, 0x03]);
    assert_eq!(commands::model_name_read().frame(None), build_read(var::MODEL_NAME));
    assert_eq!(
        commands::input_name_by_id_read().frame(Some(3)),
        vec![0x02, CMD_READ, 0x94, 0x03, 0x10, 0x03]
    );
    assert_eq!(commands::menu_nav().frame(Some(ir_remote::STEP_UP)), vec![0x02, 0x57, 0x0F, 0x1E, 0x10, 0x03]);
    assert_eq!(commands::factory_reset().frame(None), vec![0x02, 0x57, 0x13, 0x00, 0x10, 0x03]);
    // A command byte other than read or write is sent as it is.
    let other = commands::CommandSpec { cmd: 0x41, variable: DLE, default_value: None };
    assert_eq!(other.frame(None), vec![0x02, 0x41, DLE, DLE, 0x10, 0x03]);
}

#[test]
fn command_frames_decode_to_their_payload() {
    let reply = parse_reply(&commands::dim_set().frame(Some(DLE))).unwrap();
    assert_eq!(reply.variable, CMD_WRITE);
    assert_eq!(reply.values, vec![var::DIM_DIRECT, DLE]);
}
