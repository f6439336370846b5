use amos_companion::video_stream::{
    capped_dimensions, find_nal_units, flush_nal_buffer, parse_screen_size, screenrecord_command,
    take_complete_nal_units, MAX_NAL_BUFFER,
};

fn three_units() -> Vec<u8> {
    vec![0, 0, 0, 1, 0x67, 0xAA, 0, 0, 1, 0x68, 0xBB, 0, 0, 0, 1, 0x65, 0xCC, 0xDD]
}

#[test]
fn finds_units_after_both_start_code_forms() {
    let units = find_nal_units(&three_units());
    assert_eq!(units, vec![(4, 6), (9, 11), (15, 18)]);
}

#[test]
fn finds_nothing_without_start_code() {
    assert_eq!(find_nal_units(&[1, 2, 3, 4, 5]), Vec::<(usize, usize)>::new());
    assert_eq!(find_nal_units(&[]), Vec::<(usize, usize)>::new());
}

#[test]
fn start_code_at_the_very_end_is_not_a_unit() {
    // A start code needs at least one byte after it.
    assert_eq!(find_nal_units(&[0, 0, 1]), Vec::<(usize, usize)>::new());
    assert_eq!(find_nal_units(&[0, 0, 1, 0x41]), vec![(3, 4)]);
}

#[test]
fn short_trailing_start_code_stays_inside_the_unit() {
    let data = [0u8, 0, 1, 0x41, 0, 0, 0, 1];
    assert_eq!(find_nal_units(&data), vec![(3, 4)]);
}

#[test]
fn complete_units_are_emitted_in_order() {
    let mut buffer: Vec<u8> = Vec::new();
    let emitted = take_complete_nal_units(&mut buffer, &three_units());
    assert_eq!(emitted, vec![vec![0x67, 0xAA], vec![0x68, 0xBB]]);
    // The last unit may still be incomplete: it stays, with its start code.
    assert_eq!(buffer, vec![0, 0, 1, 0x65, 0xCC, 0xDD]);
}

#[test]
fn bytes_after_the_last_unit_stay_buffered() {
    let mut buffer: Vec<u8> = Vec::new();
    let emitted = take_complete_nal_units(&mut buffer, &[0, 0, 1, 0x41, 0, 0, 0, 1]);
    assert!(emitted.is_empty());
    assert_eq!(buffer, vec![0, 0, 1, 0x41, 0, 0, 0, 1]);
}

#[test]
fn units_split_across_chunks_are_joined() {
    let mut buffer: Vec<u8> = Vec::new();
    let first = take_complete_nal_units(&mut buffer, &[0, 0, 0, 1, 0x67]);
    assert!(first.is_empty());
    assert_eq!(buffer, vec![0, 0, 1, 0x67]);
    let second = take_complete_nal_units(&mut buffer, &[0xAA, 0, 0, 1, 0x68, 0xBB]);
    assert_eq!(second, vec![vec![0x67, 0xAA]]);
    assert_eq!(buffer, vec![0, 0, 1, 0x68, 0xBB]);
    let third = take_complete_nal_units(&mut buffer, &[0xCC, 0, 0, 0, 1, 0x65]);
    assert_eq!(third, vec![vec![0x68, 0xBB, 0xCC]]);
    assert_eq!(buffer, vec![0, 0, 1, 0x65]);
}

#[test]
fn buffer_without_start_code_is_kept_until_it_grows_too_large() {
    let mut buffer: Vec<u8> = vec![1, 2];
    let emitted = take_complete_nal_units(&mut buffer, &[3]);
    assert!(emitted.is_empty());
    assert_eq!(buffer, vec![1, 2, 3]);

    let mut big: Vec<u8> = vec![7u8; MAX_NAL_BUFFER];
    let emitted = take_complete_nal_units(&mut big, &[7]);
    assert!(emitted.is_empty());
    assert!(big.is_empty());

    let mut limit: Vec<u8> = vec![7u8; MAX_NAL_BUFFER - 1];
    take_complete_nal_units(&mut limit, &[7]);
    assert_eq!(limit.len(), MAX_NAL_BUFFER);
}

#[test]
fn flush_hands_out_what_is_left() {
    let mut buffer: Vec<u8> = vec![9, 8, 7];
    assert_eq!(flush_nal_buffer(&mut buffer), Some(vec![9, 8, 7]));
    assert!(buffer.is_empty());
    assert_eq!(flush_nal_buffer(&mut buffer), None);
}

#[test]
fn screen_size_is_read_from_wm_size() {
    assert_eq!(parse_screen_size("Physical size: 1440x3040\n"), (1440, 3040));
    assert_eq!(parse_screen_size("Physical size: 720x1280"), (720, 1280));
}

#[test]
fn screen_size_falls_back_to_default() {
    assert_eq!(parse_screen_size(""), (1080, 1920));
    assert_eq!(parse_screen_size("error: no devices"), (1080, 1920));
    assert_eq!(parse_screen_size("size: 10x20x30"), (1080, 1920));
    assert_eq!(parse_screen_size("size: axb"), (1080, 1920));
}

#[test]
fn dimensions_are_capped() {
    assert_eq!(capped_dimensions(1440, 3040), (1440, 1080));
    assert_eq!(capped_dimensions(2560, 720), (1920, 720));
    assert_eq!(capped_dimensions(1920, 1080), (1920, 1080));
}

#[test]
fn screenrecord_command_line() {
    assert_eq!(
        screenrecord_command(1080, 1920),
        "screenrecord --output-format=h264 --bit-rate=8000 --max-fps=30 --max-size=1280 --size=1080x1920 -"
    );
}

#[test]
fn emitted_units_are_not_kept() {
    let mut buffer: Vec<u8> = Vec::new();
    let data = [0u8, 0, 1, 0xA1, 0, 0, 1, 0xB2, 0, 0, 0, 1];
    assert_eq!(find_nal_units(&data), vec![(3, 4), (7, 8)]);
    let emitted = take_complete_nal_units(&mut buffer, &data);
    assert_eq!(emitted, vec![vec![0xA1]]);
    assert_eq!(buffer, vec![0, 0, 1, 0xB2, 0, 0, 0, 1]);
}

#[test]
fn start_code_right_after_a_start_code_gives_overlapping_units() {
    let data = [0u8, 0, 1, 0, 0, 1, 0xAA, 0xBB];
    assert_eq!(find_nal_units(&data), vec![(3, 8), (6, 8)]);
    let mut buffer: Vec<u8> = Vec::new();
    let emitted = take_complete_nal_units(&mut buffer, &data);
    assert_eq!(emitted, vec![vec![0, 0, 1, 0xAA, 0xBB]]);
    assert_eq!(buffer, vec![0, 0, 1, 0xAA, 0xBB]);
}
