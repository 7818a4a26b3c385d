use midi_button::midi::{aftertouch, cc, filter_channel, note_off, note_on, pitch_bend};

#[test]
fn note_on_in_range() {
    assert_eq!(note_on(1, 35, 63), [0x90, 35, 63]);
    assert_eq!(note_on(1, 35, 0), [0x90, 35, 0]);
}

#[test]
fn note_on_clamps_data_bytes() {
    assert_eq!(note_on(1, 200, 130), [0x90, 127, 127]);
    assert_eq!(note_on(1, 127, 128), [0x90, 127, 127]);
}

#[test]
fn note_off_in_range() {
    assert_eq!(note_off(2, 60, 64), [0x81, 60, 64]);
    assert_eq!(note_off(2, 255, 255), [0x81, 127, 127]);
}

#[test]
fn cc_in_range() {
    assert_eq!(cc(16, 7, 100), [0xBF, 7, 100]);
    assert_eq!(cc(16, 130, 200), [0xBF, 127, 127]);
}

#[test]
fn aftertouch_is_two_bytes() {
    assert_eq!(aftertouch(1, 90), [0xD0, 90]);
    assert_eq!(aftertouch(1, 200), [0xD0, 127]);
}

#[test]
fn pitch_bend_splits_little_endian() {
    assert_eq!(pitch_bend(1, 16383), [0xE0, 0x7F, 0x7F]);
    assert_eq!(pitch_bend(1, 0), [0xE0, 0, 0]);
    // 300 = 2 * 128 + 44: low seven bits first.
    assert_eq!(pitch_bend(1, 300), [0xE0, 44, 2]);
    assert_eq!(pitch_bend(1, 8192), [0xE0, 0x00, 0x40]);
}

#[test]
fn pitch_bend_clamps_to_14_bits() {
    assert_eq!(pitch_bend(1, 16384), [0xE0, 0x7F, 0x7F]);
    assert_eq!(pitch_bend(1, u16::MAX), [0xE0, 0x7F, 0x7F]);
}

#[test]
fn channel_is_clamped_to_wire_nibble() {
    assert_eq!(filter_channel(1), 0);
    assert_eq!(filter_channel(16), 15);
    // Out-of-range channels clamp: 17 lands on the same nibble as 16,
    // 0 on the same nibble as 1.
    assert_eq!(filter_channel(17), filter_channel(16));
    assert_eq!(filter_channel(0), 0);
    assert_eq!(note_on(17, 35, 63), [0x9F, 35, 63]);
}
