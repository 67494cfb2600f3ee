use frame_runner::constants::{ConfigError, ShaderConstants, SIZE_BYTES, WORD_COUNT};
use frame_runner::scalar::Scalar;

fn s(v: f32) -> Scalar {
    Scalar::from_bits(v.to_bits())
}

fn sample() -> ShaderConstants {
    ShaderConstants {
        width: 1280,
        height: 720,
        time: s(1.5),
        cursor_x: s(10.0),
        cursor_y: s(20.0),
        drag_start_x: s(3.0),
        drag_start_y: s(4.0),
        drag_end_x: s(10.0),
        drag_end_y: s(20.0),
        mouse_left_pressed: true,
        mouse_left_clicked: false,
    }
}

#[test]
fn block_is_eleven_words_and_forty_four_bytes() {
    assert_eq!(WORD_COUNT, 11);
    assert_eq!(SIZE_BYTES, 44);
    assert_eq!(sample().to_words().len(), 11);
    assert_eq!(sample().to_bytes().len(), 44);
}

#[test]
fn words_are_in_field_order() {
    let w = sample().to_words();
    assert_eq!(
        w,
        [
            1280,
            720,
            1.5f32.to_bits(),
            10.0f32.to_bits(),
            20.0f32.to_bits(),
            3.0f32.to_bits(),
            4.0f32.to_bits(),
            10.0f32.to_bits(),
            20.0f32.to_bits(),
            1,
            0,
        ]
    );
}

#[test]
fn flags_take_a_whole_word_each() {
    let mut c = sample();
    c.mouse_left_pressed = false;
    c.mouse_left_clicked = true;
    let w = c.to_words();
    assert_eq!(w[9], 0);
    assert_eq!(w[10], 1);
    let b = c.to_bytes();
    assert_eq!(&b[36..40], &[0, 0, 0, 0]);
    assert_eq!(&b[40..44], &[1, 0, 0, 0]);
}

#[test]
fn bytes_are_little_endian_words() {
    let c = sample();
    let words = c.to_words();
    let bytes = c.to_bytes();
    let mut expected: Vec<u8> = Vec::new();
    for w in words {
        expected.extend_from_slice(&w.to_le_bytes());
    }
    assert_eq!(bytes, expected);
    assert_eq!(&bytes[0..4], &[0x00, 0x05, 0x00, 0x00]);
    assert_eq!(&bytes[4..8], &[0xd0, 0x02, 0x00, 0x00]);
    assert_eq!(&bytes[8..12], &[0x00, 0x00, 0xc0, 0x3f]);
}

#[test]
fn bytes_of_extreme_words() {
    let mut c = sample();
    c.width = 0xffff_ffff;
    c.height = 0x0102_0304;
    let bytes = c.to_bytes();
    assert_eq!(&bytes[0..4], &[0xff, 0xff, 0xff, 0xff]);
    assert_eq!(&bytes[4..8], &[0x04, 0x03, 0x02, 0x01]);
}

#[test]
fn words_round_trip() {
    let c = sample();
    assert_eq!(ShaderConstants::from_words(&c.to_words()), Some(c));
    let mut d = c;
    d.mouse_left_clicked = true;
    d.time = s(-0.0);
    assert_eq!(ShaderConstants::from_words(&d.to_words()), Some(d));
}

#[test]
fn bytes_round_trip() {
    let c = sample();
    assert_eq!(ShaderConstants::from_bytes(&c.to_bytes()), Some(c));
    let mut d = c;
    d.width = 0xdead_beef;
    d.cursor_x = s(f32::MAX);
    assert_eq!(ShaderConstants::from_bytes(&d.to_bytes()), Some(d));
}

#[test]
fn from_words_refuses_wrong_length() {
    let w = sample().to_words();
    assert_eq!(ShaderConstants::from_words(&w[..10]), None);
    assert_eq!(ShaderConstants::from_words(&[]), None);
    let mut longer = w.to_vec();
    longer.push(0);
    assert_eq!(ShaderConstants::from_words(&longer), None);
}

#[test]
fn from_words_refuses_flag_words_other_than_zero_and_one() {
    let mut w = sample().to_words();
    w[9] = 2;
    assert_eq!(ShaderConstants::from_words(&w), None);
    let mut w = sample().to_words();
    w[10] = 0xffff_ffff;
    assert_eq!(ShaderConstants::from_words(&w), None);
}

#[test]
fn from_bytes_refuses_wrong_length_and_bad_flags() {
    let b = sample().to_bytes();
    assert_eq!(ShaderConstants::from_bytes(&b[..43]), None);
    assert_eq!(ShaderConstants::from_bytes(&[]), None);
    let mut bad = b.clone();
    bad[37] = 1;
    assert_eq!(ShaderConstants::from_bytes(&bad), None);
    let mut bad = b.clone();
    bad[40] = 2;
    assert_eq!(ShaderConstants::from_bytes(&bad), None);
}

#[test]
fn limit_check_passes_from_forty_four_bytes_on() {
    assert_eq!(ShaderConstants::check_push_constant_limit(44), Ok(()));
    assert_eq!(ShaderConstants::check_push_constant_limit(256), Ok(()));
    assert_eq!(ShaderConstants::check_push_constant_limit(u32::MAX), Ok(()));
}

#[test]
fn limit_check_fails_below_forty_four_bytes() {
    assert_eq!(
        ShaderConstants::check_push_constant_limit(43),
        Err(ConfigError::PushConstantsExceedLimit { required: 44, limit: 43 })
    );
    assert_eq!(
        ShaderConstants::check_push_constant_limit(0),
        Err(ConfigError::PushConstantsExceedLimit { required: 44, limit: 0 })
    );
}
