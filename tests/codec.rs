use hr_relay::codec::{clamp_sample, decode_heart_rate, sample_from_notification};
use hr_relay::config::HEART_RATE_MEASUREMENT_UUID;

#[test]
fn narrow_rate_is_second_byte() {
    assert_eq!(decode_heart_rate(&[0x00, 72]), Some(72));
    assert_eq!(decode_heart_rate(&[0x00, 255, 9, 9]), Some(255));
    assert_eq!(decode_heart_rate(&[0x16, 0]), Some(0));
}

#[test]
fn wide_rate_is_little_endian() {
    assert_eq!(decode_heart_rate(&[0x01, 0x90, 0x01]), Some(400));
    assert_eq!(decode_heart_rate(&[0x01, 0xff, 0xff]), Some(65535));
    assert_eq!(decode_heart_rate(&[0x03, 60, 0, 7]), Some(60));
}

#[test]
fn short_payloads_are_rejected() {
    assert_eq!(decode_heart_rate(&[]), None);
    assert_eq!(decode_heart_rate(&[0x00]), None);
    assert_eq!(decode_heart_rate(&[0x01, 0x50]), None);
}

#[test]
fn clamp_keeps_one_byte() {
    assert_eq!(clamp_sample(0), 0);
    assert_eq!(clamp_sample(255), 255);
    assert_eq!(clamp_sample(256), 255);
    assert_eq!(clamp_sample(400), 255);
}

#[test]
fn notification_sample_filters_and_clamps() {
    let hr = HEART_RATE_MEASUREMENT_UUID;
    assert_eq!(sample_from_notification(hr, &[0x01, 0x90, 0x01], hr), Some(255));
    assert_eq!(sample_from_notification(hr, &[0x00, 88], hr), Some(88));
    assert_eq!(sample_from_notification(hr + 1, &[0x00, 88], hr), None);
    assert_eq!(sample_from_notification(hr, &[0x01, 88], hr), None);
}
