use backlist::clock::{clamp_timestamp, current_timestamp};
use backlist::tasks::MAX_EPOCH_SECONDS;

#[test]
fn the_current_time_lies_in_the_supported_range() {
    let now = current_timestamp();
    assert!(1 <= now && now <= MAX_EPOCH_SECONDS);
    // and, on any machine with a sane clock, well past 2020
    assert!(now > 1_577_836_800);
}

#[test]
fn clamping_keeps_in_range_readings_and_caps_the_rest() {
    assert_eq!(clamp_timestamp(1_000_000_000), 1_000_000_000);
    assert_eq!(clamp_timestamp(1), 1);
    assert_eq!(clamp_timestamp(MAX_EPOCH_SECONDS), MAX_EPOCH_SECONDS);
    assert_eq!(clamp_timestamp(0), 1);
    assert_eq!(clamp_timestamp(-5), 1);
    assert_eq!(clamp_timestamp(i64::MAX), MAX_EPOCH_SECONDS);
}
