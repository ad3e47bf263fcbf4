use cooldown_relay::format::format_remaining;
use cooldown_relay::format::u64_to_dec;
use cooldown_relay::format::wait_reply;

#[test]
fn decimal_rendering_is_exact() {
    assert_eq!(u64_to_dec(0), "0");
    assert_eq!(u64_to_dec(7), "7");
    assert_eq!(u64_to_dec(10), "10");
    assert_eq!(u64_to_dec(905), "905");
    assert_eq!(u64_to_dec(18446744073709551615), "18446744073709551615");
}

#[test]
fn remaining_wait_renders_minutes_and_seconds() {
    assert_eq!(format_remaining(400), "6m 40s");
    assert_eq!(format_remaining(0), "0m 0s");
    assert_eq!(format_remaining(59), "0m 59s");
    assert_eq!(format_remaining(60), "1m 0s");
    assert_eq!(format_remaining(900), "15m 0s");
    assert_eq!(format_remaining(3601), "60m 1s");
}

#[test]
fn wait_reply_carries_the_full_message() {
    assert_eq!(wait_reply(400), "Please wait 6m 40s");
}
