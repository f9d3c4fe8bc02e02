use autoclicker::button::{validate_button, MouseButton};
use autoclicker::error::ClickError;
use autoclicker::interval::{
    press_duration, release_duration, validate_interval, MAX_INTERVAL_MS, MIN_INTERVAL_MS,
};
use autoclicker::text::decimal_string;

#[test]
fn interval_bounds_are_ten_and_ten_thousand() {
    assert_eq!(MIN_INTERVAL_MS, 10);
    assert_eq!(MAX_INTERVAL_MS, 10000);
}

#[test]
fn interval_within_bounds_comes_back_unchanged() {
    assert_eq!(validate_interval(10), Ok(10));
    assert_eq!(validate_interval(11), Ok(11));
    assert_eq!(validate_interval(20), Ok(20));
    assert_eq!(validate_interval(9999), Ok(9999));
    assert_eq!(validate_interval(10000), Ok(10000));
}

#[test]
fn every_interval_within_bounds_is_accepted() {
    let mut ms: u64 = 10;
    while ms <= 10000 {
        assert_eq!(validate_interval(ms), Ok(ms));
        ms += 1;
    }
}

#[test]
fn interval_below_minimum_is_too_small() {
    assert_eq!(
        validate_interval(9),
        Err(ClickError::IntervalTooSmall { interval_ms: 9 })
    );
    assert_eq!(
        validate_interval(0),
        Err(ClickError::IntervalTooSmall { interval_ms: 0 })
    );
}

#[test]
fn interval_above_maximum_is_too_large() {
    assert_eq!(
        validate_interval(10001),
        Err(ClickError::IntervalTooLarge { interval_ms: 10001 })
    );
    assert_eq!(
        validate_interval(u64::MAX),
        Err(ClickError::IntervalTooLarge { interval_ms: u64::MAX })
    );
}

#[test]
fn interval_error_messages_name_value_and_bound() {
    assert_eq!(
        validate_interval(5).unwrap_err().message(),
        "Interval too small: 5ms. Minimum is 10ms"
    );
    assert_eq!(
        validate_interval(0).unwrap_err().message(),
        "Interval too small: 0ms. Minimum is 10ms"
    );
    assert_eq!(
        validate_interval(10001).unwrap_err().message(),
        "Interval too large: 10001ms. Maximum is 10000ms"
    );
    assert_eq!(
        validate_interval(u64::MAX).unwrap_err().message(),
        "Interval too large: 18446744073709551615ms. Maximum is 10000ms"
    );
}

#[test]
fn the_three_button_names_are_accepted() {
    assert_eq!(validate_button("Left"), Ok(MouseButton::Left));
    assert_eq!(validate_button("Middle"), Ok(MouseButton::Middle));
    assert_eq!(validate_button("Right"), Ok(MouseButton::Right));
}

#[test]
fn button_names_are_case_sensitive() {
    for name in ["left", "LEFT", "middle", "right", "rIGHT"] {
        assert_eq!(
            validate_button(name),
            Err(ClickError::InvalidButton { name: name.to_string() })
        );
    }
}

#[test]
fn other_button_names_are_rejected() {
    for name in ["Top", "", " Left", "Left ", "Lef", "Leftt", "Middle\n", "Unknown", "Ri\u{e9}ght"] {
        assert_eq!(
            validate_button(name),
            Err(ClickError::InvalidButton { name: name.to_string() })
        );
    }
}

#[test]
fn button_error_message_names_value_and_allowed_set() {
    assert_eq!(
        validate_button("left").unwrap_err().message(),
        "Invalid button type 'left'. Must be one of: [\"Left\", \"Middle\", \"Right\"]"
    );
    assert_eq!(
        validate_button("").unwrap_err().message(),
        "Invalid button type ''. Must be one of: [\"Left\", \"Middle\", \"Right\"]"
    );
    let message = validate_button("Top").unwrap_err().message();
    assert_eq!(&message[21..24], "Top");
}

#[test]
fn button_error_message_matches_std_formatting() {
    let allowed = ["Left", "Middle", "Right"];
    for name in ["x", "Top", "left", "a'b", "\"quoted\""] {
        assert_eq!(
            validate_button(name).unwrap_err().message(),
            format!("Invalid button type '{}'. Must be one of: {:?}", name, allowed)
        );
    }
}

#[test]
fn button_names_round_trip() {
    for button in [MouseButton::Left, MouseButton::Middle, MouseButton::Right] {
        assert_eq!(validate_button(button.name()), Ok(button));
    }
    assert_eq!(MouseButton::Left.name(), "Left");
    assert_eq!(MouseButton::Middle.name(), "Middle");
    assert_eq!(MouseButton::Right.name(), "Right");
}

#[test]
fn already_running_message() {
    assert_eq!(
        ClickError::AlreadyRunning.message(),
        "Autoclicker is already running"
    );
}

#[test]
fn decimal_string_writes_base_ten() {
    assert_eq!(decimal_string(0), "0");
    assert_eq!(decimal_string(7), "7");
    assert_eq!(decimal_string(9), "9");
    assert_eq!(decimal_string(10), "10");
    assert_eq!(decimal_string(99), "99");
    assert_eq!(decimal_string(100), "100");
    assert_eq!(decimal_string(10000), "10000");
    assert_eq!(decimal_string(1234567890), "1234567890");
    assert_eq!(decimal_string(u64::MAX), "18446744073709551615");
}

#[test]
fn decimal_string_matches_std_formatting() {
    let mut n: u64 = 0;
    while n < 2000 {
        assert_eq!(decimal_string(n), format!("{}", n));
        n += 1;
    }
    let mut n: u64 = 1;
    while n < u64::MAX / 7 {
        assert_eq!(decimal_string(n), format!("{}", n));
        assert_eq!(decimal_string(n - 1), format!("{}", n - 1));
        n *= 7;
    }
}

#[test]
fn phases_split_the_interval() {
    assert_eq!((press_duration(10), release_duration(10)), (5, 5));
    assert_eq!((press_duration(11), release_duration(11)), (5, 6));
    assert_eq!((press_duration(20), release_duration(20)), (10, 10));
    assert_eq!((press_duration(10000), release_duration(10000)), (5000, 5000));
    assert_eq!((press_duration(9999), release_duration(9999)), (4999, 5000));
    assert_eq!((press_duration(3), release_duration(3)), (1, 2));
    assert_eq!((press_duration(2), release_duration(2)), (1, 1));
}

#[test]
fn each_phase_lasts_at_least_a_millisecond() {
    assert_eq!((press_duration(1), release_duration(1)), (1, 1));
    assert_eq!((press_duration(0), release_duration(0)), (1, 1));
}

#[test]
fn phases_of_the_largest_interval() {
    assert_eq!(press_duration(u64::MAX), u64::MAX / 2);
    assert_eq!(release_duration(u64::MAX), u64::MAX / 2 + 1);
}

#[test]
fn phases_sum_to_every_accepted_interval() {
    let mut ms: u64 = 2;
    while ms <= 10000 {
        assert_eq!(press_duration(ms), ms / 2);
        assert_eq!(press_duration(ms) + release_duration(ms), ms);
        assert!(press_duration(ms) >= 1 && release_duration(ms) >= 1);
        ms += 1;
    }
}
