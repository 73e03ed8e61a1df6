use sm2::timespan::{answer_button_time, unit_of, TimeUnit};

#[test]
fn seconds_and_days_are_whole() {
    assert_eq!(answer_button_time(0), "0s");
    assert_eq!(answer_button_time(30), "30s");
    assert_eq!(answer_button_time(59), "59s");
    assert_eq!(answer_button_time(86_400), "1d");
    assert_eq!(answer_button_time(172_800), "2d");
    assert_eq!(answer_button_time(129_599), "1d");
    assert_eq!(answer_button_time(129_600), "2d");
    assert_eq!(answer_button_time(29 * 86_400), "29d");
}

#[test]
fn other_units_show_one_decimal_place() {
    assert_eq!(answer_button_time(60), "1m");
    assert_eq!(answer_button_time(90), "1.5m");
    assert_eq!(answer_button_time(600), "10m");
    assert_eq!(answer_button_time(3_597), "60m");
    assert_eq!(answer_button_time(3_600), "1h");
    assert_eq!(answer_button_time(5_400), "1.5h");
    assert_eq!(answer_button_time(30 * 86_400), "1mo");
    assert_eq!(answer_button_time(45 * 86_400), "1.5mo");
    assert_eq!(answer_button_time(365 * 86_400), "1y");
    assert_eq!(answer_button_time(36_500 * 86_400), "100y");
    assert_eq!(answer_button_time(400 * 86_400), "1.1y");
}

#[test]
fn the_largest_duration_has_a_label() {
    assert_eq!(answer_button_time(u64::MAX), "584942417355.1y");
}

#[test]
fn units_change_at_their_length() {
    assert_eq!(unit_of(59), TimeUnit::Seconds);
    assert_eq!(unit_of(60), TimeUnit::Minutes);
    assert_eq!(unit_of(3_599), TimeUnit::Minutes);
    assert_eq!(unit_of(3_600), TimeUnit::Hours);
    assert_eq!(unit_of(86_399), TimeUnit::Hours);
    assert_eq!(unit_of(86_400), TimeUnit::Days);
    assert_eq!(unit_of(2_591_999), TimeUnit::Days);
    assert_eq!(unit_of(2_592_000), TimeUnit::Months);
    assert_eq!(unit_of(31_535_999), TimeUnit::Months);
    assert_eq!(unit_of(31_536_000), TimeUnit::Years);
}
