use photo_order::date::convert_sec_to_ymd;
use photo_order::date::format_ymd;

#[test]
fn known_timestamp_gives_its_date() {
    assert_eq!(convert_sec_to_ymd(1700000000).as_deref(), Some("2023.11.14"));
}

#[test]
fn epoch_and_the_second_before() {
    assert_eq!(convert_sec_to_ymd(0).as_deref(), Some("1970.01.01"));
    assert_eq!(convert_sec_to_ymd(-1).as_deref(), Some("1969.12.31"));
}

#[test]
fn day_boundary() {
    assert_eq!(convert_sec_to_ymd(1704412800).as_deref(), Some("2024.01.05"));
    assert_eq!(convert_sec_to_ymd(1704412799).as_deref(), Some("2024.01.04"));
}

#[test]
fn leap_day() {
    assert_eq!(convert_sec_to_ymd(951782400).as_deref(), Some("2000.02.29"));
}

#[test]
fn out_of_range_timestamp_has_no_date() {
    assert_eq!(convert_sec_to_ymd(i64::MAX), None);
    assert_eq!(convert_sec_to_ymd(i64::MIN), None);
}

#[test]
fn month_and_day_are_zero_padded() {
    assert_eq!(format_ymd(2024, 1, 5), "2024.01.05");
    assert_eq!(format_ymd(2023, 12, 31), "2023.12.31");
}

#[test]
fn small_years_are_zero_padded() {
    assert_eq!(format_ymd(99, 1, 2), "0099.01.02");
    assert_eq!(format_ymd(0, 6, 7), "0000.06.07");
}

#[test]
fn years_outside_four_digits_carry_a_sign() {
    assert_eq!(format_ymd(10000, 1, 1), "+10000.01.01");
    assert_eq!(format_ymd(-5, 3, 4), "-0005.03.04");
}
