use aria2_bridge::limits::normalize_speed_limit;

#[test]
fn zero_is_the_no_limit_sentinel() {
    assert_eq!(normalize_speed_limit("0"), "0");
}

#[test]
fn megabytes_become_kilobytes() {
    assert_eq!(normalize_speed_limit("5M"), "5120K");
}

#[test]
fn kilobytes_stay_kilobytes() {
    assert_eq!(normalize_speed_limit("100K"), "100K");
}

#[test]
fn fractional_megabytes_scale_exactly() {
    assert_eq!(normalize_speed_limit("1.5M"), "1536K");
    assert_eq!(normalize_speed_limit("0.3M"), "307K");
}

#[test]
fn fractional_kilobytes_round_to_nearest() {
    assert_eq!(normalize_speed_limit("0.5K"), "1K");
    assert_eq!(normalize_speed_limit("2.4K"), "2K");
}

#[test]
fn any_other_unit_letter_means_megabytes() {
    assert_eq!(normalize_speed_limit("2m"), "2048K");
}
