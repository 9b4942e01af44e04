use aria2_bridge::clock::{now_date, now_minute_of_day, sigma_time};

#[test]
fn minutes_of_day_from_text() {
    assert_eq!(sigma_time("13:12"), 13 * 60 + 12);
    assert_eq!(sigma_time("00:00"), 0);
    assert_eq!(sigma_time("23:59"), 1439);
    assert_eq!(sigma_time("9:5"), 545);
}

#[test]
fn now_minute_of_day_is_in_range() {
    let m = now_minute_of_day();
    assert!((0..1440).contains(&m));
}

#[test]
fn date_stamp_layout() {
    let d = now_date();
    let chars: Vec<char> = d.chars().collect();
    assert_eq!(chars.len(), 21);
    assert_eq!(chars[4], '/');
    assert_eq!(chars[7], '/');
    assert_eq!(&d[10..13], " , ");
    assert_eq!(chars[15], ':');
    assert_eq!(chars[18], ':');
    let digits = [0, 1, 2, 3, 5, 6, 8, 9, 13, 14, 16, 17, 19, 20];
    for i in digits {
        assert!(chars[i].is_ascii_digit());
    }
}
