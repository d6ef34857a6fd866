use telemt_admin::format::{format_date, format_timestamp};

#[test]
fn dates_outside_chrono_range_fall_back() {
    assert_eq!(format_date(i64::MAX), "—");
    assert_eq!(format_date(-8_334_601_228_801), "—");
    assert_eq!(
        format_timestamp(i64::MAX),
        "Некорректный timestamp: 9223372036854775807"
    );
    assert_eq!(format_timestamp(8_210_266_876_800), "Некорректный timestamp: 8210266876800");
}

#[test]
fn dates_inside_chrono_range_have_their_shape() {
    for ts in [0i64, 1_700_000_000, 8_210_266_876_799, -8_334_601_228_800] {
        let d: Vec<char> = format_date(ts).chars().collect();
        assert!(d.len() >= 10);
        assert_eq!(d[2], '.');
        assert_eq!(d[5], '.');
        let t: Vec<char> = format_timestamp(ts).chars().collect();
        let n = t.len();
        assert!(n >= 26);
        assert_eq!(t[n - 16], ' ');
        assert_eq!(t[n - 3], ':');
        assert!(t.iter().all(|c| c.is_ascii_digit() || "+-: ".contains(*c)));
    }
}

#[test]
fn dates_are_the_calendar_date_at_some_offset() {
    let d0 = format_date(0);
    assert!(d0 == "31.12.1969" || d0 == "01.01.1970");
    let d1 = format_date(1_700_000_000);
    assert!(d1 == "13.11.2023" || d1 == "14.11.2023" || d1 == "15.11.2023");
    let t0 = format_timestamp(0);
    assert!(t0.starts_with("1969-12-31 ") || t0.starts_with("1970-01-01 "));
    let t1 = format_timestamp(1_700_000_000);
    if t1.ends_with(" +00:00") {
        assert_eq!(t1, "2023-11-14 22:13:20 +00:00");
    }
}
