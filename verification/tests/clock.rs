use kannaka_tui::clock::format_bus_ts;

#[test]
fn a_frame_without_a_time_shows_blanks() {
    assert_eq!(format_bus_ts(0, 0), "        ");
}

#[test]
fn times_are_shown_in_the_zone() {
    assert_eq!(format_bus_ts(1_000, 0), "00:00:01");
    assert_eq!(format_bus_ts(1_700_000_000_000, 0), "22:13:20");
    assert_eq!(format_bus_ts(1_700_000_000_000, 3_600), "23:13:20");
    assert_eq!(format_bus_ts(1_700_000_000_000, 7_200), "00:13:20");
    assert_eq!(format_bus_ts(1_700_000_000_999, -12_600), "18:43:20");
    assert_eq!(format_bus_ts(-1, 0), "23:59:59");
    assert_eq!(format_bus_ts(-1_000, 0), "23:59:59");
    assert_eq!(format_bus_ts(-1_001, 0), "23:59:58");
    assert_eq!(format_bus_ts(1, 86_399), "23:59:59");
    assert_eq!(format_bus_ts(1, -86_399), "00:00:01");
}

#[test]
fn times_beyond_the_calendar_show_blanks() {
    for ts in [8_210_266_876_799_999_i64, -8_334_601_228_800_000] {
        assert!(chrono::DateTime::from_timestamp_millis(ts).is_some());
        assert_ne!(format_bus_ts(ts, 0), "        ");
        assert_ne!(format_bus_ts(ts, 86_399), "        ");
        assert_ne!(format_bus_ts(ts, -86_399), "        ");
    }
    for ts in [8_210_266_876_800_000_i64, -8_334_601_228_800_001, i64::MAX, i64::MIN] {
        assert!(chrono::DateTime::from_timestamp_millis(ts).is_none());
        assert_eq!(format_bus_ts(ts, 0), "        ");
    }
}

#[test]
fn the_last_moments_of_the_calendar_have_their_time_in_every_zone() {
    assert_eq!(format_bus_ts(8_210_266_876_799_999, 0), "23:59:59");
    assert_eq!(format_bus_ts(8_210_266_876_799_999, 1), "00:00:00");
    assert_eq!(format_bus_ts(-8_334_601_228_800_000, 0), "00:00:00");
    assert_eq!(format_bus_ts(-8_334_601_228_800_000, -1), "23:59:59");
}

#[test]
fn an_offset_of_a_day_is_no_zone() {
    assert_eq!(format_bus_ts(1_000, 86_400), "        ");
    assert_eq!(format_bus_ts(1_000, -86_400), "        ");
    assert_eq!(format_bus_ts(1_000, i32::MIN), "        ");
}

#[test]
fn every_time_takes_eight_columns() {
    for ts in [0_i64, 1, -1, 1_700_000_000_000, i64::MAX] {
        assert_eq!(format_bus_ts(ts, 0).chars().count(), 8);
    }
}
