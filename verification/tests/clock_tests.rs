use xarph_sdk::clock::ClockService;

#[test]
fn test_format_time() {
    let result = ClockService::format_from_epoch(1700000000, "%H:%M:%S");
    assert_eq!(result.len(), 8);
    assert!(result.contains(':'));
}

#[test]
fn test_format_date() {
    let result = ClockService::format_from_epoch(1700000000, "%Y-%m-%d");
    assert!(result.starts_with("20"));
}

#[test]
fn test_leap_year() {
    assert!(ClockService::is_leap_year(2024));
    assert!(!ClockService::is_leap_year(2023));
    assert!(ClockService::is_leap_year(2000));
    assert!(!ClockService::is_leap_year(1900));
}

#[test]
fn format_from_epoch_gives_the_exact_moment() {
    assert_eq!(ClockService::format_from_epoch(1700000000, "%Y-%m-%d"), "2023-11-14");
    assert_eq!(ClockService::format_from_epoch(1700000000, "%H:%M:%S"), "22:13:20");
    assert_eq!(ClockService::format_from_epoch(1700000000, "%I %p"), "10 PM");
    assert_eq!(ClockService::format_from_epoch(0, "%a %d %b %Y"), "Thu 01 Jan 1970");
    assert_eq!(ClockService::format_from_epoch(0, "%A %B"), "Thursday January");
}

#[test]
fn format_from_epoch_keeps_unknown_directives_and_drops_a_trailing_percent() {
    assert_eq!(ClockService::format_from_epoch(0, "100%% %q %"), "100% %q ");
}

#[test]
fn format_handles_leap_days() {
    // 2024-02-29 12:00:00 UTC
    assert_eq!(ClockService::format_from_epoch(1709208000, "%Y-%m-%d %H"), "2024-02-29 12");
}

#[test]
fn day_of_week_counts_from_monday() {
    assert_eq!(ClockService::day_of_week(2023, 11, 14), 1);
    assert_eq!(ClockService::day_of_week(1970, 1, 1), 3);
    assert_eq!(ClockService::day_of_week(2024, 2, 29), 3);
}

#[test]
fn hour_and_minute_of_a_moment() {
    assert_eq!(ClockService::hour_from_epoch(1700000000), 22);
    assert_eq!(ClockService::minute_from_epoch(1700000000), 13);
    assert!(ClockService::current_hour() < 24);
    assert!(ClockService::current_minute() < 60);
}

#[test]
fn format_time_renders_the_present() {
    let t = ClockService::format_time("%H:%M");
    assert_eq!(t.len(), 5);
    assert_eq!(&t[2..3], ":");
}

#[test]
fn the_weekday_moves_on_by_one_each_day() {
    let names = ["Mon", "Tue", "Wed", "Thu", "Fri", "Sat", "Sun"];
    for n in [0u64, 1, 58, 59, 60, 364, 365, 789, 10957, 11016, 19782, 20000] {
        let shown = ClockService::format_from_epoch(n * 86400 + 43210, "%a");
        assert_eq!(shown, names[((n + 3) % 7) as usize], "day {}", n);
    }
}
