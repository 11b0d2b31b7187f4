use rust_box::caller::resolve_caller;
use rust_box::clock::day_index_of_ymd;
use rust_box::format::format_line;
use rust_box::clock::LocalTime;
use rust_box::prune::{is_stale, parse_date_name, parse_hour_name, select_stale_names};
use rust_box::{LogFileSaveType, LogLevel};

#[test]
fn date_names_parse_and_reject() {
    assert_eq!(parse_date_name("2024-05-06"), Some((2024, 5, 6)));
    assert_eq!(parse_date_name("1970-01-01"), Some((1970, 1, 1)));
    assert_eq!(parse_date_name("2024-13-06"), None);
    assert_eq!(parse_date_name("2024-00-06"), None);
    assert_eq!(parse_date_name("1969-05-06"), None);
    assert_eq!(parse_date_name("2024-05-32"), None);
    assert_eq!(parse_date_name("2024-05-6"), None);
    assert_eq!(parse_date_name("2024_05_06"), None);
    assert_eq!(parse_date_name("run.log"), None);
    assert_eq!(parse_date_name(""), None);
}

#[test]
fn hour_names_parse_and_reject() {
    assert_eq!(parse_hour_name("2024-05-06_23.log"), Some((2024, 5, 6, 23)));
    assert_eq!(parse_hour_name("2024-05-06_00.log"), Some((2024, 5, 6, 0)));
    assert_eq!(parse_hour_name("2024-05-06_24.log"), None);
    assert_eq!(parse_hour_name("2024-05-06.log"), None);
    assert_eq!(parse_hour_name("2024-05-06_23.txt"), None);
    assert_eq!(parse_hour_name("run.log"), None);
}

#[test]
fn day_index_counts_leap_years() {
    assert_eq!(day_index_of_ymd(1970, 1, 1), 0);
    assert_eq!(day_index_of_ymd(1970, 1, 2), 1);
    assert_eq!(day_index_of_ymd(1971, 1, 1), 365);
    // 1972 was a leap year.
    assert_eq!(day_index_of_ymd(1973, 1, 1), 365 + 365 + 366);
    assert_eq!(day_index_of_ymd(2024, 3, 1), day_index_of_ymd(2024, 2, 29) + 1);
    // A well-known epoch day: 2000-01-01 is day 10957.
    assert_eq!(day_index_of_ymd(2000, 1, 1), 10957);
}

#[test]
fn stale_boundary_is_exact_both_ways() {
    let now = day_index_of_ymd(2024, 5, 6);
    let keep = 7;
    // Aged exactly `keep` buckets: retained.
    assert!(!is_stale(now - keep, now, keep));
    // One bucket older: removed.
    assert!(is_stale(now - keep - 1, now, keep));
    // Fresh and future buckets: retained.
    assert!(!is_stale(now, now, keep));
    assert!(!is_stale(now + 1, now, keep));
}

#[test]
fn stale_selection_keeps_boundary_and_skips_foreign_names() {
    // now is 2024-05-06; keep one week of day buckets.
    let now = day_index_of_ymd(2024, 5, 6);
    let names: Vec<String> = vec![
        String::from("2024-04-28"), // one past the boundary: stale
        String::from("2024-04-29"), // exactly retention_max old: kept
        String::from("2024-05-06"), // today: kept
        String::from("2024-04-01"), // long stale
        String::from("run.log"),    // not an artifact: never selected
        String::from("notes"),      // not an artifact: never selected
    ];
    let stale = select_stale_names(&names, LogFileSaveType::LogFileSaveTypeDays, now, 7);
    assert_eq!(stale, vec![String::from("2024-04-28"), String::from("2024-04-01")]);

    // Hour buckets prune hour files the same way.
    let now_hours = now * 24 + 10;
    let hour_names: Vec<String> = vec![
        String::from("2024-05-06_02.log"), // exactly 8 hours old with keep 8: kept
        String::from("2024-05-06_01.log"), // 9 hours old: stale
        String::from("2024-05-06_10.log"), // now: kept
        String::from("2024-05-06"),        // a day name is no hour artifact
    ];
    let stale_hours =
        select_stale_names(&hour_names, LogFileSaveType::LogFileSaveTypeHours, now_hours, 8);
    assert_eq!(stale_hours, vec![String::from("2024-05-06_01.log")]);
}

#[test]
fn caller_resolution_picks_first_foreign_frame() {
    let symbols: Vec<(Option<String>, Option<u32>)> = vec![
        (Some(String::from("skipped::frame::zero::h0")), Some(1)),
        (Some(String::from("skipped::frame::one::h1")), Some(2)),
        (Some(String::from("skipped::frame::two::h2")), Some(3)),
        (Some(String::from("rust_box::manager::emit::h3")), Some(4)),
        (Some(String::from("backtrace::capture::h4")), Some(5)),
        (None, Some(6)),
        (Some(String::from("short")), Some(7)),
        (Some(String::from("mycrate::module::func::h9aa")), Some(42)),
    ];
    let r = resolve_caller(&symbols, 3);
    assert_eq!(r, "[package:mycrate::module method:func line:42]");
}

#[test]
fn caller_resolution_falls_back_to_unknown() {
    let empty: Vec<(Option<String>, Option<u32>)> = vec![];
    assert_eq!(resolve_caller(&empty, 3), "unknown");
    let all_excluded: Vec<(Option<String>, Option<u32>)> = vec![
        (Some(String::from("a::b::c::h1")), Some(1)),
        (Some(String::from("a::b::c::h1")), Some(1)),
        (Some(String::from("a::b::c::h1")), Some(1)),
        (Some(String::from("rust_box::registry::log_info::h2")), Some(9)),
        (None, None),
    ];
    assert_eq!(resolve_caller(&all_excluded, 3), "unknown");
}

#[test]
fn caller_resolution_defaults_line_to_zero() {
    let symbols: Vec<(Option<String>, Option<u32>)> = vec![
        (Some(String::from("crate_a::mod_b::func_c::hff")), None),
    ];
    assert_eq!(resolve_caller(&symbols, 0), "[package:crate_a::mod_b method:func_c line:0]");
}

#[test]
fn formatted_lines_match_exactly() {
    let t = LocalTime {
        year: 2024,
        month: 5,
        day: 6,
        hour: 7,
        minute: 8,
        second: 9,
        offset_seconds: 8 * 3600,
    };
    let plain = format_line(LogLevel::LogLevelInfo, "x", &t, None, false);
    assert_eq!(plain, "[2024-05-06 07:08:09 +08:00] [INFO] [x]\n");
    let colored = format_line(LogLevel::LogLevelError, "boom", &t, None, true);
    assert_eq!(
        colored,
        "[2024-05-06 07:08:09 +08:00] \x1b[31m[ERROR]\x1b[0m [boom]\n"
    );
    let located = format_line(
        LogLevel::LogLevelDebug,
        "dbg",
        &t,
        Some(&String::from("[package:a::b method:c line:7]")),
        false,
    );
    assert_eq!(
        located,
        "[2024-05-06 07:08:09 +08:00] [DEBUG] [package:a::b method:c line:7] [dbg]\n"
    );
    let negative_offset = LocalTime {
        offset_seconds: -(5 * 3600 + 30 * 60),
        ..t
    };
    let west = format_line(LogLevel::LogLevelWarning, "w", &negative_offset, None, false);
    assert_eq!(west, "[2024-05-06 07:08:09 -05:30] [WARNING] [w]\n");
}
