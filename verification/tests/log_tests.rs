use chrono::Datelike;
use rust_box::clock::LocalTime;
use rust_box::levels::should_emit;
use rust_box::paths::compute_bucket_path;
use rust_box::registry::{log_debug, log_error, log_info, setup_log_tools, update_log_config};
use rust_box::{LogFileSaveType, LogLevel, LogRegistry, LoggerManager};

fn sample_time() -> LocalTime {
    LocalTime {
        year: 2024,
        month: 5,
        day: 6,
        hour: 7,
        minute: 8,
        second: 9,
        offset_seconds: 8 * 3600,
    }
}

#[test]
fn test_simple_log_output() {
    let mut reg = LogRegistry::default();
    setup_log_tools(
        &mut reg,
        "test_simple",
        false,
        "./logs",
        LogLevel::LogLevelDebug,
        7,
        LogFileSaveType::LogFileSaveTypeDays,
    );
    log_debug(&reg, "This is a debug message");
}

#[test]
fn level_gate_filters_below_minimum() {
    let mut reg = LogRegistry::default();
    setup_log_tools(
        &mut reg,
        "svc",
        false,
        "./logs",
        LogLevel::LogLevelInfo,
        7,
        LogFileSaveType::LogFileSaveTypeDays,
    );
    // Below the minimum: no line, no sink touched.
    let debug_out = log_debug(&reg, "x");
    assert!(debug_out.line.is_none());
    assert!(!debug_out.wrote_console);
    assert!(!debug_out.write_to_open_file);
    assert!(debug_out.rotation.is_none());
    // At and above the minimum: a line each, to the console sink.
    let info_out = log_info(&reg, "x");
    let line = info_out.line.unwrap();
    assert!(info_out.wrote_console);
    assert!(line.contains("[INFO]"));
    assert!(line.contains("[x]"));
    let error_out = log_error(&reg, "boom");
    assert!(error_out.line.is_some());
    assert!(error_out.wrote_console);
}

#[test]
fn emit_levels_follow_importance_order() {
    assert!(should_emit(LogLevel::LogLevelError, LogLevel::LogLevelInfo));
    assert!(should_emit(LogLevel::LogLevelWarning, LogLevel::LogLevelInfo));
    assert!(should_emit(LogLevel::LogLevelInfo, LogLevel::LogLevelInfo));
    assert!(!should_emit(LogLevel::LogLevelDebug, LogLevel::LogLevelInfo));
    assert!(!should_emit(LogLevel::LogLevelTrace, LogLevel::LogLevelInfo));
    assert!(should_emit(LogLevel::LogLevelTrace, LogLevel::LogLevelTrace));
}

#[test]
fn console_error_line_is_colorized_and_newline_terminated() {
    let mut reg = LogRegistry::default();
    setup_log_tools(
        &mut reg,
        "svc",
        false,
        "",
        LogLevel::LogLevelInfo,
        7,
        LogFileSaveType::LogFileSaveTypeDays,
    );
    let out = log_error(&reg, "boom");
    let line = out.line.unwrap();
    assert!(out.wrote_console);
    assert!(out.rotation.is_none());
    assert!(line.contains("\x1b[31m"));
    assert!(line.contains("\x1b[0m"));
    assert!(line.contains("[ERROR]"));
    assert!(line.contains("[boom]"));
    assert!(line.ends_with('\n'));
    assert_eq!(line.matches('\n').count(), 1);
}

#[test]
fn bucket_path_is_pure_and_tracks_buckets() {
    let mut reg = LogRegistry::default();
    setup_log_tools(
        &mut reg,
        "svc",
        true,
        "./logs",
        LogLevel::LogLevelInfo,
        7,
        LogFileSaveType::LogFileSaveTypeDays,
    );
    let t = sample_time();
    let p1 = compute_bucket_path(&reg.config, &t);
    let p2 = compute_bucket_path(&reg.config, &t);
    assert_eq!(p1, "./logs/svc/2024-05-06/2024-05-06.log");
    assert_eq!(p1, p2);
    // Same day, later hour: same day bucket.
    let mut later = sample_time();
    later.hour = 23;
    assert_eq!(compute_bucket_path(&reg.config, &later), p1);
    // Next day: a different bucket path.
    let mut next_day = sample_time();
    next_day.day = 7;
    assert_ne!(compute_bucket_path(&reg.config, &next_day), p1);

    // Hour buckets: the hour enters the name, so an hour boundary changes it.
    setup_log_tools(
        &mut reg,
        "svc",
        true,
        "./logs",
        LogLevel::LogLevelInfo,
        7,
        LogFileSaveType::LogFileSaveTypeHours,
    );
    let h1 = compute_bucket_path(&reg.config, &t);
    assert_eq!(h1, "./logs/svc/2024-05-06/2024-05-06_07.log");
    let mut next_hour = sample_time();
    next_hour.hour = 8;
    assert_ne!(compute_bucket_path(&reg.config, &next_hour), h1);
}

#[test]
fn empty_base_dir_gets_default() {
    let mut reg = LogRegistry::default();
    let plan = setup_log_tools(
        &mut reg,
        "svc",
        true,
        "",
        LogLevel::LogLevelInfo,
        7,
        LogFileSaveType::LogFileSaveTypeDays,
    );
    let plan = plan.unwrap();
    let today = chrono::Local::now();
    let expected = format!(
        "/var/log/svc/svc/{:04}-{:02}-{:02}/{:04}-{:02}-{:02}.log",
        today.year(),
        today.month(),
        today.day(),
        today.year(),
        today.month(),
        today.day()
    );
    // The plan was made moments before `today` was read; accept a midnight
    // crossing by recomputing once if they disagree.
    if plan.file_path != expected {
        let again = chrono::Local::now();
        let expected2 = format!(
            "/var/log/svc/svc/{:04}-{:02}-{:02}/{:04}-{:02}-{:02}.log",
            again.year(),
            again.month(),
            again.day(),
            again.year(),
            again.month(),
            again.day()
        );
        assert_eq!(plan.file_path, expected2);
    }
    assert_eq!(plan.link_path, "/var/log/svc/svc/run.log");
    assert!(plan.prune.is_none());
}

#[test]
fn setup_in_file_mode_returns_consistent_plan() {
    let mut reg = LogRegistry::default();
    let plan = setup_log_tools(
        &mut reg,
        "svc",
        true,
        "./logs",
        LogLevel::LogLevelInfo,
        7,
        LogFileSaveType::LogFileSaveTypeDays,
    );
    let plan = plan.unwrap();
    // Symlink round trip at plan level: the link's directory plus the
    // relative target is the opened bucket file.
    let link_dir = plan.link_path.strip_suffix("/run.log").unwrap();
    let target = plan.link_target.clone().unwrap();
    assert_eq!(format!("{}/{}", link_dir, target), plan.file_path);
    assert!(plan.file_path.starts_with("./logs/svc/"));
    assert!(plan.file_path.ends_with(".log"));
    assert!(plan.dir_path.starts_with("./logs/svc/"));
    assert!(plan.file_path.starts_with(plan.dir_path.as_str()));

    // Console-mode setup returns no plan.
    let none_plan = setup_log_tools(
        &mut reg,
        "svc",
        false,
        "./logs",
        LogLevel::LogLevelInfo,
        7,
        LogFileSaveType::LogFileSaveTypeDays,
    );
    assert!(none_plan.is_none());
}

#[test]
fn rotation_is_idempotent_within_a_bucket() {
    let mut reg = LogRegistry::default();
    setup_log_tools(
        &mut reg,
        "svc",
        true,
        "./logs",
        LogLevel::LogLevelInfo,
        7,
        LogFileSaveType::LogFileSaveTypeDays,
    );
    let t = sample_time();
    let path = compute_bucket_path(&reg.config, &t);

    // Before any commit, an emit at `t` proposes the rotation.
    let first = reg.default_logger.plan_emit(LogLevel::LogLevelInfo, "m", &t, None);
    let rotation = first.rotation.expect("a fresh manager must rotate");
    assert_eq!(rotation.file_path, path);
    assert!(rotation.prune.is_some());

    // After a successful commit, emits in the same bucket open nothing.
    reg.default_logger.commit_rotation(path.as_str(), true);
    let mut later = sample_time();
    later.hour = 22;
    later.minute = 59;
    let second = reg.default_logger.plan_emit(LogLevel::LogLevelInfo, "m", &later, None);
    assert!(second.rotation.is_none());
    assert!(second.write_to_open_file);
    assert!(!second.wrote_console);

    // The next day is a new bucket: one rotation is proposed again.
    let mut next_day = sample_time();
    next_day.day = 7;
    let third = reg.default_logger.plan_emit(LogLevel::LogLevelInfo, "m", &next_day, None);
    assert!(third.rotation.is_some());
}

#[test]
fn failed_rotation_degrades_to_console_until_next_bucket() {
    let mut reg = LogRegistry::default();
    setup_log_tools(
        &mut reg,
        "svc",
        true,
        "./logs",
        LogLevel::LogLevelInfo,
        7,
        LogFileSaveType::LogFileSaveTypeDays,
    );
    let t = sample_time();
    let path = compute_bucket_path(&reg.config, &t);
    reg.default_logger.commit_rotation(path.as_str(), false);
    // Same bucket: no retry, the line falls back to the console.
    let out = reg.default_logger.plan_emit(LogLevel::LogLevelInfo, "m", &t, None);
    assert!(out.rotation.is_none());
    assert!(out.wrote_console);
    assert!(!out.write_to_open_file);
    // Next bucket: a fresh attempt.
    let mut next_day = sample_time();
    next_day.day = 7;
    let retry = reg.default_logger.plan_emit(LogLevel::LogLevelInfo, "m", &next_day, None);
    assert!(retry.rotation.is_some());
}

#[test]
fn named_manager_writes_under_its_own_directory() {
    let mut reg = LogRegistry::default();
    setup_log_tools(
        &mut reg,
        "svc",
        true,
        "./logs",
        LogLevel::LogLevelDebug,
        7,
        LogFileSaveType::LogFileSaveTypeDays,
    );
    let (sub, plan) = LoggerManager::new(&reg, "subsystem");
    let plan = plan.unwrap();
    assert!(plan.file_path.starts_with("./logs/subsystem/"));
    let t = sample_time();
    assert_eq!(
        compute_bucket_path(&sub.config, &t),
        "./logs/subsystem/2024-05-06/2024-05-06.log"
    );
}

#[test]
fn update_config_merges_only_supplied_fields() {
    let mut reg = LogRegistry::default();
    setup_log_tools(
        &mut reg,
        "svc",
        false,
        "./logs",
        LogLevel::LogLevelInfo,
        7,
        LogFileSaveType::LogFileSaveTypeDays,
    );
    update_log_config(&mut reg, Some(LogLevel::LogLevelError), None, Some(30));
    assert_eq!(reg.config.log_level, LogLevel::LogLevelError);
    assert_eq!(reg.config.file_save_days_max, 30);
    assert_eq!(reg.config.log_dir, "./logs");
    assert_eq!(reg.config.project_name, "svc");
    // A warning is now below the minimum.
    let out = log_info(&reg, "quiet");
    assert!(out.line.is_none());
    let loud = log_error(&reg, "loud");
    assert!(loud.line.is_some());
}

#[test]
fn file_mode_lines_carry_no_color() {
    let mut reg = LogRegistry::default();
    setup_log_tools(
        &mut reg,
        "svc",
        true,
        "./logs",
        LogLevel::LogLevelInfo,
        7,
        LogFileSaveType::LogFileSaveTypeDays,
    );
    let t = sample_time();
    let out = reg.default_logger.plan_emit(LogLevel::LogLevelInfo, "plain", &t, None);
    let line = out.line.unwrap();
    assert!(!line.contains('\x1b'));
    assert_eq!(line, "[2024-05-06 07:08:09 +08:00] [INFO] [plain]\n");
}

#[test]
fn many_interleaved_emits_are_wellformed_and_none_lost() {
    let mut reg = LogRegistry::default();
    setup_log_tools(
        &mut reg,
        "svc",
        false,
        "./logs",
        LogLevel::LogLevelInfo,
        7,
        LogFileSaveType::LogFileSaveTypeDays,
    );
    let mut lines: Vec<String> = Vec::new();
    for i in 0..100 {
        let a = log_info(&reg, &format!("info {}", i));
        let b = rust_box::registry::log_warning(&reg, &format!("warning {}", i));
        let c = log_error(&reg, &format!("error {}", i));
        for out in [a, b, c] {
            lines.push(out.line.expect("all three levels pass an Info minimum"));
        }
    }
    assert_eq!(lines.len(), 300);
    for line in &lines {
        assert!(line.ends_with('\n'));
        assert_eq!(line.matches('\n').count(), 1);
    }
    for i in 0..100 {
        assert!(lines[3 * i].contains(&format!("[info {}]", i)));
        assert!(lines[3 * i + 1].contains(&format!("[warning {}]", i)));
        assert!(lines[3 * i + 2].contains(&format!("[error {}]", i)));
    }
}

#[test]
fn terminal_show_emits_through_default_and_named_managers() {
    let mut reg = LogRegistry::default();
    setup_log_tools(
        &mut reg,
        "test_terminal_show",
        false,
        "",
        LogLevel::LogLevelDebug,
        7,
        LogFileSaveType::LogFileSaveTypeDays,
    );
    assert!(log_info(&reg, "This is an info message").line.is_some());
    assert!(log_error(&reg, "This is an error message").line.is_some());
    assert!(rust_box::registry::log_warning(&reg, "This is an warning message").line.is_some());
    assert!(log_debug(&reg, "This is an debug message").line.is_some());
    // Trace sits below the Debug minimum.
    assert!(rust_box::registry::log_trace(&reg, "This is an trace message").line.is_none());

    let (sub, plan) = LoggerManager::new(&reg, "sub_test_terminal_show");
    assert!(plan.is_none());
    assert!(sub.log_info_f("a sub write file info").wrote_console);
    assert!(sub.log_warning_f("a sub write file warning").wrote_console);
    assert!(sub.log_error_f("a sub write file error").wrote_console);
    let debug_out = sub.log_debug_f("a sub write file debug");
    assert!(debug_out.wrote_console);
    // Verbose levels carry a caller location between the level tag and the
    // message brackets.
    let line = debug_out.line.unwrap();
    assert!(line.contains("[DEBUG]"));
    assert!(line.contains("[a sub write file debug]"));
}
