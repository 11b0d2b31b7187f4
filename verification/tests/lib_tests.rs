use rust_box::{rs_box_defaults, GTHashRate, HashRateUnitFormat, LogLevel, RunMode};

#[test]
fn test_get_version() {
    let version = rust_box::get_version().unwrap();
    println!("v{}", version);
}

#[test]
fn version_tests_test_get_version() {
    let version = rust_box::get_version().unwrap();

    assert_eq!(version, "0.0.25");
    println!("{}", version);
}

#[test]
fn run_mode_names_and_defaults() {
    assert_eq!(RunMode::RunModeDebug.to_string(), "Debug");
    assert_eq!(RunMode::RunModeRelease.to_string(), "Release");
    assert_eq!(RunMode::RunModeTest.to_string(), "Test");
    assert_eq!(RunMode::RunModeUnknown.to_string(), "Unknown");
    assert_eq!(
        rs_box_defaults(RunMode::RunModeRelease),
        (true, LogLevel::LogLevelInfo)
    );
    assert_eq!(
        rs_box_defaults(RunMode::RunModeTest),
        (true, LogLevel::LogLevelDebug)
    );
    assert_eq!(
        rs_box_defaults(RunMode::RunModeDebug),
        (false, LogLevel::LogLevelDebug)
    );
}

#[test]
fn hash_rate_unit_texts() {
    assert_eq!(HashRateUnitFormat::Hs.unit_text(), "H/s");
    assert_eq!(HashRateUnitFormat::KHs.unit_text(), "KH/s");
    assert_eq!(HashRateUnitFormat::YHs.unit_text(), "YH/s");
    let r = GTHashRate::new(
        String::from("1.234"),
        String::from("GH/s"),
        HashRateUnitFormat::GHs,
    );
    assert_eq!(r.value, "1.234");
    assert_eq!(r.unit_str, "GH/s");
    assert_eq!(r.unit_flag, HashRateUnitFormat::GHs);
}
