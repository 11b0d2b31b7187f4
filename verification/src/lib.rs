pub mod caller;
pub mod clock;
pub mod coins;
pub mod config;
pub mod format;
pub mod hash_rate;
pub mod laws;
pub mod levels;
pub mod manager;
pub mod paths;
pub mod prune;
pub mod registry;
pub mod strutil;
pub mod symlink;

pub use coins::{get_coin_flag_by_coin_name, is_coin_supported, CoinFlag};
pub use config::LogConfig;
pub use hash_rate::{GTHashRate, HashRateUnitFormat};
pub use levels::{LogFileSaveType, LogLevel};
pub use manager::{EmitOutcome, FilePlan, LoggerManager, PrunePlan};
pub use registry::{
    log_debug, log_error, log_info, log_trace, log_warning, setup_log_tools, update_log_config,
    LogRegistry,
};

use vstd::prelude::*;

verus! {

/// How the host application runs; decides the logging defaults of
/// [`rs_box_defaults`].
#[derive(Clone, Copy, Debug, PartialEq, Eq, Structural)]
pub enum RunMode {
    RunModeUnknown,
    RunModeDebug,
    RunModeRelease,
    RunModeTest,
}

impl RunMode {
    /// The display name of this mode.
    pub fn to_string(&self) -> (r: &'static str)
        ensures
            r@ == run_mode_name_spec(*self),
    {
        match *self {
            RunMode::RunModeDebug => "Debug",
            RunMode::RunModeRelease => "Release",
            RunMode::RunModeTest => "Test",
            RunMode::RunModeUnknown => "Unknown",
        }
    }
}

/// The display name of a run mode.
pub open spec fn run_mode_name_spec(m: RunMode) -> Seq<char> {
    match m {
        RunMode::RunModeDebug => "Debug"@,
        RunMode::RunModeRelease => "Release"@,
        RunMode::RunModeTest => "Test"@,
        RunMode::RunModeUnknown => "Unknown"@,
    }
}

/// The logging defaults of a run mode: whether log files are written, and
/// the minimum level. Release and test runs keep files; debug and unknown
/// runs stay verbose.
pub fn rs_box_defaults(run_mode: RunMode) -> (r: (bool, LogLevel))
    ensures
        r.0 == (run_mode is RunModeRelease || run_mode is RunModeTest),
        r.1 == (if run_mode is RunModeRelease {
            LogLevel::LogLevelInfo
        } else {
            LogLevel::LogLevelDebug
        }),
{
    let enable_save_log_file = match run_mode {
        RunMode::RunModeRelease | RunMode::RunModeTest => true,
        _ => false,
    };
    let log_level = match run_mode {
        RunMode::RunModeRelease => LogLevel::LogLevelInfo,
        _ => LogLevel::LogLevelDebug,
    };
    (enable_save_log_file, log_level)
}

/// The version of this library.
pub fn get_version() -> (r: Option<String>)
    ensures
        r is Some,
        r.unwrap()@ == "0.0.25"@,
{
    Some(String::from_str("0.0.25"))
}

} // verus!
