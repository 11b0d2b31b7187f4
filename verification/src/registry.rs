use vstd::prelude::*;

use crate::config::{chosen_dir_spec, default_dir_spec, LogConfig};
use crate::clock::LocalTime;
use crate::levels::{is_verbose, level_passes, LogFileSaveType, LogLevel};
use crate::manager::{emit_outcome_at, init_plan_ok, EmitOutcome, FilePlan, LoggerManager};

verus! {

/// The process-wide registry: one configuration snapshot and one default
/// logger built from it. The caller owns it explicitly (typically behind a
/// lock) and replaces both through the setup operations below.
pub struct LogRegistry {
    pub config: LogConfig,
    pub default_logger: LoggerManager,
}

/// The default logger of a registry is freshly built from configuration `c`.
pub open spec fn registry_reset(reg: &LogRegistry, c: &LogConfig) -> bool {
    &&& reg.config == *c
    &&& reg.default_logger.config == *c
    &&& reg.default_logger.active_path is None
    &&& reg.default_logger.attempted_path@ == Seq::<char>::empty()
    &&& reg.default_logger.wf()
}

impl Default for LogRegistry {
    /// The registry before any setup call: the default configuration, which
    /// is always safe to use, and a console-mode logger built from it.
    fn default() -> (r: Self)
        ensures
            registry_reset(&r, &r.config),
            r.config.project_name@ == "default"@,
            !r.config.enable_save_log_file,
            r.config.log_dir@ == default_dir_spec("default"@),
            r.config.log_level == LogLevel::LogLevelTrace,
            r.config.file_save_days_max == 7,
            r.config.file_save_type == LogFileSaveType::LogFileSaveTypeDays,
    {
        let config = LogConfig::default();
        let (m, _plan) = LoggerManager::initialize_logger(config.clone());
        LogRegistry { config, default_logger: m }
    }
}

/// Replaces the whole configuration snapshot and rebuilds the default
/// logger from it. In file mode the returned plan holds the filesystem work
/// that opens the first bucket file; the caller performs it and reports the
/// result through `commit_rotation` on the default logger.
pub fn setup_log_tools(
    reg: &mut LogRegistry,
    project_name: &str,
    enable_save_log_file: bool,
    log_dir: &str,
    log_level: LogLevel,
    file_save_days_max: u64,
    file_save_type: LogFileSaveType,
) -> (plan: Option<FilePlan>)
    ensures
        registry_reset(final(reg), &final(reg).config),
        final(reg).config.project_name@ == project_name@,
        final(reg).config.enable_save_log_file == enable_save_log_file,
        final(reg).config.log_dir@ == chosen_dir_spec(log_dir@, project_name@),
        final(reg).config.log_level == log_level,
        final(reg).config.file_save_days_max == file_save_days_max,
        final(reg).config.file_save_type == file_save_type,
        plan is Some <==> enable_save_log_file,
        plan is Some ==> init_plan_ok(&final(reg).config, &plan.unwrap()),
{
    let config = LogConfig::build(
        project_name,
        enable_save_log_file,
        log_dir,
        log_level,
        file_save_days_max,
        file_save_type,
    );
    let (m, plan) = LoggerManager::initialize_logger(config.clone());
    reg.config = config;
    reg.default_logger = m;
    plan
}

/// Merges only the supplied fields onto the current configuration and
/// rebuilds the default logger from the merged snapshot.
pub fn update_log_config(
    reg: &mut LogRegistry,
    log_level: Option<LogLevel>,
    log_dir: Option<&str>,
    file_save_days_max: Option<u64>,
) -> (plan: Option<FilePlan>)
    ensures
        registry_reset(final(reg), &final(reg).config),
        final(reg).config.project_name == old(reg).config.project_name,
        final(reg).config.enable_save_log_file == old(reg).config.enable_save_log_file,
        final(reg).config.file_save_type == old(reg).config.file_save_type,
        final(reg).config.log_level == if log_level is Some {
            log_level.unwrap()
        } else {
            old(reg).config.log_level
        },
        final(reg).config.log_dir@ == if log_dir is Some {
            log_dir.unwrap()@
        } else {
            old(reg).config.log_dir@
        },
        final(reg).config.file_save_days_max == if file_save_days_max is Some {
            file_save_days_max.unwrap()
        } else {
            old(reg).config.file_save_days_max
        },
        plan is Some <==> final(reg).config.enable_save_log_file,
        plan is Some ==> init_plan_ok(&final(reg).config, &plan.unwrap()),
{
    let config = reg.config.merged(log_level, log_dir, file_save_days_max);
    let (m, plan) = LoggerManager::initialize_logger(config.clone());
    reg.config = config;
    reg.default_logger = m;
    plan
}

impl LoggerManager {
    /// A manager over the registry's current configuration, as the default
    /// logger is built.
    pub fn default(reg: &LogRegistry) -> (r: (LoggerManager, Option<FilePlan>))
        ensures
            r.0.config == reg.config,
            r.0.active_path is None,
            r.0.attempted_path@ == Seq::<char>::empty(),
            r.0.wf(),
            r.1 is Some <==> reg.config.enable_save_log_file,
            r.1 is Some ==> init_plan_ok(&reg.config, &r.1.unwrap()),
    {
        LoggerManager::initialize_logger(reg.config.clone())
    }

    /// A subsystem-scoped manager: the registry's configuration with only
    /// the project name replaced, so its files live under the subsystem's
    /// own directory.
    pub fn new(reg: &LogRegistry, module_name: &str) -> (r: (LoggerManager, Option<FilePlan>))
        ensures
            r.0.config.project_name@ == module_name@,
            r.0.config.enable_save_log_file == reg.config.enable_save_log_file,
            r.0.config.log_dir == reg.config.log_dir,
            r.0.config.log_level == reg.config.log_level,
            r.0.config.file_save_days_max == reg.config.file_save_days_max,
            r.0.config.file_save_type == reg.config.file_save_type,
            r.0.active_path is None,
            r.0.attempted_path@ == Seq::<char>::empty(),
            r.0.wf(),
            r.1 is Some <==> reg.config.enable_save_log_file,
            r.1 is Some ==> init_plan_ok(&r.0.config, &r.1.unwrap()),
    {
        let config = reg.config.with_project_name(module_name);
        LoggerManager::initialize_logger(config)
    }
}

/// Emits `message` at the Info level through the registry's default logger.
pub fn log_info(reg: &LogRegistry, message: &str) -> (o: EmitOutcome)
    ensures
        o.line is Some <==> level_passes(LogLevel::LogLevelInfo, reg.default_logger.config.log_level),
        !level_passes(LogLevel::LogLevelInfo, reg.default_logger.config.log_level) ==> o.is_empty(),
        level_passes(LogLevel::LogLevelInfo, reg.default_logger.config.log_level) ==> exists|
            t: LocalTime,
            loc: Option<Seq<char>>,
        |
            t.valid() && (loc is Some <==> is_verbose(LogLevel::LogLevelInfo))
                && #[trigger] emit_outcome_at(
                &reg.default_logger,
                LogLevel::LogLevelInfo,
                message@,
                t,
                loc,
                &o,
            ),
{
    reg.default_logger.log_info_f(message)
}

/// Emits `message` at the Warning level through the registry's default logger.
pub fn log_warning(reg: &LogRegistry, message: &str) -> (o: EmitOutcome)
    ensures
        o.line is Some <==> level_passes(
            LogLevel::LogLevelWarning,
            reg.default_logger.config.log_level,
        ),
        !level_passes(LogLevel::LogLevelWarning, reg.default_logger.config.log_level)
            ==> o.is_empty(),
        level_passes(LogLevel::LogLevelWarning, reg.default_logger.config.log_level) ==> exists|
            t: LocalTime,
            loc: Option<Seq<char>>,
        |
            t.valid() && (loc is Some <==> is_verbose(LogLevel::LogLevelWarning))
                && #[trigger] emit_outcome_at(
                &reg.default_logger,
                LogLevel::LogLevelWarning,
                message@,
                t,
                loc,
                &o,
            ),
{
    reg.default_logger.log_warning_f(message)
}

/// Emits `message` at the Error level through the registry's default logger.
pub fn log_error(reg: &LogRegistry, message: &str) -> (o: EmitOutcome)
    ensures
        o.line is Some <==> level_passes(
            LogLevel::LogLevelError,
            reg.default_logger.config.log_level,
        ),
        !level_passes(LogLevel::LogLevelError, reg.default_logger.config.log_level)
            ==> o.is_empty(),
        level_passes(LogLevel::LogLevelError, reg.default_logger.config.log_level) ==> exists|
            t: LocalTime,
            loc: Option<Seq<char>>,
        |
            t.valid() && (loc is Some <==> is_verbose(LogLevel::LogLevelError))
                && #[trigger] emit_outcome_at(
                &reg.default_logger,
                LogLevel::LogLevelError,
                message@,
                t,
                loc,
                &o,
            ),
{
    reg.default_logger.log_error_f(message)
}

/// Emits `message` at the Debug level through the registry's default logger.
pub fn log_debug(reg: &LogRegistry, message: &str) -> (o: EmitOutcome)
    ensures
        o.line is Some <==> level_passes(
            LogLevel::LogLevelDebug,
            reg.default_logger.config.log_level,
        ),
        !level_passes(LogLevel::LogLevelDebug, reg.default_logger.config.log_level)
            ==> o.is_empty(),
        level_passes(LogLevel::LogLevelDebug, reg.default_logger.config.log_level) ==> exists|
            t: LocalTime,
            loc: Option<Seq<char>>,
        |
            t.valid() && (loc is Some <==> is_verbose(LogLevel::LogLevelDebug))
                && #[trigger] emit_outcome_at(
                &reg.default_logger,
                LogLevel::LogLevelDebug,
                message@,
                t,
                loc,
                &o,
            ),
{
    reg.default_logger.log_debug_f(message)
}

/// Emits `message` at the Trace level through the registry's default logger.
pub fn log_trace(reg: &LogRegistry, message: &str) -> (o: EmitOutcome)
    ensures
        o.line is Some <==> level_passes(
            LogLevel::LogLevelTrace,
            reg.default_logger.config.log_level,
        ),
        !level_passes(LogLevel::LogLevelTrace, reg.default_logger.config.log_level)
            ==> o.is_empty(),
        level_passes(LogLevel::LogLevelTrace, reg.default_logger.config.log_level) ==> exists|
            t: LocalTime,
            loc: Option<Seq<char>>,
        |
            t.valid() && (loc is Some <==> is_verbose(LogLevel::LogLevelTrace))
                && #[trigger] emit_outcome_at(
                &reg.default_logger,
                LogLevel::LogLevelTrace,
                message@,
                t,
                loc,
                &o,
            ),
{
    reg.default_logger.log_trace_f(message)
}

} // verus!
