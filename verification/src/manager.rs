use vstd::prelude::*;

use crate::caller::get_caller_info;
use crate::clock::{day_index, hour_index, day_index_of, hour_index_of, now_local, LocalTime};
use crate::config::LogConfig;
use crate::format::{format_line, line_spec};
use crate::levels::{is_verbose, level_passes, should_emit, LogFileSaveType, LogLevel};
use crate::paths::{
    bucket_dir_spec, bucket_path_spec, compute_bucket_dir, compute_bucket_path,
    compute_run_log_path, build_project_dir, project_dir_spec, rel_target_spec, run_log_path_spec,
    needs_rotation,
};
use crate::symlink::{plan_rel_target, symlink_safe};

verus! {

/// The bucket index of a time under a retention policy: its day for day
/// buckets, its hour for hour buckets.
pub open spec fn bucket_index_spec(t: LocalTime, ty: LogFileSaveType) -> nat {
    match ty {
        LogFileSaveType::LogFileSaveTypeDays => day_index_of(t),
        LogFileSaveType::LogFileSaveTypeHours => hour_index_of(t),
    }
}

/// Computes [`bucket_index_spec`].
pub fn bucket_index(t: &LocalTime, ty: LogFileSaveType) -> (r: u64)
    requires
        t.valid(),
    ensures
        r as nat == bucket_index_spec(*t, ty),
{
    match ty {
        LogFileSaveType::LogFileSaveTypeDays => day_index(t),
        LogFileSaveType::LogFileSaveTypeHours => hour_index(t),
    }
}

/// A pruning pass the caller should run over the project directory: remove
/// every artifact older than `keep` buckets before bucket `now_bucket`.
pub struct PrunePlan {
    pub scan_dir: String,
    pub now_bucket: u64,
    pub keep: u64,
    pub save_type: LogFileSaveType,
}

/// The filesystem work of one rotation, for the caller to perform: create
/// the bucket directory, open the bucket file for append, refresh the
/// symbolic link, and optionally prune.
pub struct FilePlan {
    pub dir_path: String,
    pub file_path: String,
    pub link_path: String,
    pub link_target: Option<String>,
    pub prune: Option<PrunePlan>,
}

/// What one emit call decided: the formatted line if the level passed, and
/// which sink it goes to. At most one of `wrote_console`,
/// `write_to_open_file` and `rotation is Some` holds.
pub struct EmitOutcome {
    pub line: Option<String>,
    pub wrote_console: bool,
    pub write_to_open_file: bool,
    pub rotation: Option<FilePlan>,
}

impl EmitOutcome {
    /// An emit that was filtered away: nothing was written, nothing is owed.
    pub open spec fn is_empty(&self) -> bool {
        &&& self.line is None
        &&& !self.wrote_console
        &&& !self.write_to_open_file
        &&& self.rotation is None
    }
}

/// The rotation plan `p` is the one configuration `c` calls for at time `t`.
pub open spec fn file_plan_matches(c: &LogConfig, t: LocalTime, p: &FilePlan, prune: bool) -> bool {
    &&& p.dir_path@ == bucket_dir_spec(c, t)
    &&& p.file_path@ == bucket_path_spec(c, t)
    &&& p.link_path@ == run_log_path_spec(c)
    &&& (p.link_target is Some <==> symlink_safe(c))
    &&& (p.link_target is Some ==> p.link_target.unwrap()@ == rel_target_spec(
        t,
        c.file_save_type,
    ))
    &&& if prune {
        &&& p.prune is Some
        &&& p.prune.unwrap().scan_dir@ == project_dir_spec(c)
        &&& p.prune.unwrap().now_bucket as nat == bucket_index_spec(t, c.file_save_type)
        &&& p.prune.unwrap().keep == c.file_save_days_max
        &&& p.prune.unwrap().save_type == c.file_save_type
    } else {
        p.prune is None
    }
}

/// The plan opens the bucket of some valid instant under `config`, without
/// a pruning pass: the shape of the plan a fresh manager hands back.
pub open spec fn init_plan_ok(config: &LogConfig, p: &FilePlan) -> bool {
    exists|t: LocalTime| t.valid() && #[trigger] file_plan_matches(config, t, p, false)
}

/// A logger: a configuration snapshot, the path of the bucket file whose
/// handle the caller holds open (none in console mode or after a failed
/// rotation), and the path of the last rotation attempt. Exactly one handle
/// is modeled live at a time.
pub struct LoggerManager {
    pub config: LogConfig,
    pub active_path: Option<String>,
    pub attempted_path: String,
}

/// The result of an emit under a manager at one instant: the line and its
/// sink, exactly as [`LoggerManager::plan_emit`] decides them.
pub open spec fn emit_outcome_at(
    m: &LoggerManager,
    level: LogLevel,
    msg: Seq<char>,
    t: LocalTime,
    loc: Option<Seq<char>>,
    o: &EmitOutcome,
) -> bool {
    &&& o.line is Some
    &&& o.line.unwrap()@ == line_spec(level, msg, t, loc, !m.config.enable_save_log_file)
    &&& if !m.config.enable_save_log_file {
        &&& o.wrote_console
        &&& !o.write_to_open_file
        &&& o.rotation is None
    } else if m.attempted_path@ == bucket_path_spec(&m.config, t) {
        &&& o.rotation is None
        &&& o.write_to_open_file == (m.active_path is Some)
        &&& o.wrote_console == (m.active_path is None)
    } else {
        &&& !o.wrote_console
        &&& !o.write_to_open_file
        &&& o.rotation is Some
        &&& file_plan_matches(&m.config, t, &o.rotation.unwrap(), true)
    }
}

impl LoggerManager {
    /// The manager's invariant: a live handle exists only in file mode, and
    /// only for the bucket of the last (successful) rotation attempt.
    pub open spec fn wf(&self) -> bool {
        self.active_path is Some ==> {
            &&& self.config.enable_save_log_file
            &&& self.active_path.unwrap()@ == self.attempted_path@
        }
    }

    /// Builds the rotation plan for time `t`, with or without a pruning pass.
    fn plan_rotation(&self, t: &LocalTime, prune: bool) -> (p: FilePlan)
        requires
            t.valid(),
        ensures
            file_plan_matches(&self.config, *t, &p, prune),
    {
        let dir_path = compute_bucket_dir(&self.config, t);
        let file_path = compute_bucket_path(&self.config, t);
        let link_path = compute_run_log_path(&self.config);
        let project_dir = build_project_dir(&self.config);
        let link_target = plan_rel_target(&self.config, t, file_path.as_str(), project_dir.as_str());
        let prune_plan = if prune {
            Some(
                PrunePlan {
                    scan_dir: project_dir,
                    now_bucket: bucket_index(t, self.config.file_save_type),
                    keep: self.config.file_save_days_max,
                    save_type: self.config.file_save_type,
                },
            )
        } else {
            None
        };
        FilePlan { dir_path, file_path, link_path, link_target, prune: prune_plan }
    }

    /// Builds a manager for `config`. In file mode the returned plan holds
    /// the filesystem work that opens the first bucket file; the caller
    /// performs it and reports the result through [`Self::commit_rotation`].
    pub fn initialize_logger(config: LogConfig) -> (r: (LoggerManager, Option<FilePlan>))
        ensures
            r.0.config == config,
            r.0.active_path is None,
            r.0.attempted_path@ == Seq::<char>::empty(),
            r.0.wf(),
            r.1 is Some <==> config.enable_save_log_file,
            r.1 is Some ==> init_plan_ok(&config, &r.1.unwrap()),
    {
        let m = LoggerManager {
            config,
            active_path: None,
            attempted_path: String::new(),
        };
        if m.config.enable_save_log_file {
            let t = now_local();
            let p = m.plan_rotation(&t, false);
            proof {
                assert(init_plan_ok(&m.config, &p)) by {
                    assert(t.valid() && file_plan_matches(&m.config, t, &p, false));
                }
            }
            (m, Some(p))
        } else {
            (m, None)
        }
    }

    /// Records the result of the filesystem work of a rotation: on success
    /// the handle at `file_path` is the one live handle; on failure none is,
    /// and no new attempt is made before the next bucket boundary.
    pub fn commit_rotation(&mut self, file_path: &str, success: bool)
        requires
            old(self).config.enable_save_log_file,
        ensures
            final(self).config == old(self).config,
            final(self).attempted_path@ == file_path@,
            success <==> final(self).active_path is Some,
            success ==> final(self).active_path.unwrap()@ == file_path@,
            final(self).wf(),
    {
        self.attempted_path = file_path.to_owned();
        if success {
            self.active_path = Some(file_path.to_owned());
        } else {
            self.active_path = None;
        }
    }

    /// Decides one emit at time `t` with caller location `loc`: whether the
    /// line is emitted at all, its exact text, and its sink.
    pub fn plan_emit(&self, level: LogLevel, message: &str, t: &LocalTime, loc: Option<&String>) -> (o:
        EmitOutcome)
        requires
            t.valid(),
        ensures
            o.line is Some <==> level_passes(level, self.config.log_level),
            !level_passes(level, self.config.log_level) ==> o.is_empty(),
            level_passes(level, self.config.log_level) ==> emit_outcome_at(
                self,
                level,
                message@,
                *t,
                match loc {
                    Some(l) => Some(l@),
                    None => None,
                },
                &o,
            ),
    {
        if !should_emit(level, self.config.log_level) {
            return EmitOutcome {
                line: None,
                wrote_console: false,
                write_to_open_file: false,
                rotation: None,
            };
        }
        let colored = !self.config.enable_save_log_file;
        let line = format_line(level, message, t, loc, colored);
        if !self.config.enable_save_log_file {
            return EmitOutcome {
                line: Some(line),
                wrote_console: true,
                write_to_open_file: false,
                rotation: None,
            };
        }
        if !needs_rotation(self.attempted_path.as_str(), &self.config, t) {
            let open = match &self.active_path {
                Some(_) => true,
                None => false,
            };
            return EmitOutcome {
                line: Some(line),
                wrote_console: !open,
                write_to_open_file: open,
                rotation: None,
            };
        }
        let plan = self.plan_rotation(t, true);
        EmitOutcome {
            line: Some(line),
            wrote_console: false,
            write_to_open_file: false,
            rotation: Some(plan),
        }
    }

    /// One emit: reads the clock, resolves the caller for the verbose
    /// levels, decides line and sink, and writes a console line itself. Work
    /// on the bucket file is returned for the caller to perform. A filtered
    /// emit does no work at all.
    pub fn log_format(&self, level: LogLevel, message: &str) -> (o: EmitOutcome)
        ensures
            o.line is Some <==> level_passes(level, self.config.log_level),
            !level_passes(level, self.config.log_level) ==> o.is_empty(),
            level_passes(level, self.config.log_level) ==> exists|t: LocalTime, loc: Option<Seq<char>>|
                t.valid() && (loc is Some <==> is_verbose(level)) && #[trigger] emit_outcome_at(
                    self,
                    level,
                    message@,
                    t,
                    loc,
                    &o,
                ),
    {
        if !should_emit(level, self.config.log_level) {
            return EmitOutcome {
                line: None,
                wrote_console: false,
                write_to_open_file: false,
                rotation: None,
            };
        }
        let t = now_local();
        let location = match level {
            LogLevel::LogLevelDebug | LogLevel::LogLevelTrace => Some(get_caller_info()),
            _ => None,
        };
        let o = self.plan_emit(level, message, &t, location.as_ref());
        if o.wrote_console {
            match &o.line {
                Some(l) => console_write(l.as_str()),
                None => {},
            }
        }
        proof {
            let locv: Option<Seq<char>> = match location {
                Some(l) => Some(l@),
                None => None,
            };
            assert(t.valid() && (locv is Some <==> is_verbose(level)) && emit_outcome_at(
                self,
                level,
                message@,
                t,
                locv,
                &o,
            ));
        }
        o
    }

    /// Emits at the Info level.
    pub fn log_info_f(&self, message: &str) -> (o: EmitOutcome)
        ensures
            o.line is Some <==> level_passes(LogLevel::LogLevelInfo, self.config.log_level),
            !level_passes(LogLevel::LogLevelInfo, self.config.log_level) ==> o.is_empty(),
            level_passes(LogLevel::LogLevelInfo, self.config.log_level) ==> exists|
                t: LocalTime,
                loc: Option<Seq<char>>,
            |
                t.valid() && (loc is Some <==> is_verbose(LogLevel::LogLevelInfo))
                    && #[trigger] emit_outcome_at(self, LogLevel::LogLevelInfo, message@, t, loc, &o),
    {
        self.log_format(LogLevel::LogLevelInfo, message)
    }

    /// Emits at the Warning level.
    pub fn log_warning_f(&self, message: &str) -> (o: EmitOutcome)
        ensures
            o.line is Some <==> level_passes(LogLevel::LogLevelWarning, self.config.log_level),
            !level_passes(LogLevel::LogLevelWarning, self.config.log_level) ==> o.is_empty(),
            level_passes(LogLevel::LogLevelWarning, self.config.log_level) ==> exists|
                t: LocalTime,
                loc: Option<Seq<char>>,
            |
                t.valid() && (loc is Some <==> is_verbose(LogLevel::LogLevelWarning))
                    && #[trigger] emit_outcome_at(self, LogLevel::LogLevelWarning, message@, t, loc, &o),
    {
        self.log_format(LogLevel::LogLevelWarning, message)
    }

    /// Emits at the Error level.
    pub fn log_error_f(&self, message: &str) -> (o: EmitOutcome)
        ensures
            o.line is Some <==> level_passes(LogLevel::LogLevelError, self.config.log_level),
            !level_passes(LogLevel::LogLevelError, self.config.log_level) ==> o.is_empty(),
            level_passes(LogLevel::LogLevelError, self.config.log_level) ==> exists|
                t: LocalTime,
                loc: Option<Seq<char>>,
            |
                t.valid() && (loc is Some <==> is_verbose(LogLevel::LogLevelError))
                    && #[trigger] emit_outcome_at(self, LogLevel::LogLevelError, message@, t, loc, &o),
    {
        self.log_format(LogLevel::LogLevelError, message)
    }

    /// Emits at the Debug level.
    pub fn log_debug_f(&self, message: &str) -> (o: EmitOutcome)
        ensures
            o.line is Some <==> level_passes(LogLevel::LogLevelDebug, self.config.log_level),
            !level_passes(LogLevel::LogLevelDebug, self.config.log_level) ==> o.is_empty(),
            level_passes(LogLevel::LogLevelDebug, self.config.log_level) ==> exists|
                t: LocalTime,
                loc: Option<Seq<char>>,
            |
                t.valid() && (loc is Some <==> is_verbose(LogLevel::LogLevelDebug))
                    && #[trigger] emit_outcome_at(self, LogLevel::LogLevelDebug, message@, t, loc, &o),
    {
        self.log_format(LogLevel::LogLevelDebug, message)
    }

    /// Emits at the Trace level.
    pub fn log_trace_f(&self, message: &str) -> (o: EmitOutcome)
        ensures
            o.line is Some <==> level_passes(LogLevel::LogLevelTrace, self.config.log_level),
            !level_passes(LogLevel::LogLevelTrace, self.config.log_level) ==> o.is_empty(),
            level_passes(LogLevel::LogLevelTrace, self.config.log_level) ==> exists|
                t: LocalTime,
                loc: Option<Seq<char>>,
            |
                t.valid() && (loc is Some <==> is_verbose(LogLevel::LogLevelTrace))
                    && #[trigger] emit_outcome_at(self, LogLevel::LogLevelTrace, message@, t, loc, &o),
    {
        self.log_format(LogLevel::LogLevelTrace, message)
    }
}

/// Relies on std::io: writes the bytes of one formatted line to standard
/// output.
#[verifier::external_body]
fn console_write(line: &str) {
    let mut out = std::io::stdout();
    let _ = std::io::Write::write_all(&mut out, line.as_bytes());
}

} // verus!
