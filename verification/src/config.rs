use vstd::prelude::*;

use crate::levels::{LogFileSaveType, LogLevel};

verus! {

/// The immutable configuration snapshot a logger is built from.
#[derive(Debug)]
pub struct LogConfig {
    pub project_name: String,
    pub enable_save_log_file: bool,
    pub log_dir: String,
    pub log_level: LogLevel,
    pub file_save_days_max: u64,
    pub file_save_type: LogFileSaveType,
}

/// The base directory used when the caller supplies an empty one.
pub open spec fn default_dir_spec(project_name: Seq<char>) -> Seq<char> {
    "/var/log/"@ + project_name
}

/// The directory a configuration ends up with: the caller's choice, or the
/// default under the project's name when the caller's string is empty.
pub open spec fn chosen_dir_spec(log_dir: Seq<char>, project_name: Seq<char>) -> Seq<char> {
    if log_dir.len() == 0 {
        default_dir_spec(project_name)
    } else {
        log_dir
    }
}

/// The default log directory for a project.
pub fn default_log_dir(project_name: &str) -> (r: String)
    ensures
        r@ == default_dir_spec(project_name@),
{
    let mut dir = String::from_str("/var/log/");
    dir.append(project_name);
    dir
}

impl LogConfig {
    /// Builds the snapshot for the given settings, applying the directory
    /// default. The invariant that `log_dir` is non-empty follows from a
    /// non-empty `project_name` making the default non-empty.
    pub fn build(
        project_name: &str,
        enable_save_log_file: bool,
        log_dir: &str,
        log_level: LogLevel,
        file_save_days_max: u64,
        file_save_type: LogFileSaveType,
    ) -> (c: LogConfig)
        ensures
            c.project_name@ == project_name@,
            c.enable_save_log_file == enable_save_log_file,
            c.log_dir@ == chosen_dir_spec(log_dir@, project_name@),
            c.log_level == log_level,
            c.file_save_days_max == file_save_days_max,
            c.file_save_type == file_save_type,
            c.log_dir@.len() > 0,
    {
        let dir = if log_dir.unicode_len() == 0 {
            default_log_dir(project_name)
        } else {
            String::from_str(log_dir)
        };
        proof {
            reveal_strlit("/var/log/");
        }
        LogConfig {
            project_name: String::from_str(project_name),
            enable_save_log_file,
            log_dir: dir,
            log_level,
            file_save_days_max,
            file_save_type,
        }
    }

    /// A copy of this snapshot with only the project name replaced, as used
    /// for a subsystem-scoped manager.
    pub fn with_project_name(&self, name: &str) -> (c: LogConfig)
        ensures
            c.project_name@ == name@,
            c.enable_save_log_file == self.enable_save_log_file,
            c.log_dir == self.log_dir,
            c.log_level == self.log_level,
            c.file_save_days_max == self.file_save_days_max,
            c.file_save_type == self.file_save_type,
    {
        LogConfig {
            project_name: String::from_str(name),
            enable_save_log_file: self.enable_save_log_file,
            log_dir: self.log_dir.clone(),
            log_level: self.log_level,
            file_save_days_max: self.file_save_days_max,
            file_save_type: self.file_save_type,
        }
    }

    /// A copy of this snapshot with only the supplied fields replaced.
    pub fn merged(
        &self,
        log_level: Option<LogLevel>,
        log_dir: Option<&str>,
        file_save_days_max: Option<u64>,
    ) -> (c: LogConfig)
        ensures
            c.project_name == self.project_name,
            c.enable_save_log_file == self.enable_save_log_file,
            c.file_save_type == self.file_save_type,
            c.log_level == if log_level is Some {
                log_level.unwrap()
            } else {
                self.log_level
            },
            c.log_dir@ == if log_dir is Some {
                log_dir.unwrap()@
            } else {
                self.log_dir@
            },
            c.file_save_days_max == if file_save_days_max is Some {
                file_save_days_max.unwrap()
            } else {
                self.file_save_days_max
            },
    {
        let level = match log_level {
            Some(l) => l,
            None => self.log_level,
        };
        let dir = match log_dir {
            Some(d) => String::from_str(d),
            None => self.log_dir.clone(),
        };
        let days = match file_save_days_max {
            Some(d) => d,
            None => self.file_save_days_max,
        };
        LogConfig {
            project_name: self.project_name.clone(),
            enable_save_log_file: self.enable_save_log_file,
            log_dir: dir,
            log_level: level,
            file_save_days_max: days,
            file_save_type: self.file_save_type,
        }
    }
}

impl Clone for LogConfig {
    /// A clone carries every field over unchanged.
    fn clone(&self) -> (c: Self)
        ensures
            c == *self,
    {
        LogConfig {
            project_name: self.project_name.clone(),
            enable_save_log_file: self.enable_save_log_file,
            log_dir: self.log_dir.clone(),
            log_level: self.log_level,
            file_save_days_max: self.file_save_days_max,
            file_save_type: self.file_save_type,
        }
    }
}

impl Default for LogConfig {
    /// The well-specified configuration used before any setup call: console
    /// mode, every level emitted, a week of retention, day-sized buckets.
    fn default() -> (c: Self)
        ensures
            c.project_name@ == "default"@,
            c.enable_save_log_file == false,
            c.log_dir@ == default_dir_spec("default"@),
            c.log_level == LogLevel::LogLevelTrace,
            c.file_save_days_max == 7,
            c.file_save_type == LogFileSaveType::LogFileSaveTypeDays,
            c.log_dir@.len() > 0,
    {
        proof {
            reveal_strlit("/var/log/");
        }
        LogConfig {
            project_name: String::from_str("default"),
            enable_save_log_file: false,
            log_dir: default_log_dir("default"),
            log_level: LogLevel::LogLevelTrace,
            file_save_days_max: 7,
            file_save_type: LogFileSaveType::LogFileSaveTypeDays,
        }
    }
}

} // verus!
