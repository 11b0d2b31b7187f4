use vstd::prelude::*;

use crate::clock::LocalTime;
use crate::config::LogConfig;
use crate::levels::LogFileSaveType;
use crate::strutil::{pad2, pad4, push_pad2, push_pad4, str_eq};

verus! {

/// The calendar date of a time, rendered as ten characters.
pub open spec fn date_str_spec(t: LocalTime) -> Seq<char> {
    pad4(t.year as nat) + "-"@ + pad2(t.month as nat) + "-"@ + pad2(t.day as nat)
}

/// The file name of the bucket a time falls into: the date for day buckets,
/// the date and the hour for hour buckets.
pub open spec fn bucket_file_spec(t: LocalTime, ty: LogFileSaveType) -> Seq<char> {
    match ty {
        LogFileSaveType::LogFileSaveTypeDays => date_str_spec(t) + ".log"@,
        LogFileSaveType::LogFileSaveTypeHours => date_str_spec(t) + "_"@ + pad2(t.hour as nat)
            + ".log"@,
    }
}

/// The directory all of a project's logs live under.
pub open spec fn project_dir_spec(c: &LogConfig) -> Seq<char> {
    c.log_dir@ + "/"@ + c.project_name@
}

/// The directory of one day of logs.
pub open spec fn bucket_dir_spec(c: &LogConfig, t: LocalTime) -> Seq<char> {
    project_dir_spec(c) + "/"@ + date_str_spec(t)
}

/// The full path of the bucket file a time falls into. This is a pure
/// function of the configuration and the truncated time alone.
pub open spec fn bucket_path_spec(c: &LogConfig, t: LocalTime) -> Seq<char> {
    bucket_dir_spec(c, t) + "/"@ + bucket_file_spec(t, c.file_save_type)
}

/// The path of the stable `run.log` symbolic link.
pub open spec fn run_log_path_spec(c: &LogConfig) -> Seq<char> {
    project_dir_spec(c) + "/run.log"@
}

/// The relative path from the project directory to the bucket file.
pub open spec fn rel_target_spec(t: LocalTime, ty: LogFileSaveType) -> Seq<char> {
    date_str_spec(t) + "/"@ + bucket_file_spec(t, ty)
}

/// The bucket path is the project directory followed by the relative target.
pub proof fn lemma_bucket_path_decomposes(c: &LogConfig, t: LocalTime)
    ensures
        bucket_path_spec(c, t) == project_dir_spec(c) + "/"@ + rel_target_spec(
            t,
            c.file_save_type,
        ),
{
    assert(bucket_path_spec(c, t) =~= project_dir_spec(c) + "/"@ + rel_target_spec(
        t,
        c.file_save_type,
    ));
}

/// Appends the ten-character date of `t`.
pub fn push_date(s: &mut String, t: &LocalTime)
    requires
        t.valid(),
    ensures
        final(s)@ == old(s)@ + date_str_spec(*t),
{
    push_pad4(s, t.year);
    s.append("-");
    push_pad2(s, t.month);
    s.append("-");
    push_pad2(s, t.day);
    proof {
        assert(s@ =~= old(s)@ + date_str_spec(*t));
    }
}

/// Appends the bucket file name of `t`.
fn push_bucket_file(s: &mut String, t: &LocalTime, ty: LogFileSaveType)
    requires
        t.valid(),
    ensures
        final(s)@ == old(s)@ + bucket_file_spec(*t, ty),
{
    push_date(s, t);
    match ty {
        LogFileSaveType::LogFileSaveTypeDays => {},
        LogFileSaveType::LogFileSaveTypeHours => {
            s.append("_");
            push_pad2(s, t.hour);
        },
    }
    s.append(".log");
    proof {
        assert(s@ =~= old(s)@ + bucket_file_spec(*t, ty));
    }
}

/// The directory all of this configuration's logs live under.
pub fn build_project_dir(c: &LogConfig) -> (r: String)
    ensures
        r@ == project_dir_spec(c),
{
    let mut s = c.log_dir.clone();
    s.append("/");
    s.append(c.project_name.as_str());
    proof {
        assert(s@ =~= project_dir_spec(c));
    }
    s
}

/// The path of the bucket file `t` falls into under configuration `c`.
pub fn compute_bucket_path(c: &LogConfig, t: &LocalTime) -> (r: String)
    requires
        t.valid(),
    ensures
        r@ == bucket_path_spec(c, *t),
{
    let mut s = build_project_dir(c);
    s.append("/");
    push_date(&mut s, t);
    s.append("/");
    push_bucket_file(&mut s, t, c.file_save_type);
    proof {
        assert(s@ =~= bucket_path_spec(c, *t));
    }
    s
}

/// The directory of the bucket file `t` falls into.
pub fn compute_bucket_dir(c: &LogConfig, t: &LocalTime) -> (r: String)
    requires
        t.valid(),
    ensures
        r@ == bucket_dir_spec(c, *t),
{
    let mut s = build_project_dir(c);
    s.append("/");
    push_date(&mut s, t);
    proof {
        assert(s@ =~= bucket_dir_spec(c, *t));
    }
    s
}

/// The path the `run.log` link lives at.
pub fn compute_run_log_path(c: &LogConfig) -> (r: String)
    ensures
        r@ == run_log_path_spec(c),
{
    let mut s = build_project_dir(c);
    s.append("/run.log");
    proof {
        assert(s@ =~= run_log_path_spec(c));
    }
    s
}

/// Rotation is due exactly when the bucket path of the current time differs
/// from the path the manager last opened. Re-evaluated on every emit.
pub fn needs_rotation(current: &str, c: &LogConfig, t: &LocalTime) -> (r: bool)
    requires
        t.valid(),
    ensures
        r == (current@ != bucket_path_spec(c, *t)),
{
    let fresh = compute_bucket_path(c, t);
    !str_eq(current, fresh.as_str())
}

} // verus!
