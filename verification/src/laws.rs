use vstd::prelude::*;

use crate::clock::LocalTime;
use crate::config::LogConfig;
use crate::format::{line_spec, offset_str_spec, timestamp_spec};
use crate::levels::{color_of, tag_of, LogFileSaveType, LogLevel};
use crate::manager::{
    bucket_index_spec, emit_outcome_at, file_plan_matches, EmitOutcome, FilePlan, LoggerManager,
};
use crate::paths::{
    bucket_file_spec, bucket_path_spec, date_str_spec, lemma_bucket_path_decomposes,
    project_dir_spec,
};
use crate::prune::{
    is_hour_shape, is_stale_spec, lemma_date_name_complete, lemma_date_str_injective,
    lemma_decompose2, lemma_dval_digit_char, name_bucket_spec, name_is_stale, parse_date_spec,
    parse_hour_spec, val2,
};
use crate::strutil::{
    is_digit_char, lemma_digit_char_injective, lemma_digit_char_is_digit, pad2,
};
use crate::symlink::lemma_date_chars;

verus! {

/// Two values below one hundred with equal two-digit renderings are equal.
proof fn lemma_pad2_injective(a: nat, b: nat)
    requires
        a < 100,
        b < 100,
        pad2(a) == pad2(b),
    ensures
        a == b,
{
    assert(pad2(a)[0] == pad2(b)[0]);
    assert(pad2(a)[1] == pad2(b)[1]);
    lemma_digit_char_injective(a / 10 % 10, b / 10 % 10);
    lemma_digit_char_injective(a % 10, b % 10);
    lemma_decompose2(a);
    lemma_decompose2(b);
}

/// The bucket path is a pure function of the configuration and the
/// truncated time: two instants in the same bucket yield the same path.
/// The minute and second never enter; the hour enters only for hour buckets.
pub proof fn lemma_bucket_path_same_bucket(c: &LogConfig, t1: LocalTime, t2: LocalTime)
    requires
        t1.year == t2.year,
        t1.month == t2.month,
        t1.day == t2.day,
        c.file_save_type is LogFileSaveTypeHours ==> t1.hour == t2.hour,
    ensures
        bucket_path_spec(c, t1) == bucket_path_spec(c, t2),
{
}

/// Crossing a bucket boundary changes the bucket path: under one
/// configuration, instants of different buckets yield different paths.
pub proof fn lemma_bucket_path_distinct(c: &LogConfig, t1: LocalTime, t2: LocalTime)
    requires
        t1.valid(),
        t2.valid(),
        !(t1.year == t2.year && t1.month == t2.month && t1.day == t2.day
            && (c.file_save_type is LogFileSaveTypeDays || t1.hour == t2.hour)),
    ensures
        bucket_path_spec(c, t1) != bucket_path_spec(c, t2),
{
    reveal_strlit("-");
    reveal_strlit("/");
    reveal_strlit("_");
    reveal_strlit(".log");
    if bucket_path_spec(c, t1) == bucket_path_spec(c, t2) {
        let p1 = bucket_path_spec(c, t1);
        let p2 = bucket_path_spec(c, t2);
        let pd = project_dir_spec(c);
        let start = pd.len() as int + 1;
        let d1 = date_str_spec(t1);
        let d2 = date_str_spec(t2);
        lemma_date_chars(t1);
        lemma_date_chars(t2);
        assert(d1 =~= p1.subrange(start, start + 10));
        assert(d2 =~= p2.subrange(start, start + 10));
        assert(d1 == d2);
        lemma_date_str_injective(
            t1.year as nat,
            t1.month as nat,
            t1.day as nat,
            t2.year as nat,
            t2.month as nat,
            t2.day as nat,
        );
        match c.file_save_type {
            LogFileSaveType::LogFileSaveTypeDays => {},
            LogFileSaveType::LogFileSaveTypeHours => {
                let h1 = pad2(t1.hour as nat);
                let h2 = pad2(t2.hour as nat);
                assert(h1 =~= p1.subrange(start + 22, start + 24));
                assert(h2 =~= p2.subrange(start + 22, start + 24));
                lemma_pad2_injective(t1.hour as nat, t2.hour as nat);
            },
        }
    }
}

/// Rotation is idempotent within a bucket: once a rotation for the bucket
/// of `t1` has been committed, an emit at any instant `t2` of the same
/// bucket proposes no rotation, and writes to the one live handle when the
/// committed rotation succeeded.
pub proof fn lemma_rotation_idempotent(
    m: &LoggerManager,
    level: LogLevel,
    msg: Seq<char>,
    t1: LocalTime,
    t2: LocalTime,
    loc: Option<Seq<char>>,
    o: EmitOutcome,
)
    requires
        m.config.enable_save_log_file,
        m.attempted_path@ == bucket_path_spec(&m.config, t1),
        t1.year == t2.year,
        t1.month == t2.month,
        t1.day == t2.day,
        m.config.file_save_type is LogFileSaveTypeHours ==> t1.hour == t2.hour,
        emit_outcome_at(m, level, msg, t2, loc, &o),
    ensures
        o.rotation is None,
        o.write_to_open_file == (m.active_path is Some),
{
    lemma_bucket_path_same_bucket(&m.config, t1, t2);
}

/// The symbolic link of a rotation round-trips: the project directory the
/// link lives in, followed by the planned relative target, is exactly the
/// bucket file the rotation opened.
pub proof fn lemma_symlink_round_trip(c: &LogConfig, t: LocalTime, p: &FilePlan, prune: bool)
    requires
        file_plan_matches(c, t, p, prune),
        p.link_target is Some,
    ensures
        project_dir_spec(c) + "/"@ + p.link_target.unwrap()@ == p.file_path@,
        p.link_path@ == project_dir_spec(c) + "/run.log"@,
{
    lemma_bucket_path_decomposes(c, t);
}

/// The pruning boundary is exact: an artifact aged exactly `keep` buckets
/// is retained, and one bucket older is removed.
pub proof fn lemma_prune_boundary(now_bucket: nat, keep: nat)
    requires
        keep <= now_bucket,
    ensures
        !is_stale_spec((now_bucket - keep) as nat, now_bucket, keep),
        now_bucket - keep >= 1 ==> is_stale_spec((now_bucket - keep - 1) as nat, now_bucket, keep),
{
}

/// The artifacts a rotation creates are exactly what the pruning pass
/// recognizes: the day directory name under day buckets, and the hour file
/// name under hour buckets, each parse back to their own bucket index.
pub proof fn lemma_artifact_names_parse_back(t: LocalTime, ty: LogFileSaveType)
    requires
        t.valid(),
    ensures
        ty is LogFileSaveTypeDays ==> name_bucket_spec(date_str_spec(t), ty) == Some(
            bucket_index_spec(t, ty),
        ),
        ty is LogFileSaveTypeHours ==> name_bucket_spec(bucket_file_spec(t, ty), ty) == Some(
            bucket_index_spec(t, ty),
        ),
{
    lemma_date_name_complete(t.year as nat, t.month as nat, t.day as nat);
    match ty {
        LogFileSaveType::LogFileSaveTypeDays => {},
        LogFileSaveType::LogFileSaveTypeHours => {
            let s = bucket_file_spec(t, ty);
            let date = date_str_spec(t);
            reveal_strlit("_");
            reveal_strlit(".log");
            lemma_date_chars(t);
            assert(s.subrange(0, 10) =~= date);
            assert(s.subrange(13, 17) =~= ".log"@);
            lemma_digit_char_is_digit(t.hour as nat / 10 % 10);
            lemma_digit_char_is_digit(t.hour as nat % 10);
            assert(s[11] == pad2(t.hour as nat)[0]);
            assert(s[12] == pad2(t.hour as nat)[1]);
            assert(is_hour_shape(s));
            lemma_dval_digit_char(t.hour as nat / 10 % 10);
            lemma_dval_digit_char(t.hour as nat % 10);
            lemma_decompose2(t.hour as nat);
            assert(val2(s, 11) == t.hour as nat);
            assert(parse_date_spec(s.subrange(0, 10)) == Some(
                (t.year as nat, t.month as nat, t.day as nat),
            ));
            assert(parse_hour_spec(s) == Some(
                (t.year as nat, t.month as nat, t.day as nat, t.hour as nat),
            ));
        },
    }
}

/// A just-created bucket artifact is never selected by the pruning pass that
/// runs in the same bucket, whatever the retention window.
pub proof fn lemma_fresh_artifact_retained(t: LocalTime, ty: LogFileSaveType, keep: nat)
    requires
        t.valid(),
    ensures
        ty is LogFileSaveTypeDays ==> !name_is_stale(
            date_str_spec(t),
            ty,
            bucket_index_spec(t, ty),
            keep,
        ),
        ty is LogFileSaveTypeHours ==> !name_is_stale(
            bucket_file_spec(t, ty),
            ty,
            bucket_index_spec(t, ty),
            keep,
        ),
{
    lemma_artifact_names_parse_back(t, ty);
}

/// `s` holds no newline at all.
pub open spec fn no_newline(s: Seq<char>) -> bool {
    forall|i: int| 0 <= i < s.len() ==> s[i] != '\n'
}

/// Concatenation preserves the absence of newlines.
proof fn lemma_no_nl_concat(a: Seq<char>, b: Seq<char>)
    requires
        no_newline(a),
        no_newline(b),
    ensures
        no_newline(a + b),
{
    assert forall|i: int| 0 <= i < (a + b).len() implies (a + b)[i] != '\n' by {
        if i < a.len() {
            assert((a + b)[i] == a[i]);
        } else {
            assert((a + b)[i] == b[i - a.len()]);
        }
    }
}

/// Digit characters are never a newline.
proof fn lemma_pad2_no_nl(n: nat)
    ensures
        no_newline(pad2(n)),
{
    lemma_digit_char_is_digit(n / 10 % 10);
    lemma_digit_char_is_digit(n % 10);
}

/// A rendered timestamp holds no newline.
proof fn lemma_timestamp_no_nl(t: LocalTime)
    ensures
        no_newline(timestamp_spec(t)),
{
    reveal_strlit("-");
    reveal_strlit("+");
    reveal_strlit(":");
    reveal_strlit(" ");
    lemma_date_chars(t);
    assert(no_newline(date_str_spec(t))) by {
        assert forall|i: int| 0 <= i < date_str_spec(t).len() implies date_str_spec(t)[i] != '\n'
        by {
            assert(is_digit_char(date_str_spec(t)[i]) || date_str_spec(t)[i] == '-');
        }
    }
    lemma_pad2_no_nl(t.hour as nat);
    lemma_pad2_no_nl(t.minute as nat);
    lemma_pad2_no_nl(t.second as nat);
    let off = t.offset_seconds as int;
    let a = if off < 0 {
        -off
    } else {
        off
    };
    lemma_pad2_no_nl((a / 3600) as nat);
    lemma_pad2_no_nl((a % 3600 / 60) as nat);
    lemma_no_nl_concat(
        if off < 0 {
            "-"@
        } else {
            "+"@
        },
        pad2((a / 3600) as nat),
    );
    lemma_no_nl_concat(
        (if off < 0 {
            "-"@
        } else {
            "+"@
        }) + pad2((a / 3600) as nat),
        ":"@,
    );
    lemma_no_nl_concat(
        (if off < 0 {
            "-"@
        } else {
            "+"@
        }) + pad2((a / 3600) as nat) + ":"@,
        pad2((a % 3600 / 60) as nat),
    );
    assert(no_newline(offset_str_spec(off)));
    let s0 = date_str_spec(t);
    lemma_no_nl_concat(s0, " "@);
    lemma_no_nl_concat(s0 + " "@, pad2(t.hour as nat));
    lemma_no_nl_concat(s0 + " "@ + pad2(t.hour as nat), ":"@);
    lemma_no_nl_concat(s0 + " "@ + pad2(t.hour as nat) + ":"@, pad2(t.minute as nat));
    lemma_no_nl_concat(s0 + " "@ + pad2(t.hour as nat) + ":"@ + pad2(t.minute as nat), ":"@);
    lemma_no_nl_concat(
        s0 + " "@ + pad2(t.hour as nat) + ":"@ + pad2(t.minute as nat) + ":"@,
        pad2(t.second as nat),
    );
    lemma_no_nl_concat(
        s0 + " "@ + pad2(t.hour as nat) + ":"@ + pad2(t.minute as nat) + ":"@ + pad2(
            t.second as nat,
        ),
        " "@,
    );
    lemma_no_nl_concat(
        s0 + " "@ + pad2(t.hour as nat) + ":"@ + pad2(t.minute as nat) + ":"@ + pad2(
            t.second as nat,
        ) + " "@,
        offset_str_spec(off),
    );
}

/// The level tag holds no newline.
proof fn lemma_tag_no_nl(level: LogLevel)
    ensures
        no_newline(tag_of(level)),
{
    reveal_strlit("INFO");
    reveal_strlit("WARNING");
    reveal_strlit("ERROR");
    reveal_strlit("DEBUG");
    reveal_strlit("TRACE");
}

/// The color escapes hold no newline.
proof fn lemma_color_no_nl(level: LogLevel)
    ensures
        no_newline(color_of(level)),
        no_newline("\x1b[0m"@),
{
    reveal_strlit("\x1b[32m");
    reveal_strlit("\x1b[33m");
    reveal_strlit("\x1b[31m");
    reveal_strlit("\x1b[36m");
    reveal_strlit("\x1b[34m");
    reveal_strlit("\x1b[0m");
}

/// A formatted log line is one well-formed line: it ends in a newline, and
/// holds no other, whenever the message and the location hold none. Under
/// the manager's write lock this is what keeps concurrent emits from
/// tearing each other's lines.
pub proof fn lemma_line_well_formed(
    level: LogLevel,
    msg: Seq<char>,
    t: LocalTime,
    loc: Option<Seq<char>>,
    colored: bool,
)
    requires
        no_newline(msg),
        loc is Some ==> no_newline(loc.unwrap()),
    ensures
        line_spec(level, msg, t, loc, colored).len() > 0,
        line_spec(level, msg, t, loc, colored).last() == '\n',
        forall|i: int|
            0 <= i < line_spec(level, msg, t, loc, colored).len() - 1 ==> line_spec(
                level,
                msg,
                t,
                loc,
                colored,
            )[i] != '\n',
{
    reveal_strlit("[");
    reveal_strlit("] ");
    reveal_strlit("]");
    reveal_strlit(" ");
    reveal_strlit(" [");
    reveal_strlit("]\n");
    lemma_timestamp_no_nl(t);
    lemma_tag_no_nl(level);
    lemma_color_no_nl(level);
    let color = if colored {
        color_of(level)
    } else {
        Seq::<char>::empty()
    };
    let reset = if colored {
        "\x1b[0m"@
    } else {
        Seq::<char>::empty()
    };
    let locpart = match loc {
        Some(l) => " "@ + l,
        None => Seq::<char>::empty(),
    };
    assert(no_newline(locpart)) by {
        match loc {
            Some(l) => {
                lemma_no_nl_concat(" "@, l);
            },
            None => {},
        }
    }
    let s1 = "["@ + timestamp_spec(t);
    lemma_no_nl_concat("["@, timestamp_spec(t));
    let s2 = s1 + "] "@;
    lemma_no_nl_concat(s1, "] "@);
    let s3 = s2 + color;
    lemma_no_nl_concat(s2, color);
    let s4 = s3 + "["@;
    lemma_no_nl_concat(s3, "["@);
    let s5 = s4 + tag_of(level);
    lemma_no_nl_concat(s4, tag_of(level));
    let s6 = s5 + "]"@;
    lemma_no_nl_concat(s5, "]"@);
    let s7 = s6 + reset;
    lemma_no_nl_concat(s6, reset);
    let s8 = s7 + locpart;
    lemma_no_nl_concat(s7, locpart);
    let s9 = s8 + " ["@;
    lemma_no_nl_concat(s8, " ["@);
    let s10 = s9 + msg;
    lemma_no_nl_concat(s9, msg);
    let line = line_spec(level, msg, t, loc, colored);
    assert(line =~= s10 + "]\n"@);
    assert(line.last() == '\n');
    assert forall|i: int| 0 <= i < line.len() - 1 implies line[i] != '\n' by {
        if i < s10.len() {
            assert(line[i] == s10[i]);
        } else {
            assert(line[i] == "]\n"@[i - s10.len()]);
            assert(i - s10.len() == 0);
        }
    }
}

/// An emitted line is well formed whatever instant and location the emit
/// observed, as long as the message holds no newline and the location does
/// not either.
pub proof fn lemma_emit_line_well_formed(
    m: &LoggerManager,
    level: LogLevel,
    msg: Seq<char>,
    t: LocalTime,
    loc: Option<Seq<char>>,
    o: EmitOutcome,
)
    requires
        emit_outcome_at(m, level, msg, t, loc, &o),
        no_newline(msg),
        loc is Some ==> no_newline(loc.unwrap()),
    ensures
        o.line is Some,
        o.line.unwrap()@.last() == '\n',
        forall|i: int|
            0 <= i < o.line.unwrap()@.len() - 1 ==> o.line.unwrap()@[i] != '\n',
{
    lemma_line_well_formed(level, msg, t, loc, !m.config.enable_save_log_file);
}

} // verus!
