use vstd::prelude::*;

use crate::clock::LocalTime;
use crate::config::LogConfig;
use crate::levels::LogFileSaveType;
use crate::paths::{
    bucket_file_spec, bucket_path_spec, date_str_spec, lemma_bucket_path_decomposes,
    project_dir_spec, rel_target_spec,
};
use crate::strutil::{is_digit_char, lemma_digit_char_is_digit};

verus! {

/// A path piece contains a `.` or `..` component.
pub open spec fn has_dot_component(s: Seq<char>) -> bool {
    ||| exists|i: int|
        0 <= i < s.len() && #[trigger] s[i] == '.' && (i == 0 || s[i - 1] == '/') && (i + 1
            == s.len() || s[i + 1] == '/')
    ||| exists|i: int|
        0 <= i && i + 1 < s.len() && #[trigger] s[i] == '.' && s[i + 1] == '.' && (i == 0 || s[i
            - 1] == '/') && (i + 2 == s.len() || s[i + 2] == '/')
}

/// A relative path piece whose components survive `Path` normalization
/// unchanged: non-empty, no leading, trailing or doubled separator, and no
/// `.` or `..` component.
pub open spec fn clean_tail(s: Seq<char>) -> bool {
    &&& s.len() > 0
    &&& s[0] != '/'
    &&& s[s.len() - 1] != '/'
    &&& forall|i: int| 0 <= i < s.len() - 1 ==> !(#[trigger] s[i] == '/' && s[i + 1] == '/')
    &&& !has_dot_component(s)
}

/// Relies on pathdiff's `diff_paths`: when the base is a component-wise
/// prefix of the target and the remaining components are plain (no empty,
/// `.` or `..` component), the difference is exactly the remaining piece of
/// the target after the base and its separator.
#[verifier::external_body]
fn diff_paths_under(target: &str, base: &str) -> (r: Option<String>)
    requires
        0 < base@.len(),
        base@[base@.len() - 1] != '/',
        base@.len() + 1 < target@.len(),
        target@.subrange(0, base@.len() as int) == base@,
        target@[base@.len() as int] == '/',
        clean_tail(target@.skip(base@.len() + 1 as int)),
    ensures
        r is Some,
        r.unwrap()@ == target@.skip(base@.len() + 1 as int),
{
    pathdiff::diff_paths(target, base).and_then(|p| p.to_str().map(|s| s.to_string()))
}

/// Character shape of a date rendering: ten characters, each a digit or `-`.
pub(crate) proof fn lemma_date_chars(t: LocalTime)
    ensures
        date_str_spec(t).len() == 10,
        forall|i: int|
            0 <= i < 10 ==> (is_digit_char(#[trigger] date_str_spec(t)[i]) || date_str_spec(t)[i]
                == '-'),
{
    let s = date_str_spec(t);
    reveal_strlit("-");
    assert forall|i: int| 0 <= i < 10 implies (is_digit_char(#[trigger] s[i]) || s[i] == '-') by {
        if i < 4 {
            lemma_digit_char_is_digit(pad4_at(t.year as nat, i));
        }
    }
}

/// The digit value pad4 places at position `i`.
spec fn pad4_at(n: nat, i: int) -> nat {
    if i == 0 {
        n / 1000 % 10
    } else if i == 1 {
        n / 100 % 10
    } else if i == 2 {
        n / 10 % 10
    } else {
        n % 10
    }
}

/// Character shape of a bucket file name: digits, `-` and `_`, ending in
/// `.log`, with the only `.` right before that suffix.
proof fn lemma_bucket_file_chars(t: LocalTime, ty: LogFileSaveType)
    ensures
        bucket_file_spec(t, ty).len() >= 14,
        forall|i: int|
            0 <= i < bucket_file_spec(t, ty).len() ==> #[trigger] bucket_file_spec(t, ty)[i]
                != '/',
        forall|i: int|
            0 <= i < bucket_file_spec(t, ty).len() && #[trigger] bucket_file_spec(t, ty)[i] == '.'
                ==> i == bucket_file_spec(t, ty).len() - 4,
        bucket_file_spec(t, ty)[bucket_file_spec(t, ty).len() - 3] == 'l',
        bucket_file_spec(t, ty)[bucket_file_spec(t, ty).len() - 1] == 'g',
        is_digit_char(bucket_file_spec(t, ty)[0]),
{
    let s = bucket_file_spec(t, ty);
    lemma_date_chars(t);
    reveal_strlit(".log");
    reveal_strlit("_");
    reveal_strlit("-");
    lemma_digit_char_is_digit(pad4_at(t.year as nat, 0));
    assert forall|i: int| 0 <= i < s.len() implies #[trigger] s[i] != '/' by {
        char_cases(t, ty, i);
    }
    assert forall|i: int| 0 <= i < s.len() && #[trigger] s[i] == '.' implies i == s.len() - 4 by {
        char_cases(t, ty, i);
    }
    char_cases(t, ty, s.len() - 3);
    char_cases(t, ty, s.len() - 1);
}

/// Case analysis on one position of a bucket file name.
proof fn char_cases(t: LocalTime, ty: LogFileSaveType, i: int)
    requires
        0 <= i < bucket_file_spec(t, ty).len(),
    ensures
        is_digit_char(bucket_file_spec(t, ty)[i]) || bucket_file_spec(t, ty)[i] == '-'
            || bucket_file_spec(t, ty)[i] == '_' || (bucket_file_spec(t, ty)[i] == '.' && i
            == bucket_file_spec(t, ty).len() - 4) || (bucket_file_spec(t, ty)[i] == 'l' && i
            == bucket_file_spec(t, ty).len() - 3) || (bucket_file_spec(t, ty)[i] == 'o' && i
            == bucket_file_spec(t, ty).len() - 2) || (bucket_file_spec(t, ty)[i] == 'g' && i
            == bucket_file_spec(t, ty).len() - 1),
{
    let s = bucket_file_spec(t, ty);
    lemma_date_chars(t);
    reveal_strlit(".log");
    reveal_strlit("_");
    if i < 10 {
        assert(s[i] == date_str_spec(t)[i]);
    } else {
        match ty {
            LogFileSaveType::LogFileSaveTypeDays => {
                assert(s.len() == 14);
                assert(s[i] == ".log"@[i - 10]);
            },
            LogFileSaveType::LogFileSaveTypeHours => {
                assert(s.len() == 17);
                if i == 10 {
                    assert(s[i] == '_');
                } else if i < 13 {
                    lemma_digit_char_is_digit(if i == 11 {
                        t.hour as nat / 10 % 10
                    } else {
                        t.hour as nat % 10
                    });
                } else {
                    assert(s[i] == ".log"@[i - 13]);
                }
            },
        }
    }
}

/// The relative target of a rotation is a clean path piece.
pub proof fn lemma_rel_target_clean(t: LocalTime, ty: LogFileSaveType)
    ensures
        clean_tail(rel_target_spec(t, ty)),
{
    let s = rel_target_spec(t, ty);
    let date = date_str_spec(t);
    let file = bucket_file_spec(t, ty);
    lemma_date_chars(t);
    lemma_bucket_file_chars(t, ty);
    reveal_strlit("/");
    lemma_digit_char_is_digit(pad4_at(t.year as nat, 0));
    assert(s[0] == date[0]);
    assert(s[s.len() - 1] == file[file.len() - 1]);
    assert forall|i: int| 0 <= i < s.len() && #[trigger] s[i] == '/' implies i == 10 by {
        if i < 10 {
            assert(s[i] == date[i]);
        } else if i > 10 {
            assert(s[i] == file[i - 11]);
        }
    }
    assert forall|i: int| 0 <= i < s.len() && #[trigger] s[i] == '.' implies i == s.len() - 4 by {
        if i < 10 {
            assert(s[i] == date[i]);
        } else if i > 10 {
            assert(s[i] == file[i - 11]);
        } else {
            assert(s[i] == '/');
        }
    }
    assert(s[s.len() - 3] == file[file.len() - 3]);
    assert(!has_dot_component(s)) by {
        if exists|i: int|
            0 <= i < s.len() && #[trigger] s[i] == '.' && (i == 0 || s[i - 1] == '/') && (i + 1
                == s.len() || s[i + 1] == '/') {
            let i = choose|i: int|
                0 <= i < s.len() && #[trigger] s[i] == '.' && (i == 0 || s[i - 1] == '/') && (i + 1
                    == s.len() || s[i + 1] == '/');
            assert(i == s.len() - 4);
            assert(s[i + 1] == 'l');
        }
        if exists|i: int|
            0 <= i && i + 1 < s.len() && #[trigger] s[i] == '.' && s[i + 1] == '.' && (i == 0 || s[i
                - 1] == '/') && (i + 2 == s.len() || s[i + 2] == '/') {
            let i = choose|i: int|
                0 <= i && i + 1 < s.len() && #[trigger] s[i] == '.' && s[i + 1] == '.' && (i == 0
                    || s[i - 1] == '/') && (i + 2 == s.len() || s[i + 2] == '/');
            assert(i == s.len() - 4);
            assert(s[i + 1] == 'l');
        }
    }
}

/// A project name the symlink planner accepts: non-empty and without a
/// trailing separator, so the project directory has no trailing `/`.
pub open spec fn symlink_safe(c: &LogConfig) -> bool {
    c.project_name@.len() > 0 && c.project_name@[c.project_name@.len() - 1] != '/'
}

/// Computes the relative target the `run.log` link should point at, through
/// the same path-difference routine the rotation uses, or nothing when the
/// project name would make the link target unreliable.
pub fn plan_rel_target(c: &LogConfig, t: &LocalTime, bucket_path: &str, project_dir: &str) -> (r:
    Option<String>)
    requires
        t.valid(),
        bucket_path@ == bucket_path_spec(c, *t),
        project_dir@ == project_dir_spec(c),
    ensures
        r is Some <==> symlink_safe(c),
        r is Some ==> r.unwrap()@ == rel_target_spec(*t, c.file_save_type),
{
    let name_len = c.project_name.as_str().unicode_len();
    if name_len == 0 || c.project_name.as_str().get_char(name_len - 1) == '/' {
        return None;
    }
    proof {
        reveal_strlit("/");
        lemma_bucket_path_decomposes(c, *t);
        lemma_rel_target_clean(*t, c.file_save_type);
        let pd = project_dir_spec(c);
        let rel = rel_target_spec(*t, c.file_save_type);
        assert(pd[pd.len() - 1] == c.project_name@[c.project_name@.len() - 1]);
        assert(bucket_path@.subrange(0, pd.len() as int) =~= pd);
        assert(bucket_path@.skip(pd.len() + 1 as int) =~= rel);
    }
    diff_paths_under(bucket_path, project_dir)
}

} // verus!
