use vstd::prelude::*;

use crate::clock::LocalTime;
use crate::levels::{color_of, tag_of, LogLevel};
use crate::paths::date_str_spec;
use crate::strutil::{pad2, push_pad2, push_pad4};

verus! {

/// The rendered UTC offset: a sign, two hour digits, a colon, two minute
/// digits.
pub open spec fn offset_str_spec(off: int) -> Seq<char> {
    let sign = if off < 0 {
        "-"@
    } else {
        "+"@
    };
    let a = if off < 0 {
        -off
    } else {
        off
    };
    sign + pad2((a / 3600) as nat) + ":"@ + pad2((a % 3600 / 60) as nat)
}

/// The rendered local timestamp with UTC offset.
pub open spec fn timestamp_spec(t: LocalTime) -> Seq<char> {
    date_str_spec(t) + " "@ + pad2(t.hour as nat) + ":"@ + pad2(t.minute as nat) + ":"@ + pad2(
        t.second as nat,
    ) + " "@ + offset_str_spec(t.offset_seconds as int)
}

/// One formatted log line: bracketed timestamp, bracketed level tag with
/// color escapes only on a console sink, optional location, bracketed
/// message, ending in one newline.
pub open spec fn line_spec(
    level: LogLevel,
    msg: Seq<char>,
    t: LocalTime,
    loc: Option<Seq<char>>,
    colored: bool,
) -> Seq<char> {
    let color = if colored {
        color_of(level)
    } else {
        Seq::empty()
    };
    let reset = if colored {
        "\x1b[0m"@
    } else {
        Seq::empty()
    };
    let locpart = match loc {
        Some(l) => " "@ + l,
        None => Seq::<char>::empty(),
    };
    "["@ + timestamp_spec(t) + "] "@ + color + "["@ + tag_of(level) + "]"@ + reset + locpart
        + " ["@ + msg + "]\n"@
}

/// Appends the rendered offset of `off` seconds.
fn push_offset(s: &mut String, off: i32)
    requires
        -86400 < off < 86400,
    ensures
        final(s)@ == old(s)@ + offset_str_spec(off as int),
{
    let a: u32;
    if off < 0 {
        s.append("-");
        a = (-off) as u32;
    } else {
        s.append("+");
        a = off as u32;
    }
    push_pad2(s, a / 3600);
    s.append(":");
    push_pad2(s, a % 3600 / 60);
    proof {
        assert(s@ =~= old(s)@ + offset_str_spec(off as int));
    }
}

/// Appends the rendered timestamp of `t`.
pub fn push_timestamp(s: &mut String, t: &LocalTime)
    requires
        t.valid(),
    ensures
        final(s)@ == old(s)@ + timestamp_spec(*t),
{
    crate::paths::push_date(s, t);
    s.append(" ");
    push_pad2(s, t.hour);
    s.append(":");
    push_pad2(s, t.minute);
    s.append(":");
    push_pad2(s, t.second);
    s.append(" ");
    push_offset(s, t.offset_seconds);
    proof {
        assert(s@ =~= old(s)@ + timestamp_spec(*t));
    }
}

/// Builds one log line.
pub fn format_line(
    level: LogLevel,
    msg: &str,
    t: &LocalTime,
    loc: Option<&String>,
    colored: bool,
) -> (r: String)
    requires
        t.valid(),
    ensures
        r@ == line_spec(
            level,
            msg@,
            *t,
            match loc {
                Some(l) => Some(l@),
                None => None,
            },
            colored,
        ),
{
    let mut s = String::from_str("[");
    push_timestamp(&mut s, t);
    s.append("] ");
    if colored {
        s.append(level.color_code());
    }
    s.append("[");
    s.append(level.to_str());
    s.append("]");
    if colored {
        s.append("\x1b[0m");
    }
    match loc {
        Some(l) => {
            s.append(" ");
            s.append(l.as_str());
        },
        None => {},
    }
    s.append(" [");
    s.append(msg);
    s.append("]\n");
    proof {
        assert(s@ =~= line_spec(
            level,
            msg@,
            *t,
            match loc {
                Some(l) => Some(l@),
                None => None,
            },
            colored,
        ));
    }
    s
}

} // verus!
