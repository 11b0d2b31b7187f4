use vstd::prelude::*;

use crate::strutil::{contains_sub, dec_digits, has_sub, push_u64};

verus! {

/// The position of the first `::` separator at or after `i`, if any.
pub open spec fn first_sep_from(s: Seq<char>, i: nat) -> Option<nat>
    decreases s.len() - i,
{
    if i + 2 > s.len() {
        None
    } else if s[i as int] == ':' && s[i as int + 1] == ':' {
        Some(i)
    } else {
        first_sep_from(s, i + 1)
    }
}

/// The pieces of `s` from position `i` on, cut at each leftmost `::`.
pub open spec fn split_from(s: Seq<char>, i: nat) -> Seq<Seq<char>>
    decreases s.len() - i,
{
    match first_sep_from(s, i) {
        Some(j) => if i <= j && j + 2 <= s.len() {
            seq![s.subrange(i as int, j as int)] + split_from(s, j + 2)
        } else {
            seq![s.subrange(i as int, s.len() as int)]
        },
        None => seq![s.subrange(i as int, s.len() as int)],
    }
}

/// The pieces joined back with `::` between them.
pub open spec fn join_sep(parts: Seq<Seq<char>>) -> Seq<char>
    decreases parts.len(),
{
    if parts.len() == 0 {
        Seq::empty()
    } else if parts.len() == 1 {
        parts[0]
    } else {
        join_sep(parts.drop_last()) + "::"@ + parts.last()
    }
}

/// Frames of the logging facility itself, or of the stack walker, are
/// excluded from attribution.
pub open spec fn exclusion_hit(name: Seq<char>) -> bool {
    has_sub(name, "rust_box::"@) || has_sub(name, "backtrace::"@)
}

/// A frame is usable for attribution when it has a symbol name, the name is
/// not excluded, and the name has at least three `::`-separated pieces.
pub open spec fn frame_usable(name: Option<Seq<char>>) -> bool {
    &&& name is Some
    &&& !exclusion_hit(name.unwrap())
    &&& split_from(name.unwrap(), 0).len() > 2
}

/// The line number of a frame, zero when the walker reported none.
pub open spec fn line_of(line: Option<u32>) -> nat {
    match line {
        Some(v) => v as nat,
        None => 0,
    }
}

/// The attribution string built from a usable frame: the name's pieces up to
/// the second-to-last form the package, the second-to-last is the method.
pub open spec fn caller_string(name: Seq<char>, line: nat) -> Seq<char> {
    let parts = split_from(name, 0);
    "[package:"@ + join_sep(parts.take(parts.len() - 2)) + " method:"@ + parts[parts.len() - 2]
        + " line:"@ + dec_digits(line) + "]"@
}

/// The attribution of a stack: the first usable frame at or after `i`, or
/// the sentinel when none is.
pub open spec fn resolve_spec(frames: Seq<(Option<Seq<char>>, Option<u32>)>, i: nat) -> Seq<char>
    decreases frames.len() - i,
{
    if i >= frames.len() {
        "unknown"@
    } else if frame_usable(frames[i as int].0) {
        caller_string(frames[i as int].0.unwrap(), line_of(frames[i as int].1))
    } else {
        resolve_spec(frames, i + 1)
    }
}

/// Finds the first `::` at or after `from`.
fn find_sep_from(s: &str, from: usize) -> (r: Option<usize>)
    requires
        from <= s@.len(),
    ensures
        match r {
            Some(j) => first_sep_from(s@, from as nat) == Some(j as nat) && from <= j && j + 2
                <= s@.len(),
            None => first_sep_from(s@, from as nat) is None,
        },
{
    let len = s.unicode_len();
    let mut j = from;
    while j < len && j + 1 < len
        invariant
            from <= j <= len,
            len == s@.len(),
            first_sep_from(s@, from as nat) == first_sep_from(s@, j as nat),
        decreases len - j,
    {
        if s.get_char(j) == ':' && s.get_char(j + 1) == ':' {
            return Some(j);
        }
        proof {
            assert(first_sep_from(s@, j as nat) == first_sep_from(s@, (j + 1) as nat));
        }
        j += 1;
    }
    None
}

/// Splits a symbol name at each `::`.
fn split_parts(s: &str) -> (parts: Vec<String>)
    ensures
        parts.deep_view() == split_from(s@, 0),
{
    let len = s.unicode_len();
    let mut parts: Vec<String> = Vec::new();
    let mut i: usize = 0;
    let mut finished = false;
    while !finished
        invariant
            i <= len,
            len == s@.len(),
            !finished ==> split_from(s@, 0) == parts.deep_view() + split_from(s@, i as nat),
            finished ==> parts.deep_view() == split_from(s@, 0),
        decreases len - i + (if finished {
            0int
        } else {
            1int
        }),
    {
        match find_sep_from(s, i) {
            Some(j) => {
                let piece = s.substring_char(i, j);
                parts.push(piece.to_owned());
                proof {
                    assert(split_from(s@, i as nat) == seq![s@.subrange(i as int, j as int)]
                        + split_from(s@, (j + 2) as nat));
                    assert(parts.deep_view() =~= old_dv_push(parts.deep_view(), s@, i as int, j as int));
                    assert(split_from(s@, 0) =~= parts.deep_view() + split_from(
                        s@,
                        (j + 2) as nat,
                    ));
                }
                i = j + 2;
            },
            None => {
                let piece = s.substring_char(i, len);
                parts.push(piece.to_owned());
                proof {
                    assert(split_from(s@, i as nat) == seq![s@.subrange(i as int, len as int)]);
                    assert(parts.deep_view() =~= split_from(s@, 0));
                }
                finished = true;
            },
        }
    }
    parts
}

/// Helper shape used only to state an intermediate equality readably.
spec fn old_dv_push(dv: Seq<Seq<char>>, s: Seq<char>, i: int, j: int) -> Seq<Seq<char>> {
    dv.take(dv.len() - 1) + seq![s.subrange(i, j)]
}

/// Joins the first `count` parts with `::`.
fn join_parts(parts: &Vec<String>, count: usize) -> (r: String)
    requires
        1 <= count <= parts@.len(),
    ensures
        r@ == join_sep(parts.deep_view().take(count as int)),
{
    let mut s = parts[0].clone();
    let mut i: usize = 1;
    proof {
        assert(parts.deep_view().take(1) =~= seq![parts.deep_view()[0]]);
    }
    while i < count
        invariant
            1 <= i <= count,
            count <= parts@.len(),
            parts.deep_view().len() == parts@.len(),
            s@ == join_sep(parts.deep_view().take(i as int)),
        decreases count - i,
    {
        s.append("::");
        s.append(parts[i].as_str());
        proof {
            let dv = parts.deep_view();
            assert(dv.take(i + 1).drop_last() =~= dv.take(i as int));
            assert(dv.take(i + 1).last() == dv[i as int]);
        }
        i += 1;
    }
    s
}

/// Builds the attribution string of one usable symbol name.
fn build_caller_string(name: &str, line: u32) -> (r: String)
    requires
        split_from(name@, 0).len() > 2,
    ensures
        r@ == caller_string(name@, line as nat),
{
    let parts = split_parts(name);
    let k = parts.len();
    proof {
        assert(parts.deep_view().len() == parts@.len());
    }
    let mut s = String::from_str("[package:");
    let joined = join_parts(&parts, k - 2);
    s.append(joined.as_str());
    s.append(" method:");
    s.append(parts[k - 2].as_str());
    s.append(" line:");
    push_u64(&mut s, line as u64);
    s.append("]");
    proof {
        assert(parts.deep_view()[k - 2] == parts@[k - 2]@);
        assert(s@ =~= caller_string(name@, line as nat));
    }
    s
}

/// Resolves the first usable frame at or after `skip` into an attribution
/// string, or the sentinel `unknown`.
pub fn resolve_caller(symbols: &Vec<(Option<String>, Option<u32>)>, skip: usize) -> (r: String)
    ensures
        r@ == resolve_spec(symbols.deep_view(), skip as nat),
{
    let n = symbols.len();
    let mut i = skip;
    proof {
        assert(symbols.deep_view().len() == symbols@.len());
    }
    while i < n
        invariant
            skip <= i,
            n == symbols@.len(),
            symbols.deep_view().len() == symbols@.len(),
            resolve_spec(symbols.deep_view(), skip as nat) == resolve_spec(
                symbols.deep_view(),
                i as nat,
            ),
        decreases n - i,
    {
        let pair = &symbols[i];
        proof {
            assert(symbols.deep_view()[i as int] == (
                match symbols@[i as int].0 {
                    Some(ref nm) => Some(nm@),
                    None => None,
                },
                symbols@[i as int].1,
            ));
        }
        match &pair.0 {
            Some(name) => {
                let excluded = contains_sub(name.as_str(), "rust_box::") || contains_sub(
                    name.as_str(),
                    "backtrace::",
                );
                if !excluded {
                    let parts = split_parts(name.as_str());
                    if parts.len() > 2 {
                        proof {
                            assert(parts.deep_view().len() == parts@.len());
                            assert(frame_usable(symbols.deep_view()[i as int].0));
                        }
                        let line = match pair.1 {
                            Some(v) => v,
                            None => 0,
                        };
                        let r = build_caller_string(name.as_str(), line);
                        proof {
                            assert(resolve_spec(symbols.deep_view(), i as nat) == caller_string(
                                name@,
                                line as nat,
                            ));
                        }
                        return r;
                    }
                }
            },
            None => {},
        }
        proof {
            assert(!frame_usable(symbols.deep_view()[i as int].0));
            assert(resolve_spec(symbols.deep_view(), i as nat) == resolve_spec(
                symbols.deep_view(),
                (i + 1) as nat,
            ));
        }
        i += 1;
    }
    proof {
        assert(resolve_spec(symbols.deep_view(), i as nat) == "unknown"@);
    }
    String::from_str("unknown")
}

/// Relies on the backtrace crate: `Backtrace::new` captures the current call
/// stack, and each frame's symbols carry an optional demangled name and an
/// optional line number. Nothing is assumed about the values.
#[verifier::external_body]
fn stack_symbols() -> (r: Vec<(Option<String>, Option<u32>)>)
{
    let bt = backtrace::Backtrace::new();
    bt.frames().iter().flat_map(|f| f.symbols()).map(
        |s| (s.name().map(|n| n.to_string()), s.lineno()),
    ).collect()
}

/// Walks the stack and attributes the call to the first frame that does not
/// belong to this facility, skipping the capture machinery itself.
pub fn get_caller_info() -> (r: String)
    ensures
        exists|frames: Seq<(Option<Seq<char>>, Option<u32>)>|
            r@ == #[trigger] resolve_spec(frames, 3),
{
    let symbols = stack_symbols();
    let r = resolve_caller(&symbols, 3);
    proof {
        assert(r@ == resolve_spec(symbols.deep_view(), 3));
    }
    r
}

} // verus!
