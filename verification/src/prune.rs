use vstd::prelude::*;

use crate::clock::day_index_ymd;
use crate::clock::day_index_of_ymd;
use crate::levels::LogFileSaveType;
use crate::strutil::{digit_char, is_digit_char, pad2, pad4};

verus! {

/// The numeric value of a decimal digit character, zero for any other.
pub open spec fn dval(c: char) -> nat {
    if c == '0' {
        0
    } else if c == '1' {
        1
    } else if c == '2' {
        2
    } else if c == '3' {
        3
    } else if c == '4' {
        4
    } else if c == '5' {
        5
    } else if c == '6' {
        6
    } else if c == '7' {
        7
    } else if c == '8' {
        8
    } else if c == '9' {
        9
    } else {
        0
    }
}

/// Value of four digit characters starting at `off`.
pub open spec fn val4(s: Seq<char>, off: int) -> nat {
    dval(s[off]) * 1000 + dval(s[off + 1]) * 100 + dval(s[off + 2]) * 10 + dval(s[off + 3])
}

/// Value of two digit characters starting at `off`.
pub open spec fn val2(s: Seq<char>, off: int) -> nat {
    dval(s[off]) * 10 + dval(s[off + 1])
}

/// `s` has the ten-character shape `dddd-dd-dd`.
pub open spec fn is_date_shape(s: Seq<char>) -> bool {
    &&& s.len() == 10
    &&& is_digit_char(s[0])
    &&& is_digit_char(s[1])
    &&& is_digit_char(s[2])
    &&& is_digit_char(s[3])
    &&& s[4] == '-'
    &&& is_digit_char(s[5])
    &&& is_digit_char(s[6])
    &&& s[7] == '-'
    &&& is_digit_char(s[8])
    &&& is_digit_char(s[9])
}

/// The calendar date a day-bucket artifact name denotes, when it denotes one.
pub open spec fn parse_date_spec(s: Seq<char>) -> Option<(nat, nat, nat)> {
    if is_date_shape(s) {
        let y = val4(s, 0);
        let m = val2(s, 5);
        let d = val2(s, 8);
        if 1970 <= y <= 9999 && 1 <= m <= 12 && 1 <= d <= 31 {
            Some((y, m, d))
        } else {
            None
        }
    } else {
        None
    }
}

/// `s` has the seventeen-character shape `dddd-dd-dd_dd.log`.
pub open spec fn is_hour_shape(s: Seq<char>) -> bool {
    &&& s.len() == 17
    &&& is_date_shape(s.subrange(0, 10))
    &&& s[10] == '_'
    &&& is_digit_char(s[11])
    &&& is_digit_char(s[12])
    &&& s.subrange(13, 17) == ".log"@
}

/// The date and hour an hour-bucket artifact name denotes, when it does.
pub open spec fn parse_hour_spec(s: Seq<char>) -> Option<(nat, nat, nat, nat)> {
    if is_hour_shape(s) {
        let date = parse_date_spec(s.subrange(0, 10));
        let h = val2(s, 11);
        if date is Some && h < 24 {
            Some((date.unwrap().0, date.unwrap().1, date.unwrap().2, h))
        } else {
            None
        }
    } else {
        None
    }
}

/// An artifact is stale when it is strictly more than `keep` buckets old.
pub open spec fn is_stale_spec(bucket: nat, now_bucket: nat, keep: nat) -> bool {
    bucket + keep < now_bucket
}

/// The bucket index an artifact name denotes under a retention policy, when
/// it denotes one.
pub open spec fn name_bucket_spec(s: Seq<char>, ty: LogFileSaveType) -> Option<nat> {
    match ty {
        LogFileSaveType::LogFileSaveTypeDays => match parse_date_spec(s) {
            Some((y, m, d)) => Some(day_index_ymd(y, m, d)),
            None => None,
        },
        LogFileSaveType::LogFileSaveTypeHours => match parse_hour_spec(s) {
            Some((y, m, d, h)) => Some(day_index_ymd(y, m, d) * 24 + h),
            None => None,
        },
    }
}

/// An artifact name the pruning pass removes: one that denotes a bucket more
/// than `keep` buckets older than the present one.
pub open spec fn name_is_stale(
    s: Seq<char>,
    ty: LogFileSaveType,
    now_bucket: nat,
    keep: nat,
) -> bool {
    match name_bucket_spec(s, ty) {
        Some(b) => is_stale_spec(b, now_bucket, keep),
        None => false,
    }
}

/// `dval` inverts `digit_char` on digit values.
pub proof fn lemma_dval_digit_char(d: nat)
    requires
        d < 10,
    ensures
        dval(digit_char(d)) == d,
{
}

/// `digit_char` inverts `dval` on digit characters.
pub proof fn lemma_digit_char_dval(c: char)
    requires
        is_digit_char(c),
    ensures
        digit_char(dval(c)) == c,
{
}

/// The decimal digits of a four-digit composition.
proof fn lemma_digits4(a: nat, b: nat, c: nat, e: nat)
    requires
        a < 10,
        b < 10,
        c < 10,
        e < 10,
    ensures
        (a * 1000 + b * 100 + c * 10 + e) / 1000 % 10 == a,
        (a * 1000 + b * 100 + c * 10 + e) / 100 % 10 == b,
        (a * 1000 + b * 100 + c * 10 + e) / 10 % 10 == c,
        (a * 1000 + b * 100 + c * 10 + e) % 10 == e,
{
    let n = (a * 1000 + b * 100 + c * 10 + e) as int;
    vstd::arithmetic::div_mod::lemma_fundamental_div_mod_converse(
        n,
        1000,
        a as int,
        (b * 100 + c * 10 + e) as int,
    );
    vstd::arithmetic::div_mod::lemma_fundamental_div_mod_converse(
        n,
        100,
        (a * 10 + b) as int,
        (c * 10 + e) as int,
    );
    vstd::arithmetic::div_mod::lemma_fundamental_div_mod_converse(
        (a * 10 + b) as int,
        10,
        a as int,
        b as int,
    );
    vstd::arithmetic::div_mod::lemma_fundamental_div_mod_converse(
        n,
        10,
        (a * 100 + b * 10 + c) as int,
        e as int,
    );
    vstd::arithmetic::div_mod::lemma_fundamental_div_mod_converse(
        (a * 100 + b * 10 + c) as int,
        10,
        (a * 10 + b) as int,
        c as int,
    );
    vstd::arithmetic::div_mod::lemma_fundamental_div_mod_converse(a as int, 10, 0, a as int);
}

/// The decimal digits of a two-digit composition.
proof fn lemma_digits2(a: nat, b: nat)
    requires
        a < 10,
        b < 10,
    ensures
        (a * 10 + b) / 10 % 10 == a,
        (a * 10 + b) % 10 == b,
{
    vstd::arithmetic::div_mod::lemma_fundamental_div_mod_converse(
        (a * 10 + b) as int,
        10,
        a as int,
        b as int,
    );
    vstd::arithmetic::div_mod::lemma_fundamental_div_mod_converse(a as int, 10, 0, a as int);
}

/// A number below ten thousand is the composition of its four digits.
proof fn lemma_decompose4(n: nat)
    requires
        n < 10000,
    ensures
        n == (n / 1000 % 10) * 1000 + (n / 100 % 10) * 100 + (n / 10 % 10) * 10 + n % 10,
{
    vstd::arithmetic::div_mod::lemma_fundamental_div_mod(n as int, 1000);
    let q3 = n / 1000;
    let r3 = n % 1000;
    vstd::arithmetic::div_mod::lemma_fundamental_div_mod(r3 as int, 100);
    let q2 = r3 / 100;
    let r2 = r3 % 100;
    vstd::arithmetic::div_mod::lemma_fundamental_div_mod(r2 as int, 10);
    let q1 = r2 / 10;
    let e = r2 % 10;
    lemma_digits4(q3, q2, q1, e);
}

/// A number below one hundred is the composition of its two digits.
pub proof fn lemma_decompose2(n: nat)
    requires
        n < 100,
    ensures
        n == (n / 10 % 10) * 10 + n % 10,
{
    vstd::arithmetic::div_mod::lemma_fundamental_div_mod(n as int, 10);
    lemma_digits2(n / 10, n % 10);
}

/// A rendered date parses back to the values it was rendered from.
pub proof fn lemma_date_name_complete(y: nat, m: nat, d: nat)
    requires
        1970 <= y <= 9999,
        1 <= m <= 12,
        1 <= d <= 31,
    ensures
        parse_date_spec(pad4(y) + "-"@ + pad2(m) + "-"@ + pad2(d)) == Some((y, m, d)),
{
    reveal_strlit("-");
    let s = pad4(y) + "-"@ + pad2(m) + "-"@ + pad2(d);
    assert forall|i: nat| i < 10 implies #[trigger] is_digit_char(digit_char(i)) by {
        crate::strutil::lemma_digit_char_is_digit(i);
    }
    assert(is_date_shape(s));
    lemma_dval_digit_char(y / 1000 % 10);
    lemma_dval_digit_char(y / 100 % 10);
    lemma_dval_digit_char(y / 10 % 10);
    lemma_dval_digit_char(y % 10);
    lemma_dval_digit_char(m / 10 % 10);
    lemma_dval_digit_char(m % 10);
    lemma_dval_digit_char(d / 10 % 10);
    lemma_dval_digit_char(d % 10);
    lemma_decompose4(y);
    lemma_decompose2(m);
    lemma_decompose2(d);
    assert(val4(s, 0) == y);
    assert(val2(s, 5) == m);
    assert(val2(s, 8) == d);
}

/// A name that parses as a date is the rendering of the parsed values.
pub proof fn lemma_date_name_sound(s: Seq<char>)
    requires
        parse_date_spec(s) is Some,
    ensures
        ({
            let (y, m, d) = parse_date_spec(s).unwrap();
            s == pad4(y) + "-"@ + pad2(m) + "-"@ + pad2(d)
        }),
{
    reveal_strlit("-");
    let (y, m, d) = parse_date_spec(s).unwrap();
    lemma_digits4(dval(s[0]), dval(s[1]), dval(s[2]), dval(s[3]));
    lemma_digits2(dval(s[5]), dval(s[6]));
    lemma_digits2(dval(s[8]), dval(s[9]));
    lemma_digit_char_dval(s[0]);
    lemma_digit_char_dval(s[1]);
    lemma_digit_char_dval(s[2]);
    lemma_digit_char_dval(s[3]);
    lemma_digit_char_dval(s[5]);
    lemma_digit_char_dval(s[6]);
    lemma_digit_char_dval(s[8]);
    lemma_digit_char_dval(s[9]);
    assert(s =~= pad4(y) + "-"@ + pad2(m) + "-"@ + pad2(d));
}

/// A name that parses as an hour bucket is the rendering of the parsed
/// values.
pub proof fn lemma_hour_name_sound(s: Seq<char>)
    requires
        parse_hour_spec(s) is Some,
    ensures
        ({
            let (y, m, d, h) = parse_hour_spec(s).unwrap();
            s == pad4(y) + "-"@ + pad2(m) + "-"@ + pad2(d) + "_"@ + pad2(h) + ".log"@
        }),
{
    reveal_strlit("-");
    reveal_strlit("_");
    reveal_strlit(".log");
    let (y, m, d, h) = parse_hour_spec(s).unwrap();
    lemma_date_name_sound(s.subrange(0, 10));
    lemma_digits2(dval(s[11]), dval(s[12]));
    lemma_digit_char_dval(s[11]);
    lemma_digit_char_dval(s[12]);
    assert(s =~= pad4(y) + "-"@ + pad2(m) + "-"@ + pad2(d) + "_"@ + pad2(h) + ".log"@) by {
        assert(s.subrange(0, 10) == pad4(y) + "-"@ + pad2(m) + "-"@ + pad2(d));
        assert forall|i: int| 0 <= i < 10 implies s[i] == (pad4(y) + "-"@ + pad2(m) + "-"@ + pad2(
            d,
        ))[i] by {
            assert(s.subrange(0, 10)[i] == s[i]);
        }
        assert(s.subrange(13, 17)[0] == '.');
        assert(s.subrange(13, 17)[1] == 'l');
        assert(s.subrange(13, 17)[2] == 'o');
        assert(s.subrange(13, 17)[3] == 'g');
    }
}

/// Rendered dates are injective: equal renderings mean equal dates.
pub proof fn lemma_date_str_injective(y1: nat, m1: nat, d1: nat, y2: nat, m2: nat, d2: nat)
    requires
        1970 <= y1 <= 9999,
        1 <= m1 <= 12,
        1 <= d1 <= 31,
        1970 <= y2 <= 9999,
        1 <= m2 <= 12,
        1 <= d2 <= 31,
        pad4(y1) + "-"@ + pad2(m1) + "-"@ + pad2(d1) == pad4(y2) + "-"@ + pad2(m2) + "-"@ + pad2(
            d2,
        ),
    ensures
        y1 == y2,
        m1 == m2,
        d1 == d2,
{
    lemma_date_name_complete(y1, m1, d1);
    lemma_date_name_complete(y2, m2, d2);
}

/// The digit value of one character.
fn digit_val(c: char) -> (r: Option<u8>)
    ensures
        r is Some <==> is_digit_char(c),
        r is Some ==> r.unwrap() as nat == dval(c),
{
    match c {
        '0' => Some(0),
        '1' => Some(1),
        '2' => Some(2),
        '3' => Some(3),
        '4' => Some(4),
        '5' => Some(5),
        '6' => Some(6),
        '7' => Some(7),
        '8' => Some(8),
        '9' => Some(9),
        _ => None,
    }
}

/// Parses a day-bucket artifact name.
pub fn parse_date_name(name: &str) -> (r: Option<(u32, u32, u32)>)
    ensures
        r is Some <==> parse_date_spec(name@) is Some,
        r is Some ==> {
            let (y, m, d) = r.unwrap();
            parse_date_spec(name@) == Some((y as nat, m as nat, d as nat))
        },
{
    if name.unicode_len() != 10 {
        return None;
    }
    if name.get_char(4) != '-' || name.get_char(7) != '-' {
        return None;
    }
    let d0 = digit_val(name.get_char(0));
    let d1 = digit_val(name.get_char(1));
    let d2 = digit_val(name.get_char(2));
    let d3 = digit_val(name.get_char(3));
    let m0 = digit_val(name.get_char(5));
    let m1 = digit_val(name.get_char(6));
    let a0 = digit_val(name.get_char(8));
    let a1 = digit_val(name.get_char(9));
    match (d0, d1, d2, d3, m0, m1, a0, a1) {
        (
            Some(d0),
            Some(d1),
            Some(d2),
            Some(d3),
            Some(m0),
            Some(m1),
            Some(a0),
            Some(a1),
        ) => {
            let y: u32 = (d0 as u32) * 1000 + (d1 as u32) * 100 + (d2 as u32) * 10 + (d3 as u32);
            let m: u32 = (m0 as u32) * 10 + (m1 as u32);
            let d: u32 = (a0 as u32) * 10 + (a1 as u32);
            if 1970 <= y && y <= 9999 && 1 <= m && m <= 12 && 1 <= d && d <= 31 {
                Some((y, m, d))
            } else {
                None
            }
        },
        _ => None,
    }
}

/// Parses an hour-bucket artifact name.
pub fn parse_hour_name(name: &str) -> (r: Option<(u32, u32, u32, u32)>)
    ensures
        r is Some <==> parse_hour_spec(name@) is Some,
        r is Some ==> {
            let (y, m, d, h) = r.unwrap();
            parse_hour_spec(name@) == Some((y as nat, m as nat, d as nat, h as nat))
        },
{
    if name.unicode_len() != 17 {
        return None;
    }
    if name.get_char(10) != '_' {
        return None;
    }
    if name.get_char(13) != '.' || name.get_char(14) != 'l' || name.get_char(15) != 'o'
        || name.get_char(16) != 'g' {
        proof {
            reveal_strlit(".log");
            if is_hour_shape(name@) {
                assert(name@.subrange(13, 17)[0] == '.');
                assert(name@.subrange(13, 17)[1] == 'l');
                assert(name@.subrange(13, 17)[2] == 'o');
                assert(name@.subrange(13, 17)[3] == 'g');
            }
        }
        return None;
    }
    let h0 = digit_val(name.get_char(11));
    let h1 = digit_val(name.get_char(12));
    let date_part = name.substring_char(0, 10);
    let date = parse_date_name(date_part);
    proof {
        reveal_strlit(".log");
    }
    match (h0, h1, date) {
        (Some(h0), Some(h1), Some((y, m, d))) => {
            let h: u32 = (h0 as u32) * 10 + (h1 as u32);
            if h < 24 {
                proof {
                    assert(name@.subrange(13, 17) =~= ".log"@);
                    assert(is_hour_shape(name@));
                }
                Some((y, m, d, h))
            } else {
                None
            }
        },
        _ => {
            proof {
                if is_hour_shape(name@) {
                    assert(parse_date_spec(name@.subrange(0, 10)) is Some ==> date is Some);
                }
            }
            None
        },
    }
}

/// Decides [`is_stale_spec`] without overflowing.
pub fn is_stale(bucket: u64, now_bucket: u64, keep: u64) -> (r: bool)
    ensures
        r == is_stale_spec(bucket as nat, now_bucket as nat, keep as nat),
{
    if keep >= now_bucket {
        false
    } else {
        bucket < now_bucket - keep
    }
}

/// The bucket index an artifact name denotes, when it denotes one.
pub fn name_bucket(name: &str, ty: LogFileSaveType) -> (r: Option<u64>)
    ensures
        r is Some <==> name_bucket_spec(name@, ty) is Some,
        r is Some ==> r.unwrap() as nat == name_bucket_spec(name@, ty).unwrap(),
{
    match ty {
        LogFileSaveType::LogFileSaveTypeDays => match parse_date_name(name) {
            Some((y, m, d)) => Some(day_index_of_ymd(y, m, d)),
            None => None,
        },
        LogFileSaveType::LogFileSaveTypeHours => match parse_hour_name(name) {
            Some((y, m, d, h)) => Some(day_index_of_ymd(y, m, d) * 24 + (h as u64)),
            None => None,
        },
    }
}

/// Selects, from a directory listing, exactly the artifact names whose
/// bucket lies more than `keep` buckets before the present one. Names that
/// are no artifact of the policy are never selected.
pub fn select_stale_names(
    names: &Vec<String>,
    ty: LogFileSaveType,
    now_bucket: u64,
    keep: u64,
) -> (r: Vec<String>)
    ensures
        r.deep_view() == names.deep_view().filter(
            |s: Seq<char>| name_is_stale(s, ty, now_bucket as nat, keep as nat),
        ),
{
    let mut r: Vec<String> = Vec::new();
    let mut i: usize = 0;
    proof {
        assert(names.deep_view().subrange(0, 0) =~= Seq::<Seq<char>>::empty());
        reveal(Seq::filter);
    }
    while i < names.len()
        invariant
            i <= names@.len(),
            names.deep_view().len() == names@.len(),
            forall|j: int|
                0 <= j < names@.len() ==> names.deep_view()[j] == #[trigger] names@[j]@,
            r.deep_view() == names.deep_view().subrange(0, i as int).filter(
                |s: Seq<char>| name_is_stale(s, ty, now_bucket as nat, keep as nat),
            ),
        decreases names@.len() - i,
    {
        let name = &names[i];
        let stale = match name_bucket(name.as_str(), ty) {
            Some(b) => is_stale(b, now_bucket, keep),
            None => false,
        };
        proof {
            reveal(Seq::filter);
            let prefix = names.deep_view().subrange(0, i as int);
            let next = names.deep_view().subrange(0, i + 1);
            assert(next.drop_last() =~= prefix);
            assert(next.last() == names.deep_view()[i as int]);
        }
        if stale {
            r.push(name.clone());
            proof {
                let pred = |s: Seq<char>| name_is_stale(s, ty, now_bucket as nat, keep as nat);
                assert(r.deep_view() =~= names.deep_view().subrange(0, i + 1).filter(pred));
            }
        } else {
            proof {
                let pred = |s: Seq<char>| name_is_stale(s, ty, now_bucket as nat, keep as nat);
                assert(r.deep_view() =~= names.deep_view().subrange(0, i + 1).filter(pred));
            }
        }
        i += 1;
    }
    proof {
        assert(names.deep_view().subrange(0, names@.len() as int) =~= names.deep_view());
    }
    r
}

} // verus!
