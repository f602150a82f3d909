//! The pid file: reading the process id that an earlier daemon left behind.
use vstd::prelude::*;

verus! {

/// Whether `c` has the Unicode property White_Space.
pub open spec fn is_white_space(c: char) -> bool {
    let u = c as u32;
    (9 <= u <= 13) || u == 32 || u == 0x85 || u == 0xa0 || u == 0x1680 || (0x2000 <= u <= 0x200a)
        || u == 0x2028 || u == 0x2029 || u == 0x202f || u == 0x205f || u == 0x3000
}

/// `s` without its leading White_Space characters.
pub open spec fn trim_start_ws(s: Seq<char>) -> Seq<char>
    decreases s.len(),
{
    if s.len() > 0 && is_white_space(s[0]) {
        trim_start_ws(s.drop_first())
    } else {
        s
    }
}

/// `s` without its trailing White_Space characters.
pub open spec fn trim_end_ws(s: Seq<char>) -> Seq<char>
    decreases s.len(),
{
    if s.len() > 0 && is_white_space(s.last()) {
        trim_end_ws(s.drop_last())
    } else {
        s
    }
}

/// `s` without leading and trailing White_Space characters.
pub open spec fn trim_ws(s: Seq<char>) -> Seq<char> {
    trim_end_ws(trim_start_ws(s))
}

/// Whether `c` is one of `0` to `9`.
pub open spec fn is_digit(c: char) -> bool {
    '0' <= c <= '9'
}

/// The number that a string of decimal digits stands for.
pub open spec fn decimal_value(s: Seq<char>) -> int
    decreases s.len(),
{
    if s.len() == 0 {
        0
    } else {
        decimal_value(s.drop_last()) * 10 + (s.last() as int - '0' as int)
    }
}

/// What `u32`'s `from_str` gives: an optional `+` followed by one or more
/// decimal digits whose value fits in 32 bits; anything else is an error.
pub open spec fn parse_u32_spec(s: Seq<char>) -> Option<u32> {
    let digits = if s.len() > 0 && s[0] == '+' {
        s.drop_first()
    } else {
        s
    };
    if digits.len() > 0 && (forall|i: int| 0 <= i < digits.len() ==> is_digit(#[trigger] digits[i]))
        && decimal_value(digits) <= u32::MAX {
        Some(decimal_value(digits) as u32)
    } else {
        None
    }
}

/// `str::trim`: the slice without leading and trailing whitespace, whitespace
/// being the characters with the Unicode property White_Space.
#[verifier::external_body]
fn trim(s: &str) -> (r: &str)
    ensures
        r@ == trim_ws(s@),
{
    s.trim()
}

/// `str::parse::<u32>`: the number the text stands for, as `parse_u32_spec`
/// says; `None` where it gives an error.
#[verifier::external_body]
fn parse_u32(s: &str) -> (r: Option<u32>)
    ensures
        r == parse_u32_spec(s@),
{
    s.parse::<u32>().ok()
}

/// The process id in a pid file: its contents, trimmed, read as a number;
/// 0 when they are not one.
pub fn parse_pid(contents: &str) -> (pid: u32)
    ensures
        pid == match parse_u32_spec(trim_ws(contents@)) {
            Some(p) => p,
            None => 0u32,
        },
{
    match parse_u32(trim(contents)) {
        Some(p) => p,
        None => 0,
    }
}

/// The process whose liveness must be checked before a new daemon starts:
/// the one in the pid file, unless the file holds no valid, nonzero id.
pub fn pid_to_check(contents: &str) -> (r: Option<u32>)
    ensures
        match parse_u32_spec(trim_ws(contents@)) {
            Some(p) => if p != 0 {
                r == Some(p)
            } else {
                r is None
            },
            None => r is None,
        },
{
    let pid = parse_pid(contents);
    if pid != 0 {
        Some(pid)
    } else {
        None
    }
}

} // verus!
