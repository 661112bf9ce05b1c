use vstd::prelude::*;

verus! {

/// The most verbose level of records that a logger lets through.
#[derive(PartialEq, Eq, Structural, Clone, Copy, Debug)]
pub enum LevelFilter {
    Off,
    Error,
    Warn,
    Info,
    Debug,
    Trace,
}

/// `c` with ASCII upper case letters made lower case.
pub open spec fn ascii_lower(c: char) -> char {
    if 'A' <= c && c <= 'Z' {
        ((c as u32) + 32) as char
    } else {
        c
    }
}

/// `a` and `b` are equal up to the case of ASCII letters.
pub open spec fn eq_ignore_ascii_case(a: Seq<char>, b: Seq<char>) -> bool {
    a.len() == b.len() && forall|i: int| 0 <= i < a.len() ==> ascii_lower(#[trigger] a[i]) == ascii_lower(b[i])
}

/// The level that `name` spells, in any case of its letters.
pub open spec fn level_named(name: Seq<char>) -> Option<LevelFilter> {
    if eq_ignore_ascii_case(name, seq!['o', 'f', 'f']) {
        Some(LevelFilter::Off)
    } else if eq_ignore_ascii_case(name, seq!['e', 'r', 'r', 'o', 'r']) {
        Some(LevelFilter::Error)
    } else if eq_ignore_ascii_case(name, seq!['w', 'a', 'r', 'n']) {
        Some(LevelFilter::Warn)
    } else if eq_ignore_ascii_case(name, seq!['i', 'n', 'f', 'o']) {
        Some(LevelFilter::Info)
    } else if eq_ignore_ascii_case(name, seq!['d', 'e', 'b', 'u', 'g']) {
        Some(LevelFilter::Debug)
    } else if eq_ignore_ascii_case(name, seq!['t', 'r', 'a', 'c', 'e']) {
        Some(LevelFilter::Trace)
    } else {
        None
    }
}

/// Relies on `FromStr for log::LevelFilter`: it compares the text with the
/// names OFF, ERROR, WARN, INFO, DEBUG and TRACE ignoring ASCII case, and
/// fails on anything else.
#[verifier::external_body]
pub(crate) fn parse_level(name: &str) -> (r: Option<LevelFilter>)
    ensures
        r == level_named(name@),
{
    match name.parse::<log::LevelFilter>() {
        Ok(log::LevelFilter::Off) => Some(LevelFilter::Off),
        Ok(log::LevelFilter::Error) => Some(LevelFilter::Error),
        Ok(log::LevelFilter::Warn) => Some(LevelFilter::Warn),
        Ok(log::LevelFilter::Info) => Some(LevelFilter::Info),
        Ok(log::LevelFilter::Debug) => Some(LevelFilter::Debug),
        Ok(log::LevelFilter::Trace) => Some(LevelFilter::Trace),
        Err(_) => None,
    }
}

} // verus!
