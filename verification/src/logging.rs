//! Log levels, by the names and the order of the `log` crate.
use vstd::prelude::*;

verus! {

/// How much is logged.
#[derive(Clone, Copy, Debug, PartialEq, Eq, Structural)]
pub enum LevelFilter {
    Off,
    Error,
    Warn,
    Info,
    Debug,
    Trace,
}

/// The level of one line.
#[derive(Clone, Copy, Debug, PartialEq, Eq, Structural)]
pub enum Level {
    Error,
    Warn,
    Info,
    Debug,
    Trace,
}

/// A capital ASCII letter's small counterpart; any other character as it is.
pub open spec fn small(c: char) -> char {
    if 'A' <= c <= 'Z' {
        (c as u32 + 32) as char
    } else {
        c
    }
}

/// Whether two texts are the same but for the case of their ASCII letters.
pub open spec fn same_letters(a: Seq<char>, b: Seq<char>) -> bool {
    a.len() == b.len() && forall|i: int| 0 <= i < a.len() ==> small(a[i]) == small(#[trigger] b[i])
}

/// The filter a name stands for.
pub open spec fn named_filter(name: Seq<char>) -> Option<LevelFilter> {
    if same_letters("OFF"@, name) {
        Some(LevelFilter::Off)
    } else if same_letters("ERROR"@, name) {
        Some(LevelFilter::Error)
    } else if same_letters("WARN"@, name) {
        Some(LevelFilter::Warn)
    } else if same_letters("INFO"@, name) {
        Some(LevelFilter::Info)
    } else if same_letters("DEBUG"@, name) {
        Some(LevelFilter::Debug)
    } else if same_letters("TRACE"@, name) {
        Some(LevelFilter::Trace)
    } else {
        None
    }
}

/// `<log::LevelFilter as FromStr>::from_str`: the filter whose name — `OFF`, `ERROR`, `WARN`,
/// `INFO`, `DEBUG`, `TRACE` — the text is, whatever the case of its ASCII letters; none for any
/// other text.
#[verifier::external_body]
fn parse_filter(name: &str) -> (f: Option<LevelFilter>)
    ensures
        f == named_filter(name@),
{
    match name.parse::<log::LevelFilter>() {
        Ok(log::LevelFilter::Off) => Some(LevelFilter::Off),
        Ok(log::LevelFilter::Error) => Some(LevelFilter::Error),
        Ok(log::LevelFilter::Warn) => Some(LevelFilter::Warn),
        Ok(log::LevelFilter::Info) => Some(LevelFilter::Info),
        Ok(log::LevelFilter::Debug) => Some(LevelFilter::Debug),
        Ok(log::LevelFilter::Trace) => Some(LevelFilter::Trace),
        Err(_) => None,
    }
}

/// The filter that a setting names; none where it is missing or names none.
pub fn filter_of(setting: &Option<String>) -> (f: Option<LevelFilter>)
    ensures
        f == (match setting {
            Some(name) => named_filter(name@),
            None => None,
        }),
{
    match setting {
        Some(name) => parse_filter(name.as_str()),
        None => None,
    }
}

/// A level's number: one for errors, up to five.
pub open spec fn level_number(level: Level) -> u32 {
    match level {
        Level::Error => 1,
        Level::Warn => 2,
        Level::Info => 3,
        Level::Debug => 4,
        Level::Trace => 5,
    }
}

pub fn number_of(level: Level) -> (n: u32)
    ensures
        n == level_number(level),
{
    match level {
        Level::Error => 1,
        Level::Warn => 2,
        Level::Info => 3,
        Level::Debug => 4,
        Level::Trace => 5,
    }
}

} // verus!
