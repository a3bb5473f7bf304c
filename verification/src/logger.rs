//! The logger of the printer: which records it prints, and the level it
//! lets through.
//!
//! Installing the logger in the `log` crate and printing the records are
//! left to the program; here the environment's settings are read.
use vstd::prelude::*;
use vstd::string::StrSliceExecFns;

verus! {

/// The level filters of the `log` crate.
#[derive(Debug, Clone, Copy, PartialEq, Eq, Structural)]
pub enum LogLevel {
    Off,
    Error,
    Warn,
    Info,
    Debug,
    Trace,
}

/// `c` in ASCII lower case.
pub open spec fn ascii_lower(c: char) -> char {
    if 'A' <= c <= 'Z' { ((c as u32) + 32) as char } else { c }
}

/// Whether `a` and `b` are equal but for the case of ASCII letters.
pub open spec fn eq_ignore_ascii_case(a: Seq<char>, b: Seq<char>) -> bool {
    &&& a.len() == b.len()
    &&& forall|i: int| 0 <= i < a.len() ==> ascii_lower(#[trigger] a[i]) == ascii_lower(b[i])
}

/// The level filter named `s`, in any case: `off`, `error`, `warn`,
/// `info`, `debug` or `trace`.
pub open spec fn level_named(s: Seq<char>) -> Option<LogLevel> {
    if eq_ignore_ascii_case(s, seq!['O', 'F', 'F']) {
        Some(LogLevel::Off)
    } else if eq_ignore_ascii_case(s, seq!['E', 'R', 'R', 'O', 'R']) {
        Some(LogLevel::Error)
    } else if eq_ignore_ascii_case(s, seq!['W', 'A', 'R', 'N']) {
        Some(LogLevel::Warn)
    } else if eq_ignore_ascii_case(s, seq!['I', 'N', 'F', 'O']) {
        Some(LogLevel::Info)
    } else if eq_ignore_ascii_case(s, seq!['D', 'E', 'B', 'U', 'G']) {
        Some(LogLevel::Debug)
    } else if eq_ignore_ascii_case(s, seq!['T', 'R', 'A', 'C', 'E']) {
        Some(LogLevel::Trace)
    } else {
        None
    }
}

/// Parses a level filter (`log::LevelFilter::from_str`): the names of the
/// levels are matched ignoring the case of ASCII letters; anything else is
/// an error, here `None`.
#[verifier::external_body]
fn parse_level_filter(level: &str) -> (r: Option<LogLevel>)
    ensures
        r == level_named(level@),
{
    match <log::LevelFilter as core::str::FromStr>::from_str(level) {
        Ok(log::LevelFilter::Off) => Some(LogLevel::Off),
        Ok(log::LevelFilter::Error) => Some(LogLevel::Error),
        Ok(log::LevelFilter::Warn) => Some(LogLevel::Warn),
        Ok(log::LevelFilter::Info) => Some(LogLevel::Info),
        Ok(log::LevelFilter::Debug) => Some(LogLevel::Debug),
        Ok(log::LevelFilter::Trace) => Some(LogLevel::Trace),
        Err(_) => None,
    }
}

/// The most verbose level to log, from the level setting: none to set when
/// there is no setting, and `Off` for a setting that names no level.
pub fn max_level_from_env(level: Option<&str>) -> (r: Option<LogLevel>)
    ensures
        match level {
            None => r is None,
            Some(l) => r == Some(match level_named(l@) {
                Some(v) => v,
                None => LogLevel::Off,
            }),
        },
{
    match level {
        None => None,
        Some(l) => match parse_level_filter(l) {
            Some(v) => Some(v),
            None => Some(LogLevel::Off),
        },
    }
}

/// Whether `list[i..j]` is one of the comma-separated pieces of `list`.
pub open spec fn is_piece(list: Seq<char>, i: int, j: int) -> bool {
    &&& 0 <= i <= j <= list.len()
    &&& (i == 0 || list[i - 1] == ',')
    &&& (j == list.len() || list[j] == ',')
    &&& forall|k: int| i <= k < j ==> #[trigger] list[k] != ','
}

/// Whether `target` starts with `prefix`.
pub open spec fn has_prefix(target: Seq<char>, prefix: Seq<char>) -> bool {
    prefix.len() <= target.len() && target.subrange(0, prefix.len() as int) == prefix
}

/// Whether `target` starts with one of the comma-separated pieces of
/// `list`.
pub open spec fn target_listed(list: Seq<char>, target: Seq<char>) -> bool {
    exists|i: int, j: int| #[trigger] is_piece(list, i, j) && has_prefix(target, list.subrange(i, j))
}

/// Whether `target` starts with `list[i..j]`.
fn starts_with_range(target: &str, list: &str, i: usize, j: usize) -> (r: bool)
    requires
        i <= j <= list@.len(),
    ensures
        r == has_prefix(target@, list@.subrange(i as int, j as int)),
{
    let n = j - i;
    if n > target.unicode_len() {
        return false;
    }
    let mut k: usize = 0;
    while k < n
        invariant
            k <= n,
            n == j - i,
            i <= j <= list@.len(),
            n <= target@.len(),
            target@.subrange(0, k as int) == list@.subrange(i as int, i + k),
        decreases n - k,
    {
        if target.get_char(k) != list.get_char(i + k) {
            assert(target@.subrange(0, n as int)[k as int] != list@.subrange(i as int, j as int)[k as int]);
            return false;
        }
        k = k + 1;
        assert(target@.subrange(0, k as int) =~= list@.subrange(i as int, i + k));
    }
    true
}

/// The printer's logger.
pub struct EspLogger;

impl EspLogger {
    /// Every level is enabled; the maximum level filters.
    pub fn enabled(&self) -> (r: bool)
        ensures
            r,
    {
        true
    }

    /// Whether a record of `target` is printed: always when no targets are
    /// set; else when the target starts with one of the comma-separated
    /// `targets`.
    pub fn log(&self, targets: Option<&str>, target: &str) -> (r: bool)
        ensures
            match targets {
                None => r,
                Some(list) => r == target_listed(list@, target@),
            },
    {
        let list = match targets {
            None => {
                return true;
            },
            Some(list) => list,
        };
        let n = list.unicode_len();
        let mut start: usize = 0;
        let mut k: usize = 0;
        while k < n
            invariant
                targets == Some(list),
                n == list@.len(),
                start <= k <= n,
                start == 0 || list@[start - 1] == ',',
                forall|m: int| start <= m < k ==> #[trigger] list@[m] != ',',
                forall|i: int, j: int| #[trigger] is_piece(list@, i, j) && j < k ==> !has_prefix(target@, list@.subrange(i, j)),
            decreases n - k,
        {
            if list.get_char(k) == ',' {
                assert(is_piece(list@, start as int, k as int));
                if starts_with_range(target, list, start, k) {
                    return true;
                }
                assert forall|i: int, j: int| #[trigger] is_piece(list@, i, j) && j < k + 1
                    implies !has_prefix(target@, list@.subrange(i, j)) by {
                    if j == k {
                        if i < start {
                            assert(list@[start - 1] == ',');
                        }
                        if i > start {
                            assert(list@[i - 1] != ',');
                        }
                    }
                }
                start = k + 1;
            } else {
                assert forall|i: int, j: int| #[trigger] is_piece(list@, i, j) && j < k + 1
                    implies !has_prefix(target@, list@.subrange(i, j)) by {
                    if j == k {
                        assert(list@[j] == ',');
                    }
                }
            }
            k = k + 1;
        }
        // The last piece runs to the end of the list.
        assert(is_piece(list@, start as int, n as int));
        let last = starts_with_range(target, list, start, n);
        if !last {
            assert forall|i: int, j: int| #[trigger] is_piece(list@, i, j)
                implies !has_prefix(target@, list@.subrange(i, j)) by {
                if j == n {
                    if i < start {
                        assert(list@[start - 1] == ',');
                    }
                    if i > start {
                        assert(list@[i - 1] != ',');
                    }
                }
            }
        }
        last
    }
}

} // verus!
