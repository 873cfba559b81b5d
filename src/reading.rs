//! Turning what the metric readers produce into readings.

use vstd::prelude::*;
use vstd::string::StrSliceExecFns;

use crate::level::Percent;
use crate::number::{decimal_parts, parse_decimal, saturate};

verus! {

#[verifier::external_type_specification]
#[verifier::external_body]
pub struct ExIoError(std::io::Error);

#[verifier::external_type_specification]
#[verifier::external_body]
pub struct ExFromUtf8Error(std::string::FromUtf8Error);

/// Why a metric could not be read.
#[derive(Debug)]
pub enum ReadError {
    CommandSpawn(&'static str),
    NonZeroExit(&'static str),
    Utf8(std::string::FromUtf8Error),
    Parse(&'static str),
    Io(std::io::Error),
    Timeout(&'static str),
    Other(String),
}

impl From<std::io::Error> for ReadError {
    fn from(e: std::io::Error) -> (r: Self)
        ensures
            r == ReadError::Io(e),
    {
        ReadError::Io(e)
    }
}

impl vstd::std_specs::convert::FromSpecImpl<std::io::Error> for ReadError {
    open spec fn obeys_from_spec() -> bool {
        true
    }

    open spec fn from_spec(e: std::io::Error) -> Self {
        ReadError::Io(e)
    }
}

impl From<std::string::FromUtf8Error> for ReadError {
    fn from(e: std::string::FromUtf8Error) -> (r: Self)
        ensures
            r == ReadError::Utf8(e),
    {
        ReadError::Utf8(e)
    }
}

impl vstd::std_specs::convert::FromSpecImpl<std::string::FromUtf8Error> for ReadError {
    open spec fn obeys_from_spec() -> bool {
        true
    }

    open spec fn from_spec(e: std::string::FromUtf8Error) -> Self {
        ReadError::Utf8(e)
    }
}

/// A character with the Unicode `White_Space` property.
pub open spec fn is_whitespace(c: char) -> bool {
    let u = c as u32;
    (0x09 <= u && u <= 0x0d) || u == 0x20 || u == 0x85 || u == 0xa0 || u == 0x1680 || (0x2000 <= u
        && u <= 0x200a) || u == 0x2028 || u == 0x2029 || u == 0x202f || u == 0x205f || u == 0x3000
}

fn whitespace(c: char) -> (r: bool)
    ensures
        r == is_whitespace(c),
{
    let u = c as u32;
    (0x09 <= u && u <= 0x0d) || u == 0x20 || u == 0x85 || u == 0xa0 || u == 0x1680 || (0x2000 <= u
        && u <= 0x200a) || u == 0x2028 || u == 0x2029 || u == 0x202f || u == 0x205f || u == 0x3000
}

/// Position `p` is the last character of a whitespace-separated word that
/// ends with `%`.
pub open spec fn closes_percent_word(s: Seq<char>, p: int) -> bool {
    &&& 0 <= p < s.len()
    &&& s[p] == '%'
    &&& (p + 1 == s.len() || is_whitespace(s[p + 1]))
}

/// `p` ends the first word of `s` that ends with `%`.
pub open spec fn is_first_percent_word_end(s: Seq<char>, p: int) -> bool {
    &&& closes_percent_word(s, p)
    &&& forall|q: int| 0 <= q < p ==> !closes_percent_word(s, q)
}

/// `b` is where the word that holds position `p` starts.
pub open spec fn is_word_start(s: Seq<char>, p: int, b: int) -> bool {
    &&& 0 <= b <= p
    &&& forall|j: int| b <= j < p ==> !is_whitespace(#[trigger] s[j])
    &&& (b == 0 || is_whitespace(s[b - 1]))
}

/// `t` is where the run of `%` that ends `s[b..e]` starts.
pub open spec fn is_percent_run_start(s: Seq<char>, b: int, e: int, t: int) -> bool {
    &&& b <= t <= e
    &&& forall|j: int| t <= j < e ==> #[trigger] s[j] == '%'
    &&& (t == b || s[t - 1] != '%')
}

/// The number in the first word of `s` that ends with `%`, with the
/// trailing `%` signs taken off; `None` if no word ends with `%`.
pub open spec fn percent_word_number(s: Seq<char>) -> Option<Seq<char>> {
    if exists|p: int| is_first_percent_word_end(s, p) {
        let p = choose|p: int| is_first_percent_word_end(s, p);
        let b = choose|b: int| #[trigger] is_word_start(s, p, b);
        let t = choose|t: int| #[trigger] is_percent_run_start(s, b, p + 1, t);
        Some(s.subrange(b, t))
    } else {
        None
    }
}

/// Memory pressure from the free percentage `whole.fraction`: the whole
/// part of `100 - free`, clamped to `0..=100`.
pub open spec fn pressure_from_free(whole: nat, fraction_nonzero: bool) -> u64 {
    if whole >= 100 {
        0
    } else if fraction_nonzero {
        (99 - whole) as u64
    } else {
        (100 - whole) as u64
    }
}

/// The memory pressure reported in the output `s` of the memory-pressure
/// command, which states the free percentage as a word such as `61%`.
pub open spec fn memory_pressure_of(s: Seq<char>) -> Result<Percent, ReadError> {
    match percent_word_number(s) {
        None => Err(ReadError::Parse("percent not found")),
        Some(num) => match decimal_parts(num) {
            Some((whole, nonzero)) => Ok(Percent(pressure_from_free(whole, nonzero))),
            None => Err(ReadError::Parse("percent parse failed")),
        },
    }
}

proof fn lemma_word_start_unique(s: Seq<char>, p: int, b1: int, b2: int)
    requires
        is_word_start(s, p, b1),
        is_word_start(s, p, b2),
    ensures
        b1 == b2,
{
    if b1 < b2 {
        assert(!is_whitespace(s[b2 - 1]));
    } else if b2 < b1 {
        assert(!is_whitespace(s[b1 - 1]));
    }
}

proof fn lemma_percent_run_start_unique(s: Seq<char>, b: int, e: int, t1: int, t2: int)
    requires
        is_percent_run_start(s, b, e, t1),
        is_percent_run_start(s, b, e, t2),
    ensures
        t1 == t2,
{
    if t1 < t2 {
        assert(s[t2 - 1] == '%');
    } else if t2 < t1 {
        assert(s[t1 - 1] == '%');
    }
}

/// The word that `percent_word_number` speaks of: its start, and the end
/// of its number.
fn find_percent_word(s: &str) -> (r: Option<(usize, usize)>)
    ensures
        match r {
            Some((b, t)) => percent_word_number(s@) == Some(s@.subrange(b as int, t as int)) && b <= t
                <= s@.len(),
            None => percent_word_number(s@) is None,
        },
{
    let n = s.unicode_len();
    let mut i: usize = 0;
    let mut start: usize = 0;
    while i < n
        invariant
            n == s@.len(),
            start <= i <= n,
            start == 0 || is_whitespace(s@[start - 1]),
            forall|j: int| start <= j < i ==> !is_whitespace(#[trigger] s@[j]),
            forall|q: int| 0 <= q < i ==> !closes_percent_word(s@, q),
        decreases n - i,
    {
        let c = s.get_char(i);
        if whitespace(c) {
            start = i + 1;
        } else if c == '%' && (i + 1 == n || whitespace(s.get_char(i + 1))) {
            let ghost p = i as int;
            assert(is_first_percent_word_end(s@, p));
            assert(is_word_start(s@, p, start as int));
            let mut t: usize = i + 1;
            while t > start && s.get_char(t - 1) == '%'
                invariant
                    n == s@.len(),
                    start <= t <= i + 1,
                    i < n,
                    forall|j: int| t <= j < i + 1 ==> #[trigger] s@[j] == '%',
                decreases t,
            {
                t = t - 1;
            }
            proof {
                assert(is_percent_run_start(s@, start as int, p + 1, t as int));
                let pc = choose|p: int| is_first_percent_word_end(s@, p);
                assert(pc == p) by {
                    if pc < p {
                        assert(!closes_percent_word(s@, pc));
                    } else if p < pc {
                        assert(!closes_percent_word(s@, p));
                    }
                }
                let bc = choose|b: int| #[trigger] is_word_start(s@, p, b);
                lemma_word_start_unique(s@, p, bc, start as int);
                let tc = choose|x: int| #[trigger] is_percent_run_start(s@, start as int, p + 1, x);
                lemma_percent_run_start_unique(s@, start as int, p + 1, tc, t as int);
            }
            return Some((start, t));
        }
        i = i + 1;
    }
    proof {
        assert forall|p: int| !is_first_percent_word_end(s@, p) by {
            if 0 <= p < n {
                assert(!closes_percent_word(s@, p));
            }
        }
    }
    None
}

/// The memory pressure in the output of the memory-pressure command: the
/// first word ending with `%` gives the free percentage, and the pressure is
/// the whole part of `100 - free`, clamped to `0..=100`.
pub fn parse_memory_pressure(stdout: &str) -> (r: Result<Percent, ReadError>)
    ensures
        r == memory_pressure_of(stdout@),
{
    match find_percent_word(stdout) {
        None => Err(ReadError::Parse("percent not found")),
        Some((b, t)) => {
            let num = stdout.substring_char(b, t);
            match parse_decimal(num) {
                Some((whole, nonzero)) => {
                    let pressure = if whole >= 100 {
                        0
                    } else if nonzero {
                        99 - whole
                    } else {
                        100 - whole
                    };
                    Ok(Percent(pressure))
                },
                None => Err(ReadError::Parse("percent parse failed")),
            }
        },
    }
}

/// The pattern of the round-trip time in the output of `ping`, such as
/// `time=14.2 ms` or `time<1ms`; its first group is the number.
pub const LATENCY_PATTERN: &'static str = "time[=<]?\\s*([0-9]+(?:\\.[0-9]+)?)\\s*ms";

/// The text of capture group 1 of the leftmost match of `pattern` in `text`:
/// `None` when the pattern does not compile, nothing matches, or the group
/// takes no part in the match.
pub uninterp spec fn regex_group_one(pattern: Seq<char>, text: Seq<char>) -> Option<Seq<char>>;

/// Relies on regex's `Regex::new` and `Regex::captures`, with
/// `Captures::get(1)` and `Match::as_str`, for the text of group 1 of the
/// leftmost match.
#[verifier::external_body]
fn capture_group_one(pattern: &str, text: &str) -> (r: Option<String>)
    ensures
        match r {
            Some(g) => regex_group_one(pattern@, text@) == Some(g@),
            None => regex_group_one(pattern@, text@) is None,
        },
{
    let re = regex::Regex::new(pattern).ok()?;
    let caps = re.captures(text)?;
    match caps.get(1) {
        Some(m) => Some(m.as_str().to_string()),
        None => None,
    }
}

/// The latency in whole milliseconds given by the captured round-trip time.
pub open spec fn latency_of_capture(capture: Option<Seq<char>>) -> Result<u64, ReadError> {
    match capture {
        None => Err(ReadError::Parse("latency not found")),
        Some(g) => match decimal_parts(g) {
            Some((whole, _)) => Ok(saturate(whole)),
            None => Err(ReadError::Parse("latency parse failed")),
        },
    }
}

/// The latency in whole milliseconds given by a captured round-trip time
/// such as `14.2`; the fraction is dropped.
pub fn latency_from_capture(capture: Option<&str>) -> (r: Result<u64, ReadError>)
    ensures
        r == latency_of_capture(
            match capture {
                Some(c) => Some(c@),
                None => None,
            },
        ),
{
    match capture {
        None => Err(ReadError::Parse("latency not found")),
        Some(g) => match parse_decimal(g) {
            Some((whole, _)) => Ok(whole),
            None => Err(ReadError::Parse("latency parse failed")),
        },
    }
}

/// The round-trip time in whole milliseconds reported in the output of
/// `ping`.
pub fn parse_ping_latency_ms(stdout: &str) -> (r: Result<u64, ReadError>)
    ensures
        r == latency_of_capture(regex_group_one(LATENCY_PATTERN@, stdout@)),
{
    match capture_group_one(LATENCY_PATTERN, stdout) {
        Some(g) => latency_from_capture(Some(g.as_str())),
        None => latency_from_capture(None),
    }
}

/// The latency of a timed TCP connection, from its elapsed milliseconds;
/// `None` means the connection failed or timed out.
pub fn read_network_latency_ms(elapsed_ms: Option<u128>) -> (r: Result<u64, ReadError>)
    ensures
        r == match elapsed_ms {
            Some(ms) => Ok::<u64, ReadError>(saturate(ms as nat)),
            None => Err(ReadError::Timeout("tcp connect")),
        },
{
    match elapsed_ms {
        Some(ms) => {
            if ms > u64::MAX as u128 {
                Ok(u64::MAX)
            } else {
                Ok(ms as u64)
            }
        },
        None => Err(ReadError::Timeout("tcp connect")),
    }
}

} // verus!
