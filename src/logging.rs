//! The plan of the diagnostic-logging pipeline: which filter, which
//! destination, which rendering style.
use crate::config::{LogConfig, LogFormat};
use tracing_subscriber::EnvFilter;
use vstd::prelude::*;

verus! {

#[verifier::external_type_specification]
#[verifier::external_body]
pub struct ExEnvFilter(tracing_subscriber::EnvFilter);

/// Whether `EnvFilter` accepts a text as a list of filter directives.
pub uninterp spec fn env_filter_accepts(directives: Seq<char>) -> bool;

/// Bytes that `c` takes in UTF-8.
pub open spec fn utf8_len(c: char) -> int {
    let u = c as u32;
    if u < 0x80 {
        1
    } else if u < 0x800 {
        2
    } else if u < 0x10000 {
        3
    } else {
        4
    }
}

/// A character that `str::trim` removes: one with the Unicode White_Space
/// property, which `char::is_whitespace` tests.
pub open spec fn trimmed_char(c: char) -> bool {
    let u = c as u32;
    ||| 0x9 <= u <= 0xd
    ||| u == 0x20
    ||| u == 0x85
    ||| u == 0xa0
    ||| u == 0x1680
    ||| 0x2000 <= u <= 0x200a
    ||| u == 0x2028
    ||| u == 0x2029
    ||| u == 0x202f
    ||| u == 0x205f
    ||| u == 0x3000
}

/// Whether byte offset `x` is where a character of `p` at index `m` or later
/// begins, or the end of `p`, given that character `m` begins at `acc`.
pub open spec fn boundary_from(p: Seq<char>, m: int, acc: int, x: int) -> bool
    decreases p.len() - m,
{
    if acc == x {
        true
    } else if acc > x || m < 0 || m >= p.len() {
        false
    } else {
        boundary_from(p, m + 1, acc + utf8_len(p[m]), x)
    }
}

/// Whether byte offset `x` can cut `p`: it is where a character begins, or
/// the end.
pub open spec fn boundary(p: Seq<char>, x: int) -> bool {
    boundary_from(p, 0, 0, x)
}

/// The index of the first character at or after `k` that `str::trim` keeps.
pub open spec fn lead_from(p: Seq<char>, k: int) -> int
    decreases p.len() - k,
{
    if 0 <= k < p.len() && trimmed_char(p[k]) {
        lead_from(p, k + 1)
    } else {
        k
    }
}

/// The states of the directive parser, with the byte offsets it keeps.
#[derive(Clone, Copy, Debug, PartialEq, Eq, Structural)]
pub enum ScanState {
    Start,
    LevelOrTarget,
    Span(u128),
    Field(u128),
    Fields,
    Target,
    Level(u128),
}

/// Whether the directive parser, run over the trimmed piece from character
/// `k` (at byte `x` of the trimmed piece) in state `st`, cuts the untrimmed
/// piece `p` only at character boundaries. The parser counts offsets in the
/// trimmed piece and cuts the untrimmed one with them: at `=` and `[` after
/// a target, at `]` and `{` after a span name, at `}` after a field, and at
/// the start of a trailing level. Where the parser gives up with an error it
/// cuts nothing more; here the scan goes on, which can only flag texts that
/// the parser rejects anyway.
pub open spec fn scan_ok(p: Seq<char>, k: int, x: int, st: ScanState) -> bool
    decreases p.len() - k,
{
    if k < 0 || k >= p.len() {
        match st {
            ScanState::Level(ls) => boundary(p, ls as int),
            _ => true,
        }
    } else {
        let c = p[k];
        let nx = x + utf8_len(c);
        match st {
            ScanState::Start => if c == '[' {
                scan_ok(p, k + 1, nx, ScanState::Span((x + 1) as u128))
            } else {
                scan_ok(p, k + 1, nx, ScanState::LevelOrTarget)
            },
            ScanState::LevelOrTarget => if c == '=' {
                boundary(p, x) && scan_ok(p, k + 1, nx, ScanState::Level((x + 1) as u128))
            } else if c == '[' {
                boundary(p, x) && scan_ok(p, k + 1, nx, ScanState::Span((x + 1) as u128))
            } else {
                scan_ok(p, k + 1, nx, st)
            },
            ScanState::Span(ss) => if c == ']' {
                boundary(p, ss as int) && boundary(p, x) && scan_ok(p, k + 1, nx, ScanState::Target)
            } else if c == '{' {
                boundary(p, ss as int) && boundary(p, x) && scan_ok(
                    p,
                    k + 1,
                    nx,
                    ScanState::Field((x + 1) as u128),
                )
            } else {
                scan_ok(p, k + 1, nx, st)
            },
            ScanState::Field(fs) => if c == '}' {
                boundary(p, fs as int) && boundary(p, x) && scan_ok(p, k + 1, nx, ScanState::Fields)
            } else {
                scan_ok(p, k + 1, nx, st)
            },
            ScanState::Fields => c != ']' || scan_ok(p, k + 1, nx, ScanState::Target),
            ScanState::Target => c != '=' || scan_ok(
                p,
                k + 1,
                nx,
                ScanState::Level((x + 1) as u128),
            ),
            ScanState::Level(_) => scan_ok(p, k + 1, nx, st),
        }
    }
}

/// Whether the directive parser cuts one comma-separated piece only at
/// character boundaries.
pub open spec fn piece_ok(p: Seq<char>) -> bool {
    scan_ok(p, lead_from(p, 0), 0, ScanState::Start)
}

/// Whether every piece of `s` from the one that begins at `a` is cut only at
/// character boundaries, the scan having reached index `b`.
pub open spec fn pieces_ok_from(s: Seq<char>, a: int, b: int) -> bool
    decreases s.len() - b,
{
    if b < 0 || a < 0 || a > b {
        true
    } else if b >= s.len() {
        a <= s.len() ==> piece_ok(s.subrange(a, s.len() as int))
    } else if s[b] == ',' {
        piece_ok(s.subrange(a, b)) && pieces_ok_from(s, b + 1, b + 1)
    } else {
        pieces_ok_from(s, a, b + 1)
    }
}

/// Texts that `EnvFilter::from_str` takes without panicking. It splits the
/// text at commas and hands each piece to the directive parser, which
/// panics where it cuts a piece inside a character.
pub open spec fn safe_to_parse(s: Seq<char>) -> bool {
    pieces_ok_from(s, 0, 0)
}

/// An `EnvFilter` together with the directives it was parsed from; none
/// where it is the default filter. Only parsing and the default set it.
pub struct LogFilter {
    filter: EnvFilter,
    source: Ghost<Option<Seq<char>>>,
}

impl LogFilter {
    /// The directives the filter was parsed from, or none for the default.
    pub closed spec fn source(&self) -> Option<Seq<char>> {
        self.source@
    }

    /// The filter itself, for installing it.
    pub fn into_env_filter(self) -> EnvFilter {
        self.filter
    }

    /// The filter itself, for inspecting it.
    pub fn env_filter(&self) -> &EnvFilter {
        &self.filter
    }
}

/// Relies on `EnvFilter::from_str`, which parses comma-separated filter
/// directives and fails on a malformed one; an empty text is accepted as
/// the empty list of directives. It panics on the texts that
/// `safe_to_parse` leaves out: a piece with leading whitespace that it cuts
/// inside a character.
#[verifier::external_body]
fn parse_env_filter(directives: &str) -> (r: Option<LogFilter>)
    requires
        safe_to_parse(directives@),
    ensures
        r is Some <==> env_filter_accepts(directives@),
        r matches Some(f) ==> f.source() == Some(directives@),
        directives@.len() == 0 ==> r is Some,
{
    match <EnvFilter as std::str::FromStr>::from_str(directives) {
        Ok(filter) => Some(LogFilter { filter, source: Ghost(Some(directives@)) }),
        Err(_) => None,
    }
}

/// Relies on `EnvFilter::default`, the filter with no directives.
#[verifier::external_body]
fn default_env_filter() -> (r: LogFilter)
    ensures
        r.source() is None,
{
    LogFilter { filter: EnvFilter::default(), source: Ghost(None) }
}

/// Decides `trimmed_char` on a code point.
fn is_trimmed_char(u: u32) -> (r: bool)
    ensures
        forall|c: char| c as u32 == u ==> r == trimmed_char(c),
{
    (0x9 <= u && u <= 0xd) || u == 0x20 || u == 0x85 || u == 0xa0 || u == 0x1680 || (0x2000
        <= u && u <= 0x200a) || u == 0x2028 || u == 0x2029 || u == 0x202f || u == 0x205f || u
        == 0x3000
}

/// Computes `utf8_len`.
fn utf8_width(c: char) -> (r: u128)
    ensures
        r as int == utf8_len(c),
        1 <= r <= 4,
{
    let u = c as u32;
    if u < 0x80 {
        1
    } else if u < 0x800 {
        2
    } else if u < 0x10000 {
        3
    } else {
        4
    }
}

/// Decides `boundary_from` on the piece `v[a..b]`.
fn boundary_from_exec(v: &Vec<char>, a: usize, b: usize, m: usize, acc: u128, x: u128) -> (r: bool)
    requires
        a <= b <= v@.len(),
        m <= b - a,
        acc <= 4 * m,
    ensures
        r == boundary_from(v@.subrange(a as int, b as int), m as int, acc as int, x as int),
    decreases b - a - m,
{
    if acc == x {
        true
    } else if acc > x || m >= b - a {
        false
    } else {
        let w = utf8_width(v[a + m]);
        boundary_from_exec(v, a, b, m + 1, acc + w, x)
    }
}

/// Decides `lead_from` on the piece `v[a..b]`.
fn lead_from_exec(v: &Vec<char>, a: usize, b: usize, k: usize) -> (r: usize)
    requires
        a <= b <= v@.len(),
        k <= b - a,
    ensures
        r as int == lead_from(v@.subrange(a as int, b as int), k as int),
        k <= r <= b - a,
    decreases b - a - k,
{
    if k < b - a && is_trimmed_char(v[a + k] as u32) {
        lead_from_exec(v, a, b, k + 1)
    } else {
        k
    }
}

/// Decides `scan_ok` on the piece `v[a..b]`.
fn scan_ok_exec(v: &Vec<char>, a: usize, b: usize, k: usize, x: u128, st: ScanState) -> (r: bool)
    requires
        a <= b <= v@.len(),
        k <= b - a,
        x <= 4 * k,
    ensures
        r == scan_ok(v@.subrange(a as int, b as int), k as int, x as int, st),
    decreases b - a - k,
{
    let ghost p = v@.subrange(a as int, b as int);
    if k >= b - a {
        match st {
            ScanState::Level(ls) => boundary_from_exec(v, a, b, 0, 0, ls),
            _ => true,
        }
    } else {
        let c = v[a + k];
        assert(c == p[k as int]);
        let nx = x + utf8_width(c);
        match st {
            ScanState::Start => if c == '[' {
                scan_ok_exec(v, a, b, k + 1, nx, ScanState::Span(x + 1))
            } else {
                scan_ok_exec(v, a, b, k + 1, nx, ScanState::LevelOrTarget)
            },
            ScanState::LevelOrTarget => if c == '=' {
                boundary_from_exec(v, a, b, 0, 0, x) && scan_ok_exec(
                    v,
                    a,
                    b,
                    k + 1,
                    nx,
                    ScanState::Level(x + 1),
                )
            } else if c == '[' {
                boundary_from_exec(v, a, b, 0, 0, x) && scan_ok_exec(
                    v,
                    a,
                    b,
                    k + 1,
                    nx,
                    ScanState::Span(x + 1),
                )
            } else {
                scan_ok_exec(v, a, b, k + 1, nx, st)
            },
            ScanState::Span(ss) => if c == ']' {
                boundary_from_exec(v, a, b, 0, 0, ss) && boundary_from_exec(v, a, b, 0, 0, x)
                    && scan_ok_exec(v, a, b, k + 1, nx, ScanState::Target)
            } else if c == '{' {
                boundary_from_exec(v, a, b, 0, 0, ss) && boundary_from_exec(v, a, b, 0, 0, x)
                    && scan_ok_exec(v, a, b, k + 1, nx, ScanState::Field(x + 1))
            } else {
                scan_ok_exec(v, a, b, k + 1, nx, st)
            },
            ScanState::Field(fs) => if c == '}' {
                boundary_from_exec(v, a, b, 0, 0, fs) && boundary_from_exec(v, a, b, 0, 0, x)
                    && scan_ok_exec(v, a, b, k + 1, nx, ScanState::Fields)
            } else {
                scan_ok_exec(v, a, b, k + 1, nx, st)
            },
            ScanState::Fields => c != ']' || scan_ok_exec(v, a, b, k + 1, nx, ScanState::Target),
            ScanState::Target => c != '=' || scan_ok_exec(
                v,
                a,
                b,
                k + 1,
                nx,
                ScanState::Level(x + 1),
            ),
            ScanState::Level(_) => scan_ok_exec(v, a, b, k + 1, nx, st),
        }
    }
}

/// Decides `pieces_ok_from` on `v`.
fn pieces_ok_exec(v: &Vec<char>, a: usize, b: usize) -> (r: bool)
    requires
        a <= b <= v@.len(),
    ensures
        r == pieces_ok_from(v@, a as int, b as int),
    decreases v@.len() - b,
{
    if b >= v.len() {
        let k = lead_from_exec(v, a, b, 0);
        scan_ok_exec(v, a, b, k, 0, ScanState::Start)
    } else if v[b] == ',' {
        let k = lead_from_exec(v, a, b, 0);
        scan_ok_exec(v, a, b, k, 0, ScanState::Start) && pieces_ok_exec(v, b + 1, b + 1)
    } else {
        pieces_ok_exec(v, a, b + 1)
    }
}

/// Decides `safe_to_parse`.
fn is_safe_to_parse(s: &str) -> (r: bool)
    ensures
        r == safe_to_parse(s@),
{
    let n = s.unicode_len();
    let mut v: Vec<char> = Vec::new();
    let mut i: usize = 0;
    while i < n
        invariant
            n == s@.len(),
            i <= n,
            v@ == s@.take(i as int),
        decreases n - i,
    {
        v.push(s.get_char(i));
        i = i + 1;
        assert(v@ == s@.take(i as int));
    }
    assert(v@ == s@);
    pieces_ok_exec(&v, 0, 0)
}

/// The filter in use, with the directives it came from.
pub struct FilterSelection {
    pub filter: LogFilter,
    /// The configured directives, or none where the default filter is used.
    pub directives: Option<String>,
}

/// Where the records are written.
#[derive(Debug)]
pub enum LogDestination {
    /// Appended to this file, whose parent directories are created first.
    File(std::path::PathBuf),
    /// Written to the standard error stream.
    Stderr,
}

/// Everything that the pipeline is built from.
pub struct LoggingPlan {
    pub filter: FilterSelection,
    pub destination: LogDestination,
    pub format: LogFormat,
}

/// The directives in use for a configured filter text: the text itself
/// where `EnvFilter` parses it without panicking and accepts it, else none.
pub open spec fn chosen_directives(log_filter: Option<Seq<char>>) -> Option<Seq<char>> {
    match log_filter {
        Some(s) => if safe_to_parse(s) && env_filter_accepts(s) {
            Some(s)
        } else {
            None
        },
        None => None,
    }
}

/// The text of an optional string.
pub open spec fn text_of(s: Option<String>) -> Option<Seq<char>> {
    match s {
        Some(t) => Some(t@),
        None => None,
    }
}

/// Picks the filter: the one parsed from the configured text where that
/// parses without panicking, else the default filter. An unusable text is
/// not an error.
pub fn select_filter(log_filter: &Option<String>) -> (r: FilterSelection)
    ensures
        r.filter.source() == chosen_directives(text_of(*log_filter)),
        text_of(r.directives) == chosen_directives(text_of(*log_filter)),
{
    match log_filter {
        Some(s) => {
            if is_safe_to_parse(s.as_str()) {
                if let Some(filter) = parse_env_filter(s.as_str()) {
                    return FilterSelection { filter, directives: Some(s.clone()) };
                }
            }
            FilterSelection { filter: default_env_filter(), directives: None }
        },
        None => FilterSelection { filter: default_env_filter(), directives: None },
    }
}

/// Picks the destination: the configured file, else standard error.
pub fn select_destination(log_file: Option<std::path::PathBuf>) -> (r: LogDestination)
    ensures
        match log_file {
            Some(p) => r == LogDestination::File(p),
            None => r is Stderr,
        },
{
    match log_file {
        Some(p) => LogDestination::File(p),
        None => LogDestination::Stderr,
    }
}

/// The plan of the pipeline for a configuration, which it consumes.
pub fn plan_logging(config: LogConfig) -> (r: LoggingPlan)
    ensures
        r.filter.filter.source() == chosen_directives(text_of(config.log_filter)),
        text_of(r.filter.directives) == chosen_directives(text_of(config.log_filter)),
        match config.log_file {
            Some(p) => r.destination == LogDestination::File(p),
            None => r.destination is Stderr,
        },
        r.format == config.log_format,
{
    LoggingPlan {
        filter: select_filter(&config.log_filter),
        destination: select_destination(config.log_file),
        format: config.log_format,
    }
}

} // verus!
