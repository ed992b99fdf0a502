use vstd::prelude::*;
use vstd::string::StrSliceExecFns;
use crate::config::AppMode;

verus! {

/// Verbosity of a log or trace event, from the most to the least verbose.
#[derive(Debug, Clone, Copy, PartialEq, Eq, Structural)]
pub enum Level {
    Trace,
    Debug,
    Info,
    Warn,
    Error,
}

/// The resolution in which a latency is reported.
#[derive(Debug, Clone, Copy, PartialEq, Eq, Structural)]
pub enum LatencyUnit {
    Seconds,
    Millis,
    Micros,
    Nanos,
}

/// How log lines are rendered.
#[derive(Debug, Clone, Copy, PartialEq, Eq, Structural)]
pub enum LogFormat {
    /// Human-readable formatted lines.
    Human,
    /// Machine-parseable records, one field per key.
    Structured,
}

/// What the request-tracing layer records at each phase of a request.
#[derive(Debug, Clone, Copy, PartialEq, Eq, Structural)]
pub struct TracePolicy {
    pub span_level: Level,
    pub include_request_headers: bool,
    pub request_level: Level,
    pub log_body_chunks: bool,
    pub log_end_of_stream: bool,
    pub response_level: Level,
    pub response_latency_unit: LatencyUnit,
    pub include_response_headers: bool,
    pub failure_level: Level,
    pub failure_latency_unit: LatencyUnit,
}

impl TracePolicy {
    /// Headers and bodies never reach the log sink.
    pub open spec fn redacts(&self) -> bool {
        &&& !self.include_request_headers
        &&& !self.include_response_headers
        &&& !self.log_body_chunks
        &&& !self.log_end_of_stream
    }
}

/// The policy of the service's tracing layer: spans open at info level without
/// request headers, the received marker is at debug level, body chunks and end
/// of stream are not logged, and the span closes at info level (error level on
/// a server failure) with millisecond latency and no response headers.
pub fn http_trace_policy() -> (p: TracePolicy)
    ensures
        p.span_level == Level::Info,
        p.request_level == Level::Debug,
        p.response_level == Level::Info,
        p.response_latency_unit == LatencyUnit::Millis,
        p.failure_level == Level::Error,
        p.failure_latency_unit == LatencyUnit::Millis,
        p.redacts(),
{
    TracePolicy {
        span_level: Level::Info,
        include_request_headers: false,
        request_level: Level::Debug,
        log_body_chunks: false,
        log_end_of_stream: false,
        response_level: Level::Info,
        response_latency_unit: LatencyUnit::Millis,
        include_response_headers: false,
        failure_level: Level::Error,
        failure_latency_unit: LatencyUnit::Millis,
    }
}

/// Development logs in human-readable form; staging and production in structured form.
pub fn log_format(mode: &AppMode) -> (f: LogFormat)
    ensures
        f == (if mode.is_development {
            LogFormat::Human
        } else {
            LogFormat::Structured
        }),
{
    if mode.is_development {
        LogFormat::Human
    } else {
        LogFormat::Structured
    }
}

/// The baseline filter: info level for the transport layer and for the service.
pub open spec fn default_filter_text(crate_name: Seq<char>) -> Seq<char> {
    "tower_http=info,"@ + crate_name + "=info"@
}

/// Writes the baseline filter directives for a service crate.
pub fn default_filter(crate_name: &str) -> (r: String)
    ensures
        r@ == default_filter_text(crate_name@),
{
    let mut r = String::from_str("tower_http=info,");
    r.append(crate_name);
    r.append("=info");
    r
}

/// A directive may start here: the text's first character, or one right after a comma.
pub open spec fn directive_start(s: Seq<char>, i: int) -> bool {
    i == 0 || s[i - 1] == ','
}

/// A character that may open a directive: a comma (an empty directive) or a
/// printable ASCII character other than space.
pub open spec fn safe_directive_start(c: char) -> bool {
    c == ',' || (32 < (c as u32) && (c as u32) < 128)
}

/// No directive starts with whitespace or with a character outside ASCII, so
/// trimming a directive never shifts its character offsets.
pub open spec fn directives_trim_safe(s: Seq<char>) -> bool {
    forall|i: int| 0 <= i < s.len() && directive_start(s, i) ==> safe_directive_start(#[trigger] s[i])
}

/// Tests that no directive of the text starts with whitespace or a non-ASCII character.
pub fn directives_are_trim_safe(dirs: &str) -> (r: bool)
    ensures
        r == directives_trim_safe(dirs@),
{
    let n = dirs.unicode_len();
    let mut i: usize = 0;
    let mut at_start = true;
    while i < n
        invariant
            n == dirs@.len(),
            i <= n,
            at_start == directive_start(dirs@, i as int),
            forall|j: int| 0 <= j < i && directive_start(dirs@, j) ==> safe_directive_start(#[trigger] dirs@[j]),
        decreases n - i,
    {
        let c = dirs.get_char(i);
        if at_start && !(c == ',' || (32 < (c as u32) && (c as u32) < 128)) {
            return false;
        }
        at_start = c == ',';
        i = i + 1;
    }
    true
}

/// Names whether `tracing_subscriber` accepts a string as filter directives.
pub uninterp spec fn filter_accepts(dirs: Seq<char>) -> bool;

/// Relies on tracing_subscriber::EnvFilter::try_new: it parses the directives,
/// which depends on the text alone, and accepts the empty string. It slices
/// each directive by offsets taken from its trimmed form, so a directive that
/// starts with whitespace or a wide character is kept out.
#[verifier::external_body]
fn filter_is_valid(dirs: &str) -> (r: bool)
    requires
        directives_trim_safe(dirs@),
    ensures
        r == filter_accepts(dirs@),
        dirs@.len() == 0 ==> r,
{
    tracing_subscriber::EnvFilter::try_new(dirs).is_ok()
}

/// The filter to use: the override where one is given and accepted, the
/// baseline otherwise.
pub fn select_filter(override_dirs: Option<String>, accepted: bool, crate_name: &str) -> (r:
    String)
    ensures
        r@ == (if override_dirs is Some && accepted {
            override_dirs->0@
        } else {
            default_filter_text(crate_name@)
        }),
{
    match override_dirs {
        Some(dirs) if accepted => dirs,
        _ => default_filter(crate_name),
    }
}

/// The filter to use, given the override's raw value (`None` when unset). An
/// override that is not trim-safe, or that does not parse, gives the baseline.
pub fn log_filter(override_dirs: Option<String>, crate_name: &str) -> (r: String)
    ensures
        r@ == (if override_dirs is Some && directives_trim_safe(override_dirs->0@)
            && filter_accepts(override_dirs->0@) {
            override_dirs->0@
        } else {
            default_filter_text(crate_name@)
        }),
{
    let accepted = match &override_dirs {
        Some(dirs) => directives_are_trim_safe(dirs.as_str()) && filter_is_valid(dirs.as_str()),
        None => false,
    };
    select_filter(override_dirs, accepted, crate_name)
}

} // verus!
