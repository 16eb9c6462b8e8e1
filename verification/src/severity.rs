//! The severity scale: a totally ordered set of log levels, where a higher
//! rank means a more verbose (less important) level, together with the
//! case-insensitive textual tokens used by declarative configuration.

use vstd::prelude::*;
use vstd::string::StrSliceExecFns;

verus! {

/// Whether `s` spells the same token as `lo`, comparing character by
/// character and accepting at each position either the lower-case spelling
/// `lo` or the upper-case spelling `up` of that token.
pub open spec fn spec_matches_token(s: Seq<char>, lo: Seq<char>, up: Seq<char>) -> bool {
    s.len() == lo.len() && forall|i: int| 0 <= i < s.len() ==> (s[i] == lo[i] || s[i] == up[i])
}

/// The severity named by a configuration token, matched case-insensitively
/// against the vocabulary `trace|debug|info|warn|error|off`; `None` for any
/// other token.
pub open spec fn spec_from_token(s: Seq<char>) -> Option<Severity> {
    if spec_matches_token(s, "trace"@, "TRACE"@) {
        Some(Severity::Trace)
    } else if spec_matches_token(s, "debug"@, "DEBUG"@) {
        Some(Severity::Debug)
    } else if spec_matches_token(s, "info"@, "INFO"@) {
        Some(Severity::Info)
    } else if spec_matches_token(s, "warn"@, "WARN"@) {
        Some(Severity::Warn)
    } else if spec_matches_token(s, "error"@, "ERROR"@) {
        Some(Severity::Error)
    } else if spec_matches_token(s, "off"@, "OFF"@) {
        Some(Severity::Off)
    } else {
        None
    }
}

/// Compares `s` against a token spelled in lower case by `lo` and in upper
/// case by `up`, accepting any mixture of the two cases.
fn matches_token(s: &str, lo: &str, up: &str) -> (b: bool)
    requires
        lo@.len() == up@.len(),
    ensures
        b == spec_matches_token(s@, lo@, up@),
{
    let n = s.unicode_len();
    if n != lo.unicode_len() {
        return false;
    }
    let mut i: usize = 0;
    while i < n
        invariant
            n == s@.len(),
            n == lo@.len(),
            lo@.len() == up@.len(),
            i <= n,
            forall|j: int| 0 <= j < i ==> (s@[j] == lo@[j] || s@[j] == up@[j]),
        decreases n - i,
    {
        let c = s.get_char(i);
        if c != lo.get_char(i) && c != up.get_char(i) {
            return false;
        }
        i = i + 1;
    }
    true
}

/// A log severity threshold. `Off` admits nothing; `Trace` admits everything.
///
/// The ordering used throughout the crate is the *verbosity* rank given by
/// [`Severity::rank`]: `Off < Error < Warn < Info < Debug < Trace`, where a
/// greater rank denotes a more verbose level.
#[derive(Clone, Copy, Debug, PartialEq, Eq, Structural)]
pub enum Severity {
    Off,
    Error,
    Warn,
    Info,
    Debug,
    Trace,
}

impl Severity {
    /// The verbosity rank of a severity: greater means more verbose.
    pub open spec fn rank(self) -> int {
        match self {
            Severity::Off => 0,
            Severity::Error => 1,
            Severity::Warn => 2,
            Severity::Info => 3,
            Severity::Debug => 4,
            Severity::Trace => 5,
        }
    }

    /// The verbosity rank as an executable value.
    pub fn rank_value(self) -> (n: u8)
        ensures
            n == self.rank(),
    {
        match self {
            Severity::Off => 0,
            Severity::Error => 1,
            Severity::Warn => 2,
            Severity::Info => 3,
            Severity::Debug => 4,
            Severity::Trace => 5,
        }
    }

    /// Whether `self` is strictly more verbose than `other`.
    pub fn is_more_verbose_than(self, other: Severity) -> (b: bool)
        ensures
            b == (self.rank() > other.rank()),
    {
        self.rank_value() > other.rank_value()
    }

    /// Parses a configuration token into a severity, case-insensitively over
    /// the vocabulary `trace|debug|info|warn|error|off`; any other token is
    /// rejected with `None`.
    pub fn from_token(token: &str) -> (r: Option<Severity>)
        ensures
            r == spec_from_token(token@),
    {
        proof {
            reveal_strlit("trace");
            reveal_strlit("TRACE");
            reveal_strlit("debug");
            reveal_strlit("DEBUG");
            reveal_strlit("info");
            reveal_strlit("INFO");
            reveal_strlit("warn");
            reveal_strlit("WARN");
            reveal_strlit("error");
            reveal_strlit("ERROR");
            reveal_strlit("off");
            reveal_strlit("OFF");
        }
        if matches_token(token, "trace", "TRACE") {
            Some(Severity::Trace)
        } else if matches_token(token, "debug", "DEBUG") {
            Some(Severity::Debug)
        } else if matches_token(token, "info", "INFO") {
            Some(Severity::Info)
        } else if matches_token(token, "warn", "WARN") {
            Some(Severity::Warn)
        } else if matches_token(token, "error", "ERROR") {
            Some(Severity::Error)
        } else if matches_token(token, "off", "OFF") {
            Some(Severity::Off)
        } else {
            None
        }
    }
}

} // verus!
