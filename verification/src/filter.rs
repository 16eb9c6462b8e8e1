//! The named threshold filter: the accept/reject decision rule over the
//! severity scale, and the handles through which the host pipeline and
//! application code reach the shared registry.

use vstd::prelude::*;

use crate::registry::{spec_lookup, spec_register, spec_set, SharedRegistry};
use crate::severity::{spec_from_token, Severity};

verus! {

/// The outcome of one filter's look at one record. A filter never accepts
/// outright: a record it does not object to gets `Neutral`, so that later
/// filters in the host pipeline's chain remain authoritative.
#[derive(Clone, Copy, Debug, PartialEq, Eq, Structural)]
pub enum Response {
    Neutral,
    Reject,
}

/// The decision rule: a record is rejected exactly when its severity is
/// strictly more verbose than the threshold; otherwise the filter stays
/// neutral.
pub open spec fn spec_decide(threshold: Severity, record: Severity) -> Response {
    if record.rank() > threshold.rank() {
        Response::Reject
    } else {
        Response::Neutral
    }
}

/// Decides one record against one threshold: `Reject` if and only if the
/// record's severity is strictly more verbose than the threshold, `Neutral`
/// if and only if it is equally or less verbose.
pub fn decide(threshold: Severity, record: Severity) -> (r: Response)
    ensures
        r == spec_decide(threshold, record),
        (r == Response::Reject) <==> record.rank() > threshold.rank(),
        (r == Response::Neutral) <==> record.rank() <= threshold.rank(),
{
    if record.is_more_verbose_than(threshold) {
        Response::Reject
    } else {
        Response::Neutral
    }
}

/// The error of the configuration binder: the declarative record carried a
/// severity token outside the vocabulary `trace|debug|info|warn|error|off`.
#[derive(Clone, Copy, Debug, PartialEq, Eq, Structural)]
pub enum ConfigError {
    InvalidSeverityToken,
}

/// A severity filter whose threshold lives in a shared registry under the
/// filter's name and can be changed at runtime.
///
/// A handle holds only its name; it owns no registry entry. Any number of
/// handles may share one name, and they all decide with that name's single
/// current threshold.
#[derive(Clone, Debug, PartialEq, Eq)]
pub struct DynamicLevelFilter {
    name: String,
}

impl View for DynamicLevelFilter {
    type V = Seq<char>;

    closed spec fn view(&self) -> Seq<char> {
        self.name@
    }
}

impl DynamicLevelFilter {
    /// Creates a filter handle named `name`, applying
    /// [`crate::registry::spec_register`] to the registry under its write
    /// lock: a fresh name is entered with `starting_level`; the entry of a
    /// name already registered is left untouched. Never fails.
    pub fn new(registry: &SharedRegistry, name: String, starting_level: Severity) -> (f:
        DynamicLevelFilter)
        ensures
            f@ == name@,
    {
        registry.register(name.clone(), starting_level);
        DynamicLevelFilter { name }
    }

    /// Sets the threshold registered under `name` to `level`, applying
    /// [`crate::registry::spec_set`] to the registry under its write lock.
    /// Process-wide and tied to no particular handle: it reaches every handle
    /// sharing `name`, and is a silent no-op if `name` was never registered.
    pub fn set(registry: &SharedRegistry, name: &str, level: Severity) {
        registry.set_level(name, level);
    }

    /// Decides one record against an observed registry lookup: the decision
    /// rule applied to the threshold the lookup found, or `None` if the
    /// lookup found no entry.
    pub fn decide_at(looked_up: Option<Severity>, record_level: Severity) -> (r: Option<
        Response,
    >)
        ensures
            looked_up matches Some(threshold) ==> r == Some(spec_decide(threshold, record_level)),
            looked_up is None ==> r is None,
    {
        match looked_up {
            Some(threshold) => Some(decide(threshold, record_level)),
            None => None,
        }
    }

    /// Evaluates one record: looks up this handle's name in the registry at
    /// the instant the read lock is held and applies [`decide_at`] to what
    /// the lookup found.
    ///
    /// `None` means the name was not registered at that instant. In the
    /// intended use that cannot happen — every handle registers its name on
    /// construction and entries are never removed — so a `None` signals an
    /// internal-consistency fault for the caller to treat as unrecoverable.
    ///
    /// [`decide_at`]: DynamicLevelFilter::decide_at
    pub fn filter(&self, registry: &SharedRegistry, record_level: Severity) -> Option<Response> {
        Self::decide_at(registry.current_level(self.name.as_str()), record_level)
    }

    /// The configuration binder: builds a filter from a declarative record
    /// of a name and a starting-severity token. Succeeds if and only if the
    /// token is in the vocabulary `trace|debug|info|warn|error|off`
    /// (case-insensitively); a name collision is no error, by the idempotent
    /// registration of [`DynamicLevelFilter::new`].
    pub fn from_config(registry: &SharedRegistry, name: String, default_token: &str) -> (r:
        Result<DynamicLevelFilter, ConfigError>)
        ensures
            r is Ok <==> spec_from_token(default_token@) is Some,
            r matches Ok(f) ==> f@ == name@,
            r matches Err(e) ==> e == ConfigError::InvalidSeverityToken,
    {
        match Severity::from_token(default_token) {
            Some(level) => Ok(DynamicLevelFilter::new(registry, name, level)),
            None => Err(ConfigError::InvalidSeverityToken),
        }
    }
}

/// A set under a name governs every handle sharing that name: once the name
/// is registered — with whatever starting threshold — and then set to `t2`,
/// a lookup under that name finds `t2`, and an evaluation through any handle
/// carrying that name decides exactly as the rule does at threshold `t2`.
pub proof fn lemma_set_governs_shared_name(
    m: Map<Seq<char>, Severity>,
    name: Seq<char>,
    t1: Severity,
    t2: Severity,
    record: Severity,
)
    ensures
        spec_lookup(spec_set(spec_register(m, name, t1), name, t2), name) == Some(t2),
        spec_decide(spec_set(spec_register(m, name, t1), name, t2)[name], record) == spec_decide(
            t2,
            record,
        ),
{
}

} // verus!
