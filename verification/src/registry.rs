//! The threshold registry: a table from filter names to their current
//! severity thresholds.
//!
//! [`ThresholdRegistry`] is the table itself, with exact contracts over its
//! map view; the spec functions [`spec_register`], [`spec_set`] and
//! [`spec_lookup`] give the transition semantics that those contracts quote.
//! [`SharedRegistry`] wraps the table in a reader/writer lock so that many
//! evaluation threads may read it while occasional reconfiguration threads
//! write it.

use vstd::prelude::*;
use vstd::hash_map::StringHashMap;
use vstd::pervasive::unreached;
use vstd::rwlock::{RwLock, RwLockPredicate};

use crate::severity::Severity;

verus! {

/// The table after registering `name` with `starting`: a fresh name is
/// inserted with its starting threshold; a present name is left untouched
/// (first writer wins for the starting value).
pub open spec fn spec_register(
    m: Map<Seq<char>, Severity>,
    name: Seq<char>,
    starting: Severity,
) -> Map<Seq<char>, Severity> {
    if m.contains_key(name) {
        m
    } else {
        m.insert(name, starting)
    }
}

/// The table after setting `name` to `level`: a present name has its
/// threshold replaced; an absent name leaves the table unchanged (a silent
/// no-op by design).
pub open spec fn spec_set(
    m: Map<Seq<char>, Severity>,
    name: Seq<char>,
    level: Severity,
) -> Map<Seq<char>, Severity> {
    if m.contains_key(name) {
        m.insert(name, level)
    } else {
        m
    }
}

/// The current threshold of `name` in the table, if it is registered.
pub open spec fn spec_lookup(m: Map<Seq<char>, Severity>, name: Seq<char>) -> Option<Severity> {
    if m.contains_key(name) {
        Some(m[name])
    } else {
        None
    }
}

/// The name-to-threshold table. Its view is the map of all current entries;
/// names are unique by construction of the underlying map.
pub struct ThresholdRegistry {
    levels: StringHashMap<Severity>,
}

impl View for ThresholdRegistry {
    type V = Map<Seq<char>, Severity>;

    closed spec fn view(&self) -> Map<Seq<char>, Severity> {
        self.levels@
    }
}

impl ThresholdRegistry {
    /// Creates an empty registry.
    pub fn new() -> (r: ThresholdRegistry)
        ensures
            r@ == Map::<Seq<char>, Severity>::empty(),
    {
        ThresholdRegistry { levels: StringHashMap::new() }
    }

    /// Registers `name` with `starting` if absent; does nothing if present.
    /// Never fails and never overwrites an existing entry.
    pub fn register(&mut self, name: String, starting: Severity)
        ensures
            final(self)@ == spec_register(old(self)@, name@, starting),
    {
        if !self.levels.contains_key(name.as_str()) {
            self.levels.insert(name, starting);
        }
    }

    /// Replaces the threshold of `name` with `level` if present; a silent
    /// no-op if `name` was never registered.
    pub fn set_level(&mut self, name: &str, level: Severity)
        ensures
            final(self)@ == spec_set(old(self)@, name@, level),
    {
        if self.levels.contains_key(name) {
            self.levels.insert(name.to_owned(), level);
        }
    }

    /// The current threshold of `name`, or `None` if it was never registered.
    pub fn lookup(&self, name: &str) -> (r: Option<Severity>)
        ensures
            r == spec_lookup(self@, name@),
    {
        match self.levels.get(name) {
            Some(level) => Some(*level),
            None => None,
        }
    }

    /// The current threshold of a name that is known to be registered.
    /// Looking up an unregistered name is an internal-consistency fault, so
    /// this operation demands registration up front.
    pub fn get(&self, name: &str) -> (r: Severity)
        requires
            self@.contains_key(name@),
        ensures
            r == self@[name@],
    {
        match self.levels.get(name) {
            Some(level) => *level,
            None => unreached(),
        }
    }
}

/// Registration is idempotent on presence: a second registration under the
/// same name has no effect on the table, and in particular a fresh name keeps
/// the threshold of its first registration, whatever a later registration
/// asks for.
pub proof fn lemma_register_idempotent(
    m: Map<Seq<char>, Severity>,
    name: Seq<char>,
    t1: Severity,
    t2: Severity,
)
    ensures
        spec_register(spec_register(m, name, t1), name, t2) == spec_register(m, name, t1),
        !m.contains_key(name) ==> spec_lookup(
            spec_register(spec_register(m, name, t1), name, t2),
            name,
        ) == Some(t1),
{
}

/// Setting an unregistered name is a no-op: the table is unchanged, and a
/// later registration under that name still installs its own starting
/// threshold, not the level the earlier set asked for.
pub proof fn lemma_set_unknown_is_noop(
    m: Map<Seq<char>, Severity>,
    name: Seq<char>,
    t: Severity,
    t2: Severity,
)
    requires
        !m.contains_key(name),
    ensures
        spec_set(m, name, t) == m,
        spec_lookup(spec_register(spec_set(m, name, t), name, t2), name) == Some(t2),
{
}

/// The lock predicate for the shared registry: any well-typed table may be
/// stored, so the predicate is trivial.
pub(crate) struct AnyRegistry {}

impl RwLockPredicate<ThresholdRegistry> for AnyRegistry {
    open spec fn inv(self, v: ThresholdRegistry) -> bool {
        true
    }
}

/// The registry behind a reader/writer lock: many concurrent readers (record
/// evaluation) proceed without blocking one another, and a writer
/// (registration or reconfiguration) holds the lock only for a single
/// insert or update.
///
/// Each operation acquires the lock once, so it acts atomically on the table:
/// a reader observes the table either before or after any racing write, never
/// a partially updated value. Which of the two it observes is decided by the
/// lock alone, so across the lock the contracts below cannot pin the table's
/// contents; the exact semantics of each step is stated once, on the
/// [`ThresholdRegistry`] operation that is applied under the lock.
pub struct SharedRegistry {
    lock: RwLock<ThresholdRegistry, AnyRegistry>,
}

impl SharedRegistry {
    /// Creates a shared registry holding an empty table.
    pub fn new() -> SharedRegistry {
        SharedRegistry { lock: RwLock::new(ThresholdRegistry::new(), Ghost(AnyRegistry {})) }
    }

    /// Applies [`ThresholdRegistry::register`] to the table under the write
    /// lock: inserts `name` with `starting` if absent, does nothing if
    /// present.
    pub fn register(&self, name: String, starting: Severity) {
        let (mut table, handle) = self.lock.acquire_write();
        table.register(name, starting);
        handle.release_write(table);
    }

    /// Applies [`ThresholdRegistry::set_level`] to the table under the write
    /// lock: replaces the threshold of `name` if present, a silent no-op if
    /// absent.
    pub fn set_level(&self, name: &str, level: Severity) {
        let (mut table, handle) = self.lock.acquire_write();
        table.set_level(name, level);
        handle.release_write(table);
    }

    /// Reads [`ThresholdRegistry::lookup`] of the table at the instant the
    /// read lock is held: the current threshold of `name`, or `None` if
    /// `name` was not registered at that instant.
    pub fn current_level(&self, name: &str) -> Option<Severity> {
        let handle = self.lock.acquire_read();
        let r = handle.borrow().lookup(name);
        handle.release_read();
        r
    }
}

} // verus!
