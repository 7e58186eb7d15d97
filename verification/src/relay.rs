//! The relay bank: an ordered collection of named, independently
//! switchable outputs.
//!
//! Relay ids are dense and 0-based; every operation on an id at or past the
//! relay count fails with [`RelayError::OutOfRange`] and mutates nothing.
//! The bank is a plain value: callers that share it between execution
//! contexts must do so under one mutual-exclusion lock (see
//! [`crate::shared::SharedRelayBank`]), so that each operation — including
//! the multi-relay snapshot — is atomic with respect to the others.

use vstd::prelude::*;

verus! {

/// Why a relay operation was refused.
#[derive(Clone, Copy, PartialEq, Eq, Structural, Debug)]
pub enum RelayError {
    /// The relay id is not below the bank's relay count.
    OutOfRange,
}

/// One named output: a human-readable label and the current output level
/// (`true` = energized/high).
pub struct Relay {
    pub label: String,
    pub active: bool,
}

/// One row of a consistent point-in-time view of the whole bank.
pub struct RelaySnapshot {
    pub name: String,
    pub is_active: bool,
    pub id: usize,
}

/// Ordered sequence of relays. Viewed as a sequence of
/// (label, output level) pairs, in id order.
pub struct RelayBank {
    relays: Vec<Relay>,
}

impl View for RelayBank {
    type V = Seq<(Seq<char>, bool)>;

    closed spec fn view(&self) -> Seq<(Seq<char>, bool)> {
        Seq::new(self.relays@.len(), |i: int| (self.relays@[i].label@, self.relays@[i].active))
    }
}

/// The bank after setting relay `id` to `value`; labels and all other
/// relays are untouched.
pub open spec fn bank_set(bank: Seq<(Seq<char>, bool)>, id: int, value: bool) -> Seq<
    (Seq<char>, bool),
> {
    bank.update(id, (bank[id].0, value))
}

/// The bank after toggling relay `id`: its level is complemented.
pub open spec fn bank_toggle(bank: Seq<(Seq<char>, bool)>, id: int) -> Seq<(Seq<char>, bool)> {
    bank_set(bank, id, !bank[id].1)
}

impl RelayBank {
    /// An empty bank, to be populated from the fixed startup configuration.
    pub fn new() -> (bank: RelayBank)
        ensures
            bank@ =~= Seq::<(Seq<char>, bool)>::empty(),
    {
        RelayBank { relays: Vec::new() }
    }

    /// Append one relay at the next id. A fresh line boots at the
    /// hardware's power-on level, assumed low/off.
    pub fn add_relay(&mut self, label: String)
        ensures
            final(self)@ =~= old(self)@.push((label@, false)),
    {
        self.relays.push(Relay { label, active: false });
    }

    /// Number of relays; valid ids are exactly `0 .. count`.
    pub fn count(&self) -> (n: usize)
        ensures
            n == self@.len(),
    {
        self.relays.len()
    }

    /// Current output level of relay `id`, or `OutOfRange` for a bad id.
    pub fn get_state(&self, id: usize) -> (r: Result<bool, RelayError>)
        ensures
            id < self@.len() ==> r == Ok::<bool, RelayError>(self@[id as int].1),
            id >= self@.len() ==> r == Err::<bool, RelayError>(RelayError::OutOfRange),
    {
        if id < self.relays.len() {
            Ok(self.relays[id].active)
        } else {
            Err(RelayError::OutOfRange)
        }
    }

    /// Drive relay `id` to `value`; `OutOfRange` on a bad id, with no
    /// relay changed.
    pub fn set_state(&mut self, id: usize, value: bool) -> (r: Result<(), RelayError>)
        ensures
            id < old(self)@.len() ==> r == Ok::<(), RelayError>(())
                && final(self)@ =~= bank_set(old(self)@, id as int, value),
            id >= old(self)@.len() ==> r == Err::<(), RelayError>(RelayError::OutOfRange)
                && final(self)@ =~= old(self)@,
    {
        if id < self.relays.len() {
            self.relays[id].active = value;
            Ok(())
        } else {
            Err(RelayError::OutOfRange)
        }
    }

    /// Complement the current level of relay `id`; `OutOfRange` on a bad
    /// id, with no relay changed.
    pub fn toggle(&mut self, id: usize) -> (r: Result<(), RelayError>)
        ensures
            id < old(self)@.len() ==> r == Ok::<(), RelayError>(())
                && final(self)@ =~= bank_toggle(old(self)@, id as int),
            id >= old(self)@.len() ==> r == Err::<(), RelayError>(RelayError::OutOfRange)
                && final(self)@ =~= old(self)@,
    {
        if id < self.relays.len() {
            let cur = self.relays[id].active;
            self.relays[id].active = !cur;
            Ok(())
        } else {
            Err(RelayError::OutOfRange)
        }
    }

    /// A consistent view of the whole bank: one row per relay, in id
    /// order, each carrying the relay's label, level and id. Taken from a
    /// single bank value, so no row can reflect a different point in time
    /// than another.
    pub fn snapshot(&self) -> (snap: Vec<RelaySnapshot>)
        ensures
            snap@.len() == self@.len(),
            forall|i: int|
                0 <= i < self@.len() ==> (#[trigger] snap@[i]).name@ == self@[i].0
                    && snap@[i].is_active == self@[i].1 && snap@[i].id == i,
    {
        let mut snap: Vec<RelaySnapshot> = Vec::new();
        let mut i: usize = 0;
        while i < self.relays.len()
            invariant
                i <= self.relays@.len(),
                snap@.len() == i,
                forall|j: int|
                    0 <= j < i ==> (#[trigger] snap@[j]).name@ == self@[j].0 && snap@[j].is_active
                        == self@[j].1 && snap@[j].id == j,
            decreases self.relays@.len() - i,
        {
            snap.push(
                RelaySnapshot {
                    name: self.relays[i].label.clone(),
                    is_active: self.relays[i].active,
                    id: i,
                },
            );
            i = i + 1;
        }
        snap
    }
}

/// Set then get: after `set_state(id, value)` succeeds, `get_state(id)`
/// reads back exactly `value` — for `true` as for `false` — every other
/// relay is untouched, and setting the same value again changes nothing
/// (idempotent set).
pub proof fn lemma_set_then_get(bank: Seq<(Seq<char>, bool)>, id: int, value: bool)
    requires
        0 <= id < bank.len(),
    ensures
        bank_set(bank, id, value)[id].1 == value,
        forall|j: int| 0 <= j < bank.len() && j != id ==> bank_set(bank, id, value)[j] == bank[j],
        bank_set(bank_set(bank, id, value), id, value) =~= bank_set(bank, id, value),
{
}

/// No torn read: a toggle of relay `x` is one atomic step from `pre` to
/// `bank_toggle(pre, x)`, so a snapshot — itself taken atomically under the
/// same lock — sees either the state before the toggle or the state after
/// it. In both states every relay other than `x` reads the same, and relay
/// `x` reads either its level before the toggle or the complement, never
/// anything else.
pub proof fn lemma_snapshot_never_torn(pre: Seq<(Seq<char>, bool)>, x: int, seen: Seq<(Seq<char>, bool)>)
    requires
        0 <= x < pre.len(),
        seen == pre || seen == bank_toggle(pre, x),
    ensures
        seen.len() == pre.len(),
        forall|i: int| 0 <= i < pre.len() && i != x ==> seen[i] == pre[i],
        seen[x].0 == pre[x].0,
        seen[x].1 == pre[x].1 || seen[x].1 == !pre[x].1,
{
}

} // verus!
