//! The relay bank shared between the scheduler loop and the HTTP
//! dispatch context, behind one coarse mutual-exclusion lock.
//!
//! Every operation — a single-relay read or write as well as the
//! multi-relay snapshot — holds the bank-wide lock for its whole duration,
//! so each is atomic with respect to every other: a snapshot can never
//! show a state that no single point in time had. The lock covers the
//! whole collection rather than one relay each; unrelated relays'
//! operations serialize against each other, a deliberate
//! simplicity-over-contention tradeoff. The lock's invariant pins what
//! never varies: the relay count and the labels are fixed at construction,
//! only output levels change.

use vstd::prelude::*;
use vstd::rwlock::RwLock;
use vstd::rwlock::RwLockPredicate;

use crate::http::toggle_response_spec;
use crate::http::url_query_of;
use crate::http::ToggleResponse;
use crate::relay::RelayBank;
use crate::relay::RelayError;
use crate::relay::RelaySnapshot;
use crate::render::json_of_bank;

verus! {

/// What every bank value stored under the lock satisfies: the fixed
/// labels, one per relay, in id order.
pub struct BankInv {
    pub labels: Seq<Seq<char>>,
}

impl RwLockPredicate<RelayBank> for BankInv {
    open spec fn inv(self, bank: RelayBank) -> bool {
        bank@.len() == self.labels.len() && forall|i: int|
            0 <= i < self.labels.len() ==> (#[trigger] bank@[i]).0 == self.labels[i]
    }
}

/// The bank under its single lock, shareable between execution contexts.
pub struct SharedRelayBank {
    lock: RwLock<RelayBank, BankInv>,
}

impl SharedRelayBank {
    /// The fixed labels, one per relay, in id order; the relay count is
    /// their number.
    pub closed spec fn labels(&self) -> Seq<Seq<char>> {
        self.lock.pred().labels
    }

    /// Put a configured bank under the lock. Its labels and count stay
    /// fixed for the lock's lifetime.
    pub fn new(bank: RelayBank) -> (shared: SharedRelayBank)
        ensures
            shared.labels() =~= Seq::new(bank@.len(), |i: int| bank@[i].0),
    {
        let ghost labels = Seq::new(bank@.len(), |i: int| bank@[i].0);
        SharedRelayBank { lock: RwLock::new(bank, Ghost(BankInv { labels })) }
    }

    /// Number of relays.
    pub fn count(&self) -> (n: usize)
        ensures
            n == self.labels().len(),
    {
        let handle = self.lock.acquire_read();
        let n = handle.borrow().count();
        handle.release_read();
        n
    }

    /// Current level of relay `id` at the moment the lock was held;
    /// `OutOfRange` exactly when `id` names no relay.
    pub fn get_state(&self, id: usize) -> (r: Result<bool, RelayError>)
        ensures
            (r is Ok) == (id < self.labels().len()),
            r is Err ==> r == Err::<bool, RelayError>(RelayError::OutOfRange),
    {
        let handle = self.lock.acquire_read();
        let r = handle.borrow().get_state(id);
        handle.release_read();
        r
    }

    /// Drive relay `id` to `value` under the lock; `OutOfRange` exactly
    /// when `id` names no relay, and then nothing changes.
    pub fn set_state(&self, id: usize, value: bool) -> (r: Result<(), RelayError>)
        ensures
            (r is Ok) == (id < self.labels().len()),
            r is Err ==> r == Err::<(), RelayError>(RelayError::OutOfRange),
    {
        let (mut bank, handle) = self.lock.acquire_write();
        let r = bank.set_state(id, value);
        handle.release_write(bank);
        r
    }

    /// Complement relay `id` under the lock; `OutOfRange` exactly when
    /// `id` names no relay, and then nothing changes.
    pub fn toggle(&self, id: usize) -> (r: Result<(), RelayError>)
        ensures
            (r is Ok) == (id < self.labels().len()),
            r is Err ==> r == Err::<(), RelayError>(RelayError::OutOfRange),
    {
        let (mut bank, handle) = self.lock.acquire_write();
        let r = bank.toggle(id);
        handle.release_write(bank);
        r
    }

    /// A consistent snapshot: taken under one lock acquisition, so every
    /// row reflects the same point in time. Labels and ids are the fixed
    /// configuration; the levels are those of that point.
    pub fn snapshot(&self) -> (snap: Vec<RelaySnapshot>)
        ensures
            snap@.len() == self.labels().len(),
            forall|i: int|
                0 <= i < self.labels().len() ==> (#[trigger] snap@[i]).name@ == self.labels()[i]
                    && snap@[i].id == i,
    {
        let handle = self.lock.acquire_read();
        let snap = handle.borrow().snapshot();
        handle.release_read();
        snap
    }

    /// Carry out a toggle request under the lock. The response is fully
    /// determined by the request line and the fixed relay count: a request
    /// line that is no valid URI, or an unparseable parameter, answers
    /// 400; a `relayId` at or past the count answers 400 with the
    /// out-of-range message and mutates nothing; anything else drives the
    /// requested relay and answers 200.
    pub fn handle_toggle(&self, uri: &str) -> (resp: ToggleResponse)
        ensures
            url_query_of(uri@) is None ==> resp == ToggleResponse::InvalidParam,
            url_query_of(uri@) matches Some(pairs) ==> resp == toggle_response_spec(
                pairs,
                self.labels().len() as int,
            ),
    {
        let (mut bank, handle) = self.lock.acquire_write();
        let resp = crate::http::handle_toggle(&mut bank, uri);
        proof {
            assert forall|i: int| 0 <= i < self.labels().len() implies (#[trigger] bank@[i]).0
                == self.labels()[i] by {}
        }
        handle.release_write(bank);
        resp
    }

    /// Render the page body under the lock: the static document around
    /// the embedded relay list of one consistent bank state — a state the
    /// bank actually held, with the configured labels and count.
    pub fn render_page(&self, prefix: &str, suffix: &str) -> (r: String)
        ensures
            exists|state: Seq<(Seq<char>, bool)>|
                state.len() == self.labels().len() && (forall|i: int|
                    0 <= i < state.len() ==> (#[trigger] state[i]).0 == self.labels()[i]) && r@
                    == prefix@ + json_of_bank(state) + suffix@,
    {
        let handle = self.lock.acquire_read();
        let r = crate::render::render_page(prefix, handle.borrow(), suffix);
        proof {
            let state = handle.view()@;
            assert(state.len() == self.labels().len() && (forall|i: int|
                0 <= i < state.len() ==> (#[trigger] state[i]).0 == self.labels()[i]) && r@
                == prefix@ + json_of_bank(state) + suffix@);
        }
        handle.release_read();
        r
    }
}

} // verus!
