//! Edge-latching debouncer for momentary push-buttons.
//!
//! A button line follows the pull-up idle-high convention: the line rests
//! high and a press pulls it low. Each debouncer turns the periodically
//! sampled level into at most one action per sustained press: an action
//! fires exactly on the idle-to-active transition between two samples, and
//! never while the line merely stays active.

use vstd::prelude::*;

verus! {

/// Per-button edge latch. Holds only the previously sampled level
/// (`true` = active, i.e. the line was sampled low).
pub struct ButtonDebouncer {
    was_active: bool,
}

impl View for ButtonDebouncer {
    type V = bool;

    closed spec fn view(&self) -> bool {
        self.was_active
    }
}

/// One step of the edge latch: an action fires exactly when the line is
/// sampled active while the previous sample was idle.
pub open spec fn debounce_emits(prev_active: bool, now_active: bool) -> bool {
    now_active && !prev_active
}

/// Number of actions a debouncer that last saw `prev` emits over a whole
/// sequence of samples.
pub open spec fn emit_count(prev: bool, samples: Seq<bool>) -> nat
    decreases samples.len(),
{
    if samples.len() == 0 {
        0
    } else {
        (if debounce_emits(prev, samples[0]) {
            1nat
        } else {
            0nat
        }) + emit_count(samples[0], samples.drop_first())
    }
}

impl ButtonDebouncer {
    /// A fresh debouncer assumes the line was idle before the first sample.
    pub fn new() -> (d: ButtonDebouncer)
        ensures
            !d@,
    {
        ButtonDebouncer { was_active: false }
    }

    /// Feed one periodic sample (`active` = the line reads low). Returns
    /// whether a press action fires on this tick.
    pub fn sample(&mut self, active: bool) -> (emit: bool)
        ensures
            emit == debounce_emits(old(self)@, active),
            final(self)@ == active,
    {
        let emit = active && !self.was_active;
        self.was_active = active;
        emit
    }
}

/// No action fires while every sample is idle, whatever level was seen before.
proof fn lemma_idle_emits_nothing(prev: bool, release: nat)
    ensures
        emit_count(prev, Seq::new(release, |i: int| false)) == 0,
    decreases release,
{
    let s = Seq::new(release, |i: int| false);
    if release > 0 {
        assert(s.drop_first() =~= Seq::new((release - 1) as nat, |i: int| false));
        lemma_idle_emits_nothing(false, (release - 1) as nat);
    }
}

/// A debouncer already latched in the pressed state emits nothing while the
/// line stays active, nor on the release.
proof fn lemma_held_emits_nothing(press: nat, release: nat)
    ensures
        emit_count(
            true,
            Seq::new(press, |i: int| true) + Seq::new(release, |i: int| false),
        ) == 0,
    decreases press,
{
    let s = Seq::new(press, |i: int| true) + Seq::new(release, |i: int| false);
    if press == 0 {
        assert(s =~= Seq::new(release, |i: int| false));
        lemma_idle_emits_nothing(true, release);
    } else {
        assert(s[0] == true);
        assert(s.drop_first() =~= Seq::new((press - 1) as nat, |i: int| true) + Seq::new(
            release,
            |i: int| false,
        ));
        lemma_held_emits_nothing((press - 1) as nat, release);
    }
}

/// Debounce edge-latch correctness: a press held for any number of
/// consecutive active samples and then released produces exactly one action,
/// however long the press or the release tail. Oscillation faster than the
/// sample period is invisible to the latch, so a sustained
/// press-then-release cycle yields one action, no more.
pub proof fn lemma_one_action_per_press(press: nat, release: nat)
    requires
        press >= 1,
    ensures
        emit_count(
            false,
            Seq::new(press, |i: int| true) + Seq::new(release, |i: int| false),
        ) == 1,
{
    let s = Seq::new(press, |i: int| true) + Seq::new(release, |i: int| false);
    assert(s[0] == true);
    assert(s.drop_first() =~= Seq::new((press - 1) as nat, |i: int| true) + Seq::new(
        release,
        |i: int| false,
    ));
    lemma_held_emits_nothing((press - 1) as nat, release);
}

} // verus!
