//! The fixed-tick scheduler's button service.
//!
//! Each tick the scheduler samples every button once, in id order, and a
//! press action on button `i` toggles relay `i`. An action whose button
//! has no relay (an id at or past the relay count) toggles nothing. The
//! tick period and the WiFi health check around this are driven by the
//! caller; the state change of one tick is fully specified here.

use vstd::prelude::*;

use crate::debounce::debounce_emits;
use crate::debounce::ButtonDebouncer;
use crate::relay::bank_toggle;
use crate::relay::RelayBank;

verus! {

/// Nominal tick period of the scheduler loop, in milliseconds.
pub const TICK_MS: u32 = 10;

/// The bank after one button's sample: toggled at `id` when the press
/// action fires and `id` names a relay, untouched otherwise.
pub open spec fn apply_button(bank: Seq<(Seq<char>, bool)>, emit: bool, id: int) -> Seq<
    (Seq<char>, bool),
> {
    if emit && 0 <= id < bank.len() {
        bank_toggle(bank, id)
    } else {
        bank
    }
}

/// The bank after servicing buttons `k`, `k + 1`, ... in order, where
/// button `i` saw level `prevs[i]` on the previous tick and reads
/// `samples[i]` now.
pub open spec fn service_from(
    bank: Seq<(Seq<char>, bool)>,
    prevs: Seq<bool>,
    samples: Seq<bool>,
    k: int,
) -> Seq<(Seq<char>, bool)>
    decreases samples.len() - k,
{
    if k < 0 || k >= samples.len() {
        bank
    } else {
        service_from(
            apply_button(bank, debounce_emits(prevs[k], samples[k]), k),
            prevs,
            samples,
            k + 1,
        )
    }
}

/// The bank after one whole tick's button service.
pub open spec fn service_spec(
    bank: Seq<(Seq<char>, bool)>,
    prevs: Seq<bool>,
    samples: Seq<bool>,
) -> Seq<(Seq<char>, bool)> {
    service_from(bank, prevs, samples, 0)
}

/// One tick's button service: feed every debouncer its sample, toggle the
/// like-numbered relay on each press action. Afterwards every debouncer
/// holds the level it just saw.
pub fn service_buttons(
    bank: &mut RelayBank,
    buttons: &mut Vec<ButtonDebouncer>,
    samples: &Vec<bool>,
)
    requires
        old(buttons)@.len() == samples@.len(),
    ensures
        final(buttons)@.len() == samples@.len(),
        forall|j: int| 0 <= j < samples@.len() ==> (#[trigger] final(buttons)@[j])@ == samples@[j],
        final(bank)@ =~= service_spec(
            old(bank)@,
            Seq::new(samples@.len(), |j: int| old(buttons)@[j]@),
            samples@,
        ),
{
    let ghost prevs = Seq::new(samples@.len(), |j: int| old(buttons)@[j]@);
    let mut i: usize = 0;
    while i < samples.len()
        invariant
            i <= samples@.len(),
            buttons@.len() == samples@.len(),
            forall|j: int| 0 <= j < i ==> (#[trigger] buttons@[j])@ == samples@[j],
            forall|j: int| i <= j < samples@.len() ==> (#[trigger] buttons@[j])@ == prevs[j],
            service_from(old(bank)@, prevs, samples@, 0) == service_from(
                bank@,
                prevs,
                samples@,
                i as int,
            ),
        decreases samples@.len() - i,
    {
        let active = samples[i];
        let emit = {
            let b = &mut buttons[i];
            b.sample(active)
        };
        proof {
            assert(emit == debounce_emits(prevs[i as int], samples@[i as int]));
        }
        if emit {
            let _ = bank.toggle(i);
        }
        i = i + 1;
    }
}

} // verus!
