use relayctl::debounce::ButtonDebouncer;
use relayctl::relay::{RelayBank, RelayError};
use relayctl::scheduler::service_buttons;
use relayctl::shared::SharedRelayBank;
use relayctl::wifi::{backoff_delay_ms, ConnectError, ConnectStage, WifiSupervisor};

fn four_relay_bank() -> RelayBank {
    let mut bank = RelayBank::new();
    bank.add_relay(String::from("lampu kamar"));
    bank.add_relay(String::from("lampu keluarga"));
    bank.add_relay(String::from("lampu ruang tamu"));
    bank.add_relay(String::from("lampu dapur"));
    bank
}

#[test]
fn set_then_get_reads_back_true() {
    let mut bank = four_relay_bank();
    for id in 0..4 {
        assert_eq!(bank.set_state(id, true), Ok(()));
        assert_eq!(bank.get_state(id), Ok(true));
    }
}

#[test]
fn set_then_get_reads_back_false() {
    let mut bank = four_relay_bank();
    for id in 0..4 {
        assert_eq!(bank.set_state(id, true), Ok(()));
        assert_eq!(bank.set_state(id, false), Ok(()));
        assert_eq!(bank.get_state(id), Ok(false));
    }
}

#[test]
fn set_is_idempotent() {
    let mut bank = four_relay_bank();
    assert_eq!(bank.set_state(1, true), Ok(()));
    assert_eq!(bank.set_state(1, true), Ok(()));
    assert_eq!(bank.get_state(1), Ok(true));
    assert_eq!(bank.get_state(0), Ok(false));
    assert_eq!(bank.get_state(2), Ok(false));
    assert_eq!(bank.get_state(3), Ok(false));
}

#[test]
fn bad_id_is_out_of_range_and_mutates_nothing() {
    let mut bank = four_relay_bank();
    assert_eq!(bank.get_state(4), Err(RelayError::OutOfRange));
    assert_eq!(bank.set_state(9, true), Err(RelayError::OutOfRange));
    assert_eq!(bank.toggle(100), Err(RelayError::OutOfRange));
    for id in 0..4 {
        assert_eq!(bank.get_state(id), Ok(false));
    }
}

#[test]
fn toggle_complements() {
    let mut bank = four_relay_bank();
    assert_eq!(bank.toggle(2), Ok(()));
    assert_eq!(bank.get_state(2), Ok(true));
    assert_eq!(bank.toggle(2), Ok(()));
    assert_eq!(bank.get_state(2), Ok(false));
}

#[test]
fn snapshot_is_in_id_order() {
    let mut bank = four_relay_bank();
    bank.set_state(2, true).unwrap();
    let snap = bank.snapshot();
    assert_eq!(snap.len(), 4);
    let names = ["lampu kamar", "lampu keluarga", "lampu ruang tamu", "lampu dapur"];
    for (i, row) in snap.iter().enumerate() {
        assert_eq!(row.id, i);
        assert_eq!(row.name, names[i]);
        assert_eq!(row.is_active, i == 2);
    }
}

#[test]
fn snapshot_never_torn_around_a_toggle() {
    // A snapshot is taken under the same lock as a toggle, so it shows
    // either the state before or the state after; both differ from the
    // pre-state only at the toggled relay.
    let mut bank = four_relay_bank();
    let before = bank.snapshot();
    bank.toggle(1).unwrap();
    let after = bank.snapshot();
    for i in 0..4 {
        if i == 1 {
            assert_eq!(after[i].is_active, !before[i].is_active);
        } else {
            assert_eq!(after[i].is_active, before[i].is_active);
        }
        assert_eq!(after[i].name, before[i].name);
        assert_eq!(after[i].id, before[i].id);
    }
}

#[test]
fn one_sustained_press_yields_one_action() {
    let mut btn = ButtonDebouncer::new();
    let samples = [true, true, true, false, false];
    let mut actions: u32 = 0;
    for &level in samples.iter() {
        if btn.sample(level) {
            actions += 1;
        }
    }
    assert_eq!(actions, 1);
}

#[test]
fn each_press_release_cycle_yields_one_action() {
    let mut btn = ButtonDebouncer::new();
    let samples = [true, true, false, true, false, false, true];
    let mut actions: u32 = 0;
    for &level in samples.iter() {
        if btn.sample(level) {
            actions += 1;
        }
    }
    assert_eq!(actions, 3);
}

#[test]
fn no_action_without_a_press() {
    let mut btn = ButtonDebouncer::new();
    for _ in 0..10 {
        assert!(!btn.sample(false));
    }
}

#[test]
fn backoff_delays_are_quadratic_and_capped() {
    assert_eq!(backoff_delay_ms(1), 300);
    assert_eq!(backoff_delay_ms(2), 1200);
    assert_eq!(backoff_delay_ms(3), 2700);
    assert_eq!(backoff_delay_ms(4), 3000);
    assert_eq!(backoff_delay_ms(5), 3000);
}

#[test]
fn five_failed_connects_back_off_as_specified() {
    let mut sup = WifiSupervisor::new();
    let mut delays = Vec::new();
    for _ in 0..5 {
        sup.begin_attempt();
        delays.push(sup.on_connect_failure());
    }
    assert_eq!(delays, vec![300, 1200, 2700, 3000, 3000]);
    assert!(!sup.is_connected());
}

#[test]
fn successful_connect_resets_the_backoff() {
    let mut sup = WifiSupervisor::new();
    sup.begin_attempt();
    assert_eq!(sup.on_connect_failure(), 300);
    sup.begin_attempt();
    assert_eq!(sup.on_connect_failure(), 1200);
    sup.begin_attempt();
    sup.on_connect_success();
    assert!(sup.is_connected());
    sup.on_link_lost();
    assert!(!sup.is_connected());
    sup.begin_attempt();
    assert_eq!(sup.on_connect_failure(), 300);
}

#[test]
fn connect_errors_name_their_stage() {
    let cases = [
        (ConnectStage::Configure, "failed to apply configuration"),
        (ConnectStage::Start, "failed to start radio"),
        (ConnectStage::Associate, "failed to associate"),
        (ConnectStage::InterfaceUp, "interface did not come up"),
    ];
    for (stage, msg) in cases {
        assert_eq!(ConnectError { stage }.describe(), msg);
    }
}

#[test]
fn button_press_toggles_the_like_numbered_relay() {
    let mut bank = four_relay_bank();
    let mut buttons = vec![
        ButtonDebouncer::new(),
        ButtonDebouncer::new(),
        ButtonDebouncer::new(),
        ButtonDebouncer::new(),
    ];
    service_buttons(&mut bank, &mut buttons, &vec![false, true, false, false]);
    assert_eq!(bank.get_state(1), Ok(true));
    // Held press: no second action on the next tick.
    service_buttons(&mut bank, &mut buttons, &vec![false, true, false, false]);
    assert_eq!(bank.get_state(1), Ok(true));
    // Release, then press again: one more toggle.
    service_buttons(&mut bank, &mut buttons, &vec![false, false, false, false]);
    service_buttons(&mut bank, &mut buttons, &vec![false, true, false, false]);
    assert_eq!(bank.get_state(1), Ok(false));
    assert_eq!(bank.get_state(0), Ok(false));
    assert_eq!(bank.get_state(2), Ok(false));
    assert_eq!(bank.get_state(3), Ok(false));
}

#[test]
fn shared_bank_serves_both_contexts() {
    let shared = SharedRelayBank::new(four_relay_bank());
    assert_eq!(shared.count(), 4);
    assert_eq!(shared.set_state(3, true), Ok(()));
    assert_eq!(shared.get_state(3), Ok(true));
    assert_eq!(shared.toggle(3), Ok(()));
    assert_eq!(shared.get_state(3), Ok(false));
    assert_eq!(shared.set_state(7, true), Err(RelayError::OutOfRange));
    let snap = shared.snapshot();
    assert_eq!(snap.len(), 4);
    assert_eq!(snap[0].name, "lampu kamar");
    assert_eq!(snap[3].id, 3);
}
