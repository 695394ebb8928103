use slot_machine::machine::SlotMachine;
use slot_machine::reel::REEL_SIZE;
use slot_machine::tables::{reel1_symbols, reel2_symbols, reel3_symbols};

#[test]
fn new_machine_is_at_rest_with_valid_positions() {
    let machine = SlotMachine::new();
    assert!(machine.reel0.position < REEL_SIZE);
    assert!(machine.reel1.position < REEL_SIZE);
    assert!(machine.reel2.position < REEL_SIZE);
    assert!(!machine.any_spinning());
    assert!(!machine.reel0.stop_requested);
    assert!(!machine.reel1.stop_requested);
    assert!(!machine.reel2.stop_requested);
}

#[test]
fn new_machine_uses_the_built_in_strips() {
    let machine = SlotMachine::new();
    assert_eq!(machine.reel0.symbols, reel1_symbols());
    assert_eq!(machine.reel1.symbols, reel2_symbols());
    assert_eq!(machine.reel2.symbols, reel3_symbols());
}

#[test]
fn built_in_strips_have_the_advertised_size() {
    assert_eq!(reel1_symbols().len(), REEL_SIZE);
    assert_eq!(reel2_symbols().len(), REEL_SIZE);
    assert_eq!(reel3_symbols().len(), REEL_SIZE);
    assert_eq!(reel1_symbols()[0], '⭐');
    assert_eq!(reel2_symbols()[0], '🏀');
    assert_eq!(reel3_symbols()[20], '🏀');
}

#[test]
fn start_all_reels_starts_each_reel() {
    let mut machine = SlotMachine::new();
    machine.start_all_reels();
    assert!(machine.reel0.spinning);
    assert!(machine.reel1.spinning);
    assert!(machine.reel2.spinning);
    assert!(machine.any_spinning());
    assert!(!machine.reel0.stop_requested);
    assert!(!machine.reel1.stop_requested);
    assert!(!machine.reel2.stop_requested);
}

#[test]
fn stop_reel_latches_only_the_named_reel() {
    let mut machine = SlotMachine::new();
    machine.start_all_reels();
    machine.stop_reel(1);
    assert!(!machine.reel0.stop_requested);
    assert!(machine.reel1.stop_requested);
    assert!(!machine.reel2.stop_requested);
    // The reel keeps spinning until its own scheduler observes the latch.
    assert!(machine.reel1.spinning);
}

#[test]
fn stop_reel_out_of_range_is_a_no_op() {
    let mut machine = SlotMachine::new();
    machine.start_all_reels();
    let positions =
        [machine.reel0.position, machine.reel1.position, machine.reel2.position];
    machine.stop_reel(3);
    machine.stop_reel(usize::MAX);
    assert!(!machine.reel0.stop_requested);
    assert!(!machine.reel1.stop_requested);
    assert!(!machine.reel2.stop_requested);
    assert!(machine.any_spinning());
    assert_eq!(
        positions,
        [machine.reel0.position, machine.reel1.position, machine.reel2.position]
    );
}

#[test]
fn any_spinning_tracks_each_reel() {
    let mut machine = SlotMachine::new();
    assert!(!machine.any_spinning());
    machine.reel2.start_spinning();
    assert!(machine.any_spinning());
    machine.reel2.request_stop();
    machine.reel2.spin_tick();
    assert!(!machine.any_spinning());
}

#[test]
fn has_state_changed_detects_spin_transitions() {
    let mut machine = SlotMachine::new();
    // Fresh machine: the cache already says all reels are at rest.
    assert!(!machine.has_state_changed());
    machine.start_all_reels();
    assert!(machine.has_state_changed());
    // The cache was refreshed: no further change until a reel stops.
    assert!(!machine.has_state_changed());
    machine.stop_reel(0);
    // A latched stop alone is not a spin-state change.
    assert!(!machine.has_state_changed());
    machine.reel0.spin_tick();
    assert!(machine.has_state_changed());
    assert!(!machine.has_state_changed());
}
