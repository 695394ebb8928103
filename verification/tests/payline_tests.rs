use slot_machine::payline::{check_winnings, NUM_PAYLINES};
use slot_machine::reel::Reel;

fn stationary_reel(symbols: Vec<char>, position: usize) -> Reel {
    Reel { symbols, position, spinning: false, stop_requested: false }
}

#[test]
fn identical_reels_win_all_three_rows() {
    // Three identical five-symbol reels, all at position 0: every straight
    // row matches, neither diagonal does.
    let r0 = stationary_reel(vec!['A', 'B', 'C', 'D', 'E'], 0);
    let r1 = stationary_reel(vec!['A', 'B', 'C', 'D', 'E'], 0);
    let r2 = stationary_reel(vec!['A', 'B', 'C', 'D', 'E'], 0);
    assert_eq!(check_winnings(&r0, &r1, &r2), vec![0, 1, 2]);
}

#[test]
fn offset_middle_reel_wins_nothing() {
    // Same setup, but the middle reel sits one step further: no line matches.
    let r0 = stationary_reel(vec!['A', 'B', 'C', 'D', 'E'], 0);
    let r1 = stationary_reel(vec!['A', 'B', 'C', 'D', 'E'], 1);
    let r2 = stationary_reel(vec!['A', 'B', 'C', 'D', 'E'], 0);
    assert_eq!(check_winnings(&r0, &r1, &r2), Vec::<usize>::new());
}

#[test]
fn falling_diagonal_wins_alone() {
    // Visible windows: left [S,Y,A], middle [P,S,Q], right [A,Y,S]: only the
    // falling diagonal (top, middle, bottom) matches.
    let r0 = stationary_reel(vec!['S', 'Y', 'A'], 0);
    let r1 = stationary_reel(vec!['P', 'S', 'Q'], 0);
    let r2 = stationary_reel(vec!['A', 'Y', 'S'], 0);
    assert_eq!(check_winnings(&r0, &r1, &r2), vec![3]);
}

#[test]
fn rising_diagonal_wins_alone() {
    // Visible windows: left [X,Y,S], middle [P,S,Q], right [S,Y,Z]: only the
    // rising diagonal (bottom, middle, top) matches.
    let r0 = stationary_reel(vec!['X', 'Y', 'S'], 0);
    let r1 = stationary_reel(vec!['P', 'S', 'Q'], 0);
    let r2 = stationary_reel(vec!['S', 'Y', 'Z'], 0);
    assert_eq!(check_winnings(&r0, &r1, &r2), vec![4]);
}

#[test]
fn all_equal_symbols_win_every_line() {
    let r0 = stationary_reel(vec!['S', 'S', 'S'], 0);
    let r1 = stationary_reel(vec!['S', 'S', 'S'], 0);
    let r2 = stationary_reel(vec!['S', 'S', 'S'], 0);
    let winners = check_winnings(&r0, &r1, &r2);
    assert_eq!(winners, vec![0, 1, 2, 3, 4]);
    assert_eq!(winners.len(), NUM_PAYLINES);
}

#[test]
fn evaluation_is_pure_and_ordered() {
    let r0 = stationary_reel(vec!['S', 'Y', 'A'], 0);
    let r1 = stationary_reel(vec!['Y', 'S', 'Q'], 0);
    let r2 = stationary_reel(vec!['A', 'Y', 'S'], 0);
    let first = check_winnings(&r0, &r1, &r2);
    let second = check_winnings(&r0, &r1, &r2);
    // Two calls on the same snapshot agree.
    assert_eq!(first, second);
    // The result is in strictly increasing table order, hence duplicate-free.
    for pair in first.windows(2) {
        assert!(pair[0] < pair[1]);
    }
    for line in &first {
        assert!(*line < NUM_PAYLINES);
    }
}

#[test]
fn mid_spin_snapshot_is_still_evaluated() {
    // The evaluator places no precondition on spin state: a spinning reel's
    // snapshot is evaluated like any other.
    let mut r0 = stationary_reel(vec!['A', 'A', 'A'], 0);
    r0.start_spinning();
    let r1 = stationary_reel(vec!['A', 'A', 'A'], 0);
    let r2 = stationary_reel(vec!['A', 'A', 'A'], 0);
    assert_eq!(check_winnings(&r0, &r1, &r2), vec![0, 1, 2, 3, 4]);
}
