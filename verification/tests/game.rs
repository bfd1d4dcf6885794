use streak_quiz::state::GameState;

fn fresh_state(a: i32, b: i32) -> GameState {
    GameState {
        operand_a: a,
        operand_b: b,
        streak: 0,
        total_streak: 0,
        old_streak_target: 1,
        streak_target: 1,
        confetti_count: 0,
        turn: 0,
        last_success: false,
    }
}

#[test]
fn wrong_guess_resets_both_streaks() {
    let mut s = GameState {
        operand_a: 7,
        operand_b: 8,
        streak: 2,
        total_streak: 9,
        old_streak_target: 3,
        streak_target: 5,
        confetti_count: 3,
        turn: 20,
        last_success: true,
    };
    let celebrate = s.submit(55);
    assert!(!celebrate);
    assert_eq!(s.streak, 0);
    assert_eq!(s.total_streak, 0);
    assert!(!s.last_success);
    assert_eq!(s.turn, 21);
    assert_eq!(s.old_streak_target, 3);
    assert_eq!(s.streak_target, 5);
    assert_eq!(s.confetti_count, 3);
    assert!(1 <= s.operand_a && s.operand_a <= 10);
    assert!(1 <= s.operand_b && s.operand_b <= 10);
}

#[test]
fn correct_guess_below_target_advances_streaks_only() {
    let mut s = GameState {
        operand_a: 6,
        operand_b: 9,
        streak: 1,
        total_streak: 4,
        old_streak_target: 2,
        streak_target: 3,
        confetti_count: 2,
        turn: 11,
        last_success: false,
    };
    let celebrate = s.submit(54);
    assert!(!celebrate);
    assert_eq!(s.streak, 2);
    assert_eq!(s.total_streak, 5);
    assert!(s.last_success);
    assert_eq!(s.turn, 12);
    assert_eq!(s.old_streak_target, 2);
    assert_eq!(s.streak_target, 3);
    assert_eq!(s.confetti_count, 2);
    assert!(1 <= s.operand_a && s.operand_a <= 10);
    assert!(1 <= s.operand_b && s.operand_b <= 10);
}

#[test]
fn first_correct_guess_is_a_milestone() {
    let mut s = fresh_state(3, 4);
    let celebrate = s.submit(12);
    assert!(celebrate);
    assert_eq!(s.streak, 0);
    assert_eq!(s.total_streak, 1);
    assert_eq!(s.old_streak_target, 1);
    assert_eq!(s.streak_target, 2);
    assert_eq!(s.confetti_count, 1);
    assert_eq!(s.turn, 1);
    assert!(s.last_success);
    // The next correct guess only starts the new streak: no second burst.
    let product = s.operand_a * s.operand_b;
    let celebrate_again = s.submit(product);
    assert!(!celebrate_again);
    assert_eq!(s.confetti_count, 1);
}

#[test]
fn largest_product_is_a_correct_guess() {
    let mut s = fresh_state(10, 10);
    let celebrate = s.submit(100);
    assert!(celebrate);
    assert_eq!(s.total_streak, 1);
}

#[test]
fn milestones_escalate_targets_along_fibonacci() {
    let mut s = fresh_state(2, 5);
    let mut targets_hit: Vec<i32> = Vec::new();
    while targets_hit.len() < 6 {
        let product = s.operand_a * s.operand_b;
        let celebrate = s.submit(product);
        if celebrate {
            // The target just hit is kept as the old one of the new pair.
            targets_hit.push(s.old_streak_target);
        }
    }
    assert_eq!(targets_hit, vec![1, 2, 3, 5, 8, 13]);
    assert_eq!(s.streak_target, 21);
    assert_eq!(s.confetti_count, 6);
    assert_eq!(s.total_streak, 1 + 2 + 3 + 5 + 8 + 13);
}

#[test]
fn new_session_starts_untouched() {
    let s = GameState::new();
    assert_eq!(s.streak, 0);
    assert_eq!(s.total_streak, 0);
    assert_eq!(s.old_streak_target, 1);
    assert_eq!(s.streak_target, 1);
    assert_eq!(s.confetti_count, 0);
    assert_eq!(s.turn, 0);
    assert!(!s.last_success);
    assert!(1 <= s.operand_a && s.operand_a <= 10);
    assert!(1 <= s.operand_b && s.operand_b <= 10);
}

#[test]
fn failure_then_success_rebuilds_total_streak_from_zero() {
    let mut s = fresh_state(2, 3);
    s.submit(6);
    assert_eq!(s.total_streak, 1);
    let wrong = s.operand_a * s.operand_b + 1;
    s.submit(wrong);
    assert_eq!(s.total_streak, 0);
    let product = s.operand_a * s.operand_b;
    s.submit(product);
    assert_eq!(s.total_streak, 1);
}
