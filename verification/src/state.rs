//! The game state and the guess handler, the sole mutating operation: it
//! compares a clicked value against the product of the current operands,
//! updates the streak counters, grows the milestone target by a Fibonacci
//! recurrence when the streak reaches it, and draws a fresh problem.

use vstd::prelude::*;
use crate::random::rng;

verus! {

/// The whole state of one quiz session.
pub struct GameState {
    /// First factor of the current problem, in [1, 10].
    pub operand_a: i32,
    /// Second factor of the current problem, in [1, 10].
    pub operand_b: i32,
    /// Consecutive correct guesses since the last reset or milestone.
    pub streak: i32,
    /// Consecutive correct guesses since the last failure; a milestone does
    /// not reset it.
    pub total_streak: i32,
    /// The milestone target before the current one; with `streak_target` it
    /// forms the pair that drives the Fibonacci recurrence.
    pub old_streak_target: i32,
    /// The streak length that triggers the next milestone.
    pub streak_target: i32,
    /// Milestones reached this session.
    pub confetti_count: i32,
    /// Guesses submitted so far; 0 means the untouched initial state.
    pub turn: i32,
    /// Outcome of the most recent guess, used only for display.
    pub last_success: bool,
}

impl GameState {
    /// Well-formedness: operands stay in [1, 10], the streak stays strictly
    /// below its target, the target pair stays positive and ordered, and all
    /// counters stay non-negative.
    pub open spec fn wf(self) -> bool {
        &&& 1 <= self.operand_a <= 10
        &&& 1 <= self.operand_b <= 10
        &&& 0 <= self.streak < self.streak_target
        &&& 0 <= self.total_streak
        &&& 1 <= self.old_streak_target <= self.streak_target
        &&& 0 <= self.confetti_count
        &&& 0 <= self.turn
    }

    /// Whether `clicked` is the correct answer to the current problem.
    pub open spec fn guess_is_correct(self, clicked: int) -> bool {
        clicked == self.operand_a * self.operand_b
    }

    /// Whether a correct guess of `clicked` would raise the streak to the
    /// milestone target.
    pub open spec fn hits_milestone(self, clicked: int) -> bool {
        self.guess_is_correct(clicked) && self.streak + 1 == self.streak_target
    }

    /// A fresh session: a random problem, every counter at zero, and the
    /// target pair at (1, 1) so that the very first correct guess is already
    /// a milestone.
    pub fn new() -> (s: GameState)
        ensures
            s.wf(),
            s.streak == 0,
            s.total_streak == 0,
            s.old_streak_target == 1,
            s.streak_target == 1,
            s.confetti_count == 0,
            s.turn == 0,
            !s.last_success,
    {
        GameState {
            operand_a: rng(),
            operand_b: rng(),
            streak: 0,
            total_streak: 0,
            old_streak_target: 1,
            streak_target: 1,
            confetti_count: 0,
            turn: 0,
            last_success: false,
        }
    }

    /// Applies one guess. A wrong guess resets both streak counters; a
    /// correct one raises them, and when the streak reaches the target the
    /// milestone fires: the target pair advances by the Fibonacci recurrence,
    /// the confetti count rises, and the streak resets. Either way the turn
    /// counter rises by one and a fresh problem is drawn. The result says
    /// whether a milestone fired, so that the caller can run the one-shot
    /// celebration effect exactly then.
    pub fn submit(&mut self, clicked: i32) -> (celebrate: bool)
        requires
            old(self).wf(),
            old(self).turn < i32::MAX,
            old(self).total_streak < i32::MAX,
            old(self).confetti_count < i32::MAX,
            old(self).streak_target + old(self).old_streak_target <= i32::MAX,
        ensures
            final(self).wf(),
            final(self).turn == old(self).turn + 1,
            final(self).last_success == old(self).guess_is_correct(clicked as int),
            !old(self).guess_is_correct(clicked as int) ==> {
                &&& final(self).streak == 0
                &&& final(self).total_streak == 0
            },
            old(self).guess_is_correct(clicked as int) ==> final(self).total_streak == old(
                self,
            ).total_streak + 1,
            old(self).guess_is_correct(clicked as int) && !old(self).hits_milestone(
                clicked as int,
            ) ==> final(self).streak == old(self).streak + 1,
            !old(self).hits_milestone(clicked as int) ==> {
                &&& final(self).streak_target == old(self).streak_target
                &&& final(self).old_streak_target == old(self).old_streak_target
                &&& final(self).confetti_count == old(self).confetti_count
            },
            old(self).hits_milestone(clicked as int) ==> {
                &&& final(self).streak == 0
                &&& final(self).old_streak_target == old(self).streak_target
                &&& final(self).streak_target == old(self).streak_target + old(
                    self,
                ).old_streak_target
                &&& final(self).confetti_count == old(self).confetti_count + 1
            },
            celebrate == old(self).hits_milestone(clicked as int),
    {
        let mut celebrate = false;
        proof {
            assert(1 <= self.operand_a * self.operand_b <= 100) by (nonlinear_arith)
                requires
                    1 <= self.operand_a <= 10,
                    1 <= self.operand_b <= 10,
            ;
        }
        if clicked == self.operand_a * self.operand_b {
            self.streak = self.streak + 1;
            self.total_streak = self.total_streak + 1;
            self.last_success = true;
            if self.streak == self.streak_target {
                let current_target = self.streak_target;
                let previous_target = self.old_streak_target;
                self.old_streak_target = current_target;
                self.streak_target = current_target + previous_target;
                self.confetti_count = self.confetti_count + 1;
                self.streak = 0;
                celebrate = true;
            }
        } else {
            self.streak = 0;
            self.total_streak = 0;
            self.last_success = false;
        }
        self.turn = self.turn + 1;
        self.operand_a = rng();
        self.operand_b = rng();
        celebrate
    }
}

/// The milestone target after `n` milestones: 1, 2, 3, 5, 8, 13, ... — each
/// further target is the sum of the two before it.
pub open spec fn target_after(n: nat) -> int
    decreases n,
{
    if n == 0 {
        1
    } else if n == 1 {
        2
    } else {
        target_after((n - 1) as nat) + target_after((n - 2) as nat)
    }
}

/// The value of `old_streak_target` after `n` milestones: the target the
/// session had before the current one, and 1 at the start.
pub open spec fn old_target_after(n: nat) -> int {
    if n == 0 {
        1
    } else {
        target_after((n - 1) as nat)
    }
}

/// Successive milestones escalate the target along the Fibonacci sequence
/// 1, 2, 3, 5, 8, 13, ..., whatever the operands are: a fresh session holds
/// the pair for zero milestones, and from the pair after `n` milestones the
/// milestone update of `submit` — the old target becomes the current one,
/// the current one becomes their sum — yields exactly the pair after `n + 1`.
pub proof fn lemma_fibonacci_escalation(s: GameState, n: nat)
    requires
        s.old_streak_target == old_target_after(n),
        s.streak_target == target_after(n),
    ensures
        old_target_after(0) == 1 && target_after(0) == 1,
        s.streak_target == old_target_after(n + 1),
        s.streak_target + s.old_streak_target == target_after(n + 1),
{
    if n == 0 {
        assert(target_after(1) == 2);
    }
}

/// The escalation begins 1, 2, 3, 5, 8, 13.
pub proof fn lemma_target_sequence_start()
    ensures
        target_after(0) == 1,
        target_after(1) == 2,
        target_after(2) == 3,
        target_after(3) == 5,
        target_after(4) == 8,
        target_after(5) == 13,
{
    reveal_with_fuel(target_after, 6);
}

} // verus!
