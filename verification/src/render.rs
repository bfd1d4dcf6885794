//! The view renderer: a pure function of the game state to the data a
//! display host needs. The grid itself is static and comes from
//! `crate::grid::ordered_numbers`; everything that changes with the state is
//! here.

use vstd::prelude::*;
use crate::state::GameState;

verus! {

/// The background indicator: neutral before any turn, then the colour of the
/// most recent outcome.
#[derive(Clone, Copy, Debug, PartialEq, Eq, Structural)]
pub enum Indicator {
    Neutral,
    Success,
    Failure,
}

/// Everything the display host shows that depends on the state: the
/// background indicator, the progress bar (current streak out of target
/// minus one), and the three counters (the running streak, the problem
/// operands shown as "A x B", and the confetti count).
#[derive(Clone, Copy, Debug, PartialEq, Eq, Structural)]
pub struct RenderedView {
    pub indicator: Indicator,
    pub progress_value: i32,
    pub progress_max: i32,
    pub total_streak: i32,
    pub operand_a: i32,
    pub operand_b: i32,
    pub confetti_count: i32,
}

/// What a state looks like: the one view that `render` returns for it.
pub open spec fn view_of(s: GameState) -> RenderedView {
    RenderedView {
        indicator: if s.turn == 0 {
            Indicator::Neutral
        } else if s.last_success {
            Indicator::Success
        } else {
            Indicator::Failure
        },
        progress_value: s.streak,
        progress_max: (s.streak_target - 1) as i32,
        total_streak: s.total_streak,
        operand_a: s.operand_a,
        operand_b: s.operand_b,
        confetti_count: s.confetti_count,
    }
}

/// Renders the state: a total, pure function, so re-rendering an unchanged
/// state changes nothing on screen. Before the first turn the indicator is
/// neutral whatever `last_success` holds.
pub fn render(s: &GameState) -> (r: RenderedView)
    requires
        s.wf(),
    ensures
        r == view_of(*s),
        s.turn == 0 ==> r.indicator == Indicator::Neutral,
{
    RenderedView {
        indicator: if s.turn == 0 {
            Indicator::Neutral
        } else if s.last_success {
            Indicator::Success
        } else {
            Indicator::Failure
        },
        progress_value: s.streak,
        progress_max: s.streak_target - 1,
        total_streak: s.total_streak,
        operand_a: s.operand_a,
        operand_b: s.operand_b,
        confetti_count: s.confetti_count,
    }
}

/// Rendering is a function of the state alone: two renders of the same
/// state, with no submit between them, are identical.
pub proof fn lemma_render_idempotent(s: GameState, v1: RenderedView, v2: RenderedView)
    requires
        v1 == view_of(s),
        v2 == view_of(s),
    ensures
        v1 == v2,
{
}

} // verus!
