//! A small arithmetic-quiz core: a 10x10 grid of numbered buttons, a random
//! multiplication problem, streak tracking with a Fibonacci-style escalating
//! milestone target, and a one-shot celebration burst on each milestone.
//!
//! The library holds the verified logic: the grid layouts, the randomizer,
//! the game state with its guess handler, and the pure view renderer. A front
//! end drives the loop: render the state, take a click, submit it, and fire
//! the celebration effect when the handler says so.

pub mod celebrate;
pub mod grid;
pub mod random;
pub mod render;
pub mod state;
