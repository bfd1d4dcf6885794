//! The celebration effect's parameters. The effect itself is a one-way,
//! fire-and-forget call that a display host makes when the guess handler
//! reports a milestone; its outcome is never inspected. The library only
//! fixes what the burst looks like.

use vstd::prelude::*;

verus! {

/// The parameters of one celebration burst: how many particles, over how
/// many degrees of spread, and which particle shapes.
pub struct CelebrationOptions {
    pub particle_count: u32,
    pub spread: u32,
    pub shapes: Vec<String>,
}

/// The one burst this game ever fires: 360 star-shaped particles over the
/// full 360 degrees.
pub fn celebration_options() -> (r: CelebrationOptions)
    ensures
        r.particle_count == 360,
        r.spread == 360,
        r.shapes@.len() == 1,
        r.shapes@[0]@ == "star"@,
{
    let mut shapes: Vec<String> = Vec::new();
    shapes.push(String::from_str("star"));
    CelebrationOptions { particle_count: 360, spread: 360, shapes }
}

} // verus!
