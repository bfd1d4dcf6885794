//! The randomizer: draws one byte from the system entropy source and maps it
//! to an operand in [1, 10]. When the entropy source fails, the draw degrades
//! gracefully to the fixed fallback operand 1 instead of failing the caller.

use vstd::prelude::*;

verus! {

/// Relies on getrandom::fill: it fills the buffer with bytes from the
/// system's preferred entropy source and returns Ok, or reports an error
/// (nothing is promised of the bytes themselves, and nothing can be).
#[verifier::external_body]
fn entropy_byte() -> (r: Option<u8>) {
    let mut buf = [0u8; 1];
    match getrandom::fill(&mut buf) {
        Ok(()) => Some(buf[0]),
        Err(_) => None,
    }
}

/// Maps one entropy byte to an operand. The fallback byte 0 maps to
/// exactly 1.
pub fn operand_from_byte(n: u8) -> (r: i32)
    ensures
        r == 1 + (n as int) % 10,
        1 <= r <= 10,
{
    (1 + n % 10) as i32
}

/// Draws an operand in [1, 10]: an entropy byte reduced modulo 10, shifted
/// to start at 1. On entropy failure the draw falls back to the byte 0, so
/// the result is then exactly 1 and the game stays playable.
pub fn rng() -> (r: i32)
    ensures
        1 <= r <= 10,
{
    let n: u8 = match entropy_byte() {
        Some(x) => x,
        None => 0,
    };
    operand_from_byte(n)
}

} // verus!
