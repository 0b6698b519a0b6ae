//! Random draws, and the rule that turns a draw into a cell.

use vstd::prelude::*;
use rand::rngs::ThreadRng;
use rand::Rng;

verus! {

/// The largest number that is drawn for a cell; the smallest is 0.
pub const DRAW_MAX: i32 = 100;

/// A cell starts alive if its draw is above this number.
pub const DRAW_THRESHOLD: i32 = 66;

/// `rand::rngs::ThreadRng`, the generator that each thread has for itself.
/// Nothing is known of what is inside.
#[verifier::external_type_specification]
#[verifier::external_body]
pub struct ExThreadRng(ThreadRng);

/// `rand::thread_rng` hands out the generator of the current thread, which
/// the system seeds at its first use. Nothing is claimed of the generator.
/// The call takes no argument; it panics only on a system that cannot
/// supply a seed.
pub assume_specification[ rand::thread_rng ]() -> (rng: ThreadRng);

/// `rand::Rng::gen_range` on a `ThreadRng`, for `i32`: a number from `low`
/// inclusive to `high` exclusive. It panics unless `low < high`, so that is
/// required. Which number of the range comes is left open, and so is how
/// often each comes.
#[verifier::external_body]
fn gen_range(rng: &mut ThreadRng, low: i32, high: i32) -> (n: i32)
    requires
        low < high,
    ensures
        low <= n < high,
{
    rng.gen_range(low, high)
}

/// A random number from `min` to `max`, both included; which one comes is left to chance.
pub fn random(min: i32, max: i32) -> (n: i32)
    requires
        min <= max < i32::MAX,
    ensures
        min <= n <= max,
{
    let mut rng = rand::thread_rng();
    gen_range(&mut rng, min, max + 1)
}

/// Whether a cell whose draw was `draw` starts alive.
pub open spec fn spec_alive_from_draw(draw: int) -> bool {
    draw > DRAW_THRESHOLD
}

/// Whether a cell whose draw was `draw` starts alive: it does if the draw
/// is above `DRAW_THRESHOLD`, which is the case for 34 of the 101 numbers
/// from 0 to `DRAW_MAX`.
pub fn alive_from_draw(draw: i32) -> (alive: bool)
    ensures
        alive == spec_alive_from_draw(draw as int),
{
    let mut alive: bool = false;
    if draw > DRAW_THRESHOLD {
        alive = true;
    }
    alive
}

} // verus!
