//! The serve: a velocity of fixed magnitude whose two signs are drawn at random.

use crate::geometry::{Vec2, Vector};
use rand::rngs::ThreadRng;
use rand::Rng;
use vstd::prelude::*;

verus! {

/// `rand`'s handle to the generator of the current thread. Opaque: nothing
/// is known of the state behind it.
#[verifier::external_type_specification]
#[verifier::external_body]
pub struct ExThreadRng(ThreadRng);

/// `rand::thread_rng`: hands out the generator of the current thread, which
/// the system has seeded. Nothing is claimed of the handle.
pub assume_specification[ rand::thread_rng ]() -> (rng: ThreadRng);

/// `Rng::gen_ratio` on the thread's generator: `true` with probability
/// `numerator / denominator`.
///
/// The arguments on which it panics are left out. Of the outcome only what
/// its documentation guarantees is claimed: always `true` when the two
/// arguments are equal, always `false` when the numerator is zero. In between
/// either value may come back.
#[verifier::external_body]
fn gen_ratio(rng: &mut ThreadRng, numerator: u32, denominator: u32) -> (r: bool)
    requires
        denominator != 0,
        numerator <= denominator,
    ensures
        numerator == denominator ==> r,
        numerator == 0 ==> !r,
{
    rng.gen_ratio(numerator, denominator)
}

/// `magnitude` when `positive`, else its negation.
pub open spec fn signed(magnitude: int, positive: bool) -> int {
    if positive {
        magnitude
    } else {
        -magnitude
    }
}

/// Each component of `v` is the given magnitude or its negation.
pub open spec fn is_signed(v: Vec2, magnitude_x: int, magnitude_y: int) -> bool {
    &&& v.x == magnitude_x || v.x == -magnitude_x
    &&& v.y == magnitude_y || v.y == -magnitude_y
}

/// The vector with the given magnitudes and the given signs.
pub fn signed_vector(
    magnitude_x: i64,
    magnitude_y: i64,
    positive_x: bool,
    positive_y: bool,
) -> (v: Vector)
    requires
        magnitude_x > i64::MIN,
        magnitude_y > i64::MIN,
    ensures
        v.x == signed(magnitude_x as int, positive_x),
        v.y == signed(magnitude_y as int, positive_y),
{
    let x: i64 = if positive_x {
        magnitude_x
    } else {
        -magnitude_x
    };
    let y: i64 = if positive_y {
        magnitude_y
    } else {
        -magnitude_y
    };
    Vector { x, y }
}

/// A vector whose components have the given magnitudes and whose signs are
/// two independent fair coin tosses.
pub fn random_signed_vector(magnitude_x: i64, magnitude_y: i64) -> (v: Vector)
    requires
        magnitude_x > i64::MIN,
        magnitude_y > i64::MIN,
    ensures
        is_signed(v@, magnitude_x as int, magnitude_y as int),
{
    let mut rng = rand::thread_rng();
    let positive_x = gen_ratio(&mut rng, 1, 2);
    let positive_y = gen_ratio(&mut rng, 1, 2);
    signed_vector(magnitude_x, magnitude_y, positive_x, positive_y)
}

} // verus!
