use vstd::prelude::*;
use crate::geometry::Point;
use crate::snake::Food;

verus! {

/// Relies on rand::random::<i32>, which draws from the thread-local
/// generator; any value may come back.
#[verifier::external_body]
fn random_i32() -> (r: i32) {
    rand::random::<i32>()
}

/// The magnitude of `raw`.
pub open spec fn magnitude(raw: int) -> nat {
    if raw < 0 {
        (-raw) as nat
    } else {
        raw as nat
    }
}

/// Folds a raw random number onto `0..bound`: the magnitude of the
/// remainder of `raw` by `bound`, which is the magnitude of `raw` taken
/// modulo `bound`.
pub fn food_coordinate(raw: i32, bound: i32) -> (r: i32)
    requires
        bound > 0,
    ensures
        r as int == (magnitude(raw as int) as int) % (bound as int),
        0 <= r < bound,
{
    let m: u64 = if raw < 0 {
        (-(raw as i64)) as u64
    } else {
        raw as u64
    };
    (m % (bound as u64)) as i32
}

/// Food placed at a random cell of a `width` by `height` field.
pub fn respawn_food(width: i32, height: i32) -> (r: Food)
    requires
        width > 0,
        height > 0,
    ensures
        0 <= r.position.x < width,
        0 <= r.position.y < height,
{
    let x = food_coordinate(random_i32(), width);
    let y = food_coordinate(random_i32(), height);
    Food { position: Point { x, y } }
}

} // verus!
