use vstd::prelude::*;

verus! {

/// The impulse per second of fixed time that one unit of movement gives the player.
pub const PLAYER_SPEED: i32 = 1000;

/// One axis of keyboard movement: +1 for the positive key, -1 for the
/// negative one, 0 for both or neither.
pub open spec fn axis(positive: bool, negative: bool) -> int {
    (if positive { 1int } else { 0int }) - (if negative { 1int } else { 0int })
}

fn movement_axis(positive: bool, negative: bool) -> (r: i8)
    ensures
        r == axis(positive, negative),
{
    let mut v: i8 = 0;
    if positive {
        v = v + 1;
    }
    if negative {
        v = v - 1;
    }
    v
}

/// The direction the arrow keys ask for, as (x, y): right and up count
/// positive, left and down negative, and opposite keys cancel.
pub fn movement_direction(right: bool, left: bool, up: bool, down: bool) -> (r: (i8, i8))
    ensures
        r.0 == axis(right, left),
        r.1 == axis(up, down),
{
    (movement_axis(right, left), movement_axis(up, down))
}

/// The impulse per second of fixed time that the arrow keys ask for: the
/// direction scaled by `PLAYER_SPEED`.
pub fn movement_impulse_per_second(right: bool, left: bool, up: bool, down: bool) -> (r: (i32, i32))
    ensures
        r.0 == axis(right, left) * PLAYER_SPEED,
        r.1 == axis(up, down) * PLAYER_SPEED,
{
    let (x, y) = movement_direction(right, left, up, down);
    (x as i32 * PLAYER_SPEED, y as i32 * PLAYER_SPEED)
}

} // verus!
