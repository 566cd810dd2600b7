use vstd::prelude::*;

verus! {

/// Which of the movement keys are held down during one frame: the four
/// arrow keys and their letter-key equivalents.
#[derive(Clone, Copy, Debug, PartialEq, Eq)]
pub struct MoveKeys {
    pub left: bool,
    pub a: bool,
    pub right: bool,
    pub d: bool,
    pub down: bool,
    pub s: bool,
    pub up: bool,
    pub w: bool,
}

/// Distance the player tank moves along an axis in one fixed-step frame
/// while a key for that direction is held.
pub const MOVE_STEP: i32 = 3;

/// Net horizontal displacement for one frame: one step right while a
/// right key is held, one step left while a left key is held; holding
/// keys for both directions cancels out.
pub open spec fn x_delta(k: MoveKeys) -> int {
    (if k.right || k.d { MOVE_STEP as int } else { 0 })
        - (if k.left || k.a { MOVE_STEP as int } else { 0 })
}

/// Net vertical displacement for one frame: one step up while an up key
/// is held, one step down while a down key is held; holding keys for
/// both directions cancels out.
pub open spec fn y_delta(k: MoveKeys) -> int {
    (if k.up || k.w { MOVE_STEP as int } else { 0 })
        - (if k.down || k.s { MOVE_STEP as int } else { 0 })
}

/// The displacement the player tank makes in one fixed-step frame, as
/// `(dx, dy)`, from the movement keys held during that frame.
pub fn movement_delta(k: MoveKeys) -> (d: (i32, i32))
    ensures
        d.0 == x_delta(k),
        d.1 == y_delta(k),
{
    let mut dx: i32 = 0;
    let mut dy: i32 = 0;
    if k.left || k.a {
        dx = dx - MOVE_STEP;
    }
    if k.right || k.d {
        dx = dx + MOVE_STEP;
    }
    if k.down || k.s {
        dy = dy - MOVE_STEP;
    }
    if k.up || k.w {
        dy = dy + MOVE_STEP;
    }
    (dx, dy)
}

} // verus!
