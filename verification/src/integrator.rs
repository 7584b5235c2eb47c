//! The fixed-step pipeline: movement intent from the sampled input, gravity
//! while unsupported, then collision resolution, in that strict order each
//! tick. One tick stands for 0.050 simulation-seconds; the external
//! scheduler that keeps that cadence calls [`tick`] once per step.

use vstd::prelude::*;
use crate::actor::{Actor, Support};
use crate::collision::{resolve, resolved_actor};
use crate::geometry::{Registry, Surface};
use crate::input::{Control, InputState};

verus! {

/// Net horizontal key delta for one tick: +10 for MoveRight, -10 for
/// MoveLeft; holding both cancels additively to zero.
pub open spec fn walk_delta(input: InputState) -> int {
    (if input.right {
        10int
    } else {
        0int
    }) + (if input.left {
        -10int
    } else {
        0int
    })
}

/// Jump takes effect only while Jump is held and the actor has landed on a
/// real surface at least once.
pub open spec fn jump_applies(input: InputState, a: Actor) -> bool {
    input.jump && !(a.support is Unsupported)
}

/// The actor after the movement-intent step: x shifts by the key delta, and
/// a jump sets vy to 30 and nudges y up by an intent of 10 — a nudge the
/// gravity step's own position update immediately follows on the same tick.
pub open spec fn moved(a: Actor, input: InputState) -> Actor {
    Actor {
        x: (a.x + walk_delta(input)) as i64,
        y: if jump_applies(input, a) {
            (a.y + 10) as i64
        } else {
            a.y
        },
        vy: if jump_applies(input, a) {
            30
        } else {
            a.vy
        },
        ..a
    }
}

/// Vertical speed after gravity: while nothing supports the actor and it is
/// still above terminal fall speed (-15), gravity pulls vy down by 2 per
/// tick; a supported actor, or one at or past terminal speed, keeps its vy.
pub open spec fn gravity_vy(a: Actor) -> int {
    if a.support is Unsupported && a.vy > -15 {
        a.vy - 2
    } else {
        a.vy as int
    }
}

/// The actor after the gravity step: vy updated, then added onto y
/// unconditionally.
pub open spec fn gravitated(a: Actor) -> Actor {
    Actor { vy: gravity_vy(a) as i64, y: (a.y + gravity_vy(a)) as i64, ..a }
}

/// One whole tick: movement intent, then gravity, then a full
/// collision-resolution pass over the registry.
pub open spec fn tick_spec(a: Actor, input: InputState, ss: Seq<Surface>) -> Actor {
    resolved_actor(gravitated(moved(a, input)), ss)
}

/// Movement-intent step: applies the horizontal key delta to x and, when the
/// jump is eligible, sets the upward jump speed and the one-tick vertical
/// intent.
pub fn move_actor(a: &mut Actor, input: &InputState)
    requires
        old(a).bounded(),
    ensures
        *final(a) == moved(*old(a), *input),
{
    let mut xdirection: i64 = 0;
    let mut ydirection: i64 = 0;

    if input.is_pressed(Control::MoveLeft) {
        xdirection = xdirection - 10;
    }
    if input.is_pressed(Control::MoveRight) {
        xdirection = xdirection + 10;
    }
    if input.is_pressed(Control::Jump) && a.supported() {
        a.vy = 30;
        ydirection = ydirection + 10;
    }

    let new_xposition: i64 = a.x + xdirection;
    let new_yposition: i64 = a.y + ydirection;
    a.x = new_xposition;
    a.y = new_yposition;
}

/// Gravity step: accelerates an unsupported actor downward to at most the
/// terminal fall speed, then integrates vy into y.
pub fn apply_gravity(a: &mut Actor)
    requires
        old(a).vy > i64::MIN + 2,
        i64::MIN <= old(a).y + gravity_vy(*old(a)),
        old(a).y + gravity_vy(*old(a)) <= i64::MAX,
    ensures
        *final(a) == gravitated(*old(a)),
{
    if !a.supported() && a.vy > -15 {
        a.vy = a.vy - 2;
    }
    a.y = a.y + a.vy;
}

/// One fixed tick of the simulation, the single entry point the external
/// step scheduler drives: movement intent, gravity, collision resolution.
pub fn tick(a: &mut Actor, reg: &Registry, input: &InputState)
    requires
        old(a).bounded(),
        reg.wf(),
    ensures
        *final(a) == tick_spec(*old(a), *input, reg@),
{
    move_actor(a, input);
    apply_gravity(a);
    resolve(a, reg);
}

} // verus!
