//! The single actor: center position, half-extents, velocity, and which
//! surface it currently stands on.

use vstd::prelude::*;
use crate::geometry::box_within_limit;

verus! {

/// What the actor currently stands on: nothing yet (airborne since the
/// start, or still falling), or the surface behind a registry handle. There
/// is no transition back to `Unsupported`: once landed, the actor keeps a
/// support handle until a later resolution pass assigns another.
#[derive(Clone, Copy, Debug, PartialEq, Eq, Structural)]
pub enum Support {
    Unsupported,
    SupportedBy(usize),
}

/// Position bound under which one tick's arithmetic cannot overflow.
pub const POSITION_LIMIT: i64 = 1_000_000_000_000;

/// Half-extent bound for the actor's box.
pub const EXTENT_LIMIT: i64 = 1_000_000_000;

/// Velocity bound for the actor.
pub const VELOCITY_LIMIT: i64 = 1_000_000;

/// The one controllable actor.
#[derive(Clone, Copy, Debug, PartialEq, Eq, Structural)]
pub struct Actor {
    pub x: i64,
    pub y: i64,
    pub half_w: i64,
    pub half_h: i64,
    pub vx: i64,
    pub vy: i64,
    pub support: Support,
}

impl Actor {
    /// Machine-width bounds the integrator asks of an actor at tick start;
    /// far beyond anything the play area uses, and enough that no addition
    /// inside a tick can leave the `i64` range.
    pub open spec fn bounded(self) -> bool {
        &&& -POSITION_LIMIT <= self.x <= POSITION_LIMIT
        &&& -POSITION_LIMIT <= self.y <= POSITION_LIMIT
        &&& 0 <= self.half_w <= EXTENT_LIMIT
        &&& 0 <= self.half_h <= EXTENT_LIMIT
        &&& -VELOCITY_LIMIT <= self.vx <= VELOCITY_LIMIT
        &&& -VELOCITY_LIMIT <= self.vy <= VELOCITY_LIMIT
    }

    /// The actor's box keeps its edges within the coordinate limit.
    pub open spec fn box_within(self) -> bool {
        box_within_limit(self.x as int, self.y as int, self.half_w as int, self.half_h as int)
    }

    /// A fresh actor that has not landed anywhere yet.
    pub fn new(x: i64, y: i64, half_w: i64, half_h: i64, vx: i64, vy: i64) -> (a: Actor)
        ensures
            (a == Actor { x, y, half_w, half_h, vx, vy, support: Support::Unsupported }),
    {
        Actor { x, y, half_w, half_h, vx, vy, support: Support::Unsupported }
    }

    /// Whether the actor has landed on a real surface at least once; this is
    /// what makes it eligible to jump.
    pub fn supported(&self) -> (r: bool)
        ensures
            r == !(self.support is Unsupported),
    {
        match self.support {
            Support::Unsupported => false,
            Support::SupportedBy(_) => true,
        }
    }
}

} // verus!
