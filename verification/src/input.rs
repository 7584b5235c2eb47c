//! The input sampler's view of one tick: which controls are held down,
//! sampled once at tick start.

use vstd::prelude::*;

verus! {

/// The three controls the core reacts to.
#[derive(Clone, Copy, Debug, PartialEq, Eq, Structural)]
pub enum Control {
    MoveLeft,
    MoveRight,
    Jump,
}

/// A snapshot of the press state of every control for one tick. The
/// presentation layer owns the physical key bindings and fills this in.
#[derive(Clone, Copy, Debug, PartialEq, Eq, Structural)]
pub struct InputState {
    pub left: bool,
    pub right: bool,
    pub jump: bool,
}

impl InputState {
    /// Whether a control is held in this snapshot.
    pub open spec fn pressed(self, control: Control) -> bool {
        match control {
            Control::MoveLeft => self.left,
            Control::MoveRight => self.right,
            Control::Jump => self.jump,
        }
    }

    /// Side-effect-free read of one control's press state.
    pub fn is_pressed(&self, control: Control) -> (r: bool)
        ensures
            r == self.pressed(control),
    {
        match control {
            Control::MoveLeft => self.left,
            Control::MoveRight => self.right,
            Control::Jump => self.jump,
        }
    }
}

} // verus!
