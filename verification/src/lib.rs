//! A fixed-step 2D platformer core: a single actor moves under sampled key
//! input and gravity, and is resolved each tick against an append-only
//! registry of static axis-aligned surfaces.
//!
//! All coordinates are integers. Each tick runs, in order: movement intent
//! from the sampled input, gravity integration while the actor is
//! unsupported, and a collision-resolution pass that can arrest the fall and
//! reassign which surface the actor stands on. Presentation concerns
//! (windows, sprites, input devices) live outside this crate; a driver feeds
//! in an [`input::InputState`] snapshot and reads the actor back after each
//! [`integrator::tick`].

pub mod actor;
pub mod collision;
pub mod geometry;
pub mod input;
pub mod integrator;
pub mod laws;
