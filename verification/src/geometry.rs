//! Static world geometry: axis-aligned surfaces and the append-only registry
//! that owns them and hands out stable handles.

use vstd::prelude::*;

verus! {

/// Furthest coordinate any box edge may reach. This is a machine-width
/// bound, not a rule of play: it keeps every sum and difference of two box
/// edges comfortably inside the `i64` range.
pub const COORD_LIMIT: i64 = 2_000_000_000_000;

/// One static axis-aligned rectangle: center position, half-extents, and
/// whether it can support a standing actor (floor-capable) or is purely
/// decorative and takes part in no collision effect.
#[derive(Clone, Copy, Debug, PartialEq, Eq, Structural)]
pub struct Surface {
    pub x: i64,
    pub y: i64,
    pub half_w: i64,
    pub half_h: i64,
    pub floor_capable: bool,
}

/// A box of this center and half-extents has nonnegative extents and keeps
/// all four edges within [`COORD_LIMIT`].
pub open spec fn box_within_limit(x: int, y: int, half_w: int, half_h: int) -> bool {
    &&& 0 <= half_w
    &&& 0 <= half_h
    &&& -COORD_LIMIT <= x - half_w
    &&& x + half_w <= COORD_LIMIT
    &&& -COORD_LIMIT <= y - half_h
    &&& y + half_h <= COORD_LIMIT
}

/// The surface's box stays within the coordinate limit.
pub open spec fn surface_within_limit(s: Surface) -> bool {
    box_within_limit(s.x as int, s.y as int, s.half_w as int, s.half_h as int)
}

/// Append-only arena of surfaces, populated once at startup. A handle is the
/// index a surface was added at; handles stay valid for the registry's whole
/// life because nothing is ever removed.
pub struct Registry {
    surfaces: Vec<Surface>,
}

impl View for Registry {
    type V = Seq<Surface>;

    closed spec fn view(&self) -> Seq<Surface> {
        self.surfaces@
    }
}

impl Registry {
    /// Every surface held keeps its box within the coordinate limit.
    pub open spec fn wf(self) -> bool {
        forall|i: int| 0 <= i < self@.len() ==> surface_within_limit(#[trigger] self@[i])
    }

    /// An empty registry.
    pub fn new() -> (r: Registry)
        ensures
            r@ == Seq::<Surface>::empty(),
            r.wf(),
    {
        Registry { surfaces: Vec::new() }
    }

    /// Appends a surface and returns its handle: the index it now lives at,
    /// which is the registry's length before the call.
    pub fn add_surface(
        &mut self,
        x: i64,
        y: i64,
        half_w: i64,
        half_h: i64,
        floor_capable: bool,
    ) -> (handle: usize)
        requires
            box_within_limit(x as int, y as int, half_w as int, half_h as int),
        ensures
            final(self)@ == old(self)@.push(Surface { x, y, half_w, half_h, floor_capable }),
            handle == old(self)@.len(),
            old(self).wf() ==> final(self).wf(),
    {
        let handle = self.surfaces.len();
        self.surfaces.push(Surface { x, y, half_w, half_h, floor_capable });
        handle
    }

    /// How many surfaces have been added.
    pub fn len(&self) -> (n: usize)
        ensures
            n == self@.len(),
    {
        self.surfaces.len()
    }

    /// The surface behind a handle.
    pub fn get(&self, handle: usize) -> (s: Surface)
        requires
            handle < self@.len(),
        ensures
            s == self@[handle as int],
    {
        self.surfaces[handle]
    }
}

} // verus!
