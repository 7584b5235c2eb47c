//! AABB overlap, penetration-side classification, and the per-tick
//! resolution pass over the whole registry.

use vstd::prelude::*;
use crate::actor::{Actor, Support};
use crate::geometry::{Registry, Surface, surface_within_limit};

verus! {

/// Which side of a surface the overlapping actor penetrates, or `Inside`
/// when the overlap pokes past no single edge on either axis.
#[derive(Clone, Copy, Debug, PartialEq, Eq, Structural)]
pub enum Contact {
    Left,
    Right,
    Top,
    Bottom,
    Inside,
}

/// Left edge of the actor's box.
pub open spec fn actor_left(a: Actor) -> int {
    a.x - a.half_w
}

/// Right edge of the actor's box.
pub open spec fn actor_right(a: Actor) -> int {
    a.x + a.half_w
}

/// Bottom edge of the actor's box.
pub open spec fn actor_bottom(a: Actor) -> int {
    a.y - a.half_h
}

/// Top edge of the actor's box.
pub open spec fn actor_top(a: Actor) -> int {
    a.y + a.half_h
}

/// Left edge of a surface's box.
pub open spec fn surface_left(s: Surface) -> int {
    s.x - s.half_w
}

/// Right edge of a surface's box.
pub open spec fn surface_right(s: Surface) -> int {
    s.x + s.half_w
}

/// Bottom edge of a surface's box.
pub open spec fn surface_bottom(s: Surface) -> int {
    s.y - s.half_h
}

/// Top edge of a surface's box.
pub open spec fn surface_top(s: Surface) -> int {
    s.y + s.half_h
}

/// Strict interval overlap on both axes; boxes that merely touch
/// edge-to-edge do not overlap.
pub open spec fn overlaps(a: Actor, s: Surface) -> bool {
    &&& actor_left(a) < surface_right(s)
    &&& actor_right(a) > surface_left(s)
    &&& actor_bottom(a) < surface_top(s)
    &&& actor_top(a) > surface_bottom(s)
}

/// Horizontal side of the penetration: `Left` when the actor pokes past the
/// surface's left edge only, `Right` past its right edge only, `None` when
/// it pokes past neither or both (it spans or sits strictly within).
pub open spec fn x_contact(a: Actor, s: Surface) -> Option<Contact> {
    if actor_left(a) < surface_left(s) && actor_right(a) > surface_left(s) && actor_right(a)
        < surface_right(s) {
        Some(Contact::Left)
    } else if actor_left(a) > surface_left(s) && actor_left(a) < surface_right(s) && actor_right(a)
        > surface_right(s) {
        Some(Contact::Right)
    } else {
        None
    }
}

/// How deep the horizontal penetration of [`x_contact`] is; meaningful only
/// when that side exists.
pub open spec fn x_depth(a: Actor, s: Surface) -> int {
    if x_contact(a, s) == Some(Contact::Left) {
        actor_right(a) - surface_left(s)
    } else {
        surface_right(s) - actor_left(a)
    }
}

/// Vertical side of the penetration: `Bottom` when the actor pokes up past
/// the surface's bottom edge only, `Top` when it pokes down past its top
/// edge only, `None` otherwise.
pub open spec fn y_contact(a: Actor, s: Surface) -> Option<Contact> {
    if actor_bottom(a) < surface_bottom(s) && actor_top(a) > surface_bottom(s) && actor_top(a)
        < surface_top(s) {
        Some(Contact::Bottom)
    } else if actor_bottom(a) > surface_bottom(s) && actor_bottom(a) < surface_top(s)
        && actor_top(a) > surface_top(s) {
        Some(Contact::Top)
    } else {
        None
    }
}

/// How deep the vertical penetration of [`y_contact`] is; meaningful only
/// when that side exists.
pub open spec fn y_depth(a: Actor, s: Surface) -> int {
    if y_contact(a, s) == Some(Contact::Bottom) {
        actor_top(a) - surface_bottom(s)
    } else {
        surface_top(s) - actor_bottom(a)
    }
}

/// Penetration classification of an overlap: the axis with the strictly
/// shallower penetration wins, ties go to the horizontal side, an axis with
/// no clear side defers to the other, and when neither axis shows a side the
/// overlap is `Inside`. No overlap classifies as `None`.
pub open spec fn classify(a: Actor, s: Surface) -> Option<Contact> {
    if !overlaps(a, s) {
        None
    } else {
        match (x_contact(a, s), y_contact(a, s)) {
            (Some(xc), Some(yc)) => if y_depth(a, s) < x_depth(a, s) {
                Some(yc)
            } else {
                Some(xc)
            },
            (Some(xc), None) => Some(xc),
            (None, Some(yc)) => Some(yc),
            (None, None) => Some(Contact::Inside),
        }
    }
}

/// Computes [`classify`] for the actor's box against one surface.
pub fn classify_contact(a: &Actor, s: &Surface) -> (r: Option<Contact>)
    requires
        a.box_within(),
        surface_within_limit(*s),
    ensures
        r == classify(*a, *s),
{
    let a_left: i64 = a.x - a.half_w;
    let a_right: i64 = a.x + a.half_w;
    let a_bottom: i64 = a.y - a.half_h;
    let a_top: i64 = a.y + a.half_h;
    let s_left: i64 = s.x - s.half_w;
    let s_right: i64 = s.x + s.half_w;
    let s_bottom: i64 = s.y - s.half_h;
    let s_top: i64 = s.y + s.half_h;

    if !(a_left < s_right && a_right > s_left && a_bottom < s_top && a_top > s_bottom) {
        return None;
    }

    let x_side: Option<Contact> = if a_left < s_left && a_right > s_left && a_right < s_right {
        Some(Contact::Left)
    } else if a_left > s_left && a_left < s_right && a_right > s_right {
        Some(Contact::Right)
    } else {
        None
    };

    let y_side: Option<Contact> = if a_bottom < s_bottom && a_top > s_bottom && a_top < s_top {
        Some(Contact::Bottom)
    } else if a_bottom > s_bottom && a_bottom < s_top && a_top > s_top {
        Some(Contact::Top)
    } else {
        None
    };

    match (x_side, y_side) {
        (Some(xc), Some(yc)) => {
            let xd: i64 = match xc {
                Contact::Left => a_right - s_left,
                _ => s_right - a_left,
            };
            let yd: i64 = match yc {
                Contact::Bottom => a_top - s_bottom,
                _ => s_top - a_bottom,
            };
            if yd < xd {
                Some(yc)
            } else {
                Some(xc)
            }
        },
        (Some(xc), None) => Some(xc),
        (None, Some(yc)) => Some(yc),
        (None, None) => Some(Contact::Inside),
    }
}

/// What one surface does to the falling state `(vy, support)`: a
/// floor-capable surface hit on its `Top` arrests the fall and becomes the
/// support; one hit on its `Bottom` pushes the actor back down at speed -2;
/// an `Inside` overlap adopts the surface as support without touching the
/// velocity; side contacts, misses and non-floor surfaces change nothing.
pub open spec fn contact_effect(
    vy: int,
    sup: Support,
    a: Actor,
    s: Surface,
    handle: usize,
) -> (int, Support) {
    if s.floor_capable {
        match classify(a, s) {
            Some(Contact::Top) => (0, Support::SupportedBy(handle)),
            Some(Contact::Bottom) => (-2, sup),
            Some(Contact::Inside) => (vy, Support::SupportedBy(handle)),
            _ => (vy, sup),
        }
    } else {
        (vy, sup)
    }
}

/// The falling state after the first `n` surfaces of the registry, visited
/// in insertion order; a later surface overwrites what an earlier one set.
pub open spec fn resolved(vy: int, sup: Support, a: Actor, ss: Seq<Surface>, n: int) -> (
    int,
    Support,
)
    decreases n,
{
    if n <= 0 {
        (vy, sup)
    } else {
        let prev = resolved(vy, sup, a, ss, n - 1);
        contact_effect(prev.0, prev.1, a, ss[n - 1], (n - 1) as usize)
    }
}

/// The actor after a full resolution pass: only `vy` and `support` change,
/// and they become whatever the last effective surface of the registry set.
pub open spec fn resolved_actor(a: Actor, ss: Seq<Surface>) -> Actor {
    let r = resolved(a.vy as int, a.support, a, ss, ss.len() as int);
    Actor { vy: r.0 as i64, support: r.1, ..a }
}

/// One collision-resolution pass: walks the registry in insertion order and
/// lets each floor-capable overlapping surface adjust the vertical velocity
/// and the support handle. Position and extents are never touched.
pub fn resolve(a: &mut Actor, reg: &Registry)
    requires
        old(a).box_within(),
        reg.wf(),
    ensures
        *final(a) == resolved_actor(*old(a), reg@),
{
    let ghost a0 = *a;
    let mut vy: i64 = a.vy;
    let mut sup: Support = a.support;
    let n: usize = reg.len();
    let mut i: usize = 0;
    while i < n
        invariant
            *a == a0,
            a0.box_within(),
            reg.wf(),
            n == reg@.len(),
            i <= n,
            (vy as int, sup) == resolved(a0.vy as int, a0.support, a0, reg@, i as int),
        decreases n - i,
    {
        let s = reg.get(i);
        assert(surface_within_limit(reg@[i as int]));
        let c = classify_contact(a, &s);
        if s.floor_capable {
            match c {
                Some(Contact::Top) => {
                    vy = 0;
                    sup = Support::SupportedBy(i);
                },
                Some(Contact::Bottom) => {
                    vy = -2;
                },
                Some(Contact::Inside) => {
                    sup = Support::SupportedBy(i);
                },
                _ => {},
            }
        }
        i = i + 1;
    }
    a.vy = vy;
    a.support = sup;
}

} // verus!
