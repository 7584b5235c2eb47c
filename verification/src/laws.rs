//! Laws of the simulation that hold across functions: statements about whole
//! ticks and whole resolution passes, proved once and for all inputs.

use vstd::prelude::*;
use crate::actor::{Actor, Support};
use crate::collision::{classify, contact_effect, overlaps, resolved, resolved_actor, Contact};
use crate::geometry::Surface;
use crate::input::InputState;
use crate::integrator::{gravitated, moved, tick_spec, walk_delta};

verus! {

/// A surface whose classification against this actor would change the
/// vertical velocity: a floor-capable surface hit on its top or its bottom.
pub open spec fn vertical_contact(a: Actor, s: Surface) -> bool {
    s.floor_capable && (classify(a, s) == Some(Contact::Top) || classify(a, s) == Some(
        Contact::Bottom,
    ))
}

/// A single surface the actor does not overlap has no effect at all on the
/// falling state, whatever the rest of that state is.
pub proof fn lemma_no_overlap_no_effect(vy: int, sup: Support, a: Actor, s: Surface, handle: usize)
    requires
        !overlaps(a, s),
    ensures
        contact_effect(vy, sup, a, s, handle) == (vy, sup),
{
}

/// A resolution pass over surfaces none of which is both floor-capable and
/// overlapping leaves the falling state exactly as it was.
pub proof fn lemma_clear_pass_keeps_state(
    vy: int,
    sup: Support,
    a: Actor,
    ss: Seq<Surface>,
    n: int,
)
    requires
        0 <= n <= ss.len(),
        forall|i: int| 0 <= i < n ==> !((#[trigger] ss[i]).floor_capable && overlaps(a, ss[i])),
    ensures
        resolved(vy, sup, a, ss, n) == (vy, sup),
    decreases n,
{
    if n > 0 {
        lemma_clear_pass_keeps_state(vy, sup, a, ss, n - 1);
        assert(!(ss[n - 1].floor_capable && overlaps(a, ss[n - 1])));
    }
}

/// Resolution is idempotent on clear ground: a pass in which the actor
/// overlaps no surface of the registry returns the actor unchanged.
pub proof fn lemma_resolution_without_overlap_is_identity(a: Actor, ss: Seq<Surface>)
    requires
        forall|i: int| 0 <= i < ss.len() ==> !overlaps(a, #[trigger] ss[i]),
    ensures
        resolved_actor(a, ss) == a,
{
    lemma_clear_pass_keeps_state(a.vy as int, a.support, a, ss, ss.len() as int);
}

/// A resolution pass whose surfaces produce no Top and no Bottom contact
/// keeps the vertical velocity, though it may still reassign the support.
pub proof fn lemma_no_vertical_contact_keeps_vy(
    vy: int,
    sup: Support,
    a: Actor,
    ss: Seq<Surface>,
    n: int,
)
    requires
        0 <= n <= ss.len(),
        forall|i: int| 0 <= i < n ==> !vertical_contact(a, #[trigger] ss[i]),
    ensures
        resolved(vy, sup, a, ss, n).0 == vy,
    decreases n,
{
    if n > 0 {
        lemma_no_vertical_contact_keeps_vy(vy, sup, a, ss, n - 1);
        assert(!vertical_contact(a, ss[n - 1]));
    }
}

/// Terminal-velocity clamp: with no direction key pressed, an unsupported
/// actor already at or past terminal fall speed (vy <= -15) keeps exactly
/// that vertical speed over a tick whose resolution meets no Top or Bottom
/// contact. (A tick that lands on a floor top, or bounces off an underside,
/// rewrites vy by design and is excluded here.)
pub proof fn lemma_terminal_velocity_holds(a: Actor, input: InputState, ss: Seq<Surface>)
    requires
        a.bounded(),
        !input.left,
        !input.right,
        a.support is Unsupported,
        a.vy <= -15,
        forall|i: int|
            0 <= i < ss.len() ==> !vertical_contact(
                gravitated(moved(a, input)),
                #[trigger] ss[i],
            ),
    ensures
        tick_spec(a, input, ss).vy == a.vy,
{
    let g = gravitated(moved(a, input));
    assert(g.vy == a.vy);
    lemma_no_vertical_contact_keeps_vy(g.vy as int, g.support, g, ss, ss.len() as int);
}

/// Horizontal motion is exact: every tick shifts x by precisely the net key
/// delta, independent of the vertical state and of the geometry.
pub proof fn lemma_walk_is_exact(a: Actor, input: InputState, ss: Seq<Surface>)
    requires
        a.bounded(),
    ensures
        tick_spec(a, input, ss).x == a.x + walk_delta(input),
{
}

/// Hitting the underside of a floor-capable surface sets the vertical speed
/// to exactly -2, whatever it was before.
pub proof fn lemma_bottom_bounce(vy: int, sup: Support, a: Actor, s: Surface, handle: usize)
    requires
        s.floor_capable,
        classify(a, s) == Some(Contact::Bottom),
    ensures
        contact_effect(vy, sup, a, s, handle) == (-2int, sup),
{
}

/// Landing on the top of a floor-capable surface arrests the fall: the
/// vertical speed becomes 0 and that surface becomes the support.
pub proof fn lemma_top_landing(vy: int, sup: Support, a: Actor, s: Surface, handle: usize)
    requires
        s.floor_capable,
        classify(a, s) == Some(Contact::Top),
    ensures
        contact_effect(vy, sup, a, s, handle) == (0int, Support::SupportedBy(handle)),
{
}

/// Sticky support: an actor that has landed keeps its support handle — and
/// so feels no gravity — even over a tick in which it has moved clear of
/// every floor-capable surface. Nothing returns it to `Unsupported`; only a
/// fresh Top or Inside contact can reassign the handle on a later tick.
pub proof fn lemma_sticky_support(a: Actor, input: InputState, ss: Seq<Surface>, handle: usize)
    requires
        a.bounded(),
        a.support == Support::SupportedBy(handle),
        forall|i: int|
            0 <= i < ss.len() ==> !((#[trigger] ss[i]).floor_capable && overlaps(
                gravitated(moved(a, input)),
                ss[i],
            )),
    ensures
        tick_spec(a, input, ss).support == Support::SupportedBy(handle),
        tick_spec(a, input, ss).vy == if input.jump {
            30int
        } else {
            a.vy as int
        },
{
    let g = gravitated(moved(a, input));
    lemma_clear_pass_keeps_state(g.vy as int, g.support, g, ss, ss.len() as int);
}

} // verus!
