use platformer::actor::{Actor, Support};
use platformer::geometry::Registry;
use platformer::input::{Control, InputState};
use platformer::integrator::tick;

fn no_input() -> InputState {
    InputState { left: false, right: false, jump: false }
}

fn spawn() -> Actor {
    // Where the simulation starts: centered, high above the bottom wall,
    // drifting down at -1, not yet landed anywhere.
    Actor::new(0, -250, 15, 15, 0, -1)
}

#[test]
fn is_pressed_reads_the_snapshot() {
    let input = InputState { left: true, right: false, jump: true };
    assert!(input.is_pressed(Control::MoveLeft));
    assert!(!input.is_pressed(Control::MoveRight));
    assert!(input.is_pressed(Control::Jump));
}

#[test]
fn new_actor_is_unsupported() {
    let a = spawn();
    assert_eq!(a.support, Support::Unsupported);
    assert_eq!((a.x, a.y, a.vx, a.vy), (0, -250, 0, -1));
}

#[test]
fn gravity_applies_before_position_update() {
    // Unsupported, vy = -1, nothing to collide with: one tick accelerates to
    // -3 first and then moves y by the new velocity.
    let reg = Registry::new();
    let mut a = spawn();
    tick(&mut a, &reg, &no_input());
    assert_eq!(a.vy, -3);
    assert_eq!(a.y, -253);
    assert_eq!(a.x, 0);
}

#[test]
fn terminal_velocity_is_kept() {
    let reg = Registry::new();
    let mut a = spawn();
    a.vy = -15;
    tick(&mut a, &reg, &no_input());
    assert_eq!(a.vy, -15);
    assert_eq!(a.y, -265);
}

#[test]
fn below_terminal_velocity_is_also_kept() {
    let reg = Registry::new();
    let mut a = spawn();
    a.vy = -16;
    tick(&mut a, &reg, &no_input());
    assert_eq!(a.vy, -16);
}

#[test]
fn gravity_overshoots_terminal_by_one_step() {
    // From an even velocity the clamp guard lets one last step through:
    // -14 is above -15, so gravity still applies and leaves -16.
    let reg = Registry::new();
    let mut a = spawn();
    a.vy = -14;
    tick(&mut a, &reg, &no_input());
    assert_eq!(a.vy, -16);
}

#[test]
fn walk_right_moves_exactly_ten() {
    let reg = Registry::new();
    let mut a = spawn();
    let input = InputState { left: false, right: true, jump: false };
    tick(&mut a, &reg, &input);
    assert_eq!(a.x, 10);
}

#[test]
fn walk_left_moves_exactly_minus_ten() {
    let reg = Registry::new();
    let mut a = spawn();
    let input = InputState { left: true, right: false, jump: false };
    tick(&mut a, &reg, &input);
    assert_eq!(a.x, -10);
}

#[test]
fn opposing_directions_cancel() {
    let reg = Registry::new();
    let mut a = spawn();
    let input = InputState { left: true, right: true, jump: false };
    tick(&mut a, &reg, &input);
    assert_eq!(a.x, 0);
}

#[test]
fn jump_while_unsupported_does_nothing() {
    let reg = Registry::new();
    let mut a = spawn();
    let input = InputState { left: false, right: false, jump: true };
    tick(&mut a, &reg, &input);
    // Same outcome as a plain gravity tick.
    assert_eq!(a.vy, -3);
    assert_eq!(a.y, -253);
}

#[test]
fn jump_after_landing_launches_upward() {
    let reg = Registry::new();
    let mut a = spawn();
    a.support = Support::SupportedBy(0);
    a.vy = 0;
    let input = InputState { left: false, right: false, jump: true };
    tick(&mut a, &reg, &input);
    // Movement: vy = 30 and a +10 intent on y; gravity skips a supported
    // actor and adds vy onto y.
    assert_eq!(a.vy, 30);
    assert_eq!(a.y, -250 + 10 + 30);
}

#[test]
fn falling_actor_lands_on_the_bottom_wall() {
    let mut reg = Registry::new();
    let wall = reg.add_surface(0, -300, 400, 15, true);
    let mut a = spawn();
    let mut landed_at: Option<u32> = None;
    for step in 0..20u32 {
        tick(&mut a, &reg, &no_input());
        if a.support == Support::SupportedBy(wall) {
            landed_at = Some(step);
            break;
        }
    }
    assert!(landed_at.is_some());
    assert_eq!(a.vy, 0);
    // Standing overlap: the actor's bottom edge is inside the wall's box.
    assert!(a.y - 15 < -285 && a.y + 15 > -285);
}

#[test]
fn sticky_support_walking_off_an_edge() {
    // Land on a narrow floor, then walk right until clear of it: support is
    // kept, gravity stays off, and the actor hangs mid-air at constant y.
    let mut reg = Registry::new();
    let floor = reg.add_surface(0, -315, 20, 15, true);
    let mut a = Actor::new(0, -290, 15, 15, 0, -15);
    tick(&mut a, &reg, &no_input());
    assert_eq!(a.support, Support::SupportedBy(floor));
    assert_eq!(a.vy, 0);
    let y_after_landing = a.y;
    let input = InputState { left: false, right: true, jump: false };
    for _ in 0..10 {
        tick(&mut a, &reg, &input);
    }
    // Far past the floor's right edge, overlapping nothing.
    assert_eq!(a.x, 100);
    assert_eq!(a.support, Support::SupportedBy(floor));
    assert_eq!(a.vy, 0);
    assert_eq!(a.y, y_after_landing);
}
