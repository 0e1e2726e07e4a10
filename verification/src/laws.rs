//! What holds of every tick, whatever the state it starts from.

use crate::ball::{BallState, Ellipse, Physics, SCREEN_WIDTH};
use crate::fixed::{
    clamp, in_range, lemma_rebounded_in_range, lemma_scaled_zero, rebounded, scaled, SCALE,
};
use crate::shell::{App, Frame};
use vstd::prelude::*;

verus! {

/// A tick is a function: equal states under equal rules and equal time spans
/// end in equal states.
pub proof fn lemma_step_is_deterministic(
    a: BallState,
    b: BallState,
    rules_a: Physics,
    rules_b: Physics,
    dt_a: int,
    dt_b: int,
)
    requires
        a == b,
        rules_a == rules_b,
        dt_a == dt_b,
    ensures
        a.stepped(rules_a, dt_a) == b.stepped(rules_b, dt_b),
{
}

/// A tick keeps a valid ball valid, and never changes its size or colour.
pub proof fn lemma_step_keeps_ball(s: BallState, rules: Physics, dt: int)
    requires
        s.wf(),
    ensures
        s.stepped(rules, dt).wf(),
        s.stepped(rules, dt).radius == s.radius,
        s.stepped(rules, dt).colour == s.colour,
{
}

/// When the moved ball reaches the right wall, its horizontal speed is turned
/// around and scaled by the restitution: exactly negated by elastic walls.
/// Neither the vertical speed nor gravity has a part in it.
pub proof fn lemma_right_wall_reflects(s: BallState, rules: Physics, dt: int)
    requires
        s.wf(),
        s.moved(dt).x + s.radius >= SCREEN_WIDTH,
    ensures
        s.stepped(rules, dt).x_speed == rebounded(s.x_speed, rules.restitution as int),
        rules.restitution <= SCALE ==> s.stepped(rules, dt).x_speed == -scaled(
            s.x_speed,
            rules.restitution as int,
        ),
        rules.restitution == SCALE ==> s.stepped(rules, dt).x_speed == -s.x_speed,
{
    if rules.restitution <= SCALE {
        lemma_rebounded_in_range(s.x_speed, rules.restitution as int);
    }
}

/// The left wall counts as reached as soon as the moved ball stands at zero,
/// not only beyond it: there too the horizontal speed is turned around, even
/// when that speed is nothing.
pub proof fn lemma_left_wall_reflects(s: BallState, rules: Physics, dt: int)
    requires
        s.wf(),
        s.moved(dt).x <= 0,
    ensures
        s.stepped(rules, dt).x_speed == rebounded(s.x_speed, rules.restitution as int),
        rules.restitution <= SCALE ==> s.stepped(rules, dt).x_speed == -scaled(
            s.x_speed,
            rules.restitution as int,
        ),
        rules.restitution == SCALE ==> s.stepped(rules, dt).x_speed == -s.x_speed,
        s.x_speed == 0 ==> s.stepped(rules, dt).x_speed == 0,
{
    if rules.restitution <= SCALE {
        lemma_rebounded_in_range(s.x_speed, rules.restitution as int);
    }
    lemma_scaled_zero(rules.restitution as int);
}

/// Away from both side walls the horizontal speed is left alone.
pub proof fn lemma_clear_of_side_walls(s: BallState, rules: Physics, dt: int)
    requires
        !s.moved(dt).at_side_wall(),
    ensures
        s.stepped(rules, dt).x_speed == s.x_speed,
{
}

/// What a tick does along the x axis depends on the x axis alone: two balls
/// that agree on it, under rules with the same restitution, still agree on it
/// afterwards, however they differ in height, in vertical speed or in gravity.
pub proof fn lemma_horizontal_motion_stands_alone(
    a: BallState,
    b: BallState,
    rules_a: Physics,
    rules_b: Physics,
    dt: int,
)
    requires
        a.x == b.x,
        a.x_speed == b.x_speed,
        a.radius == b.radius,
        rules_a.restitution == rules_b.restitution,
    ensures
        a.stepped(rules_a, dt).x == b.stepped(rules_b, dt).x,
        a.stepped(rules_a, dt).x_speed == b.stepped(rules_b, dt).x_speed,
{
}

/// On a tick that brings the ball to neither floor nor ceiling, the vertical
/// speed gains gravity times the time span, and nothing else: exactly so
/// whenever the sum is in range. The side walls have no part in it.
pub proof fn lemma_fall_gains_gravity(s: BallState, rules: Physics, dt: int)
    requires
        !s.moved(dt).at_floor_or_ceiling(),
    ensures
        s.stepped(rules, dt).y_speed == clamp(s.y_speed + scaled(rules.gravity as int, dt)),
        in_range(s.y_speed + scaled(rules.gravity as int, dt)) ==> s.stepped(rules, dt).y_speed
            == s.y_speed + scaled(rules.gravity as int, dt),
{
}

/// Without gravity, a valid ball that meets no wall keeps its velocity.
pub proof fn lemma_free_flight_keeps_velocity(s: BallState, rules: Physics, dt: int)
    requires
        s.wf(),
        rules.gravity == 0,
        !s.moved(dt).at_side_wall(),
        !s.moved(dt).at_floor_or_ceiling(),
    ensures
        s.stepped(rules, dt).x_speed == s.x_speed,
        s.stepped(rules, dt).y_speed == s.y_speed,
{
    lemma_scaled_zero(dt);
}

/// The position after a tick is the old position moved by the old velocity;
/// what the tick does to the velocity shows only in the next one.
pub proof fn lemma_position_follows_old_velocity(s: BallState, rules: Physics, dt: int)
    ensures
        s.stepped(rules, dt).x == clamp(s.x + scaled(s.x_speed, dt)),
        s.stepped(rules, dt).y == clamp(s.y + scaled(s.y_speed, dt)),
{
}

/// A ball has one drawing: two renderings of the same state ask for the same
/// ellipse.
pub proof fn lemma_drawing_is_unique(s: BallState, first: Ellipse, second: Ellipse)
    requires
        s.drawn_as(first),
        s.drawn_as(second),
    ensures
        first == second,
{
}

/// An application state has one frame: two renderings of it make the same
/// draw calls.
pub proof fn lemma_frame_is_unique(app: App, first: Frame, second: Frame)
    requires
        app.shown_as(first),
        app.shown_as(second),
    ensures
        first == second,
{
}

} // verus!
