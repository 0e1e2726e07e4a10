//! The ball: its state, the rule by which one tick changes it, and the shape
//! it asks to have drawn.

use crate::fixed::{drift, drifted, in_range, rebound, rebounded};
use vstd::prelude::*;

verus! {

/// Width of the window, in millionths of a pixel.
pub const SCREEN_WIDTH: i64 = 640_000_000;

/// Height of the window, in millionths of a pixel.
pub const SCREEN_HEIGHT: i64 = 480_000_000;

/// Downward acceleration of a falling ball, in millionths of a pixel per
/// second squared.
pub const ACCELERATION_GRAVITY: i64 = 9_810_000;

/// Share of its speed that a ball keeps when a wall turns it around, in
/// millionths.
pub const BOUNCE_EFFICIENCY: u64 = 800_000;

/// An RGBA colour, each channel from 0 (none) to 255 (full).
#[derive(Clone, Copy, Debug, PartialEq, Eq)]
pub struct Colour {
    pub red: u8,
    pub green: u8,
    pub blue: u8,
    pub alpha: u8,
}

impl Colour {
    /// Opaque red, the colour of the ball.
    pub fn red() -> (colour: Colour)
        ensures
            colour == (Colour { red: 255, green: 0, blue: 0, alpha: 255 }),
    {
        Colour { red: 255, green: 0, blue: 0, alpha: 255 }
    }

    /// Opaque green, the colour of the background.
    pub fn green() -> (colour: Colour)
        ensures
            colour == (Colour { red: 0, green: 255, blue: 0, alpha: 255 }),
    {
        Colour { red: 0, green: 255, blue: 0, alpha: 255 }
    }
}

/// What governs a bounce and a fall.
#[derive(Clone, Copy, Debug, PartialEq, Eq)]
pub struct Physics {
    /// Share of its speed that the ball keeps at a wall, in millionths:
    /// 1 000 000 loses nothing.
    pub restitution: u64,
    /// Acceleration along the y axis, in millionths of a pixel per second
    /// squared.
    pub gravity: i64,
}

impl Physics {
    /// Walls that give back all speed, and no gravity.
    pub fn elastic() -> (rules: Physics)
        ensures
            rules == (Physics { restitution: 1_000_000, gravity: 0 }),
    {
        Physics { restitution: 1_000_000, gravity: 0 }
    }

    /// Walls that take a fifth of the speed, and gravity pulling down.
    pub fn lossy() -> (rules: Physics)
        ensures
            rules == (Physics {
                restitution: BOUNCE_EFFICIENCY,
                gravity: ACCELERATION_GRAVITY,
            }),
    {
        Physics { restitution: BOUNCE_EFFICIENCY, gravity: ACCELERATION_GRAVITY }
    }
}

/// The mathematical state of a ball. Positions are those of the top-left
/// corner of the square that bounds the ball; `radius` is the side of that
/// square; the y axis points down.
pub struct BallState {
    pub x: int,
    pub y: int,
    pub radius: int,
    pub x_speed: int,
    pub y_speed: int,
    pub colour: Colour,
}

impl BallState {
    /// Every quantity is in range and the ball has a size.
    pub open spec fn wf(self) -> bool {
        &&& in_range(self.x)
        &&& in_range(self.y)
        &&& in_range(self.x_speed)
        &&& in_range(self.y_speed)
        &&& in_range(self.radius)
        &&& self.radius > 0
    }

    /// The position has followed the velocity for `dt`; nothing else changed.
    pub open spec fn moved(self, dt: int) -> BallState {
        BallState {
            x: drifted(self.x, self.x_speed, dt),
            y: drifted(self.y, self.y_speed, dt),
            ..self
        }
    }

    /// The ball reaches the right wall with its far edge, or the left wall
    /// with its near edge. Touching counts.
    pub open spec fn at_side_wall(self) -> bool {
        self.x + self.radius >= SCREEN_WIDTH || self.x <= 0
    }

    /// The ball reaches the floor with its far edge, or the ceiling with its
    /// near edge. Touching counts.
    pub open spec fn at_floor_or_ceiling(self) -> bool {
        self.y + self.radius >= SCREEN_HEIGHT || self.y <= 0
    }

    /// Each axis on which the ball stands at a wall has its speed turned
    /// around; the position stays where it is.
    pub open spec fn bounced(self, rules: Physics) -> BallState {
        BallState {
            x_speed: if self.at_side_wall() {
                rebounded(self.x_speed, rules.restitution as int)
            } else {
                self.x_speed
            },
            y_speed: if self.at_floor_or_ceiling() {
                rebounded(self.y_speed, rules.restitution as int)
            } else {
                self.y_speed
            },
            ..self
        }
    }

    /// Gravity has acted on the vertical speed for `dt`.
    pub open spec fn pulled(self, rules: Physics, dt: int) -> BallState {
        BallState { y_speed: drifted(self.y_speed, rules.gravity as int, dt), ..self }
    }

    /// Whether `shape` is the drawing of this ball: the ellipse of the ball's
    /// colour inscribed in the square of side `radius` at the ball's position.
    pub open spec fn drawn_as(self, shape: Ellipse) -> bool {
        &&& shape.colour == self.colour
        &&& shape.x == self.x
        &&& shape.y == self.y
        &&& shape.width == self.radius
        &&& shape.height == self.radius
    }

    /// One tick of length `dt`: move with the speed the tick began with, then
    /// bounce where the new position stands at a wall, then let gravity act.
    pub open spec fn stepped(self, rules: Physics, dt: int) -> BallState {
        self.moved(dt).bounced(rules).pulled(rules, dt)
    }
}

/// A filled ellipse to draw: the one inscribed in the rectangle whose top-left
/// corner is (`x`, `y`).
#[derive(Clone, Copy, Debug, PartialEq, Eq)]
pub struct Ellipse {
    pub colour: Colour,
    pub x: i64,
    pub y: i64,
    pub width: i64,
    pub height: i64,
}

/// A ball in the window.
#[derive(Clone, Copy, Debug, PartialEq, Eq)]
pub struct Ball {
    colour: Colour,
    x: i64,
    y: i64,
    radius: i64,
    x_speed: i64,
    y_speed: i64,
}

impl View for Ball {
    type V = BallState;

    closed spec fn view(&self) -> BallState {
        BallState {
            x: self.x as int,
            y: self.y as int,
            radius: self.radius as int,
            x_speed: self.x_speed as int,
            y_speed: self.y_speed as int,
            colour: self.colour,
        }
    }
}

impl Ball {
    /// What holds of every ball that exists.
    #[verifier::type_invariant]
    pub open spec fn valid(self) -> bool {
        self@.wf()
    }

    /// A ball at rest with its corner at (`x`, `y`).
    pub fn new(x: i64, y: i64, radius: i64, colour: Colour) -> (ball: Ball)
        requires
            in_range(x as int),
            in_range(y as int),
            radius > 0,
        ensures
            ball@ == (BallState {
                x: x as int,
                y: y as int,
                radius: radius as int,
                x_speed: 0,
                y_speed: 0,
                colour,
            }),
    {
        Ball { colour, x, y, radius, x_speed: 0, y_speed: 0 }
    }

    /// The same ball, moving with the given velocity.
    pub fn with_velocity(self, x_speed: i64, y_speed: i64) -> (ball: Ball)
        requires
            in_range(x_speed as int),
            in_range(y_speed as int),
        ensures
            ball@ == (BallState { x_speed: x_speed as int, y_speed: y_speed as int, ..self@ }),
    {
        proof {
            use_type_invariant(&self);
        }
        Ball { x_speed, y_speed, ..self }
    }

    /// Horizontal position of the bounding square's top-left corner.
    pub fn x(&self) -> (x: i64)
        ensures
            x == self@.x,
    {
        self.x
    }

    /// Vertical position of the bounding square's top-left corner.
    pub fn y(&self) -> (y: i64)
        ensures
            y == self@.y,
    {
        self.y
    }

    /// Side of the bounding square.
    pub fn radius(&self) -> (radius: i64)
        ensures
            radius == self@.radius,
    {
        self.radius
    }

    /// Speed along the x axis, positive to the right.
    pub fn x_speed(&self) -> (x_speed: i64)
        ensures
            x_speed == self@.x_speed,
    {
        self.x_speed
    }

    /// Speed along the y axis, positive downward.
    pub fn y_speed(&self) -> (y_speed: i64)
        ensures
            y_speed == self@.y_speed,
    {
        self.y_speed
    }

    /// Colour in which the ball is drawn.
    pub fn colour(&self) -> (colour: Colour)
        ensures
            colour == self@.colour,
    {
        self.colour
    }

    /// Advances the ball by one tick of `dt` millionths of a second: the
    /// position moves with the velocity, the velocity is turned around on each
    /// axis on which the new position stands at a wall, and gravity acts.
    ///
    /// The new state depends on the old state, the rules and `dt` alone.
    pub fn update(&mut self, rules: &Physics, dt: u64)
        ensures
            final(self)@ == old(self)@.stepped(*rules, dt as int),
    {
        proof {
            use_type_invariant(&*self);
        }
        self.x = drift(self.x, self.x_speed, dt);
        self.y = drift(self.y, self.y_speed, dt);
        if self.x as i128 + self.radius as i128 >= SCREEN_WIDTH as i128 || self.x <= 0 {
            self.x_speed = rebound(self.x_speed, rules.restitution);
        }
        if self.y as i128 + self.radius as i128 >= SCREEN_HEIGHT as i128 || self.y <= 0 {
            self.y_speed = rebound(self.y_speed, rules.restitution);
        }
        self.y_speed = drift(self.y_speed, rules.gravity, dt);
    }

    /// The draw call for this ball. The ball itself is left as it is, so that
    /// rendering twice asks for the same ellipse twice.
    pub fn render(&self) -> (shape: Ellipse)
        ensures
            self@.drawn_as(shape),
    {
        Ellipse { colour: self.colour, x: self.x, y: self.y, width: self.radius, height: self.radius }
    }
}

} // verus!
