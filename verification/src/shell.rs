//! The application state between two events of the window's event loop: which
//! draw calls an event asks for, and what it does to the ball.

use crate::ball::{
    Ball, BallState, Colour, Ellipse, Physics, ACCELERATION_GRAVITY, BOUNCE_EFFICIENCY,
    SCREEN_HEIGHT, SCREEN_WIDTH,
};
use vstd::prelude::*;

verus! {

/// Side of the square that bounds the ball, in millionths of a pixel.
pub const BALL_RADIUS: i64 = 30_000_000;

/// Speed along each axis with which the ball sets out between elastic walls,
/// in millionths of a pixel per second.
pub const LAUNCH_SPEED: i64 = 40_000_000;

/// The two demonstrations.
#[derive(Clone, Copy, Debug, PartialEq, Eq)]
pub enum Variant {
    /// The ball sets out diagonally and bounces for ever: the walls give all
    /// speed back and nothing pulls it down.
    Elastic,
    /// The ball is dropped from rest, falls and loses speed at every bounce.
    Falling,
}

impl Variant {
    /// The rules of this demonstration.
    pub open spec fn rules(self) -> Physics {
        match self {
            Variant::Elastic => Physics { restitution: 1_000_000, gravity: 0 },
            Variant::Falling => Physics {
                restitution: BOUNCE_EFFICIENCY,
                gravity: ACCELERATION_GRAVITY,
            },
        }
    }

    /// The ball with which this demonstration starts: red, at the centre of
    /// the screen.
    pub open spec fn first_ball(self) -> BallState {
        BallState {
            x: SCREEN_WIDTH / 2,
            y: SCREEN_HEIGHT / 2,
            radius: BALL_RADIUS as int,
            x_speed: if self == Variant::Elastic {
                LAUNCH_SPEED as int
            } else {
                0
            },
            y_speed: if self == Variant::Elastic {
                LAUNCH_SPEED as int
            } else {
                0
            },
            colour: Colour { red: 255, green: 0, blue: 0, alpha: 255 },
        }
    }
}

/// One event of the loop: it may ask for a frame, report that time has
/// passed (in millionths of a second), or both.
#[derive(Clone, Copy, Debug, PartialEq, Eq)]
pub struct Tick {
    pub render: bool,
    pub update: Option<u64>,
}

/// The draw calls of one frame, in the order to make them: clear to
/// `background`, then fill `ball`.
#[derive(Clone, Copy, Debug, PartialEq, Eq)]
pub struct Frame {
    pub background: Colour,
    pub ball: Ellipse,
}

/// The one ball and the rules it moves by.
#[derive(Clone, Copy, Debug, PartialEq, Eq)]
pub struct App {
    pub ball: Ball,
    pub rules: Physics,
}

impl App {
    /// Whether `frame` shows this state: the ball on a green background.
    pub open spec fn shown_as(self, frame: Frame) -> bool {
        &&& frame.background == (Colour { red: 0, green: 255, blue: 0, alpha: 255 })
        &&& self.ball@.drawn_as(frame.ball)
    }

    /// The state in which a demonstration starts.
    pub fn new(variant: Variant) -> (app: App)
        ensures
            app.rules == variant.rules(),
            app.ball@ == variant.first_ball(),
    {
        let ball = Ball::new(SCREEN_WIDTH / 2, SCREEN_HEIGHT / 2, BALL_RADIUS, Colour::red());
        match variant {
            Variant::Elastic => App {
                ball: ball.with_velocity(LAUNCH_SPEED, LAUNCH_SPEED),
                rules: Physics::elastic(),
            },
            Variant::Falling => App { ball, rules: Physics::lossy() },
        }
    }

    /// The draw calls for the present state, which stays as it is.
    pub fn render(&self) -> (frame: Frame)
        ensures
            self.shown_as(frame),
    {
        Frame { background: Colour::green(), ball: self.ball.render() }
    }

    /// Lets `dt` millionths of a second pass.
    pub fn update(&mut self, dt: u64)
        ensures
            final(self).rules == old(self).rules,
            final(self).ball@ == old(self).ball@.stepped(old(self).rules, dt as int),
    {
        self.ball.update(&self.rules, dt);
    }

    /// Answers one event. A frame is drawn exactly when the event asks for
    /// one, and shows the state before the event's time has passed; the ball
    /// moves exactly when the event reports time.
    pub fn dispatch(&mut self, tick: &Tick) -> (frame: Option<Frame>)
        ensures
            frame.is_some() == tick.render,
            frame matches Some(f) ==> old(self).shown_as(f),
            final(self).rules == old(self).rules,
            final(self).ball@ == (match tick.update {
                Some(dt) => old(self).ball@.stepped(old(self).rules, dt as int),
                None => old(self).ball@,
            }),
    {
        let frame = if tick.render {
            Some(self.render())
        } else {
            None
        };
        if let Some(dt) = tick.update {
            self.update(dt);
        }
        frame
    }
}

} // verus!
