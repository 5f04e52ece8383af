use vstd::prelude::*;

use crate::config::{
    travel, displacement, BALL_HEIGHT, START_BALL_VELOCITY, WINDOW_HEIGHT, WINDOW_WIDTH,
};

verus! {

/// The ball: position of its bottom-left corner and velocity.
#[derive(Clone, Copy, Debug, PartialEq, Eq, Structural)]
pub struct Ball {
    pub x: i64,
    pub x_velocity: i64,
    pub y: i64,
    pub y_velocity: i64,
}

impl Ball {
    /// Horizontal position after moving for `dt` nanoseconds.
    pub open spec fn moved_x(self, dt: int) -> int {
        self.x + displacement(self.x_velocity as int, dt)
    }

    /// Vertical position after moving for `dt` nanoseconds, before any
    /// reflection.
    pub open spec fn raw_y(self, dt: int) -> int {
        self.y + displacement(self.y_velocity as int, dt)
    }

    /// Whether moving for `dt` nanoseconds takes the ball outside
    /// `[lower, upper - BALL_HEIGHT]`, so that it bounces off a wall.
    pub open spec fn hits_wall(self, dt: int, lower: int, upper: int) -> bool {
        self.raw_y(dt) < lower || self.raw_y(dt) > upper - BALL_HEIGHT
    }

    /// Vertical position after moving for `dt` nanoseconds and reflecting
    /// off the walls `lower` and `upper - BALL_HEIGHT`.
    pub open spec fn moved_y(self, dt: int, lower: int, upper: int) -> int {
        let raw = self.raw_y(dt);
        let top = upper - BALL_HEIGHT;
        if raw < lower {
            -(raw - lower)
        } else if raw > top {
            top - (raw - top)
        } else {
            raw
        }
    }

    /// The ball after one update of `dt` nanoseconds between `lower` and
    /// `upper`.
    pub open spec fn moved(self, dt: int, lower: int, upper: int) -> Ball {
        Ball {
            x: self.moved_x(dt) as i64,
            x_velocity: self.x_velocity,
            y: self.moved_y(dt, lower, upper) as i64,
            y_velocity: if self.hits_wall(dt, lower, upper) {
                -self.y_velocity
            } else {
                self.y_velocity as int
            } as i64,
        }
    }

    /// Whether an update of `dt` nanoseconds between `lower` and `upper`
    /// has a representable result.
    pub open spec fn can_move(self, dt: int, lower: int, upper: int) -> bool {
        &&& i64::MIN <= self.moved_x(dt) <= i64::MAX
        &&& i64::MIN <= self.moved_y(dt, lower, upper) <= i64::MAX
        &&& self.y_velocity > i64::MIN
    }

    /// The ball as it is served: in the middle of the window, moving right
    /// at the start speed, with the given vertical velocity.
    pub open spec fn served(y_velocity: int) -> Ball {
        Ball {
            x: (WINDOW_WIDTH / 2) as i64,
            x_velocity: START_BALL_VELOCITY,
            y: (WINDOW_HEIGHT / 2) as i64,
            y_velocity: y_velocity as i64,
        }
    }

    /// A ball in the middle of the window, moving right at the start speed
    /// and vertically at `y_velocity`.
    pub fn serve(y_velocity: i64) -> (r: Ball)
        ensures
            r == Ball::served(y_velocity as int),
    {
        Ball {
            x: WINDOW_WIDTH / 2,
            x_velocity: START_BALL_VELOCITY,
            y: WINDOW_HEIGHT / 2,
            y_velocity,
        }
    }

    /// Moves the ball by its velocity for `dt` nanoseconds and bounces it
    /// off the walls at `lower` and `upper`: the ball's top may not pass
    /// `upper`, so the upper wall stands at `upper - BALL_HEIGHT`. A bounce
    /// reverses the vertical velocity and reflects the overshoot back inside.
    pub fn update(&mut self, dt: u64, lower: i64, upper: i64)
        requires
            old(self).can_move(dt as int, lower as int, upper as int),
        ensures
            *final(self) == old(self).moved(dt as int, lower as int, upper as int),
    {
        let dx: i128 = travel(self.x_velocity, dt);
        let dy: i128 = travel(self.y_velocity, dt);
        self.x = (self.x as i128 + dx) as i64;
        let raw: i128 = self.y as i128 + dy;
        let top: i128 = upper as i128 - BALL_HEIGHT as i128;
        if raw < lower as i128 {
            self.y_velocity = -self.y_velocity;
            self.y = (-(raw - lower as i128)) as i64;
        } else if raw > top {
            self.y_velocity = -self.y_velocity;
            self.y = (top - (raw - top)) as i64;
        } else {
            self.y = raw as i64;
        }
    }
}

/// A bounce off a wall keeps the magnitude of the vertical velocity and
/// flips its sign.
pub proof fn lemma_wall_bounce_keeps_speed(ball: Ball, dt: int, lower: int, upper: int)
    requires
        ball.can_move(dt, lower, upper),
        ball.hits_wall(dt, lower, upper),
    ensures
        ball.moved(dt, lower, upper).y_velocity == -ball.y_velocity,
        ball.y_velocity < 0 ==> ball.moved(dt, lower, upper).y_velocity > 0,
        ball.y_velocity > 0 ==> ball.moved(dt, lower, upper).y_velocity < 0,
{
}

} // verus!
