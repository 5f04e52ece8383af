use vstd::prelude::*;

use crate::ball::Ball;
use crate::collision::boxes_overlap;
use crate::config::{displacement, travel, NANOS_PER_SEC, BALL_HEIGHT, BALL_WIDTH, PADDLE_HEIGHT, PADDLE_SPEED, PADDLE_WIDTH};
use crate::play::PlayState;

verus! {

/// Which of a paddle's two keys are held down.
#[derive(Clone, Copy, Debug, PartialEq, Eq, Structural)]
pub enum PaddleInput {
    Up,
    Down,
    UpDown,
    Idle,
}

impl PaddleInput {
    /// The state for the given key positions.
    pub open spec fn from_keys(up: bool, down: bool) -> PaddleInput {
        if up && down {
            PaddleInput::UpDown
        } else if up {
            PaddleInput::Up
        } else if down {
            PaddleInput::Down
        } else {
            PaddleInput::Idle
        }
    }

    /// Whether the up key is held.
    pub open spec fn up_held(self) -> bool {
        self is Up || self is UpDown
    }

    /// Whether the down key is held.
    pub open spec fn down_held(self) -> bool {
        self is Down || self is UpDown
    }

    /// Net vertical speed of a paddle with this input: both keys cancel.
    pub open spec fn speed(self) -> int {
        match self {
            PaddleInput::Up => PADDLE_SPEED as int,
            PaddleInput::Down => -PADDLE_SPEED,
            _ => 0,
        }
    }

    pub fn press_up(&mut self)
        ensures
            *final(self) == PaddleInput::from_keys(true, old(self).down_held()),
    {
        match self {
            PaddleInput::Down | PaddleInput::UpDown => *self = PaddleInput::UpDown,
            _ => *self = PaddleInput::Up,
        }
    }

    pub fn release_up(&mut self)
        ensures
            *final(self) == PaddleInput::from_keys(false, old(self).down_held()),
    {
        match self {
            PaddleInput::Down | PaddleInput::UpDown => *self = PaddleInput::Down,
            _ => *self = PaddleInput::Idle,
        }
    }

    pub fn press_down(&mut self)
        ensures
            *final(self) == PaddleInput::from_keys(old(self).up_held(), true),
    {
        match self {
            PaddleInput::Up | PaddleInput::UpDown => *self = PaddleInput::UpDown,
            _ => *self = PaddleInput::Down,
        }
    }

    pub fn release_down(&mut self)
        ensures
            *final(self) == PaddleInput::from_keys(old(self).up_held(), false),
    {
        match self {
            PaddleInput::Up | PaddleInput::UpDown => *self = PaddleInput::Up,
            _ => *self = PaddleInput::Idle,
        }
    }
}

/// Every state is the product of two independent keys, and pressing a key
/// that is not held and then releasing it gives back the state one started
/// from.
pub proof fn lemma_input_keys(i: PaddleInput)
    ensures
        i == PaddleInput::from_keys(i.up_held(), i.down_held()),
        !i.up_held() ==> PaddleInput::from_keys(false, PaddleInput::from_keys(true, i.down_held()).down_held()) == i,
        !i.down_held() ==> PaddleInput::from_keys(PaddleInput::from_keys(i.up_held(), true).up_held(), false) == i,
{
}

/// A paddle: the bottom-left corner and the keys held for it.
#[derive(Clone, Copy, Debug, PartialEq, Eq, Structural)]
pub struct Paddle {
    pub x: i64,
    pub y: i64,
    pub input: PaddleInput,
}

/// `target` moved into `[lower, upper]`: below `lower` it becomes `lower`,
/// otherwise above `upper` it becomes `upper`.
pub open spec fn clamp(target: int, lower: int, upper: int) -> int {
    if target < lower {
        lower
    } else if target > upper {
        upper
    } else {
        target
    }
}

impl Paddle {
    pub fn new(x: i64, y: i64) -> (r: Paddle)
        ensures
            r == (Paddle { x, y, input: PaddleInput::Idle }),
    {
        Paddle { x, y, input: PaddleInput::Idle }
    }

    pub fn x(&self) -> (r: i64)
        ensures
            r == self.x,
    {
        self.x
    }

    pub fn y(&self) -> (r: i64)
        ensures
            r == self.y,
    {
        self.y
    }

    pub fn set_y(&mut self, y: i64)
        ensures
            *final(self) == (Paddle { y, ..*old(self) }),
    {
        self.y = y;
    }

    /// Moves the paddle to `target` clamped into `[lower, upper]`.
    fn move_to(&mut self, target: i128, lower: i64, upper: i64)
        ensures
            *final(self) == (Paddle { y: clamp(target as int, lower as int, upper as int) as i64, ..*old(self) }),
    {
        let new_y: i64 = if target < lower as i128 {
            lower
        } else if target > upper as i128 {
            upper
        } else {
            target as i64
        };
        self.set_y(new_y);
    }

    /// Moves the paddle by `y_difference`, clamped into `[lower, upper]`.
    pub fn change_y(&mut self, y_difference: i64, lower: i64, upper: i64)
        ensures
            *final(self) == (Paddle {
                y: clamp(old(self).y + y_difference, lower as int, upper as int) as i64,
                ..*old(self)
            }),
    {
        let target: i128 = self.y as i128 + y_difference as i128;
        self.move_to(target, lower, upper);
    }

    pub fn input_mut(&mut self) -> (r: &mut PaddleInput)
        ensures
            *r == old(self).input,
            *final(self) == (Paddle { input: *final(r), ..*old(self) }),
    {
        &mut self.input
    }

    /// The paddle after one update of `dt` nanoseconds between `lower` and
    /// `upper`.
    pub open spec fn moved(self, dt: int, lower: int, upper: int) -> Paddle {
        Paddle {
            y: clamp(
                self.y + displacement(self.input.speed(), dt),
                lower,
                upper - PADDLE_HEIGHT,
            ) as i64,
            ..self
        }
    }

    /// Moves the paddle in the direction of its input for `dt` nanoseconds,
    /// keeping it inside `[lower, upper - PADDLE_HEIGHT]`, so that its top
    /// does not pass `upper`.
    pub fn update(&mut self, dt: u64, lower: i64, upper: i64)
        requires
            upper - PADDLE_HEIGHT >= i64::MIN,
        ensures
            *final(self) == old(self).moved(dt as int, lower as int, upper as int),
    {
        let top: i64 = upper - PADDLE_HEIGHT;
        let change: i128 = match self.input {
            PaddleInput::Up => travel(PADDLE_SPEED, dt),
            PaddleInput::Down => travel(-PADDLE_SPEED, dt),
            _ => 0,
        };
        self.move_to(self.y as i128 + change, lower, top);
    }

    pub fn is_colliding_with_ball(&self, ball: &Ball) -> (r: bool)
        ensures
            r == boxes_overlap(
                self.x as int,
                self.y as int,
                PADDLE_WIDTH as int,
                PADDLE_HEIGHT as int,
                ball.x as int,
                ball.y as int,
                BALL_WIDTH as int,
                BALL_HEIGHT as int,
            ),
    {
        PlayState::is_box_colliding_with_box(
            self.x(),
            self.y(),
            PADDLE_WIDTH,
            PADDLE_HEIGHT,
            ball.x,
            ball.y,
            BALL_WIDTH,
            BALL_HEIGHT,
        )
    }
}

impl Paddle {
    /// The paddle after `n` updates of `dt` nanoseconds each.
    pub open spec fn moved_times(self, dt: int, lower: int, upper: int, n: nat) -> Paddle
        decreases n,
    {
        if n == 0 {
            self
        } else {
            self.moved(dt, lower, upper).moved_times(dt, lower, upper, (n - 1) as nat)
        }
    }
}

proof fn lemma_held_paddle_path(p: Paddle, dt: int, lower: i64, upper: i64, n: nat)
    requires
        lower <= p.y <= upper - PADDLE_HEIGHT,
        dt >= 0,
    ensures
        p.moved_times(dt, lower as int, upper as int, n).input == p.input,
        p.input is Up ==> p.moved_times(dt, lower as int, upper as int, n).y
            == clamp(p.y + n * displacement(PADDLE_SPEED as int, dt), lower as int, upper - PADDLE_HEIGHT),
        p.input is Down ==> p.moved_times(dt, lower as int, upper as int, n).y
            == clamp(p.y - n * displacement(PADDLE_SPEED as int, dt), lower as int, upper - PADDLE_HEIGHT),
    decreases n,
{
    let d = displacement(PADDLE_SPEED as int, dt);
    assert(d >= 0) by (nonlinear_arith)
        requires d == PADDLE_SPEED * dt / (NANOS_PER_SEC as int), dt >= 0;
    if n > 0 {
        let q = p.moved(dt, lower as int, upper as int);
        lemma_held_paddle_path(q, dt, lower, upper, (n - 1) as nat);
        assert((n - 1) * d + d == n * d) by (nonlinear_arith);
        assert(0 <= (n - 1) * d) by (nonlinear_arith)
            requires n >= 1, d >= 0;
        if p.input is Down {
            assert(displacement(p.input.speed(), dt) == -d);
        }
    }
}

/// Holding up long enough leaves the paddle exactly at the top of its
/// range, `upper - PADDLE_HEIGHT`; holding down, exactly at `lower`.
pub proof fn lemma_held_paddle_stops_at_bound(p: Paddle, dt: int, lower: i64, upper: i64, n: nat)
    requires
        lower <= p.y <= upper - PADDLE_HEIGHT,
        dt >= 0,
    ensures
        p.input is Up && n * displacement(PADDLE_SPEED as int, dt) >= upper - PADDLE_HEIGHT - p.y
            ==> p.moved_times(dt, lower as int, upper as int, n).y == upper - PADDLE_HEIGHT,
        p.input is Down && n * displacement(PADDLE_SPEED as int, dt) >= p.y - lower
            ==> p.moved_times(dt, lower as int, upper as int, n).y == lower,
{
    lemma_held_paddle_path(p, dt, lower, upper, n);
}

} // verus!
