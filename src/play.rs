use vstd::prelude::*;
use vstd::arithmetic::power::pow;

use rand::rngs::StdRng;

use crate::ball::Ball;
use crate::collision::boxes_overlap;
use crate::config::{
    lemma_displacement_bound,
    BALL_HEIGHT, BALL_WIDTH, BOUNCE_DENOMINATOR, BOUNCE_NUMERATOR, LEFT_PADDLE_X, MAX_BALL_SPEED,
    MAX_TICK, PADDLE_HEIGHT, PADDLE_WIDTH, RIGHT_PADDLE_X, SCORE_COUNTDOWN, START_BALL_VELOCITY,
    WINDOW_HEIGHT, WINDOW_WIDTH,
};
use crate::countdown::CountdownState;
use crate::game_state::GameState;
use crate::paddle::{Paddle, PaddleInput};
use crate::random::draw_in_range;

verus! {

/// The two sides: player one plays on the left, player two on the right.
#[derive(Clone, Copy, Debug, PartialEq, Eq, Structural)]
pub enum PlayerId {
    One,
    Two,
}

#[derive(Clone, Copy, Debug, PartialEq, Eq, Structural)]
pub struct Player {
    pub paddle: Paddle,
    pub score: u32,
    pub id: PlayerId,
}

/// The four keys that the game listens to.
#[derive(Clone, Copy, Debug, PartialEq, Eq, Structural)]
pub enum Control {
    PlayerOneUp,
    PlayerOneDown,
    PlayerTwoUp,
    PlayerTwoDown,
}

impl Control {
    pub open spec fn player(self) -> PlayerId {
        match self {
            Control::PlayerOneUp | Control::PlayerOneDown => PlayerId::One,
            _ => PlayerId::Two,
        }
    }

    pub open spec fn is_up(self) -> bool {
        self is PlayerOneUp || self is PlayerTwoUp
    }
}

/// `input` with the key of `control` now held (`held`) or released.
pub open spec fn keyed_input(input: PaddleInput, control: Control, held: bool) -> PaddleInput {
    if control.is_up() {
        PaddleInput::from_keys(held, input.down_held())
    } else {
        PaddleInput::from_keys(input.up_held(), held)
    }
}

/// Horizontal speed after a paddle bounce off a ball of horizontal speed
/// `speed`: eleven tenths of it, rounded down, and at most `MAX_BALL_SPEED`.
pub open spec fn bounced_speed(speed: int) -> int {
    if speed * BOUNCE_NUMERATOR / (BOUNCE_DENOMINATOR as int) > MAX_BALL_SPEED {
        MAX_BALL_SPEED as int
    } else {
        speed * BOUNCE_NUMERATOR / (BOUNCE_DENOMINATOR as int)
    }
}

/// Horizontal velocity after a paddle bounce: reversed and sped up.
pub open spec fn bounced_velocity(v: int) -> int {
    if v >= 0 {
        -bounced_speed(v)
    } else {
        bounced_speed(-v)
    }
}

/// Horizontal speed after `n` paddle bounces of a ball served at the
/// start speed.
pub open spec fn rally_speed(n: nat) -> int
    decreases n,
{
    if n == 0 {
        START_BALL_VELOCITY as int
    } else {
        bounced_speed(rally_speed((n - 1) as nat))
    }
}

/// `ball` after meeting `paddle`: on contact its horizontal velocity is
/// bounced and its vertical velocity becomes `y_velocity`.
pub open spec fn collided(paddle: Paddle, ball: Ball, y_velocity: int) -> Ball {
    if boxes_overlap(
        paddle.x as int,
        paddle.y as int,
        PADDLE_WIDTH as int,
        PADDLE_HEIGHT as int,
        ball.x as int,
        ball.y as int,
        BALL_WIDTH as int,
        BALL_HEIGHT as int,
    ) {
        Ball {
            x_velocity: bounced_velocity(ball.x_velocity as int) as i64,
            y_velocity: y_velocity as i64,
            ..ball
        }
    } else {
        ball
    }
}

/// A round in play: both players and the ball.
pub struct PlayState {
    pub player_one: Player,
    pub player_two: Player,
    pub ball: Ball,
}

impl PlayState {
    /// Paddles stand on their own sides inside the window, the ball lies
    /// within the window's height and near it horizontally, and its speeds
    /// are within their bounds.
    pub open spec fn wf(self) -> bool {
        &&& self.player_one.paddle.x == LEFT_PADDLE_X
        &&& self.player_two.paddle.x == RIGHT_PADDLE_X
        &&& 0 <= self.player_one.paddle.y <= WINDOW_HEIGHT - PADDLE_HEIGHT
        &&& 0 <= self.player_two.paddle.y <= WINDOW_HEIGHT - PADDLE_HEIGHT
        &&& -WINDOW_WIDTH <= self.ball.x <= 2 * WINDOW_WIDTH
        &&& 0 <= self.ball.y <= WINDOW_HEIGHT - BALL_HEIGHT
        &&& -MAX_BALL_SPEED <= self.ball.x_velocity <= MAX_BALL_SPEED
        &&& -START_BALL_VELOCITY <= self.ball.y_velocity <= START_BALL_VELOCITY
    }

    /// A new round: paddles at mid height with scores of zero, and the ball
    /// served with vertical velocity `y_velocity`.
    pub open spec fn fresh(y_velocity: int) -> PlayState {
        PlayState {
            player_one: Player {
                paddle: Paddle { x: LEFT_PADDLE_X, y: (WINDOW_HEIGHT / 2) as i64, input: PaddleInput::Idle },
                score: 0,
                id: PlayerId::One,
            },
            player_two: Player {
                paddle: Paddle { x: RIGHT_PADDLE_X, y: (WINDOW_HEIGHT / 2) as i64, input: PaddleInput::Idle },
                score: 0,
                id: PlayerId::Two,
            },
            ball: Ball::served(y_velocity),
        }
    }

    /// The round after paddles and ball have moved for `dt` nanoseconds,
    /// each paddle in turn bouncing the ball with new vertical velocity
    /// `y_velocity`, before any point is counted.
    pub open spec fn advanced(self, dt: int, y_velocity: int) -> PlayState {
        let one = self.player_one.paddle.moved(dt, 0, WINDOW_HEIGHT as int);
        let ball1 = collided(one, self.ball, y_velocity);
        let two = self.player_two.paddle.moved(dt, 0, WINDOW_HEIGHT as int);
        let ball2 = collided(two, ball1, y_velocity);
        PlayState {
            player_one: Player { paddle: one, ..self.player_one },
            player_two: Player { paddle: two, ..self.player_two },
            ball: ball2.moved(dt, 0, WINDOW_HEIGHT as int),
        }
    }

    /// The round after `scorer` won a point: the score goes up by one
    /// (staying at `u32::MAX` there) and the ball is served again with
    /// vertical velocity `y_velocity`.
    pub open spec fn after_point(self, scorer: PlayerId, y_velocity: int) -> PlayState {
        let bump = |p: Player| Player {
            score: if p.score < u32::MAX { (p.score + 1) as u32 } else { p.score },
            ..p
        };
        PlayState {
            player_one: if scorer is One { bump(self.player_one) } else { self.player_one },
            player_two: if scorer is Two { bump(self.player_two) } else { self.player_two },
            ball: Ball::served(y_velocity),
        }
    }

    /// A three-second pause that then resumes `next`.
    pub open spec fn pause_before(next: PlayState) -> GameState {
        GameState::Countdown(
            CountdownState { duration: SCORE_COUNTDOWN, next: Box::new(GameState::Play(next)) },
        )
    }

    /// The state after one tick of `dt` nanoseconds, with `bounce_y_velocity`
    /// the vertical velocity a paddle gives the ball and `serve_y_velocity`
    /// that of a ball served after a point. A ball whose left edge is at or
    /// past `-BALL_WIDTH` wins the point for player two; one at or past
    /// the right border wins it for player one.
    pub open spec fn stepped(self, dt: int, bounce_y_velocity: int, serve_y_velocity: int) -> GameState {
        let s = self.advanced(dt, bounce_y_velocity);
        if s.ball.x <= -BALL_WIDTH {
            PlayState::pause_before(s.after_point(PlayerId::Two, serve_y_velocity))
        } else if s.ball.x >= WINDOW_WIDTH {
            PlayState::pause_before(s.after_point(PlayerId::One, serve_y_velocity))
        } else {
            GameState::Play(s)
        }
    }

    /// The round after the key of `control` went down (`held`) or up.
    pub open spec fn keyed(self, control: Control, held: bool) -> PlayState {
        if control.player() is One {
            PlayState {
                player_one: Player {
                    paddle: Paddle {
                        input: keyed_input(self.player_one.paddle.input, control, held),
                        ..self.player_one.paddle
                    },
                    ..self.player_one
                },
                ..self
            }
        } else {
            PlayState {
                player_two: Player {
                    paddle: Paddle {
                        input: keyed_input(self.player_two.paddle.input, control, held),
                        ..self.player_two.paddle
                    },
                    ..self.player_two
                },
                ..self
            }
        }
    }

    /// A new round whose ball is served with vertical velocity `y_velocity`.
    pub fn starting(y_velocity: i64) -> (r: PlayState)
        requires
            -START_BALL_VELOCITY <= y_velocity < START_BALL_VELOCITY,
        ensures
            r == PlayState::fresh(y_velocity as int),
            r.wf(),
    {
        PlayState {
            player_one: Player {
                paddle: Paddle::new(LEFT_PADDLE_X, WINDOW_HEIGHT / 2),
                score: 0,
                id: PlayerId::One,
            },
            player_two: Player {
                paddle: Paddle::new(RIGHT_PADDLE_X, WINDOW_HEIGHT / 2),
                score: 0,
                id: PlayerId::Two,
            },
            ball: Ball::serve(y_velocity),
        }
    }

    /// A new round whose ball gets a vertical velocity drawn from `rng`.
    pub fn new(rng: &mut StdRng) -> (r: PlayState)
        ensures
            -START_BALL_VELOCITY <= r.ball.y_velocity < START_BALL_VELOCITY,
            r == PlayState::fresh(r.ball.y_velocity as int),
            r.wf(),
    {
        let y_velocity = draw_in_range(rng, -START_BALL_VELOCITY, START_BALL_VELOCITY);
        PlayState::starting(y_velocity)
    }

    /// Bounces the ball off `paddle` if the two touch.
    fn check_ball_paddle_collide(paddle: &Paddle, ball: &mut Ball, y_velocity: i64)
        requires
            -MAX_BALL_SPEED <= old(ball).x_velocity <= MAX_BALL_SPEED,
        ensures
            *final(ball) == collided(*paddle, *old(ball), y_velocity as int),
    {
        if !paddle.is_colliding_with_ball(ball) {
            return;
        }
        let speed: i64 = if ball.x_velocity >= 0 {
            ball.x_velocity
        } else {
            -ball.x_velocity
        };
        let faster: i64 = speed * BOUNCE_NUMERATOR / BOUNCE_DENOMINATOR;
        let capped: i64 = if faster > MAX_BALL_SPEED {
            MAX_BALL_SPEED
        } else {
            faster
        };
        ball.x_velocity = if ball.x_velocity >= 0 {
            -capped
        } else {
            capped
        };
        ball.y_velocity = y_velocity;
    }

    /// The round after `player` won a point, paused for three seconds.
    fn scored(self, player: PlayerId, y_velocity: i64) -> (r: GameState)
        ensures
            r == PlayState::pause_before(self.after_point(player, y_velocity as int)),
    {
        let mut s = self;
        s.ball = Ball::serve(y_velocity);
        match player {
            PlayerId::One => s.player_one.score = s.player_one.score.saturating_add(1),
            PlayerId::Two => s.player_two.score = s.player_two.score.saturating_add(1),
        }
        GameState::Countdown(CountdownState::new(SCORE_COUNTDOWN, GameState::Play(s)))
    }

    /// Counts a point if the ball has left the field, else plays on.
    fn check_ball_scored(self, y_velocity: i64) -> (r: GameState)
        ensures
            r == (if self.ball.x <= -BALL_WIDTH {
                PlayState::pause_before(self.after_point(PlayerId::Two, y_velocity as int))
            } else if self.ball.x >= WINDOW_WIDTH {
                PlayState::pause_before(self.after_point(PlayerId::One, y_velocity as int))
            } else {
                GameState::Play(self)
            }),
    {
        if self.ball.x <= -BALL_WIDTH {
            self.scored(PlayerId::Two, y_velocity)
        } else if self.ball.x >= WINDOW_WIDTH {
            self.scored(PlayerId::One, y_velocity)
        } else {
            GameState::Play(self)
        }
    }

    /// One tick of `dt` nanoseconds with the given vertical velocities for
    /// a paddle bounce and for a serve after a point.
    pub fn step(self, dt: u64, bounce_y_velocity: i64, serve_y_velocity: i64) -> (r: GameState)
        requires
            self.wf(),
            dt <= MAX_TICK,
            -START_BALL_VELOCITY <= bounce_y_velocity < START_BALL_VELOCITY,
            -START_BALL_VELOCITY <= serve_y_velocity < START_BALL_VELOCITY,
        ensures
            r == self.stepped(dt as int, bounce_y_velocity as int, serve_y_velocity as int),
            r.wf(),
    {
        let ghost old_self = self;
        let mut s = self;
        s.player_one.paddle.update(dt, 0, WINDOW_HEIGHT);
        PlayState::check_ball_paddle_collide(&s.player_one.paddle, &mut s.ball, bounce_y_velocity);
        s.player_two.paddle.update(dt, 0, WINDOW_HEIGHT);
        PlayState::check_ball_paddle_collide(&s.player_two.paddle, &mut s.ball, bounce_y_velocity);
        proof {
            lemma_tick_in_field(s.ball, dt as int);
        }
        s.ball.update(dt, 0, WINDOW_HEIGHT);
        assert(s == old_self.advanced(dt as int, bounce_y_velocity as int));
        let ghost advanced = s;
        let r = s.check_ball_scored(serve_y_velocity);
        proof {
            let one = advanced.after_point(PlayerId::One, serve_y_velocity as int);
            let two = advanced.after_point(PlayerId::Two, serve_y_velocity as int);
            assert(GameState::Play(one).wf());
            assert(GameState::Play(two).wf());
            if -BALL_WIDTH < advanced.ball.x < WINDOW_WIDTH {
                assert(GameState::Play(advanced).wf());
            }
        }
        r
    }

    /// One tick of `dt` nanoseconds, drawing from `rng` the vertical
    /// velocities that a paddle bounce or a serve may need.
    pub fn update(self, dt: u64, rng: &mut StdRng) -> (r: GameState)
        requires
            self.wf(),
            dt <= MAX_TICK,
        ensures
            r.wf(),
            exists|b: int, s: int|
                -START_BALL_VELOCITY <= b < START_BALL_VELOCITY
                    && -START_BALL_VELOCITY <= s < START_BALL_VELOCITY
                    && #[trigger] self.stepped(dt as int, b, s) == r,
    {
        let bounce = draw_in_range(rng, -START_BALL_VELOCITY, START_BALL_VELOCITY);
        let serve = draw_in_range(rng, -START_BALL_VELOCITY, START_BALL_VELOCITY);
        let r = self.step(dt, bounce, serve);
        assert(self.stepped(dt as int, bounce as int, serve as int) == r);
        r
    }

    pub fn button_press(&mut self, control: Control)
        ensures
            *final(self) == old(self).keyed(control, true),
    {
        match control {
            Control::PlayerOneUp => self.player_one.paddle.input_mut().press_up(),
            Control::PlayerOneDown => self.player_one.paddle.input_mut().press_down(),
            Control::PlayerTwoUp => self.player_two.paddle.input_mut().press_up(),
            Control::PlayerTwoDown => self.player_two.paddle.input_mut().press_down(),
        }
    }

    pub fn button_release(&mut self, control: Control)
        ensures
            *final(self) == old(self).keyed(control, false),
    {
        match control {
            Control::PlayerOneUp => self.player_one.paddle.input_mut().release_up(),
            Control::PlayerOneDown => self.player_one.paddle.input_mut().release_down(),
            Control::PlayerTwoUp => self.player_two.paddle.input_mut().release_up(),
            Control::PlayerTwoDown => self.player_two.paddle.input_mut().release_down(),
        }
    }

    /// Whether two boxes, each given by its bottom-left corner, width and
    /// height, overlap; touching edges count.
    pub fn is_box_colliding_with_box(
        b1x: i64,
        b1y: i64,
        b1w: i64,
        b1h: i64,
        b2x: i64,
        b2y: i64,
        b2w: i64,
        b2h: i64,
    ) -> (r: bool)
        ensures
            r == boxes_overlap(
                b1x as int,
                b1y as int,
                b1w as int,
                b1h as int,
                b2x as int,
                b2y as int,
                b2w as int,
                b2h as int,
            ),
    {
        let (ax, ay, aw, ah) = (b1x as i128, b1y as i128, b1w as i128, b1h as i128);
        let (bx, by, bw, bh) = (b2x as i128, b2y as i128, b2w as i128, b2h as i128);
        ax <= bx + bw && ax + aw >= bx && ay <= by + bh && ay + ah >= by
    }
}

/// After a tick that ends in a point, the round held by the pause has the
/// ball back in the middle of the window, moving right at exactly the start
/// speed, whatever its speed was before.
pub proof fn lemma_point_serves_from_center(s: PlayState, dt: int, b: int, v: int)
    requires
        s.stepped(dt, b, v) is Countdown,
    ensures
        match s.stepped(dt, b, v) {
            GameState::Countdown(c) => c.duration == SCORE_COUNTDOWN && match *c.next {
                GameState::Play(p) => p.ball.x == WINDOW_WIDTH / 2 && p.ball.y == WINDOW_HEIGHT / 2
                    && p.ball.x_velocity == START_BALL_VELOCITY,
                _ => false,
            },
            _ => false,
        },
{
}

/// A ball that lies a full ball width past the left border and moves left
/// wins player two exactly one point at the next tick, and player one's
/// score stays as it was.
pub proof fn lemma_ball_past_left_border_scores(s: PlayState, dt: int, b: int, v: int)
    requires
        s.wf(),
        0 <= dt <= MAX_TICK,
        s.ball.x == -BALL_WIDTH,
        s.ball.x_velocity < 0,
        s.player_two.score < u32::MAX,
    ensures
        match s.stepped(dt, b, v) {
            GameState::Countdown(c) => match *c.next {
                GameState::Play(p) => p.player_two.score == s.player_two.score + 1
                    && p.player_one.score == s.player_one.score,
                _ => false,
            },
            _ => false,
        },
{
    lemma_displacement_bound(s.ball.x_velocity as int, dt, MAX_BALL_SPEED as int);
}

/// A paddle bounce reverses the horizontal velocity and takes its
/// magnitude from `speed` to `bounced_speed(speed)`.
pub proof fn lemma_bounce_reverses(v: int)
    requires
        v != 0,
        -MAX_BALL_SPEED <= v <= MAX_BALL_SPEED,
    ensures
        v > 0 ==> bounced_velocity(v) == -bounced_speed(v) && bounced_velocity(v) < 0,
        v < 0 ==> bounced_velocity(v) == bounced_speed(-v) && bounced_velocity(v) > 0,
{
}

/// The bounce multiplier compounds: after `n` paddle bounces of a served
/// ball the horizontal speed is exactly `START_BALL_VELOCITY * 11^n / 10^n`,
/// for the first eleven bounces, where this quotient is a whole number.
pub proof fn lemma_rally_speed(n: nat)
    requires
        n <= 11,
    ensures
        rally_speed(n) * pow(10, n) == START_BALL_VELOCITY * pow(11, n),
{
    reveal(pow);
    assert(rally_speed(0) == 200000000000int && pow(10, 0) == 1int && pow(11, 0) == 1int);
    assert(rally_speed(1) == 220000000000int && pow(10, 1) == 10int && pow(11, 1) == 11int);
    assert(rally_speed(2) == 242000000000int && pow(10, 2) == 100int && pow(11, 2) == 121int);
    assert(rally_speed(3) == 266200000000int && pow(10, 3) == 1000int && pow(11, 3) == 1331int);
    assert(rally_speed(4) == 292820000000int && pow(10, 4) == 10000int && pow(11, 4) == 14641int);
    assert(rally_speed(5) == 322102000000int && pow(10, 5) == 100000int && pow(11, 5) == 161051int);
    assert(rally_speed(6) == 354312200000int && pow(10, 6) == 1000000int && pow(11, 6) == 1771561int);
    assert(rally_speed(7) == 389743420000int && pow(10, 7) == 10000000int && pow(11, 7) == 19487171int);
    assert(rally_speed(8) == 428717762000int && pow(10, 8) == 100000000int && pow(11, 8) == 214358881int);
    assert(rally_speed(9) == 471589538200int && pow(10, 9) == 1000000000int && pow(11, 9) == 2357947691int);
    assert(rally_speed(10) == 518748492020int && pow(10, 10) == 10000000000int && pow(11, 10) == 25937424601int);
    assert(rally_speed(11) == 570623341222int && pow(10, 11) == 100000000000int && pow(11, 11) == 285311670611int);
}

/// Within one tick a ball of bounded speed inside the field moves by a
/// representable amount, and a single reflection brings it back inside.
proof fn lemma_tick_in_field(ball: Ball, dt: int)
    requires
        0 <= dt <= MAX_TICK,
        -WINDOW_WIDTH <= ball.x <= 2 * WINDOW_WIDTH,
        0 <= ball.y <= WINDOW_HEIGHT - BALL_HEIGHT,
        -MAX_BALL_SPEED <= ball.x_velocity <= MAX_BALL_SPEED,
        -START_BALL_VELOCITY <= ball.y_velocity <= START_BALL_VELOCITY,
    ensures
        ball.can_move(dt, 0, WINDOW_HEIGHT as int),
        0 <= ball.moved_y(dt, 0, WINDOW_HEIGHT as int) <= WINDOW_HEIGHT - BALL_HEIGHT,
        -WINDOW_WIDTH - MAX_BALL_SPEED * 2 <= ball.moved_x(dt) <= 2 * WINDOW_WIDTH + MAX_BALL_SPEED * 2,
{
    lemma_displacement_bound(ball.x_velocity as int, dt, MAX_BALL_SPEED as int);
    lemma_displacement_bound(ball.y_velocity as int, dt, START_BALL_VELOCITY as int);
}

} // verus!
