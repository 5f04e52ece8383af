use vstd::prelude::*;

use rand::rngs::StdRng;

use crate::config::{MAX_TICK, SCORE_COUNTDOWN, START_BALL_VELOCITY};
use crate::countdown::CountdownState;
use crate::play::{Control, PlayState};

verus! {

/// The live state of a game: a pause between rounds, or a round in play.
pub enum GameState {
    Countdown(CountdownState),
    Play(PlayState),
}

impl GameState {
    /// Every round in play that the state holds, now or after its
    /// countdowns, is well formed.
    pub open spec fn wf(self) -> bool
        decreases self,
    {
        match self {
            GameState::Countdown(c) => (*c.next).wf(),
            GameState::Play(p) => p.wf(),
        }
    }

    /// The pause before the first round, holding a fresh round whose ball
    /// is served with vertical velocity `y_velocity`.
    pub open spec fn start(y_velocity: int) -> GameState {
        GameState::Countdown(
            CountdownState {
                duration: SCORE_COUNTDOWN,
                next: Box::new(GameState::Play(PlayState::fresh(y_velocity))),
            },
        )
    }

    /// Advances the game by one tick of `dt` nanoseconds.
    pub fn update(self, dt: u64, rng: &mut StdRng) -> (r: GameState)
        requires
            self.wf(),
            dt <= MAX_TICK,
        ensures
            r.wf(),
            match self {
                GameState::Countdown(c) => r == c.ticked(dt as int),
                GameState::Play(p) => exists|b: int, s: int|
                    -START_BALL_VELOCITY <= b < START_BALL_VELOCITY
                        && -START_BALL_VELOCITY <= s < START_BALL_VELOCITY
                        && #[trigger] p.stepped(dt as int, b, s) == r,
            },
    {
        match self {
            GameState::Countdown(c) => c.update(dt),
            GameState::Play(p) => p.update(dt, rng),
        }
    }

    /// A key of `control` went down; only a round in play listens.
    pub fn button_press(&mut self, control: Control)
        ensures
            *final(self) == match *old(self) {
                GameState::Play(p) => GameState::Play(p.keyed(control, true)),
                other => other,
            },
    {
        match self {
            GameState::Play(p) => p.button_press(control),
            GameState::Countdown(_) => {},
        }
    }

    /// A key of `control` went up; only a round in play listens.
    pub fn button_release(&mut self, control: Control)
        ensures
            *final(self) == match *old(self) {
                GameState::Play(p) => GameState::Play(p.keyed(control, false)),
                other => other,
            },
    {
        match self {
            GameState::Play(p) => p.button_release(control),
            GameState::Countdown(_) => {},
        }
    }
}

/// The state a game starts in: a three-second pause, then a fresh round.
pub fn create_start_state(rng: &mut StdRng) -> (r: GameState)
    ensures
        r.wf(),
        exists|v: int|
            -START_BALL_VELOCITY <= v < START_BALL_VELOCITY && #[trigger] GameState::start(v) == r,
{
    let play = PlayState::new(rng);
    assert(GameState::Play(play).wf());
    let r = GameState::Countdown(CountdownState::new(SCORE_COUNTDOWN, GameState::Play(play)));
    assert(GameState::start(play.ball.y_velocity as int) == r);
    r
}

} // verus!
