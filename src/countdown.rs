use vstd::prelude::*;

use crate::config::NANOS_PER_SEC;
use crate::game_state::GameState;

verus! {

/// The pause between two rounds: the time left and the state that follows.
pub struct CountdownState {
    pub duration: u64,
    pub next: Box<GameState>,
}

impl CountdownState {
    pub fn new(duration: u64, next: GameState) -> (r: CountdownState)
        ensures
            r.duration == duration,
            *r.next == next,
    {
        CountdownState { duration, next: Box::new(next) }
    }

    /// The state after `dt` more nanoseconds: the held state once no time is
    /// left, else the countdown with `dt` less (never below zero).
    pub open spec fn ticked(self, dt: int) -> GameState {
        if self.duration <= dt {
            *self.next
        } else {
            GameState::Countdown(CountdownState { duration: (self.duration - dt) as u64, next: self.next })
        }
    }

    /// Counts `dt` nanoseconds down; once nothing is left, gives the state
    /// that the countdown held.
    pub fn update(self, dt: u64) -> (r: GameState)
        ensures
            r == self.ticked(dt as int),
    {
        let left: u64 = self.duration.saturating_sub(dt);
        if left == 0 {
            *self.next
        } else {
            GameState::Countdown(CountdownState { duration: left, next: self.next })
        }
    }

    /// Whole seconds left, as the countdown shows them.
    pub fn seconds_left(&self) -> (r: u64)
        ensures
            r == self.duration / NANOS_PER_SEC,
    {
        self.duration / NANOS_PER_SEC
    }
}

} // verus!
