use vstd::prelude::*;

verus! {

/// Nano-units in one logical unit of the window.
pub const UNIT: i64 = 1_000_000_000;

/// Nanoseconds in one second.
pub const NANOS_PER_SEC: u64 = 1_000_000_000;

/// Width of the window (1000 logical units).
pub const WINDOW_WIDTH: i64 = 1_000_000_000_000;

/// Height of the window (500 logical units).
pub const WINDOW_HEIGHT: i64 = 500_000_000_000;

/// Width of a paddle (20 logical units).
pub const PADDLE_WIDTH: i64 = 20_000_000_000;

/// Height of a paddle (50 logical units).
pub const PADDLE_HEIGHT: i64 = 50_000_000_000;

/// Gap between a paddle and the window border closest to it (50 logical units).
pub const PADDLE_BORDER_GAP: i64 = 50_000_000_000;

/// Vertical speed of a moving paddle (225 logical units per second).
pub const PADDLE_SPEED: i64 = 225_000_000_000;

/// Width of the ball (10 logical units).
pub const BALL_WIDTH: i64 = 10_000_000_000;

/// Height of the ball (10 logical units).
pub const BALL_HEIGHT: i64 = 10_000_000_000;

/// Horizontal speed of a freshly served ball (200 logical units per second);
/// its vertical speed is drawn from `[-START_BALL_VELOCITY, START_BALL_VELOCITY)`.
pub const START_BALL_VELOCITY: i64 = 200_000_000_000;

/// Numerator of the bounce multiplier 11/10.
pub const BOUNCE_NUMERATOR: i64 = 11;

/// Denominator of the bounce multiplier 11/10.
pub const BOUNCE_DENOMINATOR: i64 = 10;

/// Horizontal ball speed never exceeds this (200 000 logical units per
/// second); a bounce that would go past it stops at it.
pub const MAX_BALL_SPEED: i64 = 200_000_000_000_000;

/// Length of the pause after a point (three seconds).
pub const SCORE_COUNTDOWN: u64 = 3_000_000_000;

/// Longest tick that play accepts (two seconds): within it a ball moving
/// vertically at less than the serve speed travels less than the field's
/// height, so one reflection always brings it back inside.
pub const MAX_TICK: u64 = 2_000_000_000;

/// Left edge of the first player's paddle.
pub const LEFT_PADDLE_X: i64 = PADDLE_BORDER_GAP;

/// Left edge of the second player's paddle.
pub const RIGHT_PADDLE_X: i64 = WINDOW_WIDTH - PADDLE_BORDER_GAP - PADDLE_WIDTH;

/// Distance covered in `dt` nanoseconds at `velocity` nano-units per second,
/// rounded toward zero.
pub open spec fn displacement(velocity: int, dt: int) -> int {
    if velocity >= 0 {
        velocity * dt / (NANOS_PER_SEC as int)
    } else {
        -((-velocity) * dt / (NANOS_PER_SEC as int))
    }
}

/// A velocity of magnitude at most `speed` covers at most `speed` per
/// second, with the velocity's sign.
pub proof fn lemma_displacement_bound(velocity: int, dt: int, speed: int)
    requires
        -speed <= velocity <= speed,
        0 <= dt <= MAX_TICK,
    ensures
        -2 * speed <= displacement(velocity, dt) <= 2 * speed,
        velocity >= 0 ==> displacement(velocity, dt) >= 0,
        velocity <= 0 ==> displacement(velocity, dt) <= 0,
{
    let m: int = if velocity >= 0 { velocity } else { -velocity };
    assert(m * dt <= speed * MAX_TICK) by (nonlinear_arith)
        requires 0 <= m <= speed, 0 <= dt <= MAX_TICK;
    assert(0 <= m * dt) by (nonlinear_arith)
        requires 0 <= m, 0 <= dt;
    assert(speed * MAX_TICK / (NANOS_PER_SEC as int) == speed * 2) by (nonlinear_arith)
        requires MAX_TICK == 2 * NANOS_PER_SEC, NANOS_PER_SEC > 0;
    assert(m * dt / (NANOS_PER_SEC as int) <= speed * MAX_TICK / (NANOS_PER_SEC as int)) by (nonlinear_arith)
        requires m * dt <= speed * MAX_TICK, NANOS_PER_SEC > 0;
    assert(0 <= m * dt / (NANOS_PER_SEC as int)) by (nonlinear_arith)
        requires 0 <= m * dt, NANOS_PER_SEC > 0;
    if velocity < 0 {
        assert((-velocity) * dt == m * dt);
    } else if velocity == 0 {
        assert(velocity * dt == 0) by (nonlinear_arith)
            requires velocity == 0;
    }
}

/// Computes `displacement(velocity, dt)`; the magnitude is worked out in
/// `u128`, where `|velocity| * dt < 2^127` always fits.
pub fn travel(velocity: i64, dt: u64) -> (r: i128)
    ensures
        r == displacement(velocity as int, dt as int),
{
    let speed: u128 = if velocity >= 0 {
        velocity as u128
    } else {
        (-(velocity as i128)) as u128
    };
    assert(speed <= 0x8000_0000_0000_0000u128);
    assert(speed * (dt as u128) <= 0x8000_0000_0000_0000u128 * 0xffff_ffff_ffff_ffffu128)
        by (nonlinear_arith)
        requires
            speed <= 0x8000_0000_0000_0000u128,
            dt <= 0xffff_ffff_ffff_ffffu64,
    ;
    let product: u128 = speed * (dt as u128);
    let distance: u128 = product / (NANOS_PER_SEC as u128);
    assert(distance <= product);
    if velocity >= 0 {
        distance as i128
    } else {
        -(distance as i128)
    }
}

} // verus!
