use pong::ball::Ball;
use pong::config::{
    BALL_HEIGHT, BALL_WIDTH, LEFT_PADDLE_X, MAX_BALL_SPEED, NANOS_PER_SEC, PADDLE_HEIGHT,
    RIGHT_PADDLE_X, SCORE_COUNTDOWN, START_BALL_VELOCITY, UNIT, WINDOW_HEIGHT, WINDOW_WIDTH,
};
use pong::countdown::CountdownState;
use pong::game_state::{create_start_state, GameState};
use pong::paddle::{Paddle, PaddleInput};
use pong::play::{Control, Player, PlayerId, PlayState};
use rand::rngs::StdRng;
use rand::SeedableRng;

fn player(id: PlayerId, x: i64, y: i64, score: u32) -> Player {
    Player { paddle: Paddle::new(x, y), score, id }
}

fn play_with_ball(ball: Ball) -> PlayState {
    PlayState {
        player_one: player(PlayerId::One, LEFT_PADDLE_X, WINDOW_HEIGHT / 2, 3),
        player_two: player(PlayerId::Two, RIGHT_PADDLE_X, WINDOW_HEIGHT / 2, 5),
        ball,
    }
}

fn expect_play(state: GameState) -> PlayState {
    match state {
        GameState::Play(p) => p,
        GameState::Countdown(_) => panic!("expected a round in play"),
    }
}

fn expect_countdown(state: GameState) -> CountdownState {
    match state {
        GameState::Countdown(c) => c,
        GameState::Play(_) => panic!("expected a countdown"),
    }
}

#[test]
fn test_box_box_collision() {
    assert_eq!(
        PlayState::is_box_colliding_with_box(0, 0, UNIT, UNIT, UNIT / 4, UNIT / 4, UNIT / 2, UNIT / 2),
        true
    );

    assert_eq!(
        PlayState::is_box_colliding_with_box(2 * UNIT, 2 * UNIT, UNIT, UNIT, 0, 0, UNIT, UNIT),
        false
    );
}

#[test]
fn touching_edges_overlap() {
    assert!(PlayState::is_box_colliding_with_box(0, 0, 1, 1, 1, 0, 1, 1));
    assert!(PlayState::is_box_colliding_with_box(1, 0, 1, 1, 0, 0, 1, 1));
}

#[test]
fn disjoint_boxes_do_not_overlap() {
    assert!(!PlayState::is_box_colliding_with_box(0, 0, 1, 1, 2, 2, 1, 1));
    assert!(!PlayState::is_box_colliding_with_box(2, 2, 1, 1, 0, 0, 1, 1));
}

#[test]
fn overlap_is_symmetric_on_samples() {
    let boxes = [(0, 0, 5, 5), (5, 5, 1, 1), (6, 0, 2, 9), (-3, -3, 2, 2), (i64::MAX, 0, i64::MAX, 1)];
    for a in boxes.iter() {
        for b in boxes.iter() {
            assert_eq!(
                PlayState::is_box_colliding_with_box(a.0, a.1, a.2, a.3, b.0, b.1, b.2, b.3),
                PlayState::is_box_colliding_with_box(b.0, b.1, b.2, b.3, a.0, a.1, a.2, a.3)
            );
        }
    }
}

#[test]
fn input_round_trip() {
    let mut input = PaddleInput::Idle;
    input.press_up();
    assert_eq!(input, PaddleInput::Up);
    input.press_down();
    assert_eq!(input, PaddleInput::UpDown);
    input.release_up();
    assert_eq!(input, PaddleInput::Down);
    input.release_down();
    assert_eq!(input, PaddleInput::Idle);
}

#[test]
fn input_transition_table() {
    let table = [
        (PaddleInput::Idle, PaddleInput::Up, PaddleInput::Idle, PaddleInput::Down, PaddleInput::Idle),
        (PaddleInput::Up, PaddleInput::Up, PaddleInput::Idle, PaddleInput::UpDown, PaddleInput::Up),
        (PaddleInput::Down, PaddleInput::UpDown, PaddleInput::Down, PaddleInput::Down, PaddleInput::Idle),
        (PaddleInput::UpDown, PaddleInput::UpDown, PaddleInput::Down, PaddleInput::UpDown, PaddleInput::Up),
    ];
    for (start, press_up, release_up, press_down, release_down) in table.iter() {
        let mut i = *start;
        i.press_up();
        assert_eq!(i, *press_up);
        let mut i = *start;
        i.release_up();
        assert_eq!(i, *release_up);
        let mut i = *start;
        i.press_down();
        assert_eq!(i, *press_down);
        let mut i = *start;
        i.release_down();
        assert_eq!(i, *release_down);
    }
}

#[test]
fn ball_moves_by_velocity() {
    let mut ball = Ball { x: 100 * UNIT, x_velocity: -200 * UNIT, y: 100 * UNIT, y_velocity: 50 * UNIT };
    ball.update(NANOS_PER_SEC / 2, 0, WINDOW_HEIGHT);
    assert_eq!(ball, Ball { x: 0, x_velocity: -200 * UNIT, y: 125 * UNIT, y_velocity: 50 * UNIT });
}

#[test]
fn ball_reflects_off_lower_wall() {
    let mut ball = Ball { x: 0, x_velocity: 0, y: 5 * UNIT, y_velocity: -100 * UNIT };
    ball.update(NANOS_PER_SEC / 10, 0, WINDOW_HEIGHT);
    assert_eq!(ball.y, 5 * UNIT);
    assert_eq!(ball.y_velocity, 100 * UNIT);
}

#[test]
fn ball_reflects_off_upper_wall() {
    let mut ball = Ball { x: 0, x_velocity: 0, y: 485 * UNIT, y_velocity: 100 * UNIT };
    ball.update(NANOS_PER_SEC / 10, 0, WINDOW_HEIGHT);
    // The wall stands one ball height below the window's top: 490 units.
    assert_eq!(ball.y, 485 * UNIT);
    assert_eq!(ball.y_velocity, -100 * UNIT);
}

#[test]
fn paddle_clamps_to_bounds() {
    let mut up = Paddle::new(LEFT_PADDLE_X, WINDOW_HEIGHT / 2);
    up.input_mut().press_up();
    for _ in 0..100 {
        up.update(NANOS_PER_SEC / 60, 0, WINDOW_HEIGHT);
    }
    assert_eq!(up.y(), WINDOW_HEIGHT - PADDLE_HEIGHT);
    assert_eq!(up.x(), LEFT_PADDLE_X);

    let mut down = Paddle::new(LEFT_PADDLE_X, WINDOW_HEIGHT / 2);
    down.input_mut().press_down();
    for _ in 0..100 {
        down.update(NANOS_PER_SEC / 60, 0, WINDOW_HEIGHT);
    }
    assert_eq!(down.y(), 0);
}

#[test]
fn paddle_moves_at_its_speed_and_both_keys_cancel() {
    let mut p = Paddle::new(LEFT_PADDLE_X, 100 * UNIT);
    p.input_mut().press_up();
    p.update(NANOS_PER_SEC / 5, 0, WINDOW_HEIGHT);
    assert_eq!(p.y(), 145 * UNIT);
    p.input_mut().press_down();
    p.update(NANOS_PER_SEC, 0, WINDOW_HEIGHT);
    assert_eq!(p.y(), 145 * UNIT);
    p.input_mut().release_up();
    p.update(NANOS_PER_SEC / 5, 0, WINDOW_HEIGHT);
    assert_eq!(p.y(), 100 * UNIT);
}

#[test]
fn change_y_clamps() {
    let mut p = Paddle::new(0, 10);
    p.change_y(-20, 0, 100);
    assert_eq!(p.y(), 0);
    p.change_y(500, 0, 100);
    assert_eq!(p.y(), 100);
    p.change_y(-30, 0, 100);
    assert_eq!(p.y(), 70);
    p.set_y(5);
    assert_eq!(p.y(), 5);
}

#[test]
fn ball_past_left_border_scores_for_right_player() {
    let state = play_with_ball(Ball {
        x: -BALL_WIDTH,
        x_velocity: -300 * UNIT,
        y: 123 * UNIT,
        y_velocity: 10 * UNIT,
    });
    let c = expect_countdown(state.step(NANOS_PER_SEC / 60, 0, 0));
    assert_eq!(c.duration, SCORE_COUNTDOWN);
    let p = expect_play(*c.next);
    assert_eq!(p.player_two.score, 6);
    assert_eq!(p.player_one.score, 3);
}

#[test]
fn ball_past_right_border_scores_for_left_player() {
    let state = play_with_ball(Ball {
        x: WINDOW_WIDTH - UNIT,
        x_velocity: 300 * UNIT,
        y: 123 * UNIT,
        y_velocity: 0,
    });
    let p = expect_play(*expect_countdown(state.step(NANOS_PER_SEC / 60, 0, 0)).next);
    assert_eq!(p.player_one.score, 4);
    assert_eq!(p.player_two.score, 5);
}

#[test]
fn scoring_serves_from_center_at_start_speed() {
    for speed in [300 * UNIT, 1000 * UNIT, MAX_BALL_SPEED].iter() {
        let state = play_with_ball(Ball { x: -BALL_WIDTH, x_velocity: -*speed, y: 7 * UNIT, y_velocity: UNIT });
        let p = expect_play(*expect_countdown(state.step(1, 0, -42 * UNIT)).next);
        assert_eq!(
            p.ball,
            Ball {
                x: WINDOW_WIDTH / 2,
                x_velocity: START_BALL_VELOCITY,
                y: WINDOW_HEIGHT / 2,
                y_velocity: -42 * UNIT,
            }
        );
    }
}

#[test]
fn ball_in_field_keeps_playing() {
    let state = play_with_ball(Ball { x: 500 * UNIT, x_velocity: 100 * UNIT, y: 100 * UNIT, y_velocity: 0 });
    let p = expect_play(state.step(NANOS_PER_SEC / 10, 0, 0));
    assert_eq!(p.ball.x, 510 * UNIT);
    assert_eq!(p.player_one.score, 3);
}

#[test]
fn countdown_saturates_and_resumes() {
    let held = play_with_ball(Ball::serve(0));
    let c = CountdownState::new(NANOS_PER_SEC / 10, GameState::Play(held));
    let p = expect_play(c.update(NANOS_PER_SEC / 5));
    assert_eq!(p.ball, Ball::serve(0));
    assert_eq!(p.player_two.score, 5);
}

#[test]
fn countdown_counts_down() {
    let c = CountdownState::new(SCORE_COUNTDOWN, GameState::Play(play_with_ball(Ball::serve(0))));
    assert_eq!(c.seconds_left(), 3);
    let c = expect_countdown(c.update(NANOS_PER_SEC / 2));
    assert_eq!(c.duration, 2_500_000_000);
    assert_eq!(c.seconds_left(), 2);
    let c = expect_countdown(c.update(2_499_999_999));
    assert_eq!(c.duration, 1);
    expect_play(c.update(1));
}

#[test]
fn bounce_multiplier_compounds() {
    // A ball resting against the left paddle bounces off it on every tick.
    let mut state = play_with_ball(Ball {
        x: LEFT_PADDLE_X + 5 * UNIT,
        x_velocity: -START_BALL_VELOCITY,
        y: WINDOW_HEIGHT / 2,
        y_velocity: 0,
    });
    let mut expected: i128 = START_BALL_VELOCITY as i128;
    for n in 1..=11u32 {
        state = expect_play(state.step(0, 17 * UNIT, 0));
        expected = START_BALL_VELOCITY as i128 * 11i128.pow(n) / 10i128.pow(n);
        assert_eq!((state.ball.x_velocity as i128).abs(), expected);
        assert_eq!(state.ball.y_velocity, 17 * UNIT);
    }
    assert_eq!(expected, 570_623_341_222);
}

#[test]
fn bounce_speed_stops_at_limit() {
    let state = play_with_ball(Ball {
        x: LEFT_PADDLE_X + 5 * UNIT,
        x_velocity: -MAX_BALL_SPEED,
        y: WINDOW_HEIGHT / 2,
        y_velocity: 0,
    });
    let p = expect_play(state.step(0, 0, 0));
    assert_eq!(p.ball.x_velocity, MAX_BALL_SPEED);
}

#[test]
fn fresh_round_from_seeded_rng() {
    let mut seen_other = false;
    for seed in 0..20u64 {
        let mut rng = StdRng::seed_from_u64(seed);
        let p = PlayState::new(&mut rng);
        assert!(-START_BALL_VELOCITY <= p.ball.y_velocity && p.ball.y_velocity < START_BALL_VELOCITY);
        assert_eq!(p.ball.x, WINDOW_WIDTH / 2);
        assert_eq!(p.ball.x_velocity, START_BALL_VELOCITY);
        assert_eq!(p.player_one.paddle.x(), LEFT_PADDLE_X);
        assert_eq!(p.player_two.paddle.x(), RIGHT_PADDLE_X);
        if p.ball.y_velocity != -START_BALL_VELOCITY {
            seen_other = true;
        }
    }
    assert!(seen_other);
}

#[test]
fn start_state_is_countdown_then_fresh_round() {
    let mut rng = StdRng::seed_from_u64(7);
    let state = create_start_state(&mut rng);
    let c = expect_countdown(state);
    assert_eq!(c.duration, SCORE_COUNTDOWN);
    let p = expect_play(*c.next);
    assert_eq!(p.player_one.score, 0);
    assert_eq!(p.player_two.score, 0);
    assert_eq!(p.ball.y, WINDOW_HEIGHT / 2);
}

#[test]
fn game_routes_input_only_in_play() {
    let mut rng = StdRng::seed_from_u64(1);
    let mut state = create_start_state(&mut rng);
    state.button_press(Control::PlayerOneUp);
    let mut state = state.update(SCORE_COUNTDOWN, &mut rng);
    match &state {
        GameState::Play(p) => assert_eq!(p.player_one.paddle.input, PaddleInput::Idle),
        GameState::Countdown(_) => panic!("expected a round in play"),
    }
    state.button_press(Control::PlayerOneUp);
    state.button_press(Control::PlayerTwoDown);
    state.button_release(Control::PlayerOneUp);
    state.button_press(Control::PlayerOneDown);
    let p = expect_play(state);
    assert_eq!(p.player_one.paddle.input, PaddleInput::Down);
    assert_eq!(p.player_two.paddle.input, PaddleInput::Down);
}

#[test]
fn game_update_moves_paddles() {
    let mut rng = StdRng::seed_from_u64(3);
    let mut state = GameState::Play(play_with_ball(Ball::serve(0)));
    state.button_press(Control::PlayerTwoUp);
    let p = expect_play(state.update(NANOS_PER_SEC / 5, &mut rng));
    assert_eq!(p.player_two.paddle.y(), WINDOW_HEIGHT / 2 + 45 * UNIT);
    assert_eq!(p.player_one.paddle.y(), WINDOW_HEIGHT / 2);
    assert_eq!(p.ball.x, WINDOW_WIDTH / 2 + 40 * UNIT);
}

#[test]
fn starting_round_uses_given_velocity() {
    let p = PlayState::starting(-5);
    assert_eq!(p.ball, Ball { x: WINDOW_WIDTH / 2, x_velocity: START_BALL_VELOCITY, y: WINDOW_HEIGHT / 2, y_velocity: -5 });
    assert_eq!(p.player_one.paddle.y(), WINDOW_HEIGHT / 2);
    assert_eq!(BALL_HEIGHT, 10 * UNIT);
}
