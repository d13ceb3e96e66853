use pong::geometry::{Field, Point, UNIT};
use pong::state::{InputSnapshot, MainState, BALL_SPEED};
use pong::step::{hits_paddle, step};


/// Steps a small linear congruential generator and gives its upper bits.
fn roll(seed: &mut u64) -> u64 {
    *seed = seed.wrapping_mul(6364136223846793005).wrapping_add(1442695040888963407);
    *seed >> 33
}

fn keys(bits: u64) -> InputSnapshot {
    InputSnapshot {
        left_up: bits & 1 != 0,
        left_down: bits & 2 != 0,
        right_up: bits & 4 != 0,
        right_down: bits & 8 != 0,
    }
}

/// Plays `ticks` ticks with keys, tick lengths and window sizes drawn from
/// `seed`, and hands each tick's state before and after to `check`, with the
/// field that the tick was played on.
fn play(seed: u64, ticks: usize, check: fn(&MainState, &MainState, Field)) {
    let sizes = [
        Field { width: 800 * UNIT, height: 600 * UNIT },
        Field { width: 1024 * UNIT, height: 768 * UNIT },
        Field { width: 320 * UNIT, height: 100 * UNIT },
        Field { width: 801 * UNIT + 1, height: 601 * UNIT + 1 },
    ];
    let mut seed = seed;
    let mut field = sizes[0];
    let mut state = MainState::new(field);
    for _ in 0..ticks {
        if roll(&mut seed) % 97 == 0 {
            field = sizes[(roll(&mut seed) % 4) as usize];
        }
        let dt = roll(&mut seed) % 40_000_000;
        let input = keys(roll(&mut seed));
        let before = state;
        step(&mut state, dt, input, field);
        check(&before, &state, field);
    }
}

#[test]
fn paddles_stay_between_the_walls_through_any_play() {
    play(1, 20_000, |_, after, field| {
        for paddle in [after.paddle_left_pos, after.paddle_right_pos] {
            assert!(50 * UNIT <= paddle.y && paddle.y <= field.height - 50 * UNIT);
        }
    });
}

#[test]
fn the_ball_stays_between_the_walls_unless_a_goal_fell() {
    play(2, 20_000, |before, after, field| {
        let goal = (before.score_left, before.score_right) != (after.score_left, after.score_right);
        if !goal {
            assert!(15 * UNIT <= after.ball_pos.y && after.ball_pos.y <= field.height - 15 * UNIT);
            assert!(0 <= after.ball_pos.x && after.ball_pos.x <= field.width);
        }
    });
}

#[test]
fn a_tick_gives_one_point_at_most_and_takes_none() {
    play(3, 20_000, |before, after, _| {
        let left = after.score_left - before.score_left;
        let right = after.score_right - before.score_right;
        assert!(left + right <= 1);
    });
}

#[test]
fn goals_do_fall_in_a_long_play() {
    let mut seed = 4;
    let field = Field { width: 800 * UNIT, height: 600 * UNIT };
    let mut state = MainState::new(field);
    for _ in 0..20_000 {
        let dt = roll(&mut seed) % 40_000_000;
        step(&mut state, dt, keys(0), field);
    }
    assert!(state.score_left + state.score_right > 0);
}

#[test]
fn after_a_goal_the_ball_is_served_from_the_middle() {
    play(5, 20_000, |before, after, field| {
        let goal = (before.score_left, before.score_right) != (after.score_left, after.score_right);
        if goal {
            assert_eq!(after.ball_pos, Point { x: field.width / 2, y: field.height / 2 });
            assert_eq!(after.ball_vel.x.abs(), BALL_SPEED);
            assert_eq!(after.ball_vel.y.abs(), BALL_SPEED);
        }
    });
}

#[test]
fn the_ball_keeps_its_speed_through_any_play() {
    play(6, 20_000, |_, after, _| {
        assert_eq!(after.ball_vel.x.abs(), BALL_SPEED);
        assert_eq!(after.ball_vel.y.abs(), BALL_SPEED);
    });
}

#[test]
fn a_ball_on_a_paddle_flies_away_from_it() {
    play(7, 40_000, |_, after, _| {
        let on_left = hits_paddle(after.ball_pos, after.paddle_left_pos);
        let on_right = hits_paddle(after.ball_pos, after.paddle_right_pos);
        if on_right {
            assert!(after.ball_vel.x < 0);
        } else if on_left {
            assert!(after.ball_vel.x > 0);
        }
    });
}

#[test]
fn a_ball_set_against_a_wall_flies_away_from_it() {
    play(8, 40_000, |before, after, field| {
        let goal = (before.score_left, before.score_right) != (after.score_left, after.score_right);
        if !goal && after.ball_pos.y == 15 * UNIT && before.ball_pos.y != 15 * UNIT {
            assert!(after.ball_vel.y > 0);
        }
        if !goal && after.ball_pos.y == field.height - 15 * UNIT
            && before.ball_pos.y < field.height - 15 * UNIT
        {
            assert!(after.ball_vel.y < 0);
        }
    });
}
