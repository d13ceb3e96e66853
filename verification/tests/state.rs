use pong::geometry::{Field, Point, Vector, COORD_LIMIT, SPEED_LIMIT, UNIT};
use pong::state::{MainState, BALL_SPEED};


#[test]
fn with_serve_sets_up_the_match() {
    let field = Field { width: 800 * UNIT, height: 600 * UNIT };
    let state = MainState::with_serve(field, Vector { x: 600, y: -600 });
    assert_eq!(state.paddle_left_pos, Point { x: 50 * UNIT, y: 300 * UNIT });
    assert_eq!(state.paddle_right_pos, Point { x: 750 * UNIT, y: 300 * UNIT });
    assert_eq!(state.ball_pos, Point { x: 400 * UNIT, y: 300 * UNIT });
    assert_eq!(state.ball_vel, Vector { x: 600, y: -600 });
    assert_eq!(state.score_left, 0);
    assert_eq!(state.score_right, 0);
}

#[test]
fn new_differs_from_with_serve_by_the_serve_alone() {
    let field = Field { width: 1024 * UNIT, height: 768 * UNIT };
    for _ in 0..50 {
        let state = MainState::new(field);
        assert_eq!(state.ball_vel.x.abs(), BALL_SPEED);
        assert_eq!(state.ball_vel.y.abs(), BALL_SPEED);
        assert_eq!(state, MainState::with_serve(field, state.ball_vel));
        assert!(state.is_in_range());
    }
}

#[test]
fn new_on_an_empty_field_puts_the_right_paddle_left_of_it() {
    let state = MainState::with_serve(Field { width: 0, height: 0 }, Vector { x: 600, y: 600 });
    assert_eq!(state.paddle_left_pos, Point { x: 50 * UNIT, y: 0 });
    assert_eq!(state.paddle_right_pos, Point { x: -50 * UNIT, y: 0 });
    assert_eq!(state.ball_pos, Point { x: 0, y: 0 });
}

#[test]
fn a_match_in_range_has_every_part_in_range() {
    let field = Field { width: 800 * UNIT, height: 600 * UNIT };
    let state = MainState::with_serve(field, Vector { x: 600, y: 600 });
    assert!(state.is_in_range());
    let mut far = state;
    far.ball_pos.x = COORD_LIMIT + 1;
    assert!(!far.is_in_range());
    let mut low = state;
    low.paddle_left_pos.y = -COORD_LIMIT - 1;
    assert!(!low.is_in_range());
    let mut high = state;
    high.paddle_right_pos.y = COORD_LIMIT + 1;
    assert!(!high.is_in_range());
    let mut fast = state;
    fast.ball_vel.y = SPEED_LIMIT + 1;
    assert!(!fast.is_in_range());
}
