//! The match: both paddles, the ball and the two scores.

use crate::geometry::{center_of, within, Extent, Field, Point, Vec2, Vector};
use crate::geometry::{COORD_LIMIT, SPEED_LIMIT, UNIT};
use crate::serve::{is_signed, random_signed_vector};
use vstd::prelude::*;

verus! {

/// Distance between a side wall and the nearer edge of the paddle before it.
pub const PADDING: i64 = 40 * UNIT;

/// Width of the line that divides the field.
pub const MIDDLE_LINE_WIDTH: i64 = 2 * UNIT;

/// Distance between the centre of a paddle and its left or right edge.
pub const PADDLE_WIDTH_HALF: i64 = 10 * UNIT;

/// Distance between the centre of a paddle and its upper or lower edge.
pub const PADDLE_HEIGHT_HALF: i64 = 50 * UNIT;

/// Width of a paddle.
pub const PADDLE_WIDTH: i64 = 2 * PADDLE_WIDTH_HALF;

/// Height of a paddle.
pub const PADDLE_HEIGHT: i64 = 2 * PADDLE_HEIGHT_HALF;

/// Distance between the centre of the ball and each of its edges.
pub const BALL_SIZE_HALF: i64 = 15 * UNIT;

/// Side of the square ball.
pub const BALL_SIZE: i64 = 2 * BALL_SIZE_HALF;

/// Speed of a paddle while a key is held, in field units per second.
pub const PADDLE_SPEED: i64 = 600;

/// Speed of the ball along each axis, in field units per second.
pub const BALL_SPEED: i64 = 600;

/// Which of the four keys are held down at this tick.
#[derive(Clone, Copy, Debug, PartialEq, Eq, Structural)]
pub struct InputSnapshot {
    pub left_up: bool,
    pub left_down: bool,
    pub right_up: bool,
    pub right_down: bool,
}

/// A player, named by the side of the field that their paddle guards.
#[derive(Clone, Copy, Debug, PartialEq, Eq, Structural)]
pub enum Side {
    Left,
    Right,
}

/// What a `MainState` stands for.
pub struct MatchModel {
    pub paddle_left_pos: Vec2,
    pub paddle_right_pos: Vec2,
    pub ball_pos: Vec2,
    pub ball_vel: Vec2,
    pub score_left: nat,
    pub score_right: nat,
}

/// The state of a match between two ticks. Positions are centres.
#[derive(Clone, Copy, Debug, PartialEq, Eq, Structural)]
pub struct MainState {
    pub paddle_left_pos: Point,
    pub paddle_right_pos: Point,
    pub ball_pos: Point,
    pub ball_vel: Vector,
    pub score_left: u32,
    pub score_right: u32,
}

impl View for MainState {
    type V = MatchModel;

    open spec fn view(&self) -> MatchModel {
        MatchModel {
            paddle_left_pos: self.paddle_left_pos@,
            paddle_right_pos: self.paddle_right_pos@,
            ball_pos: self.ball_pos@,
            ball_vel: self.ball_vel@,
            score_left: self.score_left as nat,
            score_right: self.score_right as nat,
        }
    }
}

/// Every position of `m` fits a state at rest and the velocity is one that a
/// tick can integrate.
pub open spec fn model_in_range(m: MatchModel) -> bool {
    &&& within(m.paddle_left_pos, COORD_LIMIT as int)
    &&& within(m.paddle_right_pos, COORD_LIMIT as int)
    &&& within(m.ball_pos, COORD_LIMIT as int)
    &&& within(m.ball_vel, SPEED_LIMIT as int)
}

/// A paddle centred at height `y` lies between the top and the bottom wall
/// of a field of extent `e`.
pub open spec fn paddle_inside(y: int, e: Extent) -> bool {
    PADDLE_HEIGHT_HALF <= y <= e.height - PADDLE_HEIGHT_HALF
}

/// A ball centred at height `y` lies between the top and the bottom wall of
/// a field of extent `e`.
pub open spec fn ball_inside(y: int, e: Extent) -> bool {
    BALL_SIZE_HALF <= y <= e.height - BALL_SIZE_HALF
}

/// `v` is a serve: on each axis the ball's speed, in either direction.
pub open spec fn is_serve(v: Vec2) -> bool {
    is_signed(v, BALL_SPEED as int, BALL_SPEED as int)
}

/// The match before its first tick on a field of extent `e`: both paddles at
/// half height, `PADDING` away from their walls, the ball in the middle with
/// velocity `serve`, and no points scored.
pub open spec fn kickoff(e: Extent, serve: Vec2) -> MatchModel {
    MatchModel {
        paddle_left_pos: Vec2 { x: PADDLE_WIDTH_HALF + PADDING, y: e.height / 2 },
        paddle_right_pos: Vec2 { x: e.width - PADDLE_WIDTH_HALF - PADDING, y: e.height / 2 },
        ball_pos: center_of(e),
        ball_vel: serve,
        score_left: 0,
        score_right: 0,
    }
}

impl MainState {
    /// The match may be handed to a tick.
    pub open spec fn in_range(&self) -> bool {
        model_in_range(self@)
    }

    /// Tests `in_range`.
    pub fn is_in_range(&self) -> (r: bool)
        ensures
            r == self.in_range(),
    {
        self.paddle_left_pos.is_in_range() && self.paddle_right_pos.is_in_range()
            && self.ball_pos.is_in_range() && self.ball_vel.is_in_range()
    }

    /// A fresh match on `field` whose ball starts with the velocity `serve`.
    pub fn with_serve(field: Field, serve: Vector) -> (state: MainState)
        requires
            field.in_range(),
        ensures
            state@ == kickoff(field@, serve@),
            serve.in_range() ==> state.in_range(),
    {
        let middle = field.center();
        MainState {
            paddle_left_pos: Point { x: PADDLE_WIDTH_HALF + PADDING, y: middle.y },
            paddle_right_pos: Point { x: field.width - PADDLE_WIDTH_HALF - PADDING, y: middle.y },
            ball_pos: middle,
            ball_vel: serve,
            score_left: 0,
            score_right: 0,
        }
    }

    /// A fresh match on `field` with a random serve.
    pub fn new(field: Field) -> (state: MainState)
        requires
            field.in_range(),
        ensures
            exists|serve: Vec2| #[trigger] is_serve(serve) && state@ == kickoff(field@, serve),
            state.in_range(),
    {
        let serve = random_signed_vector(BALL_SPEED, BALL_SPEED);
        let state = MainState::with_serve(field, serve);
        assert(is_serve(serve@) && state@ == kickoff(field@, serve@));
        state
    }
}

} // verus!
