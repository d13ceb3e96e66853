//! One tick of the match: paddles move, the ball flies, goals are scored,
//! walls and paddles turn the ball.

use crate::geometry::{boxes_overlap, center_of, extent_in_range};
use crate::geometry::{clamp, clamped, magnitude, overlaps};
use crate::geometry::{Extent, Field, Point, Vec2, Vector};
use crate::geometry::{COORD_LIMIT, DT_LIMIT, SPEED_LIMIT};
use crate::serve::random_signed_vector;
use crate::state::{ball_inside, is_serve, model_in_range, paddle_inside};
use crate::state::{InputSnapshot, MainState, MatchModel, Side};
use crate::state::{BALL_SIZE, BALL_SIZE_HALF, BALL_SPEED};
use crate::state::{PADDLE_HEIGHT, PADDLE_HEIGHT_HALF, PADDLE_SPEED, PADDLE_WIDTH_HALF};
use vstd::math::abs;
use vstd::prelude::*;

verus! {

/// The paddle at `pos` after `dt` nanoseconds with the given keys held:
/// "up" takes `PADDLE_SPEED * dt` from its height, "down" adds as much, both
/// together cancel, and the result is clamped so that the paddle stays
/// between the top and the bottom wall.
pub open spec fn moved_paddle(pos: Vec2, up: bool, down: bool, dt: int, field: Extent) -> Vec2 {
    let risen = if up {
        pos.y - PADDLE_SPEED * dt
    } else {
        pos.y
    };
    let sunk = if down {
        risen + PADDLE_SPEED * dt
    } else {
        risen
    };
    Vec2 {
        x: pos.x,
        y: clamped(sunk, PADDLE_HEIGHT_HALF as int, field.height - PADDLE_HEIGHT_HALF),
    }
}

/// The ball at `pos` after flying with velocity `vel` for `dt` nanoseconds.
pub open spec fn moved_ball(pos: Vec2, vel: Vec2, dt: int) -> Vec2 {
    Vec2 { x: pos.x + vel.x * dt, y: pos.y + vel.y * dt }
}

/// Who scores with the ball's centre at `ball`: the right player once it is
/// left of the field, the left player once it is right of it.
pub open spec fn goal_at(ball: Vec2, field: Extent) -> Option<Side> {
    if ball.x < 0 {
        Some(Side::Right)
    } else if ball.x > field.width {
        Some(Side::Left)
    } else {
        None
    }
}

/// Position and velocity of the ball once the walls have been resolved. A
/// ball that reaches over the top wall is set against it and sent downwards;
/// after that, one that reaches over the bottom wall is set against it and
/// sent upwards.
pub open spec fn walled(pos: Vec2, vel: Vec2, field: Extent) -> (Vec2, Vec2) {
    let top = pos.y - BALL_SIZE_HALF < 0;
    let y1 = if top {
        BALL_SIZE_HALF as int
    } else {
        pos.y
    };
    let vy1 = if top {
        abs(vel.y) as int
    } else {
        vel.y
    };
    let bottom = y1 + BALL_SIZE_HALF > field.height;
    let y2 = if bottom {
        field.height - BALL_SIZE_HALF
    } else {
        y1
    };
    let vy2 = if bottom {
        -abs(vy1)
    } else {
        vy1
    };
    (Vec2 { x: pos.x, y: y2 }, Vec2 { x: vel.x, y: vy2 })
}

/// The half extents of the ball.
pub open spec fn ball_half() -> Vec2 {
    Vec2 { x: BALL_SIZE_HALF as int, y: BALL_SIZE_HALF as int }
}

/// The half extents of a paddle.
pub open spec fn paddle_half() -> Vec2 {
    Vec2 { x: PADDLE_WIDTH_HALF as int, y: PADDLE_HEIGHT_HALF as int }
}

/// The box of the ball centred at `ball` overlaps the box of the paddle
/// centred at `paddle`.
pub open spec fn ball_hits_paddle(ball: Vec2, paddle: Vec2) -> bool {
    boxes_overlap(ball, ball_half(), paddle, paddle_half())
}

/// The velocity of the ball once the paddles have been resolved. A hit on the
/// left paddle sends the ball to the right; after that, a hit on the right
/// paddle sends it to the left.
pub open spec fn paddled(ball: Vec2, vel: Vec2, left: Vec2, right: Vec2) -> Vec2 {
    let vx1 = if ball_hits_paddle(ball, left) {
        abs(vel.x) as int
    } else {
        vel.x
    };
    let vx2 = if ball_hits_paddle(ball, right) {
        -abs(vx1)
    } else {
        vx1
    };
    Vec2 { x: vx2, y: vel.y }
}

/// Who scores in the tick of `dt` nanoseconds that starts in `m`.
pub open spec fn goal_of(m: MatchModel, dt: int, field: Extent) -> Option<Side> {
    goal_at(moved_ball(m.ball_pos, m.ball_vel, dt), field)
}

/// `score` after a tick in which `goal` fell, for the player on `side`.
pub open spec fn scored(score: nat, goal: Option<Side>, side: Side) -> nat {
    if goal == Some(side) {
        score + 1
    } else {
        score
    }
}

/// The match `m` with both paddles moved for `dt` nanoseconds.
pub open spec fn paddles_moved(
    m: MatchModel,
    dt: int,
    input: InputSnapshot,
    field: Extent,
) -> MatchModel {
    let left = moved_paddle(m.paddle_left_pos, input.left_up, input.left_down, dt, field);
    let right = moved_paddle(m.paddle_right_pos, input.right_up, input.right_down, dt, field);
    MatchModel { paddle_left_pos: left, paddle_right_pos: right, ..m }
}

/// The match `m` once the ball, flown to `flown`, has come to rest. A goal
/// is counted and the ball put in the middle of the field with the velocity
/// `serve`; without a goal the walls turn the ball. Last, with or without a
/// goal, the paddles turn it.
pub open spec fn settled(m: MatchModel, flown: Vec2, field: Extent, serve: Vec2) -> MatchModel {
    let goal = goal_at(flown, field);
    let (pos, vel) = if goal is Some {
        (center_of(field), serve)
    } else {
        walled(flown, m.ball_vel, field)
    };
    MatchModel {
        ball_pos: pos,
        ball_vel: paddled(pos, vel, m.paddle_left_pos, m.paddle_right_pos),
        score_left: scored(m.score_left, goal, Side::Left),
        score_right: scored(m.score_right, goal, Side::Right),
        ..m
    }
}

/// The match after one tick of `dt` nanoseconds on `field`, where `serve`
/// is the velocity that the ball gets should a goal fall: the paddles move,
/// the ball flies, and the ball comes to rest.
pub open spec fn next_state(
    m: MatchModel,
    dt: int,
    input: InputSnapshot,
    field: Extent,
    serve: Vec2,
) -> MatchModel {
    settled(
        paddles_moved(m, dt, input, field),
        moved_ball(m.ball_pos, m.ball_vel, dt),
        field,
        serve,
    )
}

/// Moves one paddle for one tick.
pub fn move_paddle(pos: Point, up: bool, down: bool, dt: u64, field: Field) -> (r: Point)
    requires
        pos.in_range(),
        dt <= DT_LIMIT,
        field.in_range(),
    ensures
        r@ == moved_paddle(pos@, up, down, dt as int, field@),
        r.in_range(),
{
    let way: i64 = PADDLE_SPEED * (dt as i64);
    let mut y: i64 = pos.y;
    if up {
        y = y - way;
    }
    if down {
        y = y + way;
    }
    Point { x: pos.x, y: clamp(y, PADDLE_HEIGHT_HALF, field.height - PADDLE_HEIGHT_HALF) }
}

/// Lets the ball fly for one tick.
pub fn move_ball(pos: Point, vel: Vector, dt: u64) -> (r: Point)
    requires
        pos.in_range(),
        vel.in_range(),
        dt <= DT_LIMIT,
    ensures
        r@ == moved_ball(pos@, vel@, dt as int),
        r.in_reach(),
{
    let t: i64 = dt as i64;
    proof {
        lemma_travel_bounded(vel.x as int, t as int);
        lemma_travel_bounded(vel.y as int, t as int);
    }
    Point { x: pos.x + vel.x * t, y: pos.y + vel.y * t }
}

/// The way made in one tick stays within `COORD_LIMIT`.
proof fn lemma_travel_bounded(speed: int, dt: int)
    by (nonlinear_arith)
    requires
        -SPEED_LIMIT <= speed <= SPEED_LIMIT,
        0 <= dt <= DT_LIMIT,
    ensures
        -COORD_LIMIT <= speed * dt <= COORD_LIMIT,
{
}

/// Tells who scores with the ball's centre at `ball`.
pub fn detect_goal(ball: Point, field: Field) -> (goal: Option<Side>)
    ensures
        goal == goal_at(ball@, field@),
{
    if ball.x < 0 {
        Some(Side::Right)
    } else if ball.x > field.width {
        Some(Side::Left)
    } else {
        None
    }
}

/// Turns the ball at the top and the bottom wall.
pub fn bounce_off_walls(pos: Point, vel: Vector, field: Field) -> (r: (Point, Vector))
    requires
        pos.in_reach(),
        vel.in_range(),
        field.in_range(),
    ensures
        (r.0@, r.1@) == walled(pos@, vel@, field@),
        r.1.in_range(),
        -COORD_LIMIT <= pos.x <= COORD_LIMIT ==> r.0.in_range(),
{
    let mut y: i64 = pos.y;
    let mut vy: i64 = vel.y;
    if y - BALL_SIZE_HALF < 0 {
        y = BALL_SIZE_HALF;
        vy = magnitude(vy);
    }
    if y + BALL_SIZE_HALF > field.height {
        y = field.height - BALL_SIZE_HALF;
        vy = -magnitude(vy);
    }
    (Point { x: pos.x, y }, Vector { x: vel.x, y: vy })
}

/// Tests whether the ball at `ball` touches the paddle at `paddle`.
pub fn hits_paddle(ball: Point, paddle: Point) -> (r: bool)
    requires
        ball.in_reach(),
        paddle.in_reach(),
    ensures
        r == ball_hits_paddle(ball@, paddle@),
{
    overlaps(
        ball,
        Vector { x: BALL_SIZE_HALF, y: BALL_SIZE_HALF },
        paddle,
        Vector { x: PADDLE_WIDTH_HALF, y: PADDLE_HEIGHT_HALF },
    )
}

/// Turns the ball at the two paddles.
pub fn bounce_off_paddles(ball: Point, vel: Vector, left: Point, right: Point) -> (r: Vector)
    requires
        ball.in_reach(),
        left.in_reach(),
        right.in_reach(),
        vel.in_range(),
    ensures
        r@ == paddled(ball@, vel@, left@, right@),
        r.in_range(),
{
    let mut vx: i64 = vel.x;
    if hits_paddle(ball, left) {
        vx = magnitude(vx);
    }
    if hits_paddle(ball, right) {
        vx = -magnitude(vx);
    }
    Vector { x: vx, y: vel.y }
}

/// Moves both paddles for one tick.
pub fn move_paddles(state: &mut MainState, dt: u64, input: InputSnapshot, field: Field)
    requires
        old(state).in_range(),
        dt <= DT_LIMIT,
        field.in_range(),
    ensures
        final(state)@ == paddles_moved(old(state)@, dt as int, input, field@),
        final(state).in_range(),
{
    let left = move_paddle(state.paddle_left_pos, input.left_up, input.left_down, dt, field);
    let right = move_paddle(state.paddle_right_pos, input.right_up, input.right_down, dt, field);
    state.paddle_left_pos = left;
    state.paddle_right_pos = right;
}

/// Brings the ball, flown to `flown`, to rest: counts a goal and serves
/// anew with velocity `serve`, or else turns the ball at the walls; then
/// turns it at the paddles.
pub fn settle(state: &mut MainState, flown: Point, field: Field, serve: Vector)
    requires
        old(state).in_range(),
        old(state).score_left < u32::MAX,
        old(state).score_right < u32::MAX,
        flown.in_reach(),
        field.in_range(),
        serve.in_range(),
    ensures
        final(state)@ == settled(old(state)@, flown@, field@, serve@),
        final(state).in_range(),
{
    match detect_goal(flown, field) {
        Some(side) => {
            state.ball_pos = field.center();
            state.ball_vel = serve;
            match side {
                Side::Left => {
                    state.score_left = state.score_left + 1;
                },
                Side::Right => {
                    state.score_right = state.score_right + 1;
                },
            }
        },
        None => {
            let (pos, vel) = bounce_off_walls(flown, state.ball_vel, field);
            state.ball_pos = pos;
            state.ball_vel = vel;
        },
    }
    let left = state.paddle_left_pos;
    let right = state.paddle_right_pos;
    state.ball_vel = bounce_off_paddles(state.ball_pos, state.ball_vel, left, right);
}

/// The match `m` can be played for `dt` nanoseconds on `field`: all of it
/// is in range, and neither score is at the end of its type.
pub open spec fn steppable(m: MatchModel, dt: int, field: Extent) -> bool {
    &&& model_in_range(m)
    &&& m.score_left < u32::MAX
    &&& m.score_right < u32::MAX
    &&& 0 <= dt <= DT_LIMIT
    &&& extent_in_range(field)
}

/// Tests whether `step` and `step_with_serve` accept the tick.
pub fn can_step(state: &MainState, dt: u64, field: Field) -> (r: bool)
    ensures
        r == steppable(state@, dt as int, field@),
{
    state.is_in_range() && state.score_left < u32::MAX && state.score_right < u32::MAX
        && dt <= DT_LIMIT && field.is_in_range()
}

/// Plays one tick of `dt` nanoseconds, with `serve` as the velocity that
/// the ball gets should a goal fall.
pub fn step_with_serve(
    state: &mut MainState,
    dt: u64,
    input: InputSnapshot,
    field: Field,
    serve: Vector,
)
    requires
        steppable(old(state)@, dt as int, field@),
        serve.in_range(),
    ensures
        final(state)@ == next_state(old(state)@, dt as int, input, field@, serve@),
        final(state).in_range(),
{
    move_paddles(state, dt, input, field);
    let flown = move_ball(state.ball_pos, state.ball_vel, dt);
    settle(state, flown, field, serve);
}

/// Plays one tick of `dt` nanoseconds. Should a goal fall, the ball is
/// served with a velocity whose signs are drawn at random; without a goal
/// nothing is drawn and the outcome is determined.
///
/// Whatever is drawn: the scores follow the goal, after a goal the ball
/// rests in the middle of the field at the ball's speed, the paddles end
/// between the walls of a field that is high enough for them, and so does
/// the ball if no goal fell.
pub fn step(state: &mut MainState, dt: u64, input: InputSnapshot, field: Field)
    requires
        steppable(old(state)@, dt as int, field@),
    ensures
        exists|serve: Vec2| #[trigger]
            is_serve(serve) && final(state)@ == next_state(
                old(state)@,
                dt as int,
                input,
                field@,
                serve,
            ),
        goal_of(old(state)@, dt as int, field@) is None ==> final(state)@ == next_state(
            old(state)@,
            dt as int,
            input,
            field@,
            old(state)@.ball_vel,
        ),
        goal_of(old(state)@, dt as int, field@) is Some ==> {
            &&& final(state).ball_pos@ == center_of(field@)
            &&& is_serve(final(state).ball_vel@)
        },
        final(state).score_left == scored(
            old(state).score_left as nat,
            goal_of(old(state)@, dt as int, field@),
            Side::Left,
        ),
        final(state).score_right == scored(
            old(state).score_right as nat,
            goal_of(old(state)@, dt as int, field@),
            Side::Right,
        ),
        field.height >= PADDLE_HEIGHT ==> {
            &&& paddle_inside(final(state).paddle_left_pos.y as int, field@)
            &&& paddle_inside(final(state).paddle_right_pos.y as int, field@)
        },
        field.height >= BALL_SIZE && goal_of(old(state)@, dt as int, field@) is None
            ==> ball_inside(final(state).ball_pos.y as int, field@),
        final(state).in_range(),
{
    move_paddles(state, dt, input, field);
    let flown = move_ball(state.ball_pos, state.ball_vel, dt);
    let serve = match detect_goal(flown, field) {
        Some(_) => random_signed_vector(BALL_SPEED, BALL_SPEED),
        None => state.ball_vel,
    };
    settle(state, flown, field, serve);
    proof {
        let drawn = if goal_at(flown@, field@) is Some {
            serve@
        } else {
            Vec2 { x: BALL_SPEED as int, y: BALL_SPEED as int }
        };
        assert(is_serve(drawn));
        assert(state@ == next_state(old(state)@, dt as int, input, field@, drawn));
    }
}

} // verus!
