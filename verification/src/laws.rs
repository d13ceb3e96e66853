//! What holds of every tick, whatever the state, the keys and the serve.

use crate::geometry::{center_of, extent_in_range, within, Extent, Vec2, SPEED_LIMIT};
use crate::state::{ball_inside, is_serve, kickoff, model_in_range, paddle_inside};
use crate::state::{InputSnapshot, MatchModel, Side};
use crate::state::{BALL_SIZE, BALL_SIZE_HALF, BALL_SPEED, PADDLE_HEIGHT};
use crate::step::{ball_hits_paddle, goal_of, moved_ball, next_state, steppable};
use vstd::math::abs;
use vstd::prelude::*;

verus! {

/// A match starts in order: in range, with both paddles between the walls of
/// a field that is high enough for them, the ball between them too, flying at
/// the ball's speed.
pub proof fn lemma_kickoff_in_order(field: Extent, serve: Vec2)
    requires
        extent_in_range(field),
        field.height >= PADDLE_HEIGHT,
        is_serve(serve),
    ensures
        model_in_range(kickoff(field, serve)),
        paddle_inside(kickoff(field, serve).paddle_left_pos.y, field),
        paddle_inside(kickoff(field, serve).paddle_right_pos.y, field),
        ball_inside(kickoff(field, serve).ball_pos.y, field),
        is_serve(kickoff(field, serve).ball_vel),
{
}

/// A tick that `steppable` admits, with a serve in range, ends in range.
pub proof fn lemma_tick_keeps_range(
    m: MatchModel,
    dt: int,
    input: InputSnapshot,
    field: Extent,
    serve: Vec2,
)
    requires
        steppable(m, dt, field),
        within(serve, SPEED_LIMIT as int),
    ensures
        model_in_range(next_state(m, dt, input, field, serve)),
{
}

/// After a tick both paddles lie between the walls, wherever they were and
/// whichever keys were held, on every field that is high enough for a paddle.
pub proof fn lemma_paddles_stay_inside(
    m: MatchModel,
    dt: int,
    input: InputSnapshot,
    field: Extent,
    serve: Vec2,
)
    requires
        field.height >= PADDLE_HEIGHT,
    ensures
        paddle_inside(next_state(m, dt, input, field, serve).paddle_left_pos.y, field),
        paddle_inside(next_state(m, dt, input, field, serve).paddle_right_pos.y, field),
{
}

/// After a tick without a goal the ball lies between the walls, on every
/// field that is high enough for the ball.
pub proof fn lemma_ball_stays_inside(
    m: MatchModel,
    dt: int,
    input: InputSnapshot,
    field: Extent,
    serve: Vec2,
)
    requires
        goal_of(m, dt, field) is None,
        field.height >= BALL_SIZE,
    ensures
        ball_inside(next_state(m, dt, input, field, serve).ball_pos.y, field),
{
}

/// A tick gives a point to the player for whom the goal fell and to nobody
/// else: at most one score grows, by one, and none shrinks.
pub proof fn lemma_one_point_per_goal(
    m: MatchModel,
    dt: int,
    input: InputSnapshot,
    field: Extent,
    serve: Vec2,
)
    ensures
        ({
            let n = next_state(m, dt, input, field, serve);
            match goal_of(m, dt, field) {
                None => n.score_left == m.score_left && n.score_right == m.score_right,
                Some(Side::Left) => {
                    n.score_left == m.score_left + 1 && n.score_right == m.score_right
                },
                Some(Side::Right) => {
                    n.score_left == m.score_left && n.score_right == m.score_right + 1
                },
            }
        }),
{
}

/// After a goal the ball rests in the middle of the field and flies with the
/// ball's speed along each axis.
pub proof fn lemma_goal_resets_ball(
    m: MatchModel,
    dt: int,
    input: InputSnapshot,
    field: Extent,
    serve: Vec2,
)
    requires
        goal_of(m, dt, field) is Some,
        is_serve(serve),
    ensures
        next_state(m, dt, input, field, serve).ball_pos == center_of(field),
        abs(next_state(m, dt, input, field, serve).ball_vel.x) == BALL_SPEED,
        abs(next_state(m, dt, input, field, serve).ball_vel.y) == BALL_SPEED,
{
}

/// A ball that ends the tick on the left paddle, and not on the right one as
/// well, flies to the right afterwards, unless it stood still across the
/// field.
pub proof fn lemma_left_paddle_sends_ball_right(
    m: MatchModel,
    dt: int,
    input: InputSnapshot,
    field: Extent,
    serve: Vec2,
)
    requires
        m.ball_vel.x != 0,
        serve.x != 0,
        ({
            let n = next_state(m, dt, input, field, serve);
            &&& ball_hits_paddle(n.ball_pos, n.paddle_left_pos)
            &&& !ball_hits_paddle(n.ball_pos, n.paddle_right_pos)
        }),
    ensures
        next_state(m, dt, input, field, serve).ball_vel.x > 0,
{
}

/// A ball that ends the tick on the right paddle flies to the left
/// afterwards, unless it stood still across the field.
pub proof fn lemma_right_paddle_sends_ball_left(
    m: MatchModel,
    dt: int,
    input: InputSnapshot,
    field: Extent,
    serve: Vec2,
)
    requires
        m.ball_vel.x != 0,
        serve.x != 0,
        ({
            let n = next_state(m, dt, input, field, serve);
            ball_hits_paddle(n.ball_pos, n.paddle_right_pos)
        }),
    ensures
        next_state(m, dt, input, field, serve).ball_vel.x < 0,
{
}

/// A ball that has flown over the top wall, in a tick without a goal, ends
/// the tick set against that wall and flying downwards, unless it stood
/// still along the field. The field is taken to be high enough for the ball.
pub proof fn lemma_top_wall_sends_ball_down(
    m: MatchModel,
    dt: int,
    input: InputSnapshot,
    field: Extent,
    serve: Vec2,
)
    requires
        goal_of(m, dt, field) is None,
        field.height >= BALL_SIZE,
        m.ball_vel.y != 0,
        moved_ball(m.ball_pos, m.ball_vel, dt).y - BALL_SIZE_HALF < 0,
    ensures
        next_state(m, dt, input, field, serve).ball_pos.y == BALL_SIZE_HALF,
        next_state(m, dt, input, field, serve).ball_vel.y > 0,
{
}

/// A ball that has flown over the bottom wall, in a tick without a goal,
/// ends the tick set against that wall and flying upwards, unless it stood
/// still along the field. The field is taken to be high enough for the ball.
pub proof fn lemma_bottom_wall_sends_ball_up(
    m: MatchModel,
    dt: int,
    input: InputSnapshot,
    field: Extent,
    serve: Vec2,
)
    requires
        goal_of(m, dt, field) is None,
        field.height >= BALL_SIZE,
        m.ball_vel.y != 0,
        moved_ball(m.ball_pos, m.ball_vel, dt).y + BALL_SIZE_HALF > field.height,
    ensures
        next_state(m, dt, input, field, serve).ball_pos.y == field.height - BALL_SIZE_HALF,
        next_state(m, dt, input, field, serve).ball_vel.y < 0,
{
}

/// The ball keeps its speed along each axis: walls, paddles and serves
/// change the signs of its velocity and nothing else.
pub proof fn lemma_speed_is_kept(
    m: MatchModel,
    dt: int,
    input: InputSnapshot,
    field: Extent,
    serve: Vec2,
)
    requires
        is_serve(m.ball_vel),
        is_serve(serve),
    ensures
        is_serve(next_state(m, dt, input, field, serve).ball_vel),
{
}

/// Without a goal the serve plays no part: the tick has one outcome.
pub proof fn lemma_serve_matters_only_after_goal(
    m: MatchModel,
    dt: int,
    input: InputSnapshot,
    field: Extent,
    serve: Vec2,
    other: Vec2,
)
    requires
        goal_of(m, dt, field) is None,
    ensures
        next_state(m, dt, input, field, serve) == next_state(m, dt, input, field, other),
{
}

/// A paddle moves up and down only: a tick leaves it in its lane.
pub proof fn lemma_paddles_keep_their_lane(
    m: MatchModel,
    dt: int,
    input: InputSnapshot,
    field: Extent,
    serve: Vec2,
)
    ensures
        next_state(m, dt, input, field, serve).paddle_left_pos.x == m.paddle_left_pos.x,
        next_state(m, dt, input, field, serve).paddle_right_pos.x == m.paddle_right_pos.x,
{
}

/// With both keys of a paddle held, rising and sinking cancel: a paddle that
/// lies between the walls stays where it is.
pub proof fn lemma_opposite_keys_cancel(
    m: MatchModel,
    dt: int,
    input: InputSnapshot,
    field: Extent,
    serve: Vec2,
)
    ensures
        input.left_up && input.left_down && paddle_inside(m.paddle_left_pos.y, field)
            ==> next_state(m, dt, input, field, serve).paddle_left_pos == m.paddle_left_pos,
        input.right_up && input.right_down && paddle_inside(m.paddle_right_pos.y, field)
            ==> next_state(m, dt, input, field, serve).paddle_right_pos == m.paddle_right_pos,
{
}

/// What one tick is played with.
pub struct Tick {
    pub dt: int,
    pub input: InputSnapshot,
    pub field: Extent,
    pub serve: Vec2,
}

/// The match `m` after the given ticks, played in order.
pub open spec fn played(m: MatchModel, ticks: Seq<Tick>) -> MatchModel
    decreases ticks.len(),
{
    if ticks.len() == 0 {
        m
    } else {
        let t = ticks.last();
        next_state(played(m, ticks.drop_last()), t.dt, t.input, t.field, t.serve)
    }
}

/// After any run of ticks both paddles lie between the walls of the field
/// that the last tick was played on, if that field is high enough for a
/// paddle.
pub proof fn lemma_paddles_stay_inside_through_play(m: MatchModel, ticks: Seq<Tick>)
    requires
        ticks.len() > 0,
        ticks.last().field.height >= PADDLE_HEIGHT,
    ensures
        paddle_inside(played(m, ticks).paddle_left_pos.y, ticks.last().field),
        paddle_inside(played(m, ticks).paddle_right_pos.y, ticks.last().field),
{
    let t = ticks.last();
    lemma_paddles_stay_inside(played(m, ticks.drop_last()), t.dt, t.input, t.field, t.serve);
}

/// Through any run of ticks no score falls, and the two scores together grow
/// by at most one point per tick.
pub proof fn lemma_scores_never_fall(m: MatchModel, ticks: Seq<Tick>)
    ensures
        played(m, ticks).score_left >= m.score_left,
        played(m, ticks).score_right >= m.score_right,
        played(m, ticks).score_left + played(m, ticks).score_right <= m.score_left
            + m.score_right + ticks.len(),
    decreases ticks.len(),
{
    if ticks.len() > 0 {
        let t = ticks.last();
        lemma_scores_never_fall(m, ticks.drop_last());
        lemma_one_point_per_goal(played(m, ticks.drop_last()), t.dt, t.input, t.field, t.serve);
    }
}

} // verus!
