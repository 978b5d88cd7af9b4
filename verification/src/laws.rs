//! The simulation's general laws, stated over the tick models and
//! proved for every input they speak of.

use vstd::prelude::*;

use crate::components::{BallV, PlayerV, Side};
use crate::math::{
    V2, abs_i, div_ceil_s, isqrt_s, lemma_div_ceil_mul_ge, lemma_isqrt_bounds, norm2,
};
use crate::resources::{ConfigV, StateV};
use crate::systems::{
    MIN_BOUNCE_SPEED, ball_paddle_m, bounce_away_m, move_ball_m, overlap_m, paddle_hit_m,
    paddle_input_m, rescale_comp_m, rescale_m, spin_m, tick_m, wall_m,
};
use crate::world::WorldV;

verus! {

/// Movement is deterministic and additive: one step of `dt1` followed
/// by one of `dt2` lands exactly where a single step of `dt1 + dt2`
/// does, and neither touches the velocity.
pub proof fn lemma_movement_additive(b: BallV, dt1: int, dt2: int)
    requires
        0 <= dt1,
        0 <= dt2,
    ensures
        move_ball_m(move_ball_m(b, dt1), dt2) == move_ball_m(b, dt1 + dt2),
{
    assert(b.vel.x * dt1 + b.vel.x * dt2 == b.vel.x * (dt1 + dt2)) by (nonlinear_arith);
    assert(b.vel.y * dt1 + b.vel.y * dt2 == b.vel.y * (dt1 + dt2)) by (nonlinear_arith);
}

/// Rescaling a non-zero velocity reaches the minimum bounce speed:
/// rounding each component away from zero makes up for the rounded-down
/// length estimate, so the squared length of the result is at least
/// `MIN_BOUNCE_SPEED * MIN_BOUNCE_SPEED`.
pub proof fn lemma_rescale_reaches_min(v: V2)
    requires
        v.x != 0 || v.y != 0,
    ensures
        norm2(rescale_m(v)) >= MIN_BOUNCE_SPEED * MIN_BOUNCE_SPEED,
{
    let s = norm2(v);
    let cx = abs_i(v.x);
    let cy = abs_i(v.y);
    assert(s == cx * cx + cy * cy && s >= 1) by (nonlinear_arith)
        requires
            s == v.x * v.x + v.y * v.y,
            cx == abs_i(v.x),
            cy == abs_i(v.y),
            v.x != 0 || v.y != 0,
    ;
    lemma_isqrt_bounds(s as nat);
    let m = isqrt_s(s as nat) as int;
    assert(m >= 1) by (nonlinear_arith)
        requires
            m * m <= s,
            s < (m + 1) * (m + 1),
            s >= 1,
            m >= 0,
    ;
    assert(m * m >= 1) by (nonlinear_arith)
        requires
            m >= 1,
    ;
    let a = div_ceil_s(cx * MIN_BOUNCE_SPEED, m);
    let b = div_ceil_s(cy * MIN_BOUNCE_SPEED, m);
    lemma_div_ceil_mul_ge(cx * MIN_BOUNCE_SPEED, m);
    lemma_div_ceil_mul_ge(cy * MIN_BOUNCE_SPEED, m);
    assert(a * a * (m * m) >= (cx * cx) * (MIN_BOUNCE_SPEED * MIN_BOUNCE_SPEED))
        by (nonlinear_arith)
        requires
            a * m >= cx * MIN_BOUNCE_SPEED,
            cx >= 0,
            a >= 0,
    ;
    assert(b * b * (m * m) >= (cy * cy) * (MIN_BOUNCE_SPEED * MIN_BOUNCE_SPEED))
        by (nonlinear_arith)
        requires
            b * m >= cy * MIN_BOUNCE_SPEED,
            cy >= 0,
            b >= 0,
    ;
    assert((a * a + b * b) * (m * m) >= (m * m) * (MIN_BOUNCE_SPEED * MIN_BOUNCE_SPEED))
        by (nonlinear_arith)
        requires
            a * a * (m * m) >= (cx * cx) * (MIN_BOUNCE_SPEED * MIN_BOUNCE_SPEED),
            b * b * (m * m) >= (cy * cy) * (MIN_BOUNCE_SPEED * MIN_BOUNCE_SPEED),
            s == cx * cx + cy * cy,
            s >= m * m,
    ;
    assert(a * a + b * b >= MIN_BOUNCE_SPEED * MIN_BOUNCE_SPEED) by (nonlinear_arith)
        requires
            (a * a + b * b) * (m * m) >= (m * m) * (MIN_BOUNCE_SPEED * MIN_BOUNCE_SPEED),
            m * m >= 1,
    ;
    assert(rescale_comp_m(v.x, m) * rescale_comp_m(v.x, m) == a * a) by (nonlinear_arith)
        requires
            rescale_comp_m(v.x, m) == a || rescale_comp_m(v.x, m) == -a,
    ;
    assert(rescale_comp_m(v.y, m) * rescale_comp_m(v.y, m) == b * b) by (nonlinear_arith)
        requires
            rescale_comp_m(v.y, m) == b || rescale_comp_m(v.y, m) == -b,
    ;
}

/// The minimum-speed rule holds of every resolved paddle hit: whatever
/// the incoming velocity and wherever the contact, the outgoing
/// velocity's squared length is at least
/// `MIN_BOUNCE_SPEED * MIN_BOUNCE_SPEED`.
pub proof fn lemma_min_speed_enforced(b: BallV, paddle_pos: V2, cfg: ConfigV, side: Side)
    requires
        cfg.wf(),
    ensures
        norm2(paddle_hit_m(b, paddle_pos, cfg, side).vel) >= MIN_BOUNCE_SPEED
            * MIN_BOUNCE_SPEED,
{
    let v = V2 {
        x: -b.vel.x,
        y: b.vel.y + spin_m(b.pos.y - paddle_pos.y, cfg.paddle_height / 2),
    };
    if norm2(v) >= MIN_BOUNCE_SPEED * MIN_BOUNCE_SPEED {
    } else if v.x == 0 && v.y == 0 {
        let d = bounce_away_m(side);
        assert((d * MIN_BOUNCE_SPEED) * (d * MIN_BOUNCE_SPEED) + 0 * 0 >= MIN_BOUNCE_SPEED
            * MIN_BOUNCE_SPEED) by (nonlinear_arith)
            requires
                d == 1 || d == -1,
        ;
    } else {
        lemma_rescale_reaches_min(v);
    }
}

/// A dead-centre hit reflects cleanly: the horizontal velocity flips,
/// the vertical velocity is unchanged (the hit offset, and so the spin,
/// is zero), and the ball leaves at or above the minimum bounce speed.
/// Stated for incoming velocities already at or above that minimum; a
/// slower centred ball is rescaled, which moves its vertical component.
pub proof fn lemma_center_hit_reflects(b: BallV, paddle_pos: V2, cfg: ConfigV, side: Side)
    requires
        cfg.wf(),
        b.pos.y == paddle_pos.y,
        norm2(b.vel) >= MIN_BOUNCE_SPEED * MIN_BOUNCE_SPEED,
    ensures
        paddle_hit_m(b, paddle_pos, cfg, side).vel.x == -b.vel.x,
        paddle_hit_m(b, paddle_pos, cfg, side).vel.y == b.vel.y,
        norm2(paddle_hit_m(b, paddle_pos, cfg, side).vel) >= MIN_BOUNCE_SPEED
            * MIN_BOUNCE_SPEED,
{
    let hph = cfg.paddle_height / 2;
    vstd::arithmetic::div_mod::lemma_div_of0(hph);
    assert(spin_m(0, hph) == 0);
    let v = V2 { x: -b.vel.x, y: b.vel.y };
    assert(norm2(v) == norm2(b.vel)) by (nonlinear_arith)
        requires
            v.x == -b.vel.x,
            v.y == b.vel.y,
    ;
}

/// Scoring reset, right side: however far past the right edge the ball
/// sits, it is re-centred with its horizontal velocity reversed, the
/// right score rises by exactly one, and the left score is untouched.
pub proof fn lemma_scoring_reset_right(
    b: BallV,
    st: StateV,
    half_width: int,
    half_height: int,
    eps: int,
)
    requires
        0 <= eps,
        b.pos.x == half_width + eps,
    ensures
        wall_m(b, st, half_width, half_height).0.pos == (V2 { x: 0, y: 0 }),
        wall_m(b, st, half_width, half_height).0.vel.x == -b.vel.x,
        wall_m(b, st, half_width, half_height).1.score_right == st.score_right + 1,
        wall_m(b, st, half_width, half_height).1.score_left == st.score_left,
        wall_m(b, st, half_width, half_height).2 == Some(Side::Right),
{
}

/// Scoring reset, left side: the mirror image of the right-side rule,
/// crediting the left score.  Stated for a positive field width, which
/// keeps the two edges apart.
pub proof fn lemma_scoring_reset_left(
    b: BallV,
    st: StateV,
    half_width: int,
    half_height: int,
    eps: int,
)
    requires
        0 <= eps,
        0 < half_width,
        b.pos.x == -half_width - eps,
    ensures
        wall_m(b, st, half_width, half_height).0.pos == (V2 { x: 0, y: 0 }),
        wall_m(b, st, half_width, half_height).0.vel.x == -b.vel.x,
        wall_m(b, st, half_width, half_height).1.score_left == st.score_left + 1,
        wall_m(b, st, half_width, half_height).1.score_right == st.score_right,
        wall_m(b, st, half_width, half_height).2 == Some(Side::Left),
{
}

/// The vertical bounce corrects nothing: a ball at or beyond the top or
/// bottom edge (and between the side edges) has only its vertical
/// velocity reversed; its position, including the out-of-bounds
/// coordinate, is left exactly where it was.
pub proof fn lemma_vertical_bounce_no_correction(
    b: BallV,
    st: StateV,
    half_width: int,
    half_height: int,
)
    requires
        b.pos.y >= half_height || b.pos.y <= -half_height,
        -half_width < b.pos.x < half_width,
    ensures
        wall_m(b, st, half_width, half_height).0.pos == b.pos,
        wall_m(b, st, half_width, half_height).0.vel.x == b.vel.x,
        wall_m(b, st, half_width, half_height).0.vel.y == -b.vel.y,
        wall_m(b, st, half_width, half_height).1 == st,
        wall_m(b, st, half_width, half_height).2 == None::<Side>,
{
}

/// The paddle bound clamps exactly: a paddle one unit under the top
/// edge, pushed upward for however large a `dt`, ends at
/// `half_height - paddle_height / 2`, never beyond.
pub proof fn lemma_paddle_clamped_at_top(
    p: PlayerV,
    speed: int,
    dt: int,
    half_height: int,
    cfg: ConfigV,
)
    requires
        cfg.wf(),
        cfg.paddle_height / 2 <= half_height,
        p.pos.y == half_height - 1,
        0 <= speed,
        0 <= dt,
    ensures
        paddle_input_m(p, speed, 1, dt, half_height, cfg).pos.y == half_height
            - cfg.paddle_height / 2,
        paddle_input_m(p, speed, 1, dt, half_height, cfg).pos.x == p.pos.x,
{
    assert(speed * dt >= 0) by (nonlinear_arith)
        requires
            0 <= speed,
            0 <= dt,
    ;
    assert(1 * (speed * dt) == speed * dt) by (nonlinear_arith);
}

/// A tick keeps the world well-formed and the read-only resources
/// untouched: the configuration, the paddle speeds, the players' sides
/// and the running flag all survive unchanged; scores never fall, and at
/// most one of them rises, by exactly one.
pub proof fn lemma_tick_preserves_wf(
    w: WorldV,
    dt: int,
    left_dir: int,
    right_dir: int,
    half_width: int,
    half_height: int,
)
    requires
        w.wf(),
    ensures
        tick_m(w, dt, left_dir, right_dir, half_width, half_height).0.wf(),
        tick_m(w, dt, left_dir, right_dir, half_width, half_height).0.config == w.config,
        tick_m(w, dt, left_dir, right_dir, half_width, half_height).0.paddle_left_speed
            == w.paddle_left_speed,
        tick_m(w, dt, left_dir, right_dir, half_width, half_height).0.paddle_right_speed
            == w.paddle_right_speed,
        tick_m(w, dt, left_dir, right_dir, half_width, half_height).0.state.running
            == w.state.running,
        tick_m(w, dt, left_dir, right_dir, half_width, half_height).0.state.score_left
            >= w.state.score_left,
        tick_m(w, dt, left_dir, right_dir, half_width, half_height).0.state.score_right
            >= w.state.score_right,
        tick_m(w, dt, left_dir, right_dir, half_width, half_height).0.state.score_left + tick_m(
            w,
            dt,
            left_dir,
            right_dir,
            half_width,
            half_height,
        ).0.state.score_right <= w.state.score_left + w.state.score_right + 1,
{
}

/// No double collision: a ball overlapping both paddles in one tick is
/// resolved against the first alone; the second is never consulted.
pub proof fn lemma_single_collision(b: BallV, first: PlayerV, second: PlayerV, cfg: ConfigV)
    requires
        overlap_m(b, first.pos, cfg),
        overlap_m(b, second.pos, cfg),
    ensures
        ball_paddle_m(b, first, second, cfg).0 == paddle_hit_m(b, first.pos, cfg, first.side),
        ball_paddle_m(b, first, second, cfg).1 == Some(first.side),
{
}

} // verus!
