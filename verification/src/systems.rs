//! The four per-tick stages of the simulation, each proved against a
//! mathematical model over unbounded integers.
//!
//! Per tick the stages run in a fixed order: paddle input, ball movement,
//! ball-paddle collision, ball-wall collision and scoring.  Each stage
//! reads the positions the previous one wrote.

use vstd::prelude::*;

use crate::components::{Ball, BallV, PlayerV, Player, Side};
use crate::math::{V2, Vec2, abs_i, clamp, clamp_i, div_ceil, div_ceil_s, isqrt, isqrt_s, norm2};
use crate::resources::{COORD_LIMIT, ConfigV, GameConfig, GameState, StateV, VEL_LIMIT};
use crate::world::{World, WorldV};

verus! {

/// After a paddle bounce the ball's speed never falls below this.
pub const MIN_BOUNCE_SPEED: i64 = 200;

/// Vertical velocity gained per full half-paddle of offset at a hit.
pub const SPIN_STRENGTH: i64 = 100;

/// `x` fits an `i64`.
pub open spec fn in_i64(x: int) -> bool {
    i64::MIN <= x <= i64::MAX
}

/// A ball whose coordinates and velocity components are within the
/// bounds that keep a tick's arithmetic inside `i64`.
pub open spec fn ball_ok(b: BallV) -> bool {
    &&& abs_i(b.pos.x) <= COORD_LIMIT
    &&& abs_i(b.pos.y) <= COORD_LIMIT
    &&& abs_i(b.vel.x) <= VEL_LIMIT
    &&& abs_i(b.vel.y) <= VEL_LIMIT
}

/// A player whose paddle coordinates are within bounds.
pub open spec fn player_ok(p: PlayerV) -> bool {
    &&& abs_i(p.pos.x) <= COORD_LIMIT
    &&& abs_i(p.pos.y) <= COORD_LIMIT
}

// ---------------------------------------------------------------------
// Movement
// ---------------------------------------------------------------------

/// Model of one movement step: the position advances by `vel * dt`.
pub open spec fn move_ball_m(b: BallV, dt: int) -> BallV {
    BallV {
        pos: V2 { x: b.pos.x + b.vel.x * dt, y: b.pos.y + b.vel.y * dt },
        vel: b.vel,
    }
}

/// The movement step's arithmetic stays inside `i64`.
pub open spec fn move_fits(b: BallV, dt: int) -> bool {
    &&& in_i64(b.vel.x * dt)
    &&& in_i64(b.vel.y * dt)
    &&& in_i64(b.pos.x + b.vel.x * dt)
    &&& in_i64(b.pos.y + b.vel.y * dt)
}

/// Integrates the ball's position over the elapsed time `dt`.
///
/// The velocity is untouched; nothing else of the ball changes.
pub fn move_ball(ball: &mut Ball, dt: i64)
    requires
        0 <= dt,
        move_fits(old(ball)@, dt as int),
    ensures
        final(ball)@ == move_ball_m(old(ball)@, dt as int),
{
    ball.position.x = ball.position.x + ball.velocity.x * dt;
    ball.position.y = ball.position.y + ball.velocity.y * dt;
}

// ---------------------------------------------------------------------
// Paddle input
// ---------------------------------------------------------------------

/// Model of one paddle-input step: with a non-zero direction the paddle
/// moves by `dir * speed * dt` and is clamped so it stays inside the
/// field; with direction zero nothing moves.
pub open spec fn paddle_input_m(
    p: PlayerV,
    speed: int,
    dir: int,
    dt: int,
    half_height: int,
    cfg: ConfigV,
) -> PlayerV {
    if dir == 0 {
        p
    } else {
        PlayerV {
            pos: V2 {
                x: p.pos.x,
                y: clamp_i(
                    p.pos.y + dir * (speed * dt),
                    -half_height + cfg.paddle_height / 2,
                    half_height - cfg.paddle_height / 2,
                ),
            },
            ..p
        }
    }
}

/// The paddle-input step's arithmetic stays inside `i64`.
pub open spec fn input_fits(p: PlayerV, speed: int, dir: int, dt: int) -> bool {
    &&& speed * dt <= i64::MAX
    &&& in_i64(p.pos.y + dir * (speed * dt))
}

/// Applies one player's resolved input direction to their paddle.
///
/// `direction` is `-1`, `0` or `1`; the vertical position moves by
/// `direction * speed * dt` and is then clamped to
/// `[-half_height + paddle_height / 2, half_height - paddle_height / 2]`.
/// Side and score are untouched.
pub fn handle_paddle_input(
    player: &mut Player,
    speed: i64,
    direction: i64,
    dt: i64,
    half_height: i64,
    config: &GameConfig,
)
    requires
        -1 <= direction <= 1,
        0 <= dt,
        0 <= speed,
        config@.wf(),
        0 <= half_height <= COORD_LIMIT,
        config@.paddle_height / 2 <= half_height,
        input_fits(old(player)@, speed as int, direction as int, dt as int),
    ensures
        final(player)@ == paddle_input_m(
            old(player)@,
            speed as int,
            direction as int,
            dt as int,
            half_height as int,
            config@,
        ),
{
    if direction != 0 {
        let step: i64 = speed * dt;
        let signed_step: i64 = if direction < 0 {
            -step
        } else {
            step
        };
        proof {
            let d: int = direction as int;
            let s: int = (speed as int) * (dt as int);
            if direction < 0 {
                assert(d * s == -s) by (nonlinear_arith)
                    requires
                        d == -1,
                ;
            } else {
                assert(d * s == s) by (nonlinear_arith)
                    requires
                        d == 1,
                ;
            }
        }
        assert(signed_step == direction * (speed * dt));
        let moved: i64 = player.position.y + signed_step;
        let half_ph: i64 = config.paddle_height / 2;
        player.position.y = clamp(moved, -half_height + half_ph, half_height - half_ph);
    }
}

// ---------------------------------------------------------------------
// Ball-paddle collision
// ---------------------------------------------------------------------

/// The ball's box (`position` plus or minus half its size) and the
/// paddle's box overlap, edges touching included.
pub open spec fn overlap_m(b: BallV, paddle_pos: V2, cfg: ConfigV) -> bool {
    let br = cfg.ball_size / 2;
    let hw = cfg.paddle_width / 2;
    let hh = cfg.paddle_height / 2;
    &&& b.pos.x + br >= paddle_pos.x - hw
    &&& b.pos.x - br <= paddle_pos.x + hw
    &&& b.pos.y + br >= paddle_pos.y - hh
    &&& b.pos.y - br <= paddle_pos.y + hh
}

/// Vertical velocity gained at a hit `dy` units above the paddle's
/// centre: `dy * SPIN_STRENGTH / half_ph`, rounded toward zero.
pub open spec fn spin_m(dy: int, half_ph: int) -> int {
    if dy >= 0 {
        dy * SPIN_STRENGTH / half_ph
    } else {
        -((-dy) * SPIN_STRENGTH / half_ph)
    }
}

/// One component of a velocity rescaled to the minimum bounce speed:
/// `c * MIN_BOUNCE_SPEED / m`, rounded away from zero, where `m` is the
/// rounded-down length of the whole vector.  Rounding away from zero is
/// what keeps the rescaled vector's length at or above the minimum.
pub open spec fn rescale_comp_m(c: int, m: int) -> int {
    if c >= 0 {
        div_ceil_s(c * MIN_BOUNCE_SPEED, m)
    } else {
        -div_ceil_s((-c) * MIN_BOUNCE_SPEED, m)
    }
}

/// A velocity rescaled so its length is at least `MIN_BOUNCE_SPEED`,
/// keeping its direction as nearly as integer arithmetic allows.
pub open spec fn rescale_m(v: V2) -> V2 {
    let m = isqrt_s(norm2(v) as nat) as int;
    V2 { x: rescale_comp_m(v.x, m), y: rescale_comp_m(v.y, m) }
}

/// The horizontal direction leading away from a paddle, back toward the
/// field's centre: right for the left paddle, left for the right one.
pub open spec fn bounce_away_m(side: Side) -> int {
    match side {
        Side::Left => 1,
        Side::Right => -1,
    }
}

/// Model of resolving a hit against one paddle:
/// 1. the horizontal velocity is reflected;
/// 2. spin is added from the vertical offset of the contact point;
/// 3. a velocity slower than `MIN_BOUNCE_SPEED` is rescaled up to it —
///    a degenerate zero velocity leaves straight back toward the centre.
pub open spec fn paddle_hit_m(b: BallV, paddle_pos: V2, cfg: ConfigV, side: Side) -> BallV {
    let v = V2 {
        x: -b.vel.x,
        y: b.vel.y + spin_m(b.pos.y - paddle_pos.y, cfg.paddle_height / 2),
    };
    let w = if norm2(v) >= MIN_BOUNCE_SPEED * MIN_BOUNCE_SPEED {
        v
    } else if v.x == 0 && v.y == 0 {
        V2 { x: bounce_away_m(side) * MIN_BOUNCE_SPEED, y: 0 }
    } else {
        rescale_m(v)
    };
    BallV { pos: b.pos, vel: w }
}

/// Model of the whole collision stage: the first overlapping paddle, in
/// the order given, resolves the hit; the other is not consulted.
pub open spec fn ball_paddle_m(b: BallV, first: PlayerV, second: PlayerV, cfg: ConfigV) -> (
    BallV,
    Option<Side>,
) {
    if overlap_m(b, first.pos, cfg) {
        (paddle_hit_m(b, first.pos, cfg, first.side), Some(first.side))
    } else if overlap_m(b, second.pos, cfg) {
        (paddle_hit_m(b, second.pos, cfg, second.side), Some(second.side))
    } else {
        (b, None)
    }
}

/// Axis-aligned box test between the ball and one paddle.
fn overlaps(ball: &Ball, paddle_pos: Vec2, config: &GameConfig) -> (r: bool)
    requires
        config@.wf(),
        ball_ok(ball@),
        abs_i(paddle_pos@.x) <= COORD_LIMIT,
        abs_i(paddle_pos@.y) <= COORD_LIMIT,
    ensures
        r == overlap_m(ball@, paddle_pos@, config@),
{
    let br: i64 = config.ball_size / 2;
    let hw: i64 = config.paddle_width / 2;
    let hh: i64 = config.paddle_height / 2;
    ball.position.x + br >= paddle_pos.x - hw && ball.position.x - br <= paddle_pos.x + hw
        && ball.position.y + br >= paddle_pos.y - hh && ball.position.y - br <= paddle_pos.y + hh
}

/// One velocity component scaled up to the minimum bounce speed.
fn rescale_comp(c: i64, m: u64) -> (r: i64)
    requires
        1 <= m <= MIN_BOUNCE_SPEED,
        abs_i(c as int) <= m,
    ensures
        r == rescale_comp_m(c as int, m as int),
{
    proof {
        crate::math::lemma_div_ceil_le(abs_i(c as int) * MIN_BOUNCE_SPEED, m as int);
        assert(abs_i(c as int) * MIN_BOUNCE_SPEED <= MIN_BOUNCE_SPEED * MIN_BOUNCE_SPEED)
            by (nonlinear_arith)
            requires
                abs_i(c as int) <= m <= MIN_BOUNCE_SPEED,
                0 <= abs_i(c as int),
        ;
    }
    if c >= 0 {
        div_ceil((c as u64) * (MIN_BOUNCE_SPEED as u64), m) as i64
    } else {
        -(div_ceil(((-c) as u64) * (MIN_BOUNCE_SPEED as u64), m) as i64)
    }
}

/// Resolves a hit against one paddle, per [`paddle_hit_m`].
fn resolve_paddle_hit(ball: &mut Ball, paddle_pos: Vec2, side: Side, config: &GameConfig)
    requires
        config@.wf(),
        ball_ok(old(ball)@),
        abs_i(paddle_pos@.y) <= COORD_LIMIT,
        overlap_m(old(ball)@, paddle_pos@, config@),
    ensures
        final(ball)@ == paddle_hit_m(old(ball)@, paddle_pos@, config@, side),
{
    let half_ph: i64 = config.paddle_height / 2;
    let vx: i64 = -ball.velocity.x;
    let dy: i64 = ball.position.y - paddle_pos.y;
    assert(abs_i(dy as int) <= config@.paddle_height / 2 + config@.ball_size / 2);
    let spin: i64 = if dy >= 0 {
        (dy * SPIN_STRENGTH) / half_ph
    } else {
        -(((-dy) * SPIN_STRENGTH) / half_ph)
    };
    proof {
        if dy >= 0 {
            vstd::arithmetic::div_mod::lemma_div_nonincreasing(
                dy as int * SPIN_STRENGTH,
                half_ph as int,
            );
            vstd::arithmetic::div_mod::lemma_div_pos_is_pos(
                dy as int * SPIN_STRENGTH,
                half_ph as int,
            );
        } else {
            vstd::arithmetic::div_mod::lemma_div_nonincreasing(
                (-dy) as int * SPIN_STRENGTH,
                half_ph as int,
            );
            vstd::arithmetic::div_mod::lemma_div_pos_is_pos(
                (-dy) as int * SPIN_STRENGTH,
                half_ph as int,
            );
        }
    }
    assert(spin == spin_m(dy as int, half_ph as int));
    assert(abs_i(spin as int) <= 100_000_000);
    let vy: i64 = ball.velocity.y + spin;
    assert(vx * vx + vy * vy <= 3_000_000_000_000_000_000i64) by (nonlinear_arith)
        requires
            abs_i(vx as int) <= VEL_LIMIT,
            abs_i(vy as int) <= VEL_LIMIT + 100_000_000,
    ;
    assert(vx * vx >= 0 && vy * vy >= 0) by (nonlinear_arith);
    let s: i64 = vx * vx + vy * vy;
    if s < MIN_BOUNCE_SPEED * MIN_BOUNCE_SPEED {
        if vx == 0 && vy == 0 {
            let away: i64 = match side {
                Side::Left => MIN_BOUNCE_SPEED,
                Side::Right => -MIN_BOUNCE_SPEED,
            };
            proof {
                assert(1 * MIN_BOUNCE_SPEED == MIN_BOUNCE_SPEED) by (nonlinear_arith);
                assert((-1) * MIN_BOUNCE_SPEED == -MIN_BOUNCE_SPEED) by (nonlinear_arith);
            }
            ball.velocity = Vec2 { x: away, y: 0 };
        } else {
            let m: u64 = isqrt(s as u64);
            proof {
                let si = s as int;
                let mi = m as int;
                assert(si >= 1) by (nonlinear_arith)
                    requires
                        si == (vx as int) * (vx as int) + (vy as int) * (vy as int),
                        (vx as int) != 0 || (vy as int) != 0,
                ;
                assert(mi >= 1) by (nonlinear_arith)
                    requires
                        mi * mi <= si,
                        si < (mi + 1) * (mi + 1),
                        si >= 1,
                        mi >= 0,
                ;
                assert(mi <= MIN_BOUNCE_SPEED) by (nonlinear_arith)
                    requires
                        mi * mi <= si,
                        si < MIN_BOUNCE_SPEED * MIN_BOUNCE_SPEED,
                        mi >= 0,
                ;
                assert(abs_i(vx as int) <= mi) by (nonlinear_arith)
                    requires
                        (vx as int) * (vx as int) + (vy as int) * (vy as int) == si,
                        (vy as int) * (vy as int) >= 0,
                        si < (mi + 1) * (mi + 1),
                        mi >= 0,
                ;
                assert(abs_i(vy as int) <= mi) by (nonlinear_arith)
                    requires
                        (vx as int) * (vx as int) + (vy as int) * (vy as int) == si,
                        (vx as int) * (vx as int) >= 0,
                        si < (mi + 1) * (mi + 1),
                        mi >= 0,
                ;
            }
            let nx: i64 = rescale_comp(vx, m);
            let ny: i64 = rescale_comp(vy, m);
            ball.velocity = Vec2 { x: nx, y: ny };
        }
    } else {
        ball.velocity = Vec2 { x: vx, y: vy };
    }
}

/// Detects and resolves a hit between the ball and the first overlapping
/// paddle, in the order the paddles are given; at most one paddle
/// resolves per tick.  Returns the struck paddle's side, for the
/// caller's logging.
pub fn handle_ball_paddle_collision(
    ball: &mut Ball,
    first: &Player,
    second: &Player,
    config: &GameConfig,
) -> (hit: Option<Side>)
    requires
        config@.wf(),
        ball_ok(old(ball)@),
        player_ok(first@),
        player_ok(second@),
    ensures
        final(ball)@ == ball_paddle_m(old(ball)@, first@, second@, config@).0,
        hit == ball_paddle_m(old(ball)@, first@, second@, config@).1,
{
    if overlaps(ball, first.position, config) {
        resolve_paddle_hit(ball, first.position, first.side, config);
        Some(first.side)
    } else if overlaps(ball, second.position, config) {
        resolve_paddle_hit(ball, second.position, second.side, config);
        Some(second.side)
    } else {
        None
    }
}

// ---------------------------------------------------------------------
// Ball-wall collision and scoring
// ---------------------------------------------------------------------

/// Model of the wall stage, in order:
/// 1. at or beyond the top or bottom edge the vertical velocity is
///    reversed — the position is deliberately not corrected, so the ball
///    may sit outside the field for a tick;
/// 2. at or beyond the right edge the right side is credited a point,
///    the ball is re-centred and its horizontal velocity reversed; the
///    left edge is the mirror image.  Scoring leaves the vertical
///    velocity alone.
pub open spec fn wall_m(b: BallV, st: StateV, half_width: int, half_height: int) -> (
    BallV,
    StateV,
    Option<Side>,
) {
    let vy = if b.pos.y >= half_height || b.pos.y <= -half_height {
        -b.vel.y
    } else {
        b.vel.y
    };
    if b.pos.x >= half_width {
        (
            BallV { pos: V2 { x: 0, y: 0 }, vel: V2 { x: -b.vel.x, y: vy } },
            StateV { score_right: st.score_right + 1, ..st },
            Some(Side::Right),
        )
    } else if b.pos.x <= -half_width {
        (
            BallV { pos: V2 { x: 0, y: 0 }, vel: V2 { x: -b.vel.x, y: vy } },
            StateV { score_left: st.score_left + 1, ..st },
            Some(Side::Left),
        )
    } else {
        (BallV { pos: b.pos, vel: V2 { x: b.vel.x, y: vy } }, st, None)
    }
}

/// Bounces the ball off the top and bottom edges and scores a point
/// when it leaves the field on the left or right, per [`wall_m`].
/// Returns the credited side, for the caller's logging.
pub fn handle_ball_wall_collision(
    ball: &mut Ball,
    state: &mut GameState,
    half_width: i64,
    half_height: i64,
) -> (scored: Option<Side>)
    requires
        old(ball).velocity.x > i64::MIN,
        old(ball).velocity.y > i64::MIN,
        i64::MIN < half_width,
        old(ball)@.pos.x >= half_width ==> old(state)@.score_right < u32::MAX,
        old(ball)@.pos.x < half_width && old(ball)@.pos.x <= -half_width ==> old(
            state,
        )@.score_left < u32::MAX,
    ensures
        final(ball)@ == wall_m(old(ball)@, old(state)@, half_width as int, half_height as int).0,
        final(state)@ == wall_m(old(ball)@, old(state)@, half_width as int, half_height as int).1,
        scored == wall_m(old(ball)@, old(state)@, half_width as int, half_height as int).2,
{
    if ball.position.y >= half_height || ball.position.y <= -half_height {
        ball.velocity.y = -ball.velocity.y;
    }
    if ball.position.x >= half_width {
        state.score_right = state.score_right + 1;
        ball.position = Vec2 { x: 0, y: 0 };
        ball.velocity.x = -ball.velocity.x;
        Some(Side::Right)
    } else if ball.position.x <= -half_width {
        state.score_left = state.score_left + 1;
        ball.position = Vec2 { x: 0, y: 0 };
        ball.velocity.x = -ball.velocity.x;
        Some(Side::Left)
    } else {
        None
    }
}

// ---------------------------------------------------------------------
// The tick pipeline
// ---------------------------------------------------------------------

/// A resolved hit leaves the ball where it was, and leaves its velocity
/// components well inside `i64`: reflection keeps the magnitude, the
/// spin of an overlapping contact adds at most
/// `SIZE_LIMIT * SPIN_STRENGTH`, and rescaling caps a slow velocity near
/// `MIN_BOUNCE_SPEED`.
pub proof fn lemma_paddle_hit_bounded(b: BallV, paddle_pos: V2, cfg: ConfigV, side: Side)
    requires
        cfg.wf(),
        abs_i(b.vel.x) <= VEL_LIMIT,
        abs_i(b.vel.y) <= VEL_LIMIT,
        overlap_m(b, paddle_pos, cfg),
    ensures
        paddle_hit_m(b, paddle_pos, cfg, side).pos == b.pos,
        abs_i(paddle_hit_m(b, paddle_pos, cfg, side).vel.x) <= VEL_LIMIT + 100_000_000,
        abs_i(paddle_hit_m(b, paddle_pos, cfg, side).vel.y) <= VEL_LIMIT + 100_000_000,
{
    let hph = cfg.paddle_height / 2;
    let dy = b.pos.y - paddle_pos.y;
    let spin = spin_m(dy, hph);
    assert(abs_i(dy) <= hph + cfg.ball_size / 2);
    if dy >= 0 {
        vstd::arithmetic::div_mod::lemma_div_nonincreasing(dy * SPIN_STRENGTH, hph);
        vstd::arithmetic::div_mod::lemma_div_pos_is_pos(dy * SPIN_STRENGTH, hph);
    } else {
        vstd::arithmetic::div_mod::lemma_div_nonincreasing((-dy) * SPIN_STRENGTH, hph);
        vstd::arithmetic::div_mod::lemma_div_pos_is_pos((-dy) * SPIN_STRENGTH, hph);
    }
    assert(abs_i(spin) <= 100_000_000);
    let v = V2 { x: -b.vel.x, y: b.vel.y + spin };
    if norm2(v) >= MIN_BOUNCE_SPEED * MIN_BOUNCE_SPEED {
    } else if v.x == 0 && v.y == 0 {
        assert(abs_i(bounce_away_m(side) * MIN_BOUNCE_SPEED) <= MIN_BOUNCE_SPEED)
            by (nonlinear_arith)
            requires
                bounce_away_m(side) == 1 || bounce_away_m(side) == -1,
        ;
    } else {
        let s = norm2(v);
        assert(s >= 1) by (nonlinear_arith)
            requires
                s == v.x * v.x + v.y * v.y,
                v.x != 0 || v.y != 0,
        ;
        crate::math::lemma_isqrt_bounds(s as nat);
        let m = isqrt_s(s as nat) as int;
        assert(m >= 1) by (nonlinear_arith)
            requires
                m * m <= s,
                s < (m + 1) * (m + 1),
                s >= 1,
                m >= 0,
        ;
        assert(v.x * v.x <= s && v.y * v.y <= s) by (nonlinear_arith)
            requires
                s == v.x * v.x + v.y * v.y,
        ;
        assert(abs_i(v.x) <= m && abs_i(v.y) <= m) by (nonlinear_arith)
            requires
                v.x * v.x <= s,
                v.y * v.y <= s,
                s < (m + 1) * (m + 1),
                m >= 0,
        ;
        crate::math::lemma_div_ceil_le(abs_i(v.x) * MIN_BOUNCE_SPEED, m);
        crate::math::lemma_div_ceil_le(abs_i(v.y) * MIN_BOUNCE_SPEED, m);
        assert(m <= MIN_BOUNCE_SPEED) by (nonlinear_arith)
            requires
                m * m <= s,
                s < MIN_BOUNCE_SPEED * MIN_BOUNCE_SPEED,
                m >= 0,
        ;
    }
}

/// Model of one whole tick, the four stages in their fixed order:
/// paddle input for each side, ball movement, ball-paddle collision,
/// ball-wall collision and scoring.
pub open spec fn tick_m(
    w: WorldV,
    dt: int,
    left_dir: int,
    right_dir: int,
    half_width: int,
    half_height: int,
) -> (WorldV, Option<Side>, Option<Side>) {
    let pl = paddle_input_m(w.player_left, w.paddle_left_speed, left_dir, dt, half_height, w.config);
    let pr = paddle_input_m(
        w.player_right,
        w.paddle_right_speed,
        right_dir,
        dt,
        half_height,
        w.config,
    );
    let b1 = move_ball_m(w.ball, dt);
    let hit = ball_paddle_m(b1, pl, pr, w.config);
    let out = wall_m(hit.0, w.state, half_width, half_height);
    (
        WorldV { ball: out.0, player_left: pl, player_right: pr, state: out.1, ..w },
        hit.1,
        out.2,
    )
}

/// Everything a tick's arithmetic needs to stay inside the machine's
/// integers: a well-formed world, inputs in range, field extents within
/// the coordinate bound, the moved ball still within it, and a score
/// counter with room to grow wherever a point is about to be credited.
pub open spec fn tick_fits(
    w: WorldV,
    dt: int,
    left_dir: int,
    right_dir: int,
    half_width: int,
    half_height: int,
) -> bool {
    let b1 = move_ball_m(w.ball, dt);
    &&& w.wf()
    &&& 0 <= dt
    &&& -1 <= left_dir <= 1
    &&& -1 <= right_dir <= 1
    &&& 0 <= half_width <= COORD_LIMIT
    &&& 0 <= half_height <= COORD_LIMIT
    &&& w.config.paddle_height / 2 <= half_height
    &&& input_fits(w.player_left, w.paddle_left_speed, left_dir, dt)
    &&& input_fits(w.player_right, w.paddle_right_speed, right_dir, dt)
    &&& player_ok(w.player_left)
    &&& player_ok(w.player_right)
    &&& move_fits(w.ball, dt)
    &&& ball_ok(b1)
    &&& (b1.pos.x >= half_width ==> w.state.score_right < u32::MAX)
    &&& (b1.pos.x < half_width && b1.pos.x <= -half_width ==> w.state.score_left < u32::MAX)
}

/// Runs one simulation tick over the whole world, per [`tick_m`].
///
/// `dt` is the elapsed time; `left_dir` and `right_dir` are the players'
/// resolved input directions in `{-1, 0, 1}`; the field extents are
/// taken fresh each tick.  Returns the struck paddle's side and the
/// credited side, if any, for the caller's logging.
pub fn tick(
    world: &mut World,
    dt: i64,
    left_dir: i64,
    right_dir: i64,
    half_width: i64,
    half_height: i64,
) -> (events: (Option<Side>, Option<Side>))
    requires
        tick_fits(
            old(world)@,
            dt as int,
            left_dir as int,
            right_dir as int,
            half_width as int,
            half_height as int,
        ),
    ensures
        final(world)@ == tick_m(
            old(world)@,
            dt as int,
            left_dir as int,
            right_dir as int,
            half_width as int,
            half_height as int,
        ).0,
        events.0 == tick_m(
            old(world)@,
            dt as int,
            left_dir as int,
            right_dir as int,
            half_width as int,
            half_height as int,
        ).1,
        events.1 == tick_m(
            old(world)@,
            dt as int,
            left_dir as int,
            right_dir as int,
            half_width as int,
            half_height as int,
        ).2,
{
    let speed_left: i64 = world.paddle_left.speed;
    let speed_right: i64 = world.paddle_right.speed;
    handle_paddle_input(
        &mut world.player_left,
        speed_left,
        left_dir,
        dt,
        half_height,
        &world.config,
    );
    handle_paddle_input(
        &mut world.player_right,
        speed_right,
        right_dir,
        dt,
        half_height,
        &world.config,
    );
    move_ball(&mut world.ball, dt);
    let hit = handle_ball_paddle_collision(
        &mut world.ball,
        &world.player_left,
        &world.player_right,
        &world.config,
    );
    proof {
        let b1 = move_ball_m(old(world)@.ball, dt as int);
        let pl = world.player_left@;
        let pr = world.player_right@;
        if overlap_m(b1, pl.pos, world.config@) {
            lemma_paddle_hit_bounded(b1, pl.pos, world.config@, pl.side);
        } else if overlap_m(b1, pr.pos, world.config@) {
            lemma_paddle_hit_bounded(b1, pr.pos, world.config@, pr.side);
        }
    }
    let scored = handle_ball_wall_collision(&mut world.ball, &mut world.state, half_width, half_height);
    (hit, scored)
}

} // verus!
