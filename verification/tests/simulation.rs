use pong::components::{Ball, Player, Side};
use pong::math::Vec2;
use pong::resources::{GameConfig, GameState};
use pong::systems::{
    handle_ball_paddle_collision, handle_ball_wall_collision, handle_paddle_input, move_ball,
    tick,
};
use pong::world::World;

fn stock_config() -> GameConfig {
    GameConfig::default()
}

fn left_player(x: i64, y: i64) -> Player {
    Player { side: Side::Left, score: 0, position: Vec2 { x, y } }
}

fn right_player(x: i64, y: i64) -> Player {
    Player { side: Side::Right, score: 0, position: Vec2 { x, y } }
}

#[test]
fn default_config_values() {
    let c = stock_config();
    assert_eq!(c.paddle_speed, 300);
    assert_eq!(c.ball_speed, 400);
    assert_eq!(c.paddle_height, 100);
    assert_eq!(c.paddle_width, 20);
    assert_eq!(c.ball_size, 20);
}

#[test]
fn default_state_is_zeroed() {
    let s = GameState::default();
    assert_eq!(s.score_left, 0);
    assert_eq!(s.score_right, 0);
    assert!(!s.running);
}

#[test]
fn world_new_places_entities() {
    let w = World::new(stock_config(), 400);
    assert_eq!(w.ball.position, Vec2 { x: 0, y: 0 });
    assert_eq!(w.ball.velocity, Vec2 { x: 400, y: 400 });
    assert_eq!(w.player_left.position, Vec2 { x: -390, y: 0 });
    assert_eq!(w.player_right.position, Vec2 { x: 390, y: 0 });
    assert_eq!(w.player_left.side, Side::Left);
    assert_eq!(w.player_right.side, Side::Right);
    assert_eq!(w.player_left.score, 0);
    assert_eq!(w.player_right.score, 0);
    assert_eq!(w.paddle_left.speed, 300);
    assert_eq!(w.paddle_right.speed, 300);
    assert_eq!(w.state.score_left, 0);
    assert_eq!(w.state.score_right, 0);
}

#[test]
fn movement_advances_position() {
    let mut b = Ball { position: Vec2 { x: 10, y: 20 }, velocity: Vec2 { x: 3, y: -4 } };
    move_ball(&mut b, 2);
    assert_eq!(b.position, Vec2 { x: 16, y: 12 });
    assert_eq!(b.velocity, Vec2 { x: 3, y: -4 });
}

#[test]
fn movement_two_steps_equal_one() {
    let start = Ball { position: Vec2 { x: -7, y: 11 }, velocity: Vec2 { x: 13, y: -6 } };
    let mut twice = start;
    move_ball(&mut twice, 3);
    move_ball(&mut twice, 4);
    let mut once = start;
    move_ball(&mut once, 7);
    assert_eq!(twice.position, once.position);
    assert_eq!(twice.velocity, once.velocity);
}

#[test]
fn center_hit_reflects() {
    let config = stock_config();
    let first = left_player(-380, 0);
    let second = right_player(380, 0);
    let mut b = Ball { position: Vec2 { x: 380, y: 0 }, velocity: Vec2 { x: 300, y: 40 } };
    let hit = handle_ball_paddle_collision(&mut b, &first, &second, &config);
    assert_eq!(hit, Some(Side::Right));
    assert_eq!(b.velocity, Vec2 { x: -300, y: 40 });
    assert_eq!(b.position, Vec2 { x: 380, y: 0 });
}

#[test]
fn slow_center_hit_rescales_exactly() {
    let config = stock_config();
    let first = left_player(-380, 0);
    let second = right_player(380, 0);
    let mut b = Ball { position: Vec2 { x: -380, y: 0 }, velocity: Vec2 { x: 150, y: 0 } };
    let hit = handle_ball_paddle_collision(&mut b, &first, &second, &config);
    assert_eq!(hit, Some(Side::Left));
    assert_eq!(b.velocity, Vec2 { x: -200, y: 0 });
    let speed2 = b.velocity.x * b.velocity.x + b.velocity.y * b.velocity.y;
    assert_eq!(speed2, 200 * 200);
}

#[test]
fn slow_diagonal_hit_reaches_min() {
    let config = stock_config();
    let first = left_player(-380, 0);
    let second = right_player(380, 0);
    let mut b = Ball { position: Vec2 { x: -380, y: 0 }, velocity: Vec2 { x: -30, y: 40 } };
    let hit = handle_ball_paddle_collision(&mut b, &first, &second, &config);
    assert_eq!(hit, Some(Side::Left));
    assert_eq!(b.velocity, Vec2 { x: 120, y: 160 });
    let speed2 = b.velocity.x * b.velocity.x + b.velocity.y * b.velocity.y;
    assert_eq!(speed2, 200 * 200);
}

#[test]
fn zero_velocity_hit_leaves_away_from_paddle() {
    let config = stock_config();
    let mut b = Ball { position: Vec2 { x: -380, y: 0 }, velocity: Vec2 { x: 0, y: 0 } };
    let hit =
        handle_ball_paddle_collision(&mut b, &left_player(-380, 0), &right_player(380, 0), &config);
    assert_eq!(hit, Some(Side::Left));
    assert_eq!(b.velocity, Vec2 { x: 200, y: 0 });

    let mut b = Ball { position: Vec2 { x: 380, y: 0 }, velocity: Vec2 { x: 0, y: 0 } };
    let hit =
        handle_ball_paddle_collision(&mut b, &left_player(-380, 0), &right_player(380, 0), &config);
    assert_eq!(hit, Some(Side::Right));
    assert_eq!(b.velocity, Vec2 { x: -200, y: 0 });
}

#[test]
fn offset_hit_adds_spin() {
    let config = stock_config();
    let first = left_player(-380, 0);
    let second = right_player(380, 0);

    let mut above = Ball { position: Vec2 { x: 380, y: 25 }, velocity: Vec2 { x: 400, y: 0 } };
    let hit = handle_ball_paddle_collision(&mut above, &first, &second, &config);
    assert_eq!(hit, Some(Side::Right));
    assert_eq!(above.velocity, Vec2 { x: -400, y: 50 });

    let mut below = Ball { position: Vec2 { x: 380, y: -25 }, velocity: Vec2 { x: 400, y: 0 } };
    let hit = handle_ball_paddle_collision(&mut below, &first, &second, &config);
    assert_eq!(hit, Some(Side::Right));
    assert_eq!(below.velocity, Vec2 { x: -400, y: -50 });
}

#[test]
fn corner_hit_spin_exceeds_full_ratio() {
    let config = stock_config();
    // Ball bottom edge touching the paddle's top corner: dy == 60, beyond
    // the half-paddle height of 50, so the spin passes SPIN_STRENGTH.
    let mut b = Ball { position: Vec2 { x: 380, y: 60 }, velocity: Vec2 { x: 400, y: 0 } };
    let hit =
        handle_ball_paddle_collision(&mut b, &left_player(-380, 0), &right_player(380, 0), &config);
    assert_eq!(hit, Some(Side::Right));
    assert_eq!(b.velocity, Vec2 { x: -400, y: 120 });
}

#[test]
fn zero_dt_moves_nothing() {
    let mut b = Ball { position: Vec2 { x: 5, y: -9 }, velocity: Vec2 { x: 123, y: 456 } };
    move_ball(&mut b, 0);
    assert_eq!(b.position, Vec2 { x: 5, y: -9 });
    assert_eq!(b.velocity, Vec2 { x: 123, y: 456 });
}

#[test]
fn no_overlap_leaves_ball_alone() {
    let config = stock_config();
    let mut b = Ball { position: Vec2 { x: 0, y: 0 }, velocity: Vec2 { x: 400, y: 13 } };
    let hit =
        handle_ball_paddle_collision(&mut b, &left_player(-380, 0), &right_player(380, 0), &config);
    assert_eq!(hit, None);
    assert_eq!(b.position, Vec2 { x: 0, y: 0 });
    assert_eq!(b.velocity, Vec2 { x: 400, y: 13 });
}

#[test]
fn touching_edges_count_as_overlap() {
    let config = stock_config();
    // Ball's right edge exactly on the paddle's left edge: 360 + 10 == 380 - 10.
    let mut b = Ball { position: Vec2 { x: 360, y: 0 }, velocity: Vec2 { x: 300, y: 0 } };
    let hit =
        handle_ball_paddle_collision(&mut b, &left_player(-380, 0), &right_player(380, 0), &config);
    assert_eq!(hit, Some(Side::Right));
    assert_eq!(b.velocity, Vec2 { x: -300, y: 0 });
}

#[test]
fn double_overlap_resolves_first_only() {
    let config = stock_config();
    let first = left_player(0, 0);
    let second = right_player(0, 0);
    let mut b = Ball { position: Vec2 { x: 0, y: 0 }, velocity: Vec2 { x: 300, y: 0 } };
    let hit = handle_ball_paddle_collision(&mut b, &first, &second, &config);
    assert_eq!(hit, Some(Side::Left));
    // Resolved once: the horizontal velocity is reversed, not reversed back.
    assert_eq!(b.velocity, Vec2 { x: -300, y: 0 });
}

#[test]
fn right_scoring_resets_ball() {
    let mut b = Ball { position: Vec2 { x: 401, y: 7 }, velocity: Vec2 { x: 9, y: 5 } };
    let mut s = GameState { score_left: 0, score_right: 0, running: true };
    let scored = handle_ball_wall_collision(&mut b, &mut s, 400, 300);
    assert_eq!(scored, Some(Side::Right));
    assert_eq!(b.position, Vec2 { x: 0, y: 0 });
    assert_eq!(b.velocity, Vec2 { x: -9, y: 5 });
    assert_eq!(s.score_right, 1);
    assert_eq!(s.score_left, 0);
}

#[test]
fn left_scoring_mirrors() {
    let mut b = Ball { position: Vec2 { x: -403, y: -2 }, velocity: Vec2 { x: -9, y: 5 } };
    let mut s = GameState { score_left: 4, score_right: 2, running: true };
    let scored = handle_ball_wall_collision(&mut b, &mut s, 400, 300);
    assert_eq!(scored, Some(Side::Left));
    assert_eq!(b.position, Vec2 { x: 0, y: 0 });
    assert_eq!(b.velocity, Vec2 { x: 9, y: 5 });
    assert_eq!(s.score_left, 5);
    assert_eq!(s.score_right, 2);
}

#[test]
fn scoring_triggers_at_edge_exactly() {
    let mut b = Ball { position: Vec2 { x: 400, y: 0 }, velocity: Vec2 { x: 1, y: 0 } };
    let mut s = GameState { score_left: 0, score_right: 0, running: true };
    let scored = handle_ball_wall_collision(&mut b, &mut s, 400, 300);
    assert_eq!(scored, Some(Side::Right));
    assert_eq!(s.score_right, 1);
}

#[test]
fn vertical_bounce_keeps_position() {
    let mut b = Ball { position: Vec2 { x: 0, y: 305 }, velocity: Vec2 { x: 9, y: 5 } };
    let mut s = GameState { score_left: 0, score_right: 0, running: true };
    let scored = handle_ball_wall_collision(&mut b, &mut s, 400, 300);
    assert_eq!(scored, None);
    // The position is deliberately not corrected back inside the field.
    assert_eq!(b.position, Vec2 { x: 0, y: 305 });
    assert_eq!(b.velocity, Vec2 { x: 9, y: -5 });
    assert_eq!(s.score_left, 0);
    assert_eq!(s.score_right, 0);
}

#[test]
fn bottom_bounce_at_edge_exactly() {
    let mut b = Ball { position: Vec2 { x: 12, y: -300 }, velocity: Vec2 { x: 1, y: -8 } };
    let mut s = GameState { score_left: 0, score_right: 0, running: true };
    let scored = handle_ball_wall_collision(&mut b, &mut s, 400, 300);
    assert_eq!(scored, None);
    assert_eq!(b.position, Vec2 { x: 12, y: -300 });
    assert_eq!(b.velocity, Vec2 { x: 1, y: 8 });
}

#[test]
fn paddle_input_moves_and_idles() {
    let config = stock_config();
    let mut p = left_player(-390, 0);
    handle_paddle_input(&mut p, 300, 0, 5, 300, &config);
    assert_eq!(p.position, Vec2 { x: -390, y: 0 });
    handle_paddle_input(&mut p, 30, -1, 5, 300, &config);
    assert_eq!(p.position, Vec2 { x: -390, y: -150 });
    assert_eq!(p.score, 0);
    assert_eq!(p.side, Side::Left);
}

#[test]
fn paddle_clamped_at_top() {
    let config = stock_config();
    let mut p = right_player(390, 299);
    handle_paddle_input(&mut p, 300, 1, 1000, 300, &config);
    assert_eq!(p.position, Vec2 { x: 390, y: 250 });
}

#[test]
fn paddle_clamped_at_bottom() {
    let config = stock_config();
    let mut p = left_player(-390, -299);
    handle_paddle_input(&mut p, 300, -1, 1000, 300, &config);
    assert_eq!(p.position, Vec2 { x: -390, y: -250 });
}

#[test]
fn tick_scores_without_touching_paddles() {
    let mut w = World::new(stock_config(), 400);
    w.ball = Ball { position: Vec2 { x: 399, y: 0 }, velocity: Vec2 { x: 10, y: 0 } };
    // Move the paddles out of the ball's path.
    w.player_right.position.y = 200;
    w.state.running = true;
    let (hit, scored) = tick(&mut w, 1, 0, 0, 400, 300);
    assert_eq!(hit, None);
    assert_eq!(scored, Some(Side::Right));
    assert_eq!(w.ball.position, Vec2 { x: 0, y: 0 });
    assert_eq!(w.ball.velocity, Vec2 { x: -10, y: 0 });
    assert_eq!(w.state.score_right, 1);
    assert_eq!(w.state.score_left, 0);
}

#[test]
fn tick_moves_both_paddles() {
    let mut w = World::new(stock_config(), 400);
    w.ball.velocity = Vec2 { x: 0, y: 0 };
    let (hit, scored) = tick(&mut w, 1, 1, -1, 400, 300);
    assert_eq!(hit, None);
    assert_eq!(scored, None);
    assert_eq!(w.player_left.position, Vec2 { x: -390, y: 250 });
    assert_eq!(w.player_right.position, Vec2 { x: 390, y: -250 });
}

#[test]
fn tick_resolves_paddle_hit() {
    let mut w = World::new(stock_config(), 400);
    w.ball = Ball { position: Vec2 { x: -370, y: 0 }, velocity: Vec2 { x: -10, y: 0 } };
    let (hit, scored) = tick(&mut w, 1, 0, 0, 400, 300);
    assert_eq!(hit, Some(Side::Left));
    assert_eq!(scored, None);
    assert_eq!(w.ball.position, Vec2 { x: -380, y: 0 });
    assert_eq!(w.ball.velocity, Vec2 { x: 200, y: 0 });
}
