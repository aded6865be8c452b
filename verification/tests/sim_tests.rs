use pong_core::entities::{
    Ball, GameState, Paddle, WallId, World, BALL_HALF, DEFAULT_SPEED, PADDLE_STEP, PADDLE_Y,
    POS_UNIT, SPAWN_Y, VEL_UNIT, WALL_DIST, WALL_HALF_LONG, WALL_HALF_SHORT,
};
use pong_core::geom::{aabb_overlap, reflect_dir, Vec2};
use pong_core::sim::{
    ball_hits_wall, bounce_ball, keyboard_input, move_ball, out_of_bounds, wall_center_pos,
    wall_half_extent, wall_unit_normal,
};

fn paddle_at(x: i64) -> Paddle {
    Paddle { pos: Vec2 { x, y: PADDLE_Y }, name: "Player".to_string() }
}

// One second of flight straight up at direction 5 with the baseline
// multiplier raises the ball by 5 * 50 world units and leaves the
// multiplier at the baseline.
#[test]
fn scenario_straight_flight() {
    let mut ball = Ball::at_spawn(Vec2 { x: 0, y: 5 * VEL_UNIT });
    assert_eq!(ball.pos.y, -250 * POS_UNIT);
    assert_eq!(ball.speed_multiplier, DEFAULT_SPEED);
    move_ball(&mut ball, 1000);
    assert_eq!(ball.pos.x, 0);
    assert_eq!(ball.pos.y, -250 * POS_UNIT + 250 * POS_UNIT);
    assert_eq!(ball.dir, Vec2 { x: 0, y: 5 * VEL_UNIT });
    assert_eq!(ball.speed_multiplier, DEFAULT_SPEED);
}

// A ball moving straight up inside the top wall bounces to straight down and
// its multiplier doubles to 100.
#[test]
fn scenario_top_wall_bounce() {
    let mut ball = Ball {
        pos: Vec2 { x: 0, y: 296 * POS_UNIT },
        dir: Vec2 { x: 0, y: VEL_UNIT },
        speed_multiplier: DEFAULT_SPEED,
    };
    let paddle = paddle_at(0);
    bounce_ball(&mut ball, &paddle);
    assert_eq!(ball.dir, Vec2 { x: 0, y: -VEL_UNIT });
    assert_eq!(ball.speed_multiplier, 2 * DEFAULT_SPEED);
    assert_eq!(ball.pos, Vec2 { x: 0, y: 296 * POS_UNIT });
}

// A ball just short of the right wall moving in +X bounces to -X with equal
// magnitude.
#[test]
fn scenario_right_wall_bounce() {
    let mut ball = Ball {
        pos: Vec2 { x: 300 * POS_UNIT - 500_000, y: 0 },
        dir: Vec2 { x: 3 * VEL_UNIT, y: 0 },
        speed_multiplier: DEFAULT_SPEED,
    };
    let paddle = paddle_at(0);
    bounce_ball(&mut ball, &paddle);
    assert_eq!(ball.dir, Vec2 { x: -3 * VEL_UNIT, y: 0 });
    assert_eq!(ball.speed_multiplier, 2 * DEFAULT_SPEED);
}

// A ball overlapping the open bottom zone is put back at the spawn point and
// the player's score goes from 0 to 1; direction and speed stay.
#[test]
fn scenario_out_of_bounds() {
    let mut ball = Ball {
        pos: Vec2 { x: 0, y: -296 * POS_UNIT },
        dir: Vec2 { x: 2 * VEL_UNIT, y: -VEL_UNIT },
        speed_multiplier: DEFAULT_SPEED,
    };
    let mut state = GameState::default();
    out_of_bounds(&mut ball, &mut state);
    assert_eq!(ball.pos, Vec2 { x: 0, y: SPAWN_Y });
    assert_eq!(ball.dir, Vec2 { x: 2 * VEL_UNIT, y: -VEL_UNIT });
    assert_eq!(ball.speed_multiplier, DEFAULT_SPEED);
    assert_eq!(state.score, (1, 0));
}

// A ball clear of the zone leaves ball and score alone.
#[test]
fn out_of_bounds_no_event() {
    let mut ball = Ball {
        pos: Vec2 { x: 0, y: -280 * POS_UNIT },
        dir: Vec2 { x: 0, y: -VEL_UNIT },
        speed_multiplier: DEFAULT_SPEED,
    };
    let mut state = GameState { score: (3, 0) };
    out_of_bounds(&mut ball, &mut state);
    assert_eq!(ball.pos, Vec2 { x: 0, y: -280 * POS_UNIT });
    assert_eq!(state.score, (3, 0));
}

// Reflection about each axis normal flips exactly the normal component.
#[test]
fn reflection_exact_values() {
    let v = Vec2 { x: 7, y: -4 };
    assert_eq!(reflect_dir(v, Vec2 { x: 0, y: 1 }), Vec2 { x: 7, y: 4 });
    assert_eq!(reflect_dir(v, Vec2 { x: 0, y: -1 }), Vec2 { x: 7, y: 4 });
    assert_eq!(reflect_dir(v, Vec2 { x: 1, y: 0 }), Vec2 { x: -7, y: -4 });
    assert_eq!(reflect_dir(v, Vec2 { x: -1, y: 0 }), Vec2 { x: -7, y: -4 });
}

// Boxes that merely touch along an edge do not collide; strictly closer ones
// do.
#[test]
fn touching_edges_do_not_collide() {
    let ball_h = Vec2 { x: BALL_HALF, y: BALL_HALF };
    let wall_h = Vec2 { x: WALL_HALF_LONG, y: WALL_HALF_SHORT };
    let top = Vec2 { x: 0, y: WALL_DIST };
    // Exactly 10 units below the top wall's center line: touching, no hit.
    assert!(!aabb_overlap(Vec2 { x: 0, y: 290 * POS_UNIT }, ball_h, top, wall_h));
    assert!(!ball_hits_wall(Vec2 { x: 0, y: 290 * POS_UNIT }, WallId::Top));
    // One micro-unit closer: a hit.
    assert!(aabb_overlap(Vec2 { x: 0, y: 290 * POS_UNIT + 1 }, ball_h, top, wall_h));
    assert!(ball_hits_wall(Vec2 { x: 0, y: 290 * POS_UNIT + 1 }, WallId::Top));
}

// A frame that hits a wall and the paddle reflects against both in turn and
// quadruples the multiplier.
#[test]
fn wall_then_paddle_compound() {
    let mut ball = Ball {
        pos: Vec2 { x: -296 * POS_UNIT, y: -288 * POS_UNIT },
        dir: Vec2 { x: 2 * VEL_UNIT, y: -3 * VEL_UNIT },
        speed_multiplier: DEFAULT_SPEED,
    };
    let paddle = paddle_at(-260 * POS_UNIT);
    bounce_ball(&mut ball, &paddle);
    // Left wall normal (+1, 0) flips x, then the paddle normal (0, 1) flips y.
    assert_eq!(ball.dir, Vec2 { x: -2 * VEL_UNIT, y: 3 * VEL_UNIT });
    assert_eq!(ball.speed_multiplier, 4 * DEFAULT_SPEED);
}

// A doubled multiplier scales exactly one frame of motion and then resets.
#[test]
fn speed_boost_lasts_one_frame() {
    let mut ball = Ball {
        pos: Vec2 { x: 0, y: 296 * POS_UNIT },
        dir: Vec2 { x: 0, y: VEL_UNIT },
        speed_multiplier: DEFAULT_SPEED,
    };
    let paddle = paddle_at(0);
    bounce_ball(&mut ball, &paddle);
    assert_eq!(ball.speed_multiplier, 2 * DEFAULT_SPEED);
    move_ball(&mut ball, 100);
    // 1 unit/s * 100 multiplier * 0.1 s = 10 units downward.
    assert_eq!(ball.pos.y, 296 * POS_UNIT - 10 * POS_UNIT);
    assert_eq!(ball.speed_multiplier, DEFAULT_SPEED);
}

// Each held key moves the paddle one fixed step; both held apply in turn.
#[test]
fn paddle_moves_and_opposing_keys() {
    let mut paddle = paddle_at(0);
    keyboard_input(&mut paddle, true, false);
    assert_eq!(paddle.pos.x, -PADDLE_STEP);
    keyboard_input(&mut paddle, false, true);
    assert_eq!(paddle.pos.x, 0);
    keyboard_input(&mut paddle, true, true);
    assert_eq!(paddle.pos.x, 0);
    assert_eq!(paddle.pos.y, PADDLE_Y);
}

// At the field edge the failing direction is skipped, so opposing keys can
// move the paddle back inward.
#[test]
fn paddle_stops_at_bounds() {
    let mut paddle = paddle_at(-260 * POS_UNIT);
    keyboard_input(&mut paddle, true, false);
    assert_eq!(paddle.pos.x, -260 * POS_UNIT);
    let mut paddle = paddle_at(260 * POS_UNIT);
    keyboard_input(&mut paddle, false, true);
    assert_eq!(paddle.pos.x, 260 * POS_UNIT);
    let mut paddle = paddle_at(-260 * POS_UNIT);
    keyboard_input(&mut paddle, true, true);
    assert_eq!(paddle.pos.x, -250 * POS_UNIT);
}

// One whole frame with no collision: input, motion, no bounce, no score.
#[test]
fn frame_quiet() {
    let mut world = World::new(Vec2 { x: 0, y: 5 * VEL_UNIT });
    world.frame(true, false, 1000);
    assert_eq!(world.ball.pos, Vec2 { x: 0, y: 0 });
    assert_eq!(world.ball.speed_multiplier, DEFAULT_SPEED);
    assert_eq!(world.paddle.pos.x, -PADDLE_STEP);
    assert_eq!(world.state.score, (0, 0));
}

// One whole frame that carries the ball into the open bottom: it is put back
// at the spawn point with its direction kept, and the player scores.
#[test]
fn frame_scores_on_escape() {
    let mut world = World::new(Vec2 { x: 0, y: -VEL_UNIT });
    world.frame(false, false, 1000);
    assert_eq!(world.ball.pos, Vec2 { x: 0, y: SPAWN_Y });
    assert_eq!(world.ball.dir, Vec2 { x: 0, y: -VEL_UNIT });
    assert_eq!(world.state.score, (1, 0));
}

// The world as startup leaves it.
#[test]
fn world_initial_values() {
    let world = World::new(Vec2 { x: 3 * VEL_UNIT, y: 4 * VEL_UNIT });
    assert_eq!(world.ball.pos, Vec2 { x: 0, y: -250 * POS_UNIT });
    assert_eq!(world.ball.dir, Vec2 { x: 3 * VEL_UNIT, y: 4 * VEL_UNIT });
    assert_eq!(world.ball.speed_multiplier, DEFAULT_SPEED);
    assert_eq!(world.paddle.pos, Vec2 { x: 0, y: -290 * POS_UNIT });
    assert_eq!(world.paddle.name, "Player");
    assert_eq!(world.state.score, (0, 0));
}

// The fixed walls: centers, half-extents, and inward unit normals.
#[test]
fn wall_fixed_geometry() {
    assert_eq!(wall_center_pos(WallId::Top), Vec2 { x: 0, y: 300 * POS_UNIT });
    assert_eq!(wall_center_pos(WallId::Right), Vec2 { x: 300 * POS_UNIT, y: 0 });
    assert_eq!(wall_center_pos(WallId::Left), Vec2 { x: -300 * POS_UNIT, y: 0 });
    assert_eq!(wall_half_extent(WallId::Top), Vec2 { x: 300 * POS_UNIT, y: 5 * POS_UNIT });
    assert_eq!(wall_half_extent(WallId::Right), Vec2 { x: 5 * POS_UNIT, y: 300 * POS_UNIT });
    assert_eq!(wall_half_extent(WallId::Left), Vec2 { x: 5 * POS_UNIT, y: 300 * POS_UNIT });
    assert_eq!(wall_unit_normal(WallId::Top), Vec2 { x: 0, y: -1 });
    assert_eq!(wall_unit_normal(WallId::Right), Vec2 { x: -1, y: 0 });
    assert_eq!(wall_unit_normal(WallId::Left), Vec2 { x: 1, y: 0 });
}

// A default ball rests with the baseline multiplier; a default score is 0:0.
#[test]
fn default_values() {
    let ball = Ball::default();
    assert_eq!(ball.pos, Vec2 { x: 0, y: 0 });
    assert_eq!(ball.dir, Vec2 { x: 0, y: 0 });
    assert_eq!(ball.speed_multiplier, DEFAULT_SPEED);
    assert_eq!(GameState::default().score, (0, 0));
}

// The randomized start direction honors its bounds: x in [-10, 10) units per
// second, y in [0, 10). Drawn repeatedly, since each draw is fresh.
#[test]
fn random_direction_bounds() {
    for _ in 0..200 {
        let d = pong_core::random::random_initial_direction();
        assert!(-10 * VEL_UNIT <= d.x && d.x < 10 * VEL_UNIT);
        assert!(0 <= d.y && d.y < 10 * VEL_UNIT);
    }
}
