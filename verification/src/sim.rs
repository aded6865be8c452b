//! The four per-frame subsystems: paddle input, ball motion, collision
//! response, and out-of-bounds scoring, plus the frame that runs them in
//! order.

use vstd::prelude::*;
use crate::geom::{aabb_overlap, is_axis_unit, overlaps, reflect, reflect_dir, V2, Vec2};
use crate::entities::{
    Ball, BallModel, GameState, Paddle, PaddleModel, StateModel, WallId, World, WorldModel,
    BALL_HALF, DEFAULT_SPEED, FIELD_LIMIT, PADDLE_HALF_X, PADDLE_HALF_Y, PADDLE_REACH,
    PADDLE_CENTER_BOUND, PADDLE_STEP, SPAWN_Y, WALL_DIST, WALL_HALF_LONG, WALL_HALF_SHORT,
};

verus! {

// ---------------------------------------------------------------------------
// Fixed geometry, as mathematical values.
// ---------------------------------------------------------------------------

/// The ball's half-extent.
pub open spec fn ball_half() -> V2 {
    V2 { x: BALL_HALF as int, y: BALL_HALF as int }
}

/// The paddle's half-extent.
pub open spec fn paddle_half() -> V2 {
    V2 { x: PADDLE_HALF_X as int, y: PADDLE_HALF_Y as int }
}

/// A wall's center.
pub open spec fn wall_center(w: WallId) -> V2 {
    match w {
        WallId::Top => V2 { x: 0, y: WALL_DIST as int },
        WallId::Right => V2 { x: WALL_DIST as int, y: 0 },
        WallId::Left => V2 { x: -(WALL_DIST as int), y: 0 },
    }
}

/// A wall's half-extent: the top wall is long and flat, the side walls tall
/// and thin.
pub open spec fn wall_half(w: WallId) -> V2 {
    match w {
        WallId::Top => V2 { x: WALL_HALF_LONG as int, y: WALL_HALF_SHORT as int },
        WallId::Right => V2 { x: WALL_HALF_SHORT as int, y: WALL_HALF_LONG as int },
        WallId::Left => V2 { x: WALL_HALF_SHORT as int, y: WALL_HALF_LONG as int },
    }
}

/// A wall's inward unit surface normal.
pub open spec fn wall_normal(w: WallId) -> V2 {
    match w {
        WallId::Top => V2 { x: 0, y: -1 },
        WallId::Right => V2 { x: -1, y: 0 },
        WallId::Left => V2 { x: 1, y: 0 },
    }
}

/// The paddle's surface normal: straight up.
pub open spec fn paddle_normal() -> V2 {
    V2 { x: 0, y: 1 }
}

/// Center of the virtual out-of-bounds zone: where a bottom wall would stand.
pub open spec fn oob_center() -> V2 {
    V2 { x: 0, y: -(WALL_DIST as int) }
}

/// Half-extent of the out-of-bounds zone: that of a horizontal wall.
pub open spec fn oob_half() -> V2 {
    V2 { x: WALL_HALF_LONG as int, y: WALL_HALF_SHORT as int }
}

/// The ball's spawn point.
pub open spec fn spawn_point() -> V2 {
    V2 { x: 0, y: SPAWN_Y as int }
}

// ---------------------------------------------------------------------------
// Mover.
// ---------------------------------------------------------------------------

/// Whether `x` fits the position type.
pub open spec fn fits_i64(x: int) -> bool {
    i64::MIN <= x <= i64::MAX
}

/// Whether one frame of motion stays within the position type.
pub open spec fn move_in_bounds(b: BallModel, dt: int) -> bool {
    &&& fits_i64(b.dir.x * b.mult * dt)
    &&& fits_i64(b.dir.y * b.mult * dt)
    &&& fits_i64(b.pos.x + b.dir.x * b.mult * dt)
    &&& fits_i64(b.pos.y + b.dir.y * b.mult * dt)
}

/// One frame of motion: the position advances by direction times speed
/// multiplier times elapsed time, and the multiplier returns to its baseline.
pub open spec fn move_spec(b: BallModel, dt: int) -> BallModel {
    BallModel {
        pos: V2 { x: b.pos.x + b.dir.x * b.mult * dt, y: b.pos.y + b.dir.y * b.mult * dt },
        dir: b.dir,
        mult: DEFAULT_SPEED as int,
    }
}

proof fn lemma_i64_product_fits_i128(a: int, b: int) by (nonlinear_arith)
    requires
        i64::MIN <= a <= i64::MAX,
        i64::MIN <= b <= i64::MAX,
    ensures
        i128::MIN <= a * b <= i128::MAX,
{
}

/// Integrates the ball's motion over `dt_ms` milliseconds, then resets the
/// speed multiplier, so a collision boost lasts exactly one frame of motion.
pub fn move_ball(ball: &mut Ball, dt_ms: i64)
    requires
        dt_ms >= 0,
        move_in_bounds(old(ball)@, dt_ms as int),
    ensures
        final(ball)@ == move_spec(old(ball)@, dt_ms as int),
{
    proof {
        lemma_i64_product_fits_i128(ball.dir.x as int, ball.speed_multiplier as int);
        lemma_i64_product_fits_i128(ball.dir.y as int, ball.speed_multiplier as int);
    }
    let mx: i128 = (ball.dir.x as i128) * (ball.speed_multiplier as i128);
    let my: i128 = (ball.dir.y as i128) * (ball.speed_multiplier as i128);
    let dx: i128 = mx * (dt_ms as i128);
    let dy: i128 = my * (dt_ms as i128);
    ball.pos.x = ball.pos.x + (dx as i64);
    ball.pos.y = ball.pos.y + (dy as i64);
    ball.speed_multiplier = DEFAULT_SPEED;
}

// ---------------------------------------------------------------------------
// Collider.
// ---------------------------------------------------------------------------

/// Whether the ball, centered at `pos`, overlaps the given wall.
pub open spec fn hits_wall(pos: V2, w: WallId) -> bool {
    overlaps(pos, ball_half(), wall_center(w), wall_half(w))
}

/// The first wall the ball overlaps, in the fixed test order top, right,
/// left; at most one wall collision is resolved per frame.
pub open spec fn first_wall_hit(pos: V2) -> Option<WallId> {
    if hits_wall(pos, WallId::Top) {
        Some(WallId::Top)
    } else if hits_wall(pos, WallId::Right) {
        Some(WallId::Right)
    } else if hits_wall(pos, WallId::Left) {
        Some(WallId::Left)
    } else {
        None
    }
}

/// Whether the ball overlaps the paddle centered at `ppos`.
pub open spec fn hits_paddle(pos: V2, ppos: V2) -> bool {
    overlaps(pos, ball_half(), ppos, paddle_half())
}

/// The wall phase of collision response: on the first overlapping wall, the
/// direction reflects about that wall's normal and the speed doubles.
pub open spec fn wall_bounce_spec(b: BallModel) -> BallModel {
    match first_wall_hit(b.pos) {
        Some(w) => BallModel {
            pos: b.pos,
            dir: reflect(b.dir, wall_normal(w)),
            mult: 2 * b.mult,
        },
        None => b,
    }
}

/// The paddle phase: independent of the wall phase, so a frame that hits
/// both reflects twice and quadruples the speed.
pub open spec fn paddle_bounce_spec(b: BallModel, ppos: V2) -> BallModel {
    if hits_paddle(b.pos, ppos) {
        BallModel {
            pos: b.pos,
            dir: reflect(b.dir, paddle_normal()),
            mult: 2 * b.mult,
        }
    } else {
        b
    }
}

/// Full collision response for one frame: wall phase, then paddle phase on
/// the already-updated velocity.
pub open spec fn bounce_spec(b: BallModel, ppos: V2) -> BallModel {
    paddle_bounce_spec(wall_bounce_spec(b), ppos)
}

/// A wall's center, as a value.
pub fn wall_center_pos(w: WallId) -> (c: Vec2)
    ensures
        c@ == wall_center(w),
{
    match w {
        WallId::Top => Vec2 { x: 0, y: WALL_DIST },
        WallId::Right => Vec2 { x: WALL_DIST, y: 0 },
        WallId::Left => Vec2 { x: -WALL_DIST, y: 0 },
    }
}

/// A wall's half-extent, as a value.
pub fn wall_half_extent(w: WallId) -> (h: Vec2)
    ensures
        h@ == wall_half(w),
{
    match w {
        WallId::Top => Vec2 { x: WALL_HALF_LONG, y: WALL_HALF_SHORT },
        WallId::Right => Vec2 { x: WALL_HALF_SHORT, y: WALL_HALF_LONG },
        WallId::Left => Vec2 { x: WALL_HALF_SHORT, y: WALL_HALF_LONG },
    }
}

/// A wall's inward unit normal, as a value.
pub fn wall_unit_normal(w: WallId) -> (n: Vec2)
    ensures
        n@ == wall_normal(w),
        is_axis_unit(n@),
    {
    match w {
        WallId::Top => Vec2 { x: 0, y: -1 },
        WallId::Right => Vec2 { x: -1, y: 0 },
        WallId::Left => Vec2 { x: 1, y: 0 },
    }
}

/// Whether the ball at `pos` overlaps wall `w`.
pub fn ball_hits_wall(pos: Vec2, w: WallId) -> (r: bool)
    ensures
        r == hits_wall(pos@, w),
{
    let half = Vec2 { x: BALL_HALF, y: BALL_HALF };
    aabb_overlap(pos, half, wall_center_pos(w), wall_half_extent(w))
}

/// Resolves this frame's collisions for the ball: first the walls in fixed
/// order (at most one), then, independently, the paddle.
pub fn bounce_ball(ball: &mut Ball, paddle: &Paddle)
    requires
        old(ball).dir.x != i64::MIN,
        old(ball).dir.y != i64::MIN,
        i64::MIN <= 4 * old(ball).speed_multiplier <= i64::MAX,
    ensures
        final(ball)@ == bounce_spec(old(ball)@, paddle@.pos),
{
    // Wall phase: first overlapping wall, tested top, right, left.
    let hit: Option<WallId> = if ball_hits_wall(ball.pos, WallId::Top) {
        Some(WallId::Top)
    } else if ball_hits_wall(ball.pos, WallId::Right) {
        Some(WallId::Right)
    } else if ball_hits_wall(ball.pos, WallId::Left) {
        Some(WallId::Left)
    } else {
        None
    };
    match hit {
        Some(w) => {
            ball.dir = reflect_dir(ball.dir, wall_unit_normal(w));
            ball.speed_multiplier = 2 * ball.speed_multiplier;
        },
        None => {},
    }

    // Paddle phase: not mutually exclusive with the wall phase.
    let ball_h = Vec2 { x: BALL_HALF, y: BALL_HALF };
    let paddle_h = Vec2 { x: PADDLE_HALF_X, y: PADDLE_HALF_Y };
    if aabb_overlap(ball.pos, ball_h, paddle.pos, paddle_h) {
        ball.dir = reflect_dir(ball.dir, Vec2 { x: 0, y: 1 });
        ball.speed_multiplier = 2 * ball.speed_multiplier;
    }
}

// ---------------------------------------------------------------------------
// BoundsMonitor.
// ---------------------------------------------------------------------------

/// Whether the ball has escaped into the open bottom boundary's zone.
pub open spec fn ball_out(pos: V2) -> bool {
    overlaps(pos, ball_half(), oob_center(), oob_half())
}

/// Out-of-bounds response, ball side: back to the spawn point, direction and
/// speed untouched.
pub open spec fn oob_ball_spec(b: BallModel) -> BallModel {
    if ball_out(b.pos) {
        BallModel { pos: spawn_point(), dir: b.dir, mult: b.mult }
    } else {
        b
    }
}

/// Out-of-bounds response, score side: one point to the player, none to the
/// opponent.
pub open spec fn oob_state_spec(b: BallModel, s: StateModel) -> StateModel {
    if ball_out(b.pos) {
        StateModel { player: s.player + 1, opponent: s.opponent }
    } else {
        s
    }
}

/// Detects the ball escaping through the open bottom, puts it back at the
/// spawn point, and scores one point for the player. The only mutator of the
/// score.
pub fn out_of_bounds(ball: &mut Ball, state: &mut GameState)
    requires
        ball_out(old(ball)@.pos) ==> old(state).score.0 < u32::MAX,
    ensures
        final(ball)@ == oob_ball_spec(old(ball)@),
        final(state)@ == oob_state_spec(old(ball)@, old(state)@),
{
    let ball_h = Vec2 { x: BALL_HALF, y: BALL_HALF };
    let zone_center = Vec2 { x: 0, y: -WALL_DIST };
    let zone_half = Vec2 { x: WALL_HALF_LONG, y: WALL_HALF_SHORT };
    if aabb_overlap(ball.pos, ball_h, zone_center, zone_half) {
        ball.pos = Vec2 { x: 0, y: SPAWN_Y };
        state.score = (state.score.0 + 1, state.score.1);
    }
}

// ---------------------------------------------------------------------------
// InputController.
// ---------------------------------------------------------------------------

/// The paddle's center x after one frame of held keys. Each direction is
/// checked on the current position in turn, left first, and applies only
/// while the paddle's reach stays inside the field limit.
pub open spec fn paddle_input_spec(px: int, left: bool, right: bool) -> int {
    let x1 = if left && px - PADDLE_REACH >= -(FIELD_LIMIT as int) {
        px - PADDLE_STEP
    } else {
        px
    };
    if right && x1 + PADDLE_REACH <= FIELD_LIMIT {
        x1 + PADDLE_STEP
    } else {
        x1
    }
}

/// Moves the paddle one fixed step for each held key, keeping its reach
/// (half-width plus the ball's half-width) inside the field limit. The step
/// is per frame, not per second, exactly as the game has always behaved.
pub fn keyboard_input(paddle: &mut Paddle, left: bool, right: bool)
    ensures
        final(paddle)@.pos.x == paddle_input_spec(old(paddle)@.pos.x, left, right),
        final(paddle)@.pos.y == old(paddle)@.pos.y,
        final(paddle)@.name == old(paddle)@.name,
{
    if left && paddle.pos.x >= PADDLE_REACH - FIELD_LIMIT {
        paddle.pos.x = paddle.pos.x - PADDLE_STEP;
    }
    if right && paddle.pos.x <= FIELD_LIMIT - PADDLE_REACH {
        paddle.pos.x = paddle.pos.x + PADDLE_STEP;
    }
}

// ---------------------------------------------------------------------------
// One whole frame.
// ---------------------------------------------------------------------------

/// One frame of simulation: input, then motion, then collision response,
/// then bounds monitoring, each reading the previous subsystem's writes.
pub open spec fn frame_spec(w: WorldModel, left: bool, right: bool, dt: int) -> WorldModel {
    let paddle = PaddleModel {
        pos: V2 { x: paddle_input_spec(w.paddle.pos.x, left, right), y: w.paddle.pos.y },
        name: w.paddle.name,
    };
    let moved = move_spec(w.ball, dt);
    let bounced = bounce_spec(moved, paddle.pos);
    WorldModel {
        ball: oob_ball_spec(bounced),
        paddle,
        state: oob_state_spec(bounced, w.state),
    }
}

impl World {
    /// Runs one frame: InputController, Mover, Collider, BoundsMonitor, in
    /// that fixed order.
    pub fn frame(&mut self, left: bool, right: bool, dt_ms: i64)
        requires
            dt_ms >= 0,
            move_in_bounds(old(self)@.ball, dt_ms as int),
            old(self).ball.dir.x != i64::MIN,
            old(self).ball.dir.y != i64::MIN,
            ball_out(move_spec(old(self)@.ball, dt_ms as int).pos) ==> old(
                self,
            ).state.score.0 < u32::MAX,
        ensures
            final(self)@ == frame_spec(old(self)@, left, right, dt_ms as int),
    {
        keyboard_input(&mut self.paddle, left, right);
        move_ball(&mut self.ball, dt_ms);
        bounce_ball(&mut self.ball, &self.paddle);
        out_of_bounds(&mut self.ball, &mut self.state);
    }
}

// ---------------------------------------------------------------------------
// Laws.
// ---------------------------------------------------------------------------

/// Speed escalation and reset: starting a frame at the baseline speed, the
/// multiplier after collision response is exactly double the baseline for a
/// wall or paddle hit, quadruple for both, and unchanged for neither; and
/// whatever it became, the next frame's motion hands back the baseline.
pub proof fn lemma_speed_escalation(b: BallModel, ppos: V2, dt: int)
    requires
        b.mult == DEFAULT_SPEED,
    ensures
        ({
            let after = bounce_spec(b, ppos);
            &&& (first_wall_hit(b.pos) is Some && hits_paddle(b.pos, ppos)) ==> after.mult == 4
                * DEFAULT_SPEED
            &&& (first_wall_hit(b.pos) is Some && !hits_paddle(b.pos, ppos)) ==> after.mult == 2
                * DEFAULT_SPEED
            &&& (first_wall_hit(b.pos) is None && hits_paddle(b.pos, ppos)) ==> after.mult == 2
                * DEFAULT_SPEED
            &&& (first_wall_hit(b.pos) is None && !hits_paddle(b.pos, ppos)) ==> after.mult
                == DEFAULT_SPEED
        }),
        move_spec(bounce_spec(b, ppos), dt).mult == DEFAULT_SPEED,
{
}

/// Paddle containment, one frame: a paddle center within 275 world units of
/// the middle stays within 275 world units, whatever keys are held.
pub proof fn lemma_paddle_containment(px: int, left: bool, right: bool)
    requires
        -PADDLE_CENTER_BOUND <= px <= PADDLE_CENTER_BOUND,
    ensures
        -PADDLE_CENTER_BOUND <= paddle_input_spec(px, left, right) <= PADDLE_CENTER_BOUND,
{
}

/// The paddle's center x after a whole sequence of input frames.
pub open spec fn run_inputs(px: int, inputs: Seq<(bool, bool)>) -> int
    decreases inputs.len(),
{
    if inputs.len() == 0 {
        px
    } else {
        run_inputs(paddle_input_spec(px, inputs[0].0, inputs[0].1), inputs.drop_first())
    }
}

/// Paddle containment, all sequences of input: from any contained start —
/// the paddle starts at the middle — no sequence of held keys ever drives
/// the paddle's center x out of [-275, 275] world units.
pub proof fn lemma_paddle_containment_all(px: int, inputs: Seq<(bool, bool)>)
    requires
        -PADDLE_CENTER_BOUND <= px <= PADDLE_CENTER_BOUND,
    ensures
        -PADDLE_CENTER_BOUND <= run_inputs(px, inputs) <= PADDLE_CENTER_BOUND,
    decreases inputs.len(),
{
    if inputs.len() > 0 {
        lemma_paddle_containment(px, inputs[0].0, inputs[0].1);
        lemma_paddle_containment_all(
            paddle_input_spec(px, inputs[0].0, inputs[0].1),
            inputs.drop_first(),
        );
    }
}

/// Scoring: an out-of-bounds event moves the ball to the spawn point,
/// leaves its direction and speed untouched, and raises the player's score
/// by exactly one while the opponent's stands; without the event, nothing
/// changes at all.
pub proof fn lemma_scoring(b: BallModel, s: StateModel)
    ensures
        ball_out(b.pos) ==> {
            &&& oob_ball_spec(b).pos == spawn_point()
            &&& oob_ball_spec(b).dir == b.dir
            &&& oob_ball_spec(b).mult == b.mult
            &&& oob_state_spec(b, s).player == s.player + 1
            &&& oob_state_spec(b, s).opponent == s.opponent
        },
        !ball_out(b.pos) ==> oob_ball_spec(b) == b && oob_state_spec(b, s) == s,
{
}

} // verus!

