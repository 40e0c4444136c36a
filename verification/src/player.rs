//! The player motion controller.
//!
//! Once per rendered frame the host scheduler gives the controller the input
//! state, the elapsed time, and the grounded flag that the collision resolver
//! reported; the controller answers with a desired displacement and updates
//! the player's jump state. After the resolver has processed the displacement
//! request, a second pass selects the sprite, the animation and the facing
//! direction from the resolver's output.

use vstd::prelude::*;

verus! {

/// Horizontal walking speed, in milliunits per millisecond
/// (equal to world units per second).
pub const PLAYER_VELOCITY_X: u64 = 400;

/// Rising speed while a jump arc is active, in milliunits per millisecond.
pub const PLAYER_VELOCITY_Y: u64 = 850;

/// Greatest vertical distance a single jump arc may cover, in milliunits.
pub const MAX_JUMP_HEIGHT: u64 = 230_000;

/// How many jumps may be chained before the player must touch ground again.
pub const MAX_JUMP_TIMES: u32 = 2;

/// Sprite-sheet index of the standing pose.
pub const SPRITE_IDX_STAND: usize = 28;

/// First sprite-sheet index of the two-frame walking cycle.
pub const SPRITE_IDX_WALK_A: usize = 7;

/// Second sprite-sheet index of the two-frame walking cycle.
pub const SPRITE_IDX_WALK_B: usize = 0;

/// Sprite-sheet index of the airborne pose.
pub const SPRITE_IDX_JUMP: usize = 35;

/// Delay between the frames of the walking cycle, in milliseconds.
pub const CYCLE_DELAY_MS: u64 = 70;

/// Largest frame interval the fixed-point arithmetic accepts, in
/// milliseconds; a machine bound, far above any real frame time.
pub const MAX_FRAME_MS: u64 = 1_000_000;

/// Which way the player faces; the renderer mirrors the sprite when Left.
#[derive(Clone, Copy, Debug, PartialEq, Eq, Structural)]
pub enum Direction {
    Right,
    Left,
}

/// Renderer-facing description of a cyclic animation: the sprite indices it
/// shows in order, and the fixed delay between them.
#[derive(Debug)]
pub struct Animation {
    pub sprites: Vec<usize>,
    pub frame_delay_ms: u64,
}

/// A jump in progress: the vertical distance risen since the jump began,
/// in milliunits.
#[derive(Clone, Copy, Debug, PartialEq, Eq, Structural)]
pub struct JumpArc {
    pub accumulated: u64,
}

/// The keyboard state the controller reads in one frame: Left and Right are
/// level-triggered (currently held), the jump key is edge-triggered (newly
/// pressed this frame).
#[derive(Clone, Copy, Debug)]
pub struct FrameInput {
    pub left_held: bool,
    pub right_held: bool,
    pub jump_pressed: bool,
}

/// A desired displacement handed to the collision resolver, in milliunits.
#[derive(Clone, Copy, Debug, PartialEq, Eq, Structural)]
pub struct Displacement {
    pub x: i64,
    pub y: i64,
}

/// The complete per-frame state of the one player entity.
#[derive(Debug)]
pub struct Player {
    /// Facing direction; flips only on frames with a nonzero horizontal request.
    pub direction: Direction,
    /// Jumps performed since the player was last grounded.
    pub jump_count: u32,
    /// The active jump arc, if one is in progress.
    pub jump: Option<JumpArc>,
    /// Sprite-sheet index currently shown.
    pub sprite_index: usize,
    /// Whether the renderer mirrors the sprite horizontally.
    pub flip_x: bool,
    /// The active animation, if any; only the walking cycle is ever used.
    pub animation: Option<Animation>,
}

/// The sprite indices of the walking cycle, in the order they are shown.
pub open spec fn walking_cycle() -> Seq<usize> {
    seq![SPRITE_IDX_WALK_A, SPRITE_IDX_WALK_B]
}

/// An animation is the walking cycle exactly.
pub open spec fn is_walking_animation(a: Animation) -> bool {
    a.sprites@ == walking_cycle() && a.frame_delay_ms == CYCLE_DELAY_MS
}

impl Player {
    /// The state invariant: the jump chain stays within its bound, an active
    /// arc never exceeds the maximum jump height, only the walking cycle is
    /// ever animated, and the flip flag agrees with the facing direction.
    pub open spec fn wf(self) -> bool {
        &&& self.jump_count <= MAX_JUMP_TIMES
        &&& (self.jump matches Some(arc) ==> arc.accumulated <= MAX_JUMP_HEIGHT)
        &&& (self.animation matches Some(a) ==> is_walking_animation(a))
        &&& self.flip_x == (self.direction is Left)
    }

    /// A freshly spawned player: facing right, grounded chain, no arc,
    /// standing sprite, no animation.
    pub fn new() -> (p: Player)
        ensures
            p.direction == Direction::Right,
            p.jump_count == 0,
            p.jump is None,
            p.sprite_index == SPRITE_IDX_STAND,
            !p.flip_x,
            p.animation is None,
            p.wf(),
    {
        Player {
            direction: Direction::Right,
            jump_count: 0,
            jump: Option::None,
            sprite_index: SPRITE_IDX_STAND,
            flip_x: false,
            animation: Option::None,
        }
    }
}

/// The horizontal displacement a frame requests: each held key contributes a
/// full speed step in its direction, so holding both keys cancels to zero.
pub open spec fn x_request(input: FrameInput, dt_ms: u64) -> int {
    let step = PLAYER_VELOCITY_X as int * dt_ms as int;
    (if input.right_held { step } else { 0 }) - (if input.left_held { step } else { 0 })
}

/// Desired horizontal displacement for this frame, in milliunits.
pub fn movement(input: &FrameInput, dt_ms: u64) -> (dx: i64)
    requires
        dt_ms <= MAX_FRAME_MS,
    ensures
        dx == x_request(*input, dt_ms),
        input.right_held && !input.left_held ==> dx == PLAYER_VELOCITY_X * dt_ms,
        input.left_held && !input.right_held ==> dx == -(PLAYER_VELOCITY_X as int * dt_ms as int),
        input.left_held == input.right_held ==> dx == 0,
{
    let step: i64 = (PLAYER_VELOCITY_X * dt_ms) as i64;
    let mut dx: i64 = 0;
    if input.right_held {
        dx = dx + step;
    }
    if input.left_held {
        dx = dx - step;
    }
    dx
}

/// A fresh jump arc begins only when no arc is active, the jump key was newly
/// pressed this frame, and the chain counter is below the limit.
pub open spec fn jump_starts(p: Player, jump_pressed: bool) -> bool {
    p.jump is None && jump_pressed && p.jump_count < MAX_JUMP_TIMES
}

/// The jump arc after the press is handled: a fresh arc with an empty
/// accumulator when one begins, the prior arc (or absence) otherwise.
pub open spec fn arc_after_press(p: Player, jump_pressed: bool) -> Option<JumpArc> {
    if jump_starts(p, jump_pressed) {
        Some(JumpArc { accumulated: 0 })
    } else {
        p.jump
    }
}

/// The chain counter after the frame's jump bookkeeping: a grounded frame
/// resets it to zero whatever its prior value; otherwise a fresh arc advances
/// it by one; otherwise it is unchanged.
pub open spec fn count_after_jump(p: Player, jump_pressed: bool, grounded: bool) -> u32 {
    if grounded {
        0
    } else if jump_starts(p, jump_pressed) {
        (p.jump_count + 1) as u32
    } else {
        p.jump_count
    }
}

/// One frame of jump bookkeeping: a newly pressed jump key begins a fresh arc
/// and advances the chain counter while the limit allows; a grounded report
/// resets the counter, whatever its prior value. Nothing else changes.
pub fn jump(player: &mut Player, jump_pressed: bool, grounded: bool)
    requires
        old(player).wf(),
    ensures
        final(player).jump == arc_after_press(*old(player), jump_pressed),
        final(player).jump_count == count_after_jump(*old(player), jump_pressed, grounded),
        grounded ==> final(player).jump_count == 0,
        final(player).direction == old(player).direction,
        final(player).sprite_index == old(player).sprite_index,
        final(player).flip_x == old(player).flip_x,
        final(player).animation == old(player).animation,
        final(player).wf(),
{
    if player.jump.is_none() && jump_pressed && player.jump_count < MAX_JUMP_TIMES {
        player.jump_count = player.jump_count + 1;
        player.jump = Option::Some(JumpArc { accumulated: 0 });
    }
    if grounded {
        player.jump_count = 0;
    }
}

/// The vertical rise a frame contributes to an active arc: a full speed step,
/// except that the step which would cross the maximum height is clamped to
/// exactly the remaining distance.
pub open spec fn rise_amount(accumulated: u64, dt_ms: u64) -> int {
    let tentative = PLAYER_VELOCITY_Y as int * dt_ms as int;
    if accumulated + tentative >= MAX_JUMP_HEIGHT {
        MAX_JUMP_HEIGHT - accumulated
    } else {
        tentative
    }
}

/// An active arc ends this frame when it reaches the maximum height, or when
/// the chain counter stands at the limit: the arc begun by the final allowed
/// jump ends on the very frame it begins, whatever its height.
pub open spec fn arc_ends(accumulated: u64, jump_count: u32, dt_ms: u64) -> bool {
    ||| accumulated + PLAYER_VELOCITY_Y as int * dt_ms as int >= MAX_JUMP_HEIGHT
    ||| jump_count == MAX_JUMP_TIMES
}

/// One frame of an active jump arc: rise by a full speed step, clamp the step
/// that would cross the maximum height to exactly the remaining distance and
/// end the arc, and end the arc of the final allowed jump on the frame it
/// begins, whatever its height. Returns the vertical displacement to request.
pub fn rise(player: &mut Player, dt_ms: u64) -> (dy: i64)
    requires
        old(player).wf(),
        old(player).jump is Some,
        dt_ms <= MAX_FRAME_MS,
    ensures
        dy == rise_amount(old(player).jump->0.accumulated, dt_ms),
        dy >= 0,
        old(player).jump->0.accumulated + PLAYER_VELOCITY_Y * dt_ms >= MAX_JUMP_HEIGHT
            ==> dy == MAX_JUMP_HEIGHT - old(player).jump->0.accumulated,
        final(player).jump == (if arc_ends(old(player).jump->0.accumulated, old(player).jump_count, dt_ms) {
            Option::<JumpArc>::None
        } else {
            Some(JumpArc { accumulated: (old(player).jump->0.accumulated + rise_amount(old(player).jump->0.accumulated, dt_ms)) as u64 })
        }),
        final(player).jump matches Some(arc) ==> arc.accumulated <= MAX_JUMP_HEIGHT,
        final(player).jump_count == old(player).jump_count,
        final(player).direction == old(player).direction,
        final(player).sprite_index == old(player).sprite_index,
        final(player).flip_x == old(player).flip_x,
        final(player).animation == old(player).animation,
        final(player).wf(),
{
    let accumulated: u64 = player.jump.unwrap().accumulated;

    let mut amount: u64 = PLAYER_VELOCITY_Y * dt_ms;
    let mut ended: bool = false;

    if accumulated + amount >= MAX_JUMP_HEIGHT {
        amount = MAX_JUMP_HEIGHT - accumulated;
        ended = true;
    }

    if player.jump_count == MAX_JUMP_TIMES {
        ended = true;
    }

    if ended {
        player.jump = Option::None;
    } else {
        player.jump = Option::Some(JumpArc { accumulated: accumulated + amount });
    }

    amount as i64
}

/// The constant-rate descent a frame requests while no arc is active: the
/// rising speed divided by three halves, in truncating fixed point.
pub open spec fn fall_amount(dt_ms: u64) -> int {
    (2 * PLAYER_VELOCITY_Y as int * dt_ms as int) / 3
}

/// Desired vertical displacement while no jump arc is active: a constant-rate
/// descent, not accelerating gravity.
pub fn fall(dt_ms: u64) -> (dy: i64)
    requires
        dt_ms <= MAX_FRAME_MS,
    ensures
        dy == -fall_amount(dt_ms),
        dy <= 0,
{
    let step: u64 = PLAYER_VELOCITY_Y * dt_ms;
    let magnitude: u64 = 2 * step / 3;
    -(magnitude as i64)
}

/// The walking animation the renderer cycles while the player walks.
pub fn walking_animation() -> (a: Animation)
    ensures
        is_walking_animation(a),
{
    let mut sprites: Vec<usize> = Vec::new();
    sprites.push(SPRITE_IDX_WALK_A);
    sprites.push(SPRITE_IDX_WALK_B);
    assert(sprites@ =~= walking_cycle());
    Animation { sprites, frame_delay_ms: CYCLE_DELAY_MS }
}

/// After the resolver has run: a grounded player whose frame requested a
/// nonzero horizontal displacement walks; the walking cycle is started if no
/// animation is active yet. Nothing else changes.
pub fn apply_movement_animation(player: &mut Player, desired_x: i64, grounded: bool)
    requires
        old(player).wf(),
    ensures
        grounded && desired_x != 0 ==> (final(player).animation matches Some(a)
            && is_walking_animation(a)),
        !(grounded && desired_x != 0 && old(player).animation is None)
            ==> final(player).animation == old(player).animation,
        final(player).direction == old(player).direction,
        final(player).jump_count == old(player).jump_count,
        final(player).jump == old(player).jump,
        final(player).sprite_index == old(player).sprite_index,
        final(player).flip_x == old(player).flip_x,
        final(player).wf(),
{
    if desired_x != 0 && grounded && player.animation.is_none() {
        player.animation = Option::Some(walking_animation());
    }
}

/// After the resolver has run: a grounded player whose frame requested no
/// horizontal displacement stands still — any animation is cancelled and the
/// standing sprite is shown. Nothing else changes.
pub fn apply_idle_sprite(player: &mut Player, desired_x: i64, grounded: bool)
    requires
        old(player).wf(),
    ensures
        grounded && desired_x == 0 ==> final(player).animation is None
            && final(player).sprite_index == SPRITE_IDX_STAND,
        !(grounded && desired_x == 0) ==> final(player).animation == old(player).animation
            && final(player).sprite_index == old(player).sprite_index,
        final(player).direction == old(player).direction,
        final(player).jump_count == old(player).jump_count,
        final(player).jump == old(player).jump,
        final(player).flip_x == old(player).flip_x,
        final(player).wf(),
{
    if desired_x == 0 && grounded {
        player.animation = Option::None;
        player.sprite_index = SPRITE_IDX_STAND;
    }
}

/// After the resolver has run: an airborne player shows the jump sprite and
/// animates nothing, whatever the other rules said. Nothing else changes.
pub fn apply_jump_sprite(player: &mut Player, grounded: bool)
    requires
        old(player).wf(),
    ensures
        !grounded ==> final(player).animation is None
            && final(player).sprite_index == SPRITE_IDX_JUMP,
        grounded ==> final(player).animation == old(player).animation
            && final(player).sprite_index == old(player).sprite_index,
        final(player).direction == old(player).direction,
        final(player).jump_count == old(player).jump_count,
        final(player).jump == old(player).jump,
        final(player).flip_x == old(player).flip_x,
        final(player).wf(),
{
    if !grounded {
        player.animation = Option::None;
        player.sprite_index = SPRITE_IDX_JUMP;
    }
}

/// The facing direction follows the sign of the requested horizontal
/// displacement; a zero request leaves it as it was.
pub fn update_direction(player: &mut Player, desired_x: i64)
    ensures
        desired_x > 0 ==> final(player).direction == Direction::Right,
        desired_x < 0 ==> final(player).direction == Direction::Left,
        desired_x == 0 ==> final(player).direction == old(player).direction,
        final(player).jump_count == old(player).jump_count,
        final(player).jump == old(player).jump,
        final(player).sprite_index == old(player).sprite_index,
        final(player).flip_x == old(player).flip_x,
        final(player).animation == old(player).animation,
{
    if desired_x > 0 {
        player.direction = Direction::Right;
    } else if desired_x < 0 {
        player.direction = Direction::Left;
    }
}

/// The renderer's flip flag mirrors the sprite exactly when facing left.
pub fn update_sprite_direction(player: &mut Player)
    ensures
        final(player).flip_x == (final(player).direction is Left),
        final(player).direction == old(player).direction,
        final(player).jump_count == old(player).jump_count,
        final(player).jump == old(player).jump,
        final(player).sprite_index == old(player).sprite_index,
        final(player).animation == old(player).animation,
{
    match player.direction {
        Direction::Right => player.flip_x = false,
        Direction::Left => player.flip_x = true,
    }
}

/// The vertical displacement a frame requests: a rise step along the arc that
/// is active once the press is handled, or the constant-rate fall when none is.
pub open spec fn frame_y(p: Player, jump_pressed: bool, dt_ms: u64) -> int {
    match arc_after_press(p, jump_pressed) {
        Some(arc) => rise_amount(arc.accumulated, dt_ms),
        None => -fall_amount(dt_ms),
    }
}

/// The jump arc a frame leaves behind: the arc active once the press is
/// handled, advanced by the frame's rise and dropped when it ends.
pub open spec fn frame_arc(p: Player, jump_pressed: bool, grounded: bool, dt_ms: u64) -> Option<JumpArc> {
    match arc_after_press(p, jump_pressed) {
        Some(arc) => if arc_ends(arc.accumulated, count_after_jump(p, jump_pressed, grounded), dt_ms) {
            Option::None
        } else {
            Some(JumpArc { accumulated: (arc.accumulated + rise_amount(arc.accumulated, dt_ms)) as u64 })
        },
        None => Option::None,
    }
}

/// Everything the controller decides before the resolver runs, in order:
/// horizontal movement from the held keys, jump bookkeeping against the
/// grounded flag the resolver reported, then a rise step along the active arc
/// or the constant fall. Returns the displacement to request.
pub fn frame_request(player: &mut Player, input: &FrameInput, dt_ms: u64, grounded: bool) -> (d: Displacement)
    requires
        old(player).wf(),
        dt_ms <= MAX_FRAME_MS,
    ensures
        d.x == x_request(*input, dt_ms),
        d.y == frame_y(*old(player), input.jump_pressed, dt_ms),
        final(player).jump_count == count_after_jump(*old(player), input.jump_pressed, grounded),
        final(player).jump == frame_arc(*old(player), input.jump_pressed, grounded, dt_ms),
        grounded ==> final(player).jump_count == 0,
        final(player).direction == old(player).direction,
        final(player).sprite_index == old(player).sprite_index,
        final(player).flip_x == old(player).flip_x,
        final(player).animation == old(player).animation,
        final(player).wf(),
{
    let dx = movement(input, dt_ms);
    jump(player, input.jump_pressed, grounded);
    let dy: i64 = if player.jump.is_some() {
        rise(player, dt_ms)
    } else {
        fall(dt_ms)
    };
    Displacement { x: dx, y: dy }
}

/// The full post-resolver pass, in order: start the walking cycle, apply the
/// standing sprite, apply the airborne sprite (which overrides the other
/// two), turn to face the requested displacement, and mirror the sprite to
/// match. `desired_x` is the horizontal request the resolver echoed back,
/// `grounded` its contact report for this frame.
pub fn apply_resolver_output(player: &mut Player, desired_x: i64, grounded: bool)
    requires
        old(player).wf(),
    ensures
        !grounded ==> final(player).sprite_index == SPRITE_IDX_JUMP
            && final(player).animation is None,
        grounded && desired_x == 0 ==> final(player).sprite_index == SPRITE_IDX_STAND
            && final(player).animation is None,
        grounded && desired_x != 0 ==> (final(player).animation matches Some(a)
            && is_walking_animation(a))
            && final(player).sprite_index == old(player).sprite_index,
        desired_x > 0 ==> final(player).direction == Direction::Right,
        desired_x < 0 ==> final(player).direction == Direction::Left,
        desired_x == 0 ==> final(player).direction == old(player).direction
            && final(player).flip_x == old(player).flip_x,
        final(player).flip_x == (final(player).direction is Left),
        final(player).jump_count == old(player).jump_count,
        final(player).jump == old(player).jump,
        final(player).wf(),
{
    apply_movement_animation(player, desired_x, grounded);
    apply_idle_sprite(player, desired_x, grounded);
    apply_jump_sprite(player, grounded);
    update_direction(player, desired_x);
    update_sprite_direction(player);
}

/// Law: on any grounded frame the jump chain counter is reset to zero,
/// whatever its prior value and whatever was pressed.
pub proof fn lemma_grounded_resets_counter(p: Player, jump_pressed: bool)
    ensures
        count_after_jump(p, jump_pressed, true) == 0,
{
}

/// Law: the arc a frame leaves behind never accumulates the maximum jump
/// height or more, and the frame whose full step would cross the bound is
/// clamped to exactly the remaining distance and ends the arc.
pub proof fn lemma_height_clamped(p: Player, jump_pressed: bool, grounded: bool, dt_ms: u64)
    requires
        p.wf(),
    ensures
        frame_arc(p, jump_pressed, grounded, dt_ms) matches Some(arc)
            ==> arc.accumulated < MAX_JUMP_HEIGHT,
        arc_after_press(p, jump_pressed) is Some
            ==> arc_after_press(p, jump_pressed)->0.accumulated
                + frame_y(p, jump_pressed, dt_ms) <= MAX_JUMP_HEIGHT,
        arc_after_press(p, jump_pressed) is Some
            && arc_after_press(p, jump_pressed)->0.accumulated
                + PLAYER_VELOCITY_Y as int * dt_ms as int >= MAX_JUMP_HEIGHT
            ==> frame_y(p, jump_pressed, dt_ms)
                    == MAX_JUMP_HEIGHT - arc_after_press(p, jump_pressed)->0.accumulated
                && frame_arc(p, jump_pressed, grounded, dt_ms) is None,
{
}

/// Law: the arc begun by the final allowed jump — begun with the chain
/// counter one below the limit — ends on the very frame it begins, whatever
/// its height; the counter reaches the limit.
pub proof fn lemma_final_jump_ends_at_once(p: Player, dt_ms: u64)
    requires
        p.wf(),
        p.jump is None,
        p.jump_count == MAX_JUMP_TIMES - 1,
    ensures
        jump_starts(p, true),
        count_after_jump(p, true, false) == MAX_JUMP_TIMES,
        frame_arc(p, true, false, dt_ms) is None,
{
}

/// Law: pressing jump while the chain counter stands at the limit is a no-op
/// on an airborne frame: no arc begins and the counter does not move.
pub proof fn lemma_press_at_limit_is_noop(p: Player, dt_ms: u64)
    requires
        p.wf(),
        p.jump is None,
        p.jump_count == MAX_JUMP_TIMES,
    ensures
        !jump_starts(p, true),
        arc_after_press(p, true) is None,
        count_after_jump(p, true, false) == p.jump_count,
        frame_arc(p, true, false, dt_ms) is None,
{
}

} // verus!
