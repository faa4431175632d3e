use vstd::prelude::*;
use crate::geometry::{Vec2, coord_ok, MICROS_PER_SECOND, UNITS_PER_PIXEL};

verus! {

/// One movement request of a tick, in the order the input produced them.
#[derive(Clone, Copy, Debug, PartialEq, Eq, Structural)]
pub enum MovementAction {
    /// Horizontal direction: -1 (left), 0 (none) or 1 (right).
    Move(i8),
    Jump,
}

/// Horizontal movement speed, in length units per second.
#[derive(Clone, Copy, Debug, PartialEq, Eq, Structural)]
pub struct MovementSpeed(pub u32);

/// Vertical velocity given by a jump, in length units per second.
#[derive(Clone, Copy, Debug, PartialEq, Eq, Structural)]
pub struct JumpImpulse(pub i64);

/// The steepest surface the character can stand on, given by the tangent of
/// its angle to the horizontal as the ratio `tan_num / tan_den`.
/// A zero denominator stands for a right angle.
#[derive(Clone, Copy, Debug, PartialEq, Eq, Structural)]
pub struct MaxSlopeAngle {
    pub tan_num: u32,
    pub tan_den: u32,
}

/// A rotation given by its cosine and sine, both multiplied by the same
/// positive factor (the identity is `cos == 1, sin == 0`).
#[derive(Clone, Copy, Debug, PartialEq, Eq, Structural)]
pub struct Rotation {
    pub cos: i32,
    pub sin: i32,
}

/// One result of the downward ground cast: the surface normal at the hit,
/// in the caster's frame (any positive length).
#[derive(Clone, Copy, Debug, PartialEq, Eq, Structural)]
pub struct ShapeHit {
    pub normal_x: i32,
    pub normal_y: i32,
}

/// The vertical scale of the character's body.
#[derive(Clone, Copy, Debug, PartialEq, Eq, Structural)]
pub enum ScaleY {
    Full,
    Half,
}

/// Position and vertical scale of the character's body.
#[derive(Clone, Copy, Debug, PartialEq, Eq, Structural)]
pub struct Transform {
    pub translation: Vec2,
    pub scale_y: ScaleY,
}

/// Extent of the character's collider at full scale, in length units.
#[derive(Clone, Copy, Debug, PartialEq, Eq, Structural)]
pub struct Collider {
    pub width: i64,
    pub height: i64,
}

/// Kind of a physics body.
#[derive(Clone, Copy, Debug, PartialEq, Eq, Structural)]
pub enum RigidBody {
    Static,
    Kinematic,
    Dynamic,
}

/// Parameters of a shape cast that the physics collaborator performs.
#[derive(Clone, Copy, Debug, PartialEq, Eq, Structural)]
pub struct ShapeCaster {
    /// Scale of the cast shape relative to the collider, in thousandths.
    pub scale_permille: u32,
    /// Origin of the cast, relative to the body for the ground cast and in
    /// world space for the headroom cast.
    pub origin: Vec2,
    /// `true` casts upwards, `false` downwards.
    pub upwards: bool,
    /// Longest distance the cast travels, in length units.
    pub max_distance: i64,
}

/// Movement parameters of a character.
#[derive(Clone, Copy, Debug, PartialEq, Eq, Structural)]
pub struct MovementBundle {
    pub acceleration: MovementSpeed,
    pub jump_impulse: JumpImpulse,
    pub max_slope_angle: Option<MaxSlopeAngle>,
}

/// The per-character state: this tick's ground and duck classification, the
/// movement parameters and the collider.
#[derive(Clone, Copy, Debug, PartialEq, Eq, Structural)]
pub struct CharacterController {
    pub grounded: bool,
    pub ducking: bool,
    pub movement: MovementBundle,
    pub collider: Collider,
}

/// Everything a controllable character is spawned with.
#[derive(Clone, Copy, Debug, PartialEq, Eq, Structural)]
pub struct CharacterControllerBundle {
    pub controller: CharacterController,
    pub rigid_body: RigidBody,
    pub ground_caster: ShapeCaster,
    pub rotation_locked: bool,
}

/// Scale of the shape used by the character's casts, in thousandths.
pub const CAST_SCALE_PERMILLE: u32 = 990;

/// Default horizontal speed: 15000 pixels per second.
pub const DEFAULT_SPEED: u32 = 15_000_000;

/// Default jump impulse: 400 pixels per second.
pub const DEFAULT_JUMP_IMPULSE: i64 = 400_000;

/// Tangent of the default steepest slope (30 degrees), as a ratio.
pub const DEFAULT_SLOPE_TAN_NUM: u32 = 5_773_503;
pub const DEFAULT_SLOPE_TAN_DEN: u32 = 10_000_000;

/// Largest collider height the character can have (a million pixels).
pub const MAX_COLLIDER_HEIGHT: i64 = 1_000_000_000;

// ---------------------------------------------------------------------------
// Specifications

/// `v` (nonzero) makes an angle with world-up of at most the angle of `limit`.
pub open spec fn within_slope(vx: int, vy: int, limit: MaxSlopeAngle) -> bool {
    let ax = if vx < 0 { -vx } else { vx };
    &&& (vx != 0 || vy != 0)
    &&& limit.tan_num as int * vy >= limit.tan_den as int * ax
    &&& (vy > 0 || limit.tan_den == 0)
}

/// First coordinate of `(x, y)` turned by `r`.
pub open spec fn rotate_x(r: Rotation, x: int, y: int) -> int {
    r.cos as int * x - r.sin as int * y
}

/// Second coordinate of `(x, y)` turned by `r`.
pub open spec fn rotate_y(r: Rotation, x: int, y: int) -> int {
    r.sin as int * x + r.cos as int * y
}

/// A hit counts as ground: its inverted normal, turned into world space,
/// is within the slope limit, or there is no limit.
pub open spec fn hit_grounds(hit: ShapeHit, rotation: Rotation, limit: Option<MaxSlopeAngle>) -> bool {
    match limit {
        None => true,
        Some(m) => within_slope(
            rotate_x(rotation, -hit.normal_x, -hit.normal_y),
            rotate_y(rotation, -hit.normal_x, -hit.normal_y),
            m,
        ),
    }
}

/// Some hit of this tick's ground cast counts as ground.
pub open spec fn any_hit_grounds(hits: Seq<ShapeHit>, rotation: Rotation, limit: Option<MaxSlopeAngle>) -> bool {
    exists|i: int| 0 <= i < hits.len() && hit_grounds(#[trigger] hits[i], rotation, limit)
}

/// Height of the collider under a vertical scale.
pub open spec fn scaled_height(height: int, scale_y: ScaleY) -> int {
    match scale_y {
        ScaleY::Full => height,
        ScaleY::Half => height / 2,
    }
}

/// The duck/stand state machine for one tick: from the ducking flag and the
/// body, the duck input and whether the headroom cast found nothing, the new
/// ducking flag and body.
pub open spec fn duck_step(ducking: bool, t: Transform, height: int, pressed: bool, headroom_clear: bool) -> (bool, Transform) {
    if pressed {
        if !ducking {
            (true, Transform {
                translation: Vec2 { x: t.translation.x, y: (t.translation.y - height / 4) as i64 },
                scale_y: ScaleY::Half,
            })
        } else {
            (ducking, t)
        }
    } else if ducking && headroom_clear {
        (false, Transform {
            translation: Vec2 {
                x: t.translation.x,
                y: (t.translation.y + scaled_height(height, t.scale_y) / 2) as i64,
            },
            scale_y: ScaleY::Full,
        })
    } else {
        (ducking, t)
    }
}

/// Horizontal velocity set by a move: direction times speed times the tick's
/// duration in seconds.
pub open spec fn move_velocity(direction: int, speed: u32, delta_micros: u32) -> int {
    direction * ((speed as int * delta_micros as int) / MICROS_PER_SECOND as int)
}

/// The velocity after one movement action.
pub open spec fn apply_action(c: CharacterController, v: Vec2, action: MovementAction, delta_micros: u32) -> Vec2 {
    match action {
        MovementAction::Move(d) => Vec2 {
            x: move_velocity(d as int, c.movement.acceleration.0, delta_micros) as i64,
            y: v.y,
        },
        MovementAction::Jump => if c.grounded && !c.ducking {
            Vec2 { x: v.x, y: c.movement.jump_impulse.0 }
        } else {
            v
        },
    }
}

/// The velocity after a tick's movement actions, applied in order.
pub open spec fn apply_actions(c: CharacterController, v: Vec2, actions: Seq<MovementAction>, delta_micros: u32) -> Vec2
    decreases actions.len(),
{
    if actions.len() == 0 {
        v
    } else {
        apply_action(c, apply_actions(c, v, actions.drop_last(), delta_micros), actions.last(), delta_micros)
    }
}

/// Every move of the sequence has a direction of -1, 0 or 1.
pub open spec fn moves_valid(actions: Seq<MovementAction>) -> bool {
    forall|i: int| 0 <= i < actions.len() ==> match #[trigger] actions[i] {
        MovementAction::Move(d) => -1 <= d <= 1,
        MovementAction::Jump => true,
    }
}

// ---------------------------------------------------------------------------
// Construction

/// The default movement parameters.
pub open spec fn default_movement_spec() -> MovementBundle {
    MovementBundle {
        acceleration: MovementSpeed(DEFAULT_SPEED),
        jump_impulse: JumpImpulse(DEFAULT_JUMP_IMPULSE),
        max_slope_angle: Some(MaxSlopeAngle { tan_num: DEFAULT_SLOPE_TAN_NUM, tan_den: DEFAULT_SLOPE_TAN_DEN }),
    }
}

impl MovementBundle {
    pub fn new(speed: u32, jump_impulse: i64, max_slope_angle: MaxSlopeAngle) -> (r: Self)
        ensures
            r == (MovementBundle {
                acceleration: MovementSpeed(speed),
                jump_impulse: JumpImpulse(jump_impulse),
                max_slope_angle: Some(max_slope_angle),
            }),
    {
        MovementBundle {
            acceleration: MovementSpeed(speed),
            jump_impulse: JumpImpulse(jump_impulse),
            max_slope_angle: Some(max_slope_angle),
        }
    }

    /// 15000 pixels per second, an impulse of 400 pixels per second and a
    /// steepest slope of 30 degrees.
    pub fn default_movement() -> (r: Self)
        ensures
            r == default_movement_spec(),
    {
        Self::new(
            DEFAULT_SPEED,
            DEFAULT_JUMP_IMPULSE,
            MaxSlopeAngle { tan_num: DEFAULT_SLOPE_TAN_NUM, tan_den: DEFAULT_SLOPE_TAN_DEN },
        )
    }
}

impl Default for MovementBundle {
    fn default() -> (r: Self)
        ensures
            r == default_movement_spec(),
    {
        Self::default_movement()
    }
}

impl CharacterController {
    /// The ducking flag and the body's scale agree, and the collider's
    /// height is in range.
    pub open spec fn wf(self, t: Transform) -> bool {
        &&& self.ducking == (t.scale_y == ScaleY::Half)
        &&& 0 <= self.collider.height <= MAX_COLLIDER_HEIGHT
    }
}

impl CharacterControllerBundle {
    /// A dynamic, rotation-locked character with the default movement and a
    /// ground cast of the collider shrunk to 99%, cast one pixel downwards.
    pub fn new(collider: Collider) -> (r: Self)
        ensures
            r.controller == (CharacterController {
                grounded: false,
                ducking: false,
                movement: default_movement_spec(),
                collider,
            }),
            r.rigid_body == RigidBody::Dynamic,
            r.ground_caster == (ShapeCaster {
                scale_permille: CAST_SCALE_PERMILLE,
                origin: Vec2 { x: 0, y: 0 },
                upwards: false,
                max_distance: UNITS_PER_PIXEL,
            }),
            r.rotation_locked,
    {
        CharacterControllerBundle {
            controller: CharacterController {
                grounded: false,
                ducking: false,
                movement: MovementBundle::default_movement(),
                collider,
            },
            rigid_body: RigidBody::Dynamic,
            ground_caster: ShapeCaster {
                scale_permille: CAST_SCALE_PERMILLE,
                origin: Vec2::zero(),
                upwards: false,
                max_distance: UNITS_PER_PIXEL,
            },
            rotation_locked: true,
        }
    }
}

// ---------------------------------------------------------------------------
// Grounding

/// Whether one hit counts as ground.
fn hit_counts(hit: &ShapeHit, rotation: Rotation, limit: Option<MaxSlopeAngle>) -> (r: bool)
    ensures
        r == hit_grounds(*hit, rotation, limit),
{
    match limit {
        None => true,
        Some(m) => {
            let nx: i128 = -(hit.normal_x as i128);
            let ny: i128 = -(hit.normal_y as i128);
            let c: i128 = rotation.cos as i128;
            let sn: i128 = rotation.sin as i128;
            assert(-0x8000_0000_0000_0000 <= c * nx <= 0x8000_0000_0000_0000) by (nonlinear_arith)
                requires -0x8000_0000 <= c <= 0x8000_0000, -0x8000_0000 <= nx <= 0x8000_0000;
            assert(-0x8000_0000_0000_0000 <= sn * ny <= 0x8000_0000_0000_0000) by (nonlinear_arith)
                requires -0x8000_0000 <= sn <= 0x8000_0000, -0x8000_0000 <= ny <= 0x8000_0000;
            assert(-0x8000_0000_0000_0000 <= sn * nx <= 0x8000_0000_0000_0000) by (nonlinear_arith)
                requires -0x8000_0000 <= sn <= 0x8000_0000, -0x8000_0000 <= nx <= 0x8000_0000;
            assert(-0x8000_0000_0000_0000 <= c * ny <= 0x8000_0000_0000_0000) by (nonlinear_arith)
                requires -0x8000_0000 <= c <= 0x8000_0000, -0x8000_0000 <= ny <= 0x8000_0000;
            let wx: i128 = c * nx - sn * ny;
            let wy: i128 = sn * nx + c * ny;
            let ax: i128 = if wx < 0 { -wx } else { wx };
            let num: i128 = m.tan_num as i128;
            let den: i128 = m.tan_den as i128;
            assert(-0x1_0000_0000_0000_0000_0000_0000 <= num * wy <= 0x1_0000_0000_0000_0000_0000_0000) by (nonlinear_arith)
                requires 0 <= num <= 0x1_0000_0000, -0x1_0000_0000_0000_0000 <= wy <= 0x1_0000_0000_0000_0000;
            assert(0 <= den * ax <= 0x1_0000_0000_0000_0000_0000_0000) by (nonlinear_arith)
                requires 0 <= den <= 0x1_0000_0000, 0 <= ax <= 0x1_0000_0000_0000_0000;
            (wx != 0 || wy != 0) && num * wy >= den * ax && (wy > 0 || den == 0)
        },
    }
}

/// Classifies this tick's ground cast: the character is grounded exactly
/// when some hit counts as ground. Nothing of the previous tick is kept.
pub fn update_grounded(controller: &mut CharacterController, hits: &Vec<ShapeHit>, rotation: Rotation)
    ensures
        final(controller).grounded == any_hit_grounds(hits@, rotation, old(controller).movement.max_slope_angle),
        final(controller).ducking == old(controller).ducking,
        final(controller).movement == old(controller).movement,
        final(controller).collider == old(controller).collider,
{
    let limit = controller.movement.max_slope_angle;
    let mut found = false;
    let mut i: usize = 0;
    while i < hits.len()
        invariant
            i <= hits.len(),
            limit == controller.movement.max_slope_angle,
            found == exists|j: int| 0 <= j < i && hit_grounds(#[trigger] hits@[j], rotation, limit),
        decreases hits.len() - i,
    {
        if hit_counts(&hits[i], rotation, limit) {
            found = true;
        }
        i += 1;
    }
    controller.grounded = found;
}

// ---------------------------------------------------------------------------
// Ducking

/// The upward cast that decides whether a ducking character has room to
/// stand: the current collider shrunk to 99%, starting one pixel above the
/// body, over the full standing height.
pub fn headroom_cast(controller: &CharacterController, transform: &Transform) -> (r: ShapeCaster)
    requires
        controller.wf(*transform),
        coord_ok(transform.translation.y as int),
    ensures
        r == (ShapeCaster {
            scale_permille: CAST_SCALE_PERMILLE,
            origin: Vec2 { x: transform.translation.x, y: (transform.translation.y + UNITS_PER_PIXEL) as i64 },
            upwards: true,
            max_distance: controller.collider.height,
        }),
{
    let height = controller.collider.height;
    ShapeCaster {
        scale_permille: CAST_SCALE_PERMILLE,
        origin: Vec2 { x: transform.translation.x, y: transform.translation.y + UNITS_PER_PIXEL },
        upwards: true,
        max_distance: height,
    }
}

fn current_height(height: i64, scale_y: ScaleY) -> (r: i64)
    requires
        0 <= height,
    ensures
        r == scaled_height(height as int, scale_y),
{
    match scale_y {
        ScaleY::Full => height,
        ScaleY::Half => height / 2,
    }
}

/// Runs the duck/stand state machine for one tick. Ducking halves the body's
/// height and lowers it by a quarter of the standing height, so the feet stay
/// put; standing needs the headroom cast to be clear, restores the full
/// height and raises the body by half of the ducked height.
pub fn update_ducking(
    controller: &mut CharacterController,
    transform: &mut Transform,
    duck_pressed: bool,
    headroom_clear: bool,
)
    requires
        old(controller).wf(*old(transform)),
        coord_ok(old(transform).translation.y as int),
    ensures
        (final(controller).ducking, *final(transform)) == duck_step(
            old(controller).ducking,
            *old(transform),
            old(controller).collider.height as int,
            duck_pressed,
            headroom_clear,
        ),
        final(controller).wf(*final(transform)),
        final(controller).grounded == old(controller).grounded,
        final(controller).movement == old(controller).movement,
        final(controller).collider == old(controller).collider,
{
    let height = controller.collider.height;
    if duck_pressed {
        if !controller.ducking {
            controller.ducking = true;
            transform.scale_y = ScaleY::Half;
            transform.translation.y = transform.translation.y - height / 4;
        }
    } else if controller.ducking && headroom_clear {
        let ducked = current_height(height, transform.scale_y);
        controller.ducking = false;
        transform.scale_y = ScaleY::Full;
        transform.translation.y = transform.translation.y + ducked / 2;
    }
}

/// Ducking and then standing with clear headroom brings the body back to
/// exactly where and how large it was.
pub proof fn lemma_duck_then_stand_round_trip(t: Transform, height: int, clear_while_ducking: bool)
    requires
        t.scale_y == ScaleY::Full,
        0 <= height <= MAX_COLLIDER_HEIGHT,
        coord_ok(t.translation.y as int),
    ensures
        ({
            let (d1, t1) = duck_step(false, t, height, true, clear_while_ducking);
            let (d2, t2) = duck_step(d1, t1, height, false, true);
            d1 && !d2 && t2 == t
        }),
{
    assert((height / 2) / 2 == height / 4);
}

// ---------------------------------------------------------------------------
// Movement

/// The movement actions of a tick from the held keys: a move in the
/// direction of right minus left, then a jump if the jump key is held.
pub fn keyboard_input(left: bool, right: bool, jump: bool) -> (r: Vec<MovementAction>)
    ensures
        r@ == seq![MovementAction::Move(((if right { 1int } else { 0 }) - (if left { 1int } else { 0 })) as i8)]
            + if jump { seq![MovementAction::Jump] } else { Seq::empty() },
        moves_valid(r@),
{
    let horizontal: i8 = (if right { 1 } else { 0 }) - (if left { 1 } else { 0 });
    let mut r: Vec<MovementAction> = Vec::new();
    r.push(MovementAction::Move(horizontal));
    if jump {
        r.push(MovementAction::Jump);
    }
    proof {
        if jump {
            assert(r@ =~= seq![MovementAction::Move(horizontal)] + seq![MovementAction::Jump]);
        } else {
            assert(r@ =~= seq![MovementAction::Move(horizontal)] + Seq::<MovementAction>::empty());
        }
    }
    r
}

/// Applies the tick's movement actions in order: a move sets the horizontal
/// velocity, a jump sets the vertical velocity when the character is
/// grounded and not ducking.
pub fn movement(
    controller: &CharacterController,
    velocity: &mut Vec2,
    actions: &Vec<MovementAction>,
    delta_micros: u32,
)
    requires
        moves_valid(actions@),
    ensures
        *final(velocity) == apply_actions(*controller, *old(velocity), actions@, delta_micros),
{
    let speed = controller.movement.acceleration.0;
    let mut i: usize = 0;
    while i < actions.len()
        invariant
            i <= actions.len(),
            moves_valid(actions@),
            speed == controller.movement.acceleration.0,
            *velocity == apply_actions(*controller, *old(velocity), actions@.take(i as int), delta_micros),
        decreases actions.len() - i,
    {
        assert(actions@.take(i as int + 1).drop_last() =~= actions@.take(i as int));
        match actions[i] {
            MovementAction::Move(d) => {
                assert(-1 <= d <= 1) by {
                    assert(match actions@[i as int] {
                        MovementAction::Move(d) => -1 <= d <= 1,
                        MovementAction::Jump => true,
                    });
                }
                assert(speed as u64 * delta_micros as u64 <= 0xffff_ffff_ffff_ffff) by (nonlinear_arith)
                    requires
                        speed <= 0xffff_ffff,
                        delta_micros <= 0xffff_ffff;
                let magnitude: u64 = (speed as u64 * delta_micros as u64) / MICROS_PER_SECOND;
                assert(magnitude <= 0x1_0000_0000_0000) by (nonlinear_arith)
                    requires
                        magnitude == (speed as int * delta_micros as int) / 1_000_000,
                        speed <= 0xffff_ffff,
                        delta_micros <= 0xffff_ffff;
                if d > 0 {
                    assert(d == 1);
                    velocity.x = magnitude as i64;
                } else if d < 0 {
                    assert(d == -1);
                    velocity.x = -(magnitude as i64);
                } else {
                    velocity.x = 0;
                }
                assert(velocity.x == move_velocity(d as int, speed, delta_micros));
            },
            MovementAction::Jump => {
                if controller.grounded && !controller.ducking {
                    velocity.y = controller.movement.jump_impulse.0;
                }
            },
        }
        i += 1;
    }
    assert(actions@.take(actions.len() as int) =~= actions@);
}

/// A jump sets the vertical velocity to the impulse when the character is
/// grounded and not ducking, and changes nothing otherwise.
pub proof fn lemma_jump_effect(c: CharacterController, v: Vec2, delta_micros: u32)
    ensures
        apply_action(c, v, MovementAction::Jump, delta_micros) == if c.grounded && !c.ducking {
            Vec2 { x: v.x, y: c.movement.jump_impulse.0 }
        } else {
            v
        },
{
}

/// Without footing (not grounded, or ducking) no sequence of actions changes
/// the vertical velocity.
pub proof fn lemma_no_footing_keeps_vertical_velocity(
    c: CharacterController,
    v: Vec2,
    actions: Seq<MovementAction>,
    delta_micros: u32,
)
    requires
        !(c.grounded && !c.ducking),
    ensures
        apply_actions(c, v, actions, delta_micros).y == v.y,
    decreases actions.len(),
{
    if actions.len() > 0 {
        lemma_no_footing_keeps_vertical_velocity(c, v, actions.drop_last(), delta_micros);
    }
}

} // verus!
