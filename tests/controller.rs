use rage_platformer::character_controller::{
    headroom_cast, keyboard_input, movement, update_ducking, update_grounded, CharacterController,
    CharacterControllerBundle, Collider, MaxSlopeAngle, MovementAction, MovementBundle, Rotation,
    RigidBody, ScaleY, ShapeCaster, ShapeHit, Transform,
};
use rage_platformer::geometry::Vec2;

fn player() -> CharacterController {
    CharacterControllerBundle::new(Collider { width: 20_000, height: 40_000 }).controller
}

fn identity() -> Rotation {
    Rotation { cos: 1, sin: 0 }
}

fn standing_at(x: i64, y: i64) -> Transform {
    Transform { translation: Vec2 { x, y }, scale_y: ScaleY::Full }
}

#[test]
fn flat_ground_grounds() {
    let mut c = player();
    update_grounded(&mut c, &vec![ShapeHit { normal_x: 0, normal_y: -1000 }], identity());
    assert!(c.grounded);
}

#[test]
fn slope_of_45_degrees_is_too_steep_for_a_30_degree_limit() {
    let mut c = player();
    update_grounded(&mut c, &vec![ShapeHit { normal_x: -1000, normal_y: -1000 }], identity());
    assert!(!c.grounded);
}

#[test]
fn slope_of_20_degrees_is_ground_for_a_30_degree_limit() {
    let mut c = player();
    update_grounded(&mut c, &vec![ShapeHit { normal_x: -342, normal_y: -940 }], identity());
    assert!(c.grounded);
}

#[test]
fn one_hit_within_the_limit_is_enough() {
    let mut c = player();
    let hits = vec![
        ShapeHit { normal_x: -1000, normal_y: -1000 },
        ShapeHit { normal_x: 0, normal_y: -1000 },
    ];
    update_grounded(&mut c, &hits, identity());
    assert!(c.grounded);
}

#[test]
fn without_a_limit_any_hit_grounds() {
    let mut c = player();
    c.movement.max_slope_angle = None;
    update_grounded(&mut c, &vec![ShapeHit { normal_x: 0, normal_y: 1000 }], identity());
    assert!(c.grounded);
}

#[test]
fn grounding_is_recomputed_every_tick() {
    let mut c = player();
    update_grounded(&mut c, &vec![ShapeHit { normal_x: 0, normal_y: -1000 }], identity());
    assert!(c.grounded);
    update_grounded(&mut c, &vec![], identity());
    assert!(!c.grounded);
}

#[test]
fn the_normal_is_turned_into_world_space() {
    let quarter_turn = Rotation { cos: 0, sin: 1 };
    let mut c = player();
    update_grounded(&mut c, &vec![ShapeHit { normal_x: -1000, normal_y: 0 }], quarter_turn);
    assert!(c.grounded);
    update_grounded(&mut c, &vec![ShapeHit { normal_x: 0, normal_y: -1000 }], quarter_turn);
    assert!(!c.grounded);
}

#[test]
fn a_right_angle_limit_accepts_walls() {
    let mut c = player();
    c.movement.max_slope_angle = Some(MaxSlopeAngle { tan_num: 1, tan_den: 0 });
    update_grounded(&mut c, &vec![ShapeHit { normal_x: 1000, normal_y: 0 }], identity());
    assert!(c.grounded);
    update_grounded(&mut c, &vec![ShapeHit { normal_x: 0, normal_y: 1000 }], identity());
    assert!(!c.grounded);
}

#[test]
fn duck_then_stand_returns_to_the_same_body() {
    let mut c = player();
    let start = standing_at(5_000, 100_000);
    let mut t = start;
    update_ducking(&mut c, &mut t, true, false);
    assert!(c.ducking);
    assert_eq!(t, Transform { translation: Vec2 { x: 5_000, y: 90_000 }, scale_y: ScaleY::Half });
    update_ducking(&mut c, &mut t, false, true);
    assert!(!c.ducking);
    assert_eq!(t, start);
}

#[test]
fn ducking_stays_while_the_key_is_held() {
    let mut c = player();
    let mut t = standing_at(0, 0);
    update_ducking(&mut c, &mut t, true, true);
    update_ducking(&mut c, &mut t, true, true);
    assert!(c.ducking);
    assert_eq!(t.translation.y, -10_000);
}

#[test]
fn standing_needs_headroom() {
    let mut c = player();
    let mut t = standing_at(0, 0);
    update_ducking(&mut c, &mut t, true, true);
    update_ducking(&mut c, &mut t, false, false);
    assert!(c.ducking);
    assert_eq!(t, Transform { translation: Vec2 { x: 0, y: -10_000 }, scale_y: ScaleY::Half });
}

#[test]
fn headroom_cast_of_a_ducking_body() {
    let mut c = player();
    let mut t = standing_at(0, 0);
    update_ducking(&mut c, &mut t, true, true);
    let cast = headroom_cast(&c, &t);
    assert_eq!(
        cast,
        ShapeCaster { scale_permille: 990, origin: Vec2 { x: 0, y: -9_000 }, upwards: true, max_distance: 40_000 }
    );
}

#[test]
fn jump_needs_ground_and_no_ducking() {
    let mut c = player();
    let jump = vec![MovementAction::Jump];

    let mut v = Vec2 { x: 7, y: -5 };
    movement(&c, &mut v, &jump, 16_667);
    assert_eq!(v, Vec2 { x: 7, y: -5 });

    c.grounded = true;
    movement(&c, &mut v, &jump, 16_667);
    assert_eq!(v, Vec2 { x: 7, y: 400_000 });

    c.ducking = true;
    let mut w = Vec2 { x: 7, y: -5 };
    movement(&c, &mut w, &jump, 16_667);
    assert_eq!(w, Vec2 { x: 7, y: -5 });
}

#[test]
fn move_sets_speed_times_tick_duration() {
    let c = player();
    let mut v = Vec2 { x: 3, y: -9 };
    movement(&c, &mut v, &vec![MovementAction::Move(1)], 16_667);
    assert_eq!(v, Vec2 { x: 250_005, y: -9 });
    movement(&c, &mut v, &vec![MovementAction::Move(-1)], 16_667);
    assert_eq!(v.x, -250_005);
    movement(&c, &mut v, &vec![MovementAction::Move(0)], 16_667);
    assert_eq!(v.x, 0);
}

#[test]
fn later_moves_replace_earlier_ones() {
    let c = player();
    let mut v = Vec2 { x: 0, y: 0 };
    movement(&c, &mut v, &vec![MovementAction::Move(1), MovementAction::Move(-1)], 1_000_000);
    assert_eq!(v.x, -15_000_000);
}

#[test]
fn keys_become_actions() {
    assert_eq!(keyboard_input(true, true, false), vec![MovementAction::Move(0)]);
    assert_eq!(keyboard_input(true, false, false), vec![MovementAction::Move(-1)]);
    assert_eq!(
        keyboard_input(false, true, true),
        vec![MovementAction::Move(1), MovementAction::Jump]
    );
}

#[test]
fn default_bundle() {
    let b = CharacterControllerBundle::new(Collider { width: 20_000, height: 40_000 });
    assert_eq!(b.rigid_body, RigidBody::Dynamic);
    assert!(b.rotation_locked);
    assert_eq!(b.ground_caster.max_distance, 1_000);
    assert!(!b.ground_caster.upwards);
    assert_eq!(b.controller.movement, MovementBundle::default());
    assert_eq!(
        MovementBundle::default(),
        MovementBundle::new(15_000_000, 400_000, MaxSlopeAngle { tan_num: 5_773_503, tan_den: 10_000_000 })
    );
}
