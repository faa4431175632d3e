use rage_platformer::geometry::Vec2;
use rage_platformer::moving_platform::{MovingPlatform, MovingPlatformType, PlatformMotion};

fn horizontal() -> MovingPlatformType {
    MovingPlatformType::slider(Vec2 { x: 0, y: 0 }, Vec2 { x: 1_000_000, y: 0 }, 250_000)
}

#[test]
fn slider_length_is_the_distance() {
    let ty = MovingPlatformType::slider(Vec2 { x: 0, y: 0 }, Vec2 { x: 3_000, y: 4_000 }, 100);
    assert_eq!(ty, MovingPlatformType::Slider { a: Vec2 { x: 0, y: 0 }, b: Vec2 { x: 3_000, y: 4_000 }, speed: 100, length: 5_000 });
    let diagonal = MovingPlatformType::slider(Vec2 { x: 0, y: 0 }, Vec2 { x: 1, y: 1 }, 1);
    assert!(matches!(diagonal, MovingPlatformType::Slider { length: 1, .. }));
}

#[test]
fn idle_until_touched() {
    let mut p = MovingPlatform::new();
    assert_eq!(p.advance(&horizontal(), 1_000_000, false), None);
    assert_eq!(p, MovingPlatform::new());
}

#[test]
fn active_platform_moves_along_its_path() {
    let mut p = MovingPlatform::new();
    let m = p.advance(&horizontal(), 1_000_000, true);
    assert_eq!(m, Some(PlatformMotion { position: Vec2 { x: 250_000, y: 0 }, carry: 250_000 }));
    assert_eq!(p, MovingPlatform { active: true, t: 250_000, moving_backward: false });
    let m = p.advance(&horizontal(), 1_000_000, false);
    assert_eq!(m, Some(PlatformMotion { position: Vec2 { x: 500_000, y: 0 }, carry: 250_000 }));
}

#[test]
fn turns_at_the_far_end() {
    let mut p = MovingPlatform { active: true, t: 900_000, moving_backward: false };
    let m = p.advance(&horizontal(), 1_000_000, false);
    assert_eq!(m, Some(PlatformMotion { position: Vec2 { x: 1_000_000, y: 0 }, carry: 250_000 }));
    assert_eq!(p, MovingPlatform { active: true, t: 1_000_000, moving_backward: true });
    let m = p.advance(&horizontal(), 1_000_000, false);
    assert_eq!(m, Some(PlatformMotion { position: Vec2 { x: 750_000, y: 0 }, carry: -250_000 }));
    assert_eq!(p, MovingPlatform { active: true, t: 750_000, moving_backward: true });
}

#[test]
fn turns_at_the_near_end() {
    let mut p = MovingPlatform { active: true, t: 100_000, moving_backward: true };
    p.advance(&horizontal(), 1_000_000, false);
    assert_eq!(p, MovingPlatform { active: true, t: 0, moving_backward: false });
}

#[test]
fn no_turn_between_the_ends() {
    let mut p = MovingPlatform { active: true, t: 100_000, moving_backward: false };
    p.advance(&horizontal(), 1_000, false);
    assert_eq!(p, MovingPlatform { active: true, t: 100_250, moving_backward: false });
}

#[test]
fn path_of_zero_length_jumps_to_the_end() {
    let ty = MovingPlatformType::slider(Vec2 { x: 5, y: 5 }, Vec2 { x: 5, y: 5 }, 10);
    let mut p = MovingPlatform::new();
    let m = p.advance(&ty, 1_000, true);
    assert_eq!(m, Some(PlatformMotion { position: Vec2 { x: 5, y: 5 }, carry: 0 }));
    assert_eq!(p, MovingPlatform { active: true, t: 1_000_000, moving_backward: true });
}

#[test]
fn moves_towards_a_lower_endpoint() {
    let ty = MovingPlatformType::slider(Vec2 { x: 1_000, y: 2_000 }, Vec2 { x: 0, y: 0 }, 1);
    let mut p = MovingPlatform { active: true, t: 500_000, moving_backward: false };
    let m = p.advance(&ty, 0, false);
    assert_eq!(m, Some(PlatformMotion { position: Vec2 { x: 500, y: 1_000 }, carry: 0 }));
}

#[test]
fn many_ticks_stay_on_the_path_and_turn_only_at_the_ends() {
    let ty = MovingPlatformType::slider(Vec2 { x: -7_000, y: 3_000 }, Vec2 { x: 40_000, y: -9_000 }, 31_000);
    let mut p = MovingPlatform::new();
    let mut turns = 0;
    for tick in 0..5_000u32 {
        let before = p;
        let delta = 1_000 + (tick * 7_919) % 40_000;
        p.advance(&ty, delta, tick == 0);
        assert!(p.t <= 1_000_000);
        if p.moving_backward != before.moving_backward {
            assert!(p.t == 0 || p.t == 1_000_000);
            turns += 1;
        }
    }
    assert!(turns > 2);
}
