use rage_platformer::assets::{AssetIds, CheckpointData, SpikeData};
use rage_platformer::character_controller::RigidBody;
use rage_platformer::geometry::Vec2;
use rage_platformer::levels::{
    level_script, same_layout, BuildOp, Checkpoint, LevelEntity, LevelGenerator, MovingPlatformBundle,
    PlatformBundle, Spike,
};
use rage_platformer::moving_platform::{MovingPlatform, MovingPlatformType};

fn generate(index: u16, permanent: bool) -> LevelGenerator {
    let mut spikes = SpikeData::new();
    let mut checkpoints = CheckpointData::new();
    let mut assets = AssetIds::new();
    if permanent {
        LevelGenerator::setup_level(&mut spikes, &mut checkpoints, &mut assets, index)
    } else {
        LevelGenerator::setup_level_without_permanent_entities(&mut spikes, &mut checkpoints, &mut assets, index)
    }
}

fn empty_generator() -> LevelGenerator {
    LevelGenerator::new(&mut SpikeData::new(), &mut CheckpointData::new(), &mut AssetIds::new())
}

#[test]
fn platform_is_anchored_at_its_left_edge() {
    let p = PlatformBundle::new(Vec2 { x: -500_000, y: -30_000 }, 1_000_000);
    assert_eq!(
        p,
        PlatformBundle { center: Vec2 { x: 0, y: -30_000 }, size: Vec2 { x: 1_000_000, y: 4_000 }, rigid_body: RigidBody::Static }
    );
    assert_eq!(p.with_rigid_body(RigidBody::Kinematic).rigid_body, RigidBody::Kinematic);
    assert_eq!(PlatformBundle::make_size_vector(7), Vec2 { x: 7, y: 4_000 });
}

#[test]
fn first_level_in_full() {
    let g = generate(0, true);
    assert_eq!(g.root.len(), 6);
    assert_eq!(g.root[0], LevelEntity::LevelText { index: 0 });
    assert_eq!(
        g.root[1],
        LevelEntity::Platform(PlatformBundle {
            center: Vec2 { x: 0, y: -30_000 },
            size: Vec2 { x: 1_000_000, y: 4_000 },
            rigid_body: RigidBody::Static,
        })
    );
    assert_eq!(
        g.root[3],
        LevelEntity::MovingPlatform(
            PlatformBundle {
                center: Vec2 { x: 650_000, y: -30_000 },
                size: Vec2 { x: 200_000, y: 4_000 },
                rigid_body: RigidBody::Kinematic,
            },
            MovingPlatformBundle {
                ty: MovingPlatformType::Slider {
                    a: Vec2 { x: 650_000, y: -30_000 },
                    b: Vec2 { x: 1_050_000, y: -30_000 },
                    speed: 250_000,
                    length: 400_000,
                },
                platform: MovingPlatform { active: false, t: 0, moving_backward: false },
            },
        )
    );
    assert_eq!(g.root[5], LevelEntity::LevelEnd { center: Vec2 { x: 1_500_000, y: 25_000 } });
    assert_eq!(g.checkpoints, vec![
        Checkpoint { position: Vec2 { x: 200_000, y: -30_000 }, active: false },
        Checkpoint { position: Vec2 { x: 300_000, y: -30_000 }, active: false },
    ]);
    assert_eq!(g.spikes.len(), 25);
    assert_eq!(g.spikes[0], Spike { position: Vec2 { x: 100_000, y: -30_000 }, group: None, visible: false });
}

#[test]
fn spike_groups_are_centered_on_their_span() {
    let g = generate(0, true);
    let first: Vec<i64> = g.spikes[1..6].iter().map(|s| s.position.x).collect();
    assert_eq!(first, vec![-598_000, -574_000, -550_000, -526_000, -502_000]);
    assert!(g.spikes[1..6].iter().all(|s| s.group == Some(0) && s.position.y == -100_000 && !s.visible));
    assert_eq!(g.spikes[6].position.x, 558_000);
    assert_eq!(g.spikes[22].position.x, 942_000);
    assert!(g.spikes[6..23].iter().all(|s| s.group == Some(1)));
    assert_eq!(g.spikes[23], Spike { position: Vec2 { x: -22_000, y: -500_000 }, group: Some(2), visible: false });
    assert_eq!(g.spikes[24], Spike { position: Vec2 { x: 2_000, y: -500_000 }, group: Some(2), visible: false });
    assert_eq!(g.current_spike_group, 3);
}

#[test]
fn without_permanent_entities_only_the_root_is_built() {
    let full = generate(0, true);
    let light = generate(0, false);
    assert_eq!(light.root, full.root);
    assert!(light.spikes.is_empty());
    assert!(light.checkpoints.is_empty());
}

#[test]
fn second_level() {
    let g = generate(1, true);
    assert_eq!(g.root.len(), 3);
    assert!(g.spikes.is_empty());
    assert_eq!(g.checkpoints, vec![Checkpoint { position: Vec2 { x: 200_000, y: -30_000 }, active: false }]);
    assert_eq!(LevelGenerator::level_count(), 2);
    assert_eq!(level_script(1).len(), 3);
}

#[test]
fn empty_and_vertical_spans() {
    let mut g = empty_generator();
    g.apply(BuildOp::SpikeGroup { start_x: 10, end_x: 0, y: 0 });
    assert!(g.spikes.is_empty());
    assert_eq!(g.current_spike_group, 1);
    g.apply(BuildOp::VerticalSpikeGroup { x: 3, start_y: 0, end_y: 50_000 });
    let ys: Vec<i64> = g.spikes.iter().map(|s| s.position.y).collect();
    assert_eq!(ys, vec![1_000, 25_000, 49_000]);
    assert!(g.spikes.iter().all(|s| s.position.x == 3 && s.group == Some(1)));
}

#[test]
fn permanent_entities_can_be_switched_off() {
    let mut g = empty_generator();
    g.set_enable_permanent_entities(false);
    g.apply(BuildOp::Spike { pos: Vec2 { x: 0, y: 0 } });
    g.apply(BuildOp::Checkpoint { pos: Vec2 { x: 0, y: 0 } });
    g.apply(BuildOp::SpikeGroup { start_x: 0, end_x: 100_000, y: 0 });
    g.apply(BuildOp::Ending { pos: Vec2 { x: 0, y: 0 } });
    assert!(g.spikes.is_empty() && g.checkpoints.is_empty());
    assert_eq!(g.current_spike_group, 0);
    assert_eq!(g.root, vec![LevelEntity::LevelEnd { center: Vec2 { x: 0, y: 25_000 } }]);
}

#[test]
fn shared_assets_are_created_once() {
    let mut assets = AssetIds::new();
    let mut spikes = SpikeData::new();
    let mut checkpoints = CheckpointData::new();
    spikes.ensure_initialized(&mut assets);
    checkpoints.ensure_initialized(&mut assets);
    assert_eq!((spikes.mesh(), spikes.material()), (Some(0), Some(1)));
    assert_eq!(
        (checkpoints.mesh(), checkpoints.default_material(), checkpoints.active_material()),
        (Some(2), Some(3), Some(4))
    );
    LevelGenerator::setup_level(&mut spikes, &mut checkpoints, &mut assets, 0);
    assert_eq!((spikes.mesh(), spikes.material()), (Some(0), Some(1)));
    assert_eq!(checkpoints.active_material(), Some(4));
    assert_eq!(assets.next, 5);
}

#[test]
fn moving_platforms_do_not_change_the_layout() {
    let fresh = generate(0, true).root;
    let mut moved = fresh.clone();
    if let LevelEntity::MovingPlatform(p, m) = &mut moved[3] {
        p.center.x += 10_000;
        m.platform = MovingPlatform { active: true, t: 25_000, moving_backward: false };
    }
    assert!(same_layout(&fresh, &moved));
    assert!(!same_layout(&fresh, &generate(1, true).root));
    let mut shifted = fresh.clone();
    shifted[1] = LevelEntity::LevelText { index: 7 };
    assert!(!same_layout(&fresh, &shifted));
}
