use rage_platformer::character_controller::{MovementAction, Rotation, ShapeHit};
use rage_platformer::geometry::Vec2;
use rage_platformer::levels::{LevelEntity, LevelGenerator};
use rage_platformer::assets::{AssetIds, CheckpointData, SpikeData};
use rage_platformer::moving_platform::MovingPlatform;
use rage_platformer::session::{
    Contacts, ControlInput, GameState, IsPaused, LevelRestartEvent, TickEvents, UnknownLevel, World,
};

const TICK: u32 = 16_667;

fn no_contacts() -> Contacts {
    Contacts {
        platforms_touched: vec![],
        platforms_carrying: vec![],
        spikes_touched: vec![],
        checkpoints_touched: vec![],
        level_end_touched: false,
    }
}

fn touching_spike(i: usize) -> Contacts {
    let mut c = no_contacts();
    c.spikes_touched = vec![false; i + 1];
    c.spikes_touched[i] = true;
    c
}

fn touching_checkpoint(i: usize) -> Contacts {
    let mut c = no_contacts();
    c.checkpoints_touched = vec![false; i + 1];
    c.checkpoints_touched[i] = true;
    c
}

fn quiet() -> TickEvents {
    TickEvents { death: false, level_complete: false, checkpoint_saved: false }
}

fn in_level(index: u16) -> World {
    let mut w = World::new();
    w.set_state(GameState::level(index)).unwrap();
    w.post_physics(&no_contacts(), false, TICK).unwrap();
    w
}

fn ephemeral_root(index: u16) -> Vec<LevelEntity> {
    LevelGenerator::setup_level_without_permanent_entities(
        &mut SpikeData::new(),
        &mut CheckpointData::new(),
        &mut AssetIds::new(),
        index,
    )
    .root
}

fn player_position(w: &World) -> Vec2 {
    w.player.unwrap().transform.translation
}

fn slider_state(w: &World) -> MovingPlatform {
    match w.level_root.as_ref().unwrap()[3] {
        LevelEntity::MovingPlatform(_, m) => m.platform,
        _ => panic!("the fourth entity of the first level is its slider"),
    }
}

#[test]
fn a_new_world_shows_the_main_menu() {
    let w = World::new();
    assert_eq!(w.state, GameState::MainMenu);
    assert!(w.player.is_none() && w.level_root.is_none() && w.save.is_none());
}

#[test]
fn entering_a_level_spawns_the_player_and_requests_a_full_reset() {
    let mut w = World::new();
    assert_eq!(w.set_state(GameState::level(0)), Ok(()));
    assert_eq!(player_position(&w), Vec2 { x: 0, y: 0 });
    assert_eq!(w.pending_restarts, vec![LevelRestartEvent::FullReset(0)]);
    assert!(w.level_root.is_none());
}

#[test]
fn full_reset_builds_the_whole_level() {
    let w = in_level(0);
    assert_eq!(w.level_root.as_ref().unwrap().len(), 6);
    assert_eq!(w.spikes.len(), 25);
    assert_eq!(w.checkpoints.len(), 2);
    assert!(w.save.is_none());
    assert!(w.pending_restarts.is_empty());
    assert_eq!(player_position(&w), Vec2 { x: 0, y: 0 });
    assert_eq!(w.elapsed_micros, TICK as u64);
}

#[test]
fn full_reset_drops_the_save_and_moves_the_player_home() {
    let mut w = in_level(0);
    w.post_physics(&touching_checkpoint(0), false, TICK).unwrap();
    assert!(w.save.is_some());
    w.player.as_mut().unwrap().transform.translation = Vec2 { x: 123, y: 456 };
    w.player.as_mut().unwrap().velocity = Vec2 { x: 1, y: 2 };
    assert_eq!(w.apply_restart(LevelRestartEvent::FullReset(1)), Ok(true));
    assert!(w.save.is_none());
    assert_eq!(w.level_root.as_ref().unwrap().len(), 3);
    assert!(w.spikes.is_empty());
    assert_eq!(w.checkpoints.len(), 1);
    assert_eq!(player_position(&w), Vec2 { x: 0, y: 0 });
    assert_eq!(w.player.unwrap().velocity, Vec2 { x: 0, y: 0 });
}

#[test]
fn unknown_levels_are_refused() {
    let mut w = World::new();
    assert_eq!(w.set_state(GameState::level(5)), Err(UnknownLevel(5)));
    assert_eq!(w.state, GameState::MainMenu);
    let mut w = in_level(0);
    assert_eq!(w.apply_restart(LevelRestartEvent::FullReset(2)), Err(UnknownLevel(2)));
    assert_eq!(w.level_root.as_ref().unwrap().len(), 6);
}

#[test]
fn touching_a_spike_kills_once_and_restarts_at_the_origin() {
    let mut w = in_level(0);
    w.player.as_mut().unwrap().transform.translation = Vec2 { x: 100_000, y: -10_000 };
    let mut moving = no_contacts();
    moving.platforms_touched = vec![false, false, false, true];
    w.post_physics(&moving, false, TICK).unwrap();
    assert!(slider_state(&w).active);

    let events = w.post_physics(&touching_spike(0), false, TICK).unwrap();
    assert_eq!(events, TickEvents { death: true, level_complete: false, checkpoint_saved: false });
    assert_eq!(w.deaths, 1);
    assert_eq!(player_position(&w), Vec2 { x: 0, y: 0 });
    assert_eq!(w.spikes.len(), 25);
    assert!(w.spikes[0].visible);
    assert!(!w.spikes[1].visible);
    assert_eq!(w.checkpoints.len(), 2);
    assert_eq!(w.level_root.as_ref().unwrap(), &ephemeral_root(0));
    assert_eq!(slider_state(&w), MovingPlatform::new());

    let events = w.post_physics(&no_contacts(), false, TICK).unwrap();
    assert_eq!(events, quiet());
    assert_eq!(w.deaths, 1);
}

#[test]
fn falling_out_of_the_world_kills() {
    let mut w = in_level(0);
    w.player.as_mut().unwrap().transform.translation = Vec2 { x: 0, y: -500_000 };
    let events = w.post_physics(&no_contacts(), false, TICK).unwrap();
    assert!(events.death);
    assert_eq!(w.deaths, 1);
    assert_eq!(player_position(&w), Vec2 { x: 0, y: 0 });
    assert!(w.spikes.iter().all(|s| !s.visible));
}

#[test]
fn a_checkpoint_saves_and_death_returns_there() {
    let mut w = in_level(0);
    let events = w.post_physics(&touching_checkpoint(0), false, TICK).unwrap();
    assert!(events.checkpoint_saved);
    assert!(w.checkpoints[0].active && !w.checkpoints[1].active);
    let saved = w.save.as_ref().unwrap();
    assert_eq!(saved.position, Vec2 { x: 200_000, y: -10_000 });
    let snapshot = saved.snapshot.clone();

    w.post_physics(&touching_spike(3), false, TICK).unwrap();
    assert_eq!(player_position(&w), Vec2 { x: 200_000, y: -10_000 });
    assert_eq!(w.level_root.as_ref().unwrap(), &snapshot);
    assert!(w.checkpoints[0].active);
    assert_eq!(w.deaths, 1);
}

#[test]
fn touching_the_active_checkpoint_again_saves_nothing() {
    let mut w = in_level(0);
    w.post_physics(&touching_checkpoint(0), false, TICK).unwrap();
    let events = w.post_physics(&touching_checkpoint(0), false, TICK).unwrap();
    assert!(!events.checkpoint_saved);
    assert!(w.checkpoints[0].active);
}

#[test]
fn a_new_checkpoint_replaces_the_old_one() {
    let mut w = in_level(0);
    w.post_physics(&touching_checkpoint(0), false, TICK).unwrap();
    let events = w.post_physics(&touching_checkpoint(1), false, TICK).unwrap();
    assert!(events.checkpoint_saved);
    assert!(!w.checkpoints[0].active && w.checkpoints[1].active);
    assert_eq!(w.save.as_ref().unwrap().position, Vec2 { x: 300_000, y: -10_000 });
    w.post_physics(&no_contacts(), false, TICK).unwrap();
    assert!(w.checkpoints[1].active);
}

#[test]
fn restoring_without_a_save_keeps_the_counters() {
    let mut w = in_level(0);
    w.post_physics(&touching_spike(0), false, TICK).unwrap();
    let elapsed = w.elapsed_micros;
    assert_eq!(w.apply_restart(LevelRestartEvent::RestoreLastSave), Ok(true));
    assert_eq!(w.deaths, 1);
    assert_eq!(w.elapsed_micros, elapsed);
    assert_eq!(w.spikes.len(), 25);
    assert!(w.spikes[0].visible);
    assert_eq!(w.level_root.as_ref().unwrap(), &ephemeral_root(0));
}

#[test]
fn the_reload_key_restores_the_last_save() {
    let mut w = in_level(0);
    w.player.as_mut().unwrap().transform.translation = Vec2 { x: 5, y: 5 };
    let events = w.post_physics(&no_contacts(), true, TICK).unwrap();
    assert_eq!(events, quiet());
    assert_eq!(player_position(&w), Vec2 { x: 0, y: 0 });
    assert_eq!(w.deaths, 0);
    assert_eq!(w.spikes.len(), 25);
}

#[test]
fn pause_stops_every_check() {
    let mut w = in_level(0);
    w.player.as_mut().unwrap().transform.translation = Vec2 { x: 0, y: -900_000 };
    w.toggle_pause();
    assert_eq!(w.state, GameState::Level { index: 0, paused: true });
    assert_eq!(IsPaused::compute(w.state), Some(IsPaused::Paused));
    let elapsed = w.elapsed_micros;
    let mut c = touching_spike(0);
    c.platforms_touched = vec![true; 6];
    c.level_end_touched = true;
    let events = w.post_physics(&c, true, 1_000_000_000).unwrap();
    assert_eq!(events, quiet());
    assert_eq!(w.deaths, 0);
    assert_eq!(w.elapsed_micros, elapsed);
    assert_eq!(player_position(&w), Vec2 { x: 0, y: -900_000 });
    assert_eq!(slider_state(&w), MovingPlatform::new());
    assert!(!w.spikes[0].visible);
    assert!(w.pending_restarts.is_empty());

    w.resume();
    assert_eq!(IsPaused::compute(w.state), Some(IsPaused::Unpaused));
    assert!(w.post_physics(&no_contacts(), false, TICK).unwrap().death);
}

#[test]
fn paused_input_changes_nothing() {
    let mut w = in_level(0);
    w.toggle_pause();
    let input = ControlInput {
        actions: vec![MovementAction::Move(1), MovementAction::Jump],
        duck_pressed: true,
        headroom_clear: true,
        ground_hits: vec![ShapeHit { normal_x: 0, normal_y: -1000 }],
        rotation: Rotation { cos: 1, sin: 0 },
        delta_micros: TICK,
    };
    let before = w.player;
    w.pre_physics(&input);
    assert_eq!(w.player, before);
}

#[test]
fn input_moves_and_jumps_the_player() {
    let mut w = in_level(0);
    let input = ControlInput {
        actions: vec![MovementAction::Move(1), MovementAction::Jump],
        duck_pressed: false,
        headroom_clear: true,
        ground_hits: vec![ShapeHit { normal_x: 0, normal_y: -1000 }],
        rotation: Rotation { cos: 1, sin: 0 },
        delta_micros: TICK,
    };
    w.pre_physics(&input);
    let p = w.player.unwrap();
    assert!(p.controller.grounded);
    assert_eq!(p.velocity, Vec2 { x: 250_005, y: 400_000 });
}

#[test]
fn riders_are_pushed_along_with_the_platform() {
    let mut w = in_level(0);
    let mut c = no_contacts();
    c.platforms_touched = vec![false, false, false, true];
    c.platforms_carrying = vec![false, false, false, true];
    w.post_physics(&c, false, 100_000).unwrap();
    assert_eq!(player_position(&w), Vec2 { x: 25_000, y: 0 });
    assert_eq!(slider_state(&w), MovingPlatform { active: true, t: 62_500, moving_backward: false });
    match w.level_root.as_ref().unwrap()[3] {
        LevelEntity::MovingPlatform(p, _) => assert_eq!(p.center, Vec2 { x: 675_000, y: -30_000 }),
        _ => panic!("the fourth entity of the first level is its slider"),
    }
}

#[test]
fn reaching_the_end_starts_the_next_level() {
    let mut w = in_level(0);
    w.post_physics(&touching_checkpoint(0), false, TICK).unwrap();
    w.post_physics(&touching_spike(0), false, TICK).unwrap();
    assert_eq!(w.deaths, 1);
    let mut c = no_contacts();
    c.level_end_touched = true;
    let events = w.post_physics(&c, false, TICK).unwrap();
    assert_eq!(events, TickEvents { death: false, level_complete: true, checkpoint_saved: false });
    assert_eq!(w.state, GameState::Level { index: 1, paused: false });
    assert_eq!(w.deaths, 0);
    assert_eq!(w.elapsed_micros, TICK as u64);
    assert!(w.save.is_none());
    assert_eq!(w.level_root.as_ref().unwrap().len(), 3);
    assert!(w.spikes.is_empty());
    assert_eq!(w.checkpoints.len(), 1);
}

#[test]
fn completing_the_last_level_is_an_error() {
    let mut w = in_level(1);
    let mut c = no_contacts();
    c.level_end_touched = true;
    assert_eq!(w.post_physics(&c, false, TICK), Err(UnknownLevel(2)));
    assert_eq!(w.state, GameState::Level { index: 1, paused: false });
}

#[test]
fn leaving_the_level_clears_it() {
    let mut w = in_level(0);
    w.post_physics(&touching_checkpoint(0), false, TICK).unwrap();
    assert_eq!(w.set_state(GameState::MainMenu), Ok(()));
    assert!(w.player.is_none() && w.level_root.is_none() && w.save.is_none());
    assert!(w.spikes.is_empty() && w.checkpoints.is_empty());
    assert_eq!(IsPaused::compute(w.state), None);
    assert!(!w.state.in_level());
}

#[test]
fn death_and_the_level_end_in_one_tick_both_count() {
    let mut w = in_level(0);
    let mut c = touching_spike(0);
    c.level_end_touched = true;
    let events = w.post_physics(&c, false, TICK).unwrap();
    assert_eq!(events, TickEvents { death: true, level_complete: true, checkpoint_saved: false });
    assert_eq!(w.state, GameState::Level { index: 1, paused: false });
    assert_eq!(w.deaths, 1);
    assert_eq!(w.pending_restarts, vec![LevelRestartEvent::RestoreLastSave]);
    assert_eq!(w.level_root.as_ref().unwrap().len(), 3);
}

#[test]
fn falling_while_reaching_the_end_counts_a_death() {
    let mut w = in_level(0);
    w.player.as_mut().unwrap().transform.translation = Vec2 { x: 0, y: -600_000 };
    let mut c = no_contacts();
    c.level_end_touched = true;
    let events = w.post_physics(&c, false, TICK).unwrap();
    assert!(events.death && events.level_complete);
    assert_eq!(w.deaths, 1);
}

#[test]
fn without_a_player_restarts_wait() {
    let mut w = World::new();
    assert_eq!(w.apply_restart(LevelRestartEvent::FullReset(0)), Ok(false));
    assert!(w.level_root.is_none() && w.spikes.is_empty());

    let mut w = in_level(0);
    w.player = None;
    w.pending_restarts.push(LevelRestartEvent::FullReset(1));
    let events = w.post_physics(&no_contacts(), false, TICK).unwrap();
    assert_eq!(events, quiet());
    assert_eq!(w.pending_restarts, vec![LevelRestartEvent::FullReset(1)]);
    assert_eq!(w.level_root.as_ref().unwrap().len(), 6);
    assert_eq!(w.apply_restart(LevelRestartEvent::RestoreLastSave), Ok(false));
}
