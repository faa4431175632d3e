use vstd::prelude::*;
use crate::geometry::{Vec2, clamp_i64, sat_add, coord_ok};
use crate::character_controller::{
    CharacterController, CharacterControllerBundle, Collider, MovementAction, Rotation, ScaleY,
    ShapeHit, Transform, apply_actions, any_hit_grounds, duck_step, moves_valid,
};
use crate::moving_platform::{PlatformMotion, platform_tick};
use crate::levels::{
    Checkpoint, LevelEntity, LevelGenerator, LevelView, MovingPlatformBundle, PlatformBundle,
    Spike, LEVEL_COUNT, generate,
};
use crate::assets::{AssetIds, CheckpointData, SpikeData};

verus! {

/// Width of the player.
pub const PLAYER_WIDTH: i64 = 20_000;
/// Height of the standing player.
pub const PLAYER_HEIGHT: i64 = 40_000;
/// The player dies at or below this height.
pub const BOTTOM_WORLD_BOUNDARY: i64 = -500_000;

/// The top-level state of the game.
#[derive(Clone, Copy, Debug, PartialEq, Eq, Structural)]
pub enum GameState {
    MainMenu,
    LevelSelect,
    Level { index: u16, paused: bool },
}

/// Whether a level is paused, where a level is running.
#[derive(Clone, Copy, Debug, PartialEq, Eq, Structural)]
pub enum IsPaused {
    Paused,
    Unpaused,
}

/// A request to rebuild the level.
#[derive(Clone, Copy, Debug, PartialEq, Eq, Structural)]
pub enum LevelRestartEvent {
    /// Back to the last checkpoint reached, or to the level's start.
    RestoreLastSave,
    /// Everything of the level anew, for the given level.
    FullReset(u16),
}

/// A level index that no script exists for.
#[derive(Clone, Copy, Debug, PartialEq, Eq, Structural)]
pub struct UnknownLevel(pub u16);

/// The controlled character.
#[derive(Clone, Copy, Debug, PartialEq, Eq, Structural)]
pub struct Player {
    pub transform: Transform,
    pub velocity: Vec2,
    pub controller: CharacterController,
}

/// A snapshot of the level root and the respawn position.
pub struct SaveData {
    pub snapshot: Vec<LevelEntity>,
    pub position: Vec2,
}

/// What the collaborators report for one tick of input.
pub struct ControlInput {
    pub actions: Vec<MovementAction>,
    pub duck_pressed: bool,
    /// The headroom cast (see `headroom_cast`) found nothing.
    pub headroom_clear: bool,
    pub ground_hits: Vec<ShapeHit>,
    pub rotation: Rotation,
    pub delta_micros: u32,
}

/// What the contact queries report after physics, by index into the level
/// root, the spikes and the checkpoints.
pub struct Contacts {
    /// Some body touches the moving platform.
    pub platforms_touched: Vec<bool>,
    /// The player touches the moving platform.
    pub platforms_carrying: Vec<bool>,
    /// The player touches the spike.
    pub spikes_touched: Vec<bool>,
    /// The player touches the checkpoint.
    pub checkpoints_touched: Vec<bool>,
    /// The player touches the level end.
    pub level_end_touched: bool,
}

/// The events of one tick, for sound, counters and display.
#[derive(Clone, Copy, Debug, PartialEq, Eq, Structural)]
pub struct TickEvents {
    pub death: bool,
    pub level_complete: bool,
    pub checkpoint_saved: bool,
}

/// The whole game: the session state, the player, the level root with its
/// entities, the permanent spikes and checkpoints, the save, the counters and
/// the restarts not yet carried out.
pub struct World {
    pub state: GameState,
    pub player: Option<Player>,
    pub level_root: Option<Vec<LevelEntity>>,
    pub spikes: Vec<Spike>,
    pub checkpoints: Vec<Checkpoint>,
    pub save: Option<SaveData>,
    pub deaths: u64,
    pub elapsed_micros: u64,
    pub pending_restarts: Vec<LevelRestartEvent>,
    pub spike_data: SpikeData,
    pub checkpoint_data: CheckpointData,
    pub assets: AssetIds,
}

/// A save, as values.
pub struct SaveView {
    pub snapshot: Seq<LevelEntity>,
    pub position: Vec2,
}

/// The world, as values.
pub struct WorldView {
    pub state: GameState,
    pub player: Option<Player>,
    pub root: Option<Seq<LevelEntity>>,
    pub spikes: Seq<Spike>,
    pub checkpoints: Seq<Checkpoint>,
    pub save: Option<SaveView>,
    pub deaths: u64,
    pub elapsed_micros: u64,
    pub pending: Seq<LevelRestartEvent>,
}

/// The contacts, as values.
pub struct ContactsView {
    pub platforms_touched: Seq<bool>,
    pub platforms_carrying: Seq<bool>,
    pub spikes_touched: Seq<bool>,
    pub checkpoints_touched: Seq<bool>,
    pub level_end_touched: bool,
}

impl Contacts {
    pub open spec fn view_contacts(&self) -> ContactsView {
        ContactsView {
            platforms_touched: self.platforms_touched@,
            platforms_carrying: self.platforms_carrying@,
            spikes_touched: self.spikes_touched@,
            checkpoints_touched: self.checkpoints_touched@,
            level_end_touched: self.level_end_touched,
        }
    }
}

// ---------------------------------------------------------------------------
// Session states

/// Is a level (paused or not) running?
pub open spec fn in_level(s: GameState) -> bool {
    s is Level
}

impl GameState {
    /// Level `index`, not paused.
    pub fn level(index: u16) -> (r: Self)
        ensures
            r == (GameState::Level { index, paused: false }),
    {
        GameState::Level { index, paused: false }
    }

    /// Is a level running, paused or not?
    pub fn in_level(&self) -> (r: bool)
        ensures
            r == in_level(*self),
    {
        match self {
            GameState::Level { .. } => true,
            _ => false,
        }
    }
}

impl IsPaused {
    /// Whether the level is paused; nothing outside a level.
    pub fn compute(state: GameState) -> (r: Option<IsPaused>)
        ensures
            r == match state {
                GameState::Level { paused: true, .. } => Some(IsPaused::Paused),
                GameState::Level { paused: false, .. } => Some(IsPaused::Unpaused),
                _ => None,
            },
    {
        match state {
            GameState::Level { paused: true, .. } => Some(IsPaused::Paused),
            GameState::Level { paused: false, .. } => Some(IsPaused::Unpaused),
            _ => None,
        }
    }
}

// ---------------------------------------------------------------------------
// Specifications of the tick

/// The entry of a contact list at `i`; an entry that is missing is `false`.
pub open spec fn at(v: Seq<bool>, i: int) -> bool {
    0 <= i < v.len() && v[i]
}

/// A moving platform's path and progress are in range.
pub open spec fn entity_ok(e: LevelEntity) -> bool {
    match e {
        LevelEntity::MovingPlatform(_, m) => m.ty.wf() && m.platform.wf(),
        _ => true,
    }
}

/// No two checkpoints are active.
pub open spec fn at_most_one_active(cps: Seq<Checkpoint>) -> bool {
    forall|i: int, j: int| 0 <= i < cps.len() && 0 <= j < cps.len() && #[trigger] cps[i].active && #[trigger] cps[j].active ==> i == j
}

/// Every entity of a level root is in range.
pub open spec fn entities_ok(root: Seq<LevelEntity>) -> bool {
    forall|i: int| 0 <= i < root.len() ==> entity_ok(#[trigger] root[i])
}

/// One tick of an entity of the level root: a moving platform advances
/// (see `platform_tick`) and is placed where it moved; other entities stay.
pub open spec fn entity_tick(e: LevelEntity, touched: bool, delta_micros: u32) -> (LevelEntity, Option<PlatformMotion>) {
    match e {
        LevelEntity::MovingPlatform(pb, mb) => {
            let (p, m) = platform_tick(mb.platform, mb.ty, delta_micros, touched);
            let center = match m {
                Some(motion) => motion.position,
                None => pb.center,
            };
            (LevelEntity::MovingPlatform(PlatformBundle { center, ..pb }, MovingPlatformBundle { platform: p, ..mb }), m)
        },
        _ => (e, None),
    }
}

/// The player's horizontal position after the riders of the first `n`
/// entities of the root have been pushed, in order.
pub open spec fn carry_x(x: i64, root: Seq<LevelEntity>, c: ContactsView, delta_micros: u32, n: int) -> i64
    decreases n,
{
    if n <= 0 {
        x
    } else {
        let x0 = carry_x(x, root, c, delta_micros, n - 1);
        match entity_tick(root[n - 1], at(c.platforms_touched, n - 1), delta_micros).1 {
            Some(m) => if at(c.platforms_carrying, n - 1) { clamp_i64(x0 + m.carry) } else { x0 },
            None => x0,
        }
    }
}

/// Moving platforms advance; the player, where it rides one, is pushed along.
pub open spec fn platform_stage(w: WorldView, c: ContactsView, delta_micros: u32) -> WorldView {
    match w.root {
        None => w,
        Some(root) => WorldView {
            root: Some(Seq::new(root.len(), |i: int| entity_tick(root[i], at(c.platforms_touched, i), delta_micros).0)),
            player: match w.player {
                Some(p) => Some(Player {
                    transform: Transform {
                        translation: Vec2 {
                            x: carry_x(p.transform.translation.x, root, c, delta_micros, root.len() as int),
                            y: p.transform.translation.y,
                        },
                        ..p.transform
                    },
                    ..p
                }),
                None => None,
            },
            ..w
        },
    }
}

/// The last of the first `n` entries that is set.
pub open spec fn last_set(v: Seq<bool>, n: int) -> Option<int>
    decreases n,
{
    if n <= 0 { None } else if at(v, n - 1) { Some(n - 1) } else { last_set(v, n - 1) }
}

/// The first of the first `n` entries that is set.
pub open spec fn first_set(v: Seq<bool>, n: int) -> Option<int>
    decreases n,
{
    if n <= 0 {
        None
    } else {
        match first_set(v, n - 1) {
            Some(i) => Some(i),
            None => if at(v, n - 1) { Some(n - 1) } else { None },
        }
    }
}

/// Which checkpoints are active.
pub open spec fn active_flags(cps: Seq<Checkpoint>) -> Seq<bool> {
    Seq::new(cps.len(), |i: int| cps[i].active)
}

/// The checkpoint that is active after this tick: the last one the player
/// touches, else the one that was active.
pub open spec fn chosen_checkpoint(cps: Seq<Checkpoint>, touched: Seq<bool>) -> Option<int> {
    match last_set(touched, cps.len() as int) {
        Some(i) => Some(i),
        None => first_set(active_flags(cps), cps.len() as int),
    }
}

/// Where the player respawns from a checkpoint: half its height above it.
pub open spec fn respawn_point(position: Vec2, height: i64) -> Vec2 {
    Vec2 { x: position.x, y: clamp_i64(position.y + height / 2) }
}

/// The save request of this tick: from the checkpoint the player touches
/// (the last one), if it was not active yet.
pub open spec fn save_request(cps: Seq<Checkpoint>, touched: Seq<bool>, height: i64) -> Option<Vec2> {
    match last_set(touched, cps.len() as int) {
        Some(i) => if !cps[i].active { Some(respawn_point(cps[i].position, height)) } else { None },
        None => None,
    }
}

/// Checkpoints: the chosen one is active and no other; a save request
/// replaces the save with a snapshot of the level root.
pub open spec fn checkpoint_stage(w: WorldView, c: ContactsView) -> (WorldView, bool) {
    match w.player {
        None => (w, false),
        Some(p) => {
            let cps = w.checkpoints;
            let chosen = chosen_checkpoint(cps, c.checkpoints_touched);
            let request = save_request(cps, c.checkpoints_touched, p.controller.collider.height);
            let save = match (request, w.root) {
                (Some(position), Some(root)) => Some(SaveView { snapshot: root, position }),
                _ => w.save,
            };
            (
                WorldView {
                    checkpoints: Seq::new(cps.len(), |i: int| Checkpoint { position: cps[i].position, active: chosen == Some(i) }),
                    save,
                    ..w
                },
                request is Some,
            )
        },
    }
}

/// The player touches the level end.
pub open spec fn completes(w: WorldView, c: ContactsView) -> bool {
    w.player is Some && c.level_end_touched
}

/// The player touches a spike or has fallen out of the world.
pub open spec fn dies(w: WorldView, c: ContactsView) -> bool {
    match w.player {
        None => false,
        Some(p) => first_set(c.spikes_touched, w.spikes.len() as int) is Some
            || p.transform.translation.y <= BOTTOM_WORLD_BOUNDARY,
    }
}

/// The first spike the player touches becomes visible.
pub open spec fn reveal_spike(spikes: Seq<Spike>, touched: Seq<bool>) -> Seq<Spike> {
    match first_set(touched, spikes.len() as int) {
        Some(i) => spikes.update(i, Spike { visible: true, ..spikes[i] }),
        None => spikes,
    }
}

/// The player, if any, standing still at `position`.
pub open spec fn place_player(p: Option<Player>, position: Vec2) -> Option<Player> {
    match p {
        Some(p) => Some(Player {
            transform: Transform { translation: position, ..p.transform },
            velocity: Vec2 { x: 0, y: 0 },
            ..p
        }),
        None => None,
    }
}

/// The world after a restart. A full reset rebuilds the level and its
/// permanent entities from the script, drops the save and puts the player
/// at the origin. A restore rebuilds the level root only: from the save, with
/// the player at its respawn position, or else from the script without
/// permanent entities, with the player at the origin.
pub open spec fn restart_spec(w: WorldView, ev: LevelRestartEvent) -> WorldView {
    let origin = Vec2 { x: 0, y: 0 };
    match ev {
        LevelRestartEvent::FullReset(k) => {
            let g = generate(k, true);
            WorldView {
                root: Some(g.root),
                spikes: g.spikes,
                checkpoints: g.checkpoints,
                player: place_player(w.player, origin),
                save: None,
                ..w
            }
        },
        LevelRestartEvent::RestoreLastSave => match w.save {
            Some(s) => WorldView { root: Some(s.snapshot), player: place_player(w.player, s.position), ..w },
            None => WorldView {
                root: Some(match w.state {
                    GameState::Level { index, .. } => generate(index, false).root,
                    _ => Seq::empty(),
                }),
                player: place_player(w.player, origin),
                ..w
            },
        },
    }
}

/// A restart that can be carried out: a full reset names a known level.
pub open spec fn restart_ok(ev: LevelRestartEvent) -> bool {
    match ev {
        LevelRestartEvent::FullReset(k) => k < LEVEL_COUNT,
        LevelRestartEvent::RestoreLastSave => true,
    }
}

/// The world and the events after the trigger stages: checkpoints, the level
/// end (which advances to the next level, resets the counters and drops the
/// save), then death (which counts one more death and requests a restore).
pub open spec fn trigger_stage(w: WorldView, c: ContactsView, reload: bool) -> (WorldView, TickEvents) {
    let (w2, saved) = checkpoint_stage(w, c);
    let reloads = if reload { seq![LevelRestartEvent::RestoreLastSave] } else { Seq::empty() };
    let completed = completes(w2, c);
    let index = match w2.state {
        GameState::Level { index, .. } => index,
        _ => 0,
    };
    let w3 = if completed {
        WorldView {
            state: GameState::Level { index: (index + 1) as u16, paused: false },
            deaths: 0,
            elapsed_micros: 0,
            save: None,
            pending: w2.pending + reloads + seq![LevelRestartEvent::FullReset((index + 1) as u16)],
            ..w2
        }
    } else {
        WorldView { pending: w2.pending + reloads, ..w2 }
    };
    let died = dies(w3, c);
    let w4 = if died {
        WorldView {
            spikes: reveal_spike(w3.spikes, c.spikes_touched),
            deaths: if w3.deaths == u64::MAX { u64::MAX } else { (w3.deaths + 1) as u64 },
            pending: w3.pending.push(LevelRestartEvent::RestoreLastSave),
            ..w3
        }
    } else {
        w3
    };
    (w4, TickEvents { death: died, level_complete: completed, checkpoint_saved: saved })
}

/// The oldest pending restart is carried out; the others wait for the next
/// tick. Without a player the level is not ready and everything waits.
pub open spec fn regenerate_stage(w: WorldView) -> WorldView {
    if w.pending.len() == 0 || w.player is None {
        w
    } else {
        restart_spec(WorldView { pending: w.pending.drop_first(), ..w }, w.pending[0])
    }
}

/// A level is running and not paused.
pub open spec fn running(s: GameState) -> bool {
    s is Level && !s->paused
}

/// The level index that completing the level would move to, where no script
/// exists for it.
pub open spec fn completion_blocked(w: WorldView, c: ContactsView) -> Option<u16> {
    match w.state {
        GameState::Level { index, paused: false } =>
            if completes(w, c) && index + 1 >= LEVEL_COUNT { Some((index + 1) as u16) } else { None },
        _ => None,
    }
}

/// No event.
pub open spec fn no_events() -> TickEvents {
    TickEvents { death: false, level_complete: false, checkpoint_saved: false }
}

/// The second half of a tick, after physics: platforms, triggers,
/// regeneration and the level clock. Nothing happens unless a level runs
/// unpaused; completing the last level is an error.
pub open spec fn tick_spec(w: WorldView, c: ContactsView, reload: bool, delta_micros: u32) -> (WorldView, Result<TickEvents, UnknownLevel>) {
    if !running(w.state) {
        (w, Ok(no_events()))
    } else {
        match completion_blocked(w, c) {
            Some(k) => (w, Err(UnknownLevel(k))),
            None => {
                let w1 = platform_stage(w, c, delta_micros);
                let (w2, ev) = trigger_stage(w1, c, reload);
                let w3 = regenerate_stage(w2);
                let elapsed = if w3.elapsed_micros + delta_micros > u64::MAX {
                    u64::MAX
                } else {
                    (w3.elapsed_micros + delta_micros) as u64
                };
                (WorldView { elapsed_micros: elapsed, ..w3 }, Ok(ev))
            },
        }
    }
}

/// What the input collaborator reports, as values.
pub struct ControlView {
    pub actions: Seq<MovementAction>,
    pub duck_pressed: bool,
    pub headroom_clear: bool,
    pub ground_hits: Seq<ShapeHit>,
    pub rotation: Rotation,
    pub delta_micros: u32,
}

impl ControlInput {
    pub open spec fn view_input(&self) -> ControlView {
        ControlView {
            actions: self.actions@,
            duck_pressed: self.duck_pressed,
            headroom_clear: self.headroom_clear,
            ground_hits: self.ground_hits@,
            rotation: self.rotation,
            delta_micros: self.delta_micros,
        }
    }
}

/// The player after the first half of a tick: grounding and ducking are
/// classified anew, then the movement actions set the velocity.
pub open spec fn control_player(p: Player, i: ControlView) -> Player {
    let c = p.controller;
    let grounded = any_hit_grounds(i.ground_hits, i.rotation, c.movement.max_slope_angle);
    let (ducking, transform) = duck_step(c.ducking, p.transform, c.collider.height as int, i.duck_pressed, i.headroom_clear);
    let c2 = CharacterController { grounded, ducking, ..c };
    Player {
        transform,
        velocity: apply_actions(c2, p.velocity, i.actions, i.delta_micros),
        controller: c2,
    }
}

/// The first half of a tick, before physics; nothing happens unless a level
/// runs unpaused.
pub open spec fn control_spec(w: WorldView, i: ControlView) -> WorldView {
    match w.player {
        Some(p) => if running(w.state) { WorldView { player: Some(control_player(p, i)), ..w } } else { w },
        None => w,
    }
}

/// The player as spawned on entering a level.
pub open spec fn spawned_player() -> Player {
    Player {
        transform: Transform { translation: Vec2 { x: 0, y: 0 }, scale_y: ScaleY::Full },
        velocity: Vec2 { x: 0, y: 0 },
        controller: CharacterController {
            grounded: false,
            ducking: false,
            movement: crate::character_controller::default_movement_spec(),
            collider: Collider { width: PLAYER_WIDTH, height: PLAYER_HEIGHT },
        },
    }
}

/// A change of session state. Leaving a level removes the player, the level
/// and the save; entering one spawns the player, restarts the level clock and
/// requests a full reset of the level.
pub open spec fn set_state_spec(w: WorldView, next: GameState) -> WorldView {
    let left = if in_level(w.state) && !in_level(next) {
        WorldView {
            player: None,
            root: None,
            spikes: Seq::empty(),
            checkpoints: Seq::empty(),
            save: None,
            pending: Seq::empty(),
            ..w
        }
    } else {
        w
    };
    match next {
        GameState::Level { index, .. } => if !in_level(w.state) {
            WorldView {
                state: next,
                player: Some(spawned_player()),
                elapsed_micros: 0,
                pending: left.pending.push(LevelRestartEvent::FullReset(index)),
                ..left
            }
        } else {
            WorldView { state: next, ..left }
        },
        _ => WorldView { state: next, ..left },
    }
}

/// `o` with its index as an integer.
pub open spec fn opt_int(o: Option<usize>) -> Option<int> {
    match o {
        Some(i) => Some(i as int),
        None => None,
    }
}

/// Every entity of a generated level is in range.
proof fn lemma_run_ops_ok(v: LevelView, ops: Seq<crate::levels::BuildOp>, permanent: bool)
    requires
        entities_ok(v.root),
        crate::levels::ops_ok(ops),
        forall|i: int| 0 <= i < v.checkpoints.len() ==> !(#[trigger] v.checkpoints[i]).active,
    ensures
        entities_ok(crate::levels::run_ops(v, ops, permanent).root),
        forall|i: int| 0 <= i < crate::levels::run_ops(v, ops, permanent).checkpoints.len()
            ==> !(#[trigger] crate::levels::run_ops(v, ops, permanent).checkpoints[i]).active,
    decreases ops.len(),
{
    if ops.len() > 0 {
        assert(crate::levels::ops_ok(ops.drop_last()));
        lemma_run_ops_ok(v, ops.drop_last(), permanent);
        assert(crate::levels::op_ok(ops[ops.len() - 1]));
        let prev = crate::levels::run_ops(v, ops.drop_last(), permanent);
        let next = crate::levels::run_ops(v, ops, permanent);
        assert forall|i: int| 0 <= i < next.root.len() implies entity_ok(#[trigger] next.root[i]) by {
            if i < prev.root.len() {
                assert(entity_ok(prev.root[i]));
            }
        }
        assert forall|i: int| 0 <= i < next.checkpoints.len() implies !(#[trigger] next.checkpoints[i]).active by {
            if i < prev.checkpoints.len() {
                assert(!prev.checkpoints[i].active);
            }
        }
    }
}

proof fn lemma_generated_ok(index: u16, permanent: bool)
    requires
        index < LEVEL_COUNT,
    ensures
        entities_ok(generate(index, permanent).root),
        at_most_one_active(generate(index, permanent).checkpoints),
{
    assert(crate::levels::ops_ok(crate::levels::script(index)));
    lemma_run_ops_ok(crate::levels::start_view(index), crate::levels::script(index), permanent);
}

// ---------------------------------------------------------------------------
// The world

fn flag_at(v: &Vec<bool>, i: usize) -> (r: bool)
    ensures
        r == at(v@, i as int),
{
    i < v.len() && v[i]
}

/// A copy of a level root.
fn copy_entities(v: &Vec<LevelEntity>) -> (r: Vec<LevelEntity>)
    ensures
        r@ == v@,
{
    let mut r: Vec<LevelEntity> = Vec::new();
    let mut i: usize = 0;
    while i < v.len()
        invariant
            i <= v.len(),
            r@ == v@.take(i as int),
        decreases v.len() - i,
    {
        r.push(v[i]);
        assert(v@.take(i as int + 1) =~= v@.take(i as int).push(v@[i as int]));
        i += 1;
    }
    assert(v@.take(v.len() as int) =~= v@);
    r
}

fn tick_entity(e: LevelEntity, touched: bool, delta_micros: u32) -> (r: (LevelEntity, Option<PlatformMotion>))
    requires
        entity_ok(e),
    ensures
        r == entity_tick(e, touched, delta_micros),
        entity_ok(r.0),
{
    match e {
        LevelEntity::MovingPlatform(pb, mb) => {
            let mut p = mb.platform;
            let m = p.advance(&mb.ty, delta_micros, touched);
            let center = match m {
                Some(motion) => motion.position,
                None => pb.center,
            };
            (LevelEntity::MovingPlatform(PlatformBundle { center, ..pb }, MovingPlatformBundle { platform: p, ..mb }), m)
        },
        _ => (e, None),
    }
}

fn last_set_exec(v: &Vec<bool>, n: usize) -> (r: Option<usize>)
    ensures
        opt_int(r) == last_set(v@, n as int),
        r matches Some(i) ==> i < n,
{
    let mut r: Option<usize> = None;
    let mut i: usize = 0;
    while i < n
        invariant
            i <= n,
            opt_int(r) == last_set(v@, i as int),
            r matches Some(j) ==> j < i,
        decreases n - i,
    {
        if flag_at(v, i) {
            r = Some(i);
        }
        i += 1;
    }
    r
}

fn first_set_exec(v: &Vec<bool>, n: usize) -> (r: Option<usize>)
    ensures
        opt_int(r) == first_set(v@, n as int),
        r matches Some(i) ==> i < n,
{
    let mut r: Option<usize> = None;
    let mut i: usize = 0;
    while i < n
        invariant
            i <= n,
            opt_int(r) == first_set(v@, i as int),
            r matches Some(j) ==> j < i,
        decreases n - i,
    {
        if r.is_none() && flag_at(v, i) {
            r = Some(i);
        }
        i += 1;
    }
    r
}

fn first_active(cps: &Vec<Checkpoint>) -> (r: Option<usize>)
    ensures
        opt_int(r) == first_set(active_flags(cps@), cps.len() as int),
        r matches Some(i) ==> i < cps.len(),
{
    let ghost flags = active_flags(cps@);
    let mut r: Option<usize> = None;
    let mut i: usize = 0;
    while i < cps.len()
        invariant
            i <= cps.len(),
            flags == active_flags(cps@),
            opt_int(r) == first_set(flags, i as int),
            r matches Some(j) ==> j < i,
        decreases cps.len() - i,
    {
        if r.is_none() && cps[i].active {
            r = Some(i);
        }
        i += 1;
    }
    r
}

impl World {
    /// The world as values.
    pub open spec fn view_world(&self) -> WorldView {
        WorldView {
            state: self.state,
            player: self.player,
            root: match self.level_root {
                Some(r) => Some(r@),
                None => None,
            },
            spikes: self.spikes@,
            checkpoints: self.checkpoints@,
            save: match self.save {
                Some(s) => Some(SaveView { snapshot: s.snapshot@, position: s.position }),
                None => None,
            },
            deaths: self.deaths,
            elapsed_micros: self.elapsed_micros,
            pending: self.pending_restarts@,
        }
    }

    /// A running level is a known one, every pending restart can be carried
    /// out, at most one checkpoint is active, moving platforms are in range
    /// and the player's ducking flag agrees with its body.
    pub open spec fn wf(&self) -> bool {
        &&& (match self.state {
            GameState::Level { index, .. } => index < LEVEL_COUNT,
            _ => true,
        })
        &&& (forall|i: int| 0 <= i < self.pending_restarts@.len() ==> restart_ok(#[trigger] self.pending_restarts@[i]))
        &&& at_most_one_active(self.checkpoints@)
        &&& (match self.level_root {
            Some(r) => entities_ok(r@),
            None => true,
        })
        &&& (match self.save {
            Some(s) => entities_ok(s.snapshot@),
            None => true,
        })
        &&& (match self.player {
            Some(p) => p.controller.wf(p.transform),
            None => true,
        })
    }

    /// The main menu, with nothing spawned.
    pub fn new() -> (r: Self)
        ensures
            r.wf(),
            r.view_world() == (WorldView {
                state: GameState::MainMenu,
                player: None,
                root: None,
                spikes: Seq::empty(),
                checkpoints: Seq::empty(),
                save: None,
                deaths: 0,
                elapsed_micros: 0,
                pending: Seq::empty(),
            }),
    {
        let r = World {
            state: GameState::MainMenu,
            player: None,
            level_root: None,
            spikes: Vec::new(),
            checkpoints: Vec::new(),
            save: None,
            deaths: 0,
            elapsed_micros: 0,
            pending_restarts: Vec::new(),
            spike_data: SpikeData::new(),
            checkpoint_data: CheckpointData::new(),
            assets: AssetIds::new(),
        };
        assert(r.view_world().spikes =~= Seq::<Spike>::empty());
        assert(r.view_world().checkpoints =~= Seq::<Checkpoint>::empty());
        assert(r.view_world().pending =~= Seq::<LevelRestartEvent>::empty());
        r
    }

    /// Moving platforms advance and push the player where it rides them.
    fn move_platforms(&mut self, c: &Contacts, delta_micros: u32)
        requires
            old(self).wf(),
        ensures
            final(self).view_world() == platform_stage(old(self).view_world(), c.view_contacts(), delta_micros),
            final(self).wf(),
    {
        let taken = self.level_root.take();
        match taken {
            None => {},
            Some(root0) => {
                let mut root = root0;
                let ghost old_root = root0@;
                let mut x: i64 = match self.player {
                    Some(p) => p.transform.translation.x,
                    None => 0,
                };
                let ghost x0 = x;
                let mut i: usize = 0;
                while i < root.len()
                    invariant
                        root@.len() == old_root.len(),
                        i <= root.len(),
                        entities_ok(old_root),
                        forall|j: int| 0 <= j < i ==> #[trigger] root@[j] == entity_tick(old_root[j], at(c.platforms_touched@, j), delta_micros).0,
                        forall|j: int| i <= j < root@.len() ==> #[trigger] root@[j] == old_root[j],
                        x == carry_x(x0, old_root, c.view_contacts(), delta_micros, i as int),
                    decreases root.len() - i,
                {
                    let touched = flag_at(&c.platforms_touched, i);
                    assert(entity_ok(old_root[i as int]));
                    let (e, m) = tick_entity(root[i], touched, delta_micros);
                    root.set(i, e);
                    match m {
                        Some(motion) => {
                            if flag_at(&c.platforms_carrying, i) {
                                x = sat_add(x, motion.carry);
                            }
                        },
                        None => {},
                    }
                    i += 1;
                }
                let ghost new_root = Seq::new(old_root.len(), |j: int| entity_tick(old_root[j], at(c.platforms_touched@, j), delta_micros).0);
                assert(root@ =~= new_root);
                assert forall|j: int| 0 <= j < root@.len() implies entity_ok(#[trigger] root@[j]) by {
                    assert(entity_ok(old_root[j]));
                    let _ = entity_tick(old_root[j], at(c.platforms_touched@, j), delta_micros);
                }
                match self.player {
                    Some(p) => {
                        let mut q = p;
                        q.transform.translation.x = x;
                        self.player = Some(q);
                    },
                    None => {},
                }
                self.level_root = Some(root);
            },
        }
    }

    /// Checkpoints: the chosen one becomes the only active one, and a save
    /// request replaces the save.
    fn checkpoint_stage_exec(&mut self, c: &Contacts) -> (saved: bool)
        requires
            old(self).wf(),
        ensures
            (final(self).view_world(), saved) == checkpoint_stage(old(self).view_world(), c.view_contacts()),
            final(self).wf(),
    {
        let player = self.player;
        match player {
            None => {
                false
            },
            Some(p) => {
                let n = self.checkpoints.len();
                let last = last_set_exec(&c.checkpoints_touched, n);
                let chosen = match last {
                    Some(i) => Some(i),
                    None => first_active(&self.checkpoints),
                };
                let request: Option<Vec2> = match last {
                    Some(i) => if !self.checkpoints[i].active {
                        let cp = self.checkpoints[i].position;
                        Some(Vec2 { x: cp.x, y: sat_add(cp.y, p.controller.collider.height / 2) })
                    } else {
                        None
                    },
                    None => None,
                };
                let mut list: Vec<Checkpoint> = Vec::new();
                std::mem::swap(&mut list, &mut self.checkpoints);
                let ghost cps = list@;
                let mut j: usize = 0;
                while j < n
                    invariant
                        n == cps.len(),
                        list@.len() == n,
                        j <= n,
                        forall|k: int| 0 <= k < j ==> #[trigger] list@[k] == (Checkpoint {
                            position: cps[k].position,
                            active: opt_int(chosen) == Some(k),
                        }),
                        forall|k: int| j <= k < n ==> #[trigger] list@[k] == cps[k],
                    decreases n - j,
                {
                    let is_chosen = match chosen {
                        Some(k) => k == j,
                        None => false,
                    };
                    let position = list[j].position;
                    list.set(j, Checkpoint { position, active: is_chosen });
                    j += 1;
                }
                std::mem::swap(&mut list, &mut self.checkpoints);
                assert(self.checkpoints@ =~= Seq::new(cps.len(), |k: int| Checkpoint {
                    position: cps[k].position,
                    active: chosen_checkpoint(cps, c.checkpoints_touched@) == Some(k),
                }));
                match request {
                    Some(position) => {
                        match &self.level_root {
                            Some(root) => {
                                let snapshot = copy_entities(root);
                                self.save = Some(SaveData { snapshot, position });
                            },
                            None => {},
                        }
                        true
                    },
                    None => false,
                }
            },
        }
    }


    /// Triggers: checkpoints, then the level end, then death.
    fn trigger_stage_exec(&mut self, c: &Contacts, reload: bool) -> (ev: TickEvents)
        requires
            old(self).wf(),
            running(old(self).state),
            completion_blocked(old(self).view_world(), c.view_contacts()) is None,
        ensures
            (final(self).view_world(), ev) == trigger_stage(old(self).view_world(), c.view_contacts(), reload),
            final(self).wf(),
    {
        let saved = self.checkpoint_stage_exec(c);
        if reload {
            self.pending_restarts.push(LevelRestartEvent::RestoreLastSave);
        }
        let ghost w2 = checkpoint_stage(old(self).view_world(), c.view_contacts()).0;
        let ghost reloads = if reload { seq![LevelRestartEvent::RestoreLastSave] } else { Seq::<LevelRestartEvent>::empty() };
        assert(self.pending_restarts@ =~= w2.pending + reloads);
        let player = self.player;
        match player {
            None => TickEvents { death: false, level_complete: false, checkpoint_saved: saved },
            Some(p) => {
                let completed = c.level_end_touched;
                if completed {
                    let index = match self.state {
                        GameState::Level { index, .. } => index,
                        _ => 0,
                    };
                    self.state = GameState::Level { index: index + 1, paused: false };
                    self.deaths = 0;
                    self.elapsed_micros = 0;
                    self.save = None;
                    self.pending_restarts.push(LevelRestartEvent::FullReset(index + 1));
                    assert(self.pending_restarts@ =~= w2.pending + reloads + seq![LevelRestartEvent::FullReset((index + 1) as u16)]);
                }
                let ghost w3 = self.view_world();
                let first = first_set_exec(&c.spikes_touched, self.spikes.len());
                let died = first.is_some() || p.transform.translation.y <= BOTTOM_WORLD_BOUNDARY;
                if died {
                    match first {
                        Some(k) => {
                            let spike = self.spikes[k];
                            self.spikes.set(k, Spike { visible: true, ..spike });
                        },
                        None => {},
                    }
                    assert(self.spikes@ =~= reveal_spike(w3.spikes, c.spikes_touched@));
                    self.deaths = self.deaths.saturating_add(1);
                    self.pending_restarts.push(LevelRestartEvent::RestoreLastSave);
                }
                TickEvents { death: died, level_complete: completed, checkpoint_saved: saved }
            },
        }
    }

    /// Carries out a restart (see `restart_spec`) and returns `Ok(true)`.
    /// Without a player the level is not ready: nothing changes and the
    /// result is `Ok(false)`. A full reset of a level that has no script is
    /// an error, and the world is left as it was.
    pub fn apply_restart(&mut self, ev: LevelRestartEvent) -> (r: Result<bool, UnknownLevel>)
        requires
            old(self).wf(),
        ensures
            old(self).player is None ==> r == Ok::<bool, UnknownLevel>(false) && final(self).view_world() == old(self).view_world(),
            old(self).player is Some ==> (r is Ok <==> restart_ok(ev)),
            old(self).player is Some && r is Ok ==> r == Ok::<bool, UnknownLevel>(true)
                && final(self).view_world() == restart_spec(old(self).view_world(), ev),
            final(self).wf(),
            r matches Err(e) ==> ev == LevelRestartEvent::FullReset(e.0) && final(self).view_world() == old(self).view_world(),
    {
        if self.player.is_none() {
            return Ok(false);
        }
        match ev {
            LevelRestartEvent::FullReset(k) => {
                if k >= LevelGenerator::level_count() {
                    return Err(UnknownLevel(k));
                }
                let lg = LevelGenerator::setup_level(&mut self.spike_data, &mut self.checkpoint_data, &mut self.assets, k);
                proof {
                    lemma_generated_ok(k, true);
                }
                self.level_root = Some(lg.root);
                self.spikes = lg.spikes;
                self.checkpoints = lg.checkpoints;
                self.save = None;
                self.put_player(Vec2::zero());
                Ok(true)
            },
            LevelRestartEvent::RestoreLastSave => {
                let restored = match &self.save {
                    Some(s) => Some((copy_entities(&s.snapshot), s.position)),
                    None => None,
                };
                match restored {
                    Some((snapshot, position)) => {
                        self.level_root = Some(snapshot);
                        self.put_player(position);
                    },
                    None => {
                        match self.state {
                            GameState::Level { index, .. } => {
                                let lg = LevelGenerator::setup_level_without_permanent_entities(
                                    &mut self.spike_data,
                                    &mut self.checkpoint_data,
                                    &mut self.assets,
                                    index,
                                );
                                proof {
                                    lemma_generated_ok(index, false);
                                }
                                self.level_root = Some(lg.root);
                            },
                            _ => {
                                self.level_root = Some(Vec::new());
                                assert(self.level_root.unwrap()@ =~= Seq::<LevelEntity>::empty());
                            },
                        }
                        self.put_player(Vec2::zero());
                    },
                }
                Ok(true)
            },
        }
    }

    /// Puts the player, if any, at `position`, standing still.
    fn put_player(&mut self, position: Vec2)
        ensures
            final(self).player == place_player(old(self).player, position),
            final(self).state == old(self).state,
            final(self).level_root == old(self).level_root,
            final(self).spikes == old(self).spikes,
            final(self).checkpoints == old(self).checkpoints,
            final(self).save == old(self).save,
            final(self).deaths == old(self).deaths,
            final(self).elapsed_micros == old(self).elapsed_micros,
            final(self).pending_restarts == old(self).pending_restarts,
    {
        match self.player {
            Some(p) => {
                let mut q = p;
                q.transform.translation = position;
                q.velocity = Vec2::zero();
                self.player = Some(q);
            },
            None => {},
        }
    }


    /// Carries out the oldest pending restart, once there is a player.
    fn regenerate(&mut self)
        requires
            old(self).wf(),
        ensures
            final(self).view_world() == regenerate_stage(old(self).view_world()),
            final(self).wf(),
    {
        if self.pending_restarts.len() == 0 || self.player.is_none() {
            return;
        }
        let ev = self.pending_restarts.remove(0);
        assert(self.pending_restarts@ =~= old(self).pending_restarts@.drop_first());
        assert(restart_ok(old(self).pending_restarts@[0]));
        assert(self.wf());
        let _ = self.apply_restart(ev);
    }

    /// The second half of a tick, after physics (see `tick_spec`): moving
    /// platforms, checkpoints and saves, the level end, death, the oldest
    /// pending restart and the level clock, in this order. While the level is
    /// paused nothing changes. Completing the last level is an error.
    pub fn post_physics(&mut self, c: &Contacts, reload: bool, delta_micros: u32) -> (r: Result<TickEvents, UnknownLevel>)
        requires
            old(self).wf(),
        ensures
            (final(self).view_world(), r) == tick_spec(old(self).view_world(), c.view_contacts(), reload, delta_micros),
            r is Ok ==> final(self).wf(),
    {
        let running = match self.state {
            GameState::Level { paused, .. } => !paused,
            _ => false,
        };
        if !running {
            return Ok(TickEvents { death: false, level_complete: false, checkpoint_saved: false });
        }
        let index = match self.state {
            GameState::Level { index, .. } => index,
            _ => 0,
        };
        if self.player.is_some() && c.level_end_touched && index + 1 >= LevelGenerator::level_count() {
            return Err(UnknownLevel(index + 1));
        }
        self.move_platforms(c, delta_micros);
        let events = self.trigger_stage_exec(c, reload);
        self.regenerate();
        self.elapsed_micros = self.elapsed_micros.saturating_add(delta_micros as u64);
        Ok(events)
    }

    /// The first half of a tick, before physics (see `control_spec`): the
    /// ground and duck classification of the tick, then the movement actions.
    /// While the level is paused nothing changes.
    pub fn pre_physics(&mut self, input: &ControlInput)
        requires
            old(self).wf(),
            moves_valid(input.actions@),
            old(self).player matches Some(p) ==> coord_ok(p.transform.translation.y as int),
        ensures
            final(self).view_world() == control_spec(old(self).view_world(), input.view_input()),
            final(self).wf(),
    {
        let running = match self.state {
            GameState::Level { paused, .. } => !paused,
            _ => false,
        };
        if !running {
            return;
        }
        match self.player {
            Some(p) => {
                let mut q = p;
                crate::character_controller::update_grounded(&mut q.controller, &input.ground_hits, input.rotation);
                crate::character_controller::update_ducking(
                    &mut q.controller,
                    &mut q.transform,
                    input.duck_pressed,
                    input.headroom_clear,
                );
                crate::character_controller::movement(&q.controller, &mut q.velocity, &input.actions, input.delta_micros);
                self.player = Some(q);
            },
            None => {},
        }
    }

    /// The pause key: a running level is paused, a paused one resumes;
    /// outside a level nothing changes.
    pub fn toggle_pause(&mut self)
        requires
            old(self).wf(),
        ensures
            final(self).view_world() == (WorldView {
                state: match old(self).state {
                    GameState::Level { index, paused } => GameState::Level { index, paused: !paused },
                    s => s,
                },
                ..old(self).view_world()
            }),
            final(self).wf(),
    {
        match self.state {
            GameState::Level { index, paused } => {
                self.state = GameState::Level { index, paused: !paused };
            },
            _ => {},
        }
    }

    /// The resume button: a paused level runs again; outside a level nothing
    /// changes.
    pub fn resume(&mut self)
        requires
            old(self).wf(),
        ensures
            final(self).view_world() == (WorldView {
                state: match old(self).state {
                    GameState::Level { index, .. } => GameState::Level { index, paused: false },
                    s => s,
                },
                ..old(self).view_world()
            }),
            final(self).wf(),
    {
        match self.state {
            GameState::Level { index, .. } => {
                self.state = GameState::Level { index, paused: false };
            },
            _ => {},
        }
    }

    /// Moves the session to `next` (see `set_state_spec`). Entering a level
    /// that has no script is an error, and the world is left as it was.
    pub fn set_state(&mut self, next: GameState) -> (r: Result<(), UnknownLevel>)
        requires
            old(self).wf(),
        ensures
            match next {
                GameState::Level { index, .. } => index >= LEVEL_COUNT ==> r == Err::<(), UnknownLevel>(UnknownLevel(index)),
                _ => true,
            },
            r is Ok ==> final(self).view_world() == set_state_spec(old(self).view_world(), next) && final(self).wf(),
            r is Err ==> final(self).view_world() == old(self).view_world(),
            r is Ok <==> match next {
                GameState::Level { index, .. } => index < LEVEL_COUNT,
                _ => true,
            },
    {
        match next {
            GameState::Level { index, .. } => {
                if index >= LevelGenerator::level_count() {
                    return Err(UnknownLevel(index));
                }
            },
            _ => {},
        }
        let was = self.state.in_level();
        let will = next.in_level();
        if was && !will {
            self.player = None;
            self.level_root = None;
            self.spikes = Vec::new();
            self.checkpoints = Vec::new();
            self.save = None;
            self.pending_restarts = Vec::new();
            assert(self.spikes@ =~= Seq::<Spike>::empty());
            assert(self.checkpoints@ =~= Seq::<Checkpoint>::empty());
            assert(self.pending_restarts@ =~= Seq::<LevelRestartEvent>::empty());
        }
        self.state = next;
        if !was {
            match next {
                GameState::Level { index, .. } => {
                    let bundle = CharacterControllerBundle::new(Collider { width: PLAYER_WIDTH, height: PLAYER_HEIGHT });
                    self.player = Some(Player {
                        transform: Transform { translation: Vec2::zero(), scale_y: ScaleY::Full },
                        velocity: Vec2::zero(),
                        controller: bundle.controller,
                    });
                    self.elapsed_micros = 0;
                    self.pending_restarts.push(LevelRestartEvent::FullReset(index));
                },
                _ => {},
            }
        }
        Ok(())
    }

}

// ---------------------------------------------------------------------------
// Laws

/// A full reset of level `k` leaves no save, exactly the entities of level
/// `k`'s script (permanent and not), and the player standing still at the
/// origin.
pub proof fn lemma_full_reset(w: WorldView, k: u16)
    requires
        k < LEVEL_COUNT,
    ensures
        ({
            let r = restart_spec(w, LevelRestartEvent::FullReset(k));
            let g = generate(k, true);
            &&& r.save is None
            &&& r.root == Some(g.root)
            &&& r.spikes == g.spikes
            &&& r.checkpoints == g.checkpoints
            &&& (r.player is Some <==> w.player is Some)
            &&& (r.player matches Some(p) ==> p.transform.translation == (Vec2 { x: 0, y: 0 })
                && p.velocity == (Vec2 { x: 0, y: 0 }))
        }),
{
}

/// Restoring the last save puts the player at the saved respawn position and
/// brings back exactly the saved level root; without a save the level root is
/// generated without permanent entities and the player is at the origin.
/// Either way the permanent entities, the save and the counters stay.
pub proof fn lemma_restore_last_save(w: WorldView)
    ensures
        ({
            let r = restart_spec(w, LevelRestartEvent::RestoreLastSave);
            &&& r.spikes == w.spikes
            &&& r.checkpoints == w.checkpoints
            &&& r.save == w.save
            &&& r.deaths == w.deaths
            &&& r.elapsed_micros == w.elapsed_micros
            &&& r.state == w.state
            &&& match w.save {
                Some(s) => r.root == Some(s.snapshot)
                    && (r.player matches Some(p) ==> p.transform.translation == s.position),
                None => (r.player matches Some(p) ==> p.transform.translation == (Vec2 { x: 0, y: 0 }))
                    && match w.state {
                        GameState::Level { index, .. } => r.root == Some(generate(index, false).root),
                        _ => true,
                    },
            }
        }),
{
}

/// A running tick with a player counts a death exactly when the player
/// touches a spike or is at or below the bottom of the world, whether or not
/// it also reaches the level end; a death raises the counter (reset first
/// when the level is completed) by exactly one.
pub proof fn lemma_one_death_per_tick(w: WorldView, c: ContactsView, reload: bool, delta_micros: u32)
    requires
        running(w.state),
        completion_blocked(w, c) is None,
        w.player is Some,
        w.deaths < u64::MAX,
    ensures
        ({
            let (r, ev) = tick_spec(w, c, reload, delta_micros);
            let base: int = if completes(w, c) { 0 } else { w.deaths as int };
            &&& ev is Ok
            &&& ev.unwrap().death == (first_set(c.spikes_touched, w.spikes.len() as int) is Some
                || w.player.unwrap().transform.translation.y <= BOTTOM_WORLD_BOUNDARY)
            &&& ev.unwrap().level_complete == completes(w, c)
            &&& r.deaths == if ev.unwrap().death { base + 1 } else { base }
        }),
{
}

/// While the level is paused, neither half of a tick changes anything and no
/// event fires, however much time passes.
pub proof fn lemma_paused_tick_changes_nothing(w: WorldView, c: ContactsView, reload: bool, delta_micros: u32, i: ControlView)
    requires
        w.state matches GameState::Level { paused, .. } && paused,
    ensures
        tick_spec(w, c, reload, delta_micros) == (w, Ok::<TickEvents, UnknownLevel>(no_events())),
        control_spec(w, i) == w,
{
}

} // verus!
