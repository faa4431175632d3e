use vstd::prelude::*;
use crate::geometry::{Vec2, coord_ok, COORD_LIMIT};
use crate::character_controller::RigidBody;
use crate::moving_platform::{MovingPlatform, MovingPlatformType, slider_spec};
use crate::assets::{AssetIds, CheckpointData, SpikeData};

verus! {

/// Width and height of a spike.
pub const SPIKE_SIZE: i64 = 24_000;
/// Thickness of every platform.
pub const PLATFORM_THICKNESS: i64 = 4_000;
/// Width of the level-end door.
pub const DOOR_WIDTH: i64 = 30_000;
/// Height of the level-end door.
pub const DOOR_HEIGHT: i64 = 50_000;
/// Number of levels.
pub const LEVEL_COUNT: u16 = 2;

/// A rectangular platform: its center, its extent and its body kind.
#[derive(Clone, Copy, Debug, PartialEq, Eq, Structural)]
pub struct PlatformBundle {
    pub center: Vec2,
    pub size: Vec2,
    pub rigid_body: RigidBody,
}

/// The path and the moving state of a moving platform.
#[derive(Clone, Copy, Debug, PartialEq, Eq, Structural)]
pub struct MovingPlatformBundle {
    pub ty: MovingPlatformType,
    pub platform: MovingPlatform,
}

/// An entity owned by the level root: regenerated on every restart.
#[derive(Clone, Copy, Debug, PartialEq, Eq, Structural)]
pub enum LevelEntity {
    /// The level's title, showing `index + 1`.
    LevelText { index: u16 },
    Platform(PlatformBundle),
    MovingPlatform(PlatformBundle, MovingPlatformBundle),
    /// The level-end trigger, a door standing on its position.
    LevelEnd { center: Vec2 },
}

/// A hazard. It is hidden until the player first touches it.
#[derive(Clone, Copy, Debug, PartialEq, Eq, Structural)]
pub struct Spike {
    pub position: Vec2,
    pub group: Option<usize>,
    pub visible: bool,
}

/// A respawn point; at most one is active.
#[derive(Clone, Copy, Debug, PartialEq, Eq, Structural)]
pub struct Checkpoint {
    pub position: Vec2,
    pub active: bool,
}

/// One step of a level script.
#[derive(Clone, Copy, Debug, PartialEq, Eq, Structural)]
pub enum BuildOp {
    /// A static platform whose left edge is at `pos`.
    Platform { pos: Vec2, size: i64 },
    /// A kinematic platform moving between left edges `a` and `b`.
    SliderPlatform { a: Vec2, b: Vec2, size: i64, speed: u32 },
    Spike { pos: Vec2 },
    /// Spikes along a horizontal span at height `y`.
    SpikeGroup { start_x: i64, end_x: i64, y: i64 },
    /// Spikes along a vertical span at `x`.
    VerticalSpikeGroup { x: i64, start_y: i64, end_y: i64 },
    Checkpoint { pos: Vec2 },
    Ending { pos: Vec2 },
}

/// What a generator has produced so far.
pub struct LevelView {
    pub root: Seq<LevelEntity>,
    pub spikes: Seq<Spike>,
    pub checkpoints: Seq<Checkpoint>,
    pub next_group: int,
}

// ---------------------------------------------------------------------------
// Specifications

/// A platform whose left edge is at `pos`.
pub open spec fn platform_spec(pos: Vec2, size: i64) -> PlatformBundle {
    PlatformBundle {
        center: Vec2 { x: (pos.x + size / 2) as i64, y: pos.y },
        size: Vec2 { x: size, y: PLATFORM_THICKNESS },
        rigid_body: RigidBody::Static,
    }
}

/// A hidden spike of a group.
pub open spec fn hidden_spike(position: Vec2, group: Option<usize>) -> Spike {
    Spike { position, group, visible: false }
}

/// Spikes every `SPIKE_SIZE` from `from` up to `end` along one axis, at
/// `fixed` on the other.
pub open spec fn spike_tiles(from: int, end: int, fixed: i64, vertical: bool, group: usize) -> Seq<Spike>
    decreases end - from + SPIKE_SIZE,
{
    if from > end {
        Seq::empty()
    } else {
        let position = if vertical { Vec2 { x: fixed, y: from as i64 } } else { Vec2 { x: from as i64, y: fixed } };
        seq![hidden_spike(position, Some(group))] + spike_tiles(from + SPIKE_SIZE, end, fixed, vertical, group)
    }
}

/// First position of a group along its span: the part of the span that
/// whole spikes do not fill is split evenly between both ends.
pub open spec fn first_tile(start: int, end: int) -> int {
    if end < start { start } else { start + ((end - start) % (SPIKE_SIZE as int)) / 2 }
}

/// A level-end door standing on `pos`.
pub open spec fn door_center(pos: Vec2) -> Vec2 {
    Vec2 { x: pos.x, y: (pos.y + DOOR_HEIGHT / 2) as i64 }
}

/// A kinematic platform of width `size` moving between left edges `a` and
/// `b`, idle at `a`.
pub open spec fn slider_of(a: Vec2, b: Vec2, size: i64, speed: u32) -> LevelEntity {
    let start = platform_spec(a, size);
    LevelEntity::MovingPlatform(
        PlatformBundle { rigid_body: RigidBody::Kinematic, ..start },
        MovingPlatformBundle {
            ty: slider_spec(start.center, Vec2 { x: (b.x + size / 2) as i64, y: b.y }, speed),
            platform: MovingPlatform { active: false, t: 0, moving_backward: false },
        },
    )
}

/// The generator's output after one step; with `permanent` false, spikes and
/// checkpoints are left out.
pub open spec fn apply_op(v: LevelView, op: BuildOp, permanent: bool) -> LevelView {
    match op {
        BuildOp::Platform { pos, size } => LevelView {
            root: v.root.push(LevelEntity::Platform(platform_spec(pos, size))),
            ..v
        },
        BuildOp::SliderPlatform { a, b, size, speed } => LevelView {
            root: v.root.push(slider_of(a, b, size, speed)),
            ..v
        },
        BuildOp::Spike { pos } => if permanent {
            LevelView { spikes: v.spikes.push(hidden_spike(pos, None)), ..v }
        } else {
            v
        },
        BuildOp::SpikeGroup { start_x, end_x, y } => if permanent {
            LevelView {
                spikes: v.spikes + spike_tiles(first_tile(start_x as int, end_x as int), end_x as int, y, false, v.next_group as usize),
                next_group: v.next_group + 1,
                ..v
            }
        } else {
            v
        },
        BuildOp::VerticalSpikeGroup { x, start_y, end_y } => if permanent {
            LevelView {
                spikes: v.spikes + spike_tiles(first_tile(start_y as int, end_y as int), end_y as int, x, true, v.next_group as usize),
                next_group: v.next_group + 1,
                ..v
            }
        } else {
            v
        },
        BuildOp::Checkpoint { pos } => if permanent {
            LevelView { checkpoints: v.checkpoints.push(Checkpoint { position: pos, active: false }), ..v }
        } else {
            v
        },
        BuildOp::Ending { pos } => LevelView {
            root: v.root.push(LevelEntity::LevelEnd { center: door_center(pos) }),
            ..v
        },
    }
}

/// The output after a sequence of steps, in order.
pub open spec fn run_ops(v: LevelView, ops: Seq<BuildOp>, permanent: bool) -> LevelView
    decreases ops.len(),
{
    if ops.len() == 0 {
        v
    } else {
        apply_op(run_ops(v, ops.drop_last(), permanent), ops.last(), permanent)
    }
}

/// A step whose positions and sizes keep every point it makes in the world.
pub open spec fn op_ok(op: BuildOp) -> bool {
    match op {
        BuildOp::Platform { pos, size } => pos.in_world() && 0 <= size <= COORD_LIMIT,
        BuildOp::SliderPlatform { a, b, size, speed } => {
            &&& 0 <= size <= COORD_LIMIT
            &&& a.in_world() && b.in_world()
            &&& coord_ok(a.x + size / 2) && coord_ok(a.y as int)
            &&& coord_ok(b.x + size / 2) && coord_ok(b.y as int)
        },
        BuildOp::Spike { pos } => pos.in_world(),
        BuildOp::SpikeGroup { start_x, end_x, y } => coord_ok(start_x as int) && coord_ok(end_x as int),
        BuildOp::VerticalSpikeGroup { x, start_y, end_y } => coord_ok(start_y as int) && coord_ok(end_y as int),
        BuildOp::Checkpoint { pos } => pos.in_world(),
        BuildOp::Ending { pos } => pos.in_world(),
    }
}

/// Every step of a script is in range.
pub open spec fn ops_ok(ops: Seq<BuildOp>) -> bool {
    forall|i: int| 0 <= i < ops.len() ==> op_ok(#[trigger] ops[i])
}

/// What a level starts with before its script runs: its title.
pub open spec fn start_view(index: u16) -> LevelView {
    LevelView { root: seq![LevelEntity::LevelText { index }], spikes: Seq::empty(), checkpoints: Seq::empty(), next_group: 0 }
}

// ---------------------------------------------------------------------------
// Building blocks

impl PlatformBundle {
    /// A static platform of width `size` whose left edge is at `pos`.
    pub fn new(pos: Vec2, size: i64) -> (r: Self)
        requires
            pos.in_world(),
            0 <= size <= COORD_LIMIT,
        ensures
            r == platform_spec(pos, size),
    {
        let size_vector = Self::make_size_vector(size);
        PlatformBundle {
            center: Vec2 { x: pos.x + size / 2, y: pos.y },
            size: size_vector,
            rigid_body: RigidBody::Static,
        }
    }

    /// The same platform with another body kind.
    pub fn with_rigid_body(self, rb: RigidBody) -> (r: Self)
        ensures
            r == (PlatformBundle { rigid_body: rb, ..self }),
    {
        PlatformBundle { rigid_body: rb, ..self }
    }

    /// The extent of a platform of width `size`.
    pub fn make_size_vector(size: i64) -> (r: Vec2)
        ensures
            r == (Vec2 { x: size, y: PLATFORM_THICKNESS }),
    {
        Vec2 { x: size, y: PLATFORM_THICKNESS }
    }
}

impl MovingPlatformBundle {
    /// An idle slider between `a` and `b` at `speed` length units per second.
    pub fn slider(a: Vec2, b: Vec2, speed: u32) -> (r: Self)
        requires
            a.in_world(),
            b.in_world(),
        ensures
            r == (MovingPlatformBundle {
                ty: slider_spec(a, b, speed),
                platform: MovingPlatform { active: false, t: 0, moving_backward: false },
            }),
            r.ty.wf(),
    {
        MovingPlatformBundle { ty: MovingPlatformType::slider(a, b, speed), platform: MovingPlatform::new() }
    }
}

// ---------------------------------------------------------------------------
// The generator

/// Builds a level from its script into a fresh level root and the lists of
/// permanent spikes and checkpoints.
pub struct LevelGenerator {
    pub root: Vec<LevelEntity>,
    pub spikes: Vec<Spike>,
    pub checkpoints: Vec<Checkpoint>,
    pub enable_permanent_entities: bool,
    pub current_spike_group: usize,
}

impl LevelGenerator {
    /// What the generator has produced.
    pub open spec fn view_level(&self) -> LevelView {
        LevelView {
            root: self.root@,
            spikes: self.spikes@,
            checkpoints: self.checkpoints@,
            next_group: self.current_spike_group as int,
        }
    }

    /// An empty generator that makes permanent entities too, with the shared
    /// spike and checkpoint assets created if they were not yet.
    pub fn new(spike_data: &mut SpikeData, checkpoint_data: &mut CheckpointData, assets: &mut AssetIds) -> (r: Self)
        ensures
            r.root@ == Seq::<LevelEntity>::empty(),
            r.spikes@ == Seq::<Spike>::empty(),
            r.checkpoints@ == Seq::<Checkpoint>::empty(),
            r.enable_permanent_entities,
            r.current_spike_group == 0,
            final(spike_data).initialized(),
            final(checkpoint_data).initialized(),
            old(spike_data).initialized() ==> *final(spike_data) == *old(spike_data),
            old(checkpoint_data).initialized() ==> *final(checkpoint_data) == *old(checkpoint_data),
    {
        spike_data.ensure_initialized(assets);
        checkpoint_data.ensure_initialized(assets);
        LevelGenerator {
            root: Vec::new(),
            spikes: Vec::new(),
            checkpoints: Vec::new(),
            enable_permanent_entities: true,
            current_spike_group: 0,
        }
    }

    /// Number of levels that have a script.
    pub fn level_count() -> (r: u16)
        ensures
            r == LEVEL_COUNT,
    {
        LEVEL_COUNT
    }

    pub fn set_enable_permanent_entities(&mut self, enable: bool)
        ensures
            final(self).view_level() == old(self).view_level(),
            final(self).enable_permanent_entities == enable,
    {
        self.enable_permanent_entities = enable;
    }

    fn spawn_level_text(&mut self, index: u16)
        ensures
            final(self).view_level() == (LevelView {
                root: old(self).root@.push(LevelEntity::LevelText { index }),
                ..old(self).view_level()
            }),
            final(self).enable_permanent_entities == old(self).enable_permanent_entities,
    {
        self.root.push(LevelEntity::LevelText { index });
    }

    /// Spikes of the current group along a span, then the next group.
    fn spike_tiles_from(&mut self, start: i64, end: i64, fixed: i64, vertical: bool)
        requires
            coord_ok(start as int),
            coord_ok(end as int),
            old(self).current_spike_group < usize::MAX,
        ensures
            final(self).spikes@ == old(self).spikes@ + spike_tiles(
                first_tile(start as int, end as int),
                end as int,
                fixed,
                vertical,
                old(self).current_spike_group,
            ),
            final(self).root@ == old(self).root@,
            final(self).checkpoints@ == old(self).checkpoints@,
            final(self).current_spike_group == old(self).current_spike_group + 1,
            final(self).enable_permanent_entities == old(self).enable_permanent_entities,
    {
        let group = self.current_spike_group;
        let mut x: i64 = if end < start { start } else { start + ((end - start) % SPIKE_SIZE) / 2 };
        let ghost target = old(self).spikes@ + spike_tiles(x as int, end as int, fixed, vertical, group);
        while x <= end
            invariant
                coord_ok(end as int),
                -COORD_LIMIT <= x <= COORD_LIMIT + SPIKE_SIZE,
                self.spikes@ + spike_tiles(x as int, end as int, fixed, vertical, group) == target,
                self.root@ == old(self).root@,
                self.checkpoints@ == old(self).checkpoints@,
                self.current_spike_group == group,
                self.enable_permanent_entities == old(self).enable_permanent_entities,
            decreases end - x + SPIKE_SIZE,
        {
            let position = if vertical { Vec2 { x: fixed, y: x } } else { Vec2 { x, y: fixed } };
            let ghost before = self.spikes@;
            self.spikes.push(Spike { position, group: Some(group), visible: false });
            assert(spike_tiles(x as int, end as int, fixed, vertical, group)
                == seq![hidden_spike(position, Some(group))] + spike_tiles(x + SPIKE_SIZE, end as int, fixed, vertical, group));
            assert(self.spikes@ + spike_tiles(x + SPIKE_SIZE, end as int, fixed, vertical, group)
                =~= before + spike_tiles(x as int, end as int, fixed, vertical, group));
            x = x + SPIKE_SIZE;
        }
        assert(self.spikes@ =~= target);
        self.current_spike_group = group + 1;
    }

    /// Runs one step of a script.
    pub fn apply(&mut self, op: BuildOp)
        requires
            op_ok(op),
            old(self).current_spike_group < usize::MAX,
        ensures
            final(self).view_level() == apply_op(old(self).view_level(), op, old(self).enable_permanent_entities),
            final(self).enable_permanent_entities == old(self).enable_permanent_entities,
            final(self).current_spike_group <= old(self).current_spike_group + 1,
    {
        let permanent = self.enable_permanent_entities;
        match op {
            BuildOp::Platform { pos, size } => {
                self.root.push(LevelEntity::Platform(PlatformBundle::new(pos, size)));
            },
            BuildOp::SliderPlatform { a, b, size, speed } => {
                let start = PlatformBundle::new(a, size).with_rigid_body(RigidBody::Kinematic);
                let end = Vec2 { x: b.x + size / 2, y: b.y };
                let moving = MovingPlatformBundle::slider(start.center, end, speed);
                self.root.push(LevelEntity::MovingPlatform(start, moving));
            },
            BuildOp::Spike { pos } => {
                if permanent {
                    self.spikes.push(Spike { position: pos, group: None, visible: false });
                }
            },
            BuildOp::SpikeGroup { start_x, end_x, y } => {
                if permanent {
                    self.spike_tiles_from(start_x, end_x, y, false);
                }
            },
            BuildOp::VerticalSpikeGroup { x, start_y, end_y } => {
                if permanent {
                    self.spike_tiles_from(start_y, end_y, x, true);
                }
            },
            BuildOp::Checkpoint { pos } => {
                if permanent {
                    self.checkpoints.push(Checkpoint { position: pos, active: false });
                }
            },
            BuildOp::Ending { pos } => {
                self.root.push(LevelEntity::LevelEnd { center: Vec2 { x: pos.x, y: pos.y + DOOR_HEIGHT / 2 } });
            },
        }
        assert(self.view_level() =~~= apply_op(old(self).view_level(), op, permanent));
    }

    /// Runs a script, step by step in order.
    pub fn run(&mut self, ops: &Vec<BuildOp>)
        requires
            ops_ok(ops@),
            old(self).current_spike_group + ops@.len() <= usize::MAX,
        ensures
            final(self).view_level() == run_ops(old(self).view_level(), ops@, old(self).enable_permanent_entities),
            final(self).enable_permanent_entities == old(self).enable_permanent_entities,
    {
        let permanent = self.enable_permanent_entities;
        let mut i: usize = 0;
        while i < ops.len()
            invariant
                i <= ops.len(),
                ops_ok(ops@),
                permanent == self.enable_permanent_entities,
                self.current_spike_group <= old(self).current_spike_group + i,
                old(self).current_spike_group + ops@.len() <= usize::MAX,
                self.view_level() == run_ops(old(self).view_level(), ops@.take(i as int), permanent),
            decreases ops.len() - i,
        {
            assert(ops@.take(i as int + 1).drop_last() =~= ops@.take(i as int));
            assert(op_ok(ops@[i as int]));
            self.apply(ops[i]);
            i += 1;
        }
        assert(ops@.take(ops.len() as int) =~= ops@);
    }
}

// ---------------------------------------------------------------------------
// Layout

/// Two entities are laid out alike: equal, or moving platforms of the same
/// size and path, wherever they are on it.
pub open spec fn entity_layout_eq(a: LevelEntity, b: LevelEntity) -> bool {
    match (a, b) {
        (LevelEntity::MovingPlatform(p, m), LevelEntity::MovingPlatform(q, n)) => p.size == q.size && m.ty == n.ty,
        _ => a == b,
    }
}

/// Two level roots are laid out alike, entity by entity.
pub open spec fn layout_eq(a: Seq<LevelEntity>, b: Seq<LevelEntity>) -> bool {
    a.len() == b.len() && forall|i: int| 0 <= i < a.len() ==> entity_layout_eq(#[trigger] a[i], b[i])
}

fn same_entity_layout(a: &LevelEntity, b: &LevelEntity) -> (r: bool)
    ensures
        r == entity_layout_eq(*a, *b),
{
    match (a, b) {
        (LevelEntity::MovingPlatform(p, m), LevelEntity::MovingPlatform(q, n)) => p.size == q.size && m.ty == n.ty,
        _ => *a == *b,
    }
}

/// Whether two level roots differ at most in where their moving platforms
/// are, so that what shows one can show the other by moving platforms.
pub fn same_layout(a: &Vec<LevelEntity>, b: &Vec<LevelEntity>) -> (r: bool)
    ensures
        r == layout_eq(a@, b@),
{
    if a.len() != b.len() {
        return false;
    }
    let mut i: usize = 0;
    while i < a.len()
        invariant
            a.len() == b.len(),
            i <= a.len(),
            forall|j: int| 0 <= j < i ==> entity_layout_eq(#[trigger] a@[j], b@[j]),
        decreases a.len() - i,
    {
        if !same_entity_layout(&a[i], &b[i]) {
            return false;
        }
        i += 1;
    }
    true
}

// ---------------------------------------------------------------------------
// Level scripts

/// The first level.
pub open spec fn level0_script() -> Seq<BuildOp> {
    seq![
        BuildOp::Platform { pos: Vec2 { x: -500_000i64, y: -30_000i64 }, size: 1_000_000 },
        BuildOp::Platform { pos: Vec2 { x: -400_000i64, y: 0 }, size: 200_000 },
        BuildOp::Spike { pos: Vec2 { x: 100_000, y: -30_000i64 } },
        BuildOp::Checkpoint { pos: Vec2 { x: 200_000, y: -30_000i64 } },
        BuildOp::Checkpoint { pos: Vec2 { x: 300_000, y: -30_000i64 } },
        BuildOp::SliderPlatform {
            a: Vec2 { x: 550_000, y: -30_000i64 },
            b: Vec2 { x: 950_000, y: -30_000i64 },
            size: 200_000,
            speed: 250_000,
        },
        BuildOp::Platform { pos: Vec2 { x: 1_200_000, y: 0 }, size: 400_000 },
        BuildOp::Ending { pos: Vec2 { x: 1_500_000, y: 0 } },
        BuildOp::SpikeGroup { start_x: -600_000i64, end_x: -500_000i64, y: -100_000i64 },
        BuildOp::SpikeGroup { start_x: 550_000, end_x: 950_000, y: -100_000i64 },
        BuildOp::SpikeGroup { start_x: -30_000i64, end_x: 10_000, y: -500_000i64 },
    ]
}

/// The second level.
pub open spec fn level1_script() -> Seq<BuildOp> {
    seq![
        BuildOp::Platform { pos: Vec2 { x: -500_000i64, y: -30_000i64 }, size: 1_000_000 },
        BuildOp::SliderPlatform {
            a: Vec2 { x: 550_000, y: -30_000i64 },
            b: Vec2 { x: 1_050_000, y: -30_000i64 },
            size: 200_000,
            speed: 250_000,
        },
        BuildOp::Checkpoint { pos: Vec2 { x: 200_000, y: -30_000i64 } },
    ]
}

/// The script of a level.
pub open spec fn script(index: u16) -> Seq<BuildOp> {
    if index == 0 { level0_script() } else { level1_script() }
}

/// A level as generated from its script: in full, or without the permanent
/// spikes and checkpoints.
pub open spec fn generate(index: u16, permanent: bool) -> LevelView {
    run_ops(start_view(index), script(index), permanent)
}

/// The script of a level, as data.
pub fn level_script(index: u16) -> (r: Vec<BuildOp>)
    requires
        index < LEVEL_COUNT,
    ensures
        r@ == script(index),
        ops_ok(r@),
{
    if index == 0 {
        let r = vec![
            BuildOp::Platform { pos: Vec2 { x: -500_000, y: -30_000 }, size: 1_000_000 },
            BuildOp::Platform { pos: Vec2 { x: -400_000, y: 0 }, size: 200_000 },
            BuildOp::Spike { pos: Vec2 { x: 100_000, y: -30_000 } },
            BuildOp::Checkpoint { pos: Vec2 { x: 200_000, y: -30_000 } },
            BuildOp::Checkpoint { pos: Vec2 { x: 300_000, y: -30_000 } },
            BuildOp::SliderPlatform {
                a: Vec2 { x: 550_000, y: -30_000 },
                b: Vec2 { x: 950_000, y: -30_000 },
                size: 200_000,
                speed: 250_000,
            },
            BuildOp::Platform { pos: Vec2 { x: 1_200_000, y: 0 }, size: 400_000 },
            BuildOp::Ending { pos: Vec2 { x: 1_500_000, y: 0 } },
            BuildOp::SpikeGroup { start_x: -600_000, end_x: -500_000, y: -100_000 },
            BuildOp::SpikeGroup { start_x: 550_000, end_x: 950_000, y: -100_000 },
            BuildOp::SpikeGroup { start_x: -30_000, end_x: 10_000, y: -500_000 },
        ];
        assert(r@ =~= level0_script());
        r
    } else {
        let r = vec![
            BuildOp::Platform { pos: Vec2 { x: -500_000, y: -30_000 }, size: 1_000_000 },
            BuildOp::SliderPlatform {
                a: Vec2 { x: 550_000, y: -30_000 },
                b: Vec2 { x: 1_050_000, y: -30_000 },
                size: 200_000,
                speed: 250_000,
            },
            BuildOp::Checkpoint { pos: Vec2 { x: 200_000, y: -30_000 } },
        ];
        assert(r@ =~= level1_script());
        r
    }
}

impl LevelGenerator {
    /// Generates level `idx` in full: its title and every entity of its
    /// script.
    pub fn setup_level(spike_data: &mut SpikeData, checkpoint_data: &mut CheckpointData, assets: &mut AssetIds, idx: u16) -> (r: Self)
        requires
            idx < LEVEL_COUNT,
        ensures
            r.view_level() == generate(idx, true),
            final(spike_data).initialized(),
            final(checkpoint_data).initialized(),
            old(spike_data).initialized() ==> *final(spike_data) == *old(spike_data),
            old(checkpoint_data).initialized() ==> *final(checkpoint_data) == *old(checkpoint_data),
    {
        let mut lg = Self::new(spike_data, checkpoint_data, assets);
        lg.spawn_level_text(idx);
        assert(lg.view_level() =~~= start_view(idx));
        let ops = level_script(idx);
        lg.run(&ops);
        lg
    }

    /// Generates level `idx` without its permanent spikes and checkpoints:
    /// its title, platforms and level end.
    pub fn setup_level_without_permanent_entities(
        spike_data: &mut SpikeData,
        checkpoint_data: &mut CheckpointData,
        assets: &mut AssetIds,
        idx: u16,
    ) -> (r: Self)
        requires
            idx < LEVEL_COUNT,
        ensures
            r.view_level() == generate(idx, false),
            final(spike_data).initialized(),
            final(checkpoint_data).initialized(),
            old(spike_data).initialized() ==> *final(spike_data) == *old(spike_data),
            old(checkpoint_data).initialized() ==> *final(checkpoint_data) == *old(checkpoint_data),
    {
        let mut lg = Self::new(spike_data, checkpoint_data, assets);
        lg.spawn_level_text(idx);
        lg.set_enable_permanent_entities(false);
        assert(lg.view_level() =~~= start_view(idx));
        let ops = level_script(idx);
        lg.run(&ops);
        lg
    }
}

} // verus!
