use vstd::prelude::*;
use crate::geometry::{Vec2, coord_ok, MICROS_PER_SECOND};
use vstd::arithmetic::div_mod::{lemma_div_is_ordered, lemma_div_by_multiple, lemma_div_pos_is_pos};
use vstd::arithmetic::mul::lemma_mul_inequality;

verus! {

/// Progress of a platform along its path, in millionths: `T_ONE` is the
/// second endpoint.
pub const T_ONE: u32 = 1_000_000;

/// The path of a moving platform.
#[derive(Clone, Copy, Debug, PartialEq, Eq, Structural)]
pub enum MovingPlatformType {
    /// Back and forth between `a` and `b` at `speed` length units per
    /// second; `length` is the path's length rounded down.
    Slider { a: Vec2, b: Vec2, speed: u32, length: u64 },
}

/// The moving state of a platform: idle until first touched, then moving
/// forwards or backwards along its path.
#[derive(Clone, Copy, Debug, PartialEq, Eq, Structural)]
pub struct MovingPlatform {
    pub active: bool,
    pub t: u32,
    pub moving_backward: bool,
}

/// What an active platform did in one tick: where it now stands and how far
/// each body riding it is pushed horizontally.
#[derive(Clone, Copy, Debug, PartialEq, Eq, Structural)]
pub struct PlatformMotion {
    pub position: Vec2,
    pub carry: i64,
}

/// Square of the distance between two points.
pub open spec fn dist_sq(a: Vec2, b: Vec2) -> int {
    (b.x - a.x) * (b.x - a.x) + (b.y - a.y) * (b.y - a.y)
}

/// `r` is the square root of `n`, rounded down.
pub open spec fn is_floor_sqrt(r: int, n: int) -> bool {
    0 <= r && r * r <= n < (r + 1) * (r + 1)
}

/// The square root of `n`, rounded down.
pub open spec fn floor_sqrt_of(n: int) -> int {
    choose|r: int| is_floor_sqrt(r, n)
}

/// A rounded-down square root is unique.
proof fn lemma_floor_sqrt_unique(r1: int, r2: int, n: int)
    requires
        is_floor_sqrt(r1, n),
        is_floor_sqrt(r2, n),
    ensures
        r1 == r2,
{
    if r1 < r2 {
        lemma_mul_inequality(r1 + 1, r2, r1 + 1);
        lemma_mul_inequality(r1 + 1, r2, r2);
        assert(r2 * (r1 + 1) == (r1 + 1) * r2) by (nonlinear_arith);
    } else if r2 < r1 {
        lemma_mul_inequality(r2 + 1, r1, r2 + 1);
        lemma_mul_inequality(r2 + 1, r1, r1);
        assert(r1 * (r2 + 1) == (r2 + 1) * r1) by (nonlinear_arith);
    }
}

/// The slider between `a` and `b`, with its path length.
pub open spec fn slider_spec(a: Vec2, b: Vec2, speed: u32) -> MovingPlatformType {
    MovingPlatformType::Slider { a, b, speed, length: floor_sqrt_of(dist_sq(a, b)) as u64 }
}

/// Progress after one tick: the step `speed × delta / length` (infinite for
/// a path of zero length) is added or taken away and the result clamped to
/// the path.
pub open spec fn next_t(t: int, backward: bool, speed: int, length: int, delta_micros: int) -> int {
    if length == 0 {
        if backward { 0 } else { T_ONE as int }
    } else {
        let step = speed * delta_micros / length;
        if backward {
            if t - step < 0 { 0 } else { t - step }
        } else {
            if t + step > T_ONE { T_ONE as int } else { t + step }
        }
    }
}

/// The point at progress `t` between `a` and `b`, on one axis.
pub open spec fn lerp_coord(a: int, b: int, t: int) -> int {
    if a <= b {
        a + (b - a) * t / (T_ONE as int)
    } else {
        a - (a - b) * t / (T_ONE as int)
    }
}

/// How far a rider is pushed in one tick: the platform's speed times the
/// tick's duration, in the direction the platform was moving.
pub open spec fn carry_offset(speed: int, delta_micros: int, backward: bool) -> int {
    let d = speed * delta_micros / (MICROS_PER_SECOND as int);
    if backward { -d } else { d }
}

/// One tick of a platform: it activates on touch; an active platform moves,
/// and turns around exactly when it reaches an endpoint.
pub open spec fn platform_tick(p: MovingPlatform, ty: MovingPlatformType, delta_micros: u32, touched: bool) -> (MovingPlatform, Option<PlatformMotion>) {
    let active = p.active || touched;
    if !active {
        (p, None)
    } else {
        match ty {
            MovingPlatformType::Slider { a, b, speed, length } => {
                let t = next_t(p.t as int, p.moving_backward, speed as int, length as int, delta_micros as int);
                let backward = if t >= T_ONE { true } else if t <= 0 { false } else { p.moving_backward };
                (
                    MovingPlatform { active: true, t: t as u32, moving_backward: backward },
                    Some(PlatformMotion {
                        position: Vec2 {
                            x: lerp_coord(a.x as int, b.x as int, t) as i64,
                            y: lerp_coord(a.y as int, b.y as int, t) as i64,
                        },
                        carry: carry_offset(speed as int, delta_micros as int, p.moving_backward) as i64,
                    }),
                )
            },
        }
    }
}

impl MovingPlatform {
    /// Progress lies on the path.
    pub open spec fn wf(self) -> bool {
        self.t <= T_ONE
    }

    /// Idle at the first endpoint.
    pub fn new() -> (r: Self)
        ensures
            r == (MovingPlatform { active: false, t: 0, moving_backward: false }),
    {
        MovingPlatform { active: false, t: 0, moving_backward: false }
    }
}

impl MovingPlatform {
    /// One tick of the platform. A touch activates it; an idle platform
    /// stays where it is. An active one advances its progress, clamped to the
    /// path, turns around exactly at an endpoint, and reports its new position
    /// and the push for its riders.
    pub fn advance(&mut self, ty: &MovingPlatformType, delta_micros: u32, touched: bool) -> (r: Option<PlatformMotion>)
        requires
            old(self).wf(),
            ty.wf(),
        ensures
            (*final(self), r) == platform_tick(*old(self), *ty, delta_micros, touched),
            final(self).wf(),
            final(self).moving_backward != old(self).moving_backward ==> final(self).t == 0 || final(self).t == T_ONE,
            r matches Some(m) ==> m.position.in_world(),
    {
        if touched {
            self.active = true;
        }
        if !self.active {
            return None;
        }
        match *ty {
            MovingPlatformType::Slider { a, b, speed, length } => {
                let backward = self.moving_backward;
                assert(speed as u64 * delta_micros as u64 <= 0xffff_ffff_ffff_ffff) by (nonlinear_arith)
                    requires
                        speed <= 0xffff_ffff,
                        delta_micros <= 0xffff_ffff;
                let travel: u64 = speed as u64 * delta_micros as u64;
                let t: u32 = if length == 0 {
                    if backward { 0 } else { T_ONE }
                } else {
                    let step: u64 = travel / length;
                    if backward {
                        if step > self.t as u64 { 0 } else { self.t - step as u32 }
                    } else {
                        if step >= (T_ONE - self.t) as u64 { T_ONE } else { self.t + step as u32 }
                    }
                };
                self.t = t;
                let position = Vec2 { x: lerp(a.x, b.x, t), y: lerp(a.y, b.y, t) };
                let pushed: i64 = (travel / MICROS_PER_SECOND) as i64;
                let carry: i64 = if backward { -pushed } else { pushed };
                if t >= T_ONE {
                    self.moving_backward = true;
                } else if t == 0 {
                    self.moving_backward = false;
                }
                Some(PlatformMotion { position, carry })
            },
        }
    }
}

impl MovingPlatformType {
    /// Both endpoints lie in the world.
    pub open spec fn wf(self) -> bool {
        match self {
            MovingPlatformType::Slider { a, b, speed, length } =>
                a.in_world() && b.in_world(),
        }
    }

    /// A slider between `a` and `b` at `speed` length units per second.
    pub fn slider(a: Vec2, b: Vec2, speed: u32) -> (r: Self)
        requires
            a.in_world(),
            b.in_world(),
        ensures
            r.wf(),
            r == slider_spec(a, b, speed),
    {
        let dx: i128 = b.x as i128 - a.x as i128;
        let dy: i128 = b.y as i128 - a.y as i128;
        assert(dx * dx <= 0x10_0000_0000_0000_0000_0000) by (nonlinear_arith)
            requires -0x200_0000_0000 <= dx <= 0x200_0000_0000;
        assert(dy * dy <= 0x10_0000_0000_0000_0000_0000) by (nonlinear_arith)
            requires -0x200_0000_0000 <= dy <= 0x200_0000_0000;
        assert(0 <= dx * dx) by (nonlinear_arith);
        assert(0 <= dy * dy) by (nonlinear_arith);
        let n: u128 = (dx * dx + dy * dy) as u128;
        let length = floor_sqrt(n);
        proof {
            lemma_floor_sqrt_unique(length as int, floor_sqrt_of(dist_sq(a, b)), dist_sq(a, b));
        }
        MovingPlatformType::Slider { a, b, speed, length }
    }
}

/// A fraction `t / T_ONE` of a nonnegative distance is at most the distance.
proof fn lemma_fraction_within(d: int, t: int)
    requires
        0 <= d,
        0 <= t <= T_ONE,
    ensures
        0 <= d * t / (T_ONE as int) <= d,
{
    lemma_mul_inequality(t, T_ONE as int, d);
    assert(t * d == d * t) by (nonlinear_arith);
    assert(T_ONE as int * d == d * T_ONE as int) by (nonlinear_arith);
    lemma_div_is_ordered(d * t, d * T_ONE as int, T_ONE as int);
    lemma_div_by_multiple(d, T_ONE as int);
    assert(0 <= d * t) by (nonlinear_arith)
        requires 0 <= d, 0 <= t;
    lemma_div_pos_is_pos(d * t, T_ONE as int);
}

/// The point at progress `t` between two coordinates.
fn lerp(a: i64, b: i64, t: u32) -> (r: i64)
    requires
        coord_ok(a as int),
        coord_ok(b as int),
        t <= T_ONE,
    ensures
        r == lerp_coord(a as int, b as int, t as int),
        coord_ok(r as int),
{
    if a <= b {
        let d: i128 = b as i128 - a as i128;
        proof { lemma_fraction_within(d as int, t as int); }
        assert(d * (t as i128) <= 0x1_0000_0000_0000_0000) by (nonlinear_arith)
            requires 0 <= d <= 0x200_0000_0000, t <= 1_000_000;
        assert(0 <= d * (t as i128)) by (nonlinear_arith)
            requires 0 <= d, 0 <= t;
        let off: i128 = d * (t as i128) / (T_ONE as i128);
        (a as i128 + off) as i64
    } else {
        let d: i128 = a as i128 - b as i128;
        proof { lemma_fraction_within(d as int, t as int); }
        assert(d * (t as i128) <= 0x1_0000_0000_0000_0000) by (nonlinear_arith)
            requires 0 <= d <= 0x200_0000_0000, t <= 1_000_000;
        assert(0 <= d * (t as i128)) by (nonlinear_arith)
            requires 0 <= d, 0 <= t;
        let off: i128 = d * (t as i128) / (T_ONE as i128);
        (a as i128 - off) as i64
    }
}

/// Square root rounded down, by bisection.
fn floor_sqrt(n: u128) -> (r: u64)
    requires
        n <= 0x20_0000_0000_0000_0000_0000,
    ensures
        is_floor_sqrt(r as int, n as int),
{
    let mut lo: u128 = 0;
    let mut hi: u128 = 0x800_0000_0000;
    assert(n < hi * hi) by (nonlinear_arith)
        requires n <= 0x20_0000_0000_0000_0000_0000, hi == 0x800_0000_0000;
    while hi - lo > 1
        invariant
            lo < hi <= 0x800_0000_0000,
            lo * lo <= n < hi * hi,
        decreases hi - lo,
    {
        let mid: u128 = lo + (hi - lo) / 2;
        assert(mid * mid <= 0x40_0000_0000_0000_0000_0000) by (nonlinear_arith)
            requires mid <= 0x800_0000_0000;
        if mid * mid <= n {
            lo = mid;
        } else {
            hi = mid;
        }
    }
    assert(hi == lo + 1);
    lo as u64
}

/// Over any tick, progress stays on the path, and the direction changes only
/// when the platform stands exactly at an endpoint.
pub proof fn lemma_progress_stays_on_path(p: MovingPlatform, ty: MovingPlatformType, delta_micros: u32, touched: bool)
    requires
        p.wf(),
    ensures
        ({
            let q = platform_tick(p, ty, delta_micros, touched).0;
            &&& q.wf()
            &&& (q.moving_backward != p.moving_backward ==> q.t == 0 || q.t == T_ONE)
        }),
{
}

} // verus!
