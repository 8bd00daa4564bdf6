//! The ball launcher: its cadence and the balls it fires.
use vstd::prelude::*;
use crate::scene::{Body, Colour, Role, Shape, SpawnSpec, Vec3i, BALL_DENSITY};

verus! {

/// Time between two shots: a tenth of a second.
pub const SHOOT_INTERVAL_NS: u64 = 100_000_000;

/// A repeating countdown: `elapsed_ns` is the time since the last shot.
#[derive(Clone, Copy, Debug, PartialEq, Eq, Structural)]
pub struct ShootClock {
    pub interval_ns: u64,
    pub elapsed_ns: u64,
}

impl ShootClock {
    pub open spec fn wf(&self) -> bool {
        0 < self.interval_ns && self.elapsed_ns < self.interval_ns
    }

    /// How many intervals advancing by `delta` completes: one shot each.
    pub open spec fn fires(&self, delta: u64) -> nat {
        ((self.elapsed_ns as int + delta as int) / (self.interval_ns as int)) as nat
    }

    /// The clock after advancing by `delta`: what is left over past the
    /// last completed interval.
    pub open spec fn advanced(&self, delta: u64) -> ShootClock {
        ShootClock {
            interval_ns: self.interval_ns,
            elapsed_ns: ((self.elapsed_ns + delta) % (self.interval_ns as int)) as u64,
        }
    }

    /// A clock at the start of its interval.
    pub fn new(interval_ns: u64) -> (r: ShootClock)
        requires
            interval_ns > 0,
        ensures
            r.wf(),
            r.interval_ns == interval_ns,
            r.elapsed_ns == 0,
    {
        ShootClock { interval_ns, elapsed_ns: 0 }
    }

    /// Advances by `delta_ns` and tells how many intervals ran out.
    pub fn tick(&mut self, delta_ns: u64) -> (fired: u64)
        requires
            old(self).wf(),
        ensures
            final(self).wf(),
            *final(self) == old(self).advanced(delta_ns),
            fired == old(self).fires(delta_ns),
    {
        let total: u128 = self.elapsed_ns as u128 + delta_ns as u128;
        let interval: u128 = self.interval_ns as u128;
        let rest: u128 = total % interval;
        let count: u128 = total / interval;
        proof {
            lemma_count_bound(self.elapsed_ns as int, delta_ns as int, interval as int);
        }
        self.elapsed_ns = rest as u64;
        count as u64
    }
}

/// A tick completes at most one interval more than `delta` alone holds, so
/// the count fits in a `u64`.
pub proof fn lemma_count_bound(e: int, d: int, i: int)
    requires
        0 <= e < i,
        0 <= d <= u64::MAX,
    ensures
        (e + d) / i <= d / i + 1,
        (e + d) / i <= u64::MAX,
        0 <= (e + d) % i < i,
{
    vstd::arithmetic::div_mod::lemma_fundamental_div_mod(d, i);
    vstd::arithmetic::div_mod::lemma_fundamental_div_mod(e + d, i);
    vstd::arithmetic::div_mod::lemma_mod_pos_bound(d, i);
    vstd::arithmetic::div_mod::lemma_mod_pos_bound(e + d, i);
    let q = d / i;
    let r = d % i;
    let q2 = (e + d) / i;
    let r2 = (e + d) % i;
    assert(q2 <= q + 1) by (nonlinear_arith)
        requires
            e + d == i * q2 + r2,
            d == i * q + r,
            0 <= r < i,
            0 <= r2 < i,
            0 <= e < i,
    ;
    if i == 1 {
        assert(q2 == e + d) by (nonlinear_arith)
            requires
                e + d == i * q2 + r2,
                i == 1,
                0 <= r2 < i,
        ;
    } else {
        assert(q <= d / 2) by (nonlinear_arith)
            requires
                d == i * q + r,
                0 <= r,
                i >= 2,
                q >= 0 || d >= 0,
        ;
        vstd::arithmetic::div_mod::lemma_div_pos_is_pos(d, i);
    }
}

/// The colours the launcher picks from. The pick draws an index below 3,
/// so the last one is never chosen.
pub open spec fn palette(i: int) -> Colour {
    if i == 0 {
        Colour::Purple
    } else if i == 1 {
        Colour::Blue
    } else if i == 2 {
        Colour::Pink
    } else {
        Colour::Red
    }
}

pub const COLOUR_DRAW_BOUND: i64 = 3;
pub const RADIUS_MIN: i64 = 250;
pub const RADIUS_MAX: i64 = 500;
pub const OFFSET_MIN: i64 = -2000;
pub const OFFSET_MAX: i64 = 2000;
pub const CURVE_MIN: i64 = -5000;
pub const CURVE_MAX: i64 = 5000;
pub const SPEED_MIN: i64 = -100000;
pub const SPEED_MAX: i64 = -40000;
pub const LAUNCH_HEIGHT: i64 = 2500;
pub const LAUNCH_DEPTH: i64 = 58000;

/// The ball fired with the given draws: lateral offset `x`, sideways
/// velocity `curve` and forward velocity `speed`.
pub open spec fn ball_spec(colour: int, radius: i64, x: i64, curve: i64, speed: i64) -> SpawnSpec {
    SpawnSpec {
        role: Role::Ball,
        level_unload: true,
        shape: Some(Shape::Sphere { radius }),
        body: Some(Body::Dynamic),
        density: Some(BALL_DENSITY),
        ccd: true,
        colour: Some(palette(colour)),
        pos: Vec3i { x, y: LAUNCH_HEIGHT, z: LAUNCH_DEPTH },
        vel: Vec3i { x: curve, y: 0, z: speed },
        light: None,
        look_at: None,
    }
}

/// What holds of every ball that the launcher can fire.
pub open spec fn launchable(b: SpawnSpec) -> bool {
    exists|c: int, radius: i64, x: i64, curve: i64, speed: i64|
        0 <= c < COLOUR_DRAW_BOUND && RADIUS_MIN <= radius < RADIUS_MAX && OFFSET_MIN <= x
            < OFFSET_MAX && CURVE_MIN <= curve < CURVE_MAX && SPEED_MIN <= speed < SPEED_MAX
            && b == #[trigger] ball_spec(c, radius, x, curve, speed)
}

/// Relies on rand's `thread_rng` and `Rng::gen_range`: a value drawn from
/// `lo..hi`, never outside it (`gen_range` panics only on an empty range).
#[verifier::external_body]
fn draw_between(lo: i64, hi: i64) -> (r: i64)
    requires
        lo < hi,
    ensures
        lo <= r < hi,
{
    rand::Rng::gen_range(&mut rand::thread_rng(), lo..hi)
}

/// The colour at index `i` of the launcher's palette.
pub fn palette_colour(i: i64) -> (r: Colour)
    ensures
        r == palette(i as int),
{
    if i == 0 {
        Colour::Purple
    } else if i == 1 {
        Colour::Blue
    } else if i == 2 {
        Colour::Pink
    } else {
        Colour::Red
    }
}

/// The ball for the given draws.
pub fn make_ball(colour: i64, radius: i64, x: i64, curve: i64, speed: i64) -> (r: SpawnSpec)
    ensures
        r == ball_spec(colour as int, radius, x, curve, speed),
{
    SpawnSpec {
        role: Role::Ball,
        level_unload: true,
        shape: Some(Shape::Sphere { radius }),
        body: Some(Body::Dynamic),
        density: Some(BALL_DENSITY),
        ccd: true,
        colour: Some(palette_colour(colour)),
        pos: Vec3i { x, y: LAUNCH_HEIGHT, z: LAUNCH_DEPTH },
        vel: Vec3i { x: curve, y: 0, z: speed },
        light: None,
        look_at: None,
    }
}

/// Fires one ball: colour, radius, offset, curve and speed are each drawn
/// independently and uniformly from their ranges.
pub fn shoot() -> (r: SpawnSpec)
    ensures
        launchable(r),
{
    let colour = draw_between(0, COLOUR_DRAW_BOUND);
    let radius = draw_between(RADIUS_MIN, RADIUS_MAX);
    let x = draw_between(OFFSET_MIN, OFFSET_MAX);
    let curve = draw_between(CURVE_MIN, CURVE_MAX);
    let speed = draw_between(SPEED_MIN, SPEED_MAX);
    let r = make_ball(colour, radius, x, curve, speed);
    assert(0 <= colour as int && (colour as int) < COLOUR_DRAW_BOUND);
    assert(r == ball_spec(colour as int, radius, x, curve, speed));
    r
}

/// Every ball the launcher fires flies level, sideways in [-5, 5) and toward
/// the pins with a forward velocity in [-100, -40), in world units.
pub proof fn lemma_ball_velocity(b: SpawnSpec)
    requires
        launchable(b),
    ensures
        b.role == Role::Ball,
        b.vel.y == 0,
        CURVE_MIN <= b.vel.x < CURVE_MAX,
        SPEED_MIN <= b.vel.z < SPEED_MAX,
{
}

} // verus!
