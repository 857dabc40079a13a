//! One bird: its kinematic state and its integration step.

use vstd::prelude::*;
use crate::config::Config;
use crate::fixed::{
    div_toward_zero, floor_sqrt, isqrt, lemma_capped_within, lemma_component_within_length,
    magnitude, square, trunc_div, COORD_MAX, FORCE_MAX, ONE,
};
use crate::source::draw;

verus! {

/// Share of its speed that a bird keeps when it bounces off a wall.
pub const RESTITUTION: i64 = 800_000;

/// Largest initial speed along one axis.
pub const INITIAL_SPEED: i64 = 10_000;

/// One of the three axes, in the order in which a step treats them.
#[derive(Clone, Copy, Debug, PartialEq, Eq)]
pub enum Axis {
    X,
    Y,
    Z,
}

/// Three components, one per axis.
#[derive(Clone, Copy, Debug, PartialEq, Eq)]
pub struct Vec3 {
    pub x: i64,
    pub y: i64,
    pub z: i64,
}

impl Vec3 {
    /// The component along `axis`.
    pub open spec fn along(self, axis: Axis) -> int {
        match axis {
            Axis::X => self.x as int,
            Axis::Y => self.y as int,
            Axis::Z => self.z as int,
        }
    }

    /// Every component has magnitude at most `bound`.
    pub open spec fn within(self, bound: int) -> bool {
        &&& -bound <= self.x <= bound
        &&& -bound <= self.y <= bound
        &&& -bound <= self.z <= bound
    }

    /// Sum of the squared components.
    pub open spec fn norm_sq(self) -> int {
        self.x * self.x + self.y * self.y + self.z * self.z
    }

    /// Tells whether every component has magnitude at most `bound`.
    pub fn fits(&self, bound: i64) -> (r: bool)
        requires
            0 <= bound,
        ensures
            r == self.within(bound as int),
    {
        -bound <= self.x && self.x <= bound && -bound <= self.y && self.y <= bound && -bound
            <= self.z && self.z <= bound
    }

    /// The vector with the given components.
    pub fn new(x: i64, y: i64, z: i64) -> (v: Vec3)
        ensures
            v == (Vec3 { x, y, z }),
    {
        Vec3 { x, y, z }
    }

    /// The zero vector.
    pub fn zero() -> (v: Vec3)
        ensures
            v == (Vec3 { x: 0, y: 0, z: 0 }),
    {
        Vec3 { x: 0, y: 0, z: 0 }
    }
}

/// Position, velocity and the acceleration gathered for the coming step.
#[derive(Clone, Copy, Debug, PartialEq, Eq)]
pub struct Bird {
    pub position: Vec3,
    pub velocity: Vec3,
    pub acceleration: Vec3,
}

/// A velocity component after the speed cap: scaled by `max_speed / speed`
/// where the speed exceeds the cap, unchanged otherwise.
pub open spec fn capped(v: int, speed: int, max_speed: int) -> int {
    if speed > max_speed {
        trunc_div(v * max_speed, speed)
    } else {
        v
    }
}

/// A velocity component after a bounce: reversed, and reduced to
/// `RESTITUTION`.
pub open spec fn rebound(v: int) -> int {
    trunc_div(-v * RESTITUTION, ONE as int)
}

/// Position and velocity along one axis after a step. `side_a` and `side_b`
/// are the velocity components along the other two axes as they stand when
/// this axis is treated.
pub open spec fn advanced(
    pos: int,
    vel: int,
    acc: int,
    side_a: int,
    side_b: int,
    config: Config,
) -> (int, int) {
    let raised = vel + acc;
    let speed = floor_sqrt(raised * raised + side_a * side_a + side_b * side_b);
    let v = capped(raised, speed, config.max_speed as int);
    let p = pos + v;
    if p > config.boundary_half {
        (config.boundary_half as int, rebound(v))
    } else if p < -config.boundary_half {
        (-config.boundary_half, rebound(v))
    } else {
        (p, v)
    }
}

/// Where a raw 32-bit draw lands in `[-half, half)`.
pub open spec fn spread(word: u32, half: int) -> int {
    (word * (2 * half)) / 0x1_0000_0000 - half
}

impl Bird {
    /// Every component is small enough for a step to be computed in machine
    /// integers: of magnitude at most `FORCE_MAX`.
    pub open spec fn bounded(self) -> bool {
        &&& self.position.within(FORCE_MAX as int)
        &&& self.velocity.within(FORCE_MAX as int)
        &&& self.acceleration.within(FORCE_MAX as int)
    }

    /// Every component is at most `COORD_MAX`: what a flock asks of its birds.
    pub open spec fn steady(self) -> bool {
        &&& self.position.within(COORD_MAX as int)
        &&& self.velocity.within(COORD_MAX as int)
        &&& self.acceleration.within(COORD_MAX as int)
    }

    /// The state that every step leaves: no pending acceleration, no velocity
    /// component above the speed cap, the position inside the box.
    pub open spec fn settled(self, config: Config) -> bool {
        &&& self.acceleration == (Vec3 { x: 0, y: 0, z: 0 })
        &&& self.velocity.within(config.max_speed as int)
        &&& self.position.within(config.boundary_half as int)
    }

    /// The bird after one step: the axes are treated in the order x, y, z,
    /// each seeing the velocity components that the earlier ones left.
    pub open spec fn integrated(self, config: Config) -> Bird {
        let x = advanced(
            self.position.x as int,
            self.velocity.x as int,
            self.acceleration.x as int,
            self.velocity.y as int,
            self.velocity.z as int,
            config,
        );
        let y = advanced(
            self.position.y as int,
            self.velocity.y as int,
            self.acceleration.y as int,
            x.1,
            self.velocity.z as int,
            config,
        );
        let z = advanced(
            self.position.z as int,
            self.velocity.z as int,
            self.acceleration.z as int,
            x.1,
            y.1,
            config,
        );
        Bird {
            position: Vec3 { x: x.0 as i64, y: y.0 as i64, z: z.0 as i64 },
            velocity: Vec3 { x: x.1 as i64, y: y.1 as i64, z: z.1 as i64 },
            acceleration: Vec3 { x: 0, y: 0, z: 0 },
        }
    }

    /// Squared distance between the positions of two birds.
    pub open spec fn distance_sq(self, other: Bird) -> int {
        let dx = self.position.x - other.position.x;
        let dy = self.position.y - other.position.y;
        let dz = self.position.z - other.position.z;
        dx * dx + dy * dy + dz * dz
    }

    /// Distance between the positions of two birds, rounded down.
    pub open spec fn distance(self, other: Bird) -> int {
        floor_sqrt(self.distance_sq(other))
    }

    /// The bird that six raw draws give: each position component spread over
    /// the box, each velocity component over `[-INITIAL_SPEED, INITIAL_SPEED)`,
    /// no acceleration.
    pub open spec fn scattered(position: (u32, u32, u32), velocity: (u32, u32, u32), config: Config) -> Bird {
        Bird {
            position: Vec3 {
                x: spread(position.0, config.boundary_half as int) as i64,
                y: spread(position.1, config.boundary_half as int) as i64,
                z: spread(position.2, config.boundary_half as int) as i64,
            },
            velocity: Vec3 {
                x: spread(velocity.0, INITIAL_SPEED as int) as i64,
                y: spread(velocity.1, INITIAL_SPEED as int) as i64,
                z: spread(velocity.2, INITIAL_SPEED as int) as i64,
            },
            acceleration: Vec3 { x: 0, y: 0, z: 0 },
        }
    }

    /// Makes a bird from six raw draws.
    pub fn from_draws(position: (u32, u32, u32), velocity: (u32, u32, u32), config: &Config) -> (bird: Bird)
        requires
            config.wf(),
        ensures
            bird == Bird::scattered(position, velocity, *config),
            bird.steady(),
            bird.position.within(config.boundary_half as int),
            bird.velocity.within(INITIAL_SPEED as int),
    {
        Bird {
            position: Vec3 {
                x: spread_draw(position.0, config.boundary_half),
                y: spread_draw(position.1, config.boundary_half),
                z: spread_draw(position.2, config.boundary_half),
            },
            velocity: Vec3 {
                x: spread_draw(velocity.0, INITIAL_SPEED),
                y: spread_draw(velocity.1, INITIAL_SPEED),
                z: spread_draw(velocity.2, INITIAL_SPEED),
            },
            acceleration: Vec3 { x: 0, y: 0, z: 0 },
        }
    }

    /// Makes a bird at a random place in the box with a random small
    /// velocity. Which bird comes out is not determined; what holds of every
    /// outcome is stated.
    pub fn new(config: &Config) -> (bird: Bird)
        requires
            config.wf(),
        ensures
            exists|position: (u32, u32, u32), velocity: (u32, u32, u32)|
                bird == #[trigger] Bird::scattered(position, velocity, *config),
            bird.steady(),
            bird.acceleration == (Vec3 { x: 0, y: 0, z: 0 }),
            bird.position.within(config.boundary_half as int),
            bird.velocity.within(INITIAL_SPEED as int),
    {
        let px: u32 = draw();
        let py: u32 = draw();
        let pz: u32 = draw();
        let vx: u32 = draw();
        let vy: u32 = draw();
        let vz: u32 = draw();
        Bird::from_draws((px, py, pz), (vx, vy, vz), config)
    }

    /// Adds `force` to the acceleration gathered so far.
    pub fn apply_force(&mut self, force: Vec3)
        requires
            -FORCE_MAX <= old(self).acceleration.x + force.x <= FORCE_MAX,
            -FORCE_MAX <= old(self).acceleration.y + force.y <= FORCE_MAX,
            -FORCE_MAX <= old(self).acceleration.z + force.z <= FORCE_MAX,
        ensures
            final(self).position == old(self).position,
            final(self).velocity == old(self).velocity,
            final(self).acceleration.x == old(self).acceleration.x + force.x,
            final(self).acceleration.y == old(self).acceleration.y + force.y,
            final(self).acceleration.z == old(self).acceleration.z + force.z,
    {
        self.acceleration.x = self.acceleration.x + force.x;
        self.acceleration.y = self.acceleration.y + force.y;
        self.acceleration.z = self.acceleration.z + force.z;
    }

    /// Tells whether a step can be computed: see `bounded`.
    pub fn is_bounded(&self) -> (r: bool)
        ensures
            r == self.bounded(),
    {
        self.position.fits(FORCE_MAX) && self.velocity.fits(FORCE_MAX) && self.acceleration.fits(
            FORCE_MAX,
        )
    }

    /// Tells whether every component is at most `COORD_MAX`.
    pub fn is_steady(&self) -> (r: bool)
        ensures
            r == self.steady(),
    {
        self.position.fits(COORD_MAX) && self.velocity.fits(COORD_MAX) && self.acceleration.fits(
            COORD_MAX,
        )
    }

    /// Squared distance to `other`.
    pub fn distance_sq_to(&self, other: &Bird) -> (d: u128)
        requires
            self.position.within(FORCE_MAX as int),
            other.position.within(FORCE_MAX as int),
        ensures
            d == self.distance_sq(*other),
    {
        let dx: i64 = self.position.x - other.position.x;
        let dy: i64 = self.position.y - other.position.y;
        let dz: i64 = self.position.z - other.position.z;
        square(dx) + square(dy) + square(dz)
    }

    /// Distance to `other`, rounded down to a whole millionth.
    pub fn distance_to(&self, other: &Bird) -> (d: u64)
        requires
            self.position.within(FORCE_MAX as int),
            other.position.within(FORCE_MAX as int),
        ensures
            d == self.distance(*other),
            d * d <= self.distance_sq(*other) < (d + 1) * (d + 1),
    {
        isqrt(self.distance_sq_to(other))
    }

    /// One integration step. For the axes x, y and z in turn: the
    /// acceleration is added to the velocity component; where the length of
    /// the whole velocity, taken anew with the components as they then
    /// stand, exceeds the speed cap, this one component is scaled by the cap
    /// over that length; the component is added to the position; a position
    /// beyond a wall is set onto the wall and the component reversed and
    /// reduced; the acceleration is cleared.
    pub fn update(&mut self, config: &Config)
        requires
            old(self).bounded(),
            config.wf(),
        ensures
            *final(self) == old(self).integrated(*config),
            final(self).settled(*config),
            final(self).steady(),
    {
        let x = advance(
            self.position.x,
            self.velocity.x,
            self.acceleration.x,
            self.velocity.y,
            self.velocity.z,
            config,
        );
        let y = advance(
            self.position.y,
            self.velocity.y,
            self.acceleration.y,
            x.1,
            self.velocity.z,
            config,
        );
        let z = advance(
            self.position.z,
            self.velocity.z,
            self.acceleration.z,
            x.1,
            y.1,
            config,
        );
        self.position = Vec3 { x: x.0, y: y.0, z: z.0 };
        self.velocity = Vec3 { x: x.1, y: y.1, z: z.1 };
        self.acceleration = Vec3 { x: 0, y: 0, z: 0 };
    }
}

/// Spreads a raw draw over `[-half, half)`.
pub fn spread_draw(word: u32, half: i64) -> (r: i64)
    requires
        0 <= half <= COORD_MAX,
    ensures
        r == spread(word, half as int),
        -half <= r <= half,
{
    let width: u64 = 2 * (half as u64);
    assert(word * width <= 0xffff_ffff * 0x8000_0000 && word * width <= 0xffff_ffff * width)
        by (nonlinear_arith)
        requires
            0 <= word <= 0xffff_ffff,
            0 <= width <= 0x8000_0000,
    ;
    let product: u64 = (word as u64) * width;
    let place: u64 = product / 0x1_0000_0000;
    (place as i64) - half
}

/// One axis of a step: adds the acceleration, caps the speed, moves, and
/// bounces off the wall.
pub fn advance(pos: i64, vel: i64, acc: i64, side_a: i64, side_b: i64, config: &Config) -> (out: (i64, i64))
    requires
        config.wf(),
        -FORCE_MAX <= pos <= FORCE_MAX,
        -FORCE_MAX <= vel <= FORCE_MAX,
        -FORCE_MAX <= acc <= FORCE_MAX,
        -FORCE_MAX <= side_a <= FORCE_MAX,
        -FORCE_MAX <= side_b <= FORCE_MAX,
    ensures
        out.0 as int == advanced(pos as int, vel as int, acc as int, side_a as int, side_b as int, *config).0,
        out.1 as int == advanced(pos as int, vel as int, acc as int, side_a as int, side_b as int, *config).1,
        -config.boundary_half <= out.0 <= config.boundary_half,
        -config.max_speed <= out.1 <= config.max_speed,
{
    let raised: i64 = vel + acc;
    let length_sq: u128 = square(raised) + square(side_a) + square(side_b);
    let speed: u64 = isqrt(length_sq);
    proof {
        lemma_component_within_length(
            raised as int,
            side_a * side_a + side_b * side_b,
            speed as int,
        );
    }
    let mut v: i64 = raised;
    if speed > config.max_speed as u64 {
        assert(-0x2000_0000_0000_0000 * 0x4000_0000 <= raised * config.max_speed
            <= 0x2000_0000_0000_0000 * 0x4000_0000) by (nonlinear_arith)
            requires
                -0x2000_0000_0000_0000 <= raised <= 0x2000_0000_0000_0000,
                0 <= config.max_speed <= 0x4000_0000,
        ;
        proof {
            lemma_capped_within(raised as int, config.max_speed as int, speed as int);
        }
        let q: i128 = div_toward_zero((raised as i128) * (config.max_speed as i128), speed as i128);
        v = q as i64;
    }
    let p: i64 = pos + v;
    if p > config.boundary_half || p < -config.boundary_half {
        assert(-0x4000_0000 * 800_000 <= -v * RESTITUTION <= 0x4000_0000 * 800_000);
        let turned: i128 = div_toward_zero(-(v as i128) * (RESTITUTION as i128), ONE as i128);
        assert(magnitude(turned as int) <= magnitude(v as int)) by {
            assert(magnitude(-v * RESTITUTION) == magnitude(v as int) * 800_000);
            assert(magnitude(turned as int) == magnitude(-v * RESTITUTION) / 1_000_000);
        }
        let edge: i64 = if p > 0 { config.boundary_half } else { -config.boundary_half };
        (edge, turned as i64)
    } else {
        (p, v)
    }
}

} // verus!
