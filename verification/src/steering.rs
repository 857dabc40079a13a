//! The neighbour scan and the forces that steer one bird.

use vstd::prelude::*;
use crate::bird::{Axis, Bird, Vec3};
use crate::config::{Config, POPULATION_MAX};
use crate::fixed::{
    div_toward_zero, magnitude, scale, scaled, trunc_div, COORD_MAX, ONE, SCALE_OUTPUT_MAX,
    WEIGHT_MAX,
};

verus! {

/// Width of the band inside each wall in which the wall pushes back.
pub const MARGIN: i64 = ONE;

/// Largest magnitude of what one neighbour adds to a sum.
pub const SPAN: i64 = 0x8000_0000;

/// The three flocking rules.
#[derive(Clone, Copy, Debug, PartialEq, Eq)]
pub enum Rule {
    Separation,
    Alignment,
    Cohesion,
}

/// Bird `j` is a neighbour of bird `i`: another bird, at a distance strictly
/// below `radius`. A bird is told from another by its index alone.
pub open spec fn is_neighbour(flock: Seq<Bird>, i: int, j: int, radius: int) -> bool {
    j != i && flock[i].distance(flock[j]) < radius
}

/// What the neighbour `other` adds to the sum that `me` keeps for `rule`.
pub open spec fn contribution(me: Bird, other: Bird, rule: Rule, axis: Axis) -> int {
    match rule {
        Rule::Separation => me.position.along(axis) - other.position.along(axis),
        Rule::Alignment => other.velocity.along(axis),
        Rule::Cohesion => other.position.along(axis),
    }
}

/// Number of neighbours of bird `i` among the first `k` birds.
pub open spec fn neighbour_count(flock: Seq<Bird>, i: int, k: int, radius: int) -> int
    decreases k,
{
    if k <= 0 {
        0
    } else {
        neighbour_count(flock, i, k - 1, radius) + if is_neighbour(flock, i, k - 1, radius) {
            1int
        } else {
            0int
        }
    }
}

/// Sum of the contributions to `rule` of the neighbours of bird `i` among the
/// first `k` birds.
pub open spec fn neighbour_sum(
    flock: Seq<Bird>,
    i: int,
    k: int,
    radius: int,
    rule: Rule,
    axis: Axis,
) -> int
    decreases k,
{
    if k <= 0 {
        0
    } else {
        neighbour_sum(flock, i, k - 1, radius, rule, axis) + if is_neighbour(
            flock,
            i,
            k - 1,
            radius,
        ) {
            contribution(flock[i], flock[k - 1], rule, axis)
        } else {
            0int
        }
    }
}

/// The three sums of one rule, as one vector.
pub open spec fn sums_are(v: Vec3, flock: Seq<Bird>, i: int, k: int, radius: int, rule: Rule) -> bool {
    &&& v.x == neighbour_sum(flock, i, k, radius, rule, Axis::X)
    &&& v.y == neighbour_sum(flock, i, k, radius, rule, Axis::Y)
    &&& v.z == neighbour_sum(flock, i, k, radius, rule, Axis::Z)
}

/// A flock that a scan can run on: not too many birds, each of them steady.
pub open spec fn flock_ok(flock: Seq<Bird>) -> bool {
    &&& flock.len() <= POPULATION_MAX
    &&& forall|j: int| 0 <= j < flock.len() ==> (#[trigger] flock[j]).steady()
}

/// What one bird has gathered from its neighbours.
#[derive(Clone, Copy, Debug, PartialEq, Eq)]
pub struct Tally {
    /// Sum of the offsets from each neighbour to the bird.
    pub separation: Vec3,
    /// Sum of the neighbours' velocities.
    pub alignment: Vec3,
    /// Sum of the neighbours' positions.
    pub cohesion: Vec3,
    /// Number of neighbours.
    pub count: usize,
}

impl Tally {
    /// The tally holds the count and the sums of bird `i` over the first `k`
    /// birds.
    pub open spec fn covers(self, flock: Seq<Bird>, i: int, k: int, radius: int) -> bool {
        &&& self.count == neighbour_count(flock, i, k, radius)
        &&& sums_are(self.separation, flock, i, k, radius, Rule::Separation)
        &&& sums_are(self.alignment, flock, i, k, radius, Rule::Alignment)
        &&& sums_are(self.cohesion, flock, i, k, radius, Rule::Cohesion)
    }

    /// No sum is larger than `k` contributions can make it.
    pub open spec fn within(self, k: int) -> bool {
        &&& 0 <= self.count <= k
        &&& self.separation.within(self.count * SPAN)
        &&& self.alignment.within(self.count * SPAN)
        &&& self.cohesion.within(self.count * SPAN)
    }
}

/// Scans the whole flock for the neighbours of bird `i` and sums what each
/// of them adds to the three rules.
pub fn survey(flock: &Vec<Bird>, i: usize, config: &Config) -> (tally: Tally)
    requires
        flock_ok(flock@),
        i < flock.len(),
        config.wf(),
    ensures
        tally.covers(flock@, i as int, flock@.len() as int, config.neighbour_radius as int),
        tally.within(flock@.len() as int),
{
    let me: Bird = flock[i];
    let mut tally = Tally {
        separation: Vec3 { x: 0, y: 0, z: 0 },
        alignment: Vec3 { x: 0, y: 0, z: 0 },
        cohesion: Vec3 { x: 0, y: 0, z: 0 },
        count: 0,
    };
    let mut j: usize = 0;
    while j < flock.len()
        invariant
            flock_ok(flock@),
            i < flock.len(),
            me == flock@[i as int],
            config.wf(),
            j <= flock.len(),
            tally.covers(flock@, i as int, j as int, config.neighbour_radius as int),
            tally.within(j as int),
        decreases flock.len() - j,
    {
        let other: Bird = flock[j];
        assert(other.steady());
        assert(me.steady());
        if j != i {
            let d: u64 = me.distance_to(&other);
            if d < config.neighbour_radius as u64 {
                tally.separation = Vec3 {
                    x: tally.separation.x + (me.position.x - other.position.x),
                    y: tally.separation.y + (me.position.y - other.position.y),
                    z: tally.separation.z + (me.position.z - other.position.z),
                };
                tally.alignment = Vec3 {
                    x: tally.alignment.x + other.velocity.x,
                    y: tally.alignment.y + other.velocity.y,
                    z: tally.alignment.z + other.velocity.z,
                };
                tally.cohesion = Vec3 {
                    x: tally.cohesion.x + other.position.x,
                    y: tally.cohesion.y + other.position.y,
                    z: tally.cohesion.z + other.position.z,
                };
                tally.count = tally.count + 1;
            }
        }
        j = j + 1;
    }
    tally
}

/// Force of the separation rule along one axis.
pub open spec fn separation_force(sum: int, weight: int) -> int {
    scaled(sum, weight)
}

/// Force of a rule that steers toward the neighbours' mean: the mean of the
/// summed values less the bird's own value, times the weight.
pub open spec fn mean_force(sum: int, count: int, own: int, weight: int) -> int {
    scaled(trunc_div(sum, count) - own, weight)
}

/// Force of the three rules together on bird `i` along `axis`: zero for a
/// bird without neighbours.
pub open spec fn flocking_force(flock: Seq<Bird>, i: int, axis: Axis, config: Config) -> int {
    let n = flock.len() as int;
    let radius = config.neighbour_radius as int;
    let count = neighbour_count(flock, i, n, radius);
    if count > 0 {
        separation_force(
            neighbour_sum(flock, i, n, radius, Rule::Separation, axis),
            config.separation_weight as int,
        ) + mean_force(
            neighbour_sum(flock, i, n, radius, Rule::Alignment, axis),
            count,
            flock[i].velocity.along(axis),
            config.alignment_weight as int,
        ) + mean_force(
            neighbour_sum(flock, i, n, radius, Rule::Cohesion, axis),
            count,
            flock[i].position.along(axis),
            config.cohesion_weight as int,
        )
    } else {
        0
    }
}

/// Gravity pulls along the negative y axis only.
pub open spec fn gravity_force(axis: Axis, config: Config) -> int {
    match axis {
        Axis::X => 0,
        Axis::Y => -config.gravity,
        Axis::Z => 0,
    }
}

/// A coordinate lies in the band near a wall, or beyond it.
pub open spec fn near_wall(p: int, config: Config) -> bool {
    magnitude(p) > config.boundary_half - MARGIN
}

/// Push of the walls on a coordinate: toward the centre inside the band near
/// a wall, nothing elsewhere. A coordinate of zero counts as positive.
pub open spec fn wall_force(p: int, config: Config) -> int {
    if near_wall(p, config) {
        if p >= 0 { -config.boundary_force } else { config.boundary_force as int }
    } else {
        0
    }
}

/// Acceleration of bird `i` along `axis` once every force of the tick has
/// been applied.
pub open spec fn total_force(flock: Seq<Bird>, i: int, axis: Axis, config: Config) -> int {
    flock[i].acceleration.along(axis) + flocking_force(flock, i, axis, config) + gravity_force(
        axis,
        config,
    ) + wall_force(flock[i].position.along(axis), config)
}

/// Bird `i` with the forces of the tick applied and not yet integrated.
pub open spec fn steered(flock: Seq<Bird>, i: int, config: Config) -> Bird {
    Bird {
        position: flock[i].position,
        velocity: flock[i].velocity,
        acceleration: Vec3 {
            x: total_force(flock, i, Axis::X, config) as i64,
            y: total_force(flock, i, Axis::Y, config) as i64,
            z: total_force(flock, i, Axis::Z, config) as i64,
        },
    }
}

/// Bird `i` after the tick, computed from the flock as it stood before.
pub open spec fn stepped(flock: Seq<Bird>, i: int, config: Config) -> Bird {
    steered(flock, i, config).integrated(config)
}

/// Computes `mean_force`.
pub fn mean_pull(sum: i64, count: usize, own: i64, weight: i64) -> (r: i64)
    requires
        1 <= count <= POPULATION_MAX,
        -count * SPAN <= sum <= count * SPAN,
        -COORD_MAX <= own <= COORD_MAX,
        0 <= weight <= WEIGHT_MAX,
    ensures
        r == mean_force(sum as int, count as int, own as int, weight as int),
        -SCALE_OUTPUT_MAX <= r <= SCALE_OUTPUT_MAX,
{
    let mean: i128 = div_toward_zero(sum as i128, count as i128);
    let gap: i64 = (mean as i64) - own;
    scale(gap, weight)
}

/// Computes `wall_force`.
pub fn wall_push(p: i64, config: &Config) -> (r: i64)
    requires
        config.wf(),
        -COORD_MAX <= p <= COORD_MAX,
    ensures
        r == wall_force(p as int, *config),
        -config.boundary_force <= r <= config.boundary_force,
{
    let reach: i64 = if p >= 0 { p } else { -p };
    if reach > config.boundary_half - MARGIN {
        if p >= 0 { -config.boundary_force } else { config.boundary_force }
    } else {
        0
    }
}

/// The whole tick for bird `i`: scans `flock` for its neighbours, applies the
/// flocking forces, gravity and the push of the walls, and integrates.
/// `flock` is read and never written, so every bird of a tick can be
/// computed from the same state, in any order.
pub fn steer(flock: &Vec<Bird>, i: usize, config: &Config) -> (bird: Bird)
    requires
        flock_ok(flock@),
        i < flock.len(),
        config.wf(),
    ensures
        bird == stepped(flock@, i as int, *config),
        bird.settled(*config),
        bird.steady(),
{
    let tally: Tally = survey(flock, i, config);
    let mut bird: Bird = flock[i];
    assert(bird.steady());
    if tally.count > 0 {
        assert(tally.count * SPAN <= 0x1_0000 * 0x8000_0000) by (nonlinear_arith)
            requires
                0 <= tally.count <= 0x1_0000,
                SPAN == 0x8000_0000,
        ;
        let separation = Vec3 {
            x: scale(tally.separation.x, config.separation_weight),
            y: scale(tally.separation.y, config.separation_weight),
            z: scale(tally.separation.z, config.separation_weight),
        };
        let alignment = Vec3 {
            x: mean_pull(tally.alignment.x, tally.count, bird.velocity.x, config.alignment_weight),
            y: mean_pull(tally.alignment.y, tally.count, bird.velocity.y, config.alignment_weight),
            z: mean_pull(tally.alignment.z, tally.count, bird.velocity.z, config.alignment_weight),
        };
        let cohesion = Vec3 {
            x: mean_pull(tally.cohesion.x, tally.count, bird.position.x, config.cohesion_weight),
            y: mean_pull(tally.cohesion.y, tally.count, bird.position.y, config.cohesion_weight),
            z: mean_pull(tally.cohesion.z, tally.count, bird.position.z, config.cohesion_weight),
        };
        bird.apply_force(separation);
        bird.apply_force(alignment);
        bird.apply_force(cohesion);
    }
    bird.apply_force(Vec3 { x: 0, y: -config.gravity, z: 0 });
    let push_x: i64 = wall_push(bird.position.x, config);
    if push_x != 0 {
        bird.apply_force(Vec3 { x: push_x, y: 0, z: 0 });
    }
    let push_y: i64 = wall_push(bird.position.y, config);
    if push_y != 0 {
        bird.apply_force(Vec3 { x: 0, y: push_y, z: 0 });
    }
    let push_z: i64 = wall_push(bird.position.z, config);
    if push_z != 0 {
        bird.apply_force(Vec3 { x: 0, y: 0, z: push_z });
    }
    assert(bird == steered(flock@, i as int, *config));
    bird.update(config);
    bird
}

} // verus!
