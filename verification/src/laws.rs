//! Laws of the simulation: what holds of every bird, every flock and every
//! tick.

use vstd::prelude::*;
use crate::bird::{advanced, capped, rebound, Bird, RESTITUTION};
use crate::config::Config;
use crate::fixed::{
    floor_sqrt, is_floor_sqrt, lemma_capped_within, lemma_component_within_length,
    lemma_floor_sqrt_below, lemma_floor_sqrt_exists, lemma_floor_sqrt_unique, magnitude,
};
use crate::flock::ticked;
use crate::steering::{is_neighbour, neighbour_count, stepped};

verus! {

/// A bounce never makes a velocity component longer.
pub proof fn rebound_not_longer(v: int)
    ensures
        magnitude(rebound(v)) <= magnitude(v),
{
    assert(magnitude(-v * RESTITUTION) == magnitude(v) * 800_000);
    assert(magnitude(rebound(v)) == magnitude(-v * RESTITUTION) / 1_000_000);
}

/// Whatever the state before it, one axis of a step leaves the position
/// inside the box and the velocity component no longer than the speed cap.
pub proof fn advanced_is_contained(pos: int, vel: int, acc: int, side_a: int, side_b: int, config: Config)
    requires
        config.wf(),
    ensures
        -config.boundary_half <= advanced(pos, vel, acc, side_a, side_b, config).0
            <= config.boundary_half,
        -config.max_speed <= advanced(pos, vel, acc, side_a, side_b, config).1
            <= config.max_speed,
{
    let raised = vel + acc;
    let rest = side_a * side_a + side_b * side_b;
    assert(0 <= rest && 0 <= raised * raised) by (nonlinear_arith)
        requires
            rest == side_a * side_a + side_b * side_b,
    ;
    let speed = floor_sqrt(raised * raised + rest);
    lemma_floor_sqrt_exists(raised * raised + rest);
    lemma_component_within_length(raised, rest, speed);
    let v = capped(raised, speed, config.max_speed as int);
    if speed > config.max_speed {
        lemma_capped_within(raised, config.max_speed as int, speed);
    }
    rebound_not_longer(v);
}

/// Speed cap, containment and reset: after a step, whatever the bird was
/// before, no velocity component exceeds the speed cap, every coordinate
/// lies within the box, and the acceleration is zero.
pub proof fn integrated_is_settled(bird: Bird, config: Config)
    requires
        config.wf(),
    ensures
        bird.integrated(config).settled(config),
        bird.integrated(config).steady(),
{
    let x = advanced(
        bird.position.x as int,
        bird.velocity.x as int,
        bird.acceleration.x as int,
        bird.velocity.y as int,
        bird.velocity.z as int,
        config,
    );
    advanced_is_contained(
        bird.position.x as int,
        bird.velocity.x as int,
        bird.acceleration.x as int,
        bird.velocity.y as int,
        bird.velocity.z as int,
        config,
    );
    let y = advanced(
        bird.position.y as int,
        bird.velocity.y as int,
        bird.acceleration.y as int,
        x.1,
        bird.velocity.z as int,
        config,
    );
    advanced_is_contained(
        bird.position.y as int,
        bird.velocity.y as int,
        bird.acceleration.y as int,
        x.1,
        bird.velocity.z as int,
        config,
    );
    advanced_is_contained(
        bird.position.z as int,
        bird.velocity.z as int,
        bird.acceleration.z as int,
        x.1,
        y.1,
        config,
    );
}

/// Where the other two velocity components are zero, the speed taken anew
/// after an axis has been treated is at most the speed cap.
pub proof fn cap_holds_along_one_axis(pos: int, vel: int, acc: int, config: Config)
    requires
        config.wf(),
    ensures
        ({
            let v = advanced(pos, vel, acc, 0, 0, config).1;
            floor_sqrt(v * v + 0 * 0 + 0 * 0) <= config.max_speed
        }),
{
    advanced_is_contained(pos, vel, acc, 0, 0, config);
    let v = advanced(pos, vel, acc, 0, 0, config).1;
    let length = magnitude(v);
    assert(is_floor_sqrt(v * v + 0 * 0 + 0 * 0, length)) by (nonlinear_arith)
        requires
            length == v || length == -v,
            0 <= length,
    ;
    lemma_floor_sqrt_unique(v * v + 0 * 0 + 0 * 0, length);
}

/// After a step the squared speed is at most three times the squared speed
/// cap: the cap holds of each component, not of the vector, whose length can
/// exceed it by a factor of the square root of three at most.
pub proof fn speed_after_step(bird: Bird, config: Config)
    requires
        config.wf(),
    ensures
        bird.integrated(config).velocity.norm_sq() <= 3 * (config.max_speed * config.max_speed),
{
    integrated_is_settled(bird, config);
    let v = bird.integrated(config).velocity;
    let m = config.max_speed as int;
    assert(v.x * v.x <= m * m) by (nonlinear_arith)
        requires
            -m <= v.x <= m,
    ;
    assert(v.y * v.y <= m * m) by (nonlinear_arith)
        requires
            -m <= v.y <= m,
    ;
    assert(v.z * v.z <= m * m) by (nonlinear_arith)
        requires
            -m <= v.z <= m,
    ;
}

/// A bird is never its own neighbour, although its distance to itself is
/// zero: among `n` birds it counts at most `n - 1`.
pub proof fn never_own_neighbour(flock: Seq<Bird>, i: int, radius: int)
    requires
        0 <= i < flock.len(),
    ensures
        !is_neighbour(flock, i, i, radius),
        neighbour_count(flock, i, flock.len() as int, radius) <= flock.len() - 1,
{
    count_skips_self(flock, i, flock.len() as int, radius);
}

/// Among the first `k` birds, bird `i` counts at most `k` neighbours, and at
/// most `k - 1` once `k` is past `i`.
pub proof fn count_skips_self(flock: Seq<Bird>, i: int, k: int, radius: int)
    requires
        0 <= i,
        0 <= k,
    ensures
        0 <= neighbour_count(flock, i, k, radius) <= k,
        i < k ==> neighbour_count(flock, i, k, radius) <= k - 1,
    decreases k,
{
    if k > 0 {
        count_skips_self(flock, i, k - 1, radius);
    }
}

/// The radius is exclusive: another bird is a neighbour exactly when the
/// squared distance is below the squared radius, so a bird at the radius
/// itself is not a neighbour and every bird nearer than that is.
pub proof fn radius_is_exclusive(flock: Seq<Bird>, i: int, j: int, radius: int)
    requires
        0 <= i < flock.len(),
        0 <= j < flock.len(),
        i != j,
        0 <= radius,
    ensures
        is_neighbour(flock, i, j, radius) <==> flock[i].distance_sq(flock[j]) < radius * radius,
        flock[i].distance_sq(flock[j]) == radius * radius ==> !is_neighbour(flock, i, j, radius),
        flock[i].distance(flock[j]) == radius ==> !is_neighbour(flock, i, j, radius),
        flock[i].distance(flock[j]) < radius ==> is_neighbour(flock, i, j, radius),
{
    let n = flock[i].distance_sq(flock[j]);
    let dx = flock[i].position.x - flock[j].position.x;
    let dy = flock[i].position.y - flock[j].position.y;
    let dz = flock[i].position.z - flock[j].position.z;
    assert(0 <= dx * dx + dy * dy + dz * dz) by (nonlinear_arith);
    lemma_floor_sqrt_exists(n);
    lemma_floor_sqrt_below(n, radius);
}

/// A tick is a function of the flock as it stood before and of the
/// configuration: each bird's next state is computed from that state alone,
/// so equal flocks give equal flocks, in whatever order or on however many
/// threads the birds are treated.
pub proof fn tick_is_determined(before: Seq<Bird>, again: Seq<Bird>, config: Config)
    requires
        before == again,
    ensures
        ticked(before, config) == ticked(again, config),
        ticked(before, config).len() == before.len(),
        forall|i: int|
            0 <= i < before.len() ==> #[trigger] ticked(before, config)[i] == stepped(
                before,
                i,
                config,
            ),
{
}

} // verus!
