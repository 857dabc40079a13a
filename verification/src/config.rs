//! The parameters of a simulation, fixed when a flock is made.

use vstd::prelude::*;
use crate::fixed::{COORD_MAX, WEIGHT_MAX};

verus! {

/// Most birds that one flock can hold.
pub const POPULATION_MAX: usize = 0x1_0000;

/// Simulation parameters, in millionths of a world unit (weights: millionths
/// of a factor).
#[derive(Clone, Copy, Debug, PartialEq, Eq)]
pub struct Config {
    /// Speed above which a velocity component is scaled down.
    pub max_speed: i64,
    /// Distance below which another bird is a neighbour.
    pub neighbour_radius: i64,
    /// Factor on the summed offsets from the neighbours.
    pub separation_weight: i64,
    /// Factor on the difference to the neighbours' mean velocity.
    pub alignment_weight: i64,
    /// Factor on the difference to the neighbours' mean position.
    pub cohesion_weight: i64,
    /// Downward acceleration added on every tick.
    pub gravity: i64,
    /// Half of the box's edge: positions stay within this of the origin.
    pub boundary_half: i64,
    /// Acceleration that pushes a bird near a wall back inside.
    pub boundary_force: i64,
}

/// Why a configuration, a population or a bird was refused.
#[derive(Clone, Copy, Debug, PartialEq, Eq)]
pub enum ConfigError {
    /// The named field of the configuration is out of range (this and the
    /// seven that follow).
    MaxSpeed,
    NeighbourRadius,
    SeparationWeight,
    AlignmentWeight,
    CohesionWeight,
    Gravity,
    BoundaryHalf,
    BoundaryForce,
    /// More birds than `POPULATION_MAX`.
    Population,
    /// A bird with a component of magnitude above `COORD_MAX`.
    BirdOutOfRange,
    /// Fewer raw draws than the birds take.
    Draws,
}

/// A length, speed or force constant is between zero and `COORD_MAX`.
pub open spec fn length_ok(v: i64) -> bool {
    0 <= v <= COORD_MAX
}

/// A weight is between zero and `WEIGHT_MAX`.
pub open spec fn weight_ok(v: i64) -> bool {
    0 <= v <= WEIGHT_MAX
}

impl Config {
    /// The first field, in declaration order, that is out of range.
    pub open spec fn fault(self) -> Option<ConfigError> {
        if !length_ok(self.max_speed) {
            Some(ConfigError::MaxSpeed)
        } else if !length_ok(self.neighbour_radius) {
            Some(ConfigError::NeighbourRadius)
        } else if !weight_ok(self.separation_weight) {
            Some(ConfigError::SeparationWeight)
        } else if !weight_ok(self.alignment_weight) {
            Some(ConfigError::AlignmentWeight)
        } else if !weight_ok(self.cohesion_weight) {
            Some(ConfigError::CohesionWeight)
        } else if !length_ok(self.gravity) {
            Some(ConfigError::Gravity)
        } else if !length_ok(self.boundary_half) {
            Some(ConfigError::BoundaryHalf)
        } else if !length_ok(self.boundary_force) {
            Some(ConfigError::BoundaryForce)
        } else {
            None
        }
    }

    /// Every field is in range.
    pub open spec fn wf(self) -> bool {
        &&& length_ok(self.max_speed)
        &&& length_ok(self.neighbour_radius)
        &&& weight_ok(self.separation_weight)
        &&& weight_ok(self.alignment_weight)
        &&& weight_ok(self.cohesion_weight)
        &&& length_ok(self.gravity)
        &&& length_ok(self.boundary_half)
        &&& length_ok(self.boundary_force)
    }

    /// The customary parameters: speed cap 0.02, radius 1, weights 1.5, 1 and
    /// 1, gravity 0.0005, a box of edge 5 and wall force 0.1.
    pub fn standard() -> (c: Config)
        ensures
            c.wf(),
            c == (Config {
                max_speed: 20_000,
                neighbour_radius: 1_000_000,
                separation_weight: 1_500_000,
                alignment_weight: 1_000_000,
                cohesion_weight: 1_000_000,
                gravity: 500,
                boundary_half: 2_500_000,
                boundary_force: 100_000,
            }),
    {
        Config {
            max_speed: 20_000,
            neighbour_radius: 1_000_000,
            separation_weight: 1_500_000,
            alignment_weight: 1_000_000,
            cohesion_weight: 1_000_000,
            gravity: 500,
            boundary_half: 2_500_000,
            boundary_force: 100_000,
        }
    }

    /// Accepts a configuration whose fields are all in range, and names the
    /// first field that is not.
    pub fn validate(&self) -> (r: Result<(), ConfigError>)
        ensures
            r.is_ok() <==> self.wf(),
            r.is_ok() <==> self.fault().is_none(),
            r.is_err() ==> self.fault() == Some(r.unwrap_err()),
    {
        if self.max_speed < 0 || self.max_speed > COORD_MAX {
            Err(ConfigError::MaxSpeed)
        } else if self.neighbour_radius < 0 || self.neighbour_radius > COORD_MAX {
            Err(ConfigError::NeighbourRadius)
        } else if self.separation_weight < 0 || self.separation_weight > WEIGHT_MAX {
            Err(ConfigError::SeparationWeight)
        } else if self.alignment_weight < 0 || self.alignment_weight > WEIGHT_MAX {
            Err(ConfigError::AlignmentWeight)
        } else if self.cohesion_weight < 0 || self.cohesion_weight > WEIGHT_MAX {
            Err(ConfigError::CohesionWeight)
        } else if self.gravity < 0 || self.gravity > COORD_MAX {
            Err(ConfigError::Gravity)
        } else if self.boundary_half < 0 || self.boundary_half > COORD_MAX {
            Err(ConfigError::BoundaryHalf)
        } else if self.boundary_force < 0 || self.boundary_force > COORD_MAX {
            Err(ConfigError::BoundaryForce)
        } else {
            Ok(())
        }
    }
}

} // verus!
