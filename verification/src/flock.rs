//! The flock: a fixed population of birds and the tick that moves them.

use rayon::iter::{IntoParallelIterator, ParallelIterator};
use vstd::prelude::*;
use crate::bird::{Bird, Vec3, INITIAL_SPEED};
use crate::config::{Config, ConfigError, POPULATION_MAX};
use crate::laws::integrated_is_settled;
use crate::steering::{flock_ok, steer, steered, stepped};

verus! {

/// The flock after one tick: every bird stepped from the flock as it stood
/// before the tick.
pub open spec fn ticked(flock: Seq<Bird>, config: Config) -> Seq<Bird> {
    Seq::new(flock.len(), |i: int| stepped(flock, i, config))
}

/// Why `population` birds under `config` cannot be set up, if they cannot.
pub open spec fn setup_fault(population: int, config: Config) -> Option<ConfigError> {
    if config.fault().is_some() {
        config.fault()
    } else if population > POPULATION_MAX {
        Some(ConfigError::Population)
    } else {
        None
    }
}

/// Runs `steer` for every index of the flock through rayon: a parallel
/// iterator over the range of indices (`into_par_iter`), `map`, and
/// `collect` into a vector. The contract claims that the vector has one
/// entry per index, in the order of the indices (rayon collects an indexed
/// iterator in order), and that each entry is what `steer` returns for its
/// index.
#[verifier::external_body]
pub(crate) fn steer_all(flock: &Vec<Bird>, config: &Config) -> (next: Vec<Bird>)
    requires
        flock_ok(flock@),
        config.wf(),
    ensures
        next@ == ticked(flock@, *config),
{
    (0..flock.len()).into_par_iter().map(|i| steer(flock, i, config)).collect()
}

/// A fixed population of birds with the configuration they move under.
#[derive(Debug)]
pub struct Flock {
    birds: Vec<Bird>,
    config: Config,
}

impl Flock {
    /// The birds, in their fixed order.
    pub closed spec fn view(&self) -> Seq<Bird> {
        self.birds@
    }

    /// The configuration that the flock was made with.
    pub closed spec fn settings(&self) -> Config {
        self.config
    }

    /// The configuration is valid, the population is within its limit and
    /// every bird is steady.
    pub open spec fn wf(&self) -> bool {
        &&& self.settings().wf()
        &&& flock_ok(self@)
    }

    /// Some six raw draws give `bird` under `config`.
    pub open spec fn placed(bird: Bird, config: Config) -> bool {
        exists|position: (u32, u32, u32), velocity: (u32, u32, u32)|
            bird == #[trigger] Bird::scattered(position, velocity, config)
    }

    /// Makes a flock of `population` birds, each at a random place in the box
    /// with a random small velocity. Fails on an invalid configuration and on
    /// a population above `POPULATION_MAX`.
    pub fn new(population: usize, config: Config) -> (r: Result<Flock, ConfigError>)
        ensures
            r.is_ok() <==> setup_fault(population as int, config).is_none(),
            r.is_err() ==> setup_fault(population as int, config) == Some(r.unwrap_err()),
            r.is_ok() ==> {
                let flock = r.unwrap();
                &&& flock.wf()
                &&& flock.settings() == config
                &&& flock@.len() == population
                &&& forall|j: int|
                    0 <= j < population ==> {
                        &&& (#[trigger] flock@[j]).acceleration == (Vec3 { x: 0, y: 0, z: 0 })
                        &&& flock@[j].position.within(config.boundary_half as int)
                        &&& flock@[j].velocity.within(INITIAL_SPEED as int)
                        &&& Flock::placed(flock@[j], config)
                    }
            },
    {
        match config.validate() {
            Err(e) => {
                return Err(e);
            },
            Ok(_) => {},
        }
        if population > POPULATION_MAX {
            return Err(ConfigError::Population);
        }
        let mut birds: Vec<Bird> = Vec::new();
        let mut k: usize = 0;
        while k < population
            invariant
                config.wf(),
                k <= population,
                birds@.len() == k,
                forall|j: int|
                    0 <= j < k ==> {
                        &&& (#[trigger] birds@[j]).steady()
                        &&& birds@[j].acceleration == (Vec3 { x: 0, y: 0, z: 0 })
                        &&& birds@[j].position.within(config.boundary_half as int)
                        &&& birds@[j].velocity.within(INITIAL_SPEED as int)
                        &&& Flock::placed(birds@[j], config)
                    },
            decreases population - k,
        {
            let bird = Bird::new(&config);
            birds.push(bird);
            k = k + 1;
        }
        Ok(Flock { birds, config })
    }

    /// Bird `k` of a flock made from `draws`: six draws to a bird, three for
    /// the position and then three for the velocity.
    pub open spec fn drawn(draws: Seq<u32>, k: int, config: Config) -> Bird {
        Bird::scattered(
            (draws[6 * k], draws[6 * k + 1], draws[6 * k + 2]),
            (draws[6 * k + 3], draws[6 * k + 4], draws[6 * k + 5]),
            config,
        )
    }

    /// Why `population` birds cannot be made from `draws` raw draws under
    /// `config`, if they cannot.
    pub open spec fn draws_fault(population: int, config: Config, draws: int) -> Option<
        ConfigError,
    > {
        if setup_fault(population, config).is_some() {
            setup_fault(population, config)
        } else if draws < 6 * population {
            Some(ConfigError::Draws)
        } else {
            None
        }
    }

    /// Makes a flock of `population` birds from raw draws that the caller
    /// supplies, six to a bird: the same draws always give the same flock.
    /// Fails as `new` does, and where fewer than `6 * population` draws are
    /// given.
    pub fn from_draws(population: usize, config: Config, draws: &Vec<u32>) -> (r: Result<
        Flock,
        ConfigError,
    >)
        ensures
            r.is_ok() <==> Flock::draws_fault(population as int, config, draws@.len() as int)
                .is_none(),
            r.is_err() ==> Flock::draws_fault(population as int, config, draws@.len() as int)
                == Some(r.unwrap_err()),
            r.is_ok() ==> {
                let flock = r.unwrap();
                &&& flock.wf()
                &&& flock.settings() == config
                &&& flock@.len() == population
                &&& forall|k: int|
                    0 <= k < population ==> #[trigger] flock@[k] == Flock::drawn(
                        draws@,
                        k,
                        config,
                    )
            },
    {
        match config.validate() {
            Err(e) => {
                return Err(e);
            },
            Ok(_) => {},
        }
        if population > POPULATION_MAX {
            return Err(ConfigError::Population);
        }
        if draws.len() < 6 * population {
            return Err(ConfigError::Draws);
        }
        let mut birds: Vec<Bird> = Vec::new();
        let mut k: usize = 0;
        while k < population
            invariant
                config.wf(),
                population <= POPULATION_MAX,
                6 * population <= draws@.len(),
                k <= population,
                birds@.len() == k,
                forall|j: int|
                    0 <= j < k ==> (#[trigger] birds@[j]).steady() && birds@[j] == Flock::drawn(
                        draws@,
                        j,
                        config,
                    ),
            decreases population - k,
        {
            let at: usize = 6 * k;
            let bird = Bird::from_draws(
                (draws[at], draws[at + 1], draws[at + 2]),
                (draws[at + 3], draws[at + 4], draws[at + 5]),
                &config,
            );
            birds.push(bird);
            k = k + 1;
        }
        Ok(Flock { birds, config })
    }

    /// Why `birds` under `config` cannot make a flock, if they cannot.
    pub open spec fn gather_fault(birds: Seq<Bird>, config: Config) -> Option<ConfigError> {
        if setup_fault(birds.len() as int, config).is_some() {
            setup_fault(birds.len() as int, config)
        } else if exists|j: int| 0 <= j < birds.len() && !(#[trigger] birds[j]).steady() {
            Some(ConfigError::BirdOutOfRange)
        } else {
            None
        }
    }

    /// Makes a flock of the given birds, in the given order. Fails on an
    /// invalid configuration, on too many birds, and on a bird with a
    /// component of magnitude above `COORD_MAX`.
    pub fn from_birds(birds: Vec<Bird>, config: Config) -> (r: Result<Flock, ConfigError>)
        ensures
            r.is_ok() <==> Flock::gather_fault(birds@, config).is_none(),
            r.is_err() ==> Flock::gather_fault(birds@, config) == Some(r.unwrap_err()),
            r.is_ok() ==> r.unwrap().wf() && r.unwrap().settings() == config && r.unwrap()@
                == birds@,
    {
        match config.validate() {
            Err(e) => {
                return Err(e);
            },
            Ok(_) => {},
        }
        if birds.len() > POPULATION_MAX {
            return Err(ConfigError::Population);
        }
        let mut k: usize = 0;
        while k < birds.len()
            invariant
                k <= birds.len(),
                setup_fault(birds@.len() as int, config).is_none(),
                forall|j: int| 0 <= j < k ==> (#[trigger] birds@[j]).steady(),
            decreases birds.len() - k,
        {
            if !birds[k].is_steady() {
                assert(!birds@[k as int].steady());
                return Err(ConfigError::BirdOutOfRange);
            }
            k = k + 1;
        }
        Ok(Flock { birds, config })
    }

    /// One tick: every bird is steered by the flock as it stands at the
    /// start of the tick, then integrated. No bird sees the new state of
    /// another.
    pub fn update(&mut self)
        requires
            old(self).wf(),
        ensures
            final(self)@ == ticked(old(self)@, old(self).settings()),
            final(self).settings() == old(self).settings(),
            final(self).wf(),
            final(self)@.len() == old(self)@.len(),
            forall|j: int|
                0 <= j < final(self)@.len() ==> (#[trigger] final(self)@[j]).settled(
                    final(self).settings(),
                ),
    {
        let next: Vec<Bird> = steer_all(&self.birds, &self.config);
        proof {
            let before = self.birds@;
            let config = self.config;
            assert forall|j: int| 0 <= j < next@.len() implies (#[trigger] next@[j]).settled(
                config,
            ) && next@[j].steady() by {
                assert(next@[j] == stepped(before, j, config));
                integrated_is_settled(steered(before, j, config), config);
            }
        }
        self.birds = next;
    }

    /// Number of birds.
    pub fn len(&self) -> (n: usize)
        ensures
            n == self@.len(),
    {
        self.birds.len()
    }

    /// The configuration.
    pub fn config(&self) -> (c: Config)
        ensures
            c == self.settings(),
    {
        self.config
    }

    /// The birds as they stand, read-only.
    pub fn birds(&self) -> (b: &Vec<Bird>)
        ensures
            b@ == self@,
    {
        &self.birds
    }

    /// Bird `i` as it stands.
    pub fn bird(&self, i: usize) -> (b: Option<Bird>)
        ensures
            i < self@.len() ==> b == Some(self@[i as int]),
            i >= self@.len() ==> b.is_none(),
    {
        if i < self.birds.len() {
            Some(self.birds[i])
        } else {
            None
        }
    }

    /// The positions of the birds, in the order of the birds.
    pub fn positions(&self) -> (out: Vec<Vec3>)
        ensures
            out@.len() == self@.len(),
            forall|j: int| 0 <= j < out@.len() ==> out@[j] == self@[j].position,
    {
        let mut out: Vec<Vec3> = Vec::new();
        let mut k: usize = 0;
        while k < self.birds.len()
            invariant
                k <= self.birds.len(),
                out@.len() == k,
                forall|j: int| 0 <= j < k ==> out@[j] == self.birds@[j].position,
            decreases self.birds.len() - k,
        {
            out.push(self.birds[k].position);
            k = k + 1;
        }
        out
    }
}

} // verus!
