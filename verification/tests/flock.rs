use flocking::config::POPULATION_MAX;
use flocking::steering::{steer, survey};
use flocking::{Bird, Config, ConfigError, Flock, Vec3};

fn at(x: i64, y: i64, z: i64) -> Bird {
    Bird { position: Vec3::new(x, y, z), velocity: Vec3::zero(), acceleration: Vec3::zero() }
}

#[test]
fn two_close_birds_part() {
    let c = Config::standard();
    let mut flock = Flock::from_birds(vec![at(0, 0, 0), at(500_000, 0, 0)], c).unwrap();
    flock.update();
    let a = flock.bird(0).unwrap();
    let b = flock.bird(1).unwrap();
    assert!(a.velocity.x < 0);
    assert!(a.velocity.y < 0);
    assert!(b.velocity.x > 0);
    assert_eq!(a.velocity, Vec3::new(-20_000, -499, 0));
    assert_eq!(a.position, Vec3::new(-20_000, -499, 0));
    assert_eq!(b.velocity, Vec3::new(20_000, -499, 0));
    assert_eq!(b.position, Vec3::new(520_000, -499, 0));
    assert_eq!(a.acceleration, Vec3::zero());
}

#[test]
fn a_lone_bird_only_falls() {
    let c = Config::standard();
    let mut flock = Flock::from_birds(vec![at(0, 0, 0)], c).unwrap();
    flock.update();
    let a = flock.bird(0).unwrap();
    assert_eq!(a.velocity, Vec3::new(0, -500, 0));
    assert_eq!(a.position, Vec3::new(0, -500, 0));
}

#[test]
fn a_bird_is_not_its_own_neighbour() {
    let c = Config::standard();
    let one = vec![at(0, 0, 0)];
    assert_eq!(survey(&one, 0, &c).count, 0);
    let coincident = vec![at(5, 5, 5), at(5, 5, 5)];
    let t = survey(&coincident, 0, &c);
    assert_eq!(t.count, 1);
    assert_eq!(t.separation, Vec3::zero());
    assert_eq!(t.cohesion, Vec3::new(5, 5, 5));
    assert_eq!(survey(&coincident, 1, &c).count, 1);
}

#[test]
fn the_radius_is_exclusive() {
    let c = Config::standard();
    let apart = vec![at(0, 0, 0), at(c.neighbour_radius, 0, 0)];
    assert_eq!(survey(&apart, 0, &c).count, 0);
    assert_eq!(survey(&apart, 1, &c).count, 0);
    let nearer = vec![at(0, 0, 0), at(c.neighbour_radius - 1, 0, 0)];
    assert_eq!(survey(&nearer, 0, &c).count, 1);
    let mut wide = c;
    wide.neighbour_radius = 3_000_000;
    let unit_nearer = vec![at(0, 0, 0), at(0, 2_000_000, 0)];
    assert_eq!(survey(&unit_nearer, 0, &wide).count, 1);
    let at_radius = vec![at(0, 0, 0), at(0, 0, 3_000_000)];
    assert_eq!(survey(&at_radius, 0, &wide).count, 0);
}

#[test]
fn survey_sums_what_the_neighbours_add() {
    let c = Config::standard();
    let mut near = at(100_000, 200_000, -300_000);
    near.velocity = Vec3::new(1, 2, 3);
    let mut also = at(-100_000, 0, 0);
    also.velocity = Vec3::new(10, 20, 30);
    let far = at(2_000_000, 0, 0);
    let birds = vec![at(0, 0, 0), near, far, also];
    let t = survey(&birds, 0, &c);
    assert_eq!(t.count, 2);
    assert_eq!(t.separation, Vec3::new(0, -200_000, 300_000));
    assert_eq!(t.alignment, Vec3::new(11, 22, 33));
    assert_eq!(t.cohesion, Vec3::new(0, 200_000, -300_000));
}

#[test]
fn the_wall_pushes_a_bird_in_the_margin() {
    let c = Config::standard();
    let mut flock = Flock::from_birds(vec![at(2_000_000, 0, -2_000_000)], c).unwrap();
    flock.update();
    let a = flock.bird(0).unwrap();
    // x: -100_000 capped to -20_000; y: gravity, scaled by 20_000 / 20_006;
    // z: 100_000 scaled by 20_000 / floor(sqrt(20_000^2 + 499^2 + 100_000^2))
    assert_eq!(a.velocity.x, -20_000);
    assert_eq!(a.velocity.y, -499);
    assert_eq!(a.velocity.z, 19_611);
    assert_eq!(a.position, Vec3::new(1_980_000, -499, -1_980_389));
}

#[test]
fn a_tick_reads_the_state_before_it() {
    let c = Config::standard();
    let birds = vec![at(0, 0, 0), at(300_000, 0, 0), at(0, 400_000, 0), at(2_400_000, 0, 0)];
    let mut flock = Flock::from_birds(birds.clone(), c).unwrap();
    flock.update();
    for i in 0..birds.len() {
        assert_eq!(flock.bird(i).unwrap(), steer(&birds, i, &c));
    }
    assert_ne!(flock.birds(), &birds);
}

#[test]
fn equal_flocks_stay_equal() {
    let c = Config::standard();
    let draws: Vec<u32> = (0..60u32).map(|k| k.wrapping_mul(2_654_435_761)).collect();
    let mut a = Flock::from_draws(10, c, &draws).unwrap();
    let mut b = Flock::from_draws(10, c, &draws).unwrap();
    assert_eq!(a.birds(), b.birds());
    for _ in 0..200 {
        a.update();
        b.update();
        assert_eq!(a.birds(), b.birds());
    }
}

#[test]
fn draws_make_the_birds_in_order() {
    let c = Config::standard();
    let draws: Vec<u32> = vec![0, 0, 0, 0, 0, 0, u32::MAX, 0x8000_0000, 0, 0x8000_0000, 0, u32::MAX, 7];
    let flock = Flock::from_draws(2, c, &draws).unwrap();
    assert_eq!(flock.len(), 2);
    assert_eq!(flock.bird(0).unwrap().position, Vec3::new(-2_500_000, -2_500_000, -2_500_000));
    assert_eq!(flock.bird(0).unwrap().velocity, Vec3::new(-10_000, -10_000, -10_000));
    assert_eq!(flock.bird(1).unwrap().position, Vec3::new(2_499_999, 0, -2_500_000));
    assert_eq!(flock.bird(1).unwrap().velocity, Vec3::new(0, -10_000, 9_999));
    assert_eq!(flock.bird(2), None);
}

#[test]
fn ten_birds_stay_in_the_box_for_a_thousand_ticks() {
    let c = Config::standard();
    let mut flock = Flock::new(10, c).unwrap();
    assert_eq!(flock.len(), 10);
    for _ in 0..1000 {
        flock.update();
        for b in flock.birds().iter() {
            for p in [b.position.x, b.position.y, b.position.z] {
                assert!(p.abs() <= c.boundary_half);
                assert!(!(p as f64).is_nan());
            }
            for v in [b.velocity.x, b.velocity.y, b.velocity.z] {
                assert!(v.abs() <= c.max_speed);
            }
            assert_eq!(b.acceleration, Vec3::zero());
        }
    }
    assert_eq!(flock.positions().len(), 10);
}

#[test]
fn positions_follow_the_birds() {
    let c = Config::standard();
    let flock = Flock::from_birds(vec![at(1, 2, 3), at(4, 5, 6)], c).unwrap();
    assert_eq!(flock.positions(), vec![Vec3::new(1, 2, 3), Vec3::new(4, 5, 6)]);
    assert_eq!(flock.config(), c);
}

#[test]
fn an_empty_flock_ticks() {
    let mut flock = Flock::new(0, Config::standard()).unwrap();
    flock.update();
    assert_eq!(flock.len(), 0);
}

#[test]
fn every_field_of_the_configuration_is_validated() {
    let ok = Config::standard();
    assert_eq!(ok.validate(), Ok(()));
    let mut c = ok;
    c.max_speed = -1;
    assert_eq!(c.validate(), Err(ConfigError::MaxSpeed));
    c = ok;
    c.neighbour_radius = (1 << 30) + 1;
    assert_eq!(c.validate(), Err(ConfigError::NeighbourRadius));
    c = ok;
    c.separation_weight = (1 << 24) + 1;
    assert_eq!(c.validate(), Err(ConfigError::SeparationWeight));
    c = ok;
    c.alignment_weight = -1;
    assert_eq!(c.validate(), Err(ConfigError::AlignmentWeight));
    c = ok;
    c.cohesion_weight = -1;
    assert_eq!(c.validate(), Err(ConfigError::CohesionWeight));
    c = ok;
    c.gravity = -500;
    assert_eq!(c.validate(), Err(ConfigError::Gravity));
    c = ok;
    c.boundary_half = -1;
    assert_eq!(c.validate(), Err(ConfigError::BoundaryHalf));
    c = ok;
    c.boundary_force = (1 << 30) + 1;
    assert_eq!(c.validate(), Err(ConfigError::BoundaryForce));
    c = ok;
    c.max_speed = -1;
    c.gravity = -1;
    assert_eq!(c.validate(), Err(ConfigError::MaxSpeed));
}

#[test]
fn the_limits_of_the_configuration_are_accepted() {
    let c = Config {
        max_speed: 1 << 30,
        neighbour_radius: 1 << 30,
        separation_weight: 1 << 24,
        alignment_weight: 1 << 24,
        cohesion_weight: 1 << 24,
        gravity: 1 << 30,
        boundary_half: 1 << 30,
        boundary_force: 1 << 30,
    };
    assert_eq!(c.validate(), Ok(()));
    let far = 1i64 << 30;
    let mut birds = Vec::new();
    for k in 0..40 {
        let mut b = at(far, if k % 2 == 0 { far } else { -far }, -far);
        b.velocity = Vec3::new(-far, far, far);
        b.acceleration = Vec3::new(far, far, -far);
        birds.push(b);
    }
    birds.push(at(-far, -far, far));
    let mut flock = Flock::from_birds(birds, c).unwrap();
    for _ in 0..20 {
        flock.update();
        for b in flock.birds().iter() {
            assert!(b.is_steady());
        }
    }
}

#[test]
fn a_flock_is_refused_for_its_configuration_first() {
    let mut c = Config::standard();
    c.gravity = -1;
    assert_eq!(Flock::new(3, c).err(), Some(ConfigError::Gravity));
    assert_eq!(Flock::new(POPULATION_MAX + 1, c).err(), Some(ConfigError::Gravity));
    assert_eq!(Flock::from_birds(vec![], c).err(), Some(ConfigError::Gravity));
    assert_eq!(Flock::from_draws(1, c, &vec![]).err(), Some(ConfigError::Gravity));
}

#[test]
fn a_flock_is_refused_for_its_size() {
    let c = Config::standard();
    assert_eq!(Flock::new(POPULATION_MAX + 1, c).err(), Some(ConfigError::Population));
    assert_eq!(Flock::from_draws(POPULATION_MAX + 1, c, &vec![]).err(), Some(ConfigError::Population));
    let many = vec![at(0, 0, 0); POPULATION_MAX + 1];
    assert_eq!(Flock::from_birds(many, c).err(), Some(ConfigError::Population));
}

#[test]
fn a_flock_is_refused_for_a_bird_out_of_range() {
    let c = Config::standard();
    let birds = vec![at(0, 0, 0), at(0, (1 << 30) + 1, 0)];
    assert_eq!(Flock::from_birds(birds, c).err(), Some(ConfigError::BirdOutOfRange));
}

#[test]
fn a_flock_is_refused_for_want_of_draws() {
    let c = Config::standard();
    assert_eq!(Flock::from_draws(2, c, &vec![1; 11]).err(), Some(ConfigError::Draws));
    assert!(Flock::from_draws(2, c, &vec![1; 12]).is_ok());
}
