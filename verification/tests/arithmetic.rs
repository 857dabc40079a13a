use flocking::bird::{advance, spread_draw};
use flocking::fixed::{div_toward_zero, isqrt, scale, square, ONE};
use flocking::steering::{mean_pull, wall_push};
use flocking::Config;

#[test]
fn isqrt_rounds_down() {
    assert_eq!(isqrt(0), 0);
    assert_eq!(isqrt(1), 1);
    assert_eq!(isqrt(3), 1);
    assert_eq!(isqrt(4), 2);
    assert_eq!(isqrt(15), 3);
    assert_eq!(isqrt(16), 4);
    assert_eq!(isqrt(999_999_999_999), 999_999);
    assert_eq!(isqrt(1_000_000_000_000), 1_000_000);
    assert_eq!(isqrt(400_250_000), 20_006);
}

#[test]
fn isqrt_of_the_largest_number() {
    assert_eq!(isqrt(u128::MAX), u64::MAX);
}

#[test]
fn square_of_either_sign() {
    assert_eq!(square(-3), 9);
    assert_eq!(square(250_000), 62_500_000_000);
    assert_eq!(square(0), 0);
}

#[test]
fn division_rounds_toward_zero() {
    assert_eq!(div_toward_zero(7, 2), 3);
    assert_eq!(div_toward_zero(-7, 2), -3);
    assert_eq!(div_toward_zero(-1, 2), 0);
    assert_eq!(div_toward_zero(0, 5), 0);
    assert_eq!(div_toward_zero(10, 5), 2);
}

#[test]
fn scale_multiplies_by_a_fixed_point_factor() {
    assert_eq!(scale(-500_000, 1_500_000), -750_000);
    assert_eq!(scale(3, 500_000), 1);
    assert_eq!(scale(-3, 500_000), -1);
    assert_eq!(scale(123_456, ONE), 123_456);
    assert_eq!(scale(123_456, 0), 0);
}

#[test]
fn spread_covers_the_box() {
    assert_eq!(spread_draw(0, 2_500_000), -2_500_000);
    assert_eq!(spread_draw(0x8000_0000, 2_500_000), 0);
    assert_eq!(spread_draw(u32::MAX, 2_500_000), 2_499_999);
    assert_eq!(spread_draw(0x4000_0000, 10_000), -5_000);
    assert_eq!(spread_draw(12345, 0), 0);
}

#[test]
fn mean_pull_steers_toward_the_mean() {
    assert_eq!(mean_pull(-7, 2, 1, ONE), -4);
    assert_eq!(mean_pull(900_000, 3, 100_000, 500_000), 100_000);
    assert_eq!(mean_pull(5, 1, 5, ONE), 0);
}

#[test]
fn wall_pushes_only_inside_the_margin() {
    let c = Config::standard();
    assert_eq!(wall_push(0, &c), 0);
    assert_eq!(wall_push(1_500_000, &c), 0);
    assert_eq!(wall_push(1_500_001, &c), -100_000);
    assert_eq!(wall_push(-1_500_000, &c), 0);
    assert_eq!(wall_push(-1_500_001, &c), 100_000);
    assert_eq!(wall_push(2_500_000, &c), -100_000);
}

#[test]
fn wall_counts_zero_as_positive() {
    let mut c = Config::standard();
    c.boundary_half = 500_000;
    assert_eq!(wall_push(0, &c), -100_000);
}

#[test]
fn advance_without_cap_or_wall() {
    let c = Config::standard();
    assert_eq!(advance(100, 5_000, 1_000, 0, 0, &c), (6_100, 6_000));
}

#[test]
fn advance_caps_by_the_whole_speed() {
    let c = Config::standard();
    // speed 50_000: the component is scaled by 20_000 / 50_000
    assert_eq!(advance(0, 30_000, 0, 40_000, 0, &c), (12_000, 12_000));
    // a zero component stays zero although the speed is over the cap
    assert_eq!(advance(0, 0, 0, 1_000_000, 0, &c), (0, 0));
    // exactly at the cap: not scaled
    assert_eq!(advance(0, 20_000, 0, 0, 0, &c), (20_000, 20_000));
    assert_eq!(advance(0, 20_001, 0, 0, 0, &c), (20_000, 20_000));
}

#[test]
fn advance_bounces_off_both_walls() {
    let c = Config::standard();
    assert_eq!(advance(2_500_000, 10_000, 0, 0, 0, &c), (2_500_000, -8_000));
    assert_eq!(advance(-2_500_000, -10_000, 0, 0, 0, &c), (-2_500_000, 8_000));
    // reaching the wall exactly is no bounce
    assert_eq!(advance(2_490_000, 10_000, 0, 0, 0, &c), (2_500_000, 10_000));
}
