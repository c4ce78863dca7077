use christmas_tree::geometry::{Point, UNIT};
use christmas_tree::snow::{generate_snowflakes, Snowflake, SNOWFLAKE_COUNT};
use rand::rngs::StdRng;
use rand::SeedableRng;

#[test]
fn spawn_takes_the_three_values() {
    let flake = Snowflake::spawn(5 * UNIT, -7 * UNIT, 2 * UNIT);
    assert_eq!(flake.position, Point { x: 5 * UNIT, y: -7 * UNIT });
    assert_eq!(flake.speed, 2 * UNIT);
    assert!(flake.is_fresh());
    assert!(flake.is_valid());
}

#[test]
fn validity_follows_the_bounds() {
    assert!(Snowflake::spawn(0, -100 * UNIT, UNIT).is_valid());
    assert!(Snowflake::spawn(600 * UNIT - 1, 600 * UNIT, 3 * UNIT - 1).is_valid());
    assert!(!Snowflake::spawn(-1, 0, UNIT).is_valid());
    assert!(!Snowflake::spawn(600 * UNIT, 0, UNIT).is_valid());
    assert!(!Snowflake::spawn(0, -100 * UNIT - 1, UNIT).is_valid());
    assert!(!Snowflake::spawn(0, 600 * UNIT + 1, UNIT).is_valid());
    assert!(!Snowflake::spawn(0, 0, UNIT - 1).is_valid());
    assert!(!Snowflake::spawn(0, 0, 3 * UNIT).is_valid());
}

#[test]
fn freshness_ends_at_the_top_of_the_scene() {
    assert!(Snowflake::spawn(0, -1, UNIT).is_fresh());
    assert!(Snowflake::spawn(0, -100 * UNIT, UNIT).is_fresh());
    assert!(!Snowflake::spawn(0, 0, UNIT).is_fresh());
    assert!(!Snowflake::spawn(0, -100 * UNIT - 1, UNIT).is_fresh());
}

#[test]
fn generated_snowflakes_start_above_the_scene() {
    for seed in 0..20u64 {
        let mut rng = StdRng::seed_from_u64(seed);
        let flakes = generate_snowflakes(&mut rng);
        assert_eq!(flakes.len(), 100);
        assert_eq!(flakes.len(), SNOWFLAKE_COUNT);
        for flake in &flakes {
            assert!(flake.position.x >= 0 && flake.position.x < 600 * UNIT);
            assert!(flake.position.y >= -100 * UNIT && flake.position.y < 0);
            assert!(flake.speed >= UNIT && flake.speed < 3 * UNIT);
            assert!(flake.is_fresh());
        }
    }
}

#[test]
fn generated_snowflakes_differ_from_each_other() {
    let mut rng = StdRng::seed_from_u64(17);
    let flakes = generate_snowflakes(&mut rng);
    // A source that handed back the lower bound of its range would put every
    // snowflake in the corner of the band, with the slowest speed.
    assert!(flakes.iter().any(|f| f.position.x != 0));
    assert!(flakes.iter().any(|f| f.position.y != -100 * UNIT));
    assert!(flakes.iter().any(|f| f.speed != UNIT));
    assert!(flakes.iter().any(|f| f.position != flakes[0].position));
    assert!(flakes.iter().any(|f| f.speed != flakes[0].speed));
}

#[test]
fn fall_adds_the_speed() {
    let mut flake = Snowflake::spawn(10 * UNIT, -50 * UNIT, UNIT + UNIT / 2);
    let left = flake.fall();
    assert!(!left);
    assert_eq!(flake.position, Point { x: 10 * UNIT, y: -50 * UNIT + UNIT + UNIT / 2 });
    assert_eq!(flake.speed, UNIT + UNIT / 2);
}

#[test]
fn fall_onto_the_floor_stays_in_the_scene() {
    let mut flake = Snowflake::spawn(10 * UNIT, 598 * UNIT, 2 * UNIT);
    let left = flake.fall();
    assert!(!left);
    assert_eq!(flake.position.y, 600 * UNIT);
    assert!(flake.is_valid());
}

#[test]
fn fall_below_the_floor_leaves_the_scene() {
    let mut flake = Snowflake::spawn(10 * UNIT, 599 * UNIT, 2 * UNIT);
    let left = flake.fall();
    assert!(left);
    assert_eq!(flake.position.y, 601 * UNIT);
    assert!(flake.position.y > 600 * UNIT);
}

#[test]
fn respawn_moves_and_keeps_the_speed() {
    let mut flake = Snowflake::spawn(10 * UNIT, 601 * UNIT, 2 * UNIT);
    flake.respawn(77 * UNIT, -3 * UNIT);
    assert_eq!(flake, Snowflake { position: Point { x: 77 * UNIT, y: -3 * UNIT }, speed: 2 * UNIT });
}

#[test]
fn tick_respawns_a_snowflake_that_passes_the_floor() {
    for seed in 0..50u64 {
        let mut rng = StdRng::seed_from_u64(seed);
        let mut flake = Snowflake::spawn(10 * UNIT, 599 * UNIT, 2 * UNIT);
        flake.tick(&mut rng);
        assert!(flake.position.y >= -100 * UNIT && flake.position.y < 0);
        assert!(flake.position.x >= 0 && flake.position.x < 600 * UNIT);
        assert_eq!(flake.speed, 2 * UNIT);
        assert!(flake.is_fresh());
    }
}

#[test]
fn tick_redraws_the_column_on_respawn() {
    let mut columns = Vec::new();
    for seed in 0..20u64 {
        let mut rng = StdRng::seed_from_u64(seed);
        let mut flake = Snowflake::spawn(10 * UNIT, 599 * UNIT, 2 * UNIT);
        flake.tick(&mut rng);
        columns.push(flake.position.x);
    }
    assert!(columns.iter().any(|x| *x != 10 * UNIT));
    assert!(columns.iter().any(|x| *x != columns[0]));
}

#[test]
fn tick_lets_a_snowflake_fall_inside_the_scene() {
    let mut rng = StdRng::seed_from_u64(1);
    let mut flake = Snowflake::spawn(10 * UNIT, 100 * UNIT, 2 * UNIT);
    flake.tick(&mut rng);
    assert_eq!(flake, Snowflake { position: Point { x: 10 * UNIT, y: 102 * UNIT }, speed: 2 * UNIT });
}

#[test]
fn snowflake_stays_in_bounds_over_many_ticks() {
    let mut rng = StdRng::seed_from_u64(99);
    let mut flakes = generate_snowflakes(&mut rng);
    let speeds: Vec<i64> = flakes.iter().map(|f| f.speed).collect();
    let mut respawns = 0;
    for _ in 0..2000 {
        for (flake, speed) in flakes.iter_mut().zip(speeds.iter()) {
            let before = *flake;
            flake.tick(&mut rng);
            assert!(flake.position.y >= -100 * UNIT && flake.position.y <= 600 * UNIT);
            assert!(flake.position.x >= 0 && flake.position.x < 600 * UNIT);
            assert_eq!(flake.speed, *speed);
            if before.position.y + before.speed > 600 * UNIT {
                assert!(flake.position.y < 0);
                respawns += 1;
            } else {
                assert_eq!(flake.position.x, before.position.x);
                assert_eq!(flake.position.y, before.position.y + before.speed);
            }
        }
    }
    assert!(respawns > 0);
}
