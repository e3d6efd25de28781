use galaxy_gen::galaxy::{Galaxy, Position};
use galaxy_gen::generator::{ConfigurationError, GalaxyGenerator, GalaxySettings, Seed};
use galaxy_gen::placement::{on_arm, retry_placement, ANGLE_HALF_TURN, MAX_PLACEMENT_ATTEMPTS};
use galaxy_gen::star::{class_for_mass, DomainError, Rgba, Star, StarClass};
use galaxy_gen::table::{count_for_row, table_row, TABLE_ROWS};
use rand::rngs::StdRng;
use rand::{Rng, SeedableRng};

fn settings(stars_count: i32, arms_count: u8) -> GalaxySettings {
    GalaxySettings {
        stars_count,
        gravity: 2_000_000,
        radius: 800_000_000,
        arms_count,
        arm_spread: 100_000,
        rotation_strength: 8_000_000,
    }
}

/// Feeds the generator distinct positions until every class has its count.
fn run(generator: &mut GalaxyGenerator, seed: u64) -> Vec<StarClass> {
    let mut rng = StdRng::seed_from_u64(seed);
    let mut classes = Vec::new();
    let mut i: i32 = 0;
    while let Some(class) = generator.next_class() {
        classes.push(class);
        generator.place_next(&mut rng, Position { x: i % 97, y: i / 97 });
        i += 1;
    }
    classes
}

/// Places every star at a position drawn on the stream.
fn scatter(mut rng: StdRng) -> (StdRng, Position) {
    let x = rng.gen_range(-200..200);
    let y = rng.gen_range(-200..200);
    (rng, Position { x, y })
}

#[test]
fn classification_boundaries() {
    assert_eq!(class_for_mass(7_900), StarClass::WhiteDwarf);
    assert_eq!(class_for_mass(8_000), StarClass::M);
    assert_eq!(class_for_mass(44_999), StarClass::M);
    assert_eq!(class_for_mass(45_000), StarClass::K);
    assert_eq!(class_for_mass(80_000), StarClass::G);
    assert_eq!(class_for_mass(104_000), StarClass::F);
    assert_eq!(class_for_mass(140_000), StarClass::A);
    assert_eq!(class_for_mass(210_000), StarClass::B);
    assert_eq!(class_for_mass(1_599_999), StarClass::B);
    assert_eq!(class_for_mass(1_600_000), StarClass::O);
}

#[test]
fn sun_like_star() {
    let sun = Star::from_mass(100_000).unwrap();
    assert_eq!(sun.class(), StarClass::G);
    assert!(sun.allows_life());
    assert_eq!(sun.orbit_boundaries(), (100_000, 40_000_000));
    assert_eq!(sun.color(), Rgba { r: 255, g: 244, b: 234, a: 100 });
}

#[test]
fn zero_mass_is_refused() {
    assert_eq!(Star::from_mass(0), Err(DomainError::NonPositiveMass));
    assert_eq!(Star::from_mass(1).map(|s| s.mass), Ok(1));
}

#[test]
fn life_only_around_f_g_k() {
    assert!(StarClass::F.allows_life());
    assert!(StarClass::G.allows_life());
    assert!(StarClass::K.allows_life());
    assert!(!StarClass::O.allows_life());
    assert!(!StarClass::M.allows_life());
    assert!(!StarClass::WhiteDwarf.allows_life());
    assert!(!Star::from_mass(20_000).unwrap().allows_life());
}

#[test]
fn class_colors() {
    assert_eq!(StarClass::O.color(), Rgba { r: 155, g: 176, b: 255, a: 1 });
    assert_eq!(StarClass::WhiteDwarf.color(), Rgba { r: 155, g: 176, b: 255, a: 50 });
    assert_eq!(StarClass::M.color(), Rgba { r: 255, g: 204, b: 111, a: 150 });
}

#[test]
fn masses_drawn_in_class_range() {
    let mut rng = StdRng::seed_from_u64(7);
    let classes = [
        StarClass::O,
        StarClass::B,
        StarClass::A,
        StarClass::F,
        StarClass::G,
        StarClass::K,
        StarClass::M,
        StarClass::WhiteDwarf,
    ];
    for class in classes {
        let (lo, hi) = class.mass_range();
        for _ in 0..1000 {
            let star = Star::from_class(&mut rng, class);
            assert!(lo <= star.mass && star.mass < hi);
        }
    }
    assert_eq!(StarClass::WhiteDwarf.mass_range(), (1_000, 80_000));
    assert_eq!(StarClass::O.mass_range(), (1_600_000, 3_200_000));
}

#[test]
fn white_dwarf_draw_may_reclassify() {
    let mut rng = StdRng::seed_from_u64(11);
    let mut seen_other = false;
    for _ in 0..1000 {
        let star = Star::from_class(&mut rng, StarClass::WhiteDwarf);
        if star.class() != StarClass::WhiteDwarf {
            seen_other = true;
        }
    }
    assert!(seen_other);
}

#[test]
fn table_counts_round_to_nearest() {
    let expected = [10, 10, 50, 300, 700, 1000, 7000];
    for k in 0..TABLE_ROWS {
        assert_eq!(count_for_row(10_000, k), expected[k]);
    }
    assert_eq!(count_for_row(500, 0), 1);
    assert_eq!(count_for_row(499, 0), 0);
    assert_eq!(table_row(6), (StarClass::M, 700));
    assert_eq!(table_row(0), (StarClass::O, 1));
}

#[test]
fn population_of_ten_thousand() {
    let mut generator = GalaxyGenerator::new(settings(10_000, 8)).unwrap();
    let classes = run(&mut generator, 298374826504098726);
    assert_eq!(classes.len(), 9070);
    assert!(!classes.contains(&StarClass::WhiteDwarf));
    assert_eq!(classes.iter().filter(|c| **c == StarClass::O).count(), 10);
    assert_eq!(classes.iter().filter(|c| **c == StarClass::M).count(), 7000);
    assert_eq!(classes[0], StarClass::O);
    assert_eq!(classes[9069], StarClass::M);
    assert_eq!(generator.finish().len(), 9070);
}

#[test]
fn empty_population() {
    let mut generator = GalaxyGenerator::new(settings(0, 2)).unwrap();
    assert_eq!(generator.next_class(), None);
    assert!(run(&mut generator, 1).is_empty());
    assert_eq!(generator.finish().len(), 0);
    let galaxy = Galaxy::generate(Seed(1), settings(0, 2), scatter).unwrap();
    assert_eq!(galaxy.len(), 0);
}

#[test]
fn same_seed_same_galaxy() {
    let a = Galaxy::generate(Seed(42), settings(2_000, 7), scatter).unwrap();
    let b = Galaxy::generate(Seed(42), settings(2_000, 7), scatter).unwrap();
    assert_eq!(a.stars(), b.stars());
    assert!(a.len() > 1_000);
    let c = Galaxy::generate(Seed(43), settings(2_000, 7), scatter).unwrap();
    assert_ne!(a.stars(), c.stars());
    let keys: Vec<Position> = a.stars().iter().map(|e| e.0).collect();
    let mut sorted = keys.clone();
    sorted.sort();
    assert_eq!(keys, sorted);
}

#[test]
fn one_arm_is_refused() {
    assert_eq!(
        Galaxy::generate(Seed(1), settings(100, 1), scatter).err(),
        Some(ConfigurationError::TooFewArms)
    );
    assert_eq!(
        GalaxyGenerator::new(settings(-5, 0)).err(),
        Some(ConfigurationError::TooFewArms)
    );
}

#[test]
fn negative_count_and_flat_radius_are_refused() {
    assert_eq!(
        Galaxy::generate(Seed(1), settings(-1, 3), scatter).err(),
        Some(ConfigurationError::NegativeStarCount)
    );
    let mut flat = settings(10, 3);
    flat.radius = 0;
    assert_eq!(flat.validate(), Err(ConfigurationError::NonPositiveRadius));
    assert_eq!(settings(10, 3).validate(), Ok(()));
}

#[test]
fn collision_keeps_later_star() {
    // a thousand stars: one of class O, then one of class B
    let mut rng = StdRng::seed_from_u64(5);
    let mut generator = GalaxyGenerator::new(settings(1_000, 4)).unwrap();
    assert_eq!(generator.next_class(), Some(StarClass::O));
    let first = generator.place_next(&mut rng, Position { x: 3, y: -4 });
    assert_eq!(generator.next_class(), Some(StarClass::B));
    let second = generator.place_next(&mut rng, Position { x: 3, y: -4 });
    assert!(first.mass >= 1_600_000);
    assert!(second.mass < 1_600_000);
    assert_eq!(generator.next_class(), Some(StarClass::A));
    let galaxy = generator.finish();
    assert_eq!(galaxy.len(), 1);
    assert_eq!(galaxy.get(Position { x: 3, y: -4 }), Some(second));
}

#[test]
fn all_on_one_position_keeps_last_star() {
    let galaxy = Galaxy::generate(Seed(9), settings(1_000, 3), |rng| {
        (rng, Position { x: 0, y: 0 })
    })
    .unwrap();
    assert_eq!(galaxy.len(), 1);
    // the last class of the table is M
    let star = galaxy.get(Position { x: 0, y: 0 }).unwrap();
    assert!(8_000 <= star.mass && star.mass < 45_000);
}

#[test]
fn galaxy_keeps_position_order() {
    let mut galaxy = Galaxy::new();
    let s1 = Star::from_mass(1_000).unwrap();
    let s2 = Star::from_mass(2_000).unwrap();
    let s3 = Star::from_mass(3_000).unwrap();
    galaxy.insert(Position { x: 2, y: 0 }, s1);
    galaxy.insert(Position { x: 1, y: 5 }, s2);
    galaxy.insert(Position { x: 1, y: -3 }, s3);
    galaxy.insert(Position { x: 2, y: 0 }, s3);
    let keys: Vec<Position> = galaxy.stars().iter().map(|e| e.0).collect();
    assert_eq!(
        keys,
        vec![Position { x: 1, y: -3 }, Position { x: 1, y: 5 }, Position { x: 2, y: 0 }]
    );
    assert_eq!(galaxy.get(Position { x: 2, y: 0 }), Some(s3));
    assert_eq!(galaxy.get(Position { x: 0, y: 0 }), None);
    assert_eq!(galaxy.len(), 3);
}

#[test]
fn arm_band_edges() {
    let h = ANGLE_HALF_TURN as i32;
    // eight arms, spread one tenth: each band is an eightieth of a half turn wide
    assert!(on_arm(-h, 8, 100_000));
    assert!(on_arm(-h + 12_499, 8, 100_000));
    assert!(!on_arm(-h + 12_500, 8, 100_000));
    assert!(!on_arm(-h - 1, 8, 100_000));
    // the second arm starts at -h + 2h/7 = -714285.71...
    assert!(on_arm(-714_285, 8, 100_000));
    assert!(!on_arm(-714_286, 8, 100_000));
    assert!(!on_arm(0, 8, 100_000));
    // the last arm starts at half a turn
    assert!(on_arm(h, 8, 100_000));
    assert!(!on_arm(-h, 8, 0));
}

#[test]
fn retry_is_bounded() {
    assert!(retry_placement(1, false));
    assert!(retry_placement(4, false));
    assert!(!retry_placement(5, false));
    assert!(!retry_placement(1, true));
    assert_eq!(MAX_PLACEMENT_ATTEMPTS, 5);
}

#[test]
fn placement_favours_arms() {
    let mut rng = StdRng::seed_from_u64(298374826504098726);
    let mut on_arms = 0;
    for _ in 0..10_000 {
        let mut attempts: u8 = 1;
        let valid = loop {
            let distance: f32 = rng.gen_range(0.06..1.0);
            let x: f32 = rng.gen_range(-1.0..1.0);
            let y: f32 = rng.gen_range(-1.0..1.0);
            let scale = distance.powf(2.0) / (x * x + y * y).sqrt();
            let d = (x * scale).atan2(y * scale);
            let angle = (d / std::f32::consts::PI * ANGLE_HALF_TURN as f32).round() as i32;
            let valid = on_arm(angle, 8, 100_000);
            if !retry_placement(attempts, valid) {
                break valid;
            }
            attempts += 1;
        };
        assert!(attempts <= MAX_PLACEMENT_ATTEMPTS);
        if valid {
            on_arms += 1;
        }
    }
    // a uniform direction lies on these bands one time in twenty
    assert!(on_arms > 1_500, "{}", on_arms);
}
