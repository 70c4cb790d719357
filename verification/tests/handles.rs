use ss14_noise::registry::{
    generator_dispose, generator_new, generator_set_frequency, generator_set_lacunarity,
    generator_set_octaves, generator_set_period_x, generator_set_period_y,
    generator_set_persistence, generator_set_seed,
};
use ss14_noise::{NoiseGenerator, NoiseParams, NoiseType, Registry};

#[test]
fn fresh_registry_has_no_live_handle() {
    let reg = Registry::new();
    assert_eq!(reg.issued_count(), 0);
    assert!(!reg.is_live(0));
    assert!(!reg.is_live(1));
    assert!(!reg.is_live(usize::MAX));
}

#[test]
fn handles_are_issued_in_order_and_are_distinct() {
    let mut reg = Registry::new();
    let a = generator_new(&mut reg, 0);
    let b = generator_new(&mut reg, 1);
    let c = generator_new(&mut reg, 0);
    assert_eq!((a, b, c), (0, 1, 2));
    assert_eq!(reg.issued_count(), 3);
    assert!(reg.is_live(a) && reg.is_live(b) && reg.is_live(c));
    assert!(!reg.is_live(3));
    assert_eq!(*reg.get(a), NoiseGenerator::new(0));
    assert_eq!(*reg.get(b), NoiseGenerator::new(1));
    assert_eq!(*reg.get(c), NoiseGenerator::new(0));
}

#[test]
fn dispose_kills_one_handle_and_no_other() {
    let mut reg = Registry::new();
    let a = generator_new(&mut reg, 0);
    let b = generator_new(&mut reg, 1);
    generator_set_seed(&mut reg, b, 5);
    let kept = *reg.get(b);
    generator_dispose(&mut reg, a);
    assert!(!reg.is_live(a));
    assert!(reg.is_live(b));
    assert_eq!(*reg.get(b), kept);
    assert_eq!(reg.issued_count(), 2);
}

#[test]
fn a_disposed_handle_is_not_issued_again() {
    let mut reg = Registry::new();
    let a = generator_new(&mut reg, 0);
    generator_dispose(&mut reg, a);
    let b = generator_new(&mut reg, 0);
    assert_ne!(a, b);
    assert_eq!(b, 1);
    assert!(!reg.is_live(a));
    assert!(reg.is_live(b));
}

#[test]
fn setters_reach_only_the_generator_of_their_handle() {
    let mut reg = Registry::new();
    let a = generator_new(&mut reg, 0);
    let b = generator_new(&mut reg, 0);
    generator_set_seed(&mut reg, a, 1337);
    generator_set_octaves(&mut reg, a, 4);
    generator_set_frequency(&mut reg, a, 1.0f64.to_bits());
    generator_set_lacunarity(&mut reg, a, 2.5f64.to_bits());
    generator_set_persistence(&mut reg, a, 0.25f64.to_bits());
    generator_set_period_x(&mut reg, a, 16.0f64.to_bits());
    generator_set_period_y(&mut reg, a, 32.0f64.to_bits());
    let expected = NoiseGenerator {
        period_x: 16.0f64.to_bits(),
        period_y: 32.0f64.to_bits(),
        noise_type: NoiseType::Fbm(NoiseParams {
            seed: 1337,
            octaves: 4,
            frequency: 0x3FF0_0000_0000_0000,
            lacunarity: 2.5f64.to_bits(),
            persistence: 0.25f64.to_bits(),
        }),
    };
    assert!(reg.is_live(a));
    assert_eq!(*reg.get(a), expected);
    assert_eq!(*reg.get(b), NoiseGenerator::new(0));
    assert_eq!(reg.issued_count(), 2);
}

#[test]
fn each_handle_setter_changes_one_thing() {
    let mut reg = Registry::new();
    let h = generator_new(&mut reg, 1);
    let start = *reg.get(h);
    let start_params = match start.noise_type {
        NoiseType::Ridged(p) => p,
        NoiseType::Fbm(_) => panic!("selector 1 gave the fbm variant"),
    };

    generator_set_octaves(&mut reg, h, 9);
    let expected = NoiseGenerator {
        noise_type: NoiseType::Ridged(NoiseParams { octaves: 9, ..start_params }),
        ..start
    };
    assert_eq!(*reg.get(h), expected);

    generator_set_period_y(&mut reg, h, 8.0f64.to_bits());
    let expected = NoiseGenerator { period_y: 8.0f64.to_bits(), ..expected };
    assert_eq!(*reg.get(h), expected);

    generator_set_seed(&mut reg, h, 77);
    let expected = NoiseGenerator {
        noise_type: NoiseType::Ridged(NoiseParams { seed: 77, octaves: 9, ..start_params }),
        ..expected
    };
    assert_eq!(*reg.get(h), expected);
}

#[test]
fn largest_octave_count_is_kept() {
    let mut reg = Registry::new();
    let h = generator_new(&mut reg, 0);
    generator_set_octaves(&mut reg, h, u32::MAX);
    match reg.get(h).noise_type {
        NoiseType::Fbm(p) => assert_eq!(p.octaves, 4294967295usize),
        NoiseType::Ridged(_) => panic!("selector 0 gave the ridged variant"),
    }
}
