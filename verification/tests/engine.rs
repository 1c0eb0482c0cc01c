use reaction_diffusion::config::Config;
use reaction_diffusion::config::ConfigError;
use reaction_diffusion::device::DeviceBuffers;
use reaction_diffusion::diffusion::Diffusion;
use reaction_diffusion::seed::init_values;

fn engine(width: u32, height: u32) -> Diffusion {
    Diffusion::new(&Config::with_size(width, height)).unwrap()
}

/// `step_number` starts at 0 and counts each completed step exactly once.
#[test]
fn step_number_counts_steps() {
    let mut e = engine(8, 8);
    assert_eq!(e.step_number(), 0);
    for n in 1..=10u64 {
        e.step();
        assert_eq!(e.step_number(), n);
    }
}

/// A fresh 4 x 4 engine stepped three times reads 3 on the counter and
/// generation 1 as current.
#[test]
fn three_steps_on_four_by_four() {
    let mut e = engine(4, 4);
    e.step();
    e.step();
    e.step();
    assert_eq!(e.step_number(), 3);
    assert_eq!(e.current_generation(), 3 % 2);
}

/// Generation selection alternates with the parity of the step counter:
/// even counter means the next dispatch reads generation 0, odd means 1.
#[test]
fn generation_selection_alternates() {
    let mut e = engine(8, 8);
    for n in 0..6u64 {
        assert_eq!(e.current_generation(), n % 2);
        let plan = e.step();
        assert_eq!(plan.input_parity, n % 2);
    }
}

/// A setter is followed by exactly one flush: the next step carries the
/// whole block in wire layout and clears the flag; a step with no prior
/// setter carries none.
#[test]
fn setter_then_step_flushes_once() {
    let mut e = engine(8, 8);
    assert!(!e.parameters_dirty());
    let plan = e.step();
    assert!(plan.flush.is_none());

    e.set_feed(0.045f32.to_bits());
    e.set_kill(0.06f32.to_bits());
    assert!(e.parameters_dirty());
    let plan = e.step();
    let words = plan.flush.expect("a flush was due");
    // Wire layout: width, height, size, timestep, diffusion_a, diffusion_b,
    // feed, kill. Both setter calls land in the one flush.
    assert_eq!(
        words,
        vec![
            8,
            8,
            64,
            1.0f32.to_bits(),
            1.0f32.to_bits(),
            0.5f32.to_bits(),
            0.045f32.to_bits(),
            0.06f32.to_bits(),
        ]
    );
    assert!(!e.parameters_dirty());
    let plan = e.step();
    assert!(plan.flush.is_none());
}

/// Each setter overwrites exactly its own word of the parameter block.
#[test]
fn setters_overwrite_their_field() {
    let mut e = engine(8, 8);
    e.set_diffusion_a(0.9f32.to_bits());
    e.set_diffusion_b(0.4f32.to_bits());
    e.set_timestep(0.5f32.to_bits());
    let p = e.params();
    assert_eq!(p.diffusion_a, 0.9f32.to_bits());
    assert_eq!(p.diffusion_b, 0.4f32.to_bits());
    assert_eq!(p.timestep, 0.5f32.to_bits());
    assert_eq!(p.feed, 0.03f32.to_bits());
    assert_eq!(p.kill, 0.09f32.to_bits());
    assert_eq!((p.width, p.height, p.size), (8, 8, 64));
}

/// `reset` then `step` rewrites both generations of both fields with the
/// seed pattern, and the pending flag is clear immediately after.
#[test]
fn reset_then_step_restores_seed_everywhere() {
    let mut e = engine(10, 10);
    let mut dev = DeviceBuffers::new(&e.params());

    // Let the device state drift away from the seed.
    dev.a0 = vec![7; 100];
    dev.a1 = vec![7; 100];
    dev.b0 = vec![7; 100];
    dev.b1 = vec![7; 100];

    e.reset();
    assert!(e.reset_pending());
    let plan = e.step();
    dev.apply_writes(&plan);
    assert!(!e.reset_pending());

    let (seed_a, seed_b) = init_values(10, 10);
    assert_eq!(dev.a0, seed_a);
    assert_eq!(dev.a1, seed_a);
    assert_eq!(dev.b0, seed_b);
    assert_eq!(dev.b1, seed_b);
}

/// Two `reset` calls before one step behave exactly like one: the seed is
/// carried once, by the next step only.
#[test]
fn reset_is_idempotent() {
    let mut e = engine(10, 10);
    e.reset();
    e.reset();
    let plan = e.step();
    let (seed_a, seed_b) = init_values(10, 10);
    let pair = plan.reseed.expect("a reseed was due");
    assert_eq!(pair.0, seed_a);
    assert_eq!(pair.1, seed_b);
    assert!(!e.reset_pending());
    let plan = e.step();
    assert!(plan.reseed.is_none());
}

/// The dispatch covers the grid in fixed-size workgroups, rounding up.
#[test]
fn workgroup_count_rounds_up() {
    assert_eq!(engine(4, 4).step().workgroups, 1);
    assert_eq!(engine(8, 8).step().workgroups, 1);
    assert_eq!(engine(65, 1).step().workgroups, 2);
    assert_eq!(engine(512, 512).step().workgroups, 512 * 512 / 64);
    assert_eq!(engine(100, 10).step().workgroups, 16);
}

/// An empty grid is rejected at construction, in either dimension.
#[test]
fn zero_dimension_is_rejected() {
    assert_eq!(
        Diffusion::new(&Config::with_size(0, 4)).unwrap_err(),
        ConfigError::ZeroDimension
    );
    assert_eq!(
        Diffusion::new(&Config::with_size(4, 0)).unwrap_err(),
        ConfigError::ZeroDimension
    );
}

/// A grid whose cell count overflows the 32-bit size word is rejected;
/// the largest representable one is accepted.
#[test]
fn oversized_grid_is_rejected() {
    assert_eq!(
        Diffusion::new(&Config::with_size(65536, 65536)).unwrap_err(),
        ConfigError::GridTooLarge
    );
    assert!(Diffusion::new(&Config::with_size(65536, 65535)).is_ok());
}
