//! The per-run configuration: grid dimensions, the host's steps-per-frame
//! count, and the physical parameters of the reaction.
//!
//! The physical parameters are single-precision values on the device; the
//! engine never computes with them, so each is carried here as its IEEE 754
//! single-precision bit pattern (`u32`). The host converts when it parses
//! user input.

use vstd::prelude::*;

verus! {

/// Why a configuration was rejected at engine construction. These are the
/// only construction failures the engine itself raises; device and resource
/// failures belong to the host.
#[derive(Clone, Copy, PartialEq, Eq, Structural, Debug)]
pub enum ConfigError {
    /// The grid has zero width or zero height.
    ZeroDimension,
    /// The cell count `width * height` does not fit the 32-bit `size` word
    /// of the parameter block's wire layout.
    GridTooLarge,
}

/// Bit pattern of `1.0f32`.
pub const BITS_ONE: u32 = 0x3F80_0000;
/// Bit pattern of `0.5f32`.
pub const BITS_HALF: u32 = 0x3F00_0000;
/// Bit pattern of `0.03f32`, the default feed rate.
pub const BITS_DEFAULT_FEED: u32 = 0x3CF5_C28F;
/// Bit pattern of `0.09f32`, the default kill rate.
pub const BITS_DEFAULT_KILL: u32 = 0x3DB8_51EC;

/// Immutable-per-run settings of one simulation: grid size, how many steps
/// the host advances per displayed frame, and the physical parameters, each
/// as an IEEE 754 single-precision bit pattern.
pub struct Config {
    pub width: u32,
    pub height: u32,
    pub steps_per_frame: u32,
    /// Bit pattern of the discretized timestep.
    pub timestep: u32,
    /// Bit pattern of the diffusion rate of species A.
    pub diffusion_a: u32,
    /// Bit pattern of the diffusion rate of species B.
    pub diffusion_b: u32,
    /// Bit pattern of the feed rate.
    pub feed: u32,
    /// Bit pattern of the kill rate.
    pub kill: u32,
}

impl Config {
    /// The default configuration: a 512 x 512 grid, 20 steps per frame,
    /// timestep 1.0, diffusion 1.0 and 0.5, feed 0.03, kill 0.09.
    pub open spec fn default_spec() -> Config {
        Config {
            width: 512,
            height: 512,
            steps_per_frame: 20,
            timestep: BITS_ONE,
            diffusion_a: BITS_ONE,
            diffusion_b: BITS_HALF,
            feed: BITS_DEFAULT_FEED,
            kill: BITS_DEFAULT_KILL,
        }
    }

    /// The default configuration with the grid dimensions overridden.
    pub fn with_size(width: u32, height: u32) -> (r: Config)
        ensures
            r == (Config { width, height, ..Config::default_spec() }),
    {
        Config {
            width,
            height,
            ..Config::default()
        }
    }
}

impl Default for Config {
    fn default() -> (r: Config)
        ensures
            r == Config::default_spec(),
    {
        Config {
            width: 512,
            height: 512,
            steps_per_frame: 20,
            timestep: BITS_ONE,
            diffusion_a: BITS_ONE,
            diffusion_b: BITS_HALF,
            feed: BITS_DEFAULT_FEED,
            kill: BITS_DEFAULT_KILL,
        }
    }
}

} // verus!
