//! A Gray-Scott reaction-diffusion simulation core.
//!
//! The library owns the state of a double-buffered, two-species
//! concentration-field simulation: the parameter block handed to the compute
//! kernel, the seed pattern written into the field buffers, the ping-pong
//! generation selection, the step counter, and the deferred-write protocol
//! for parameter changes and resets. The host (window, device, kernel
//! dispatch) lives outside and drives the engine through `step`, the
//! parameter setters, and `reset`.
//!
//! Physical parameters are single-precision values on the device; the engine
//! never computes with them, so it carries each one as its IEEE 754 bit
//! pattern (`u32`) and hands the pattern through unchanged.

use vstd::prelude::*;

pub mod config;
pub mod device;
pub mod diffusion;
pub mod event;
pub mod laws;
pub mod params;
pub mod seed;

verus! {

/// The number of kernel invocations one workgroup covers; an
/// accelerator-tuning constant, not a semantic parameter.
pub const WORKGROUP_SIZE: u32 = 64;

} // verus!
