//! Control commands fed into the engine from an external channel, drained by
//! the host once per tick and applied in arrival order.
//!
//! Physical values are carried as IEEE 754 single-precision bit patterns,
//! as in [`crate::config::Config`].

use vstd::prelude::*;

verus! {

/// A tagged control command. `SetStepsPerFrame` addresses the host's
/// per-frame step count, not the engine; `Start` and `Pause` are part of the
/// command vocabulary but are not wired to any effect.
#[derive(Clone, Copy, Debug)]
pub enum Event {
    SetDiffusionA(u32),
    SetDiffusionB(u32),
    SetFeed(u32),
    SetKill(u32),
    SetStepsPerFrame(u32),
    SetTimestep(u32),
    Reset,
    Start,
    Pause,
}

} // verus!
