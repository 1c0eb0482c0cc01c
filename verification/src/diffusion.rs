//! The simulation engine: the double-buffered concentration-field state, its
//! parameter hot-update protocol, and its per-step bookkeeping.
//!
//! The engine owns the kernel's parameter block, a monotonic step counter,
//! and two sticky flags. Parameter changes and resets are buffered: a setter
//! only records the new value and marks the block dirty, `reset` only marks
//! a reseed pending. The next call to [`Diffusion::step`] turns the recorded
//! state into a [`StepPlan`] — the exact sequence of device writes and the
//! kernel dispatch the host must perform for this step — and advances the
//! counter. The two concentration fields exist in two generations each,
//! ping-ponged by the parity of the step counter so that a dispatch never
//! reads a buffer it is writing.

use vstd::prelude::*;

use crate::config::Config;
use crate::config::ConfigError;
use crate::event::Event;
use crate::params::ParamBlock;
use crate::seed::init_values;
use crate::seed::seed_a;
use crate::seed::seed_b;
use crate::WORKGROUP_SIZE;

verus! {

/// The engine's abstract state: the in-memory parameter block, the number of
/// completed steps, and the two deferred-write flags.
pub struct EngineModel {
    pub params: ParamBlock,
    pub step_number: nat,
    pub params_dirty: bool,
    pub reset_pending: bool,
}

/// The parameter block a configuration describes: dimensions and physical
/// bit patterns copied through, `size` derived as `width * height`.
pub open spec fn block_of(c: Config) -> ParamBlock {
    ParamBlock {
        width: c.width,
        height: c.height,
        size: (c.width * c.height) as u32,
        timestep: c.timestep,
        diffusion_a: c.diffusion_a,
        diffusion_b: c.diffusion_b,
        feed: c.feed,
        kill: c.kill,
    }
}

/// A configuration the engine accepts: a non-empty grid whose cell count
/// fits one 32-bit word of the parameter block's wire layout.
pub open spec fn config_valid(c: Config) -> bool {
    &&& c.width > 0
    &&& c.height > 0
    &&& c.width * c.height <= u32::MAX
}

/// The engine's state immediately after construction: the configured
/// parameter block, no completed steps, nothing deferred.
pub open spec fn initial_state(c: Config) -> EngineModel {
    EngineModel {
        params: block_of(c),
        step_number: 0,
        params_dirty: false,
        reset_pending: false,
    }
}

/// The state after `reset`: only the reseed becomes pending.
pub open spec fn after_reset(m: EngineModel) -> EngineModel {
    EngineModel { reset_pending: true, ..m }
}

/// The state after one `step`: both deferred writes have been carried out,
/// the counter has advanced by exactly one.
pub open spec fn after_step(m: EngineModel) -> EngineModel {
    EngineModel { step_number: m.step_number + 1, params_dirty: false, reset_pending: false, ..m }
}

/// Whether the next `step` will flush the parameter block.
pub open spec fn step_flushes(m: EngineModel) -> bool {
    m.params_dirty
}

/// Whether the next `step` will rewrite the field buffers with the seed
/// pattern.
pub open spec fn step_reseeds(m: EngineModel) -> bool {
    m.reset_pending
}

/// The generation pair the next `step` reads: generation 0 after an even
/// number of completed steps, generation 1 after an odd number. The same
/// parity names the generation holding the most recently completed step's
/// output.
pub open spec fn current_parity(m: EngineModel) -> nat {
    m.step_number % 2
}

/// The state a control command leaves the engine in. The five parameter
/// commands overwrite one field of the block and mark it dirty; `Reset`
/// marks a reseed pending; `SetStepsPerFrame` addresses the host, and
/// `Start` and `Pause` are not wired to any effect, so these three leave the
/// engine unchanged.
pub open spec fn after_event(m: EngineModel, e: Event) -> EngineModel {
    match e {
        Event::SetDiffusionA(bits) => (EngineModel {
            params: ParamBlock { diffusion_a: bits, ..m.params },
            params_dirty: true,
            ..m
        }),
        Event::SetDiffusionB(bits) => (EngineModel {
            params: ParamBlock { diffusion_b: bits, ..m.params },
            params_dirty: true,
            ..m
        }),
        Event::SetFeed(bits) => (EngineModel {
            params: ParamBlock { feed: bits, ..m.params },
            params_dirty: true,
            ..m
        }),
        Event::SetKill(bits) => (EngineModel {
            params: ParamBlock { kill: bits, ..m.params },
            params_dirty: true,
            ..m
        }),
        Event::SetTimestep(bits) => (EngineModel {
            params: ParamBlock { timestep: bits, ..m.params },
            params_dirty: true,
            ..m
        }),
        Event::Reset => after_reset(m),
        Event::SetStepsPerFrame(_) => m,
        Event::Start => m,
        Event::Pause => m,
    }
}

/// Everything the host must do for one step, in order: upload the parameter
/// words if present, then write both seed fields into both generations if
/// present, then dispatch `workgroups` kernel workgroups reading the
/// `input_parity` generation pair and writing the other.
pub struct StepPlan {
    /// The parameter block in wire layout, present exactly when a setter ran
    /// since the last flush.
    pub flush: Option<Vec<u32>>,
    /// The seed values of species A and B, present exactly when a reset was
    /// pending; each field is written into both of its generations.
    pub reseed: Option<(Vec<u32>, Vec<u32>)>,
    /// The parity of the generation pair the dispatch reads; it writes the
    /// other pair.
    pub input_parity: u64,
    /// How many fixed-size workgroups cover the grid.
    pub workgroups: u32,
}

/// The simulation engine. It is constructed once from a configuration,
/// mutated only through its setters, `reset` and `step`, and owns the
/// authoritative copy of everything the kernel consumes.
#[derive(Debug)]
pub struct Diffusion {
    params: ParamBlock,
    step_number: u64,
    params_dirty: bool,
    reset_pending: bool,
}

impl View for Diffusion {
    type V = EngineModel;

    closed spec fn view(&self) -> EngineModel {
        EngineModel {
            params: self.params,
            step_number: self.step_number as nat,
            params_dirty: self.params_dirty,
            reset_pending: self.reset_pending,
        }
    }
}

impl Diffusion {
    /// The engine's invariant: its parameter block stays internally
    /// consistent for the whole of its life.
    pub open spec fn wf(self) -> bool {
        self@.params.wf()
    }

    /// Construct an engine from a configuration: adopt its parameter block,
    /// with no steps completed and nothing deferred. Rejected are an empty
    /// grid and a grid whose cell count does not fit the 32-bit `size` word
    /// of the parameter layout; no other configuration fails.
    pub fn new(config: &Config) -> (r: Result<Diffusion, ConfigError>)
        ensures
            r is Ok <==> config_valid(*config),
            r matches Ok(engine) ==> engine@ == initial_state(*config) && engine.wf(),
            (config.width == 0 || config.height == 0) <==> r == Result::<Diffusion, ConfigError>::Err(ConfigError::ZeroDimension),
            (config.width > 0 && config.height > 0 && config.width * config.height > u32::MAX)
                <==> r == Result::<Diffusion, ConfigError>::Err(ConfigError::GridTooLarge),
    {
        if config.width == 0 || config.height == 0 {
            return Err(ConfigError::ZeroDimension);
        }
        proof {
            assert((config.width as int) * (config.height as int)
                <= (u32::MAX as int) * (u32::MAX as int)) by (nonlinear_arith)
                requires
                    config.width <= u32::MAX,
                    config.height <= u32::MAX,
            ;
        }
        let size: u64 = (config.width as u64) * (config.height as u64);
        if size > u32::MAX as u64 {
            return Err(ConfigError::GridTooLarge);
        }
        Ok(Diffusion {
            params: ParamBlock {
                width: config.width,
                height: config.height,
                size: size as u32,
                timestep: config.timestep,
                diffusion_a: config.diffusion_a,
                diffusion_b: config.diffusion_b,
                feed: config.feed,
                kill: config.kill,
            },
            step_number: 0,
            params_dirty: false,
            reset_pending: false,
        })
    }

    /// The in-memory parameter block: the latest value of every parameter,
    /// whether or not it has been flushed to the device yet.
    pub fn params(&self) -> (r: ParamBlock)
        ensures
            r == self@.params,
    {
        self.params
    }

    /// The number of completed steps. Starts at 0 and advances by exactly
    /// one per `step` call.
    pub fn step_number(&self) -> (r: u64)
        ensures
            r == self@.step_number,
    {
        self.step_number
    }

    /// Whether a parameter change is waiting to be flushed on the next step.
    pub fn parameters_dirty(&self) -> (r: bool)
        ensures
            r == self@.params_dirty,
    {
        self.params_dirty
    }

    /// Whether a reseed is waiting to be carried out on the next step.
    pub fn reset_pending(&self) -> (r: bool)
        ensures
            r == self@.reset_pending,
    {
        self.reset_pending
    }

    /// The parity of the generation pair holding the most recently completed
    /// step's output; the next step reads this pair and writes the other.
    pub fn current_generation(&self) -> (r: u64)
        ensures
            r == current_parity(self@),
            r == 0 || r == 1,
    {
        self.step_number % 2
    }

    /// The seed values the engine's grid (re)starts from, for species A and
    /// B in that order.
    pub fn seed_values(&self) -> (r: (Vec<u32>, Vec<u32>))
        requires
            self.wf(),
        ensures
            r.0@ == seed_a(self@.params.width as nat, self@.params.height as nat),
            r.1@ == seed_b(self@.params.width as nat, self@.params.height as nat),
    {
        init_values(self.params.width, self.params.height)
    }

    /// Overwrite the feed rate (an IEEE 754 bit pattern) and mark the block
    /// dirty. Any value is accepted; none is validated.
    pub fn set_feed(&mut self, feed: u32)
        ensures
            final(self)@ == (EngineModel {
                params: ParamBlock { feed, ..old(self)@.params },
                params_dirty: true,
                ..old(self)@
            }),
            final(self)@ == after_event(old(self)@, Event::SetFeed(feed)),
            old(self).wf() ==> final(self).wf(),
    {
        self.params_dirty = true;
        self.params.feed = feed;
    }

    /// Overwrite the kill rate (an IEEE 754 bit pattern) and mark the block
    /// dirty. Any value is accepted; none is validated.
    pub fn set_kill(&mut self, kill: u32)
        ensures
            final(self)@ == (EngineModel {
                params: ParamBlock { kill, ..old(self)@.params },
                params_dirty: true,
                ..old(self)@
            }),
            final(self)@ == after_event(old(self)@, Event::SetKill(kill)),
            old(self).wf() ==> final(self).wf(),
    {
        self.params_dirty = true;
        self.params.kill = kill;
    }

    /// Overwrite the diffusion rate of species A (an IEEE 754 bit pattern)
    /// and mark the block dirty. Any value is accepted; none is validated.
    pub fn set_diffusion_a(&mut self, diffusion_a: u32)
        ensures
            final(self)@ == (EngineModel {
                params: ParamBlock { diffusion_a, ..old(self)@.params },
                params_dirty: true,
                ..old(self)@
            }),
            final(self)@ == after_event(old(self)@, Event::SetDiffusionA(diffusion_a)),
            old(self).wf() ==> final(self).wf(),
    {
        self.params_dirty = true;
        self.params.diffusion_a = diffusion_a;
    }

    /// Overwrite the diffusion rate of species B (an IEEE 754 bit pattern)
    /// and mark the block dirty. Any value is accepted; none is validated.
    pub fn set_diffusion_b(&mut self, diffusion_b: u32)
        ensures
            final(self)@ == (EngineModel {
                params: ParamBlock { diffusion_b, ..old(self)@.params },
                params_dirty: true,
                ..old(self)@
            }),
            final(self)@ == after_event(old(self)@, Event::SetDiffusionB(diffusion_b)),
            old(self).wf() ==> final(self).wf(),
    {
        self.params_dirty = true;
        self.params.diffusion_b = diffusion_b;
    }

    /// Overwrite the timestep (an IEEE 754 bit pattern) and mark the block
    /// dirty. Any value is accepted; none is validated.
    pub fn set_timestep(&mut self, timestep: u32)
        ensures
            final(self)@ == (EngineModel {
                params: ParamBlock { timestep, ..old(self)@.params },
                params_dirty: true,
                ..old(self)@
            }),
            final(self)@ == after_event(old(self)@, Event::SetTimestep(timestep)),
            old(self).wf() ==> final(self).wf(),
    {
        self.params_dirty = true;
        self.params.timestep = timestep;
    }

    /// Ask for the field buffers to be rewritten with the seed pattern
    /// before the next dispatch. Nothing is touched now: the device writes
    /// must be sequenced into the next step.
    pub fn reset(&mut self)
        ensures
            final(self)@ == after_reset(old(self)@),
            old(self).wf() ==> final(self).wf(),
    {
        self.reset_pending = true;
    }

    /// Apply one control command: the five parameter commands act as the
    /// corresponding setter, `Reset` as `reset`, and the remaining commands
    /// leave the engine unchanged.
    pub fn handle_event(&mut self, e: &Event)
        ensures
            final(self)@ == after_event(old(self)@, *e),
            old(self).wf() ==> final(self).wf(),
    {
        match e {
            Event::SetDiffusionA(bits) => self.set_diffusion_a(*bits),
            Event::SetDiffusionB(bits) => self.set_diffusion_b(*bits),
            Event::SetFeed(bits) => self.set_feed(*bits),
            Event::SetKill(bits) => self.set_kill(*bits),
            Event::SetTimestep(bits) => self.set_timestep(*bits),
            Event::Reset => self.reset(),
            Event::SetStepsPerFrame(_) => (),
            Event::Start => (),
            Event::Pause => (),
        }
    }

    /// Advance the simulation by one step. The returned plan sequences the
    /// whole step for the host, in order: flush the parameter block exactly
    /// if it was dirty, rewrite all four field buffers with the seed pattern
    /// exactly if a reset was pending, then dispatch the kernel over the
    /// generation pair selected by the pre-step parity. The counter advances
    /// by exactly one and both flags are clear afterwards.
    pub fn step(&mut self) -> (plan: StepPlan)
        requires
            old(self).wf(),
            old(self)@.step_number < u64::MAX,
        ensures
            final(self)@ == after_step(old(self)@),
            final(self).wf(),
            plan.flush is Some <==> step_flushes(old(self)@),
            plan.flush matches Some(words) ==> words@ == old(self)@.params.wire(),
            plan.reseed is Some <==> step_reseeds(old(self)@),
            plan.reseed matches Some(pair) ==> pair.0@ == seed_a(
                old(self)@.params.width as nat,
                old(self)@.params.height as nat,
            ) && pair.1@ == seed_b(
                old(self)@.params.width as nat,
                old(self)@.params.height as nat,
            ),
            plan.input_parity == current_parity(old(self)@),
            plan.workgroups == (old(self)@.params.size + WORKGROUP_SIZE - 1) / (WORKGROUP_SIZE as int),
    {
        let flush: Option<Vec<u32>> = if self.params_dirty {
            self.params_dirty = false;
            Some(self.params.encode())
        } else {
            None
        };

        let reseed: Option<(Vec<u32>, Vec<u32>)> = if self.reset_pending {
            self.reset_pending = false;
            Some(init_values(self.params.width, self.params.height))
        } else {
            None
        };

        let input_parity: u64 = self.step_number % 2;
        let workgroups: u32 = (((self.params.size as u64) + (WORKGROUP_SIZE as u64) - 1)
            / (WORKGROUP_SIZE as u64)) as u32;

        self.step_number = self.step_number + 1;

        StepPlan { flush, reseed, input_parity, workgroups }
    }
}

} // verus!
