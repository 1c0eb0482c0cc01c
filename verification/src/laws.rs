//! The engine's cross-call guarantees, stated over [`EngineModel`] — the
//! abstract state that every operation's contract is written against — and
//! proved once for all engines.

use vstd::prelude::*;

use crate::diffusion::after_event;
use crate::diffusion::after_reset;
use crate::diffusion::after_step;
use crate::diffusion::current_parity;
use crate::diffusion::step_flushes;
use crate::diffusion::step_reseeds;
use crate::diffusion::EngineModel;
use crate::event::Event;

verus! {

/// The state after `n` consecutive `step` calls.
pub open spec fn after_steps(m: EngineModel, n: nat) -> EngineModel
    decreases n,
{
    if n == 0 {
        m
    } else {
        after_step(after_steps(m, (n - 1) as nat))
    }
}

/// The step counter counts exactly: `n` consecutive `step` calls advance
/// `step_number` by exactly `n`, and leave the parameter block untouched.
/// In particular, an engine constructed with `step_number == 0` reads `n`
/// after its first `n` steps.
pub proof fn lemma_step_number_counts(m: EngineModel, n: nat)
    ensures
        after_steps(m, n).step_number == m.step_number + n,
        after_steps(m, n).params == m.params,
        m.step_number == 0 ==> after_steps(m, n).step_number == n,
    decreases n,
{
    if n > 0 {
        lemma_step_number_counts(m, (n - 1) as nat);
    }
}

/// Generation selection alternates deterministically: after an even number
/// of completed steps the next dispatch reads generation 0, after an odd
/// number generation 1, and each step flips the selection.
pub proof fn lemma_generation_alternates(m: EngineModel)
    ensures
        m.step_number % 2 == 0 ==> current_parity(m) == 0,
        m.step_number % 2 == 1 ==> current_parity(m) == 1,
        current_parity(after_step(m)) != current_parity(m),
{
}

/// Whether a command acts as one of the five parameter setters.
pub open spec fn is_param_setter(e: Event) -> bool {
    match e {
        Event::SetDiffusionA(_) => true,
        Event::SetDiffusionB(_) => true,
        Event::SetFeed(_) => true,
        Event::SetKill(_) => true,
        Event::SetTimestep(_) => true,
        _ => false,
    }
}

/// The dirty-flag protocol flushes exactly once per change: after any
/// parameter setter the next step flushes and leaves the flag clear, and a
/// step on a clean engine performs no flush.
pub proof fn lemma_setter_then_step_flushes(m: EngineModel, e: Event)
    requires
        is_param_setter(e),
    ensures
        step_flushes(after_event(m, e)),
        !after_step(after_event(m, e)).params_dirty,
        !m.params_dirty ==> !step_flushes(m),
{
}

/// `reset` takes effect on the following step: it makes that step rewrite
/// the field buffers with the seed pattern, and the pending flag is clear
/// immediately after the step.
pub proof fn lemma_reset_then_step_reseeds(m: EngineModel)
    ensures
        step_reseeds(after_reset(m)),
        !after_step(after_reset(m)).reset_pending,
{
}

/// `reset` is idempotent: asking twice before a step is indistinguishable
/// from asking once, so the seed is applied exactly once on the next step.
pub proof fn lemma_reset_idempotent(m: EngineModel)
    ensures
        after_reset(after_reset(m)) == after_reset(m),
{
}

} // verus!
