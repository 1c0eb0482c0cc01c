//! A word-for-word image of the engine-owned device-resident storage: the
//! parameter buffer and the four field buffers (two generations of each
//! species).
//!
//! The host keeps the real buffers on the accelerator; this type states what
//! their contents are after the write phase of each step, so that the
//! deferred-write protocol can be pinned down end to end: construction fills
//! both generations of both fields with the seed pattern, and
//! [`DeviceBuffers::apply_writes`] performs exactly the writes a
//! [`StepPlan`] calls for, in the plan's order, touching nothing else. The
//! kernel dispatch itself is outside: it rewrites the output generation with
//! values this library does not define.

use vstd::prelude::*;

use crate::diffusion::StepPlan;
use crate::params::ParamBlock;
use crate::seed::init_values;
use crate::seed::seed_a;
use crate::seed::seed_b;

verus! {

/// An element-wise copy of a word buffer.
fn copy_words(v: &Vec<u32>) -> (r: Vec<u32>)
    ensures
        r@ == v@,
{
    let mut r: Vec<u32> = Vec::new();
    let mut i: usize = 0;
    while i < v.len()
        invariant
            i <= v@.len(),
            r@ == v@.subrange(0, i as int),
        decreases v@.len() - i,
    {
        r.push(v[i]);
        proof {
            assert(r@ =~= v@.subrange(0, i + 1));
        }
        i = i + 1;
    }
    proof {
        assert(r@ =~= v@);
    }
    r
}

/// The contents of the five device-resident buffers.
pub struct DeviceBuffers {
    /// The parameter buffer, in the wire layout of [`ParamBlock::wire`].
    pub params: Vec<u32>,
    /// Species A, generation 0.
    pub a0: Vec<u32>,
    /// Species A, generation 1.
    pub a1: Vec<u32>,
    /// Species B, generation 0.
    pub b0: Vec<u32>,
    /// Species B, generation 1.
    pub b1: Vec<u32>,
}

impl DeviceBuffers {
    /// The buffer contents at engine construction: the parameter block
    /// uploaded once, and the same seed values written into both
    /// generations of each field, so that either parity can be current
    /// immediately.
    pub fn new(block: &ParamBlock) -> (r: DeviceBuffers)
        requires
            block.wf(),
        ensures
            r.params@ == block.wire(),
            r.a0@ == seed_a(block.width as nat, block.height as nat),
            r.a1@ == seed_a(block.width as nat, block.height as nat),
            r.b0@ == seed_b(block.width as nat, block.height as nat),
            r.b1@ == seed_b(block.width as nat, block.height as nat),
    {
        let (a_first, b_first) = init_values(block.width, block.height);
        let (a_second, b_second) = init_values(block.width, block.height);
        DeviceBuffers {
            params: block.encode(),
            a0: a_first,
            a1: a_second,
            b0: b_first,
            b1: b_second,
        }
    }

    /// Carry out the write phase of one step: upload the parameter words if
    /// the plan flushes, then overwrite all four field buffers — both
    /// generations of both species — with the seed values if the plan
    /// reseeds. A buffer the plan does not name keeps its contents.
    pub fn apply_writes(&mut self, plan: &StepPlan)
        ensures
            plan.flush matches Some(words) ==> final(self).params@ == words@,
            plan.flush is None ==> final(self).params == old(self).params,
            plan.reseed matches Some(pair) ==> final(self).a0@ == pair.0@
                && final(self).a1@ == pair.0@
                && final(self).b0@ == pair.1@
                && final(self).b1@ == pair.1@,
            plan.reseed is None ==> final(self).a0 == old(self).a0
                && final(self).a1 == old(self).a1
                && final(self).b0 == old(self).b0
                && final(self).b1 == old(self).b1,
    {
        if let Some(words) = &plan.flush {
            self.params = copy_words(words);
        }
        if let Some(pair) = &plan.reseed {
            self.a0 = copy_words(&pair.0);
            self.a1 = copy_words(&pair.0);
            self.b0 = copy_words(&pair.1);
            self.b1 = copy_words(&pair.1);
        }
    }
}

} // verus!
