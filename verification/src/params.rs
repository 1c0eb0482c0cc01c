//! The parameter block consumed by the compute kernel.
//!
//! The kernel addresses its parameters positionally, so the wire layout is
//! fixed: `width, height, size, timestep, diffusion_a, diffusion_b, feed,
//! kill`, one 32-bit word each. The four physical rates and the timestep are
//! IEEE 754 single-precision bit patterns; the engine hands them through
//! unchanged.

use vstd::prelude::*;

verus! {

/// The single source of truth for the kernel's runtime parameters. `size`
/// is derived: it always equals `width * height`.
#[derive(Clone, Copy, PartialEq, Eq, Structural, Debug)]
pub struct ParamBlock {
    pub width: u32,
    pub height: u32,
    pub size: u32,
    /// Bit pattern of the discretized timestep.
    pub timestep: u32,
    /// Bit pattern of the diffusion rate of species A.
    pub diffusion_a: u32,
    /// Bit pattern of the diffusion rate of species B.
    pub diffusion_b: u32,
    /// Bit pattern of the feed rate.
    pub feed: u32,
    /// Bit pattern of the kill rate.
    pub kill: u32,
}

impl ParamBlock {
    /// Whether the block is internally consistent: a non-empty grid whose
    /// cell count is the recorded `size`.
    pub open spec fn wf(self) -> bool {
        &&& self.width > 0
        &&& self.height > 0
        &&& self.size == self.width * self.height
    }

    /// The fixed wire layout: the eight 32-bit words, in the order the
    /// kernel addresses them.
    pub open spec fn wire(self) -> Seq<u32> {
        seq![
            self.width,
            self.height,
            self.size,
            self.timestep,
            self.diffusion_a,
            self.diffusion_b,
            self.feed,
            self.kill,
        ]
    }

    /// Encode the block in its wire layout, ready to be uploaded to the
    /// device-resident parameter buffer.
    pub fn encode(&self) -> (r: Vec<u32>)
        ensures
            r@ == self.wire(),
    {
        let mut r: Vec<u32> = Vec::new();
        r.push(self.width);
        r.push(self.height);
        r.push(self.size);
        r.push(self.timestep);
        r.push(self.diffusion_a);
        r.push(self.diffusion_b);
        r.push(self.feed);
        r.push(self.kill);
        assert(r@ =~= self.wire());
        r
    }
}

} // verus!
