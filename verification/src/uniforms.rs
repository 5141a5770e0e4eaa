use vstd::prelude::*;
use crate::record::Record;
use crate::scalar::ZERO;

verus! {

/// The small block the kernel reads on every tick.
#[derive(Clone, Copy, Debug, PartialEq, Eq, Structural)]
pub struct ComputeUniforms {
    pub triangle_count: u32,
    pub sample_count: u32,
    pub delta: u32,
}

impl ComputeUniforms {
    /// Bytes the block takes in a buffer.
    pub const SIZE: u64 = 12;

    /// The block for a scene of `scene_index_count` indices and a cloud of
    /// `sample_count` points, before any time has passed.
    pub open spec fn spec_new(scene_index_count: u32, sample_count: u32) -> ComputeUniforms {
        ComputeUniforms {
            triangle_count: (scene_index_count / 3) as u32,
            sample_count,
            delta: ZERO,
        }
    }

    /// Builds the block at construction: three indices make a triangle, and
    /// the elapsed time starts at zero.
    pub fn new(scene_index_count: u32, sample_count: u32) -> (u: ComputeUniforms)
        ensures
            u == Self::spec_new(scene_index_count, sample_count),
    {
        ComputeUniforms { triangle_count: scene_index_count / 3, sample_count, delta: ZERO }
    }

    /// Overwrites the elapsed time and nothing else.
    pub fn set_delta(&mut self, delta: u32)
        ensures
            final(self).delta == delta,
            final(self).triangle_count == old(self).triangle_count,
            final(self).sample_count == old(self).sample_count,
    {
        self.delta = delta;
    }
}

impl Record for ComputeUniforms {
    open spec fn spec_word_count() -> nat {
        3
    }

    /// Triangle count, sample count, elapsed time.
    open spec fn spec_words(&self) -> Seq<u32> {
        seq![self.triangle_count, self.sample_count, self.delta]
    }

    proof fn lemma_word_count(&self) {
    }

    fn push_words(&self, out: &mut Vec<u32>) {
        out.push(self.triangle_count);
        out.push(self.sample_count);
        out.push(self.delta);
        assert(out@ =~= old(out)@ + self.spec_words());
    }
}

} // verus!
