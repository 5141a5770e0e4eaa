use vstd::prelude::*;
use crate::layout::{
    describe, spec_offset, InputStepMode, Slot, Vertex, VertexBufferDescriptor, VertexFormat,
};
use crate::record::Record;
use crate::scalar::{is_zero, spec_is_zero, ONE, ZERO};

verus! {

/// Four scalar words, in the order the kernel reads them.
#[derive(Clone, Copy, Debug, PartialEq, Eq, Structural)]
pub struct Vec4 {
    pub x: u32,
    pub y: u32,
    pub z: u32,
    pub w: u32,
}

impl Vec4 {
    /// The four words in memory order.
    pub open spec fn words(self) -> Seq<u32> {
        seq![self.x, self.y, self.z, self.w]
    }

    /// Appends the four words to `out`.
    pub fn push_words(&self, out: &mut Vec<u32>)
        ensures
            final(out)@ == old(out)@ + self.words(),
    {
        out.push(self.x);
        out.push(self.y);
        out.push(self.z);
        out.push(self.w);
        assert(out@ =~= old(out)@ + self.words());
    }
}

/// One agent: a homogeneous position and a velocity.
#[derive(Clone, Copy, Debug, PartialEq, Eq, Structural)]
pub struct Boid {
    pub pos: Vec4,
    pub vel: Vec4,
}

impl Boid {
    /// A position has `w` one, a velocity has `w` zero.
    pub open spec fn wf(self) -> bool {
        self.pos.w == ONE && self.vel.w == ZERO
    }

    /// The record the three position and three velocity words describe.
    pub open spec fn spec_new(p: (u32, u32, u32), v: (u32, u32, u32)) -> Boid {
        Boid {
            pos: Vec4 { x: p.0, y: p.1, z: p.2, w: ONE },
            vel: Vec4 { x: v.0, y: v.1, z: v.2, w: ZERO },
        }
    }

    /// Builds an agent from its position and velocity components.
    pub fn new(p: (u32, u32, u32), v: (u32, u32, u32)) -> (b: Boid)
        ensures
            b == Self::spec_new(p, v),
            b.wf(),
    {
        Boid {
            pos: Vec4 { x: p.0, y: p.1, z: p.2, w: ONE },
            vel: Vec4 { x: v.0, y: v.1, z: v.2, w: ZERO },
        }
    }

    /// The eight words of the record, position first.
    pub open spec fn words(self) -> Seq<u32> {
        self.pos.words() + self.vel.words()
    }

    /// The velocity has no direction: all three components encode zero.
    pub open spec fn spec_is_at_rest(self) -> bool {
        spec_is_zero(self.vel.x) && spec_is_zero(self.vel.y) && spec_is_zero(self.vel.z)
    }

    /// Tells whether the velocity is the zero vector.
    pub fn is_at_rest(&self) -> (r: bool)
        ensures
            r == self.spec_is_at_rest(),
    {
        is_zero(self.vel.x) && is_zero(self.vel.y) && is_zero(self.vel.z)
    }
}

impl Record for Boid {
    open spec fn spec_word_count() -> nat {
        8
    }

    open spec fn spec_words(&self) -> Seq<u32> {
        self.words()
    }

    proof fn lemma_word_count(&self) {
    }

    fn push_words(&self, out: &mut Vec<u32>) {
        self.pos.push_words(out);
        self.vel.push_words(out);
        assert(out@ =~= old(out)@ + self.words());
    }
}

impl Vertex for Boid {
    open spec fn spec_stride() -> u64 {
        32
    }

    open spec fn spec_step_mode() -> InputStepMode {
        InputStepMode::Vertex
    }

    open spec fn spec_slots() -> Seq<Slot> {
        seq![Slot { shader_location: 0, format: VertexFormat::Float4 }]
    }

    /// Only the position is fed to the shader; the velocity is skipped over.
    fn desc() -> (d: VertexBufferDescriptor) {
        let mut slots: Vec<Slot> = Vec::new();
        slots.push(Slot { shader_location: 0, format: VertexFormat::Float4 });
        proof {
            assert(slots@ =~= Self::spec_slots());
            reveal_with_fuel(spec_offset, 2);
        }
        describe(32, InputStepMode::Vertex, &slots)
    }
}

} // verus!
