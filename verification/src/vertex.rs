use vstd::prelude::*;
use crate::layout::{
    describe, spec_attr_array, spec_offset, InputStepMode, Slot, VertexBufferDescriptor,
    VertexFormat,
};
use crate::model::Vec2;

verus! {

/// A record type that describes its own vertex buffer.
pub trait VBDesc {
    /// Bytes from one record to the next.
    spec fn spec_stride() -> u64;

    /// The shader locations the record feeds, in memory order.
    spec fn spec_slots() -> Seq<Slot>;

    /// The layout of the record, one record per vertex.
    fn desc() -> (d: VertexBufferDescriptor)
        ensures
            d.stride == Self::spec_stride(),
            d.step_mode == InputStepMode::Vertex,
            d.attributes@ == spec_attr_array(Self::spec_slots()),
            d.spec_fits(),
    ;
}

/// A textured vertex: three position words and a texture coordinate.
#[derive(Clone, Copy, Debug, PartialEq, Eq, Structural)]
pub struct Vertex {
    pub x: u32,
    pub y: u32,
    pub z: u32,
    pub tex_coords: Vec2,
}

impl VBDesc for Vertex {
    open spec fn spec_stride() -> u64 {
        20
    }

    open spec fn spec_slots() -> Seq<Slot> {
        seq![
            Slot { shader_location: 0, format: VertexFormat::Float3 },
            Slot { shader_location: 1, format: VertexFormat::Float2 },
        ]
    }

    fn desc() -> (d: VertexBufferDescriptor) {
        let mut slots: Vec<Slot> = Vec::new();
        slots.push(Slot { shader_location: 0, format: VertexFormat::Float3 });
        slots.push(Slot { shader_location: 1, format: VertexFormat::Float2 });
        proof {
            assert(slots@ =~= Self::spec_slots());
            reveal_with_fuel(spec_offset, 3);
        }
        describe(20, InputStepMode::Vertex, &slots)
    }
}

} // verus!
