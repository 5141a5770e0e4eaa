use vstd::prelude::*;

verus! {

/// How the components of one vertex attribute are stored.
#[derive(Clone, Copy, Debug, PartialEq, Eq, Structural)]
pub enum VertexFormat {
    Float2,
    Float3,
    Float4,
}

impl VertexFormat {
    /// Bytes one attribute of this format takes.
    pub open spec fn spec_size(self) -> int {
        match self {
            VertexFormat::Float2 => 8,
            VertexFormat::Float3 => 12,
            VertexFormat::Float4 => 16,
        }
    }

    /// Bytes one attribute of this format takes.
    pub fn size(self) -> (n: u64)
        ensures
            n == self.spec_size(),
    {
        match self {
            VertexFormat::Float2 => 8,
            VertexFormat::Float3 => 12,
            VertexFormat::Float4 => 16,
        }
    }
}

/// Whether a buffer advances once per vertex or once per instance.
#[derive(Clone, Copy, Debug, PartialEq, Eq, Structural)]
pub enum InputStepMode {
    Vertex,
    Instance,
}

/// A shader location and the format bound to it.
#[derive(Clone, Copy, Debug, PartialEq, Eq, Structural)]
pub struct Slot {
    pub shader_location: u32,
    pub format: VertexFormat,
}

/// One attribute within a vertex record.
#[derive(Clone, Copy, Debug, PartialEq, Eq, Structural)]
pub struct VertexAttribute {
    pub offset: u64,
    pub shader_location: u32,
    pub format: VertexFormat,
}

/// The record layout of one vertex buffer.
pub struct VertexBufferDescriptor {
    pub stride: u64,
    pub step_mode: InputStepMode,
    pub attributes: Vec<VertexAttribute>,
}

/// Bytes taken by the first `n` slots when each follows the other with no
/// gap.
pub open spec fn spec_offset(slots: Seq<Slot>, n: int) -> int
    decreases n,
{
    if n <= 0 {
        0
    } else {
        spec_offset(slots, n - 1) + slots[n - 1].format.spec_size()
    }
}

/// The attributes of tightly packed slots: each where the one before ends.
pub open spec fn spec_attr_array(slots: Seq<Slot>) -> Seq<VertexAttribute> {
    Seq::new(
        slots.len(),
        |i: int|
            VertexAttribute {
                offset: spec_offset(slots, i) as u64,
                shader_location: slots[i].shader_location,
                format: slots[i].format,
            },
    )
}

/// No prefix of slots takes more than sixteen bytes a slot.
pub proof fn lemma_offset_bound(slots: Seq<Slot>, n: int)
    requires
        0 <= n <= slots.len(),
    ensures
        0 <= spec_offset(slots, n) <= 16 * n,
    decreases n,
{
    if n > 0 {
        lemma_offset_bound(slots, n - 1);
    }
}

/// Computes the attributes of tightly packed slots.
pub fn vertex_attr_array(slots: &Vec<Slot>) -> (out: Vec<VertexAttribute>)
    requires
        16 * slots@.len() <= u64::MAX,
    ensures
        out@ == spec_attr_array(slots@),
{
    let mut out: Vec<VertexAttribute> = Vec::new();
    let mut offset: u64 = 0;
    let mut i: usize = 0;
    while i < slots.len()
        invariant
            16 * slots@.len() <= u64::MAX,
            i <= slots.len(),
            out.len() == i,
            offset == spec_offset(slots@, i as int),
            forall|j: int| 0 <= j < i ==> out@[j] == spec_attr_array(slots@)[j],
        decreases slots.len() - i,
    {
        let slot = slots[i];
        out.push(
            VertexAttribute { offset, shader_location: slot.shader_location, format: slot.format },
        );
        proof {
            lemma_offset_bound(slots@, i as int + 1);
        }
        offset = offset + slot.format.size();
        i = i + 1;
    }
    out
}

impl VertexBufferDescriptor {
    /// Every attribute lies within one record.
    pub open spec fn spec_fits(self) -> bool {
        forall|i: int|
            0 <= i < self.attributes@.len() ==> (#[trigger] self.attributes@[i]).offset
                + self.attributes@[i].format.spec_size() <= self.stride
    }

    /// Tells whether every attribute lies within one record.
    pub fn fits(&self) -> (r: bool)
        ensures
            r == self.spec_fits(),
    {
        let mut i: usize = 0;
        while i < self.attributes.len()
            invariant
                i <= self.attributes.len(),
                forall|j: int|
                    0 <= j < i ==> (#[trigger] self.attributes@[j]).offset
                        + self.attributes@[j].format.spec_size() <= self.stride,
            decreases self.attributes.len() - i,
        {
            let a = self.attributes[i];
            if a.offset > self.stride || self.stride - a.offset < a.format.size() {
                return false;
            }
            i = i + 1;
        }
        true
    }
}

/// A record type that can say how it lies in a vertex buffer.
pub trait Vertex {
    /// Bytes from one record to the next.
    spec fn spec_stride() -> u64;

    /// How the buffer advances.
    spec fn spec_step_mode() -> InputStepMode;

    /// The shader locations the record feeds, in memory order.
    spec fn spec_slots() -> Seq<Slot>;

    /// The layout of the record: its stride, its step mode and its
    /// attributes, tightly packed from the start of the record.
    fn desc() -> (d: VertexBufferDescriptor)
        ensures
            d.stride == Self::spec_stride(),
            d.step_mode == Self::spec_step_mode(),
            d.attributes@ == spec_attr_array(Self::spec_slots()),
            d.spec_fits(),
    ;
}

/// Builds a descriptor of `stride` bytes from tightly packed slots.
pub fn describe(stride: u64, step_mode: InputStepMode, slots: &Vec<Slot>) -> (d:
    VertexBufferDescriptor)
    requires
        16 * slots@.len() <= u64::MAX,
    ensures
        d.stride == stride,
        d.step_mode == step_mode,
        d.attributes@ == spec_attr_array(slots@),
        spec_offset(slots@, slots@.len() as int) <= stride ==> d.spec_fits(),
{
    let attributes = vertex_attr_array(slots);
    proof {
        if spec_offset(slots@, slots@.len() as int) <= stride {
            assert forall|i: int| 0 <= i < attributes@.len() implies (#[trigger] attributes@[i]).offset
                + attributes@[i].format.spec_size() <= stride by {
                lemma_offset_bound(slots@, i);
                lemma_offset_monotone(slots@, i + 1, slots@.len() as int);
            }
        }
    }
    VertexBufferDescriptor { stride, step_mode, attributes }
}

/// A longer prefix of slots takes no fewer bytes.
pub proof fn lemma_offset_monotone(slots: Seq<Slot>, m: int, n: int)
    requires
        0 <= m <= n <= slots.len(),
    ensures
        spec_offset(slots, m) <= spec_offset(slots, n),
    decreases n - m,
{
    if m < n {
        lemma_offset_monotone(slots, m, n - 1);
    }
}

} // verus!
