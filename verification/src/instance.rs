use vstd::prelude::*;
use crate::boid::{Boid, Vec4};
use crate::layout::{
    describe, spec_offset, InputStepMode, Slot, Vertex, VertexBufferDescriptor, VertexFormat,
};
use crate::record::Record;

verus! {

/// Where an instance points.
#[derive(Clone, Copy, Debug, PartialEq, Eq, Structural)]
pub enum Heading {
    /// No direction to follow: the instance keeps the identity rotation.
    Identity,
    /// The shortest arc from the reference axis onto this direction, which
    /// is still to be normalised.
    Along { x: u32, y: u32, z: u32 },
}

/// What the renderer needs of one agent: where it is and where it points.
#[derive(Clone, Copy, Debug, PartialEq, Eq, Structural)]
pub struct Instance {
    pub x: u32,
    pub y: u32,
    pub z: u32,
    pub heading: Heading,
}

/// The instance an agent is drawn as.
pub open spec fn spec_project(agent: Boid) -> Instance {
    Instance {
        x: agent.pos.x,
        y: agent.pos.y,
        z: agent.pos.z,
        heading: if agent.spec_is_at_rest() {
            Heading::Identity
        } else {
            Heading::Along { x: agent.vel.x, y: agent.vel.y, z: agent.vel.z }
        },
    }
}

/// Derives the instance of an agent: its position, and a heading along its
/// velocity, or the identity where the velocity is the zero vector.
pub fn project(agent: &Boid) -> (inst: Instance)
    ensures
        inst == spec_project(*agent),
        inst.heading is Identity <==> agent.spec_is_at_rest(),
{
    let heading = if agent.is_at_rest() {
        Heading::Identity
    } else {
        Heading::Along { x: agent.vel.x, y: agent.vel.y, z: agent.vel.z }
    };
    Instance { x: agent.pos.x, y: agent.pos.y, z: agent.pos.z, heading }
}

/// The instances of a whole buffer, in order.
pub open spec fn spec_project_all(agents: Seq<Boid>) -> Seq<Instance> {
    Seq::new(agents.len(), |i: int| spec_project(agents[i]))
}

/// Projects every agent of a buffer.
pub fn project_all(agents: &Vec<Boid>) -> (out: Vec<Instance>)
    ensures
        out@ == spec_project_all(agents@),
{
    let mut out: Vec<Instance> = Vec::new();
    let mut i: usize = 0;
    while i < agents.len()
        invariant
            i <= agents.len(),
            out.len() == i,
            forall|j: int| 0 <= j < i ==> out@[j] == spec_project(agents@[j]),
        decreases agents.len() - i,
    {
        let inst = project(&agents[i]);
        out.push(inst);
        i = i + 1;
    }
    out
}

/// One cell of the static grid: its place on the ground plane, in whole
/// units, and whether it sits at the origin.
#[derive(Clone, Copy, Debug, PartialEq, Eq, Structural)]
pub struct GridCell {
    pub x: i32,
    pub z: i32,
    pub at_origin: bool,
}

/// The cell in column `col` of row `row`.
pub open spec fn spec_grid_cell(row: int, col: int) -> GridCell {
    GridCell {
        x: (3 * (col - 50)) as i32,
        z: (3 * (row - 50)) as i32,
        at_origin: col == 50 && row == 50,
    }
}

/// The grid row by row, each row from its first column on.
pub open spec fn spec_grid() -> Seq<GridCell> {
    Seq::new(10000, |k: int| spec_grid_cell(k / 100, k % 100))
}

impl Instance {
    /// Distance between two neighbours of the static grid.
    pub const SPACE_BETWEEN: i32 = 3;

    /// Instances along one side of the static grid.
    pub const NUM_INSTANCES_PER_ROW: u32 = 100;

    /// Instances in the static grid.
    pub const NUM_INSTANCES: u32 = 10000;

    /// Lays out the static grid, centred on the origin.
    pub fn setup_instances() -> (cells: Vec<GridCell>)
        ensures
            cells@ == spec_grid(),
            cells@.len() == Self::NUM_INSTANCES,
    {
        let mut cells: Vec<GridCell> = Vec::new();
        let mut row: u32 = 0;
        while row < Self::NUM_INSTANCES_PER_ROW
            invariant
                row <= Self::NUM_INSTANCES_PER_ROW,
                cells.len() == row * 100,
                forall|k: int| 0 <= k < cells.len() ==> cells@[k] == spec_grid()[k],
            decreases Self::NUM_INSTANCES_PER_ROW - row,
        {
            let mut col: u32 = 0;
            while col < Self::NUM_INSTANCES_PER_ROW
                invariant
                    row < Self::NUM_INSTANCES_PER_ROW,
                    col <= Self::NUM_INSTANCES_PER_ROW,
                    cells.len() == row * 100 + col,
                    forall|k: int| 0 <= k < cells.len() ==> cells@[k] == spec_grid()[k],
                decreases Self::NUM_INSTANCES_PER_ROW - col,
            {
                let x: i32 = Self::SPACE_BETWEEN * (col as i32 - 50);
                let z: i32 = Self::SPACE_BETWEEN * (row as i32 - 50);
                let cell = GridCell { x, z, at_origin: x == 0 && z == 0 };
                proof {
                    let k = (row * 100 + col) as int;
                    assert(k / 100 == row && k % 100 == col);
                }
                cells.push(cell);
                col = col + 1;
            }
            row = row + 1;
        }
        cells
    }
}

/// A model matrix as the shader reads it: four columns of four words.
#[derive(Clone, Copy, Debug, PartialEq, Eq, Structural)]
pub struct InstanceRaw {
    pub x: Vec4,
    pub y: Vec4,
    pub z: Vec4,
    pub w: Vec4,
}

impl Vertex for InstanceRaw {
    open spec fn spec_stride() -> u64 {
        64
    }

    open spec fn spec_step_mode() -> InputStepMode {
        InputStepMode::Instance
    }

    open spec fn spec_slots() -> Seq<Slot> {
        seq![
            Slot { shader_location: 3, format: VertexFormat::Float4 },
            Slot { shader_location: 4, format: VertexFormat::Float4 },
            Slot { shader_location: 5, format: VertexFormat::Float4 },
            Slot { shader_location: 6, format: VertexFormat::Float4 },
        ]
    }

    /// One column of the matrix per shader location.
    fn desc() -> (d: VertexBufferDescriptor) {
        let mut slots: Vec<Slot> = Vec::new();
        slots.push(Slot { shader_location: 3, format: VertexFormat::Float4 });
        slots.push(Slot { shader_location: 4, format: VertexFormat::Float4 });
        slots.push(Slot { shader_location: 5, format: VertexFormat::Float4 });
        slots.push(Slot { shader_location: 6, format: VertexFormat::Float4 });
        proof {
            assert(slots@ =~= Self::spec_slots());
            reveal_with_fuel(spec_offset, 5);
        }
        describe(64, InputStepMode::Instance, &slots)
    }
}

impl Record for InstanceRaw {
    open spec fn spec_word_count() -> nat {
        16
    }

    /// Column after column.
    open spec fn spec_words(&self) -> Seq<u32> {
        self.x.words() + self.y.words() + self.z.words() + self.w.words()
    }

    proof fn lemma_word_count(&self) {
    }

    fn push_words(&self, out: &mut Vec<u32>) {
        self.x.push_words(out);
        self.y.push_words(out);
        self.z.push_words(out);
        self.w.push_words(out);
        assert(out@ =~= old(out)@ + self.spec_words());
    }
}

} // verus!
