use vstd::prelude::*;
use crate::boid::Vec4;
use crate::layout::{
    describe, spec_offset, InputStepMode, Slot, Vertex, VertexBufferDescriptor, VertexFormat,
};
use crate::record::Record;
use crate::scalar::{ONE, ZERO};

verus! {

/// The arrays of one mesh as a loader hands them over: flat runs of scalar
/// words, three per position and normal, two per texture coordinate.
pub struct ObjMesh {
    pub positions: Vec<u32>,
    pub normals: Vec<u32>,
    pub texcoords: Vec<u32>,
    pub indices: Vec<u32>,
    pub material_id: Option<usize>,
}

/// A named mesh.
pub struct ObjModel {
    pub name: String,
    pub mesh: ObjMesh,
}

/// Two scalar words: a texture coordinate.
#[derive(Clone, Copy, Debug, PartialEq, Eq, Structural)]
pub struct Vec2 {
    pub u: u32,
    pub v: u32,
}

/// A vertex with a position, a normal and a texture coordinate.
#[derive(Clone, Copy, Debug, PartialEq, Eq, Structural)]
pub struct ModelVertex {
    pub position: Vec4,
    pub normal: Vec4,
    pub tex_coords: Vec2,
}

impl ObjMesh {
    /// How many vertices the positions describe.
    pub open spec fn spec_vertex_count(self) -> int {
        self.positions@.len() as int / 3
    }

    /// Every vertex has its normal and its texture coordinate.
    pub open spec fn spec_is_complete(self) -> bool {
        &&& self.normals@.len() >= 3 * self.spec_vertex_count()
        &&& self.texcoords@.len() >= 2 * self.spec_vertex_count()
    }

    /// Tells whether every vertex has its normal and texture coordinate.
    pub fn is_complete(&self) -> (r: bool)
        ensures
            r == self.spec_is_complete(),
    {
        let n: usize = self.positions.len() / 3;
        self.normals.len() / 3 >= n && self.texcoords.len() / 2 >= n
    }

    /// The vertex at `i`: position with `w` one, normal with `w` zero.
    pub open spec fn spec_vertex(self, i: int) -> ModelVertex {
        ModelVertex {
            position: Vec4 {
                x: self.positions@[3 * i],
                y: self.positions@[3 * i + 1],
                z: self.positions@[3 * i + 2],
                w: ONE,
            },
            normal: Vec4 {
                x: self.normals@[3 * i],
                y: self.normals@[3 * i + 1],
                z: self.normals@[3 * i + 2],
                w: ZERO,
            },
            tex_coords: Vec2 { u: self.texcoords@[2 * i], v: self.texcoords@[2 * i + 1] },
        }
    }

    /// All vertices of the mesh, in order.
    pub open spec fn spec_vertices(self) -> Seq<ModelVertex> {
        Seq::new(self.spec_vertex_count() as nat, |i: int| self.spec_vertex(i))
    }

    /// Interleaves the flat arrays into vertices.
    pub fn vertices(&self) -> (out: Vec<ModelVertex>)
        requires
            self.spec_is_complete(),
        ensures
            out@ == self.spec_vertices(),
    {
        let n: usize = self.positions.len() / 3;
        let mut out: Vec<ModelVertex> = Vec::new();
        let mut i: usize = 0;
        while i < n
            invariant
                n == self.positions.len() / 3,
                self.spec_is_complete(),
                i <= n,
                out.len() == i,
                forall|j: int| 0 <= j < i ==> out@[j] == self.spec_vertex(j),
            decreases n - i,
        {
            let v = ModelVertex {
                position: Vec4 {
                    x: self.positions[i * 3],
                    y: self.positions[i * 3 + 1],
                    z: self.positions[i * 3 + 2],
                    w: ONE,
                },
                normal: Vec4 {
                    x: self.normals[i * 3],
                    y: self.normals[i * 3 + 1],
                    z: self.normals[i * 3 + 2],
                    w: ZERO,
                },
                tex_coords: Vec2 { u: self.texcoords[i * 2], v: self.texcoords[i * 2 + 1] },
            };
            out.push(v);
            i = i + 1;
        }
        out
    }

    /// The material the mesh draws with: its own, or the first.
    pub fn material(&self) -> (m: usize)
        ensures
            m == match self.material_id {
                Some(id) => id,
                None => 0usize,
            },
    {
        match self.material_id {
            Some(id) => id,
            None => 0,
        }
    }
}

impl Vertex for ModelVertex {
    open spec fn spec_stride() -> u64 {
        40
    }

    open spec fn spec_step_mode() -> InputStepMode {
        InputStepMode::Vertex
    }

    open spec fn spec_slots() -> Seq<Slot> {
        seq![
            Slot { shader_location: 0, format: VertexFormat::Float4 },
            Slot { shader_location: 1, format: VertexFormat::Float4 },
            Slot { shader_location: 2, format: VertexFormat::Float2 },
        ]
    }

    fn desc() -> (d: VertexBufferDescriptor) {
        let mut slots: Vec<Slot> = Vec::new();
        slots.push(Slot { shader_location: 0, format: VertexFormat::Float4 });
        slots.push(Slot { shader_location: 1, format: VertexFormat::Float4 });
        slots.push(Slot { shader_location: 2, format: VertexFormat::Float2 });
        proof {
            assert(slots@ =~= Self::spec_slots());
            reveal_with_fuel(spec_offset, 4);
        }
        describe(40, InputStepMode::Vertex, &slots)
    }
}

/// One mesh ready for upload.
pub struct Mesh {
    pub name: String,
    pub vertices: Vec<ModelVertex>,
    pub indices: Vec<u32>,
    pub num_elements: u32,
    pub material: usize,
}

/// The meshes of a model, in the order they were read.
pub struct Model {
    pub meshes: Vec<Mesh>,
}

/// A mesh that can be taken in: every vertex has its normal and its
/// texture coordinate.
pub open spec fn spec_loadable(m: ObjModel) -> bool {
    m.mesh.spec_is_complete()
}

/// What `m` is taken in as. The element count keeps the low thirty-two
/// bits of the number of indices.
pub open spec fn spec_loaded(m: ObjModel, out: Mesh) -> bool {
    &&& out.name == m.name
    &&& out.vertices@ == m.mesh.spec_vertices()
    &&& out.indices@ == m.mesh.indices@
    &&& out.num_elements == m.mesh.indices@.len() as u32
    &&& out.material == match m.mesh.material_id {
        Some(id) => id,
        None => 0usize,
    }
}

impl Model {
    /// Tells whether every mesh can be taken in.
    pub fn can_load(models: &Vec<ObjModel>) -> (r: bool)
        ensures
            r == forall|i: int| 0 <= i < models@.len() ==> spec_loadable(#[trigger] models@[i]),
    {
        let mut i: usize = 0;
        while i < models.len()
            invariant
                i <= models.len(),
                forall|j: int| 0 <= j < i ==> spec_loadable(#[trigger] models@[j]),
            decreases models.len() - i,
        {
            if !models[i].mesh.is_complete() {
                return false;
            }
            i = i + 1;
        }
        true
    }

    /// Takes the meshes in: interleaves the vertices of each, counts its
    /// indices and settles its material.
    pub fn load(models: Vec<ObjModel>) -> (model: Model)
        requires
            forall|i: int| 0 <= i < models@.len() ==> spec_loadable(#[trigger] models@[i]),
        ensures
            model.meshes@.len() == models@.len(),
            forall|i: int|
                0 <= i < models@.len() ==> spec_loaded(models@[i], #[trigger] model.meshes@[i]),
    {
        let ghost all = models@;
        let mut models = models;
        let mut reversed: Vec<Mesh> = Vec::new();
        while models.len() > 0
            invariant
                models@.len() + reversed@.len() == all.len(),
                models@ == all.subrange(0, models@.len() as int),
                forall|i: int| 0 <= i < all.len() ==> spec_loadable(#[trigger] all[i]),
                forall|j: int|
                    0 <= j < reversed@.len() ==> spec_loaded(
                        all[all.len() - 1 - j],
                        #[trigger] reversed@[j],
                    ),
            decreases models@.len(),
        {
            let ghost k = models@.len() - 1;
            let m = models.pop().unwrap();
            assert(m == all[k]);
            let vertices = m.mesh.vertices();
            let material = m.mesh.material();
            let num_elements = #[verifier::truncate] (m.mesh.indices.len() as u32);
            reversed.push(
                Mesh { name: m.name, vertices, indices: m.mesh.indices, num_elements, material },
            );
            assert(models@ =~= all.subrange(0, models@.len() as int));
        }
        let mut meshes: Vec<Mesh> = Vec::new();
        while reversed.len() > 0
            invariant
                reversed@.len() + meshes@.len() == all.len(),
                forall|j: int|
                    0 <= j < reversed@.len() ==> spec_loaded(
                        all[all.len() - 1 - j],
                        #[trigger] reversed@[j],
                    ),
                forall|i: int| 0 <= i < meshes@.len() ==> spec_loaded(all[i], #[trigger] meshes@[i]),
            decreases reversed@.len(),
        {
            let mesh = reversed.pop().unwrap();
            meshes.push(mesh);
        }
        Model { meshes }
    }
}

impl Record for ModelVertex {
    open spec fn spec_word_count() -> nat {
        10
    }

    /// Position, then normal, then texture coordinate.
    open spec fn spec_words(&self) -> Seq<u32> {
        self.position.words() + self.normal.words() + seq![self.tex_coords.u, self.tex_coords.v]
    }

    proof fn lemma_word_count(&self) {
    }

    fn push_words(&self, out: &mut Vec<u32>) {
        self.position.push_words(out);
        self.normal.push_words(out);
        out.push(self.tex_coords.u);
        out.push(self.tex_coords.v);
        assert(out@ =~= old(out)@ + self.spec_words());
    }
}

} // verus!
