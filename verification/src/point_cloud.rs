use vstd::prelude::*;
use crate::boid::Vec4;
use crate::layout::{
    describe, spec_offset, InputStepMode, Slot, Vertex, VertexBufferDescriptor, VertexFormat,
};
use crate::record::Record;
use crate::scalar::ONE;

verus! {

/// A vertex that carries only a homogeneous position.
#[derive(Clone, Copy, Debug, PartialEq, Eq, Structural)]
pub struct Point {
    pub pos: Vec4,
}

impl Point {
    /// The point at `(x, y, z)`.
    pub open spec fn spec_at(x: u32, y: u32, z: u32) -> Point {
        Point { pos: Vec4 { x, y, z, w: ONE } }
    }

    /// Builds the point at `(x, y, z)`, with `w` one.
    pub fn at(x: u32, y: u32, z: u32) -> (p: Point)
        ensures
            p == Self::spec_at(x, y, z),
    {
        Point { pos: Vec4 { x, y, z, w: ONE } }
    }
}

/// The points a flat run of coordinates describes: every three words make
/// one point, and a remainder of one or two words is left out.
pub open spec fn spec_points(positions: Seq<u32>) -> Seq<Point> {
    Seq::new(
        (positions.len() / 3) as nat,
        |i: int| Point::spec_at(positions[3 * i], positions[3 * i + 1], positions[3 * i + 2]),
    )
}

/// Groups a flat run of coordinates into points.
pub fn points_from_positions(positions: &Vec<u32>) -> (points: Vec<Point>)
    ensures
        points@ == spec_points(positions@),
{
    let n: usize = positions.len() / 3;
    let mut points: Vec<Point> = Vec::new();
    let mut i: usize = 0;
    while i < n
        invariant
            n == positions.len() / 3,
            i <= n,
            points.len() == i,
            forall|j: int| 0 <= j < i ==> points@[j] == spec_points(positions@)[j],
        decreases n - i,
    {
        let p = Point::at(positions[i * 3], positions[i * 3 + 1], positions[i * 3 + 2]);
        points.push(p);
        i = i + 1;
    }
    points
}

/// The sample cloud: its points, and how many there are.
pub struct PointCloud {
    pub vertices: Vec<Point>,
    pub num_vertices: u32,
}

impl PointCloud {
    /// Packs the coordinates of `samples` points on the sphere, three words
    /// a point, into the cloud.
    pub fn new_sphere(samples: u32, coordinates: &Vec<u32>) -> (cloud: PointCloud)
        requires
            coordinates@.len() == 3 * samples,
        ensures
            cloud.num_vertices == samples,
            cloud.vertices@.len() == samples,
            cloud.vertices@ == spec_points(coordinates@),
    {
        PointCloud { vertices: points_from_positions(coordinates), num_vertices: samples }
    }
}

impl Vertex for Point {
    open spec fn spec_stride() -> u64 {
        16
    }

    open spec fn spec_step_mode() -> InputStepMode {
        InputStepMode::Vertex
    }

    open spec fn spec_slots() -> Seq<Slot> {
        seq![Slot { shader_location: 0, format: VertexFormat::Float4 }]
    }

    fn desc() -> (d: VertexBufferDescriptor) {
        let mut slots: Vec<Slot> = Vec::new();
        slots.push(Slot { shader_location: 0, format: VertexFormat::Float4 });
        proof {
            assert(slots@ =~= Self::spec_slots());
            reveal_with_fuel(spec_offset, 2);
        }
        describe(16, InputStepMode::Vertex, &slots)
    }
}

impl Record for Point {
    open spec fn spec_word_count() -> nat {
        4
    }

    open spec fn spec_words(&self) -> Seq<u32> {
        self.pos.words()
    }

    proof fn lemma_word_count(&self) {
    }

    fn push_words(&self, out: &mut Vec<u32>) {
        self.pos.push_words(out);
    }
}

} // verus!
