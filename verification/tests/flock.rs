use boids::boid::Boid;
use boids::boids::Boids;
use boids::bytes::words_to_bytes;
use boids::boid::Vec4;
use boids::model::Model;
use boids::point_cloud::PointCloud;
use boids::record::{flatten, to_bytes};
use boids::instance::{Heading, Instance, InstanceRaw};
use boids::layout::{describe, vertex_attr_array, InputStepMode, Slot, Vertex, VertexAttribute, VertexFormat};
use boids::model::{ModelVertex, ObjMesh, ObjModel, Vec2};
use boids::point_cloud::{points_from_positions, Point};
use boids::store::{draw_all, BufferId, Draw};
use boids::uniforms::ComputeUniforms;
use boids::vertex::VBDesc;

fn w(v: f32) -> u32 {
    v.to_bits()
}

fn words(vs: &[f32]) -> Vec<u32> {
    vs.iter().map(|v| v.to_bits()).collect()
}

fn triangle_model() -> ObjModel {
    ObjModel {
        name: String::from("boid"),
        mesh: ObjMesh {
            positions: words(&[0.0, 0.0, 0.0, 1.0, 0.0, 0.0, 0.0, 1.0, 0.5]),
            normals: words(&[0.0, 0.0, 1.0, 0.0, 0.0, 1.0, 0.0, 0.0, 1.0]),
            texcoords: words(&[0.0, 0.0, 1.0, 0.0, 0.0, 1.0]),
            indices: vec![0, 1, 2],
            material_id: None,
        },
    }
}

fn source(draws: Vec<Draw>) -> impl Fn(u32) -> Draw {
    move |i: u32| draws[i as usize]
}

fn two_draws() -> Vec<Draw> {
    vec![
        ((w(1.0), w(2.0), w(-2.5)), (w(0.0), w(0.0), w(0.0))),
        ((w(-1.0), w(0.5), w(2.5)), (w(0.0), w(1.0), w(0.0))),
    ]
}

#[test]
fn uniforms_count_whole_triangles() {
    assert_eq!(ComputeUniforms::new(36, 1000).triangle_count, 12);
    assert_eq!(ComputeUniforms::new(7, 5).triangle_count, 2);
    assert_eq!(ComputeUniforms::new(2, 5).triangle_count, 0);
    assert_eq!(ComputeUniforms::new(u32::MAX, 0).triangle_count, 1431655765);
    let u = ComputeUniforms::new(36, 1000);
    assert_eq!(u.sample_count, 1000);
    assert_eq!(f32::from_bits(u.delta), 0.0);
}

#[test]
fn set_delta_leaves_the_counts() {
    let mut u = ComputeUniforms::new(36, 1000);
    u.set_delta(w(0.01));
    assert_eq!(u, ComputeUniforms { triangle_count: 12, sample_count: 1000, delta: w(0.01) });
    assert_eq!(flatten(&vec![u]), vec![12, 1000, w(0.01)]);
}

#[test]
fn uniform_block_takes_twelve_bytes() {
    let u = ComputeUniforms { triangle_count: 1, sample_count: 2, delta: 3 };
    let bytes = to_bytes(&vec![u]);
    assert_eq!(bytes.len() as u64, ComputeUniforms::SIZE);
    let mut expected: Vec<u8> = Vec::new();
    expected.extend_from_slice(&1u32.to_ne_bytes());
    expected.extend_from_slice(&2u32.to_ne_bytes());
    expected.extend_from_slice(&3u32.to_ne_bytes());
    assert_eq!(bytes, expected);
    assert_eq!(words_to_bytes(&Vec::new()).len(), 0);
}

#[test]
fn create_boids_builds_mesh_buffers_and_instances() {
    let flock = Boids::create_boids(vec![triangle_model()], 2, source(two_draws()), 36, 1000);
    assert_eq!(flock.vertices.len(), 3);
    assert_eq!(flock.vertices[2], Point::at(w(0.0), w(1.0), w(0.5)));
    assert_eq!(flock.indices, vec![0, 1, 2]);
    assert_eq!(flock.num_indices, 3);
    assert_eq!(flock.num_instances, 2);
    assert_eq!(flock.boid_buffer1.len(), 2);
    assert_eq!(flock.boid_buffer1, flock.boid_buffer2);
    assert_eq!(flock.boid_buffer1[0], Boid::new((w(1.0), w(2.0), w(-2.5)), (w(0.0), w(0.0), w(0.0))));
    assert_eq!(flock.instances.len(), 2);
    assert_eq!(flock.instances[0].heading, Heading::Identity);
    assert_eq!(flock.instances[1].heading, Heading::Along { x: w(0.0), y: w(1.0), z: w(0.0) });
    assert_eq!((flock.instances[1].x, flock.instances[1].y, flock.instances[1].z), (w(-1.0), w(0.5), w(2.5)));
    assert!(!flock.boid_buffer_index);
    assert_eq!(flock.compute_uniforms, ComputeUniforms { triangle_count: 12, sample_count: 1000, delta: 0 });
}

#[test]
fn create_boids_with_no_agent() {
    let flock = Boids::create_boids(vec![triangle_model()], 0, source(Vec::new()), 0, 0);
    assert_eq!(flock.boid_buffer1.len(), 0);
    assert_eq!(flock.boid_buffer2.len(), 0);
    assert_eq!(flock.instances.len(), 0);
    assert_eq!(flock.compute_uniforms.triangle_count, 0);
}

#[test]
fn update_plans_one_unit_per_agent_and_swaps_roles() {
    let mut flock = Boids::create_boids(vec![triangle_model()], 2, source(two_draws()), 36, 1000);
    assert_eq!(flock.current_render_buffer(), BufferId::First);
    let first = flock.update(w(0.01));
    assert_eq!(first.read, BufferId::First);
    assert_eq!(first.write, BufferId::Second);
    assert_eq!((first.groups_x, first.groups_y, first.groups_z), (2, 1, 1));
    assert_eq!(first.copy_size, 12);
    assert_eq!(first.uniforms, ComputeUniforms { triangle_count: 12, sample_count: 1000, delta: w(0.01) });
    assert!(flock.boid_buffer_index);
    assert_eq!(flock.current_render_buffer(), first.write);
    let second = flock.update(w(0.02));
    assert_eq!(second.read, BufferId::Second);
    assert_eq!(second.write, BufferId::First);
    assert_eq!(second.uniforms.delta, w(0.02));
    assert_eq!(second.uniforms.triangle_count, 12);
    assert!(!flock.boid_buffer_index);
    assert_eq!(flock.compute_uniforms, second.uniforms);
    assert_eq!(flock.num_instances, 2);
}

#[test]
fn two_updates_with_one_delta_plan_the_same_uniforms() {
    let mut a = Boids::create_boids(vec![triangle_model()], 2, source(two_draws()), 9, 4);
    let mut b = Boids::create_boids(vec![triangle_model()], 2, source(two_draws()), 9, 4);
    assert_eq!(a.update(w(0.01)), b.update(w(0.01)));
}

#[test]
fn current_and_next_on_the_flock_toggles_only_the_flag() {
    let mut flock = Boids::create_boids(vec![triangle_model()], 2, source(two_draws()), 36, 1000);
    let before = flock.compute_uniforms;
    for n in 1..6 {
        let (read, write) = flock.current_and_next();
        assert_ne!(read, write);
        assert_eq!(flock.boid_buffer_index, n % 2 == 1);
    }
    assert_eq!(flock.compute_uniforms, before);
}

#[test]
fn points_drop_a_trailing_remainder() {
    let pts = points_from_positions(&words(&[1.0, 2.0, 3.0, 4.0, 5.0, 6.0, 7.0, 8.0]));
    assert_eq!(pts.len(), 2);
    assert_eq!(pts[1], Point::at(w(4.0), w(5.0), w(6.0)));
    assert_eq!(f32::from_bits(pts[0].pos.w), 1.0);
    assert_eq!(points_from_positions(&words(&[1.0, 2.0])).len(), 0);
}

#[test]
fn mesh_vertices_interleave_the_arrays() {
    let mesh = triangle_model().mesh;
    assert!(mesh.is_complete());
    let vs = mesh.vertices();
    assert_eq!(vs.len(), 3);
    assert_eq!((vs[1].position.x, vs[1].position.w), (w(1.0), w(1.0)));
    assert_eq!((vs[1].normal.z, vs[1].normal.w), (w(1.0), w(0.0)));
    assert_eq!(vs[1].tex_coords, Vec2 { u: w(1.0), v: w(0.0) });
    assert_eq!(vs[2].tex_coords, Vec2 { u: w(0.0), v: w(1.0) });
    assert_eq!(mesh.material(), 0);
}

#[test]
fn mesh_without_texcoords_is_incomplete() {
    let mut mesh = triangle_model().mesh;
    mesh.texcoords = words(&[0.0, 0.0, 1.0, 0.0, 0.0]);
    assert!(!mesh.is_complete());
    mesh.texcoords = words(&[0.0, 0.0, 1.0, 0.0, 0.0, 1.0]);
    mesh.normals.pop();
    assert!(!mesh.is_complete());
    mesh.material_id = Some(4);
    assert_eq!(mesh.material(), 4);
}

#[test]
fn attributes_follow_one_another_without_gaps() {
    let slots = vec![
        Slot { shader_location: 0, format: VertexFormat::Float2 },
        Slot { shader_location: 3, format: VertexFormat::Float3 },
        Slot { shader_location: 1, format: VertexFormat::Float4 },
        Slot { shader_location: 9, format: VertexFormat::Float2 },
    ];
    let attrs = vertex_attr_array(&slots);
    let offsets: Vec<u64> = attrs.iter().map(|a| a.offset).collect();
    assert_eq!(offsets, vec![0, 8, 20, 36]);
    assert_eq!(attrs[1], VertexAttribute { offset: 8, shader_location: 3, format: VertexFormat::Float3 });
    assert_eq!(vertex_attr_array(&Vec::new()).len(), 0);
    assert_eq!((VertexFormat::Float2.size(), VertexFormat::Float3.size(), VertexFormat::Float4.size()), (8, 12, 16));
}

#[test]
fn descriptor_fits_only_with_room_for_every_attribute() {
    let slots = vec![
        Slot { shader_location: 0, format: VertexFormat::Float4 },
        Slot { shader_location: 1, format: VertexFormat::Float2 },
    ];
    assert!(describe(24, InputStepMode::Vertex, &slots).fits());
    assert!(describe(64, InputStepMode::Vertex, &slots).fits());
    assert!(!describe(23, InputStepMode::Vertex, &slots).fits());
    assert!(!describe(8, InputStepMode::Vertex, &slots).fits());
    assert!(describe(0, InputStepMode::Instance, &Vec::new()).fits());
}

#[test]
fn record_layouts_match_their_types() {
    let b = <Boid as Vertex>::desc();
    assert_eq!((b.stride, b.step_mode), (32, InputStepMode::Vertex));
    assert_eq!(b.attributes, vec![VertexAttribute { offset: 0, shader_location: 0, format: VertexFormat::Float4 }]);

    let p = <Point as Vertex>::desc();
    assert_eq!((p.stride, p.step_mode), (16, InputStepMode::Vertex));
    assert_eq!(p.attributes, vec![VertexAttribute { offset: 0, shader_location: 0, format: VertexFormat::Float4 }]);

    let m = <ModelVertex as Vertex>::desc();
    assert_eq!((m.stride, m.step_mode), (40, InputStepMode::Vertex));
    assert_eq!(
        m.attributes,
        vec![
            VertexAttribute { offset: 0, shader_location: 0, format: VertexFormat::Float4 },
            VertexAttribute { offset: 16, shader_location: 1, format: VertexFormat::Float4 },
            VertexAttribute { offset: 32, shader_location: 2, format: VertexFormat::Float2 },
        ]
    );

    let i = <InstanceRaw as Vertex>::desc();
    assert_eq!((i.stride, i.step_mode), (64, InputStepMode::Instance));
    let got: Vec<(u64, u32)> = i.attributes.iter().map(|a| (a.offset, a.shader_location)).collect();
    assert_eq!(got, vec![(0, 3), (16, 4), (32, 5), (48, 6)]);

    let v = <boids::vertex::Vertex as VBDesc>::desc();
    assert_eq!((v.stride, v.step_mode), (20, InputStepMode::Vertex));
    assert_eq!(
        v.attributes,
        vec![
            VertexAttribute { offset: 0, shader_location: 0, format: VertexFormat::Float3 },
            VertexAttribute { offset: 12, shader_location: 1, format: VertexFormat::Float2 },
        ]
    );
    assert!(b.fits() && p.fits() && m.fits() && i.fits() && v.fits());
}

#[test]
fn record_sizes_match_the_strides() {
    assert_eq!(std::mem::size_of::<Boid>() as u64, <Boid as Vertex>::desc().stride);
    assert_eq!(std::mem::size_of::<Point>() as u64, <Point as Vertex>::desc().stride);
    assert_eq!(std::mem::size_of::<ModelVertex>() as u64, <ModelVertex as Vertex>::desc().stride);
    assert_eq!(std::mem::size_of::<InstanceRaw>() as u64, <InstanceRaw as Vertex>::desc().stride);
    assert_eq!(std::mem::size_of::<boids::vertex::Vertex>() as u64, <boids::vertex::Vertex as VBDesc>::desc().stride);
    assert_eq!(std::mem::size_of::<ComputeUniforms>() as u64, ComputeUniforms::SIZE);
}

#[test]
fn grid_is_centred_row_by_row() {
    let cells = Instance::setup_instances();
    assert_eq!(cells.len() as u32, Instance::NUM_INSTANCES);
    assert_eq!(Instance::NUM_INSTANCES, Instance::NUM_INSTANCES_PER_ROW * Instance::NUM_INSTANCES_PER_ROW);
    assert_eq!(Instance::SPACE_BETWEEN, 3);
    assert_eq!((cells[0].x, cells[0].z), (-150, -150));
    assert_eq!((cells[1].x, cells[1].z), (-147, -150));
    assert_eq!((cells[100].x, cells[100].z), (-150, -147));
    assert_eq!((cells[9999].x, cells[9999].z), (147, 147));
    assert!(cells[5050].at_origin);
    assert_eq!((cells[5050].x, cells[5050].z), (0, 0));
    assert_eq!(cells.iter().filter(|c| c.at_origin).count(), 1);
}

#[test]
fn words_to_bytes_keeps_every_word() {
    let bytes = words_to_bytes(&vec![0x0102_0304, 0xA0B0_C0D0]);
    assert_eq!(bytes.len(), 8);
    assert_eq!(&bytes[0..4], &0x0102_0304u32.to_ne_bytes());
    assert_eq!(&bytes[4..8], &0xA0B0_C0D0u32.to_ne_bytes());
}

#[test]
fn flatten_lays_vertices_out_field_by_field() {
    let mesh = triangle_model().mesh;
    let words = flatten(&mesh.vertices());
    assert_eq!(words.len(), 30);
    assert_eq!(
        &words[10..20],
        &[w(1.0), w(0.0), w(0.0), w(1.0), w(0.0), w(0.0), w(1.0), w(0.0), w(1.0), w(0.0)]
    );
    let points = points_from_positions(&mesh.positions);
    assert_eq!(flatten(&points), vec![
        w(0.0), w(0.0), w(0.0), w(1.0), w(1.0), w(0.0), w(0.0), w(1.0), w(0.0), w(1.0), w(0.5), w(1.0),
    ]);
    assert_eq!(to_bytes(&points).len(), 48);
}

#[test]
fn flatten_lays_a_matrix_out_column_by_column() {
    let col = |a: u32| Vec4 { x: a, y: a + 1, z: a + 2, w: a + 3 };
    let m = InstanceRaw { x: col(0), y: col(4), z: col(8), w: col(12) };
    assert_eq!(flatten(&vec![m, m]), (0u32..16).chain(0u32..16).collect::<Vec<u32>>());
    assert_eq!(to_bytes(&vec![m]).len(), 64);
}

#[test]
fn load_keeps_the_order_of_the_meshes() {
    let mut second = triangle_model();
    second.name = String::from("second");
    second.mesh.material_id = Some(3);
    second.mesh.indices = vec![2, 1, 0, 0, 1, 2];
    let models = vec![triangle_model(), second];
    assert!(Model::can_load(&models));
    let model = Model::load(models);
    assert_eq!(model.meshes.len(), 2);
    assert_eq!(model.meshes[0].name, "boid");
    assert_eq!(model.meshes[0].num_elements, 3);
    assert_eq!(model.meshes[0].material, 0);
    assert_eq!(model.meshes[0].vertices, triangle_model().mesh.vertices());
    assert_eq!(model.meshes[1].name, "second");
    assert_eq!(model.meshes[1].num_elements, 6);
    assert_eq!(model.meshes[1].indices, vec![2, 1, 0, 0, 1, 2]);
    assert_eq!(model.meshes[1].material, 3);
    assert_eq!(Model::load(Vec::new()).meshes.len(), 0);
}

#[test]
fn can_load_rejects_an_incomplete_mesh() {
    let mut broken = triangle_model();
    broken.mesh.normals.truncate(8);
    assert!(!Model::can_load(&vec![triangle_model(), broken]));
    assert!(Model::can_load(&Vec::new()));
}

#[test]
fn new_sphere_packs_one_point_per_sample() {
    let cloud = PointCloud::new_sphere(2, &words(&[1.0, 0.0, 0.0, -1.0, 0.0, 0.0]));
    assert_eq!(cloud.num_vertices, 2);
    assert_eq!(cloud.vertices, vec![Point::at(w(1.0), w(0.0), w(0.0)), Point::at(w(-1.0), w(0.0), w(0.0))]);
    let none = PointCloud::new_sphere(0, &Vec::new());
    assert_eq!((none.num_vertices, none.vertices.len()), (0, 0));
}

fn drift(i: usize, read: &Vec<Boid>, u: &ComputeUniforms) -> Boid {
    let b = read[i];
    let dt = f32::from_bits(u.delta);
    let adv = |p: u32, v: u32| (f32::from_bits(p) + f32::from_bits(v) * dt).to_bits();
    Boid {
        pos: Vec4 { x: adv(b.pos.x, b.vel.x), y: adv(b.pos.y, b.vel.y), z: adv(b.pos.z, b.vel.z), w: b.pos.w },
        vel: b.vel,
    }
}

fn compass_draws() -> Vec<Draw> {
    let d = |p: (f32, f32, f32), v: (f32, f32, f32)| ((w(p.0), w(p.1), w(p.2)), (w(v.0), w(v.1), w(v.2)));
    vec![
        d((1.0, 0.0, 0.0), (0.0, 1.0, 0.0)),
        d((-1.0, 0.0, 0.0), (0.0, -1.0, 0.0)),
        d((0.0, 1.0, 0.0), (1.0, 0.0, 0.0)),
        d((0.0, -1.0, 0.0), (-1.0, 0.0, 0.0)),
    ]
}

#[test]
fn host_tick_with_zero_delta_keeps_positions() {
    let mut flock = Boids::create_boids(vec![triangle_model()], 4, source(compass_draws()), 36, 1000);
    let start = flock.boid_buffer1.clone();
    let work = flock.step_on_host(w(0.0), drift);
    assert_eq!((work.read, work.write), (BufferId::First, BufferId::Second));
    assert_eq!(flock.current_render_buffer(), BufferId::Second);
    let drawn = flock.buffer(flock.current_render_buffer()).clone();
    assert_eq!(drawn.len(), 4);
    for i in 0..4 {
        assert_eq!(drawn[i].pos, start[i].pos);
    }
    assert_eq!(flock.boid_buffer1, start);
}

#[test]
fn host_ticks_ping_pong_between_the_buffers() {
    let mut flock = Boids::create_boids(vec![triangle_model()], 4, source(compass_draws()), 36, 1000);
    flock.step_on_host(w(0.5), drift);
    assert_eq!(f32::from_bits(flock.boid_buffer2[0].pos.y), 0.5);
    assert_eq!(f32::from_bits(flock.boid_buffer1[0].pos.y), 0.0);
    let work = flock.step_on_host(w(0.5), drift);
    assert_eq!((work.read, work.write), (BufferId::Second, BufferId::First));
    assert_eq!(f32::from_bits(flock.boid_buffer1[0].pos.y), 1.0);
    assert_eq!(f32::from_bits(flock.boid_buffer2[0].pos.y), 0.5);
    assert_eq!(flock.current_render_buffer(), BufferId::First);
    assert_eq!(f32::from_bits(flock.compute_uniforms.delta), 0.5);
}

#[test]
fn host_tick_derives_the_instances_from_the_written_agents() {
    let mut flock = Boids::create_boids(vec![triangle_model()], 4, source(compass_draws()), 36, 1000);
    assert_eq!(flock.instances[0].heading, Heading::Along { x: w(0.0), y: w(1.0), z: w(0.0) });
    flock.step_on_host(w(0.5), |i: usize, read: &Vec<Boid>, _u: &ComputeUniforms| {
        let mut b = read[i];
        b.pos.y = w(7.0);
        if i == 0 {
            b.vel = Vec4 { x: w(0.0), y: w(-0.0), z: w(0.0), w: w(0.0) };
        }
        b
    });
    assert_eq!(flock.instances.len(), 4);
    assert_eq!(flock.instances[0].heading, Heading::Identity);
    assert_eq!(flock.instances[1].heading, Heading::Along { x: w(0.0), y: w(-1.0), z: w(0.0) });
    for i in 0..4 {
        assert_eq!(flock.instances[i].y, w(7.0));
        assert_eq!(f32::from_bits(flock.boid_buffer1[i].pos.y), [0.0, 0.0, 1.0, -1.0][i]);
    }
}

#[test]
fn two_flocks_ticked_alike_hold_the_same_agents() {
    let mut a = Boids::create_boids(vec![triangle_model()], 4, source(compass_draws()), 36, 1000);
    let mut b = Boids::create_boids(vec![triangle_model()], 4, source(compass_draws()), 36, 1000);
    for _ in 0..3 {
        a.step_on_host(w(0.01), drift);
        b.step_on_host(w(0.01), drift);
        assert_eq!(a.boid_buffer1, b.boid_buffer1);
        assert_eq!(a.boid_buffer2, b.boid_buffer2);
        assert_eq!(a.instances, b.instances);
        assert_eq!(a.boid_buffer_index, b.boid_buffer_index);
    }
}

#[test]
fn draw_all_asks_once_for_every_index_in_order() {
    let draws = draw_all(4, |i: u32| ((i, i + 10, i + 20), (i + 30, i + 40, i + 50)));
    assert_eq!(draws.len(), 4);
    for i in 0..4u32 {
        assert_eq!(draws[i as usize], ((i, i + 10, i + 20), (i + 30, i + 40, i + 50)));
    }
    assert_eq!(draw_all(0, |_i: u32| ((0, 0, 0), (0, 0, 0))).len(), 0);
}

#[test]
fn create_boids_makes_agent_i_of_draw_i() {
    let flock = Boids::create_boids(
        vec![triangle_model()],
        3,
        |i: u32| ((w(i as f32), w(0.5), w(-0.5)), (w(0.0), w(i as f32), w(0.0))),
        3,
        1,
    );
    assert_eq!(flock.num_instances, 3);
    assert_eq!(flock.boid_buffer1.len(), 3);
    assert_eq!(flock.boid_buffer1, flock.boid_buffer2);
    for i in 0..3usize {
        assert_eq!(
            flock.boid_buffer1[i],
            Boid::new((w(i as f32), w(0.5), w(-0.5)), (w(0.0), w(i as f32), w(0.0)))
        );
    }
    assert_eq!(flock.instances[0].heading, Heading::Identity);
    assert_eq!(flock.instances[2].heading, Heading::Along { x: w(0.0), y: w(2.0), z: w(0.0) });
}
