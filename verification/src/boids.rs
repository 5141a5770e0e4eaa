use vstd::prelude::*;
use crate::boid::Boid;
use crate::instance::{project_all, spec_project_all, Instance};
use crate::model::ObjModel;
use crate::point_cloud::{points_from_positions, spec_points, Point};
use crate::simulation::{
    lemma_step_deterministic, spec_can_step, spec_is_function, spec_stepped, step,
};
use crate::store::{
    draw_all, initialize, lemma_draws_of_their_agents, spec_can_draw, spec_drawn, spec_draws_of,
    spec_read_of, spec_write_of, BufferId, Draw, PingPong,
};
use crate::uniforms::ComputeUniforms;

verus! {

/// One tick's work for the device: what to copy into the uniform buffer,
/// which buffer to read, which to write, and how many units to launch.
#[derive(Clone, Copy, Debug, PartialEq, Eq, Structural)]
pub struct ComputeDispatch {
    pub uniforms: ComputeUniforms,
    pub copy_size: u64,
    pub read: BufferId,
    pub write: BufferId,
    pub groups_x: u32,
    pub groups_y: u32,
    pub groups_z: u32,
}

/// The flock as the host holds it: the mesh of one agent, the instances to
/// draw, the two agent buffers as the host last filled them, the parity of
/// the next tick and the uniform block of the last one.
pub struct Boids {
    pub vertices: Vec<Point>,
    pub indices: Vec<u32>,
    pub num_indices: u32,
    pub instances: Vec<Instance>,
    pub num_instances: u32,
    pub boid_buffer1: Vec<Boid>,
    pub boid_buffer2: Vec<Boid>,
    pub boid_buffer_index: bool,
    pub compute_uniforms: ComputeUniforms,
}

impl Boids {
    /// Both buffers hold one agent per instance, and so does the instance
    /// list.
    pub open spec fn wf(self) -> bool {
        &&& self.boid_buffer1@.len() == self.num_instances
        &&& self.boid_buffer2@.len() == self.num_instances
        &&& self.instances@.len() == self.num_instances
    }

    /// Builds the flock from the one mesh of its model, `num_instances`
    /// agents drawn from `draw`, and the sizes of the scene and of the
    /// sample cloud. Both buffers hold the same `num_instances` agents,
    /// agent `i` made of what `draw` gave for `i`. The index count keeps
    /// the low thirty-two bits of the number of indices.
    pub fn create_boids<F: Fn(u32) -> Draw>(
        models: Vec<ObjModel>,
        num_instances: u32,
        draw: F,
        scene_index_count: u32,
        sample_count: u32,
    ) -> (flock: Boids)
        requires
            models@.len() == 1,
            spec_can_draw(draw, num_instances),
        ensures
            flock.wf(),
            flock.vertices@ == spec_points(models@[0].mesh.positions@),
            flock.indices@ == models@[0].mesh.indices@,
            flock.num_indices == models@[0].mesh.indices@.len() as u32,
            flock.num_instances == num_instances,
            flock.boid_buffer1@.len() == num_instances,
            flock.boid_buffer2@ == flock.boid_buffer1@,
            forall|i: int| 0 <= i < num_instances ==> (#[trigger] flock.boid_buffer1@[i]).wf(),
            spec_drawn(draw, spec_draws_of(flock.boid_buffer1@)),
            flock.instances@ == spec_project_all(flock.boid_buffer1@),
            flock.boid_buffer_index == false,
            flock.compute_uniforms == ComputeUniforms::spec_new(scene_index_count, sample_count),
    {
        let mut models = models;
        let model = models.pop().unwrap();
        let mesh = model.mesh;
        let vertices = points_from_positions(&mesh.positions);
        let num_indices = #[verifier::truncate] (mesh.indices.len() as u32);
        let draws = draw_all(num_instances, draw);
        let (boid_buffer1, boid_buffer2) = initialize(&draws);
        proof {
            lemma_draws_of_their_agents(draws@);
        }
        let instances = project_all(&boid_buffer1);
        Boids {
            vertices,
            indices: mesh.indices,
            num_indices,
            instances,
            num_instances,
            boid_buffer1,
            boid_buffer2,
            boid_buffer_index: PingPong::new().flag,
            compute_uniforms: ComputeUniforms::new(scene_index_count, sample_count),
        }
    }

    /// The roles of the two buffers for the next tick.
    pub fn current_and_next(&mut self) -> (roles: (BufferId, BufferId))
        ensures
            roles.0 == spec_read_of(old(self).boid_buffer_index),
            roles.1 == spec_write_of(old(self).boid_buffer_index),
            roles.0 != roles.1,
            *final(self) == (Boids { boid_buffer_index: !old(self).boid_buffer_index, ..*old(self) }),
    {
        let mut parity = PingPong { flag: self.boid_buffer_index };
        let roles = parity.current_and_next();
        self.boid_buffer_index = parity.flag;
        roles
    }

    /// The work that a tick of `delta` asks of the device.
    pub open spec fn spec_dispatch(self, delta: u32) -> ComputeDispatch {
        ComputeDispatch {
            uniforms: ComputeUniforms { delta, ..self.compute_uniforms },
            copy_size: ComputeUniforms::SIZE,
            read: spec_read_of(self.boid_buffer_index),
            write: spec_write_of(self.boid_buffer_index),
            groups_x: self.num_instances,
            groups_y: 1,
            groups_z: 1,
        }
    }

    /// Two flocks of the same size, parity and counts ask the same work of
    /// the device for the same `delta`: the kernel is handed the same
    /// uniform block, the same roles and the same number of units.
    pub proof fn lemma_same_state_same_dispatch(first: Boids, second: Boids, delta: u32)
        requires
            first.num_instances == second.num_instances,
            first.boid_buffer_index == second.boid_buffer_index,
            first.compute_uniforms.triangle_count == second.compute_uniforms.triangle_count,
            first.compute_uniforms.sample_count == second.compute_uniforms.sample_count,
        ensures
            first.spec_dispatch(delta) == second.spec_dispatch(delta),
    {
    }

    /// Plans one tick of `delta`: stores the elapsed time, fixes the roles
    /// of the buffers, flips the parity and asks for one unit per agent.
    /// The agents themselves are advanced by whoever carries the plan out.
    pub fn update(&mut self, delta: u32) -> (work: ComputeDispatch)
        ensures
            work == old(self).spec_dispatch(delta),
            work.read != work.write,
            work.write == spec_read_of(final(self).boid_buffer_index),
            *final(self) == (Boids {
                boid_buffer_index: !old(self).boid_buffer_index,
                compute_uniforms: work.uniforms,
                ..*old(self)
            }),
    {
        self.compute_uniforms.set_delta(delta);
        let roles = self.current_and_next();
        ComputeDispatch {
            uniforms: self.compute_uniforms,
            copy_size: ComputeUniforms::SIZE,
            read: roles.0,
            write: roles.1,
            groups_x: self.num_instances,
            groups_y: 1,
            groups_z: 1,
        }
    }

    /// The agents in buffer `id`.
    pub open spec fn spec_buffer(self, id: BufferId) -> Vec<Boid> {
        match id {
            BufferId::First => self.boid_buffer1,
            BufferId::Second => self.boid_buffer2,
        }
    }

    /// The agents in buffer `id`.
    pub fn buffer(&self, id: BufferId) -> (agents: &Vec<Boid>)
        ensures
            *agents == self.spec_buffer(id),
    {
        match id {
            BufferId::First => &self.boid_buffer1,
            BufferId::Second => &self.boid_buffer2,
        }
    }

    /// What a tick of `delta` on the host makes of `before`: the elapsed
    /// time is stored and the parity flipped, the read buffer is untouched,
    /// the write buffer holds what the kernel returned for every agent, and
    /// the instances are those of the agents just written.
    pub open spec fn spec_host_ticked<K: Fn(usize, &Vec<Boid>, &ComputeUniforms) -> Boid>(
        kernel: K,
        before: Boids,
        delta: u32,
        after: Boids,
    ) -> bool {
        let read = spec_read_of(before.boid_buffer_index);
        let write = spec_write_of(before.boid_buffer_index);
        let uniforms = ComputeUniforms { delta, ..before.compute_uniforms };
        &&& after == (Boids {
            boid_buffer_index: !before.boid_buffer_index,
            compute_uniforms: uniforms,
            boid_buffer1: after.boid_buffer1,
            boid_buffer2: after.boid_buffer2,
            instances: after.instances,
            ..before
        })
        &&& after.spec_buffer(read) == before.spec_buffer(read)
        &&& spec_stepped(kernel, before.spec_buffer(read), uniforms, after.spec_buffer(write)@)
        &&& after.instances@ == spec_project_all(after.spec_buffer(write)@)
    }

    /// Runs one tick of `delta` on the host: plans it as `update` does, then
    /// calls `kernel` once per agent on the read buffer and stores what it
    /// returns in the write buffer. The read buffer keeps its contents, and
    /// the instances are derived anew from the agents just written.
    pub fn step_on_host<K: Fn(usize, &Vec<Boid>, &ComputeUniforms) -> Boid>(
        &mut self,
        delta: u32,
        kernel: K,
    ) -> (work: ComputeDispatch)
        requires
            old(self).wf(),
            spec_can_step(
                kernel,
                old(self).spec_buffer(spec_read_of(old(self).boid_buffer_index)),
                (ComputeUniforms { delta, ..old(self).compute_uniforms }),
            ),
        ensures
            final(self).wf(),
            work == old(self).spec_dispatch(delta),
            work.write == spec_read_of(final(self).boid_buffer_index),
            Self::spec_host_ticked(kernel, *old(self), delta, *final(self)),
    {
        let work = self.update(delta);
        match work.read {
            BufferId::First => {
                step(&self.boid_buffer1, &mut self.boid_buffer2, &work.uniforms, kernel);
                self.instances = project_all(&self.boid_buffer2);
            },
            BufferId::Second => {
                step(&self.boid_buffer2, &mut self.boid_buffer1, &work.uniforms, kernel);
                self.instances = project_all(&self.boid_buffer1);
            },
        }
        work
    }

    /// Two flocks with the same parity, the same read buffer and the same
    /// counts in their uniform blocks, ticked on the host by the same
    /// `delta` with a kernel that is a function of its inputs, hold the same
    /// agents in their write buffers afterwards, and the same instances.
    pub proof fn lemma_host_tick_deterministic<K: Fn(usize, &Vec<Boid>, &ComputeUniforms) -> Boid>(
        kernel: K,
        delta: u32,
        first: Boids,
        first_after: Boids,
        second: Boids,
        second_after: Boids,
    )
        requires
            first.boid_buffer_index == second.boid_buffer_index,
            first.spec_buffer(spec_read_of(first.boid_buffer_index)) == second.spec_buffer(
                spec_read_of(second.boid_buffer_index),
            ),
            first.compute_uniforms.triangle_count == second.compute_uniforms.triangle_count,
            first.compute_uniforms.sample_count == second.compute_uniforms.sample_count,
            spec_is_function(
                kernel,
                first.spec_buffer(spec_read_of(first.boid_buffer_index)),
                (ComputeUniforms { delta, ..first.compute_uniforms }),
            ),
            Self::spec_host_ticked(kernel, first, delta, first_after),
            Self::spec_host_ticked(kernel, second, delta, second_after),
        ensures
            first_after.spec_buffer(spec_write_of(first.boid_buffer_index))@
                == second_after.spec_buffer(spec_write_of(second.boid_buffer_index))@,
            first_after.instances@ == second_after.instances@,
            first_after.boid_buffer_index == second_after.boid_buffer_index,
            first_after.compute_uniforms == second_after.compute_uniforms,
    {
        let read = first.spec_buffer(spec_read_of(first.boid_buffer_index));
        let uniforms = ComputeUniforms { delta, ..first.compute_uniforms };
        assert(uniforms == (ComputeUniforms { delta, ..second.compute_uniforms }));
        lemma_step_deterministic(
            kernel,
            read,
            uniforms,
            first_after.spec_buffer(spec_write_of(first.boid_buffer_index))@,
            second_after.spec_buffer(spec_write_of(second.boid_buffer_index))@,
        );
    }

    /// The buffer the last tick wrote: the one to draw from.
    pub fn current_render_buffer(&self) -> (id: BufferId)
        ensures
            id == spec_read_of(self.boid_buffer_index),
    {
        PingPong { flag: self.boid_buffer_index }.read()
    }
}

} // verus!
