use vstd::prelude::*;
use crate::boid::Boid;

verus! {

/// Which of the two agent buffers a role falls to.
#[derive(Clone, Copy, Debug, PartialEq, Eq, Structural)]
pub enum BufferId {
    First,
    Second,
}

/// The buffer the kernel reads while the parity flag is `flag`.
pub open spec fn spec_read_of(flag: bool) -> BufferId {
    if flag {
        BufferId::Second
    } else {
        BufferId::First
    }
}

/// The buffer the kernel writes while the parity flag is `flag`.
pub open spec fn spec_write_of(flag: bool) -> BufferId {
    if flag {
        BufferId::First
    } else {
        BufferId::Second
    }
}

/// The parity flag after `ticks` toggles, starting from `flag`.
pub open spec fn spec_flag_after(flag: bool, ticks: nat) -> bool
    decreases ticks,
{
    if ticks == 0 {
        flag
    } else {
        !spec_flag_after(flag, (ticks - 1) as nat)
    }
}

/// The draws that make one agent: three position and three velocity words.
pub type Draw = ((u32, u32, u32), (u32, u32, u32));

/// The agents a run of draws describes, in order.
pub open spec fn spec_agents(draws: Seq<Draw>) -> Seq<Boid> {
    Seq::new(draws.len(), |i: int| Boid::spec_new(draws[i].0, draws[i].1))
}

/// The draw that makes `agent`: the three components of its position and
/// of its velocity. The fourth components are no part of a draw; they are
/// fixed, as `Boid::wf` says.
pub open spec fn spec_draw_of(agent: Boid) -> Draw {
    ((agent.pos.x, agent.pos.y, agent.pos.z), (agent.vel.x, agent.vel.y, agent.vel.z))
}

/// The draws that make a run of agents, in order.
pub open spec fn spec_draws_of(agents: Seq<Boid>) -> Seq<Draw> {
    Seq::new(agents.len(), |i: int| spec_draw_of(agents[i]))
}

/// The source of draws may be asked for each of `count` agents.
pub open spec fn spec_can_draw<F: Fn(u32) -> Draw>(draw: F, count: u32) -> bool {
    forall|i: u32| 0 <= i < count ==> call_requires(draw, (i,))
}

/// Every draw of the run is one that the source gives for its index.
pub open spec fn spec_drawn<F: Fn(u32) -> Draw>(draw: F, draws: Seq<Draw>) -> bool {
    forall|i: u32| 0 <= i < draws.len() ==> call_ensures(draw, (i,), #[trigger] draws[i as int])
}

/// Asks the source for one draw per agent, in the order of the agents.
pub fn draw_all<F: Fn(u32) -> Draw>(count: u32, draw: F) -> (draws: Vec<Draw>)
    requires
        spec_can_draw(draw, count),
    ensures
        draws@.len() == count,
        spec_drawn(draw, draws@),
{
    let mut draws: Vec<Draw> = Vec::new();
    let mut i: u32 = 0;
    while i < count
        invariant
            i <= count,
            draws@.len() == i,
            spec_can_draw(draw, count),
            spec_drawn(draw, draws@),
        decreases count - i,
    {
        let d = draw(i);
        draws.push(d);
        i = i + 1;
    }
    draws
}

/// The draws of the agents that a run of draws describes are that run.
pub proof fn lemma_draws_of_their_agents(draws: Seq<Draw>)
    ensures
        spec_draws_of(spec_agents(draws)) == draws,
{
    assert(spec_draws_of(spec_agents(draws)) =~= draws);
}

/// Fills both buffers with the same agents, one per draw.
pub fn initialize(draws: &Vec<Draw>) -> (pair: (Vec<Boid>, Vec<Boid>))
    ensures
        pair.0@ == spec_agents(draws@),
        pair.1@ == pair.0@,
        pair.0@.len() == draws@.len(),
        forall|i: int| 0 <= i < draws@.len() ==> (#[trigger] pair.0@[i]).wf(),
{
    let mut first: Vec<Boid> = Vec::new();
    let mut second: Vec<Boid> = Vec::new();
    let mut i: usize = 0;
    while i < draws.len()
        invariant
            i <= draws.len(),
            first.len() == i,
            second.len() == i,
            forall|j: int| 0 <= j < i ==> first@[j] == spec_agents(draws@)[j],
            forall|j: int| 0 <= j < i ==> second@[j] == first@[j],
        decreases draws.len() - i,
    {
        let d = draws[i];
        let b = Boid::new(d.0, d.1);
        first.push(b);
        second.push(b);
        i = i + 1;
    }
    (first, second)
}

/// The single bit that says which buffer is current.
#[derive(Clone, Copy, Debug, PartialEq, Eq, Structural)]
pub struct PingPong {
    pub flag: bool,
}

impl PingPong {
    /// A pair whose first buffer is read on the first tick.
    pub fn new() -> (p: PingPong)
        ensures
            p.flag == false,
    {
        PingPong { flag: false }
    }

    /// The buffer that the next tick reads.
    pub fn read(&self) -> (id: BufferId)
        ensures
            id == spec_read_of(self.flag),
    {
        if self.flag {
            BufferId::Second
        } else {
            BufferId::First
        }
    }

    /// The buffer that the next tick writes; after that tick it is the one
    /// to render from.
    pub fn write(&self) -> (id: BufferId)
        ensures
            id == spec_write_of(self.flag),
            id != spec_read_of(self.flag),
    {
        if self.flag {
            BufferId::First
        } else {
            BufferId::Second
        }
    }

    /// Hands out the roles for one tick and flips the flag.
    pub fn current_and_next(&mut self) -> (roles: (BufferId, BufferId))
        ensures
            roles.0 == spec_read_of(old(self).flag),
            roles.1 == spec_write_of(old(self).flag),
            roles.0 != roles.1,
            final(self).flag == !old(self).flag,
            final(self).flag == spec_flag_after(old(self).flag, 1),
    {
        reveal_with_fuel(spec_flag_after, 2);
        let roles = (self.read(), self.write());
        self.flag = !self.flag;
        roles
    }
}

/// After `ticks` toggles the flag is the first one exactly when `ticks` is
/// even: it alternates, with no skip and no double toggle.
pub proof fn lemma_flag_alternates(flag: bool, ticks: nat)
    ensures
        spec_flag_after(flag, ticks) == (flag != (ticks % 2 == 1)),
    decreases ticks,
{
    if ticks > 0 {
        lemma_flag_alternates(flag, (ticks - 1) as nat);
    }
}

/// The write buffer of one tick is the read buffer of the next.
pub proof fn lemma_roles_swap(flag: bool)
    ensures
        spec_read_of(!flag) == spec_write_of(flag),
        spec_write_of(!flag) == spec_read_of(flag),
        spec_read_of(flag) != spec_write_of(flag),
{
}

} // verus!
