use vstd::prelude::*;
use crate::boid::Boid;
use crate::uniforms::ComputeUniforms;

verus! {

/// What one tick must leave in the write buffer: as many agents as were
/// read, each one an output of the kernel for its own index on the frozen
/// read buffer.
pub open spec fn spec_stepped<K: Fn(usize, &Vec<Boid>, &ComputeUniforms) -> Boid>(
    kernel: K,
    read: Vec<Boid>,
    uniforms: ComputeUniforms,
    write: Seq<Boid>,
) -> bool {
    &&& write.len() == read@.len()
    &&& forall|i: usize|
        0 <= i < read@.len() ==> call_ensures(kernel, (i, &read, &uniforms), #[trigger] write[i as int])
}

/// The kernel may be called for every agent of the read buffer.
pub open spec fn spec_can_step<K: Fn(usize, &Vec<Boid>, &ComputeUniforms) -> Boid>(
    kernel: K,
    read: Vec<Boid>,
    uniforms: ComputeUniforms,
) -> bool {
    forall|i: usize| 0 <= i < read@.len() ==> call_requires(kernel, (i, &read, &uniforms))
}

/// A kernel whose output is fixed by its index, the read buffer and the
/// uniform block.
pub open spec fn spec_is_function<K: Fn(usize, &Vec<Boid>, &ComputeUniforms) -> Boid>(
    kernel: K,
    read: Vec<Boid>,
    uniforms: ComputeUniforms,
) -> bool {
    forall|i: usize, a: Boid, b: Boid|
        call_ensures(kernel, (i, &read, &uniforms), a) && call_ensures(
            kernel,
            (i, &read, &uniforms),
            b,
        ) ==> a == b
}

/// Advances every agent by one tick on the host: one call of the kernel per
/// agent, each on the untouched read buffer, each result stored at the
/// agent's own place in the write buffer.
pub fn step<K: Fn(usize, &Vec<Boid>, &ComputeUniforms) -> Boid>(
    read: &Vec<Boid>,
    write: &mut Vec<Boid>,
    uniforms: &ComputeUniforms,
    kernel: K,
)
    requires
        old(write)@.len() == read@.len(),
        spec_can_step(kernel, *read, *uniforms),
    ensures
        spec_stepped(kernel, *read, *uniforms, final(write)@),
{
    let mut i: usize = 0;
    while i < read.len()
        invariant
            i <= read.len(),
            write@.len() == read@.len(),
            forall|j: usize| 0 <= j < read@.len() ==> call_requires(kernel, (j, read, uniforms)),
            forall|j: usize|
                0 <= j < i ==> call_ensures(kernel, (j, read, uniforms), #[trigger] write@[j as int]),
        decreases read.len() - i,
    {
        let next = kernel(i, read, uniforms);
        write.set(i, next);
        i = i + 1;
    }
}

/// Two ticks from the same read buffer and uniform block, run with a kernel
/// that is a function of its inputs, leave the same write buffer.
pub proof fn lemma_step_deterministic<K: Fn(usize, &Vec<Boid>, &ComputeUniforms) -> Boid>(
    kernel: K,
    read: Vec<Boid>,
    uniforms: ComputeUniforms,
    first: Seq<Boid>,
    second: Seq<Boid>,
)
    requires
        spec_is_function(kernel, read, uniforms),
        spec_stepped(kernel, read, uniforms, first),
        spec_stepped(kernel, read, uniforms, second),
    ensures
        first == second,
{
    assert(read@.len() == read.len());
    assert forall|k: int| 0 <= k < first.len() implies first[k] == second[k] by {
        let i = k as usize;
        assert(call_ensures(kernel, (i, &read, &uniforms), first[i as int]));
        assert(call_ensures(kernel, (i, &read, &uniforms), second[i as int]));
    }
    assert(first =~= second);
}

} // verus!
