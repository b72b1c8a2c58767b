//! Replacing the particle buffer by a larger one, and the copies that carry
//! the particles over.

use vstd::prelude::*;

use crate::buffers::grown_usage;
use crate::buffers::BufferPlan;
use crate::buffers::BufferRole;
use crate::buffers::BufferUsage;
use crate::buffers::COPY_ALIGNMENT;
use crate::buffers::HEADER_SIZE;
use crate::buffers::PARTICLE_SIZE;
use crate::layout::BufferBinding;
use crate::layout::GroupLayout;

verus! {

/// The particle buffer in use. The buffers that have been in use are numbered
/// from 0 in the order in which they were created.
#[derive(Clone, Copy, Debug, PartialEq, Eq, Structural)]
pub struct ParticleBuffer {
    pub id: u64,
    pub size: u64,
}

/// A copy from the start of one particle buffer to the start of another, to be
/// recorded at the head of the next frame.
#[derive(Clone, Copy, Debug, PartialEq, Eq, Structural)]
pub struct CopyJob {
    pub source: u64,
    pub destination: u64,
    pub size: u64,
}

/// A group that was made over the buffers of its layout: `particle_buffer` is
/// the number of the one in the role of the particles.
#[derive(Clone, Copy, Debug, PartialEq, Eq, Structural)]
pub struct BoundGroup {
    pub layout: GroupLayout,
    pub particle_buffer: u64,
}

/// A larger particle buffer to create, the number it goes by, and the group that
/// is to be made anew over it.
#[derive(Clone, Copy, Debug)]
pub struct BufferGrowth {
    pub id: u64,
    pub plan: BufferPlan,
    pub group: BoundGroup,
    pub group_label: &'static str,
}

/// The group through which the shaders see the particle buffer.
pub open spec fn group_over(buffer: ParticleBuffer) -> BoundGroup {
    BoundGroup { layout: GroupLayout::Particles, particle_buffer: buffer.id }
}

/// How many bytes `n` particles need.
pub open spec fn required_size(n: int) -> int {
    HEADER_SIZE + PARTICLE_SIZE * n
}

/// How large a buffer is made for `n` particles: half as large again as they
/// need.
pub open spec fn grown_size(n: int) -> int {
    required_size(n) * 3 / 2
}

/// Whether `buffer` has no room to spare for `n` particles.
pub open spec fn must_grow(buffer: ParticleBuffer, n: int) -> bool {
    required_size(n) >= buffer.size
}

/// The buffer in use after room was made for `n` particles.
pub open spec fn buffer_for(buffer: ParticleBuffer, n: int) -> ParticleBuffer {
    if must_grow(buffer, n) {
        ParticleBuffer { id: (buffer.id + 1) as u64, size: grown_size(n) as u64 }
    } else {
        buffer
    }
}

/// The copy that carries the contents of `buffer` over to the next one, made
/// for `n` particles.
pub open spec fn carry_over(buffer: ParticleBuffer, n: int) -> CopyJob {
    CopyJob {
        source: buffer.id,
        destination: (buffer.id + 1) as u64,
        size: if required_size(n) < buffer.size {
            required_size(n) as u64
        } else {
            buffer.size
        },
    }
}

/// The pending copies after room was made for `n` particles.
pub open spec fn jobs_for(jobs: Seq<CopyJob>, buffer: ParticleBuffer, n: int) -> Seq<CopyJob> {
    if must_grow(buffer, n) {
        jobs.push(carry_over(buffer, n))
    } else {
        jobs
    }
}

/// What is to be created to make room for `n` particles.
pub open spec fn is_growth_for(
    growth: Option<BufferGrowth>,
    buffer: ParticleBuffer,
    n: int,
) -> bool {
    if must_grow(buffer, n) {
        growth matches Some(growth) && {
            &&& growth.id == buffer.id + 1
            &&& growth.plan.label@ == "particles buffer"@
            &&& growth.plan.size == grown_size(n)
            &&& growth.plan.usage == grown_usage()
            &&& growth.group == group_over(buffer_for(buffer, n))
            &&& growth.group_label@ == "particles bind group"@
        }
    } else {
        growth is None
    }
}

/// What particle buffer `id` may be used for.
pub open spec fn particle_usage(id: int) -> BufferUsage {
    if id == 0 {
        BufferRole::Particles.first_usage()
    } else {
        grown_usage()
    }
}

/// The pending copies lead, each from where the last one ended, up to `buffer`;
/// each carries over the whole of an ever larger buffer.
pub open spec fn leads_to(jobs: Seq<CopyJob>, buffer: ParticleBuffer) -> bool {
    &&& jobs.len() <= buffer.id
    &&& forall|i: int|
        #![trigger jobs[i]]
        0 <= i < jobs.len() ==> {
            &&& jobs[i].source == buffer.id - jobs.len() + i
            &&& jobs[i].destination == jobs[i].source + 1
            &&& 0 < jobs[i].size < buffer.size
            &&& jobs[i].size % COPY_ALIGNMENT == 0
        }
    &&& forall|i: int, j: int|
        0 <= i < j < jobs.len() ==> (#[trigger] jobs[i]).size < (#[trigger] jobs[j]).size
}

/// What is known of every particle buffer that comes into use: it is at least
/// as large as the first, its size suits a copy, and its number is no greater
/// than its size, so that the numbers never run out.
pub open spec fn buffer_ok(buffer: ParticleBuffer) -> bool {
    &&& BufferRole::Particles.first_size() <= buffer.size
    &&& buffer.size % COPY_ALIGNMENT == 0
    &&& buffer.id <= buffer.size
}

/// Making room keeps the buffer and the pending copies in order, and leaves
/// room for more than `n` particles.
pub proof fn law_growth_keeps_order(jobs: Seq<CopyJob>, buffer: ParticleBuffer, n: int)
    requires
        0 <= n,
        required_size(n) <= u32::MAX,
        buffer_ok(buffer),
        leads_to(jobs, buffer),
    ensures
        buffer_ok(buffer_for(buffer, n)),
        leads_to(jobs_for(jobs, buffer, n), buffer_for(buffer, n)),
        required_size(n) < buffer_for(buffer, n).size,
{
    if must_grow(buffer, n) {
        assert(grown_size(n) == 12 + 48 * n);
        let after = buffer_for(buffer, n);
        let queue = jobs_for(jobs, buffer, n);
        assert forall|i: int| 0 <= i < queue.len() implies {
            &&& (#[trigger] queue[i]).source == after.id - queue.len() + i
            &&& queue[i].destination == queue[i].source + 1
            &&& 0 < queue[i].size < after.size
            &&& queue[i].size % COPY_ALIGNMENT == 0
        } by {
            if i < jobs.len() {
                assert(queue[i] == jobs[i]);
            }
        }
    }
}

/// The particle buffer never shrinks, and grows whenever it is replaced.
pub proof fn law_buffer_never_shrinks(buffer: ParticleBuffer, n: int)
    requires
        0 <= n,
        required_size(n) <= u32::MAX,
    ensures
        must_grow(buffer, n) ==> buffer_for(buffer, n).size > buffer.size,
        !must_grow(buffer, n) ==> buffer_for(buffer, n) == buffer,
{
    assert(grown_size(n) == 12 + 48 * n);
}

/// The buffer that a growth asks for is the one that comes into use: it has its
/// number and its size, and it is the one that is bound. None is asked for
/// exactly when the buffer in use stays in use.
pub proof fn law_growth_creates_buffer_in_use(
    growth: Option<BufferGrowth>,
    buffer: ParticleBuffer,
    n: int,
)
    requires
        0 <= n,
        required_size(n) <= u32::MAX,
        buffer_ok(buffer),
        is_growth_for(growth, buffer, n),
    ensures
        growth matches Some(growth) ==> {
            &&& growth.id == buffer_for(buffer, n).id
            &&& growth.plan.size == buffer_for(buffer, n).size
            &&& growth.group.particle_buffer == buffer_for(buffer, n).id
            &&& buffer_for(buffer, n).id != buffer.id
            &&& 8 + 32 * n < growth.plan.size
        },
        growth is None ==> buffer_for(buffer, n) == buffer && 8 + 32 * n < buffer.size,
{
    assert(grown_size(n) == 12 + 48 * n);
}

/// Room made once need not be made again, nor until half as many particles
/// again are asked for.
pub proof fn law_growth_leaves_headroom(buffer: ParticleBuffer, n: int, m: int)
    requires
        0 <= n,
        required_size(n) <= u32::MAX,
        must_grow(buffer, n),
        0 <= m,
        2 * m <= 3 * n,
    ensures
        !must_grow(buffer_for(buffer, n), m),
        !must_grow(buffer_for(buffer, n), n),
{
    assert(grown_size(n) == 12 + 48 * n);
}

/// A buffer that is replaced is carried over whole.
pub proof fn law_whole_buffer_is_carried_over(buffer: ParticleBuffer, n: int)
    requires
        must_grow(buffer, n),
    ensures
        carry_over(buffer, n).size == buffer.size,
{
}

/// What the GPU asks of a copy holds of every pending one: it goes between two
/// different buffers, out of one that may be copied from and into one that may
/// be copied to, and its size is aligned.
pub proof fn law_pending_copies_are_valid(jobs: Seq<CopyJob>, buffer: ParticleBuffer, i: int)
    requires
        leads_to(jobs, buffer),
        0 <= i < jobs.len(),
    ensures
        jobs[i].source != jobs[i].destination,
        particle_usage(jobs[i].source as int).copy_src,
        particle_usage(jobs[i].destination as int).copy_dst,
        jobs[i].size % COPY_ALIGNMENT == 0,
{
}

/// Every particle buffer can stand in its group, as a storage buffer.
pub proof fn law_particle_buffers_are_storage(id: int)
    ensures
        particle_usage(id).storage,
{
}

/// A group over a particle buffer binds it first and the random buffer second,
/// each whole.
pub proof fn law_particle_group_binds_whole_buffers(buffer: ParticleBuffer)
    ensures
        group_over(buffer).particle_buffer == buffer.id,
        group_over(buffer).layout.buffers() == seq![
            BufferBinding { binding: 0, buffer: BufferRole::Particles, offset: 0, size: None },
            BufferBinding { binding: 1, buffer: BufferRole::Random, offset: 0, size: None },
        ],
{
}

/// The contents of particle buffers, by number.
pub type Memory = Map<u64, Seq<u8>>;

/// What a copy does to the contents.
pub open spec fn run_copy(memory: Memory, job: CopyJob) -> Memory {
    memory.insert(
        job.destination,
        memory[job.source].take(job.size as int) + memory[job.destination].skip(job.size as int),
    )
}

/// What copies do to the contents, one after another.
pub open spec fn run_copies(memory: Memory, jobs: Seq<CopyJob>) -> Memory
    decreases jobs.len(),
{
    if jobs.len() == 0 {
        memory
    } else {
        run_copy(run_copies(memory, jobs.drop_last()), jobs.last())
    }
}

/// `memory` holds the buffers that the pending copies go between and the one
/// in use, each as large as it was created.
pub open spec fn holds_buffers(
    memory: Memory,
    jobs: Seq<CopyJob>,
    buffer: ParticleBuffer,
) -> bool {
    &&& memory[buffer.id].len() == buffer.size
    &&& forall|i: int|
        #![trigger jobs[i]]
        0 <= i < jobs.len() ==> memory[jobs[i].source].len() == jobs[i].size
}

/// Creating the larger buffer, whatever it holds at first, keeps `memory` in
/// step with the pending copies.
pub proof fn law_growth_keeps_memory_in_step(
    memory: Memory,
    fresh: Seq<u8>,
    jobs: Seq<CopyJob>,
    buffer: ParticleBuffer,
    n: int,
)
    requires
        0 <= n,
        required_size(n) <= u32::MAX,
        buffer_ok(buffer),
        leads_to(jobs, buffer),
        holds_buffers(memory, jobs, buffer),
        must_grow(buffer, n),
        fresh.len() == grown_size(n),
    ensures
        holds_buffers(
            memory.insert(buffer_for(buffer, n).id, fresh),
            jobs_for(jobs, buffer, n),
            buffer_for(buffer, n),
        ),
{
    assert(grown_size(n) == 12 + 48 * n);
    let queue = jobs_for(jobs, buffer, n);
    let after = memory.insert(buffer_for(buffer, n).id, fresh);
    assert forall|i: int| 0 <= i < queue.len() implies after[(
    #[trigger] queue[i]).source].len() == queue[i].size by {
        if i < jobs.len() {
            assert(queue[i] == jobs[i]);
        }
    }
}

/// Every pending copy stays inside both of its buffers.
pub proof fn law_pending_copies_fit(
    memory: Memory,
    jobs: Seq<CopyJob>,
    buffer: ParticleBuffer,
    i: int,
)
    requires
        leads_to(jobs, buffer),
        holds_buffers(memory, jobs, buffer),
        0 <= i < jobs.len(),
    ensures
        jobs[i].size <= memory[jobs[i].source].len(),
        jobs[i].size <= memory[jobs[i].destination].len(),
{
    if i + 1 < jobs.len() {
        assert(jobs[i + 1].source == jobs[i].destination);
    }
}

proof fn lemma_copies_so_far(
    memory: Memory,
    jobs: Seq<CopyJob>,
    buffer: ParticleBuffer,
    k: int,
)
    requires
        leads_to(jobs, buffer),
        holds_buffers(memory, jobs, buffer),
        0 < k <= jobs.len(),
    ensures
        ({
            let after = run_copies(memory, jobs.take(k));
            let reached = jobs[k - 1].destination;
            &&& after[reached].len() == memory[reached].len()
            &&& after[reached].len() > jobs[0].size
            &&& after[reached].take(jobs[0].size as int) == memory[jobs[0].source]
            &&& forall|id: u64| id > reached ==> #[trigger] after[id] == memory[id]
        }),
    decreases k,
{
    let job = jobs[k - 1];
    let reached = job.destination;
    let start = jobs[0].size as int;
    assert(jobs.take(k).drop_last() == jobs.take(k - 1));
    assert(jobs.take(k).last() == job);
    let before = run_copies(memory, jobs.take(k - 1));
    if k < jobs.len() {
        assert(jobs[k].source == reached);
        assert(jobs[k - 1].size < jobs[k].size);
    } else {
        assert(reached == buffer.id);
    }
    if k == 1 {
        assert(jobs.take(0).len() == 0);
        assert(before == memory);
    } else {
        lemma_copies_so_far(memory, jobs, buffer, k - 1);
        assert(jobs[k - 2].destination == job.source);
        assert(jobs[0].size < job.size);
        assert(before[job.source].take(job.size as int).take(start) == before[job.source].take(
            start,
        ));
    }
    let after = run_copy(before, job);
    assert(after[reached].take(start) == before[job.source].take(start));
    if k == 1 {
        assert(before[job.source].take(start) == memory[jobs[0].source]);
    }
}

/// No particle is lost however often the buffer grew between two frames: once
/// the pending copies have run, the buffer in use begins with everything that
/// was in the buffer from which the first of them copies.
pub proof fn law_growth_loses_nothing(memory: Memory, jobs: Seq<CopyJob>, buffer: ParticleBuffer)
    requires
        leads_to(jobs, buffer),
        holds_buffers(memory, jobs, buffer),
        jobs.len() > 0,
    ensures
        run_copies(memory, jobs)[buffer.id].len() == buffer.size,
        run_copies(memory, jobs)[buffer.id].take(jobs[0].size as int) == memory[jobs[0].source],
{
    let last = jobs.len() - 1;
    assert(jobs[last].destination == buffer.id);
    assert(jobs.take(jobs.len() as int) == jobs);
    lemma_copies_so_far(memory, jobs, buffer, jobs.len() as int);
}

} // verus!
