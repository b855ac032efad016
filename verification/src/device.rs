//! Choosing the physical device and queue family a compute engine runs on,
//! and the queues a logical device hands out.
use vstd::prelude::*;

verus! {

/// `VK_QUEUE_GRAPHICS_BIT`.
pub const QUEUE_GRAPHICS_BIT: u32 = 1;
/// `VK_QUEUE_COMPUTE_BIT`.
pub const QUEUE_COMPUTE_BIT: u32 = 2;

/// What the engine reads of a physical device to choose it.
pub struct DeviceCandidate {
    /// Whether it is a discrete GPU.
    pub is_discrete: bool,
    /// The capability bits of each of its queue families.
    pub queue_family_flags: Vec<u32>,
}

/// Whether a queue family supports compute work.
pub open spec fn supports_compute(flags: u32) -> bool {
    flags & QUEUE_COMPUTE_BIT == QUEUE_COMPUTE_BIT
}

/// Whether a queue family supports both compute and graphics work.
pub open spec fn supports_compute_and_graphics(flags: u32) -> bool {
    flags & (QUEUE_COMPUTE_BIT | QUEUE_GRAPHICS_BIT) == (QUEUE_COMPUTE_BIT | QUEUE_GRAPHICS_BIT)
}

/// Whether a device has a queue family that supports compute work.
pub open spec fn has_compute_family(c: DeviceCandidate) -> bool {
    exists|j: int| 0 <= j < c.queue_family_flags@.len() && supports_compute(#[trigger] c.queue_family_flags@[j])
}

/// Whether a device is a discrete GPU that can run compute work.
pub open spec fn is_preferred(c: DeviceCandidate) -> bool {
    c.is_discrete && has_compute_family(c)
}

/// Whether `i` is the first index of `cands` that `p` holds for.
pub open spec fn first_device(cands: Seq<DeviceCandidate>, i: int, p: spec_fn(DeviceCandidate) -> bool) -> bool {
    0 <= i < cands.len() && p(cands[i]) && forall|j: int| 0 <= j < i ==> !p(#[trigger] cands[j])
}

/// Whether `i` is the first index of `flags` that `p` holds for.
pub open spec fn first_family(flags: Seq<u32>, i: int, p: spec_fn(u32) -> bool) -> bool {
    0 <= i < flags.len() && p(flags[i]) && forall|j: int| 0 <= j < i ==> !p(#[trigger] flags[j])
}

fn family_supports(flags: u32, bits: u32) -> (r: bool)
    ensures
        r == (flags & bits == bits),
{
    flags & bits == bits
}

fn has_compute(c: &DeviceCandidate) -> (r: bool)
    ensures
        r == has_compute_family(*c),
{
    let mut i: usize = 0;
    while i < c.queue_family_flags.len()
        invariant
            i <= c.queue_family_flags@.len(),
            forall|j: int| 0 <= j < i ==> !supports_compute(#[trigger] c.queue_family_flags@[j]),
        decreases c.queue_family_flags.len() - i,
    {
        if family_supports(c.queue_family_flags[i], QUEUE_COMPUTE_BIT) {
            return true;
        }
        i += 1;
    }
    false
}

/// Chooses the physical device: the first discrete GPU with a compute queue
/// family, else the first device with a compute queue family.
pub fn select_physical_device(cands: &Vec<DeviceCandidate>) -> (r: Result<usize, String>)
    ensures
        match r {
            Ok(i) => first_device(cands@, i as int, |c: DeviceCandidate| is_preferred(c))
                || ((forall|j: int| 0 <= j < cands@.len() ==> !is_preferred(#[trigger] cands@[j]))
                    && first_device(cands@, i as int, |c: DeviceCandidate| has_compute_family(c))),
            Err(m) => (forall|j: int| 0 <= j < cands@.len() ==> !has_compute_family(#[trigger] cands@[j]))
                && m@ == "[ComputeEngine] No physical device with GPGPU/Compute support found"@,
        },
{
    let mut i: usize = 0;
    while i < cands.len()
        invariant
            i <= cands@.len(),
            forall|j: int| 0 <= j < i ==> !is_preferred(#[trigger] cands@[j]),
        decreases cands.len() - i,
    {
        if cands[i].is_discrete && has_compute(&cands[i]) {
            return Ok(i);
        }
        i += 1;
    }
    let mut i: usize = 0;
    while i < cands.len()
        invariant
            i <= cands@.len(),
            forall|j: int| 0 <= j < cands@.len() ==> !is_preferred(#[trigger] cands@[j]),
            forall|j: int| 0 <= j < i ==> !has_compute_family(#[trigger] cands@[j]),
        decreases cands.len() - i,
    {
        if has_compute(&cands[i]) {
            return Ok(i);
        }
        i += 1;
    }
    Err(String::from_str("[ComputeEngine] No physical device with GPGPU/Compute support found"))
}

/// Chooses the queue family among a device's: when graphics is requested, the
/// first family with compute and graphics, else the first with compute; when
/// it is not, the first family with compute.
pub fn select_queue_family(families: &Vec<u32>, request_graphics_queue: bool) -> (r: Result<u32, String>)
    requires
        families@.len() <= u32::MAX,
    ensures
        match r {
            Ok(i) => if request_graphics_queue {
                first_family(families@, i as int, |f: u32| supports_compute_and_graphics(f))
                    || ((forall|j: int| 0 <= j < families@.len() ==> !supports_compute_and_graphics(#[trigger] families@[j]))
                        && first_family(families@, i as int, |f: u32| supports_compute(f)))
            } else {
                first_family(families@, i as int, |f: u32| supports_compute(f))
            },
            Err(m) => (forall|j: int| 0 <= j < families@.len() ==> !supports_compute(#[trigger] families@[j]))
                && m@ == (if request_graphics_queue {
                    "[ComputeEngine] No queue family with Compute + Graphics support found"@
                } else {
                    "[ComputeEngine] No queue family with Compute support found"@
                }),
        },
{
    if request_graphics_queue {
        let mut i: usize = 0;
        while i < families.len()
            invariant
                request_graphics_queue,
                families@.len() <= u32::MAX,
                i <= families@.len(),
                forall|j: int| 0 <= j < i ==> !supports_compute_and_graphics(#[trigger] families@[j]),
            decreases families.len() - i,
        {
            if family_supports(families[i], QUEUE_COMPUTE_BIT | QUEUE_GRAPHICS_BIT) {
                return Ok(i as u32);
            }
            i += 1;
        }
    }
    let mut i: usize = 0;
    while i < families.len()
        invariant
            families@.len() <= u32::MAX,
            i <= families@.len(),
            request_graphics_queue ==> forall|j: int| 0 <= j < families@.len() ==> !supports_compute_and_graphics(#[trigger] families@[j]),
            forall|j: int| 0 <= j < i ==> !supports_compute(#[trigger] families@[j]),
        decreases families.len() - i,
    {
        if family_supports(families[i], QUEUE_COMPUTE_BIT) {
            return Ok(i as u32);
        }
        i += 1;
    }
    if request_graphics_queue {
        Err(String::from_str("[ComputeEngine] No queue family with Compute + Graphics support found"))
    } else {
        Err(String::from_str("[ComputeEngine] No queue family with Compute support found"))
    }
}

/// A request for queues of one family: the family and how many queues.
#[derive(Debug, Clone, Copy, PartialEq, Eq, Structural)]
pub struct QueueRequestShape {
    pub family_index: u32,
    pub queue_count: usize,
}

/// The (family, index) pairs of the queues that `reqs[0..k]` ask for, in order.
pub open spec fn spec_queues(reqs: Seq<QueueRequestShape>, k: int) -> Seq<(u32, u32)>
    decreases k,
{
    if k <= 0 || k > reqs.len() {
        Seq::empty()
    } else {
        spec_queues(reqs, k - 1) + Seq::new(
            reqs[k - 1].queue_count as nat,
            |j: int| (reqs[k - 1].family_index, j as u32),
        )
    }
}

/// The queues a logical device hands out, in request order: for each request,
/// its family's queues with indices from zero.
pub fn queues_to_retrieve(reqs: &Vec<QueueRequestShape>) -> (r: Vec<(u32, u32)>)
    requires
        forall|i: int| 0 <= i < reqs@.len() ==> #[trigger] reqs@[i].queue_count <= u32::MAX,
    ensures
        r@ == spec_queues(reqs@, reqs@.len() as int),
{
    let mut out: Vec<(u32, u32)> = Vec::new();
    let mut i: usize = 0;
    while i < reqs.len()
        invariant
            forall|t: int| 0 <= t < reqs@.len() ==> #[trigger] reqs@[t].queue_count <= u32::MAX,
            i <= reqs@.len(),
            out@ == spec_queues(reqs@, i as int),
        decreases reqs.len() - i,
    {
        let req = reqs[i];
        let ghost before = out@;
        let mut q: usize = 0;
        while q < req.queue_count
            invariant
                req == reqs@[i as int],
                req.queue_count <= u32::MAX,
                q <= req.queue_count,
                out@ == before + Seq::new(q as nat, |j: int| (req.family_index, j as u32)),
            decreases req.queue_count - q,
        {
            out.push((req.family_index, q as u32));
            assert(out@ =~= before + Seq::new((q + 1) as nat, |j: int| (req.family_index, j as u32)));
            q += 1;
        }
        i += 1;
    }
    out
}

} // verus!
