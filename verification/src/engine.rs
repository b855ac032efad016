//! Compute engine configuration and the small decisions around its
//! synchronization objects and pipelines.
use vstd::prelude::*;

verus! {

/// How a compute engine is set up.
#[derive(Debug, Clone)]
pub struct ComputeEngineConfig {
    pub app_name: String,
    /// The size of the bindless storage buffer array.
    pub max_storage_buffers: u32,
    /// The size of the bindless uniform buffer array.
    pub max_uniform_buffers: u32,
    /// Instance extensions to enable, by name.
    pub required_instance_extensions: Vec<String>,
    /// Device extensions to enable, by name.
    pub required_device_extensions: Vec<String>,
    /// Whether the queue must also support graphics work.
    pub request_graphics_queue: bool,
}

impl Default for ComputeEngineConfig {
    /// An engine named "Enki Compute Engine" with 1024 storage and 256 uniform
    /// buffer slots, no extra extensions, and a compute-only queue.
    fn default() -> (r: ComputeEngineConfig)
        ensures
            r.app_name@ == "Enki Compute Engine"@,
            r.max_storage_buffers == 1024,
            r.max_uniform_buffers == 256,
            r.required_instance_extensions@.len() == 0,
            r.required_device_extensions@.len() == 0,
            !r.request_graphics_queue,
    {
        ComputeEngineConfig {
            app_name: String::from_str("Enki Compute Engine"),
            max_storage_buffers: 1024,
            max_uniform_buffers: 256,
            required_instance_extensions: Vec::new(),
            required_device_extensions: Vec::new(),
            request_graphics_queue: false,
        }
    }
}

/// An operation that only timeline semaphores support.
#[derive(Debug, Clone, Copy, PartialEq, Eq, Structural)]
pub enum TimelineOp {
    GetValue,
    Wait,
    Signal,
}

/// The diagnostic for a timeline operation on a binary semaphore.
pub open spec fn spec_binary_semaphore_message(op: TimelineOp) -> Seq<char> {
    match op {
        TimelineOp::GetValue => "[VulkanSemaphore] Cannot get counter value of a Binary Semaphore"@,
        TimelineOp::Wait => "[VulkanSemaphore] Cannot wait on a Binary Semaphore using wait_timeline"@,
        TimelineOp::Signal => "[VulkanSemaphore] Cannot signal a Binary Semaphore using signal_timeline"@,
    }
}

/// Whether a timeline operation may run on a semaphore: only on a timeline one.
pub fn check_timeline_op(is_timeline: bool, op: TimelineOp) -> (r: Result<(), String>)
    ensures
        is_timeline ==> r is Ok,
        !is_timeline ==> (r matches Err(m) && m@ == spec_binary_semaphore_message(op)),
{
    if is_timeline {
        return Ok(());
    }
    match op {
        TimelineOp::GetValue => Err(String::from_str("[VulkanSemaphore] Cannot get counter value of a Binary Semaphore")),
        TimelineOp::Wait => Err(String::from_str("[VulkanSemaphore] Cannot wait on a Binary Semaphore using wait_timeline")),
        TimelineOp::Signal => Err(String::from_str("[VulkanSemaphore] Cannot signal a Binary Semaphore using signal_timeline")),
    }
}

/// Whether submitted work that signals `target_value` has finished, given the
/// value the timeline has reached.
pub fn is_completed(current_value: u64, target_value: u64) -> (r: bool)
    ensures
        r == (current_value >= target_value),
{
    current_value >= target_value
}

/// `VK_FENCE_CREATE_SIGNALED_BIT`.
pub const FENCE_CREATE_SIGNALED: u32 = 1;

/// The flags a fence is created with.
pub fn fence_create_flags(signaled: bool) -> (r: u32)
    ensures
        r == (if signaled { FENCE_CREATE_SIGNALED } else { 0 }),
{
    if signaled { FENCE_CREATE_SIGNALED } else { 0 }
}

/// `VK_SHADER_STAGE_COMPUTE_BIT`.
pub const SHADER_STAGE_COMPUTE: u32 = 0x20;

/// A push-constant range of a pipeline layout.
#[derive(Debug, Clone, Copy, PartialEq, Eq, Structural)]
pub struct PushConstantRange {
    /// The stages that read it, as raw bits.
    pub stage_flags: u32,
    pub offset: u32,
    pub size: u32,
}

/// `VK_SHADER_STAGE_VERTEX_BIT | VK_SHADER_STAGE_FRAGMENT_BIT`.
pub const SHADER_STAGE_VERTEX_FRAGMENT: u32 = 0x11;

/// The push-constant ranges of a pipeline layout: one from offset 0, read by
/// `stage_flags`, when the size is not zero; none otherwise.
pub fn push_constant_ranges(push_constants_size: u32, stage_flags: u32) -> (r: Vec<PushConstantRange>)
    ensures
        push_constants_size == 0 ==> r@.len() == 0,
        push_constants_size > 0 ==> r@ == seq![PushConstantRange {
            stage_flags,
            offset: 0,
            size: push_constants_size,
        }],
{
    let mut ranges: Vec<PushConstantRange> = Vec::new();
    if push_constants_size > 0 {
        ranges.push(PushConstantRange { stage_flags, offset: 0, size: push_constants_size });
    }
    ranges
}

/// The SPIR-V words of a shader binary: `ash::util::read_spv` applied to the bytes.
pub open spec fn spec_word(b: Seq<u8>, i: int, little_endian: bool) -> u32 {
    if little_endian {
        (b[4 * i] + 256 * b[4 * i + 1] + 65536 * b[4 * i + 2] + 16777216 * b[4 * i + 3]) as u32
    } else {
        (b[4 * i + 3] + 256 * b[4 * i + 2] + 65536 * b[4 * i + 1] + 16777216 * b[4 * i]) as u32
    }
}

/// The SPIR-V magic number.
pub const SPIRV_MAGIC: u32 = 0x0723_0203;

/// The words of a SPIR-V binary, read in the byte order its magic number shows,
/// or the text of the error: the length must be a multiple of four and the
/// first word the magic number in one of the two byte orders.
pub open spec fn spec_read_spv(b: Seq<u8>) -> Result<Seq<u32>, Seq<char>> {
    if b.len() % 4 != 0 {
        Err("input length not divisible by 4"@)
    } else if b.len() >= 4 && spec_word(b, 0, true) == SPIRV_MAGIC {
        Ok(Seq::new(b.len() / 4, |i: int| spec_word(b, i, true)))
    } else if b.len() >= 4 && spec_word(b, 0, false) == SPIRV_MAGIC {
        Ok(Seq::new(b.len() / 4, |i: int| spec_word(b, i, false)))
    } else {
        Err("input missing SPIR-V magic number"@)
    }
}

/// `ash::util::read_spv` over the bytes. What the contract states, from the
/// function's source: the bytes are read as 4-byte words in the byte order in
/// which the first word is the SPIR-V magic number; a length that is not a
/// multiple of four, or a first word that is not the magic number in either
/// order, is refused with the text of its error.
#[verifier::external_body]
fn read_spv(bytes: &[u8]) -> (r: Result<Vec<u32>, String>)
    ensures
        match (r, spec_read_spv(bytes@)) {
            (Ok(w), Ok(v)) => w@ == v,
            (Err(e), Err(m)) => e@ == m,
            _ => false,
        },
{
    ash::util::read_spv(&mut std::io::Cursor::new(bytes)).map_err(|e| e.to_string())
}

/// The SPIR-V words of a shader binary, or the text of the error that makes it
/// unreadable.
pub fn spirv_words(bytes: &[u8]) -> (r: Result<Vec<u32>, String>)
    ensures
        match (r, spec_read_spv(bytes@)) {
            (Ok(w), Ok(v)) => w@ == v,
            (Err(e), Err(m)) => e@ == m,
            _ => false,
        },
{
    read_spv(bytes)
}

} // verus!
