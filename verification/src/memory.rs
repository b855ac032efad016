//! GPU memory decisions: how each kind of buffer is allocated, how large it is,
//! which host reads and writes it accepts, how a buffer upload is staged, and
//! which aspect an image view of a format covers.
use vstd::prelude::*;
use crate::text::{spec_decimal, decimal};

verus! {

/// Where a buffer's memory lives and who writes it.
#[derive(Debug, Clone, Copy, PartialEq, Eq, Structural)]
pub enum MemoryUsage {
    /// GPU memory that the host never maps.
    DeviceOnly,
    /// Host memory the host writes in order and the GPU reads.
    Upload,
    /// Host memory the GPU writes and the host reads back.
    Download,
    /// Memory both sides map; on unified-memory devices it is device memory.
    ZeroCopy,
}

/// The memory placement that the allocator is asked to prefer.
#[derive(Debug, Clone, Copy, PartialEq, Eq, Structural)]
pub enum VmaMemoryUsage {
    AutoPreferDevice,
    AutoPreferHost,
}

/// The allocation flags that the allocator is given.
#[derive(Debug, Clone, Copy, PartialEq, Eq, Structural)]
pub struct AllocationFlags {
    /// Keep the allocation persistently mapped.
    pub mapped: bool,
    /// The host writes the mapping sequentially.
    pub host_access_sequential_write: bool,
    /// The host reads and writes the mapping in any order.
    pub host_access_random: bool,
}

/// The allocator request for a memory usage.
pub open spec fn spec_to_vma(usage: MemoryUsage, is_unified_memory: bool) -> (VmaMemoryUsage, AllocationFlags) {
    match usage {
        MemoryUsage::DeviceOnly => (
            VmaMemoryUsage::AutoPreferDevice,
            AllocationFlags { mapped: false, host_access_sequential_write: false, host_access_random: false },
        ),
        MemoryUsage::Upload => (
            VmaMemoryUsage::AutoPreferHost,
            AllocationFlags { mapped: true, host_access_sequential_write: true, host_access_random: false },
        ),
        MemoryUsage::Download => (
            VmaMemoryUsage::AutoPreferHost,
            AllocationFlags { mapped: true, host_access_sequential_write: false, host_access_random: true },
        ),
        MemoryUsage::ZeroCopy => (
            if is_unified_memory { VmaMemoryUsage::AutoPreferDevice } else { VmaMemoryUsage::AutoPreferHost },
            AllocationFlags { mapped: true, host_access_sequential_write: false, host_access_random: true },
        ),
    }
}

impl MemoryUsage {
    /// The allocator request for this usage: device-only memory is never mapped;
    /// the other kinds are mapped, uploads for sequential writes and the rest
    /// for random access; zero-copy memory prefers the device on unified-memory
    /// machines and the host elsewhere.
    pub fn to_vma(&self, is_unified_memory: bool) -> (r: (VmaMemoryUsage, AllocationFlags))
        ensures
            r == spec_to_vma(*self, is_unified_memory),
    {
        match self {
            MemoryUsage::DeviceOnly => (
                VmaMemoryUsage::AutoPreferDevice,
                AllocationFlags { mapped: false, host_access_sequential_write: false, host_access_random: false },
            ),
            MemoryUsage::Upload => (
                VmaMemoryUsage::AutoPreferHost,
                AllocationFlags { mapped: true, host_access_sequential_write: true, host_access_random: false },
            ),
            MemoryUsage::Download => (
                VmaMemoryUsage::AutoPreferHost,
                AllocationFlags { mapped: true, host_access_sequential_write: false, host_access_random: true },
            ),
            MemoryUsage::ZeroCopy => {
                if is_unified_memory {
                    (
                        VmaMemoryUsage::AutoPreferDevice,
                        AllocationFlags { mapped: true, host_access_sequential_write: false, host_access_random: true },
                    )
                } else {
                    (
                        VmaMemoryUsage::AutoPreferHost,
                        AllocationFlags { mapped: true, host_access_sequential_write: false, host_access_random: true },
                    )
                }
            }
        }
    }
}

/// A memory heap: whether it is device-local, and its size in bytes.
#[derive(Debug, Clone, Copy, PartialEq, Eq, Structural)]
pub struct MemoryHeap {
    pub device_local: bool,
    pub size: u64,
}

/// Whether host and device share memory: the device is an integrated GPU, or
/// it has one single heap and that heap is device-local and not empty.
pub open spec fn spec_is_unified_memory(is_integrated_gpu: bool, heaps: Seq<MemoryHeap>) -> bool {
    is_integrated_gpu || (heaps.len() == 1 && heaps[0].device_local && heaps[0].size > 0)
}

/// Decides whether host and device share memory, from the device type and the
/// heaps the device reports.
pub fn is_unified_memory(is_integrated_gpu: bool, heaps: &Vec<MemoryHeap>) -> (r: bool)
    ensures
        r == spec_is_unified_memory(is_integrated_gpu, heaps@),
{
    if is_integrated_gpu {
        return true;
    }
    let mut has_unified_heap = false;
    let mut i: usize = 0;
    while i < heaps.len()
        invariant
            i <= heaps@.len(),
            has_unified_heap == exists|j: int| 0 <= j < i && #[trigger] heaps@[j].device_local && heaps@[j].size > 0,
        decreases heaps.len() - i,
    {
        if heaps[i].device_local && heaps[i].size > 0 {
            has_unified_heap = true;
        }
        i += 1;
    }
    heaps.len() == 1 && has_unified_heap
}

/// Which typed buffer an operation is on, for its diagnostics.
#[derive(Debug, Clone, Copy, PartialEq, Eq, Structural)]
pub enum BufferKind {
    Device,
    Upload,
    Readback,
    Shared,
}

/// The name a buffer kind is reported under.
pub open spec fn spec_kind_tag(kind: BufferKind) -> Seq<char> {
    match kind {
        BufferKind::Device => "[GpuDeviceBuffer]"@,
        BufferKind::Upload => "[GpuUploadBuffer]"@,
        BufferKind::Readback => "[GpuReadbackBuffer]"@,
        BufferKind::Shared => "[GpuSharedBuffer]"@,
    }
}

/// The memory usage each kind of buffer is allocated with.
pub open spec fn spec_kind_usage(kind: BufferKind) -> MemoryUsage {
    match kind {
        BufferKind::Device => MemoryUsage::DeviceOnly,
        BufferKind::Upload => MemoryUsage::Upload,
        BufferKind::Readback => MemoryUsage::Download,
        BufferKind::Shared => MemoryUsage::ZeroCopy,
    }
}

/// The memory usage a kind of buffer is allocated with.
pub fn kind_usage(kind: BufferKind) -> (r: MemoryUsage)
    ensures
        r == spec_kind_usage(kind),
{
    match kind {
        BufferKind::Device => MemoryUsage::DeviceOnly,
        BufferKind::Upload => MemoryUsage::Upload,
        BufferKind::Readback => MemoryUsage::Download,
        BufferKind::Shared => MemoryUsage::ZeroCopy,
    }
}

/// Whether an allocation with these flags is mapped for the host.
pub fn is_host_mapped(flags: AllocationFlags) -> (r: bool)
    ensures
        r == flags.mapped,
{
    flags.mapped
}

/// A refused host access to a mapped buffer.
#[derive(Debug, Clone, Copy, PartialEq, Eq, Structural)]
pub enum BufferAccessError {
    /// The allocation has no host mapping.
    NotMapped,
    /// The data to write is larger than the buffer.
    ExceedsCapacity,
    /// More elements were asked for than the buffer holds.
    OutputTooLarge,
}

/// The diagnostic text of a refused access.
pub open spec fn spec_access_message(kind: BufferKind, e: BufferAccessError) -> Seq<char> {
    spec_kind_tag(kind) + match e {
        BufferAccessError::NotMapped => " Mapping failed during allocation"@,
        BufferAccessError::ExceedsCapacity => " Input data exceeds buffer capacity"@,
        BufferAccessError::OutputTooLarge => " Output slice is too small"@,
    }
}

impl BufferAccessError {
    /// The diagnostic text of this refusal on a buffer of the given kind.
    pub fn message(&self, kind: BufferKind) -> (r: String)
        ensures
            r@ == spec_access_message(kind, *self),
    {
        let mut s = match kind {
            BufferKind::Device => String::from_str("[GpuDeviceBuffer]"),
            BufferKind::Upload => String::from_str("[GpuUploadBuffer]"),
            BufferKind::Readback => String::from_str("[GpuReadbackBuffer]"),
            BufferKind::Shared => String::from_str("[GpuSharedBuffer]"),
        };
        match self {
            BufferAccessError::NotMapped => s.append(" Mapping failed during allocation"),
            BufferAccessError::ExceedsCapacity => s.append(" Input data exceeds buffer capacity"),
            BufferAccessError::OutputTooLarge => s.append(" Output slice is too small"),
        }
        s
    }
}

/// The size in bytes of a buffer of `element_count` elements of `element_size`
/// bytes each.
pub fn buffer_size_in_bytes(element_count: usize, element_size: usize) -> (r: u64)
    requires
        element_count * element_size <= u64::MAX,
    ensures
        r == element_count * element_size,
{
    (element_count as u64) * (element_size as u64)
}

/// Whether a write of `data_len` elements of `element_size` bytes into a mapped
/// buffer of `size_in_bytes` bytes is accepted: the buffer must be mapped and
/// the data must fit.
pub fn check_write(mapped: bool, data_len: usize, element_size: usize, size_in_bytes: u64) -> (r: Result<(), BufferAccessError>)
    requires
        data_len * element_size <= u64::MAX,
    ensures
        r == (if !mapped {
            Err(BufferAccessError::NotMapped)
        } else if data_len * element_size > size_in_bytes {
            Err(BufferAccessError::ExceedsCapacity)
        } else {
            Ok(())
        }),
{
    if !mapped {
        return Err(BufferAccessError::NotMapped);
    }
    let bytes_to_write = (data_len as u64) * (element_size as u64);
    if bytes_to_write > size_in_bytes {
        return Err(BufferAccessError::ExceedsCapacity);
    }
    Ok(())
}

/// Whether a read of `out_len` elements from a mapped buffer of `element_count`
/// elements is accepted: the buffer must be mapped and hold that many elements.
pub fn check_read(mapped: bool, out_len: usize, element_count: usize) -> (r: Result<(), BufferAccessError>)
    ensures
        r == (if !mapped {
            Err(BufferAccessError::NotMapped)
        } else if out_len > element_count {
            Err(BufferAccessError::OutputTooLarge)
        } else {
            Ok(())
        }),
{
    if !mapped {
        return Err(BufferAccessError::NotMapped);
    }
    if out_len > element_count {
        return Err(BufferAccessError::OutputTooLarge);
    }
    Ok(())
}

/// How an upload into a device buffer is carried out.
#[derive(Debug, Clone, Copy, PartialEq, Eq, Structural)]
pub struct TransferPlan {
    /// Where in the destination the data goes, in bytes.
    pub dst_offset_bytes: u64,
    /// How many bytes are copied.
    pub size_bytes: u64,
    /// Whether the persistent staging buffer is large enough to carry the data;
    /// otherwise a temporary staging buffer of the data's size is made.
    pub use_persistent_staging: bool,
}

/// The diagnostic of an upload that would end past its destination.
pub open spec fn spec_out_of_bounds_message(buffer_size: nat, offset: nat, size: nat) -> Seq<char> {
    "[GpuTransferManager] Write out of bounds. Buffer size: "@ + spec_decimal(buffer_size) + ", write attempt at: "@
        + spec_decimal(offset) + " with size: "@ + spec_decimal(size)
}

/// Plans the upload of `data_len` elements of `element_size` bytes to element
/// `dst_element_offset` of a device buffer of `dst_size_in_bytes` bytes, with a
/// persistent staging buffer of `staging_size_in_bytes` bytes. The upload is
/// refused, with its diagnostic, when it would end past the destination.
pub fn plan_buffer_write(
    element_size: usize,
    data_len: usize,
    dst_element_offset: usize,
    dst_size_in_bytes: u64,
    staging_size_in_bytes: u64,
) -> (r: Result<TransferPlan, String>)
    requires
        data_len * element_size + dst_element_offset * element_size <= u64::MAX,
    ensures
        dst_element_offset * element_size + data_len * element_size > dst_size_in_bytes ==> (r matches Err(m)
            && m@ == spec_out_of_bounds_message(
                dst_size_in_bytes as nat,
                (dst_element_offset * element_size) as nat,
                (data_len * element_size) as nat,
            )),
        r matches Ok(p) ==> p.dst_offset_bytes + p.size_bytes <= dst_size_in_bytes,
        dst_element_offset * element_size + data_len * element_size <= dst_size_in_bytes ==> r == Ok::<TransferPlan, String>(TransferPlan {
            dst_offset_bytes: (dst_element_offset * element_size) as u64,
            size_bytes: (data_len * element_size) as u64,
            use_persistent_staging: data_len * element_size <= staging_size_in_bytes,
        }),
{
    assert(0 <= data_len * element_size) by (nonlinear_arith);
    assert(0 <= dst_element_offset * element_size) by (nonlinear_arith);
    let element_size64 = element_size as u64;
    let data_size_bytes = (data_len as u64) * element_size64;
    let dst_offset_bytes = (dst_element_offset as u64) * element_size64;
    if dst_offset_bytes + data_size_bytes > dst_size_in_bytes {
        let mut m = String::from_str("[GpuTransferManager] Write out of bounds. Buffer size: ");
        let a = decimal(dst_size_in_bytes);
        m.append(a.as_str());
        m.append(", write attempt at: ");
        let b = decimal(dst_offset_bytes);
        m.append(b.as_str());
        m.append(" with size: ");
        let c = decimal(data_size_bytes);
        m.append(c.as_str());
        return Err(m);
    }
    Ok(TransferPlan {
        dst_offset_bytes,
        size_bytes: data_size_bytes,
        use_persistent_staging: data_size_bytes <= staging_size_in_bytes,
    })
}

/// Which aspect an image view covers.
#[derive(Debug, Clone, Copy, PartialEq, Eq, Structural)]
pub enum ImageAspect {
    Color,
    Depth,
}

/// `VK_FORMAT_D16_UNORM`.
pub const FORMAT_D16_UNORM: i32 = 124;
/// `VK_FORMAT_X8_D24_UNORM_PACK32`.
pub const FORMAT_X8_D24_UNORM_PACK32: i32 = 125;
/// `VK_FORMAT_D32_SFLOAT`.
pub const FORMAT_D32_SFLOAT: i32 = 126;
/// `VK_FORMAT_S8_UINT`.
pub const FORMAT_S8_UINT: i32 = 127;
/// `VK_FORMAT_D16_UNORM_S8_UINT`.
pub const FORMAT_D16_UNORM_S8_UINT: i32 = 128;
/// `VK_FORMAT_D24_UNORM_S8_UINT`.
pub const FORMAT_D24_UNORM_S8_UINT: i32 = 129;
/// `VK_FORMAT_D32_SFLOAT_S8_UINT`.
pub const FORMAT_D32_SFLOAT_S8_UINT: i32 = 130;

/// Whether a Vulkan format (by its raw value) is a depth or stencil format.
pub open spec fn spec_is_depth_format(format: i32) -> bool {
    format == FORMAT_D16_UNORM || format == FORMAT_X8_D24_UNORM_PACK32 || format == FORMAT_D32_SFLOAT
        || format == FORMAT_S8_UINT || format == FORMAT_D16_UNORM_S8_UINT || format == FORMAT_D24_UNORM_S8_UINT
        || format == FORMAT_D32_SFLOAT_S8_UINT
}

/// The aspect that the view of a new image of `format` covers: depth for depth
/// and stencil formats, color otherwise.
pub fn aspect_for_format(format: i32) -> (r: ImageAspect)
    ensures
        r == (if spec_is_depth_format(format) { ImageAspect::Depth } else { ImageAspect::Color }),
{
    let is_depth = format == FORMAT_D16_UNORM || format == FORMAT_X8_D24_UNORM_PACK32 || format == FORMAT_D32_SFLOAT
        || format == FORMAT_S8_UINT || format == FORMAT_D16_UNORM_S8_UINT || format == FORMAT_D24_UNORM_S8_UINT
        || format == FORMAT_D32_SFLOAT_S8_UINT;
    if is_depth {
        ImageAspect::Depth
    } else {
        ImageAspect::Color
    }
}

/// A mapped buffer made for `element_count` elements accepts a write of up to
/// that many elements and refuses a longer one (elements of non-zero size).
pub proof fn lemma_write_capacity(element_count: nat, data_len: nat, element_size: nat)
    requires
        element_size > 0,
    ensures
        (data_len * element_size <= element_count * element_size) <==> (data_len <= element_count),
{
    if data_len <= element_count {
        assert(data_len * element_size <= element_count * element_size) by (nonlinear_arith)
            requires
                data_len <= element_count,
        ;
    } else {
        assert(data_len * element_size > element_count * element_size) by (nonlinear_arith)
            requires
                data_len > element_count,
                element_size > 0,
        ;
    }
}

/// Every kind of buffer the host reads or writes is allocated mapped; only
/// device buffers are not.
pub proof fn lemma_host_buffers_are_mapped(kind: BufferKind, is_unified_memory: bool)
    ensures
        spec_to_vma(spec_kind_usage(kind), is_unified_memory).1.mapped <==> kind != BufferKind::Device,
{
}

} // verus!
