use enki::memory::{
    aspect_for_format, buffer_size_in_bytes, check_read, check_write, is_unified_memory, kind_usage, plan_buffer_write,
    AllocationFlags, BufferAccessError, BufferKind, ImageAspect, MemoryHeap, MemoryUsage, TransferPlan, VmaMemoryUsage,
};

#[test]
fn allocation_requests_per_usage() {
    let (u, f) = MemoryUsage::DeviceOnly.to_vma(false);
    assert_eq!(u, VmaMemoryUsage::AutoPreferDevice);
    assert_eq!(f, AllocationFlags { mapped: false, host_access_sequential_write: false, host_access_random: false });
    let (u, f) = MemoryUsage::Upload.to_vma(true);
    assert_eq!(u, VmaMemoryUsage::AutoPreferHost);
    assert_eq!(f, AllocationFlags { mapped: true, host_access_sequential_write: true, host_access_random: false });
    let (u, f) = MemoryUsage::Download.to_vma(false);
    assert_eq!(u, VmaMemoryUsage::AutoPreferHost);
    assert!(f.mapped && f.host_access_random);
    assert_eq!(MemoryUsage::ZeroCopy.to_vma(true).0, VmaMemoryUsage::AutoPreferDevice);
    assert_eq!(MemoryUsage::ZeroCopy.to_vma(false).0, VmaMemoryUsage::AutoPreferHost);
}

#[test]
fn host_buffers_are_mapped() {
    for kind in [BufferKind::Upload, BufferKind::Readback, BufferKind::Shared] {
        assert!(kind_usage(kind).to_vma(false).1.mapped);
    }
    assert!(!kind_usage(BufferKind::Device).to_vma(true).1.mapped);
}

#[test]
fn buffer_sizes_and_capacity() {
    let size = buffer_size_in_bytes(100, 16);
    assert_eq!(size, 1600);
    assert_eq!(check_write(true, 100, 16, size), Ok(()));
    assert_eq!(check_write(true, 101, 16, size), Err(BufferAccessError::ExceedsCapacity));
    assert_eq!(check_write(false, 1, 16, size), Err(BufferAccessError::NotMapped));
    assert_eq!(check_read(true, 100, 100), Ok(()));
    assert_eq!(check_read(true, 101, 100), Err(BufferAccessError::OutputTooLarge));
    assert_eq!(check_read(false, 0, 100), Err(BufferAccessError::NotMapped));
}

#[test]
fn access_messages() {
    assert_eq!(
        BufferAccessError::NotMapped.message(BufferKind::Upload),
        "[GpuUploadBuffer] Mapping failed during allocation"
    );
    assert_eq!(
        BufferAccessError::ExceedsCapacity.message(BufferKind::Shared),
        "[GpuSharedBuffer] Input data exceeds buffer capacity"
    );
    assert_eq!(
        BufferAccessError::OutputTooLarge.message(BufferKind::Readback),
        "[GpuReadbackBuffer] Output slice is too small"
    );
}

#[test]
fn upload_plans() {
    assert_eq!(
        plan_buffer_write(4, 10, 2, 64, 1024),
        Ok(TransferPlan { dst_offset_bytes: 8, size_bytes: 40, use_persistent_staging: true })
    );
    assert_eq!(
        plan_buffer_write(4, 10, 0, 64, 16),
        Ok(TransferPlan { dst_offset_bytes: 0, size_bytes: 40, use_persistent_staging: false })
    );
    assert_eq!(
        plan_buffer_write(4, 10, 7, 64, 1024),
        Err("[GpuTransferManager] Write out of bounds. Buffer size: 64, write attempt at: 28 with size: 40".to_string())
    );
    assert_eq!(
        plan_buffer_write(4, 16, 0, 64, 64),
        Ok(TransferPlan { dst_offset_bytes: 0, size_bytes: 64, use_persistent_staging: true })
    );
}

#[test]
fn unified_memory_detection() {
    let single = vec![MemoryHeap { device_local: true, size: 1 << 30 }];
    let split = vec![MemoryHeap { device_local: true, size: 1 << 30 }, MemoryHeap { device_local: false, size: 1 << 30 }];
    let empty = vec![MemoryHeap { device_local: true, size: 0 }];
    assert!(is_unified_memory(true, &split));
    assert!(is_unified_memory(false, &single));
    assert!(!is_unified_memory(false, &split));
    assert!(!is_unified_memory(false, &empty));
    assert!(!is_unified_memory(false, &vec![]));
}

#[test]
fn depth_formats_get_depth_views() {
    assert_eq!(aspect_for_format(126), ImageAspect::Depth);
    assert_eq!(aspect_for_format(130), ImageAspect::Depth);
    assert_eq!(aspect_for_format(37), ImageAspect::Color);
    assert_eq!(aspect_for_format(50), ImageAspect::Color);
}
