use enki::engine::{
    check_timeline_op, fence_create_flags, is_completed, push_constant_ranges, spirv_words, ComputeEngineConfig,
    PushConstantRange, TimelineOp,
};
use enki::ir::StructRegistry;
use enki::ir::missing_struct_message;

#[test]
fn default_config() {
    let c = ComputeEngineConfig::default();
    assert_eq!(c.app_name, "Enki Compute Engine");
    assert_eq!(c.max_storage_buffers, 1024);
    assert_eq!(c.max_uniform_buffers, 256);
    assert!(c.required_instance_extensions.is_empty());
    assert!(c.required_device_extensions.is_empty());
    assert!(!c.request_graphics_queue);
}

#[test]
fn binary_semaphores_refuse_timeline_operations() {
    assert_eq!(check_timeline_op(true, TimelineOp::Wait), Ok(()));
    assert_eq!(
        check_timeline_op(false, TimelineOp::GetValue),
        Err("[VulkanSemaphore] Cannot get counter value of a Binary Semaphore".to_string())
    );
    assert_eq!(
        check_timeline_op(false, TimelineOp::Wait),
        Err("[VulkanSemaphore] Cannot wait on a Binary Semaphore using wait_timeline".to_string())
    );
    assert_eq!(
        check_timeline_op(false, TimelineOp::Signal),
        Err("[VulkanSemaphore] Cannot signal a Binary Semaphore using signal_timeline".to_string())
    );
}

#[test]
fn small_decisions() {
    assert!(is_completed(5, 5));
    assert!(!is_completed(4, 5));
    assert_eq!(fence_create_flags(true), 1);
    assert_eq!(fence_create_flags(false), 0);
    assert!(push_constant_ranges(0, 0x20).is_empty());
    assert_eq!(push_constant_ranges(16, 0x11), vec![PushConstantRange { stage_flags: 0x11, offset: 0, size: 16 }]);
}

#[test]
fn spirv_words_in_either_byte_order() {
    let le = [0x03, 0x02, 0x23, 0x07, 0x01, 0x00, 0x00, 0x00];
    assert_eq!(spirv_words(&le), Ok(vec![0x0723_0203, 1]));
    let be = [0x07, 0x23, 0x02, 0x03, 0x00, 0x00, 0x00, 0x01];
    assert_eq!(spirv_words(&be), Ok(vec![0x0723_0203, 1]));
    assert_eq!(spirv_words(&[1, 2, 3]), Err("input length not divisible by 4".to_string()));
    assert_eq!(spirv_words(&[0, 0, 0, 0]), Err("input missing SPIR-V magic number".to_string()));
    assert_eq!(spirv_words(&[]), Err("input missing SPIR-V magic number".to_string()));
}

#[test]
fn registry_message_for_missing_layout() {
    assert_eq!(
        missing_struct_message("Foo"),
        "[Registry] Struct 'Foo' metadata not found in compiler cache.\nHelp: Did you annotate the struct with #[derive(EnkiStruct)]?"
    );
    let mut reg = StructRegistry::new();
    reg.record("Foo".to_string(), Err(missing_struct_message("Foo")));
    assert!(reg.lookup("Foo").is_err());
}
