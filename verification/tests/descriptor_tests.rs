use enki::descriptor::{bindless_layout, bindless_pool, DescriptorBinding, DescriptorPoolBuilder, DescriptorPoolSize, DescriptorSetLayoutBuilder, PendingDescriptorWrite, PendingDescriptorWrites};

#[test]
fn flush_hands_out_binds_in_order_once() {
    let mut q = PendingDescriptorWrites::new();
    assert!(q.is_empty());
    q.bind_storage_buffer_raw(3, 0xaa, 256);
    q.bind_uniform_buffer_raw(0, 0xbb, 64);
    let taken = q.take_all();
    assert_eq!(
        taken,
        vec![
            PendingDescriptorWrite { slot_index: 3, binding: 0, descriptor_type: 7, buffer: 0xaa, range: 256 },
            PendingDescriptorWrite { slot_index: 0, binding: 1, descriptor_type: 6, buffer: 0xbb, range: 64 },
        ]
    );
    assert!(q.is_empty());
    assert!(q.take_all().is_empty());
}

#[test]
fn layout_flags_follow_update_after_bind() {
    let b = DescriptorSetLayoutBuilder::new().add_binding(0, 7, 1024, 0x31, 0x4);
    assert_eq!(b.layout_create_flags(), 0);
    let b = b.add_binding(1, 6, 256, 0x31, 0x5);
    assert_eq!(b.bindings.len(), 2);
    assert_eq!(b.layout_create_flags(), 2);
}

#[test]
fn pool_builder_defaults_and_steps() {
    let p = DescriptorPoolBuilder::new();
    assert_eq!(p.max_sets, 1);
    assert_eq!(p.flags, 0);
    let p = p.add_pool_size(7, 1024).add_pool_size(6, 256).with_max_sets(4).with_flags(2);
    assert_eq!(
        p.pool_sizes,
        vec![DescriptorPoolSize { ty: 7, descriptor_count: 1024 }, DescriptorPoolSize { ty: 6, descriptor_count: 256 }]
    );
    assert_eq!(p.max_sets, 4);
    assert_eq!(p.flags, 2);
}

#[test]
fn bindless_set_has_storage_then_uniform_bindings() {
    let layout = bindless_layout(1024, 256);
    assert_eq!(
        layout.bindings,
        vec![
            DescriptorBinding { binding: 0, descriptor_type: 7, count: 1024, stage_flags: 0x31, binding_flags: 0x5 },
            DescriptorBinding { binding: 1, descriptor_type: 6, count: 256, stage_flags: 0x31, binding_flags: 0x5 },
        ]
    );
    assert_eq!(layout.layout_create_flags(), 2);
    let pool = bindless_pool(1024, 256);
    assert_eq!(
        pool.pool_sizes,
        vec![DescriptorPoolSize { ty: 7, descriptor_count: 1024 }, DescriptorPoolSize { ty: 6, descriptor_count: 256 }]
    );
    assert_eq!(pool.max_sets, 1);
    assert_eq!(pool.flags, 2);

    let mut q = PendingDescriptorWrites::new();
    q.bind_storage_buffer_raw(5, 1, 16);
    q.bind_uniform_buffer_raw(2, 1, 16);
    let w = q.take_all();
    assert_eq!((w[0].binding, w[0].descriptor_type), (layout.bindings[0].binding, layout.bindings[0].descriptor_type));
    assert_eq!((w[1].binding, w[1].descriptor_type), (layout.bindings[1].binding, layout.bindings[1].descriptor_type));
}
