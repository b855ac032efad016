//! Descriptor bookkeeping: the bindless set's pending buffer writes, and the
//! layout and pool descriptions that builders assemble.
use vstd::prelude::*;

verus! {

/// `VK_DESCRIPTOR_TYPE_UNIFORM_BUFFER`.
pub const DESCRIPTOR_TYPE_UNIFORM_BUFFER: i32 = 6;
/// `VK_DESCRIPTOR_TYPE_STORAGE_BUFFER`.
pub const DESCRIPTOR_TYPE_STORAGE_BUFFER: i32 = 7;
/// `VK_DESCRIPTOR_BINDING_UPDATE_AFTER_BIND_BIT`.
pub const BINDING_UPDATE_AFTER_BIND: u32 = 1;
/// `VK_DESCRIPTOR_SET_LAYOUT_CREATE_UPDATE_AFTER_BIND_POOL_BIT`.
pub const LAYOUT_UPDATE_AFTER_BIND_POOL: u32 = 2;

/// The binding of the bindless set that holds storage buffers.
pub const STORAGE_BINDING: u32 = 0;
/// The binding of the bindless set that holds uniform buffers.
pub const UNIFORM_BINDING: u32 = 1;

/// A buffer descriptor waiting to be written into the bindless set.
#[derive(Debug, Clone, Copy, PartialEq, Eq, Structural)]
pub struct PendingDescriptorWrite {
    /// The array element of the binding.
    pub slot_index: u32,
    pub binding: u32,
    /// The descriptor type, by raw value.
    pub descriptor_type: i32,
    /// The buffer, by its raw handle.
    pub buffer: u64,
    /// How many bytes of the buffer the descriptor covers.
    pub range: u64,
}

/// The descriptor writes recorded since the last flush, in order.
pub struct PendingDescriptorWrites {
    pub writes: Vec<PendingDescriptorWrite>,
}

/// The write that binding a storage buffer records.
pub open spec fn storage_write(slot_index: u32, buffer: u64, size_in_bytes: u64) -> PendingDescriptorWrite {
    PendingDescriptorWrite {
        slot_index,
        binding: STORAGE_BINDING,
        descriptor_type: DESCRIPTOR_TYPE_STORAGE_BUFFER,
        buffer,
        range: size_in_bytes,
    }
}

/// The write that binding a uniform buffer records.
pub open spec fn uniform_write(slot_index: u32, buffer: u64, size_in_bytes: u64) -> PendingDescriptorWrite {
    PendingDescriptorWrite {
        slot_index,
        binding: UNIFORM_BINDING,
        descriptor_type: DESCRIPTOR_TYPE_UNIFORM_BUFFER,
        buffer,
        range: size_in_bytes,
    }
}

impl PendingDescriptorWrites {
    /// No pending writes.
    pub fn new() -> (r: PendingDescriptorWrites)
        ensures
            r.writes@.len() == 0,
    {
        PendingDescriptorWrites { writes: Vec::new() }
    }

    /// Records that storage slot `slot_index` is to hold the whole of `buffer`.
    pub fn bind_storage_buffer_raw(&mut self, slot_index: u32, buffer: u64, size_in_bytes: u64)
        ensures
            final(self).writes@ == old(self).writes@.push(storage_write(slot_index, buffer, size_in_bytes)),
    {
        self.writes.push(PendingDescriptorWrite {
            slot_index,
            binding: STORAGE_BINDING,
            descriptor_type: DESCRIPTOR_TYPE_STORAGE_BUFFER,
            buffer,
            range: size_in_bytes,
        });
    }

    /// Records that uniform slot `slot_index` is to hold the whole of `buffer`.
    pub fn bind_uniform_buffer_raw(&mut self, slot_index: u32, buffer: u64, size_in_bytes: u64)
        ensures
            final(self).writes@ == old(self).writes@.push(uniform_write(slot_index, buffer, size_in_bytes)),
    {
        self.writes.push(PendingDescriptorWrite {
            slot_index,
            binding: UNIFORM_BINDING,
            descriptor_type: DESCRIPTOR_TYPE_UNIFORM_BUFFER,
            buffer,
            range: size_in_bytes,
        });
    }

    /// Whether nothing is pending, in which case a flush writes nothing.
    pub fn is_empty(&self) -> (r: bool)
        ensures
            r == (self.writes@.len() == 0),
    {
        self.writes.len() == 0
    }

    /// Takes every pending write, in the order recorded, leaving none.
    pub fn take_all(&mut self) -> (r: Vec<PendingDescriptorWrite>)
        ensures
            r@ == old(self).writes@,
            final(self).writes@.len() == 0,
    {
        let mut taken: Vec<PendingDescriptorWrite> = Vec::new();
        std::mem::swap(&mut taken, &mut self.writes);
        taken
    }
}

/// A binding of a descriptor set layout.
#[derive(Debug, Clone, Copy, PartialEq, Eq, Structural)]
pub struct DescriptorBinding {
    pub binding: u32,
    /// The descriptor type, by raw value.
    pub descriptor_type: i32,
    pub count: u32,
    /// The shader stages that see the binding, as raw bits.
    pub stage_flags: u32,
    /// The binding's flags, as raw bits.
    pub binding_flags: u32,
}

/// The bindings of a descriptor set layout, added one by one.
pub struct DescriptorSetLayoutBuilder {
    pub bindings: Vec<DescriptorBinding>,
}

/// Whether some binding may be updated after it is bound.
pub open spec fn any_update_after_bind(bindings: Seq<DescriptorBinding>) -> bool {
    exists|i: int| 0 <= i < bindings.len()
        && #[trigger] bindings[i].binding_flags & BINDING_UPDATE_AFTER_BIND == BINDING_UPDATE_AFTER_BIND
}

impl DescriptorSetLayoutBuilder {
    /// A layout with no bindings yet.
    pub fn new() -> (r: DescriptorSetLayoutBuilder)
        ensures
            r.bindings@.len() == 0,
    {
        DescriptorSetLayoutBuilder { bindings: Vec::new() }
    }

    /// Adds a binding after those added before.
    pub fn add_binding(
        self,
        binding: u32,
        descriptor_type: i32,
        count: u32,
        stage_flags: u32,
        binding_flags: u32,
    ) -> (r: DescriptorSetLayoutBuilder)
        ensures
            r.bindings@ == self.bindings@.push(DescriptorBinding { binding, descriptor_type, count, stage_flags, binding_flags }),
    {
        let mut bindings = self.bindings;
        bindings.push(DescriptorBinding { binding, descriptor_type, count, stage_flags, binding_flags });
        DescriptorSetLayoutBuilder { bindings }
    }

    /// The flags the layout is created with: its pool must allow update after
    /// bind when some binding does.
    pub fn layout_create_flags(&self) -> (r: u32)
        ensures
            r == (if any_update_after_bind(self.bindings@) { LAYOUT_UPDATE_AFTER_BIND_POOL } else { 0 }),
    {
        let mut i: usize = 0;
        while i < self.bindings.len()
            invariant
                i <= self.bindings@.len(),
                forall|j: int| 0 <= j < i
                    ==> !(#[trigger] self.bindings@[j].binding_flags & BINDING_UPDATE_AFTER_BIND == BINDING_UPDATE_AFTER_BIND),
            decreases self.bindings.len() - i,
        {
            if self.bindings[i].binding_flags & BINDING_UPDATE_AFTER_BIND == BINDING_UPDATE_AFTER_BIND {
                return LAYOUT_UPDATE_AFTER_BIND_POOL;
            }
            i += 1;
        }
        0
    }
}

/// The size of one descriptor type in a pool.
#[derive(Debug, Clone, Copy, PartialEq, Eq, Structural)]
pub struct DescriptorPoolSize {
    /// The descriptor type, by raw value.
    pub ty: i32,
    pub descriptor_count: u32,
}

/// The description of a descriptor pool, assembled step by step.
pub struct DescriptorPoolBuilder {
    pub pool_sizes: Vec<DescriptorPoolSize>,
    pub max_sets: u32,
    /// The pool's creation flags, as raw bits.
    pub flags: u32,
}

impl DescriptorPoolBuilder {
    /// A pool of one set, with no sizes and no flags yet.
    pub fn new() -> (r: DescriptorPoolBuilder)
        ensures
            r.pool_sizes@.len() == 0,
            r.max_sets == 1,
            r.flags == 0,
    {
        DescriptorPoolBuilder { pool_sizes: Vec::new(), max_sets: 1, flags: 0 }
    }

    /// Adds room for `count` descriptors of type `ty`.
    pub fn add_pool_size(self, ty: i32, count: u32) -> (r: DescriptorPoolBuilder)
        ensures
            r.pool_sizes@ == self.pool_sizes@.push(DescriptorPoolSize { ty, descriptor_count: count }),
            r.max_sets == self.max_sets,
            r.flags == self.flags,
    {
        let mut pool_sizes = self.pool_sizes;
        pool_sizes.push(DescriptorPoolSize { ty, descriptor_count: count });
        DescriptorPoolBuilder { pool_sizes, max_sets: self.max_sets, flags: self.flags }
    }

    /// Sets how many sets the pool holds.
    pub fn with_max_sets(self, max_sets: u32) -> (r: DescriptorPoolBuilder)
        ensures
            r.pool_sizes@ == self.pool_sizes@,
            r.max_sets == max_sets,
            r.flags == self.flags,
    {
        DescriptorPoolBuilder { pool_sizes: self.pool_sizes, max_sets, flags: self.flags }
    }

    /// Sets the pool's creation flags.
    pub fn with_flags(self, flags: u32) -> (r: DescriptorPoolBuilder)
        ensures
            r.pool_sizes@ == self.pool_sizes@,
            r.max_sets == self.max_sets,
            r.flags == flags,
    {
        DescriptorPoolBuilder { pool_sizes: self.pool_sizes, max_sets: self.max_sets, flags }
    }
}

/// `VK_SHADER_STAGE_VERTEX_BIT | VK_SHADER_STAGE_FRAGMENT_BIT | VK_SHADER_STAGE_COMPUTE_BIT`.
pub const STAGES_VERTEX_FRAGMENT_COMPUTE: u32 = 0x31;
/// `VK_DESCRIPTOR_BINDING_PARTIALLY_BOUND_BIT | VK_DESCRIPTOR_BINDING_UPDATE_AFTER_BIND_BIT`.
pub const BINDLESS_BINDING_FLAGS: u32 = 0x5;
/// `VK_DESCRIPTOR_POOL_CREATE_UPDATE_AFTER_BIND_BIT`.
pub const POOL_UPDATE_AFTER_BIND: u32 = 2;

/// The bindings of the engine's bindless set: storage buffers at the storage
/// binding and uniform buffers at the uniform binding, seen by every stage,
/// partially bound and updatable after bind.
pub open spec fn spec_bindless_bindings(max_storage_buffers: u32, max_uniform_buffers: u32) -> Seq<DescriptorBinding> {
    seq![
        DescriptorBinding {
            binding: STORAGE_BINDING,
            descriptor_type: DESCRIPTOR_TYPE_STORAGE_BUFFER,
            count: max_storage_buffers,
            stage_flags: STAGES_VERTEX_FRAGMENT_COMPUTE,
            binding_flags: BINDLESS_BINDING_FLAGS,
        },
        DescriptorBinding {
            binding: UNIFORM_BINDING,
            descriptor_type: DESCRIPTOR_TYPE_UNIFORM_BUFFER,
            count: max_uniform_buffers,
            stage_flags: STAGES_VERTEX_FRAGMENT_COMPUTE,
            binding_flags: BINDLESS_BINDING_FLAGS,
        },
    ]
}

/// The layout of the engine's bindless set.
pub fn bindless_layout(max_storage_buffers: u32, max_uniform_buffers: u32) -> (r: DescriptorSetLayoutBuilder)
    ensures
        r.bindings@ == spec_bindless_bindings(max_storage_buffers, max_uniform_buffers),
{
    DescriptorSetLayoutBuilder::new()
        .add_binding(
            STORAGE_BINDING,
            DESCRIPTOR_TYPE_STORAGE_BUFFER,
            max_storage_buffers,
            STAGES_VERTEX_FRAGMENT_COMPUTE,
            BINDLESS_BINDING_FLAGS,
        )
        .add_binding(
            UNIFORM_BINDING,
            DESCRIPTOR_TYPE_UNIFORM_BUFFER,
            max_uniform_buffers,
            STAGES_VERTEX_FRAGMENT_COMPUTE,
            BINDLESS_BINDING_FLAGS,
        )
}

/// The pool the engine's one bindless set is allocated from: room for every
/// storage and uniform slot, one set, updatable after bind.
pub fn bindless_pool(max_storage_buffers: u32, max_uniform_buffers: u32) -> (r: DescriptorPoolBuilder)
    ensures
        r.pool_sizes@ == seq![
            DescriptorPoolSize { ty: DESCRIPTOR_TYPE_STORAGE_BUFFER, descriptor_count: max_storage_buffers },
            DescriptorPoolSize { ty: DESCRIPTOR_TYPE_UNIFORM_BUFFER, descriptor_count: max_uniform_buffers },
        ],
        r.max_sets == 1,
        r.flags == POOL_UPDATE_AFTER_BIND,
{
    DescriptorPoolBuilder::new()
        .add_pool_size(DESCRIPTOR_TYPE_STORAGE_BUFFER, max_storage_buffers)
        .add_pool_size(DESCRIPTOR_TYPE_UNIFORM_BUFFER, max_uniform_buffers)
        .with_max_sets(1)
        .with_flags(POOL_UPDATE_AFTER_BIND)
}

/// Every buffer the engine binds lands on a binding that its bindless layout
/// declares, with the descriptor type declared there; and the layout asks for
/// an update-after-bind pool, as the bindless pool is created.
pub proof fn lemma_binds_match_bindless_layout(
    slot_index: u32,
    buffer: u64,
    size_in_bytes: u64,
    max_storage_buffers: u32,
    max_uniform_buffers: u32,
)
    ensures
        ({
            let layout = spec_bindless_bindings(max_storage_buffers, max_uniform_buffers);
            let s = storage_write(slot_index, buffer, size_in_bytes);
            let u = uniform_write(slot_index, buffer, size_in_bytes);
            &&& s.binding == layout[0].binding && s.descriptor_type == layout[0].descriptor_type
            &&& u.binding == layout[1].binding && u.descriptor_type == layout[1].descriptor_type
            &&& any_update_after_bind(layout)
        }),
{
    let layout = spec_bindless_bindings(max_storage_buffers, max_uniform_buffers);
    assert(BINDLESS_BINDING_FLAGS & BINDING_UPDATE_AFTER_BIND == BINDING_UPDATE_AFTER_BIND) by (bit_vector);
    assert(layout[0].binding_flags & BINDING_UPDATE_AFTER_BIND == BINDING_UPDATE_AFTER_BIND);
}

} // verus!
