//! Plans of the commands that read the descriptor heap's buffers: binding
//! the resource and sampler heaps, pushing data, copying, and indexed draws.
use vstd::prelude::*;
use crate::gpu_ptr::GpuPtr;
use crate::heap::{DescriptorHeap, ResourceInfo};
use crate::rhi::DescriptorHeapProps;

verus! {

broadcast use vstd::std_specs::hash::group_hash_axioms;

/// How many image descriptors and sampler descriptors the largest heaps
/// hold, once their reserved ranges are set aside.
pub fn heap_capacity(props: &DescriptorHeapProps) -> (r: (u64, u64))
    requires
        props.max_resource_heap_size >= props.min_resource_heap_reserved_range,
        props.max_sampler_heap_size >= props.min_sampler_heap_reserved_range,
        props.image_descriptor_size > 0,
        props.sampler_descriptor_size > 0,
    ensures
        r.0 == (props.max_resource_heap_size - props.min_resource_heap_reserved_range)
            / props.image_descriptor_size as int,
        r.1 == (props.max_sampler_heap_size - props.min_sampler_heap_reserved_range)
            / props.sampler_descriptor_size as int,
{
    let images = (props.max_resource_heap_size - props.min_resource_heap_reserved_range)
        / props.image_descriptor_size;
    let samplers = (props.max_sampler_heap_size - props.min_sampler_heap_reserved_range)
        / props.sampler_descriptor_size;
    (images, samplers)
}

/// How a heap buffer is bound: its whole size, with the reserved range at its end.
#[derive(Clone, Copy, Debug, PartialEq, Eq, Structural)]
pub struct HeapBinding {
    pub buffer: GpuPtr,
    pub size: u64,
    pub reserved_offset: u64,
    pub reserved_size: u64,
}

/// What binding a resource heap and a sampler heap records.
#[derive(Clone, Copy, Debug, PartialEq, Eq, Structural)]
pub struct HeapBindPlan {
    pub resource: Option<HeapBinding>,
    pub sampler: Option<HeapBinding>,
    /// Whether host writes must be made visible to heap reads first.
    pub barrier: bool,
}

/// The size of the buffer that `ptr` names.
pub open spec fn spec_buffer_size<P>(heap: Map<u64, crate::heap::Entry<P>>, ptr: GpuPtr) -> u64 {
    match heap[ptr@.handle].info {
        ResourceInfo::Buffer(b) => b.size,
        ResourceInfo::Image(_) => 0,
    }
}

/// Whether `ptr` names a buffer of `heap`.
pub open spec fn spec_is_buffer<P>(heap: Map<u64, crate::heap::Entry<P>>, ptr: GpuPtr) -> bool {
    heap.contains_key(ptr@.handle) && heap[ptr@.handle].info is Buffer
}

/// The binding of heap buffer `ptr` with `reserved` bytes reserved, or none
/// for the null pointer.
pub open spec fn spec_heap_binding<P>(heap: Map<u64, crate::heap::Entry<P>>, ptr: GpuPtr, reserved: u64) -> Option<
    HeapBinding,
> {
    if ptr@.handle == 0 {
        None
    } else {
        Some(
            HeapBinding {
                buffer: ptr,
                size: spec_buffer_size(heap, ptr),
                reserved_offset: (spec_buffer_size(heap, ptr) - reserved) as u64,
                reserved_size: reserved,
            },
        )
    }
}

fn heap_binding<P>(heap: &DescriptorHeap<P>, ptr: GpuPtr, reserved: u64) -> (r: Option<HeapBinding>)
    requires
        ptr@.handle != 0 ==> spec_is_buffer(heap@, ptr) && spec_buffer_size(heap@, ptr) >= reserved,
    ensures
        r == spec_heap_binding(heap@, ptr, reserved),
{
    if ptr.is_null() {
        return None;
    }
    let (b, _) = heap.buffer(ptr);
    Some(HeapBinding { buffer: ptr, size: b.size, reserved_offset: b.size - reserved, reserved_size: reserved })
}

/// Plans the binding of the resource heap and the sampler heap; a null
/// pointer leaves its heap unbound, and a barrier is recorded when either
/// heap is bound.
pub fn plan_heap_bind<P>(
    heap: &DescriptorHeap<P>,
    resource_heap: GpuPtr,
    sampler_heap: GpuPtr,
    props: &DescriptorHeapProps,
) -> (r: HeapBindPlan)
    requires
        resource_heap@.handle != 0 ==> spec_is_buffer(heap@, resource_heap) && spec_buffer_size(
            heap@,
            resource_heap,
        ) >= props.min_resource_heap_reserved_range,
        sampler_heap@.handle != 0 ==> spec_is_buffer(heap@, sampler_heap) && spec_buffer_size(
            heap@,
            sampler_heap,
        ) >= props.min_sampler_heap_reserved_range,
    ensures
        r.resource == spec_heap_binding(heap@, resource_heap, props.min_resource_heap_reserved_range),
        r.sampler == spec_heap_binding(heap@, sampler_heap, props.min_sampler_heap_reserved_range),
        r.barrier == (resource_heap@.handle != 0 || sampler_heap@.handle != 0),
{
    let resource = heap_binding(heap, resource_heap, props.min_resource_heap_reserved_range);
    let sampler = heap_binding(heap, sampler_heap, props.min_sampler_heap_reserved_range);
    HeapBindPlan {
        resource,
        sampler,
        barrier: !resource_heap.is_null() || !sampler_heap.is_null(),
    }
}

/// Whether `len` bytes of push data are recorded: data must fit the device's
/// push data limit, and no command is recorded for none.
pub fn plan_push_data(len: usize, props: &DescriptorHeapProps) -> (r: bool)
    requires
        props.max_push_data_size >= len,
    ensures
        r == (len > 0),
{
    len > 0
}

/// An indexed draw from a buffer of 32-bit indices.
#[derive(Clone, Copy, Debug, PartialEq, Eq, Structural)]
pub struct IndexedDraw {
    /// The index buffer.
    pub buffer: GpuPtr,
    /// The byte range of the pointer that is bound.
    pub offset: u64,
    pub size: u64,
    /// The number of indices drawn: the whole buffer's worth.
    pub index_count: u32,
}

/// Plans an indexed draw from index buffer `indices`: the pointer's range is
/// bound, and as many indices are drawn as the buffer's bytes hold.
pub fn plan_indexed_draw<P>(heap: &DescriptorHeap<P>, indices: GpuPtr) -> (r: IndexedDraw)
    requires
        spec_is_buffer(heap@, indices),
    ensures
        r.buffer == indices,
        r.offset == indices@.offset,
        r.size == indices@.size,
        r.index_count == (spec_buffer_size(heap@, indices) / 4) as u32,
{
    let (b, _) = heap.buffer(indices);
    let count = b.size / 4;
    IndexedDraw {
        buffer: indices,
        offset: indices.offset() as u64,
        size: indices.size() as u64,
        index_count: count as u32,
    }
}

/// The number of bytes that a buffer-to-buffer copy moves: all of the source,
/// which the destination must hold.
pub fn plan_buffer_copy<P>(heap: &DescriptorHeap<P>, dst: GpuPtr, src: GpuPtr) -> (r: u64)
    requires
        spec_is_buffer(heap@, dst),
        spec_is_buffer(heap@, src),
        spec_buffer_size(heap@, dst) >= spec_buffer_size(heap@, src),
    ensures
        r == spec_buffer_size(heap@, src),
{
    let (s, _) = heap.buffer(src);
    s.size
}

/// The device address of the byte that `ptr` points at, in a buffer whose
/// memory starts at device address `base`.
pub fn device_address(base: u64, ptr: GpuPtr) -> (r: u64)
    requires
        base + ptr@.offset <= u64::MAX,
    ensures
        r == base + ptr@.offset,
{
    base + ptr.offset() as u64
}

/// Whether the pointer's range lies inside a buffer of `len` bytes.
pub fn range_fits(ptr: GpuPtr, len: u64) -> (r: bool)
    ensures
        r == (ptr@.offset + ptr@.size <= len),
{
    (ptr.offset() as u64) + (ptr.size() as u64) <= len
}

/// Whether `data_len` bytes written at `dst_offset` stay inside a buffer of
/// `len` bytes; `None` when the end overflows.
pub fn write_fits(data_len: usize, dst_offset: u64, len: u64) -> (r: Option<bool>)
    ensures
        data_len + dst_offset > u64::MAX ==> r is None,
        data_len + dst_offset <= u64::MAX ==> r == Some(data_len + dst_offset <= len),
{
    let d = data_len as u64;
    if d > u64::MAX - dst_offset {
        None
    } else {
        Some(d + dst_offset <= len)
    }
}

} // verus!
