//! The descriptor heap's ownership of buffers and images: every resource that
//! the device creates is filed under a fresh handle, and a `GpuPtr` names it.
use std::collections::HashMap;
use vstd::prelude::*;
use crate::gpu_ptr::{GpuPtr, GpuPtrView};
use crate::rhi::{BufferUsage, ImageDesc};

verus! {

broadcast use vstd::std_specs::hash::group_hash_axioms;

/// What the heap knows of a buffer.
#[derive(Clone, Copy, Debug, PartialEq, Eq, Structural)]
pub struct BufferInfo {
    /// Size in bytes.
    pub size: u64,
    pub usage: BufferUsage,
    /// Whether the buffer's memory stays mapped into the host.
    pub mapped: bool,
}

/// Where an image's memory comes from.
#[derive(Clone, Copy, Debug, PartialEq, Eq, Structural)]
pub enum ImageData {
    /// Memory that the device allocated for it, of this many bytes.
    Allocated { size: u64 },
    /// The image with this index in a swapchain.
    Swapchain { index: u32 },
}

/// The size that the heap records for a swapchain image.
pub const SWAPCHAIN_IMAGE_LEN: u64 = 9_999_999_999u64;

/// What the heap knows of an image.
#[derive(Clone, Copy, Debug)]
pub struct ImageInfo {
    pub desc: ImageDesc,
    pub data: ImageData,
    /// The raw `VkImageLayout` that the image is in. A swapchain image keeps
    /// the layout it was filed with: its later layouts are not tracked.
    pub layout: i32,
}

/// The length in bytes of an image.
pub open spec fn spec_image_len(info: ImageInfo) -> u64 {
    match info.data {
        ImageData::Allocated { size } => size,
        ImageData::Swapchain { .. } => SWAPCHAIN_IMAGE_LEN,
    }
}

impl ImageInfo {
    /// The length in bytes of the image: its allocation, or a fixed stand-in
    /// for a swapchain image, whose memory the heap does not see.
    pub fn len(&self) -> (r: u64)
        ensures
            r == spec_image_len(*self),
    {
        match self.data {
            ImageData::Allocated { size } => size,
            ImageData::Swapchain { .. } => SWAPCHAIN_IMAGE_LEN,
        }
    }

    /// Whether the image belongs to a swapchain.
    pub fn is_swapchain_image(&self) -> (r: bool)
        ensures
            r == (self.data is Swapchain),
    {
        match self.data {
            ImageData::Swapchain { .. } => true,
            ImageData::Allocated { .. } => false,
        }
    }
}

/// A resource that the heap owns.
#[derive(Clone, Copy, Debug)]
pub enum ResourceInfo {
    Buffer(BufferInfo),
    Image(ImageInfo),
}

/// The length in bytes that the heap records for a resource.
pub open spec fn spec_resource_len(info: ResourceInfo) -> u64 {
    match info {
        ResourceInfo::Buffer(b) => b.size,
        ResourceInfo::Image(i) => spec_image_len(i),
    }
}

/// The entries of `m` under handles 1 up to, not including, `h`, in the
/// order of their handles.
pub open spec fn spec_entries_below<P>(m: Map<u64, Entry<P>>, h: u64) -> Seq<Entry<P>>
    decreases h,
{
    if h <= 1 {
        Seq::empty()
    } else {
        let k = (h - 1) as u64;
        let earlier = spec_entries_below(m, k);
        if m.contains_key(k) {
            earlier.push(m[k])
        } else {
            earlier
        }
    }
}

/// A resource with the objects `P` that the device made for it.
pub struct Entry<P> {
    pub info: ResourceInfo,
    pub payload: P,
}

/// The handles and the resources they name.
pub struct DescriptorHeap<P> {
    handle_counter: u64,
    allocations: HashMap<u64, Entry<P>>,
}

impl<P> View for DescriptorHeap<P> {
    type V = Map<u64, Entry<P>>;

    closed spec fn view(&self) -> Map<u64, Entry<P>> {
        self.allocations@
    }
}

impl<P> DescriptorHeap<P> {
    /// The handle that the next resource will be filed under.
    pub closed spec fn next_handle(&self) -> u64 {
        self.handle_counter
    }

    /// Every handle in use is below the next one and none is 0, the null handle.
    #[verifier::type_invariant]
    pub closed spec fn wf(&self) -> bool {
        &&& self.handle_counter >= 1
        &&& forall|h: u64| #[trigger]
            self.allocations@.contains_key(h) ==> 1 <= h < self.handle_counter
    }

    /// Whether `ptr` names a buffer that the heap owns.
    pub open spec fn names_buffer(&self, ptr: GpuPtr) -> bool {
        &&& self@.contains_key(ptr@.handle)
        &&& self@[ptr@.handle].info is Buffer
    }

    /// Whether `ptr` names an image that the heap owns.
    pub open spec fn names_image(&self, ptr: GpuPtr) -> bool {
        &&& self@.contains_key(ptr@.handle)
        &&& self@[ptr@.handle].info is Image
    }

    /// Whether handle `h` names a swapchain image that the heap owns.
    pub open spec fn holds_swapchain_image(&self, h: u64) -> bool {
        &&& self@.contains_key(h)
        &&& match self@[h].info {
            ResourceInfo::Image(i) => i.data is Swapchain,
            ResourceInfo::Buffer(_) => false,
        }
    }

    /// Takes the map out of the heap, leaving it empty.
    fn take_map(&mut self) -> (r: HashMap<u64, Entry<P>>)
        ensures
            r@ == old(self)@,
            final(self)@ == Map::<u64, Entry<P>>::empty(),
            final(self).handle_counter == old(self).handle_counter,
            old(self).handle_counter >= 1,
            forall|h: u64| #[trigger] r@.contains_key(h) ==> 1 <= h < old(self).handle_counter,
    {
        proof {
            use_type_invariant(&*self);
        }
        let mut emptied = DescriptorHeap { handle_counter: self.handle_counter, allocations: HashMap::new() };
        std::mem::swap(self, &mut emptied);
        let DescriptorHeap { handle_counter: _, allocations } = emptied;
        allocations
    }

    /// An empty heap; the first handle it gives out is 1.
    pub fn new() -> (r: Self)
        ensures
            r@ == Map::<u64, Entry<P>>::empty(),
            r.next_handle() == 1,
    {
        DescriptorHeap { handle_counter: 1, allocations: HashMap::new() }
    }

    /// Whether another resource can be filed: handles are not used up.
    pub fn can_insert(&self) -> (r: bool)
        ensures
            r == (self.next_handle() < u64::MAX),
    {
        self.handle_counter < u64::MAX
    }

    /// Whether `count` more resources can be filed: the handles they would
    /// take are not used up.
    pub fn has_handles_for(&self, count: u64) -> (r: bool)
        ensures
            r == (self.next_handle() + count <= u64::MAX),
    {
        count <= u64::MAX - self.handle_counter
    }

    /// Files a resource under a fresh handle and points at the whole of it.
    /// The pointer's size is the resource's length cut to 32 bits.
    pub fn insert(&mut self, info: ResourceInfo, payload: P) -> (r: GpuPtr)
        requires
            old(self).next_handle() < u64::MAX,
        ensures
            r@.handle == old(self).next_handle(),
            r@.handle != 0,
            !old(self)@.contains_key(r@.handle),
            r@.offset == 0,
            r@.size == spec_resource_len(info) as u32,
            final(self)@ == old(self)@.insert(r@.handle, Entry { info, payload }),
            final(self).next_handle() == old(self).next_handle() + 1,
    {
        proof {
            use_type_invariant(&*self);
        }
        let handle = self.handle_counter;
        let mut m = self.take_map();
        self.handle_counter = self.handle_counter + 1;
        let len: u64 = match &info {
            ResourceInfo::Buffer(b) => b.size,
            ResourceInfo::Image(i) => i.len(),
        };
        let size = len as u32;
        m.insert(handle, Entry { info, payload });
        self.allocations = m;
        GpuPtr::from_parts(handle, 0, size)
    }

    /// Files a buffer of `size` bytes.
    pub fn insert_buffer(&mut self, size: u64, usage: BufferUsage, mapped: bool, payload: P) -> (r:
        GpuPtr)
        requires
            old(self).next_handle() < u64::MAX,
        ensures
            r@.handle == old(self).next_handle(),
            r@.handle != 0,
            !old(self)@.contains_key(r@.handle),
            r@.offset == 0,
            r@.size == size as u32,
            final(self)@ == old(self)@.insert(
                r@.handle,
                Entry { info: ResourceInfo::Buffer(BufferInfo { size, usage, mapped }), payload },
            ),
            final(self).next_handle() == old(self).next_handle() + 1,
    {
        self.insert(ResourceInfo::Buffer(BufferInfo { size, usage, mapped }), payload)
    }

    /// Files an image that the device allocated `size` bytes for; it starts
    /// in `VK_IMAGE_LAYOUT_UNDEFINED`.
    pub fn insert_image(&mut self, desc: ImageDesc, size: u64, payload: P) -> (r: GpuPtr)
        requires
            old(self).next_handle() < u64::MAX,
        ensures
            r@.handle == old(self).next_handle(),
            r@.handle != 0,
            !old(self)@.contains_key(r@.handle),
            r@.offset == 0,
            r@.size == size as u32,
            final(self)@ == old(self)@.insert(
                r@.handle,
                Entry {
                    info: ResourceInfo::Image(
                        ImageInfo { desc, data: ImageData::Allocated { size }, layout: 0 },
                    ),
                    payload,
                },
            ),
            final(self).next_handle() == old(self).next_handle() + 1,
    {
        self.insert(
            ResourceInfo::Image(ImageInfo { desc, data: ImageData::Allocated { size }, layout: 0 }),
            payload,
        )
    }

    /// Files the image with index `index` of a swapchain; it starts in
    /// `VK_IMAGE_LAYOUT_UNDEFINED`.
    pub fn insert_swapchain_image(&mut self, desc: ImageDesc, index: u32, payload: P) -> (r: GpuPtr)
        requires
            old(self).next_handle() < u64::MAX,
        ensures
            r@.handle == old(self).next_handle(),
            r@.handle != 0,
            !old(self)@.contains_key(r@.handle),
            r@.offset == 0,
            r@.size == SWAPCHAIN_IMAGE_LEN as u32,
            final(self)@ == old(self)@.insert(
                r@.handle,
                Entry {
                    info: ResourceInfo::Image(
                        ImageInfo { desc, data: ImageData::Swapchain { index }, layout: 0 },
                    ),
                    payload,
                },
            ),
            final(self).next_handle() == old(self).next_handle() + 1,
    {
        self.insert(
            ResourceInfo::Image(ImageInfo { desc, data: ImageData::Swapchain { index }, layout: 0 }),
            payload,
        )
    }

    /// The resource that `ptr` names, if the heap owns one.
    pub fn get(&self, ptr: GpuPtr) -> (r: Option<&Entry<P>>)
        ensures
            match r {
                Some(e) => self@.contains_key(ptr@.handle) && *e == self@[ptr@.handle],
                None => !self@.contains_key(ptr@.handle),
            },
    {
        let h = ptr.handle();
        self.allocations.get(&h)
    }

    /// Whether the heap owns a resource under `ptr`'s handle.
    pub fn contains(&self, ptr: GpuPtr) -> (r: bool)
        ensures
            r == self@.contains_key(ptr@.handle),
    {
        let h = ptr.handle();
        self.allocations.contains_key(&h)
    }

    /// Whether `ptr` names a swapchain image that the heap owns.
    pub fn is_swapchain_image(&self, ptr: GpuPtr) -> (r: bool)
        ensures
            r == self.holds_swapchain_image(ptr@.handle),
    {
        match self.get(ptr) {
            Some(e) => match &e.info {
                ResourceInfo::Image(i) => i.is_swapchain_image(),
                ResourceInfo::Buffer(_) => false,
            },
            None => false,
        }
    }

    /// The buffer that `ptr` names.
    pub fn buffer(&self, ptr: GpuPtr) -> (r: (&BufferInfo, &P))
        requires
            self.names_buffer(ptr),
        ensures
            self@[ptr@.handle].info == ResourceInfo::Buffer(*r.0),
            *r.1 == self@[ptr@.handle].payload,
    {
        let h = ptr.handle();
        let e = self.allocations.get(&h).unwrap();
        match &e.info {
            ResourceInfo::Buffer(b) => (b, &e.payload),
            ResourceInfo::Image(_) => vstd::pervasive::unreached(),
        }
    }

    /// The image that `ptr` names.
    pub fn image(&self, ptr: GpuPtr) -> (r: (&ImageInfo, &P))
        requires
            self.names_image(ptr),
        ensures
            self@[ptr@.handle].info == ResourceInfo::Image(*r.0),
            *r.1 == self@[ptr@.handle].payload,
    {
        let h = ptr.handle();
        let e = self.allocations.get(&h).unwrap();
        match &e.info {
            ResourceInfo::Image(i) => (i, &e.payload),
            ResourceInfo::Buffer(_) => vstd::pervasive::unreached(),
        }
    }

    /// Gives up the resource that `ptr` names and returns it, so that its
    /// objects can be destroyed. A swapchain image is freed with its swapchain.
    pub fn free(&mut self, ptr: GpuPtr) -> (r: Entry<P>)
        requires
            old(self)@.contains_key(ptr@.handle),
            !old(self).holds_swapchain_image(ptr@.handle),
        ensures
            r == old(self)@[ptr@.handle],
            final(self)@ == old(self)@.remove(ptr@.handle),
            final(self).next_handle() == old(self).next_handle(),
    {
        proof {
            use_type_invariant(&*self);
        }
        let h = ptr.handle();
        let mut m = self.take_map();
        let r = m.remove(&h).unwrap();
        self.allocations = m;
        r
    }

    /// Gives up the resource that `ptr` names, if any; a null pointer and a
    /// handle that names nothing change nothing.
    pub fn free_infallible(&mut self, ptr: GpuPtr) -> (r: Option<Entry<P>>)
        ensures
            final(self).next_handle() == old(self).next_handle(),
            ptr@.handle == 0 ==> r is None && final(self)@ == old(self)@,
            ptr@.handle != 0 ==> final(self)@ == old(self)@.remove(ptr@.handle) && match r {
                Some(e) => old(self)@.contains_key(ptr@.handle) && e == old(self)@[ptr@.handle],
                None => !old(self)@.contains_key(ptr@.handle),
            },
    {
        proof {
            use_type_invariant(&*self);
        }
        if ptr.is_null() {
            return None;
        }
        let h = ptr.handle();
        let mut m = self.take_map();
        let r = m.remove(&h);
        self.allocations = m;
        r
    }

    /// Moves the image that `ptr` names into layout `new_layout` and returns
    /// the layout it was in.
    pub fn set_layout(&mut self, ptr: GpuPtr, new_layout: i32) -> (r: i32)
        requires
            old(self).names_image(ptr),
        ensures
            final(self).next_handle() == old(self).next_handle(),
            match old(self)@[ptr@.handle].info {
                ResourceInfo::Image(i) => r == i.layout,
                ResourceInfo::Buffer(_) => false,
            },
            final(self)@ == old(self)@.insert(
                ptr@.handle,
                Entry {
                    info: match old(self)@[ptr@.handle].info {
                        ResourceInfo::Image(i) => ResourceInfo::Image(
                            ImageInfo { layout: new_layout, ..i },
                        ),
                        ResourceInfo::Buffer(b) => ResourceInfo::Buffer(b),
                    },
                    payload: old(self)@[ptr@.handle].payload,
                },
            ),
    {
        proof {
            use_type_invariant(&*self);
        }
        let h = ptr.handle();
        let mut m = self.take_map();
        let e = m.remove(&h).unwrap();
        match e.info {
            ResourceInfo::Image(i) => {
                let old_layout = i.layout;
                let info = ResourceInfo::Image(
                    ImageInfo { desc: i.desc, data: i.data, layout: new_layout },
                );
                m.insert(h, Entry { info, payload: e.payload });
                self.allocations = m;
                old_layout
            },
            ResourceInfo::Buffer(_) => vstd::pervasive::unreached(),
        }
    }

    /// Gives up every resource, in the order of their handles.
    pub fn take_all(&mut self) -> (r: Vec<Entry<P>>)
        ensures
            final(self)@ == Map::<u64, Entry<P>>::empty(),
            final(self).next_handle() == old(self).next_handle(),
            r@ == spec_entries_below(old(self)@, old(self).next_handle()),
            r@.len() == old(self)@.len(),
            forall|i: int| 0 <= i < r@.len() ==> old(self)@.values().contains(#[trigger] r@[i]),
    {
        proof {
            use_type_invariant(&*self);
        }
        let mut out: Vec<Entry<P>> = Vec::new();
        let mut h: u64 = 1;
        let counter = self.handle_counter;
        let ghost start = self@;
        let mut m = self.take_map();
        while h < counter
            invariant
                1 <= h <= counter,
                forall|k: u64| #[trigger] start.contains_key(k) ==> 1 <= k < counter,
                m@ == start.restrict(start.dom().filter(|k: u64| k >= h)),
                out@.len() + m@.len() == start.len(),
                out@ == spec_entries_below(start, h),
                forall|i: int| 0 <= i < out@.len() ==> start.values().contains(#[trigger] out@[i]),
            decreases counter - h,
        {
            let r = m.remove(&h);
            match r {
                Some(e) => {
                    out.push(e);
                },
                None => {},
            }
            h = h + 1;
        }
        assert(m@ =~= Map::<u64, Entry<P>>::empty());
        self.allocations = m;
        out
    }
}


/// The handle that the heap gives the next resource is neither null nor in
/// use by any resource it owns.
pub proof fn law_next_handle_is_fresh<P>(heap: DescriptorHeap<P>)
    requires
        heap.wf(),
    ensures
        heap.next_handle() != 0,
        !heap@.contains_key(heap.next_handle()),
{
}

/// Filing a resource and freeing it again gives back the heap's earlier
/// contents: the resource is filed under the next handle, which no resource
/// the heap owns holds.
pub proof fn law_free_undoes_insert<P>(heap: DescriptorHeap<P>, e: Entry<P>)
    requires
        heap.wf(),
    ensures
        heap@.insert(heap.next_handle(), e)[heap.next_handle()] == e,
        heap@.insert(heap.next_handle(), e).remove(heap.next_handle()) == heap@,
{
    assert(heap@.insert(heap.next_handle(), e).remove(heap.next_handle()) =~= heap@);
}

} // verus!
