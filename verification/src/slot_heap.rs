//! A descriptor heap laid out as numbered slots, one per resource, which
//! reuses the slots of freed resources before untouched ones, and remembers
//! which slots changed since their descriptors were last written.
use vstd::prelude::*;

verus! {

/// What a buffer in a slot is used as.
#[derive(Clone, Copy, Debug, PartialEq, Eq, Structural)]
pub enum SlotUsage {
    Uniform,
    Storage,
    Index,
    DescriptorHeap,
}

/// The `VkBufferUsageFlags` that a buffer of each usage is created with.
pub open spec fn spec_slot_buffer_usage(u: SlotUsage) -> u32 {
    match u {
        SlotUsage::Uniform => 0x10,
        SlotUsage::Storage => 0x20,
        SlotUsage::Index => 0x40,
        SlotUsage::DescriptorHeap => 0x60_0000,
    }
}

pub fn slot_buffer_usage(u: SlotUsage) -> (r: u32)
    ensures
        r == spec_slot_buffer_usage(u),
{
    match u {
        SlotUsage::Uniform => 0x10,
        SlotUsage::Storage => 0x20,
        SlotUsage::Index => 0x40,
        SlotUsage::DescriptorHeap => 0x60_0000,
    }
}

/// The `VkDescriptorType` that describes a uniform or storage buffer.
pub fn slot_descriptor_type(u: SlotUsage) -> (r: i32)
    requires
        u == SlotUsage::Uniform || u == SlotUsage::Storage,
    ensures
        u == SlotUsage::Uniform ==> r == 6,
        u == SlotUsage::Storage ==> r == 7,
{
    match u {
        SlotUsage::Uniform => 6,
        SlotUsage::Storage => 7,
        _ => vstd::pervasive::unreached(),
    }
}

/// A pointer to a slot of the heap, by the slot's number; the null pointer
/// is the largest number, which no slot has.
#[derive(Clone, Copy, Debug, PartialEq, Eq, Structural)]
pub struct GpuPtr {
    inner: u32,
}

impl View for GpuPtr {
    type V = u32;

    closed spec fn view(&self) -> u32 {
        self.inner
    }
}

impl GpuPtr {
    /// The pointer to no slot.
    pub fn null() -> (r: GpuPtr)
        ensures
            r@ == u32::MAX,
    {
        GpuPtr { inner: u32::MAX }
    }

    /// The number of the slot pointed to.
    pub fn index(&self) -> (r: u32)
        ensures
            r == self@,
    {
        self.inner
    }
}

/// What a slot holds.
pub enum Slot<P> {
    Empty,
    Buffer(SlotUsage, P),
    Image(P),
}

/// The slots, the slots changed since their descriptors were written, the
/// freed slots in the order they were freed, and the first untouched slot.
pub struct SlotHeap<P> {
    slots: Vec<Slot<P>>,
    dirty: Vec<u32>,
    free_list: Vec<u32>,
    next_free: u32,
}

/// The values a `SlotHeap` holds.
pub struct SlotHeapView<P> {
    pub slots: Seq<Slot<P>>,
    pub dirty: Seq<u32>,
    pub free_list: Seq<u32>,
    pub next_free: u32,
}

impl<P> View for SlotHeap<P> {
    type V = SlotHeapView<P>;

    closed spec fn view(&self) -> SlotHeapView<P> {
        SlotHeapView {
            slots: self.slots@,
            dirty: self.dirty@,
            free_list: self.free_list@,
            next_free: self.next_free,
        }
    }
}

/// The slot that the next resource takes: the last freed slot, else the
/// first untouched one.
pub open spec fn spec_next_slot<P>(v: SlotHeapView<P>) -> u32 {
    if v.free_list.len() > 0 {
        v.free_list.last()
    } else {
        v.next_free
    }
}

/// The bookkeeping is consistent: no slot is listed as free twice, every
/// listed slot was handed out before and is empty, and no slot at or past
/// the first untouched one holds anything.
pub open spec fn spec_slots_wf<P>(v: SlotHeapView<P>) -> bool {
    &&& v.next_free <= v.slots.len()
    &&& v.free_list.no_duplicates()
    &&& forall|i: int| 0 <= i < v.free_list.len() ==> #[trigger] v.free_list[i] < v.next_free
        && v.slots[v.free_list[i] as int] is Empty
    &&& forall|i: int| v.next_free <= i < v.slots.len() ==> #[trigger] v.slots[i] is Empty
}

/// The heap after a resource goes into the next slot.
pub open spec fn spec_after_insert<P>(v: SlotHeapView<P>, slot: Slot<P>) -> SlotHeapView<P> {
    let idx = spec_next_slot(v);
    SlotHeapView {
        slots: v.slots.update(idx as int, slot),
        dirty: v.dirty.push(idx),
        free_list: if v.free_list.len() > 0 {
            v.free_list.drop_last()
        } else {
            v.free_list
        },
        next_free: if v.free_list.len() > 0 {
            v.next_free
        } else {
            (v.next_free + 1) as u32
        },
    }
}

/// The heap after slot `idx` is freed.
pub open spec fn spec_after_free<P>(v: SlotHeapView<P>, idx: u32) -> SlotHeapView<P> {
    SlotHeapView {
        slots: v.slots.update(idx as int, Slot::Empty),
        dirty: v.dirty,
        free_list: v.free_list.push(idx),
        next_free: v.next_free,
    }
}

impl<P> SlotHeap<P> {
    /// A heap of `capacity` empty slots.
    pub fn new(capacity: u64) -> (r: SlotHeap<P>)
        requires
            capacity <= usize::MAX,
        ensures
            r@.slots.len() == capacity,
            forall|i: int| 0 <= i < capacity ==> #[trigger] r@.slots[i] is Empty,
            r@.dirty.len() == 0,
            r@.free_list.len() == 0,
            r@.next_free == 0,
            spec_slots_wf(r@),
    {
        let mut slots: Vec<Slot<P>> = Vec::new();
        let mut i: u64 = 0;
        while i < capacity
            invariant
                i <= capacity,
                slots@.len() == i,
                forall|k: int| 0 <= k < i ==> #[trigger] slots@[k] is Empty,
            decreases capacity - i,
        {
            slots.push(Slot::Empty);
            i = i + 1;
        }
        SlotHeap { slots, dirty: Vec::new(), free_list: Vec::new(), next_free: 0 }
    }

    /// Whether the next resource has a slot to go into.
    pub open spec fn spec_has_room(&self) -> bool {
        &&& spec_next_slot(self@) < self@.slots.len()
        &&& self@.free_list.len() == 0 ==> self@.next_free < u32::MAX
    }

    /// Whether the next resource has a slot to go into.
    pub fn has_room(&self) -> (r: bool)
        ensures
            r == self.spec_has_room(),
            r == (spec_next_slot(self@) < self@.slots.len() && (self@.free_list.len() == 0
                ==> self@.next_free < u32::MAX)),
    {
        if self.free_list.len() > 0 {
            (self.free_list[self.free_list.len() - 1] as usize) < self.slots.len()
        } else {
            (self.next_free as usize) < self.slots.len() && self.next_free < u32::MAX
        }
    }

    fn get_free_idx(&mut self) -> (r: u32)
        requires
            old(self).free_list@.len() == 0 ==> old(self).next_free < u32::MAX,
        ensures
            r == spec_next_slot(old(self)@),
            old(self)@.free_list.len() > 0 ==> final(self)@.free_list == old(self)@.free_list.drop_last()
                && final(self)@.next_free == old(self)@.next_free,
            old(self)@.free_list.len() == 0 ==> final(self)@.free_list == old(self)@.free_list
                && final(self)@.next_free == old(self)@.next_free + 1,
            final(self)@.slots == old(self)@.slots,
            final(self)@.dirty == old(self)@.dirty,
    {
        if self.free_list.len() > 0 {
            self.free_list.pop().unwrap()
        } else {
            let idx = self.next_free;
            self.next_free = self.next_free + 1;
            idx
        }
    }

    /// Puts a resource into the next slot, marks the slot changed, and
    /// returns its number.
    pub fn insert(&mut self, slot: Slot<P>) -> (r: GpuPtr)
        requires
            old(self).spec_has_room(),
        ensures
            r@ == spec_next_slot(old(self)@),
            final(self)@ == spec_after_insert(old(self)@, slot),
    {
        let idx = self.get_free_idx();
        self.slots.set(idx as usize, slot);
        self.dirty.push(idx);
        GpuPtr { inner: idx }
    }

    /// Empties the slot that `ptr` points to and lists it as free.
    pub fn free(&mut self, ptr: GpuPtr)
        requires
            ptr@ < old(self)@.slots.len(),
        ensures
            final(self)@ == spec_after_free(old(self)@, ptr@),
    {
        let idx = ptr.index();
        self.slots.set(idx as usize, Slot::Empty);
        self.free_list.push(idx);
    }

    /// What the slot that `ptr` points to holds.
    pub fn get(&self, ptr: GpuPtr) -> (r: &Slot<P>)
        requires
            ptr@ < self@.slots.len(),
        ensures
            *r == self@.slots[ptr@ as int],
    {
        &self.slots[ptr.index() as usize]
    }

    /// The slots changed since their descriptors were written.
    pub fn dirty(&self) -> (r: &Vec<u32>)
        ensures
            r@ == self@.dirty,
    {
        &self.dirty
    }

    /// The host byte range of each changed slot's descriptor in a heap of
    /// `desc_size`-byte descriptors: its offset and its size.
    pub fn descriptor_ranges(&self, desc_size: usize) -> (r: Vec<(usize, usize)>)
        requires
            forall|i: int| 0 <= i < self@.dirty.len() ==> (#[trigger] self@.dirty[i]) * desc_size
                <= usize::MAX,
        ensures
            r@.len() == self@.dirty.len(),
            forall|i: int|
                0 <= i < r@.len() ==> #[trigger] r@[i] == ((self@.dirty[i] * desc_size) as usize, desc_size),
    {
        let mut out: Vec<(usize, usize)> = Vec::new();
        let mut i: usize = 0;
        while i < self.dirty.len()
            invariant
                0 <= i <= self@.dirty.len(),
                out@.len() == i,
                forall|k: int| 0 <= k < self@.dirty.len() ==> (#[trigger] self@.dirty[k]) * desc_size
                    <= usize::MAX,
                forall|k: int|
                    0 <= k < i ==> #[trigger] out@[k] == ((self@.dirty[k] * desc_size) as usize, desc_size),
            decreases self@.dirty.len() - i,
        {
            let idx = self.dirty[i];
            assert(idx * desc_size <= usize::MAX);
            out.push(((idx as usize) * desc_size, desc_size));
            i = i + 1;
        }
        out
    }
}

} // verus!
