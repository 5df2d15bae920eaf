use styro::slot_heap::{slot_buffer_usage, slot_descriptor_type, GpuPtr, Slot, SlotHeap, SlotUsage};
use ash::vk;

#[test]
fn untouched_slots_are_taken_in_order() {
    let mut h: SlotHeap<&str> = SlotHeap::new(4);
    assert!(h.has_room());
    assert_eq!(h.insert(Slot::Buffer(SlotUsage::Uniform, "a")).index(), 0);
    let b = h.insert(Slot::Image("b"));
    assert_eq!(b.index(), 1);
    assert_eq!(h.dirty(), &vec![0, 1]);
    assert!(matches!(h.get(b), Slot::Image("b")));
}

#[test]
fn freed_slots_are_reused_last_first() {
    let mut h: SlotHeap<u8> = SlotHeap::new(4);
    let a = h.insert(Slot::Image(1));
    h.insert(Slot::Image(2));
    let c = h.insert(Slot::Image(3));
    h.free(a);
    h.free(c);
    assert!(matches!(h.get(c), Slot::Empty));
    assert_eq!(h.insert(Slot::Image(4)), c);
    assert_eq!(h.insert(Slot::Image(5)), a);
    assert_eq!(h.insert(Slot::Image(6)).index(), 3);
    assert!(!h.has_room());
}

#[test]
fn descriptor_ranges_of_changed_slots() {
    let mut h: SlotHeap<()> = SlotHeap::new(8);
    h.insert(Slot::Image(()));
    h.insert(Slot::Image(()));
    h.insert(Slot::Image(()));
    assert_eq!(h.descriptor_ranges(16), vec![(0, 16), (16, 16), (32, 16)]);
}

#[test]
fn slot_buffer_usages_match_vulkan() {
    assert_eq!(slot_buffer_usage(SlotUsage::Uniform), vk::BufferUsageFlags::UNIFORM_BUFFER.as_raw());
    assert_eq!(slot_buffer_usage(SlotUsage::Storage), vk::BufferUsageFlags::STORAGE_BUFFER.as_raw());
    assert_eq!(slot_buffer_usage(SlotUsage::Index), vk::BufferUsageFlags::INDEX_BUFFER.as_raw());
    assert_eq!(slot_descriptor_type(SlotUsage::Uniform), vk::DescriptorType::UNIFORM_BUFFER.as_raw());
    assert_eq!(slot_descriptor_type(SlotUsage::Storage), vk::DescriptorType::STORAGE_BUFFER.as_raw());
}

#[test]
fn the_null_slot_pointer_names_no_slot() {
    let mut h: SlotHeap<()> = SlotHeap::new(4);
    assert_eq!(GpuPtr::null().index(), u32::MAX);
    let p = h.insert(Slot::Image(()));
    assert_ne!(p, GpuPtr::null());
}
