use styro::gpu_ptr::GpuPtr;
use styro::heap::{DescriptorHeap, ImageData, ResourceInfo, SWAPCHAIN_IMAGE_LEN};
use styro::rhi::{BufferUsage, ImageDesc};

#[test]
fn null_pointer_is_null() {
    let p = GpuPtr::null();
    assert!(p.is_null());
    assert_eq!(p.handle(), 0);
    assert_eq!(p.offset, 0);
    assert_eq!(p.size, 0);
}

#[test]
fn handles_start_at_one_and_count_up() {
    let mut heap: DescriptorHeap<&str> = DescriptorHeap::new();
    let a = heap.insert_buffer(64, BufferUsage::General, true, "a");
    let b = heap.insert_buffer(128, BufferUsage::DescriptorHeap, false, "b");
    assert_eq!(a.handle(), 1);
    assert_eq!(b.handle(), 2);
    assert!(!a.is_null());
    assert_eq!(a.offset, 0);
    assert_eq!(a.size, 64);
    assert_eq!(b.size, 128);
}

#[test]
fn lookup_returns_what_was_filed() {
    let mut heap: DescriptorHeap<u32> = DescriptorHeap::new();
    let a = heap.insert_buffer(16, BufferUsage::General, true, 7);
    let (info, payload) = heap.buffer(a);
    assert_eq!(info.size, 16);
    assert_eq!(info.usage, BufferUsage::General);
    assert!(info.mapped);
    assert_eq!(*payload, 7);
    assert!(heap.contains(a));
    assert!(heap.get(GpuPtr::null()).is_none());
}

#[test]
fn sizes_are_cut_to_32_bits() {
    let mut heap: DescriptorHeap<()> = DescriptorHeap::new();
    let big = heap.insert_buffer((1u64 << 32) + 5, BufferUsage::General, true, ());
    assert_eq!(big.size, 5);
    let sc = heap.insert_swapchain_image(ImageDesc::default(), 0, ());
    assert_eq!(sc.size, SWAPCHAIN_IMAGE_LEN as u32);
    assert!(heap.is_swapchain_image(sc));
    assert!(!heap.is_swapchain_image(big));
}

#[test]
fn free_gives_back_the_resource() {
    let mut heap: DescriptorHeap<&str> = DescriptorHeap::new();
    let a = heap.insert_image(ImageDesc::default(), 4096, "img");
    let e = heap.free(a);
    assert_eq!(e.payload, "img");
    match e.info {
        ResourceInfo::Image(i) => assert_eq!(i.data, ImageData::Allocated { size: 4096 }),
        ResourceInfo::Buffer(_) => panic!("expected an image"),
    }
    assert!(!heap.contains(a));
    // A new resource never reuses the freed handle.
    let b = heap.insert_buffer(8, BufferUsage::General, true, "buf");
    assert_eq!(b.handle(), 2);
}

#[test]
fn free_infallible_ignores_null_and_missing() {
    let mut heap: DescriptorHeap<u8> = DescriptorHeap::new();
    let a = heap.insert_buffer(8, BufferUsage::General, true, 1);
    assert!(heap.free_infallible(GpuPtr::null()).is_none());
    assert!(heap.contains(a));
    assert!(heap.free_infallible(a).is_some());
    assert!(heap.free_infallible(a).is_none());
}

#[test]
fn take_all_empties_the_heap() {
    let mut heap: DescriptorHeap<u8> = DescriptorHeap::new();
    let a = heap.insert_buffer(8, BufferUsage::General, true, 1);
    let _b = heap.insert_buffer(8, BufferUsage::General, true, 2);
    let _c = heap.insert_image(ImageDesc::default(), 8, 3);
    heap.free(a);
    let all = heap.take_all();
    let payloads: Vec<u8> = all.iter().map(|e| e.payload).collect();
    assert_eq!(payloads, vec![2, 3]);
    assert!(heap.take_all().is_empty());
}

#[test]
fn layouts_are_tracked_per_image() {
    let mut heap: DescriptorHeap<()> = DescriptorHeap::new();
    let img = heap.insert_image(ImageDesc::default(), 64, ());
    assert_eq!(heap.set_layout(img, 2), 0);
    assert_eq!(heap.set_layout(img, 1_000_001_002), 2);
    let (info, _) = heap.image(img);
    assert_eq!(info.layout, 1_000_001_002);
    assert_eq!(info.len(), 64);
}

#[test]
fn a_fresh_heap_can_file_resources() {
    let mut heap: DescriptorHeap<()> = DescriptorHeap::new();
    assert!(heap.can_insert());
    heap.insert_buffer(4, BufferUsage::General, false, ());
    assert!(heap.can_insert());
}
