use ash::vk;
use styro::gpu_ptr::GpuPtr;
use styro::heap::{DescriptorHeap, ImageData};
use styro::rhi::{Error, Format, ImageType, ImageUsage};
use styro::swapchain::{
    acquire_failure, check_surface_extent, choose_present_mode, choose_surface_format,
    install_swapchain_images, presentation_counts,
    swapchain_image_desc, SurfaceFormat, SwapchainInfo, SwapchainState, PRESENT_MODE_FIFO,
    PRESENT_MODE_MAILBOX,
};

#[test]
fn counts_follow_the_frames_in_flight() {
    let info = SwapchainInfo { size: 2, format: Format { raw: 43 }, color_space: 0 };
    let c = presentation_counts(&info);
    assert_eq!(c.acquire_semaphores, 2);
    assert_eq!(c.submit_semaphores, 3);
    assert_eq!(c.min_image_count, 3);
}

#[test]
fn mailbox_is_preferred() {
    assert_eq!(PRESENT_MODE_MAILBOX, vk::PresentModeKHR::MAILBOX.as_raw());
    assert_eq!(PRESENT_MODE_FIFO, vk::PresentModeKHR::FIFO.as_raw());
    let fifo = vk::PresentModeKHR::FIFO.as_raw();
    let mailbox = vk::PresentModeKHR::MAILBOX.as_raw();
    let immediate = vk::PresentModeKHR::IMMEDIATE.as_raw();
    assert_eq!(choose_present_mode(&vec![fifo, mailbox]), mailbox);
    assert_eq!(choose_present_mode(&vec![immediate, fifo]), fifo);
    assert_eq!(choose_present_mode(&vec![]), fifo);
}

#[test]
fn srgb_surface_format_is_preferred() {
    let srgb = SurfaceFormat {
        format: vk::Format::R8G8B8A8_SRGB.as_raw(),
        color_space: vk::ColorSpaceKHR::SRGB_NONLINEAR.as_raw(),
    };
    let unorm = SurfaceFormat {
        format: vk::Format::B8G8R8A8_UNORM.as_raw(),
        color_space: vk::ColorSpaceKHR::SRGB_NONLINEAR.as_raw(),
    };
    assert_eq!(choose_surface_format(&vec![unorm, srgb, srgb]), 1);
    assert_eq!(choose_surface_format(&vec![unorm, unorm]), 0);
}

#[test]
fn empty_surfaces_are_not_ready() {
    assert_eq!(check_surface_extent(0, 600), Err(vk::Result::NOT_READY.as_raw()));
    assert_eq!(check_surface_extent(800, 0), Err(vk::Result::NOT_READY.as_raw()));
    assert_eq!(check_surface_extent(800, 600), Ok(()));
}

#[test]
fn swapchain_images_are_2d_attachments() {
    let d = swapchain_image_desc(800, 600, Format { raw: 43 });
    assert_eq!(d.ty, ImageType::Type2D);
    assert_eq!(d.dimensions, [800, 600, 1]);
    assert_eq!(d.usage, ImageUsage::Attachment);
    assert_eq!(d.mip_count, 1);
}

#[test]
fn frames_take_acquire_semaphores_in_turn() {
    let mut heap: DescriptorHeap<()> = DescriptorHeap::new();
    let imgs: Vec<GpuPtr> = (0..3)
        .map(|i| heap.insert_swapchain_image(swapchain_image_desc(8, 8, Format { raw: 43 }), i, ()))
        .collect();
    let mut s = SwapchainState::new();
    s.set_resources(vec![10, 11], vec![20, 21, 22], imgs.clone());
    assert_eq!(s.acquire_semaphore(), 10);
    let a = s.complete_acquire(2);
    assert_eq!(a.image, imgs[2]);
    assert_eq!(a.semaphores.submit_wait, 10);
    assert_eq!(a.semaphores.present_wait, 22);
    assert_eq!(s.present_semaphore(2), 22);
    assert_eq!(s.frame_index(), 1);
    assert_eq!(s.acquire_semaphore(), 11);
    let b = s.complete_acquire(0);
    assert_eq!(b.semaphores.submit_wait, 11);
    assert_eq!(s.acquire_semaphore(), 10);
    let (acq, sub, handles) = s.take_resources();
    assert_eq!(acq, vec![10, 11]);
    assert_eq!(sub, vec![20, 21, 22]);
    assert_eq!(handles, imgs);
    assert_eq!(s.frame_index(), 2);
}

#[test]
fn presentation_objects_are_counted() {
    let mut heap: DescriptorHeap<()> = DescriptorHeap::new();
    let imgs: Vec<GpuPtr> = (0..3)
        .map(|i| heap.insert_swapchain_image(swapchain_image_desc(4, 4, Format { raw: 43 }), i, ()))
        .collect();
    let mut s = SwapchainState::new();
    assert_eq!(s.acquire_semaphore_count(), 0);
    assert_eq!(s.image_count(), 0);
    s.set_resources(vec![1, 2], vec![3, 4, 5], imgs);
    assert_eq!(s.acquire_semaphore_count(), 2);
    assert_eq!(s.submit_semaphore_count(), 3);
    assert_eq!(s.image_count(), 3);
    s.take_resources();
    assert_eq!(s.submit_semaphore_count(), 0);
    assert_eq!(s.image_count(), 0);
}

#[test]
fn failed_acquisitions_report_out_of_date_or_the_recreation_error() {
    assert_eq!(acquire_failure(Ok(())), Error::SwapchainOutOfDate);
    assert_eq!(acquire_failure(Err(Error::SurfaceLost)), Error::SurfaceLost);
}

#[test]
fn swapchain_images_are_filed_in_order_and_installed() {
    let mut heap: DescriptorHeap<&str> = DescriptorHeap::new();
    heap.insert_buffer(4, styro::rhi::BufferUsage::General, false, "buffer");
    let mut s = SwapchainState::new();
    assert!(heap.has_handles_for(3));
    let handles = install_swapchain_images(
        &mut heap,
        &mut s,
        640,
        480,
        Format { raw: 43 },
        vec!["a", "b", "c"],
        vec![1, 2],
        vec![3, 4, 5],
    );
    assert_eq!(handles.len(), 3);
    assert_eq!(handles[0].handle(), 2);
    assert_eq!(handles[2].handle(), 4);
    for (i, h) in handles.iter().enumerate() {
        let (info, payload) = heap.image(*h);
        assert_eq!(*payload, ["a", "b", "c"][i]);
        assert_eq!(info.data, ImageData::Swapchain { index: i as u32 });
        assert_eq!(info.desc.dimensions, [640, 480, 1]);
        assert_eq!(info.layout, 0);
    }
    assert_eq!(s.image_count(), 3);
    assert_eq!(s.acquire_semaphore_count(), 2);
    assert_eq!(s.submit_semaphore_count(), 3);
    assert!(!heap.has_handles_for(u64::MAX));
}
