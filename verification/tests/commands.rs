use styro::command::{
    apply_transitions, ClearSource, CommandState, LayoutTransition, TargetSpec,
    ACCESS_COLOR_ATTACHMENT_WRITE, LAYOUT_COLOR_ATTACHMENT, LAYOUT_DEPTH_ATTACHMENT,
    LAYOUT_PRESENT_SRC, LAYOUT_STENCIL_ATTACHMENT, STAGE_BOTTOM_OF_PIPE,
    STAGE_COLOR_ATTACHMENT_OUTPUT,
};
use styro::heap::DescriptorHeap;
use styro::rhi::{ImageDesc, LoadOp, Stage, StoreOp};
use styro::swapchain::swapchain_image_desc;
use styro::rhi::Format;

fn desc(w: u32, h: u32) -> ImageDesc {
    let mut d = ImageDesc::default();
    d.dimensions = [w, h, 1];
    d
}

#[test]
fn signals_and_waits_are_recorded_in_order() {
    let mut cb = CommandState::new(3);
    cb.signal_after(Stage::BottomOfPipe, 11, 5);
    cb.wait_before(Stage::ComputeShader, 12, 4);
    cb.signal_after(Stage::Transfer, 13, 6);
    assert_eq!(cb.pool, 3);
    assert_eq!(cb.signal.len(), 2);
    assert_eq!(cb.signal[0].semaphore, 11);
    assert_eq!(cb.signal[0].value, 5);
    assert_eq!(cb.signal[1].stage, Stage::Transfer);
    assert_eq!(cb.wait.len(), 1);
    assert_eq!(cb.wait[0].stage, Stage::ComputeShader);
}

#[test]
fn presenting_waits_on_acquire_and_signals_present() {
    let mut heap: DescriptorHeap<()> = DescriptorHeap::new();
    let img = heap.insert_swapchain_image(swapchain_image_desc(800, 600, Format { raw: 43 }), 0, ());
    let mut cb = CommandState::new(0);
    cb.begin_presenting(img, 100, 200);
    assert_eq!(cb.presentation, Some(img));
    assert_eq!(cb.wait[0].semaphore, 100);
    assert_eq!(cb.wait[0].stage, Stage::ColorAttachmentOutput);
    assert_eq!(cb.signal[0].semaphore, 200);
    assert_eq!(cb.signal[0].stage, Stage::BottomOfPipe);
    let t = cb.present_transitions();
    assert_eq!(t.len(), 1);
    assert_eq!(t[0].new_layout, LAYOUT_PRESENT_SRC);
    assert_eq!(t[0].src_stage_mask, STAGE_COLOR_ATTACHMENT_OUTPUT);
    assert_eq!(t[0].src_access_mask, ACCESS_COLOR_ATTACHMENT_WRITE);
    assert_eq!(t[0].dst_stage_mask, STAGE_BOTTOM_OF_PIPE);
    assert!(CommandState::new(0).present_transitions().is_empty());
}

#[test]
fn transitions_to_the_current_layout_need_no_barrier() {
    let mut heap: DescriptorHeap<()> = DescriptorHeap::new();
    let img = heap.insert_image(desc(4, 4), 64, ());
    let t = LayoutTransition {
        image: img,
        new_layout: LAYOUT_COLOR_ATTACHMENT,
        src_stage_mask: 0,
        src_access_mask: 0,
        dst_stage_mask: 0,
        dst_access_mask: 0,
    };
    let barriers = apply_transitions(&mut heap, &vec![t, t]);
    assert_eq!(barriers.len(), 1);
    assert_eq!(barriers[0].old_layout, 0);
    assert_eq!(barriers[0].transition.new_layout, LAYOUT_COLOR_ATTACHMENT);
    let again = apply_transitions(&mut heap, &vec![t]);
    assert!(again.is_empty());
}

#[test]
fn render_pass_with_depth_and_stencil_targets() {
    let mut heap: DescriptorHeap<()> = DescriptorHeap::new();
    let img = heap.insert_swapchain_image(swapchain_image_desc(320, 200, Format { raw: 43 }), 0, ());
    let depth = heap.insert_image(desc(320, 200), 64, ());
    let stencil = heap.insert_image(desc(320, 200), 64, ());
    let mut cb = CommandState::new(0);
    cb.begin_presenting(img, 1, 2);
    let plan = cb.begin_render_pass(
        &mut heap,
        Some(TargetSpec { image: depth, load_op: LoadOp::Clear, store_op: StoreOp::DontCare }),
        Some(TargetSpec { image: stencil, load_op: LoadOp::DontCare, store_op: StoreOp::Store }),
    );
    assert_eq!(plan.extent, (320, 200));
    assert_eq!(plan.color.image, img);
    let d = plan.depth.unwrap();
    assert_eq!(d.image, depth);
    assert_eq!(d.layout, LAYOUT_DEPTH_ATTACHMENT);
    assert_eq!(d.load_op, LoadOp::Clear);
    assert_eq!(d.clear, ClearSource::Depth);
    let s = plan.stencil.unwrap();
    assert_eq!(s.layout, LAYOUT_STENCIL_ATTACHMENT);
    assert_eq!(s.clear, ClearSource::Stencil);
    assert_eq!(plan.barriers.len(), 3);
    assert_eq!(plan.barriers[2].transition.new_layout, LAYOUT_STENCIL_ATTACHMENT);
    assert!(cb.pending.is_empty());
    // The depth image is moved to the color attachment layout, as the renderer does.
    assert_eq!(heap.image(depth).0.layout, LAYOUT_COLOR_ATTACHMENT);
    // A second pass over the same targets needs a barrier for the swapchain image only.
    let plan2 = cb.begin_render_pass(
        &mut heap,
        Some(TargetSpec { image: depth, load_op: LoadOp::Clear, store_op: StoreOp::DontCare }),
        None,
    );
    assert_eq!(plan2.barriers.len(), 1);
    assert_eq!(plan2.barriers[0].transition.image, img);
}

#[test]
fn render_pass_to_the_swapchain() {
    let mut heap: DescriptorHeap<()> = DescriptorHeap::new();
    let img = heap.insert_swapchain_image(swapchain_image_desc(1280, 720, Format { raw: 43 }), 1, ());
    let mut cb = CommandState::new(1);
    cb.begin_presenting(img, 1, 2);
    let plan = cb.begin_render_pass(&mut heap, None, None);
    assert_eq!(plan.extent, (1280, 720));
    assert_eq!(plan.color.image, img);
    assert_eq!(plan.color.load_op, LoadOp::Clear);
    assert_eq!(plan.color.store_op, StoreOp::Store);
    assert_eq!(plan.color.clear, ClearSource::Zero);
    assert_eq!(plan.barriers.len(), 1);
    assert_eq!(plan.barriers[0].old_layout, 0);
    assert!(plan.depth.is_none() && plan.stencil.is_none());
}

#[test]
fn swapchain_images_start_each_frame_from_undefined() {
    let mut heap: DescriptorHeap<()> = DescriptorHeap::new();
    let img = heap.insert_swapchain_image(swapchain_image_desc(64, 64, Format { raw: 43 }), 0, ());
    for _frame in 0..3 {
        let mut cb = CommandState::new(0);
        cb.begin_presenting(img, 1, 2);
        let plan = cb.begin_render_pass(&mut heap, None, None);
        assert_eq!(plan.barriers.len(), 1);
        assert_eq!(plan.barriers[0].old_layout, 0);
        assert_eq!(plan.barriers[0].transition.new_layout, LAYOUT_COLOR_ATTACHMENT);
        let present = apply_transitions(&mut heap, &cb.present_transitions());
        assert_eq!(present.len(), 1);
        assert_eq!(present[0].old_layout, LAYOUT_COLOR_ATTACHMENT);
        assert_eq!(present[0].transition.new_layout, LAYOUT_PRESENT_SRC);
    }
    // The swapchain image's layout is not tracked.
    assert_eq!(heap.image(img).0.layout, 0);
}
