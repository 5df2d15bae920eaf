//! What a command buffer records beside its Vulkan commands: the semaphores
//! that its submission waits on and signals, the image layout transitions it
//! owes, and the plans of the render passes and draws it issues.
use vstd::prelude::*;
use crate::gpu_ptr::GpuPtr;
use crate::heap::{DescriptorHeap, ResourceInfo};
use crate::rhi::{LoadOp, Stage, StoreOp};

verus! {

broadcast use vstd::std_specs::hash::group_hash_axioms;

/// `VK_IMAGE_LAYOUT_UNDEFINED`.
pub const LAYOUT_UNDEFINED: i32 = 0i32;

/// `VK_IMAGE_LAYOUT_COLOR_ATTACHMENT_OPTIMAL`.
pub const LAYOUT_COLOR_ATTACHMENT: i32 = 2i32;

/// `VK_IMAGE_LAYOUT_DEPTH_ATTACHMENT_OPTIMAL`.
pub const LAYOUT_DEPTH_ATTACHMENT: i32 = 1_000_241_000i32;

/// `VK_IMAGE_LAYOUT_STENCIL_ATTACHMENT_OPTIMAL`.
pub const LAYOUT_STENCIL_ATTACHMENT: i32 = 1_000_241_002i32;

/// `VK_IMAGE_LAYOUT_PRESENT_SRC_KHR`.
pub const LAYOUT_PRESENT_SRC: i32 = 1_000_001_002i32;

/// `VK_PIPELINE_STAGE_2_LATE_FRAGMENT_TESTS_BIT`.
pub const STAGE_LATE_FRAGMENT_TESTS: u64 = 0x200u64;

/// `VK_PIPELINE_STAGE_2_COLOR_ATTACHMENT_OUTPUT_BIT`.
pub const STAGE_COLOR_ATTACHMENT_OUTPUT: u64 = 0x400u64;

/// `VK_PIPELINE_STAGE_2_BOTTOM_OF_PIPE_BIT`.
pub const STAGE_BOTTOM_OF_PIPE: u64 = 0x2000u64;

/// `VK_ACCESS_2_COLOR_ATTACHMENT_WRITE_BIT`.
pub const ACCESS_COLOR_ATTACHMENT_WRITE: u64 = 0x100u64;

/// A semaphore that a submission waits on or signals, by its raw handle.
#[derive(Clone, Copy, Debug, PartialEq, Eq, Structural)]
pub struct SemaphoreInfo {
    pub semaphore: u64,
    pub value: u64,
    pub stage: Stage,
}

/// A layout transition of an image, with the stages and accesses of the
/// barrier that performs it.
#[derive(Clone, Copy, Debug, PartialEq, Eq, Structural)]
pub struct LayoutTransition {
    pub image: GpuPtr,
    pub new_layout: i32,
    pub src_stage_mask: u64,
    pub src_access_mask: u64,
    pub dst_stage_mask: u64,
    pub dst_access_mask: u64,
}

/// A barrier to record: the transition, and the layout the image was in.
#[derive(Clone, Copy, Debug, PartialEq, Eq, Structural)]
pub struct ImageBarrier {
    pub transition: LayoutTransition,
    pub old_layout: i32,
}

/// The transition that makes `image` a color attachment before it is drawn to.
pub open spec fn spec_attachment_transition(image: GpuPtr, new_layout: i32) -> LayoutTransition {
    LayoutTransition {
        image,
        new_layout,
        src_stage_mask: STAGE_LATE_FRAGMENT_TESTS,
        src_access_mask: 0,
        dst_stage_mask: STAGE_COLOR_ATTACHMENT_OUTPUT,
        dst_access_mask: ACCESS_COLOR_ATTACHMENT_WRITE,
    }
}

fn attachment_transition(image: GpuPtr, new_layout: i32) -> (r: LayoutTransition)
    ensures
        r == spec_attachment_transition(image, new_layout),
{
    LayoutTransition {
        image,
        new_layout,
        src_stage_mask: STAGE_LATE_FRAGMENT_TESTS,
        src_access_mask: 0,
        dst_stage_mask: STAGE_COLOR_ATTACHMENT_OUTPUT,
        dst_access_mask: ACCESS_COLOR_ATTACHMENT_WRITE,
    }
}

/// The transition that hands a swapchain image over to presentation.
pub open spec fn spec_present_transition(image: GpuPtr) -> LayoutTransition {
    LayoutTransition {
        image,
        new_layout: LAYOUT_PRESENT_SRC,
        src_stage_mask: STAGE_COLOR_ATTACHMENT_OUTPUT,
        src_access_mask: ACCESS_COLOR_ATTACHMENT_WRITE,
        dst_stage_mask: STAGE_BOTTOM_OF_PIPE,
        dst_access_mask: 0,
    }
}

/// The layout that a swapchain image is taken to be in before a transition to
/// `new_layout`: its layout is not tracked, so a move to the color attachment
/// layout starts from `VK_IMAGE_LAYOUT_UNDEFINED` (the image was just
/// acquired) and any other move starts from the color attachment layout (the
/// image was just drawn to).
pub open spec fn spec_swapchain_old_layout(new_layout: i32) -> i32 {
    if new_layout == LAYOUT_COLOR_ATTACHMENT {
        LAYOUT_UNDEFINED
    } else {
        LAYOUT_COLOR_ATTACHMENT
    }
}

fn swapchain_old_layout(new_layout: i32) -> (r: i32)
    ensures
        r == spec_swapchain_old_layout(new_layout),
{
    if new_layout == LAYOUT_COLOR_ATTACHMENT {
        LAYOUT_UNDEFINED
    } else {
        LAYOUT_COLOR_ATTACHMENT
    }
}

/// Whether handle `h` of `heap` names a swapchain image.
pub open spec fn spec_is_swapchain_image<P>(heap: Map<u64, crate::heap::Entry<P>>, h: u64) -> bool {
    &&& heap.contains_key(h)
    &&& match heap[h].info {
        ResourceInfo::Image(i) => i.data is Swapchain,
        ResourceInfo::Buffer(_) => false,
    }
}

/// The handles of the swapchain images that `heap` owns.
pub open spec fn spec_swapchain_images<P>(heap: Map<u64, crate::heap::Entry<P>>) -> Set<u64> {
    Set::new(|h: u64| spec_is_swapchain_image(heap, h))
}

/// The tracked layouts after `ts` run in order from `layouts`: each image
/// moves to its new layout, except swapchain images (those in `swapchain`),
/// whose layouts are not tracked.
pub open spec fn spec_layouts_after(
    layouts: Map<u64, i32>,
    swapchain: Set<u64>,
    ts: Seq<LayoutTransition>,
) -> Map<u64, i32>
    decreases ts.len(),
{
    if ts.len() == 0 {
        layouts
    } else {
        let before = spec_layouts_after(layouts, swapchain, ts.drop_last());
        let h = ts.last().image@.handle;
        if swapchain.contains(h) {
            before
        } else {
            before.insert(h, ts.last().new_layout)
        }
    }
}

/// The layout of every image that the heap owns.
pub open spec fn spec_image_layouts<P>(heap: Map<u64, crate::heap::Entry<P>>) -> Map<u64, i32> {
    Map::new(
        |h: u64| heap.contains_key(h) && heap[h].info is Image,
        |h: u64|
            match heap[h].info {
                ResourceInfo::Image(i) => i.layout,
                ResourceInfo::Buffer(_) => 0,
            },
    )
}

/// Whether every transition of `ts` is of an image that `heap` owns.
pub open spec fn spec_all_images<P>(heap: Map<u64, crate::heap::Entry<P>>, ts: Seq<LayoutTransition>) -> bool {
    forall|i: int|
        0 <= i < ts.len() ==> heap.contains_key(#[trigger] ts[i].image@.handle)
            && heap[ts[i].image@.handle].info is Image
}

/// The layout an image is in before the last transition of `ts`: the tracked
/// one, or for a swapchain image the one `spec_swapchain_old_layout` gives.
pub open spec fn spec_old_layout(
    layouts: Map<u64, i32>,
    swapchain: Set<u64>,
    ts: Seq<LayoutTransition>,
) -> i32
    recommends
        ts.len() > 0,
{
    let t = ts.last();
    if swapchain.contains(t.image@.handle) {
        spec_swapchain_old_layout(t.new_layout)
    } else {
        spec_layouts_after(layouts, swapchain, ts.drop_last())[t.image@.handle]
    }
}

/// The barriers that `ts` need, run in order from `layouts`: one for each
/// transition whose image is not already in its new layout.
pub open spec fn spec_barriers(layouts: Map<u64, i32>, swapchain: Set<u64>, ts: Seq<LayoutTransition>) -> Seq<
    ImageBarrier,
>
    decreases ts.len(),
{
    if ts.len() == 0 {
        Seq::empty()
    } else {
        let earlier = spec_barriers(layouts, swapchain, ts.drop_last());
        let old_layout = spec_old_layout(layouts, swapchain, ts);
        if old_layout == ts.last().new_layout {
            earlier
        } else {
            earlier.push(ImageBarrier { transition: ts.last(), old_layout })
        }
    }
}

/// Runs `ts` in order against the layouts that `heap` tracks: each image
/// moves to its new layout (a swapchain image's layout is not tracked), and
/// a barrier is returned for each transition that changes a layout.
pub fn apply_transitions<P>(heap: &mut DescriptorHeap<P>, ts: &Vec<LayoutTransition>) -> (r: Vec<
    ImageBarrier,
>)
    requires
        spec_all_images(old(heap)@, ts@),
    ensures
        final(heap).next_handle() == old(heap).next_handle(),
        final(heap)@.dom() == old(heap)@.dom(),
        forall|h: u64| #[trigger] final(heap)@.contains_key(h) ==> final(heap)@[h].payload == old(heap)@[h].payload,
        spec_swapchain_images(final(heap)@) == spec_swapchain_images(old(heap)@),
        spec_image_layouts(final(heap)@) == spec_layouts_after(
            spec_image_layouts(old(heap)@),
            spec_swapchain_images(old(heap)@),
            ts@,
        ),
        r@ == spec_barriers(spec_image_layouts(old(heap)@), spec_swapchain_images(old(heap)@), ts@),
{
    let mut out: Vec<ImageBarrier> = Vec::new();
    let ghost start = heap@;
    let ghost sw = spec_swapchain_images(start);
    let mut i: usize = 0;
    while i < ts.len()
        invariant
            heap.next_handle() == old(heap).next_handle(),
            start == old(heap)@,
            sw == spec_swapchain_images(start),
            heap@.dom() == start.dom(),
            forall|h: u64| #[trigger] heap@.contains_key(h) ==> heap@[h].payload == start[h].payload,
            forall|h: u64| #[trigger] heap@.contains_key(h) ==> (heap@[h].info is Image <==> start[h].info is Image),
            forall|h: u64| #[trigger] spec_is_swapchain_image(heap@, h) == spec_is_swapchain_image(start, h),
            spec_all_images(start, ts@),
            0 <= i <= ts@.len(),
            spec_image_layouts(heap@) == spec_layouts_after(spec_image_layouts(start), sw, ts@.take(i as int)),
            out@ == spec_barriers(spec_image_layouts(start), sw, ts@.take(i as int)),
        decreases ts@.len() - i,
    {
        let t = ts[i];
        assert(heap@.contains_key(ts@[i as int].image@.handle));
        assert(ts@.take(i as int + 1).drop_last() =~= ts@.take(i as int));
        assert(ts@.take(i as int + 1).last() == t);
        let is_swapchain = heap.is_swapchain_image(t.image);
        assert(is_swapchain == sw.contains(t.image@.handle)) by {
            assert(is_swapchain == spec_is_swapchain_image(heap@, t.image@.handle));
        }
        let old_layout = if is_swapchain {
            swapchain_old_layout(t.new_layout)
        } else {
            let ghost before = heap@;
            let l = heap.set_layout(t.image, t.new_layout);
            assert forall|h: u64| #[trigger] spec_is_swapchain_image(heap@, h) == spec_is_swapchain_image(
                before,
                h,
            ) by {
                if h == t.image@.handle {
                    assert(heap@[h].info matches ResourceInfo::Image(j) && before[h].info matches ResourceInfo::Image(k)
                        && j.data == k.data);
                }
            }
            assert(spec_image_layouts(heap@) =~= spec_layouts_after(
                spec_image_layouts(start),
                sw,
                ts@.take(i as int),
            ).insert(t.image@.handle, t.new_layout));
            l
        };
        if old_layout != t.new_layout {
            out.push(ImageBarrier { transition: t, old_layout });
        }
        i = i + 1;
    }
    assert(ts@.take(ts@.len() as int) =~= ts@);
    assert(spec_swapchain_images(heap@) =~= sw);
    out
}

/// What a command buffer has recorded besides its Vulkan commands.
pub struct CommandState {
    /// The command pool it came from.
    pub pool: u32,
    /// Semaphores that its submission waits on.
    pub wait: Vec<SemaphoreInfo>,
    /// Semaphores that its submission signals.
    pub signal: Vec<SemaphoreInfo>,
    /// Layout transitions queued for the next render pass.
    pub pending: Vec<LayoutTransition>,
    /// The swapchain image it renders to, when it presents.
    pub presentation: Option<GpuPtr>,
}

/// Whether image `ptr` is owned by `heap`.
pub open spec fn spec_is_image<P>(heap: Map<u64, crate::heap::Entry<P>>, ptr: GpuPtr) -> bool {
    heap.contains_key(ptr@.handle) && heap[ptr@.handle].info is Image
}

/// Whether image `ptr` is owned by `heap` and is not a swapchain image.
pub open spec fn spec_is_plain_image<P>(heap: Map<u64, crate::heap::Entry<P>>, ptr: GpuPtr) -> bool {
    heap.contains_key(ptr@.handle) && match heap[ptr@.handle].info {
        ResourceInfo::Image(i) => i.data is Allocated,
        ResourceInfo::Buffer(_) => false,
    }
}

/// The width and height of image `ptr`.
pub open spec fn spec_image_extent<P>(heap: Map<u64, crate::heap::Entry<P>>, ptr: GpuPtr) -> (u32, u32) {
    match heap[ptr@.handle].info {
        ResourceInfo::Image(i) => (i.desc.dimensions[0], i.desc.dimensions[1]),
        ResourceInfo::Buffer(_) => (0, 0),
    }
}

impl CommandState {
    /// A command buffer from pool `pool` that has recorded nothing.
    pub fn new(pool: u32) -> (r: CommandState)
        ensures
            r.pool == pool,
            r.wait@ == Seq::<SemaphoreInfo>::empty(),
            r.signal@ == Seq::<SemaphoreInfo>::empty(),
            r.pending@ == Seq::<LayoutTransition>::empty(),
            r.presentation is None,
    {
        CommandState {
            pool,
            wait: Vec::new(),
            signal: Vec::new(),
            pending: Vec::new(),
            presentation: None,
        }
    }

    /// Makes the submission signal `semaphore` with `value` once `stage` is done.
    pub fn signal_after(&mut self, stage: Stage, semaphore: u64, value: u64)
        ensures
            final(self).signal@ == old(self).signal@.push(SemaphoreInfo { semaphore, value, stage }),
            final(self).wait@ == old(self).wait@,
            final(self).pending@ == old(self).pending@,
            final(self).pool == old(self).pool,
            final(self).presentation == old(self).presentation,
    {
        self.signal.push(SemaphoreInfo { semaphore, value, stage });
    }

    /// Makes the submission wait for `semaphore` to reach `value` before `stage`.
    pub fn wait_before(&mut self, stage: Stage, semaphore: u64, value: u64)
        ensures
            final(self).wait@ == old(self).wait@.push(SemaphoreInfo { semaphore, value, stage }),
            final(self).signal@ == old(self).signal@,
            final(self).pending@ == old(self).pending@,
            final(self).pool == old(self).pool,
            final(self).presentation == old(self).presentation,
    {
        self.wait.push(SemaphoreInfo { semaphore, value, stage });
    }

    /// Makes this command buffer render to swapchain image `image`: its
    /// submission waits for the image to be acquired before color output and
    /// signals, once everything is done, the semaphore that presentation
    /// waits on.
    pub fn begin_presenting(&mut self, image: GpuPtr, acquire_semaphore: u64, present_semaphore: u64)
        ensures
            final(self).signal@ == old(self).signal@.push(
                SemaphoreInfo { semaphore: present_semaphore, value: 0, stage: Stage::BottomOfPipe },
            ),
            final(self).wait@ == old(self).wait@.push(
                SemaphoreInfo {
                    semaphore: acquire_semaphore,
                    value: 0,
                    stage: Stage::ColorAttachmentOutput,
                },
            ),
            final(self).pending@ == old(self).pending@,
            final(self).pool == old(self).pool,
            final(self).presentation == Some(image),
    {
        self.signal_after(Stage::BottomOfPipe, present_semaphore, 0);
        self.wait_before(Stage::ColorAttachmentOutput, acquire_semaphore, 0);
        self.presentation = Some(image);
    }

    /// The transitions that submission records before it ends the command
    /// buffer: the presented image, if any, moves to the presentation layout.
    pub fn present_transitions(&self) -> (r: Vec<LayoutTransition>)
        ensures
            match self.presentation {
                Some(img) => r@ == seq![spec_present_transition(img)],
                None => r@ == Seq::<LayoutTransition>::empty(),
            },
            r@.len() == if self.presentation is Some { 1int } else { 0int },
            self.presentation matches Some(img) ==> {
                &&& r@[0].image == img
                &&& r@[0].new_layout == 1_000_001_002
                &&& r@[0].src_stage_mask == 0x400
                &&& r@[0].src_access_mask == 0x100
                &&& r@[0].dst_stage_mask == 0x2000
                &&& r@[0].dst_access_mask == 0
            },
    {
        let mut v: Vec<LayoutTransition> = Vec::new();
        match self.presentation {
            Some(img) => {
                v.push(
                    LayoutTransition {
                        image: img,
                        new_layout: LAYOUT_PRESENT_SRC,
                        src_stage_mask: STAGE_COLOR_ATTACHMENT_OUTPUT,
                        src_access_mask: ACCESS_COLOR_ATTACHMENT_WRITE,
                        dst_stage_mask: STAGE_BOTTOM_OF_PIPE,
                        dst_access_mask: 0,
                    },
                );
            },
            None => {},
        }
        v
    }
}

/// A render target: an image, and what happens to it when the pass begins and ends.
#[derive(Clone, Copy, Debug, PartialEq, Eq, Structural)]
pub struct TargetSpec {
    pub image: GpuPtr,
    pub load_op: LoadOp,
    pub store_op: StoreOp,
}

/// Where an attachment's clear value comes from.
#[derive(Clone, Copy, Debug, PartialEq, Eq, Structural)]
pub enum ClearSource {
    Depth,
    Stencil,
    /// All zero.
    Zero,
}

/// One attachment of a render pass.
#[derive(Clone, Copy, Debug, PartialEq, Eq, Structural)]
pub struct AttachmentPlan {
    pub image: GpuPtr,
    pub layout: i32,
    pub load_op: LoadOp,
    pub store_op: StoreOp,
    pub clear: ClearSource,
}

/// What beginning a render pass records.
pub struct RenderPassPlan {
    /// The color attachment: the presented image.
    pub color: AttachmentPlan,
    pub depth: Option<AttachmentPlan>,
    pub stencil: Option<AttachmentPlan>,
    /// The render area, which the viewport and scissor also cover.
    pub extent: (u32, u32),
    /// The layout barriers to record before rendering begins.
    pub barriers: Vec<ImageBarrier>,
}

/// The transitions that a render pass queues after those already pending:
/// the presented image, the depth target and the stencil target, in this
/// order. The depth target's transition asks for the color attachment
/// layout, while its attachment is described in the depth attachment layout:
/// the renderer records it this way, and nothing here changes that.
pub open spec fn spec_pass_transitions(
    pending: Seq<LayoutTransition>,
    presented: GpuPtr,
    depth: Option<TargetSpec>,
    stencil: Option<TargetSpec>,
) -> Seq<LayoutTransition> {
    pending.push(spec_attachment_transition(presented, LAYOUT_COLOR_ATTACHMENT)) + match depth {
        Some(d) => seq![spec_attachment_transition(d.image, LAYOUT_COLOR_ATTACHMENT)],
        None => Seq::empty(),
    } + match stencil {
        Some(s) => seq![spec_attachment_transition(s.image, LAYOUT_STENCIL_ATTACHMENT)],
        None => Seq::empty(),
    }
}

/// The color attachment of a render pass: the presented image, cleared to
/// zero and stored.
pub open spec fn spec_presented_attachment(presented: GpuPtr) -> AttachmentPlan {
    AttachmentPlan {
        image: presented,
        layout: LAYOUT_COLOR_ATTACHMENT,
        load_op: LoadOp::Clear,
        store_op: StoreOp::Store,
        clear: ClearSource::Zero,
    }
}

/// The attachment for a depth or stencil target.
pub open spec fn spec_target_attachment(t: TargetSpec, layout: i32, clear: ClearSource) -> AttachmentPlan {
    AttachmentPlan { image: t.image, layout, load_op: t.load_op, store_op: t.store_op, clear }
}

impl CommandState {
    /// Plans the beginning of a render pass to the presented image, with an
    /// optional depth and stencil target: the attachments, the render area
    /// (the presented image's size), and the layout barriers, which run every
    /// queued transition against the layouts that `heap` tracks and leave
    /// none queued. The presented image, a swapchain image, moves from
    /// `VK_IMAGE_LAYOUT_UNDEFINED`. Only a command buffer that presents can
    /// begin a render pass: no other render area is known.
    pub fn begin_render_pass<P>(
        &mut self,
        heap: &mut DescriptorHeap<P>,
        depth: Option<TargetSpec>,
        stencil: Option<TargetSpec>,
    ) -> (r: RenderPassPlan)
        requires
            spec_all_images(old(heap)@, old(self).pending@),
            old(self).presentation matches Some(p) && spec_is_image(old(heap)@, p),
            depth matches Some(d) ==> spec_is_plain_image(old(heap)@, d.image),
            stencil matches Some(s) ==> spec_is_plain_image(old(heap)@, s.image),
        ensures
            final(heap).next_handle() == old(heap).next_handle(),
            final(heap)@.dom() == old(heap)@.dom(),
            spec_swapchain_images(final(heap)@) == spec_swapchain_images(old(heap)@),
            spec_image_layouts(final(heap)@) == spec_layouts_after(
                spec_image_layouts(old(heap)@),
                spec_swapchain_images(old(heap)@),
                spec_pass_transitions(old(self).pending@, old(self).presentation->0, depth, stencil),
            ),
            r.barriers@ == spec_barriers(
                spec_image_layouts(old(heap)@),
                spec_swapchain_images(old(heap)@),
                spec_pass_transitions(old(self).pending@, old(self).presentation->0, depth, stencil),
            ),
            r.color == spec_presented_attachment(old(self).presentation->0),
            r.depth == match depth {
                Some(d) => Some(spec_target_attachment(d, LAYOUT_DEPTH_ATTACHMENT, ClearSource::Depth)),
                None => None,
            },
            r.stencil == match stencil {
                Some(s) => Some(spec_target_attachment(s, LAYOUT_STENCIL_ATTACHMENT, ClearSource::Stencil)),
                None => None,
            },
            r.extent == spec_image_extent(old(heap)@, old(self).presentation->0),
            forall|i: int|
                0 <= i < r.barriers@.len() ==> old(self).pending@.contains(
                    (#[trigger] r.barriers@[i]).transition,
                ) || {
                    &&& r.barriers@[i].transition.src_stage_mask == 0x200
                    &&& r.barriers@[i].transition.src_access_mask == 0
                    &&& r.barriers@[i].transition.dst_stage_mask == 0x400
                    &&& r.barriers@[i].transition.dst_access_mask == 0x100
                },
            final(self).pending@ == Seq::<LayoutTransition>::empty(),
            final(self).pool == old(self).pool,
            final(self).wait@ == old(self).wait@,
            final(self).signal@ == old(self).signal@,
            final(self).presentation == old(self).presentation,
    {
        let presented = match self.presentation {
            Some(p) => p,
            None => vstd::pervasive::unreached(),
        };
        let ghost queued = spec_pass_transitions(old(self).pending@, presented, depth, stencil);
        self.pending.push(attachment_transition(presented, LAYOUT_COLOR_ATTACHMENT));
        let color = AttachmentPlan {
            image: presented,
            layout: LAYOUT_COLOR_ATTACHMENT,
            load_op: LoadOp::Clear,
            store_op: StoreOp::Store,
            clear: ClearSource::Zero,
        };
        let depth_attachment = match depth {
            Some(d) => {
                self.pending.push(attachment_transition(d.image, LAYOUT_COLOR_ATTACHMENT));
                Some(
                    AttachmentPlan {
                        image: d.image,
                        layout: LAYOUT_DEPTH_ATTACHMENT,
                        load_op: d.load_op,
                        store_op: d.store_op,
                        clear: ClearSource::Depth,
                    },
                )
            },
            None => None,
        };
        let stencil_attachment = match stencil {
            Some(s) => {
                self.pending.push(attachment_transition(s.image, LAYOUT_STENCIL_ATTACHMENT));
                Some(
                    AttachmentPlan {
                        image: s.image,
                        layout: LAYOUT_STENCIL_ATTACHMENT,
                        load_op: s.load_op,
                        store_op: s.store_op,
                        clear: ClearSource::Stencil,
                    },
                )
            },
            None => None,
        };
        assert(self.pending@ =~= queued);
        let extent = {
            let (info, _) = heap.image(presented);
            (info.desc.dimensions[0], info.desc.dimensions[1])
        };
        assert forall|k: int| 0 <= k < self.pending@.len() implies old(heap)@.contains_key(
            #[trigger] self.pending@[k].image@.handle,
        ) && old(heap)@[self.pending@[k].image@.handle].info is Image by {
            let n = old(self).pending@.len() as int;
            if k < n {
                assert(self.pending@[k] == old(self).pending@[k]);
            } else if k == n {
                assert(self.pending@[k].image == presented);
            } else if k == n + 1 && depth is Some {
                assert(self.pending@[k].image == depth->0.image);
            } else {
                assert(self.pending@[k].image == stencil->0.image);
            }
        }
        let ghost layouts = spec_image_layouts(old(heap)@);
        let ghost sw = spec_swapchain_images(old(heap)@);
        let barriers = apply_transitions(heap, &self.pending);
        proof {
            crate::laws::law_pass_transitions_are_attachment_barriers(
                old(self).pending@,
                presented,
                depth,
                stencil,
            );
            crate::laws::law_barriers_come_from_transitions(layouts, sw, queued);
            assert forall|i: int| 0 <= i < barriers@.len() implies old(self).pending@.contains(
                (#[trigger] barriers@[i]).transition,
            ) || {
                &&& barriers@[i].transition.src_stage_mask == 0x200
                &&& barriers@[i].transition.src_access_mask == 0
                &&& barriers@[i].transition.dst_stage_mask == 0x400
                &&& barriers@[i].transition.dst_access_mask == 0x100
            } by {
                let j = choose|j: int| 0 <= j < queued.len() && queued[j] == barriers@[i].transition;
                if j < old(self).pending@.len() {
                    assert(queued[j] == old(self).pending@[j]);
                }
            }
        }
        self.pending = Vec::new();
        RenderPassPlan {
            color,
            depth: depth_attachment,
            stencil: stencil_attachment,
            extent,
            barriers,
        }
    }
}

} // verus!
