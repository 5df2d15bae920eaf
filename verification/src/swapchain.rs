//! Swapchain bookkeeping: how many images and semaphores a swapchain keeps,
//! which semaphore each frame acquires with, and which semaphores tie an
//! acquired image to its submission and its presentation.
use vstd::prelude::*;
use crate::gpu_ptr::GpuPtr;
use crate::heap::{DescriptorHeap, Entry, ImageData, ImageInfo, ResourceInfo};
use crate::rhi::{Error, Format, ImageDesc, ImageType, ImageUsage};
use crate::vk_map::VK_NOT_READY;

verus! {

/// `VK_PRESENT_MODE_MAILBOX_KHR`.
pub const PRESENT_MODE_MAILBOX: i32 = 1i32;

/// `VK_PRESENT_MODE_FIFO_KHR`.
pub const PRESENT_MODE_FIFO: i32 = 2i32;

/// `VK_FORMAT_R8G8B8A8_SRGB`.
pub const FORMAT_R8G8B8A8_SRGB: i32 = 43i32;

/// `VK_COLOR_SPACE_SRGB_NONLINEAR_KHR`.
pub const COLOR_SPACE_SRGB_NONLINEAR: i32 = 0i32;

/// What a swapchain is asked for.
#[derive(Clone, Copy, Debug, PartialEq, Eq, Structural)]
pub struct SwapchainInfo {
    /// The number of frames in flight.
    pub size: u32,
    pub format: Format,
    /// The raw `VkColorSpaceKHR`.
    pub color_space: i32,
}

/// How many objects a swapchain keeps for `size` frames in flight.
#[derive(Clone, Copy, Debug, PartialEq, Eq, Structural)]
pub struct PresentationCounts {
    /// One acquire semaphore per frame in flight.
    pub acquire_semaphores: u32,
    /// One more submit semaphore than frames in flight.
    pub submit_semaphores: u32,
    /// The least number of images that the swapchain is created with.
    pub min_image_count: u32,
}

/// The objects a swapchain keeps for `info.size` frames in flight.
pub fn presentation_counts(info: &SwapchainInfo) -> (r: PresentationCounts)
    requires
        info.size < u32::MAX,
    ensures
        r.acquire_semaphores == info.size,
        r.submit_semaphores == info.size + 1,
        r.min_image_count == info.size + 1,
{
    PresentationCounts {
        acquire_semaphores: info.size,
        submit_semaphores: info.size + 1,
        min_image_count: info.size + 1,
    }
}

/// Mailbox presentation where the surface offers it, else FIFO, which every
/// surface offers.
pub fn choose_present_mode(modes: &Vec<i32>) -> (r: i32)
    ensures
        modes@.contains(PRESENT_MODE_MAILBOX) ==> r == PRESENT_MODE_MAILBOX,
        !modes@.contains(PRESENT_MODE_MAILBOX) ==> r == PRESENT_MODE_FIFO,
{
    let mut i: usize = 0;
    while i < modes.len()
        invariant
            0 <= i <= modes@.len(),
            forall|k: int| 0 <= k < i ==> modes@[k] != PRESENT_MODE_MAILBOX,
        decreases modes@.len() - i,
    {
        if modes[i] == PRESENT_MODE_MAILBOX {
            return PRESENT_MODE_MAILBOX;
        }
        i = i + 1;
    }
    PRESENT_MODE_FIFO
}

/// A surface format: a raw `VkFormat` and a raw `VkColorSpaceKHR`.
#[derive(Clone, Copy, Debug, PartialEq, Eq, Structural)]
pub struct SurfaceFormat {
    pub format: i32,
    pub color_space: i32,
}

/// Whether a surface format is 8-bit sRGB RGBA in the nonlinear sRGB space.
pub open spec fn spec_is_preferred_format(f: SurfaceFormat) -> bool {
    f.color_space == COLOR_SPACE_SRGB_NONLINEAR && f.format == FORMAT_R8G8B8A8_SRGB
}

/// The first surface format that is 8-bit sRGB RGBA in the nonlinear sRGB
/// space, or else the first of all; returns its index.
pub fn choose_surface_format(formats: &Vec<SurfaceFormat>) -> (r: usize)
    requires
        formats@.len() > 0,
    ensures
        r < formats@.len(),
        forall|k: int| 0 <= k < r ==> !spec_is_preferred_format(#[trigger] formats@[k]),
        spec_is_preferred_format(formats@[r as int]) || (r == 0 && forall|k: int|
            0 <= k < formats@.len() ==> !spec_is_preferred_format(#[trigger] formats@[k])),
        (formats@[r as int].format == 43 && formats@[r as int].color_space == 0) || (r == 0
            && forall|k: int|
            0 <= k < formats@.len() ==> !((#[trigger] formats@[k]).format == 43 && formats@[k].color_space
                == 0)),
        forall|k: int| 0 <= k < r ==> !((#[trigger] formats@[k]).format == 43 && formats@[k].color_space == 0),
{
    let mut i: usize = 0;
    while i < formats.len()
        invariant
            0 <= i <= formats@.len(),
            forall|k: int| 0 <= k < i ==> !spec_is_preferred_format(#[trigger] formats@[k]),
        decreases formats@.len() - i,
    {
        let f = formats[i];
        if f.color_space == COLOR_SPACE_SRGB_NONLINEAR && f.format == FORMAT_R8G8B8A8_SRGB {
            return i;
        }
        i = i + 1;
    }
    0
}

/// A swapchain cannot be made for a surface with no area: a zero width or
/// height is refused with `VK_NOT_READY`.
pub fn check_surface_extent(width: u32, height: u32) -> (r: Result<(), i32>)
    ensures
        r is Err <==> (width == 0 || height == 0),
        r matches Err(code) ==> code == VK_NOT_READY,
{
    if height == 0 || width == 0 {
        Err(VK_NOT_READY)
    } else {
        Ok(())
    }
}

/// What a failed image acquisition reports once the swapchain has been made
/// anew: the error of making it anew, if that failed, else that the swapchain
/// was out of date.
pub fn acquire_failure(recreated: Result<(), Error>) -> (r: Error)
    ensures
        match recreated {
            Ok(()) => r == Error::SwapchainOutOfDate,
            Err(e) => r == e,
        },
{
    match recreated {
        Ok(()) => Error::SwapchainOutOfDate,
        Err(e) => e,
    }
}

/// The description that the heap records for a swapchain image of the given
/// size and format.
pub fn swapchain_image_desc(width: u32, height: u32, format: Format) -> (r: ImageDesc)
    ensures
        r.ty == ImageType::Type2D,
        r.dimensions@ == seq![width, height, 1u32],
        r.mip_count == 1,
        r.layer_count == 1,
        r.sample_count == 1,
        r.format == format,
        r.usage == ImageUsage::Attachment,
{
    ImageDesc {
        ty: ImageType::Type2D,
        dimensions: [width, height, 1],
        mip_count: 1,
        layer_count: 1,
        sample_count: 1,
        format,
        usage: ImageUsage::Attachment,
    }
}

/// Whether `d` describes a swapchain image of the given size and format.
pub open spec fn spec_is_swapchain_desc(d: ImageDesc, width: u32, height: u32, format: Format) -> bool {
    &&& d.ty == ImageType::Type2D
    &&& d.dimensions@ == seq![width, height, 1u32]
    &&& d.mip_count == 1
    &&& d.layer_count == 1
    &&& d.sample_count == 1
    &&& d.format == format
    &&& d.usage == ImageUsage::Attachment
}

/// Whether `e` is the swapchain image with index `index` of the given size
/// and format, in the layout it was filed with, with objects `payload`.
pub open spec fn spec_is_swapchain_entry<P>(
    e: Entry<P>,
    index: u32,
    width: u32,
    height: u32,
    format: Format,
    payload: P,
) -> bool {
    &&& e.payload == payload
    &&& match e.info {
        ResourceInfo::Image(i) => {
            &&& i.data == ImageData::Swapchain { index }
            &&& i.layout == 0
            &&& spec_is_swapchain_desc(i.desc, width, height, format)
        },
        ResourceInfo::Buffer(_) => false,
    }
}

/// The semaphores that tie one acquired image to its submission and its
/// presentation, by raw handle.
#[derive(Clone, Copy, Debug, PartialEq, Eq, Structural)]
pub struct ImageSemaphores {
    /// Signalled when the image is acquired; submission waits on it.
    pub submit_wait: u64,
    /// Signalled by submission; presentation waits on it.
    pub present_wait: u64,
}

/// An image that acquisition handed out.
#[derive(Clone, Copy, Debug, PartialEq, Eq, Structural)]
pub struct AcquiredImage {
    pub image: GpuPtr,
    pub index: u32,
    pub semaphores: ImageSemaphores,
}

/// The frame counter and presentation objects of a swapchain.
pub struct SwapchainState {
    frame_index: u64,
    acquire_semaphores: Vec<u64>,
    submit_semaphores: Vec<u64>,
    image_handles: Vec<GpuPtr>,
    image_semaphores: Vec<ImageSemaphores>,
}

/// The values a `SwapchainState` holds.
pub struct SwapchainView {
    pub frame_index: u64,
    pub acquire_semaphores: Seq<u64>,
    pub submit_semaphores: Seq<u64>,
    pub image_handles: Seq<GpuPtr>,
    pub image_semaphores: Seq<ImageSemaphores>,
}

impl View for SwapchainState {
    type V = SwapchainView;

    closed spec fn view(&self) -> SwapchainView {
        SwapchainView {
            frame_index: self.frame_index,
            acquire_semaphores: self.acquire_semaphores@,
            submit_semaphores: self.submit_semaphores@,
            image_handles: self.image_handles@,
            image_semaphores: self.image_semaphores@,
        }
    }
}

/// The acquire semaphore slot that frame `frame_index` uses.
pub open spec fn spec_acquire_slot(frame_index: u64, frames_in_flight: nat) -> int {
    (frame_index as usize) as int % (frames_in_flight as int)
}

impl SwapchainState {
    /// Every image has its semaphore pair.
    #[verifier::type_invariant]
    closed spec fn wf(&self) -> bool {
        self.image_semaphores@.len() == self.image_handles@.len()
    }

    /// A swapchain at frame 0 with no presentation objects yet.
    pub fn new() -> (r: SwapchainState)
        ensures
            r@.frame_index == 0,
            r@.acquire_semaphores.len() == 0,
            r@.submit_semaphores.len() == 0,
            r@.image_handles.len() == 0,
            r@.image_semaphores.len() == 0,
    {
        SwapchainState {
            frame_index: 0,
            acquire_semaphores: Vec::new(),
            submit_semaphores: Vec::new(),
            image_handles: Vec::new(),
            image_semaphores: Vec::new(),
        }
    }

    /// Installs fresh presentation objects; no image has semaphores yet
    /// (each pair is the null handle). The frame counter carries on.
    pub fn set_resources(
        &mut self,
        acquire_semaphores: Vec<u64>,
        submit_semaphores: Vec<u64>,
        image_handles: Vec<GpuPtr>,
    )
        ensures
            final(self)@.frame_index == old(self)@.frame_index,
            final(self)@.acquire_semaphores == acquire_semaphores@,
            final(self)@.submit_semaphores == submit_semaphores@,
            final(self)@.image_handles == image_handles@,
            final(self)@.image_semaphores.len() == image_handles@.len(),
            forall|i: int| 0 <= i < image_handles@.len() ==> #[trigger] final(self)@.image_semaphores[i]
                == (ImageSemaphores { submit_wait: 0, present_wait: 0 }),
    {
        let mut sems: Vec<ImageSemaphores> = Vec::new();
        let mut i: usize = 0;
        while i < image_handles.len()
            invariant
                0 <= i <= image_handles@.len(),
                sems@.len() == i,
                forall|k: int| 0 <= k < i ==> #[trigger] sems@[k] == (ImageSemaphores {
                    submit_wait: 0,
                    present_wait: 0,
                }),
            decreases image_handles@.len() - i,
        {
            sems.push(ImageSemaphores { submit_wait: 0, present_wait: 0 });
            i = i + 1;
        }
        *self = SwapchainState {
            frame_index: self.frame_index,
            acquire_semaphores,
            submit_semaphores,
            image_handles,
            image_semaphores: sems,
        };
    }

    /// Hands back the presentation objects so they can be destroyed, and
    /// keeps none.
    pub fn take_resources(&mut self) -> (r: (Vec<u64>, Vec<u64>, Vec<GpuPtr>))
        ensures
            r.0@ == old(self)@.acquire_semaphores,
            r.1@ == old(self)@.submit_semaphores,
            r.2@ == old(self)@.image_handles,
            final(self)@.frame_index == old(self)@.frame_index,
            final(self)@.acquire_semaphores.len() == 0,
            final(self)@.submit_semaphores.len() == 0,
            final(self)@.image_handles.len() == 0,
            final(self)@.image_semaphores.len() == 0,
    {
        let mut emptied = SwapchainState {
            frame_index: self.frame_index,
            acquire_semaphores: Vec::new(),
            submit_semaphores: Vec::new(),
            image_handles: Vec::new(),
            image_semaphores: Vec::new(),
        };
        std::mem::swap(self, &mut emptied);
        let SwapchainState { acquire_semaphores, submit_semaphores, image_handles, .. } = emptied;
        (acquire_semaphores, submit_semaphores, image_handles)
    }

    /// The semaphore that the current frame acquires its image with: the
    /// frames in flight take the acquire semaphores in turn.
    pub fn acquire_semaphore(&self) -> (r: u64)
        requires
            self@.acquire_semaphores.len() > 0,
        ensures
            r == self@.acquire_semaphores[spec_acquire_slot(
                self@.frame_index,
                self@.acquire_semaphores.len(),
            )],
    {
        let slot = (self.frame_index as usize) % self.acquire_semaphores.len();
        self.acquire_semaphores[slot]
    }

    /// Records that image `index` was acquired for the current frame: its
    /// submission waits on the frame's acquire semaphore and signals the
    /// image's own submit semaphore, which presentation waits on. The frame
    /// counter moves on.
    pub fn complete_acquire(&mut self, index: u32) -> (r: AcquiredImage)
        requires
            old(self)@.acquire_semaphores.len() > 0,
            index < old(self)@.image_handles.len(),
            index < old(self)@.submit_semaphores.len(),
            old(self)@.frame_index < u64::MAX,
        ensures
            r.index == index,
            r.image == old(self)@.image_handles[index as int],
            r.semaphores == (ImageSemaphores {
                submit_wait: old(self)@.acquire_semaphores[spec_acquire_slot(
                    old(self)@.frame_index,
                    old(self)@.acquire_semaphores.len(),
                )],
                present_wait: old(self)@.submit_semaphores[index as int],
            }),
            final(self)@.image_semaphores == old(self)@.image_semaphores.update(index as int, r.semaphores),
            final(self)@.image_semaphores.len() == final(self)@.image_handles.len(),
            final(self)@.frame_index == old(self)@.frame_index + 1,
            final(self)@.acquire_semaphores == old(self)@.acquire_semaphores,
            final(self)@.submit_semaphores == old(self)@.submit_semaphores,
            final(self)@.image_handles == old(self)@.image_handles,
    {
        proof {
            use_type_invariant(&*self);
        }
        let acquire = self.acquire_semaphore();
        let sems = ImageSemaphores {
            submit_wait: acquire,
            present_wait: self.submit_semaphores[index as usize],
        };
        let image = self.image_handles[index as usize];
        let mut emptied = SwapchainState {
            frame_index: self.frame_index,
            acquire_semaphores: Vec::new(),
            submit_semaphores: Vec::new(),
            image_handles: Vec::new(),
            image_semaphores: Vec::new(),
        };
        std::mem::swap(self, &mut emptied);
        let SwapchainState {
            frame_index,
            acquire_semaphores,
            submit_semaphores,
            image_handles,
            mut image_semaphores,
        } = emptied;
        image_semaphores.set(index as usize, sems);
        *self = SwapchainState {
            frame_index: frame_index + 1,
            acquire_semaphores,
            submit_semaphores,
            image_handles,
            image_semaphores,
        };
        AcquiredImage { image, index, semaphores: sems }
    }

    /// The semaphore that presenting image `index` waits on.
    pub fn present_semaphore(&self, index: u32) -> (r: u64)
        requires
            index < self@.image_handles.len(),
        ensures
            r == self@.image_semaphores[index as int].present_wait,
    {
        proof {
            use_type_invariant(self);
        }
        self.image_semaphores[index as usize].present_wait
    }

    /// The number of acquire semaphores: one per frame in flight.
    pub fn acquire_semaphore_count(&self) -> (r: usize)
        ensures
            r == self@.acquire_semaphores.len(),
    {
        self.acquire_semaphores.len()
    }

    /// The number of submit semaphores.
    pub fn submit_semaphore_count(&self) -> (r: usize)
        ensures
            r == self@.submit_semaphores.len(),
    {
        self.submit_semaphores.len()
    }

    /// The number of swapchain images.
    pub fn image_count(&self) -> (r: usize)
        ensures
            r == self@.image_handles.len(),
    {
        self.image_handles.len()
    }

    /// The frame counter.
    pub fn frame_index(&self) -> (r: u64)
        ensures
            r == self@.frame_index,
    {
        self.frame_index
    }
}

/// Files the images of a swapchain in the heap, image `i` with the objects
/// `payloads[i]` under the `i`-th fresh handle, and installs them with the
/// given semaphores as the swapchain's presentation objects.
pub fn install_swapchain_images<P>(
    heap: &mut DescriptorHeap<P>,
    state: &mut SwapchainState,
    width: u32,
    height: u32,
    format: Format,
    payloads: Vec<P>,
    acquire_semaphores: Vec<u64>,
    submit_semaphores: Vec<u64>,
) -> (r: Vec<GpuPtr>)
    requires
        old(heap).next_handle() + payloads@.len() <= u64::MAX,
        payloads@.len() <= u32::MAX,
    ensures
        r@.len() == payloads@.len(),
        final(heap).next_handle() == old(heap).next_handle() + payloads@.len(),
        forall|i: int| 0 <= i < r@.len() ==> (#[trigger] r@[i])@.handle == old(heap).next_handle() + i,
        forall|i: int|
            0 <= i < r@.len() ==> final(heap)@.contains_key((#[trigger] r@[i])@.handle)
                && spec_is_swapchain_entry(
                final(heap)@[r@[i]@.handle],
                i as u32,
                width,
                height,
                format,
                payloads@[i],
            ),
        forall|h: u64| #[trigger] old(heap)@.contains_key(h) ==> final(heap)@.contains_key(h)
            && final(heap)@[h] == old(heap)@[h],
        forall|h: u64| #[trigger] final(heap)@.contains_key(h) ==> old(heap)@.contains_key(h) || (
        old(heap).next_handle() <= h < old(heap).next_handle() + payloads@.len()),
        final(state)@.image_handles == r@,
        final(state)@.acquire_semaphores == acquire_semaphores@,
        final(state)@.submit_semaphores == submit_semaphores@,
        final(state)@.frame_index == old(state)@.frame_index,
        final(state)@.image_semaphores.len() == r@.len(),
        forall|i: int| 0 <= i < r@.len() ==> #[trigger] final(state)@.image_semaphores[i]
            == (ImageSemaphores { submit_wait: 0, present_wait: 0 }),
{
    let n = payloads.len();
    let ghost orig = payloads@;
    let ghost h0 = heap@;
    let ghost n0 = heap.next_handle();
    let mut rest = payloads;
    let mut handles: Vec<GpuPtr> = Vec::new();
    let mut installed: Vec<GpuPtr> = Vec::new();
    let mut i: usize = 0;
    while i < n
        invariant
            n == orig.len(),
            n0 + n <= u64::MAX,
            n <= u32::MAX,
            0 <= i <= n,
            rest@ == orig.skip(i as int),
            handles@.len() == i,
            installed@ == handles@,
            heap.next_handle() == n0 + i,
            forall|k: int| 0 <= k < i ==> (#[trigger] handles@[k])@.handle == n0 + k,
            forall|k: int|
                0 <= k < i ==> heap@.contains_key((#[trigger] handles@[k])@.handle) && spec_is_swapchain_entry(
                    heap@[handles@[k]@.handle],
                    k as u32,
                    width,
                    height,
                    format,
                    orig[k],
                ),
            forall|h: u64| #[trigger] h0.contains_key(h) ==> heap@.contains_key(h) && heap@[h] == h0[h],
            forall|h: u64| #[trigger] heap@.contains_key(h) ==> h0.contains_key(h) || (n0 <= h < n0 + i),
        decreases n - i,
    {
        assert(rest@.len() > 0);
        let payload = rest.remove(0);
        assert(payload == orig[i as int]);
        assert(rest@ =~= orig.skip(i as int + 1));
        let desc = swapchain_image_desc(width, height, format);
        let ghost before = heap@;
        let ptr = heap.insert_swapchain_image(desc, i as u32, payload);
        assert(ptr@.handle == n0 + i);
        assert(!before.contains_key(ptr@.handle));
        let ghost hbefore = handles@;
        handles.push(ptr);
        installed.push(ptr);
        assert forall|k: int| 0 <= k < i + 1 implies heap@.contains_key((#[trigger] handles@[k])@.handle)
            && spec_is_swapchain_entry(heap@[handles@[k]@.handle], k as u32, width, height, format, orig[k]) by {
            if k < i {
                assert(handles@[k] == hbefore[k]);
                assert(before.contains_key(hbefore[k]@.handle));
                assert(handles@[k]@.handle != ptr@.handle);
            }
        }
        i = i + 1;
    }
    state.set_resources(acquire_semaphores, submit_semaphores, installed);
    handles
}

} // verus!
