//! Descriptions that callers hand to the render hardware interface.
use vstd::prelude::*;

verus! {

/// Errors reported by queue submission and presentation.
#[derive(Clone, Copy, Debug, PartialEq, Eq, Structural)]
pub enum Error {
    DeviceLost,
    SurfaceLost,
    SwapchainOutOfDate,
    /// Any other Vulkan result, by its raw code.
    OtherError(i32),
}

#[derive(Clone, Copy, Debug, PartialEq, Eq, Structural)]
pub enum CompareOp {
    Never,
    Less,
    Equal,
    LessOrEqual,
    Greater,
    NotEqual,
    GreaterOrEqual,
    Always,
}

#[derive(Clone, Copy, Debug, PartialEq, Eq, Structural)]
pub enum StencilOp {
    Keep,
    Zero,
    Replace,
    IncrementAndClamp,
    DecrementAndClamp,
    Invert,
    IncrementAndWrap,
    DecrementAndWrap,
}

#[derive(Clone, Copy, Debug, PartialEq, Eq, Structural)]
pub struct StencilInfo {
    pub compare_op: CompareOp,
    pub fail_op: StencilOp,
    pub pass_op: StencilOp,
    pub depth_fail_op: StencilOp,
    pub reference: u32,
    pub read_mask: u32,
    pub write_mask: u32,
}

impl Default for StencilInfo {
    /// Always passes, keeps every value, and reads and writes every bit.
    fn default() -> (r: Self)
        ensures
            r == (StencilInfo {
                compare_op: CompareOp::Always,
                fail_op: StencilOp::Keep,
                pass_op: StencilOp::Keep,
                depth_fail_op: StencilOp::Keep,
                reference: 0,
                read_mask: u32::MAX,
                write_mask: u32::MAX,
            }),
    {
        StencilInfo {
            compare_op: CompareOp::Always,
            fail_op: StencilOp::Keep,
            pass_op: StencilOp::Keep,
            depth_fail_op: StencilOp::Keep,
            reference: 0,
            read_mask: u32::MAX,
            write_mask: u32::MAX,
        }
    }
}

#[derive(Clone, Copy, Debug, PartialEq, Eq, Structural)]
pub enum BlendOp {
    Add,
    Subtract,
    ReverseSubtract,
    Min,
    Max,
}

#[derive(Clone, Copy, Debug, PartialEq, Eq, Structural)]
pub enum BlendFactor {
    Zero,
    One,
    SrcColor,
    OneMinusSrcColor,
    DstColor,
    OneMinusDstColor,
    SrcAlpha,
    OneMinusSrcAlpha,
    DstAlpha,
    OneMinusDstAlpha,
    ConstantColor,
    OneMinusConstantColor,
    ConstantAlpha,
    OneMinusConstantAlpha,
    SrcAlphaSaturate,
    Src1Color,
    OneMinusSrc1Color,
    Src1Alpha,
    OneMinusSrc1Alpha,
}

#[derive(Clone, Copy, Debug, PartialEq, Eq, Structural)]
pub struct BlendState {
    pub color_op: BlendOp,
    pub src_color_factor: BlendFactor,
    pub dst_color_factor: BlendFactor,
    pub alpha_op: BlendOp,
    pub src_alpha_factor: BlendFactor,
    pub dst_alpha_factor: BlendFactor,
}

#[derive(Clone, Copy, Debug, PartialEq, Eq, Structural)]
pub enum LoadOp {
    Load,
    Clear,
    DontCare,
}

#[derive(Clone, Copy, Debug, PartialEq, Eq, Structural)]
pub enum StoreOp {
    Store,
    DontCare,
}

#[derive(Clone, Copy, Debug, PartialEq, Eq, Structural)]
pub enum Topology {
    PointList,
    LineList,
    LineStrip,
    TriangleList,
    TriangleStrip,
    TriangleFan,
}

#[derive(Clone, Copy, Debug, PartialEq, Eq, Structural)]
pub enum Cull {
    CCW,
    CW,
    BOTH,
    NONE,
}

#[derive(Clone, Copy, Debug, PartialEq, Eq, Structural)]
pub enum Memory {
    Default,
    DeviceOnly,
    HostCoherent,
}

#[derive(Clone, Copy, Debug, PartialEq, Eq, Structural)]
pub enum BufferUsage {
    General,
    DescriptorHeap,
}

#[derive(Clone, Copy, Debug, PartialEq, Eq, Structural)]
pub struct BufferDesc {
    pub memory: Memory,
    pub size: u64,
    pub usage: BufferUsage,
}

#[derive(Clone, Copy, Debug, PartialEq, Eq, Structural)]
pub enum ImageUsage {
    Sampled,
    Storage,
    Attachment,
}

#[derive(Clone, Copy, Debug, PartialEq, Eq, Structural)]
pub enum ImageType {
    Type1D,
    Type2D,
    Type3D,
}

/// A Vulkan format, by its raw `VkFormat` value.
#[derive(Clone, Copy, Debug, PartialEq, Eq, Structural)]
pub struct Format {
    pub raw: i32,
}

impl Format {
    /// `VK_FORMAT_UNDEFINED`.
    pub fn undefined() -> (r: Format)
        ensures
            r.raw == 0,
    {
        Format { raw: 0 }
    }
}

#[derive(Clone, Copy, Debug)]
pub struct ImageDesc {
    pub ty: ImageType,
    pub dimensions: [u32; 3],
    pub mip_count: u32,
    pub layer_count: u32,
    pub sample_count: u32,
    pub format: Format,
    pub usage: ImageUsage,
}

impl Default for ImageDesc {
    /// An empty sampled 2D image with one mip level, one layer and one sample.
    fn default() -> (r: Self)
        ensures
            r.ty == ImageType::Type2D,
            r.dimensions@ == seq![0u32, 0u32, 0u32],
            r.mip_count == 1,
            r.layer_count == 1,
            r.sample_count == 1,
            r.format.raw == 0,
            r.usage == ImageUsage::Sampled,
    {
        ImageDesc {
            ty: ImageType::Type2D,
            dimensions: [0, 0, 0],
            mip_count: 1,
            layer_count: 1,
            sample_count: 1,
            format: Format::undefined(),
            usage: ImageUsage::Sampled,
        }
    }
}

#[derive(Clone, Copy, Debug, PartialEq, Eq, Structural)]
pub enum Filter {
    Nearest,
    Linear,
}

#[derive(Clone, Copy, Debug, PartialEq, Eq, Structural)]
pub enum MipmapMode {
    Nearest,
    Linear,
}

#[derive(Clone, Copy, Debug, PartialEq, Eq, Structural)]
pub enum SamplerAddressMode {
    Repeat,
    MirroredRepeat,
    ClampToEdge,
    ClampToBorder,
    MirrorClampToEdge,
}

#[derive(Clone, Copy, Debug, PartialEq, Eq, Structural)]
pub enum QueueType {
    Graphics,
}

/// A pipeline stage that synchronization waits for or signals after.
#[derive(Clone, Copy, Debug, PartialEq, Eq, Structural)]
pub enum Stage {
    NoStage,
    TopOfPipe,
    DrawIndirect,
    VertexShader,
    FragmentShader,
    EarlyFragmentTests,
    LateFragmentTests,
    ColorAttachmentOutput,
    ComputeShader,
    Transfer,
    BottomOfPipe,
    AllGraphics,
    AllCommands,
    Host,
    Copy,
    Resolve,
    Blit,
    Clear,
    TaskShader,
    MeshShader,
}

#[derive(Clone, Copy, Debug, PartialEq, Eq, Structural)]
pub enum ImageLayout {
    Undefined,
    General,
    Attachment,
    ShaderReadOnlyOptimal,
    TransferSrcOptimal,
    TransferDstOptimal,
    RenderingLocalRead,
    PresentSrc,
}

#[derive(Clone, Copy, Debug)]
pub struct ImageCopyInfo {
    pub src_offset: [u32; 3],
    pub dst_offset: [u32; 3],
    pub extent: [u32; 3],
}

#[derive(Clone, Copy, Debug)]
pub struct ImageBlitInfo {
    pub src_offset: [u32; 3],
    pub dst_offset: [u32; 3],
    pub src_extent: [u32; 3],
    pub dst_extent: [u32; 3],
}

/// What a pipeline is bound as.
#[derive(Clone, Copy, Debug, PartialEq, Eq, Structural)]
pub enum PipelineType {
    Graphics,
    Compute,
}

/// The limits of `VK_EXT_descriptor_heap` that a physical device reports.
#[derive(Clone, Copy, Debug, PartialEq, Eq, Structural)]
pub struct DescriptorHeapProps {
    pub sampler_descriptor_size: u64,
    pub image_descriptor_size: u64,
    pub buffer_descriptor_size: u64,
    pub sampler_heap_alignment: u64,
    pub resource_heap_alignment: u64,
    pub min_sampler_heap_reserved_range: u64,
    pub min_resource_heap_reserved_range: u64,
    pub max_resource_heap_size: u64,
    pub max_sampler_heap_size: u64,
    pub max_push_data_size: u64,
}

/// The stages a shader can be written for.
#[derive(Clone, Copy, Debug, PartialEq, Eq, Structural)]
pub enum ShaderStage {
    Vertex,
    Fragment,
    Compute,
    Mesh,
}

/// An image descriptor as the device writes it into a heap.
#[derive(Clone, Copy, Debug)]
pub struct ImageDescriptor {
    pub inner: [u64; 4],
}

/// A sampler descriptor as the device writes it into a heap.
#[derive(Clone, Copy, Debug)]
pub struct SamplerDescriptor {
    pub inner: [u64; 4],
}

/// The window systems that a surface can be made for.
#[derive(Clone, Copy, Debug, PartialEq, Eq, Structural)]
pub enum WindowingSystem {
    NoSystem,
    AppKit,
    UiKit,
    Windows,
    Xlib,
    Xcb,
    Wayland,
}

/// A semaphore that can be waited on from the host.
pub trait SemaphoreRHI {
    fn wait(&mut self, value: u64);
}

/// A swapchain: hands out images to render to and presents them.
pub trait SwapchainRHI {
    fn acquire_next_image(&mut self) -> Result<crate::gpu_ptr::GpuPtr, Error>;

    fn present(&mut self, swapchain_image: crate::gpu_ptr::GpuPtr) -> Result<(), Error>;
}

/// A command buffer that can render to a swapchain image.
pub trait SwapchainCommandRHI {
    fn begin_presenting(&mut self, swapchain_image: crate::gpu_ptr::GpuPtr);
}

} // verus!
