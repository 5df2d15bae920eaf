//! The Vulkan values that the interface's descriptions select.
use vstd::prelude::*;
use crate::rhi::{
    BlendFactor, BlendOp, BufferUsage, CompareOp, Cull, Error, Filter, ImageLayout, ImageType,
    ImageUsage, LoadOp, Memory, MipmapMode, PipelineType, SamplerAddressMode, Stage, StencilOp,
    StoreOp, Topology,
};

verus! {

/// The `VkCompareOp` value of each `CompareOp`.
pub open spec fn spec_compare_op(v: CompareOp) -> i32 {
    match v {
        CompareOp::Never => 0,
        CompareOp::Less => 1,
        CompareOp::Equal => 2,
        CompareOp::LessOrEqual => 3,
        CompareOp::Greater => 4,
        CompareOp::NotEqual => 5,
        CompareOp::GreaterOrEqual => 6,
        CompareOp::Always => 7,
    }
}

/// The `VkCompareOp` value of `v`.
pub fn compare_op(v: CompareOp) -> (r: i32)
    ensures
        r == spec_compare_op(v),
{
    match v {
        CompareOp::Never => 0,
        CompareOp::Less => 1,
        CompareOp::Equal => 2,
        CompareOp::LessOrEqual => 3,
        CompareOp::Greater => 4,
        CompareOp::NotEqual => 5,
        CompareOp::GreaterOrEqual => 6,
        CompareOp::Always => 7,
    }
}

/// The `VkStencilOp` value of each `StencilOp`.
pub open spec fn spec_stencil_op(v: StencilOp) -> i32 {
    match v {
        StencilOp::Keep => 0,
        StencilOp::Zero => 1,
        StencilOp::Replace => 2,
        StencilOp::IncrementAndClamp => 3,
        StencilOp::DecrementAndClamp => 4,
        StencilOp::Invert => 5,
        StencilOp::IncrementAndWrap => 6,
        StencilOp::DecrementAndWrap => 7,
    }
}

/// The `VkStencilOp` value of `v`.
pub fn stencil_op(v: StencilOp) -> (r: i32)
    ensures
        r == spec_stencil_op(v),
{
    match v {
        StencilOp::Keep => 0,
        StencilOp::Zero => 1,
        StencilOp::Replace => 2,
        StencilOp::IncrementAndClamp => 3,
        StencilOp::DecrementAndClamp => 4,
        StencilOp::Invert => 5,
        StencilOp::IncrementAndWrap => 6,
        StencilOp::DecrementAndWrap => 7,
    }
}

/// The `VkBlendOp` value of each `BlendOp`.
pub open spec fn spec_blend_op(v: BlendOp) -> i32 {
    match v {
        BlendOp::Add => 0,
        BlendOp::Subtract => 1,
        BlendOp::ReverseSubtract => 2,
        BlendOp::Min => 3,
        BlendOp::Max => 4,
    }
}

/// The `VkBlendOp` value of `v`.
pub fn blend_op(v: BlendOp) -> (r: i32)
    ensures
        r == spec_blend_op(v),
{
    match v {
        BlendOp::Add => 0,
        BlendOp::Subtract => 1,
        BlendOp::ReverseSubtract => 2,
        BlendOp::Min => 3,
        BlendOp::Max => 4,
    }
}

/// The `VkBlendFactor` value of each `BlendFactor`.
pub open spec fn spec_blend_factor(v: BlendFactor) -> i32 {
    match v {
        BlendFactor::Zero => 0,
        BlendFactor::One => 1,
        BlendFactor::SrcColor => 2,
        BlendFactor::OneMinusSrcColor => 3,
        BlendFactor::DstColor => 4,
        BlendFactor::OneMinusDstColor => 5,
        BlendFactor::SrcAlpha => 6,
        BlendFactor::OneMinusSrcAlpha => 7,
        BlendFactor::DstAlpha => 8,
        BlendFactor::OneMinusDstAlpha => 9,
        BlendFactor::ConstantColor => 10,
        BlendFactor::OneMinusConstantColor => 11,
        BlendFactor::ConstantAlpha => 12,
        BlendFactor::OneMinusConstantAlpha => 13,
        BlendFactor::SrcAlphaSaturate => 14,
        BlendFactor::Src1Color => 15,
        BlendFactor::OneMinusSrc1Color => 16,
        BlendFactor::Src1Alpha => 17,
        BlendFactor::OneMinusSrc1Alpha => 18,
    }
}

/// The `VkBlendFactor` value of `v`.
pub fn blend_factor(v: BlendFactor) -> (r: i32)
    ensures
        r == spec_blend_factor(v),
{
    match v {
        BlendFactor::Zero => 0,
        BlendFactor::One => 1,
        BlendFactor::SrcColor => 2,
        BlendFactor::OneMinusSrcColor => 3,
        BlendFactor::DstColor => 4,
        BlendFactor::OneMinusDstColor => 5,
        BlendFactor::SrcAlpha => 6,
        BlendFactor::OneMinusSrcAlpha => 7,
        BlendFactor::DstAlpha => 8,
        BlendFactor::OneMinusDstAlpha => 9,
        BlendFactor::ConstantColor => 10,
        BlendFactor::OneMinusConstantColor => 11,
        BlendFactor::ConstantAlpha => 12,
        BlendFactor::OneMinusConstantAlpha => 13,
        BlendFactor::SrcAlphaSaturate => 14,
        BlendFactor::Src1Color => 15,
        BlendFactor::OneMinusSrc1Color => 16,
        BlendFactor::Src1Alpha => 17,
        BlendFactor::OneMinusSrc1Alpha => 18,
    }
}

/// The `VkAttachmentLoadOp` value of each `LoadOp`.
pub open spec fn spec_load_op(v: LoadOp) -> i32 {
    match v {
        LoadOp::Load => 0,
        LoadOp::Clear => 1,
        LoadOp::DontCare => 2,
    }
}

/// The `VkAttachmentLoadOp` value of `v`.
pub fn load_op(v: LoadOp) -> (r: i32)
    ensures
        r == spec_load_op(v),
{
    match v {
        LoadOp::Load => 0,
        LoadOp::Clear => 1,
        LoadOp::DontCare => 2,
    }
}

/// The `VkAttachmentStoreOp` value of each `StoreOp`.
pub open spec fn spec_store_op(v: StoreOp) -> i32 {
    match v {
        StoreOp::Store => 0,
        StoreOp::DontCare => 1,
    }
}

/// The `VkAttachmentStoreOp` value of `v`.
pub fn store_op(v: StoreOp) -> (r: i32)
    ensures
        r == spec_store_op(v),
{
    match v {
        StoreOp::Store => 0,
        StoreOp::DontCare => 1,
    }
}

/// The `VkPrimitiveTopology` value of each `Topology`.
pub open spec fn spec_topology(v: Topology) -> i32 {
    match v {
        Topology::PointList => 0,
        Topology::LineList => 1,
        Topology::LineStrip => 2,
        Topology::TriangleList => 3,
        Topology::TriangleStrip => 4,
        Topology::TriangleFan => 5,
    }
}

/// The `VkPrimitiveTopology` value of `v`.
pub fn topology(v: Topology) -> (r: i32)
    ensures
        r == spec_topology(v),
{
    match v {
        Topology::PointList => 0,
        Topology::LineList => 1,
        Topology::LineStrip => 2,
        Topology::TriangleList => 3,
        Topology::TriangleStrip => 4,
        Topology::TriangleFan => 5,
    }
}

/// The `VkImageType` value of each `ImageType`.
pub open spec fn spec_image_type(v: ImageType) -> i32 {
    match v {
        ImageType::Type1D => 0,
        ImageType::Type2D => 1,
        ImageType::Type3D => 2,
    }
}

/// The `VkImageType` value of `v`.
pub fn image_type(v: ImageType) -> (r: i32)
    ensures
        r == spec_image_type(v),
{
    match v {
        ImageType::Type1D => 0,
        ImageType::Type2D => 1,
        ImageType::Type3D => 2,
    }
}

/// The `VkImageViewType` of a view over the whole image value of each `ImageType`.
pub open spec fn spec_image_view_type(v: ImageType) -> i32 {
    match v {
        ImageType::Type1D => 0,
        ImageType::Type2D => 1,
        ImageType::Type3D => 2,
    }
}

/// The `VkImageViewType` of a view over the whole image value of `v`.
pub fn image_view_type(v: ImageType) -> (r: i32)
    ensures
        r == spec_image_view_type(v),
{
    match v {
        ImageType::Type1D => 0,
        ImageType::Type2D => 1,
        ImageType::Type3D => 2,
    }
}

/// The `VkFilter` value of each `Filter`.
pub open spec fn spec_filter(v: Filter) -> i32 {
    match v {
        Filter::Nearest => 0,
        Filter::Linear => 1,
    }
}

/// The `VkFilter` value of `v`.
pub fn filter(v: Filter) -> (r: i32)
    ensures
        r == spec_filter(v),
{
    match v {
        Filter::Nearest => 0,
        Filter::Linear => 1,
    }
}

/// The `VkSamplerMipmapMode` value of each `MipmapMode`.
pub open spec fn spec_mipmap_mode(v: MipmapMode) -> i32 {
    match v {
        MipmapMode::Nearest => 0,
        MipmapMode::Linear => 1,
    }
}

/// The `VkSamplerMipmapMode` value of `v`.
pub fn mipmap_mode(v: MipmapMode) -> (r: i32)
    ensures
        r == spec_mipmap_mode(v),
{
    match v {
        MipmapMode::Nearest => 0,
        MipmapMode::Linear => 1,
    }
}

/// The `VkSamplerAddressMode` value of each `SamplerAddressMode`.
pub open spec fn spec_address_mode(v: SamplerAddressMode) -> i32 {
    match v {
        SamplerAddressMode::Repeat => 0,
        SamplerAddressMode::MirroredRepeat => 1,
        SamplerAddressMode::ClampToEdge => 2,
        SamplerAddressMode::ClampToBorder => 3,
        SamplerAddressMode::MirrorClampToEdge => 4,
    }
}

/// The `VkSamplerAddressMode` value of `v`.
pub fn address_mode(v: SamplerAddressMode) -> (r: i32)
    ensures
        r == spec_address_mode(v),
{
    match v {
        SamplerAddressMode::Repeat => 0,
        SamplerAddressMode::MirroredRepeat => 1,
        SamplerAddressMode::ClampToEdge => 2,
        SamplerAddressMode::ClampToBorder => 3,
        SamplerAddressMode::MirrorClampToEdge => 4,
    }
}

/// The `VkPipelineStageFlags2` value of each `Stage`.
pub open spec fn spec_stage_flags(v: Stage) -> u64 {
    match v {
        Stage::NoStage => 0,
        Stage::TopOfPipe => 0x1,
        Stage::DrawIndirect => 0x2,
        Stage::VertexShader => 0x8,
        Stage::FragmentShader => 0x80,
        Stage::EarlyFragmentTests => 0x100,
        Stage::LateFragmentTests => 0x200,
        Stage::ColorAttachmentOutput => 0x400,
        Stage::ComputeShader => 0x800,
        Stage::Transfer => 0x1000,
        Stage::BottomOfPipe => 0x2000,
        Stage::AllGraphics => 0x8000,
        Stage::AllCommands => 0x10000,
        Stage::Host => 0x4000,
        Stage::Copy => 0x1_0000_0000,
        Stage::Resolve => 0x2_0000_0000,
        Stage::Blit => 0x4_0000_0000,
        Stage::Clear => 0x8_0000_0000,
        Stage::TaskShader => 0x80000,
        Stage::MeshShader => 0x100000,
    }
}

/// The `VkPipelineStageFlags2` value of `v`.
pub fn stage_flags(v: Stage) -> (r: u64)
    ensures
        r == spec_stage_flags(v),
{
    match v {
        Stage::NoStage => 0,
        Stage::TopOfPipe => 0x1,
        Stage::DrawIndirect => 0x2,
        Stage::VertexShader => 0x8,
        Stage::FragmentShader => 0x80,
        Stage::EarlyFragmentTests => 0x100,
        Stage::LateFragmentTests => 0x200,
        Stage::ColorAttachmentOutput => 0x400,
        Stage::ComputeShader => 0x800,
        Stage::Transfer => 0x1000,
        Stage::BottomOfPipe => 0x2000,
        Stage::AllGraphics => 0x8000,
        Stage::AllCommands => 0x10000,
        Stage::Host => 0x4000,
        Stage::Copy => 0x1_0000_0000,
        Stage::Resolve => 0x2_0000_0000,
        Stage::Blit => 0x4_0000_0000,
        Stage::Clear => 0x8_0000_0000,
        Stage::TaskShader => 0x80000,
        Stage::MeshShader => 0x100000,
    }
}

/// The `VkImageLayout` value of each `ImageLayout`.
pub open spec fn spec_image_layout(v: ImageLayout) -> i32 {
    match v {
        ImageLayout::Undefined => 0,
        ImageLayout::General => 1,
        ImageLayout::Attachment => 1000314001,
        ImageLayout::ShaderReadOnlyOptimal => 5,
        ImageLayout::TransferSrcOptimal => 6,
        ImageLayout::TransferDstOptimal => 7,
        ImageLayout::RenderingLocalRead => 1000232000,
        ImageLayout::PresentSrc => 1000001002,
    }
}

/// The `VkImageLayout` value of `v`.
pub fn image_layout(v: ImageLayout) -> (r: i32)
    ensures
        r == spec_image_layout(v),
{
    match v {
        ImageLayout::Undefined => 0,
        ImageLayout::General => 1,
        ImageLayout::Attachment => 1000314001,
        ImageLayout::ShaderReadOnlyOptimal => 5,
        ImageLayout::TransferSrcOptimal => 6,
        ImageLayout::TransferDstOptimal => 7,
        ImageLayout::RenderingLocalRead => 1000232000,
        ImageLayout::PresentSrc => 1000001002,
    }
}

/// The `VkPipelineBindPoint` value of each `PipelineType`.
pub open spec fn spec_bind_point(v: PipelineType) -> i32 {
    match v {
        PipelineType::Graphics => 0,
        PipelineType::Compute => 1,
    }
}

/// The `VkPipelineBindPoint` value of `v`.
pub fn bind_point(v: PipelineType) -> (r: i32)
    ensures
        r == spec_bind_point(v),
{
    match v {
        PipelineType::Graphics => 0,
        PipelineType::Compute => 1,
    }
}
/// The `VkCullModeFlags` and `VkFrontFace` values of each `Cull`.
pub open spec fn spec_cull(c: Cull) -> (u32, i32) {
    match c {
        Cull::CCW => (0x2, 0),
        Cull::CW => (0x2, 1),
        Cull::BOTH => (0x3, 1),
        Cull::NONE => (0x0, 1),
    }
}

/// The cull mode and front face that `c` rasterizes with.
pub fn cull(c: Cull) -> (r: (u32, i32))
    ensures
        r == spec_cull(c),
{
    match c {
        Cull::CCW => (0x2, 0),
        Cull::CW => (0x2, 1),
        Cull::BOTH => (0x3, 1),
        Cull::NONE => (0x0, 1),
    }
}

/// `VK_ERROR_DEVICE_LOST`.
pub const VK_ERROR_DEVICE_LOST: i32 = -4i32;

/// `VK_ERROR_SURFACE_LOST_KHR`.
pub const VK_ERROR_SURFACE_LOST: i32 = -1_000_000_000i32;

/// `VK_ERROR_OUT_OF_DATE_KHR`.
pub const VK_ERROR_OUT_OF_DATE: i32 = -1_000_001_004i32;

/// `VK_NOT_READY`.
pub const VK_NOT_READY: i32 = 1i32;

/// The error that a failed Vulkan call with result `code` reports.
pub open spec fn spec_error_from_result(code: i32) -> Error {
    if code == VK_ERROR_DEVICE_LOST {
        Error::DeviceLost
    } else if code == VK_ERROR_SURFACE_LOST {
        Error::SurfaceLost
    } else if code == VK_ERROR_OUT_OF_DATE {
        Error::SwapchainOutOfDate
    } else {
        Error::OtherError(code)
    }
}

/// The error that a failed Vulkan call with result `code` reports: a lost
/// device, a lost surface and an out-of-date swapchain have their own
/// variants, and every other code is kept as it is.
pub fn error_from_result(code: i32) -> (r: Error)
    ensures
        r == spec_error_from_result(code),
{
    if code == VK_ERROR_DEVICE_LOST {
        Error::DeviceLost
    } else if code == VK_ERROR_SURFACE_LOST {
        Error::SurfaceLost
    } else if code == VK_ERROR_OUT_OF_DATE {
        Error::SwapchainOutOfDate
    } else {
        Error::OtherError(code)
    }
}

/// The `VkBufferUsageFlags` that each `BufferUsage` asks for: a descriptor
/// heap is a resource and sampler descriptor buffer, and a general buffer
/// serves as an index, indirect, storage and uniform buffer.
pub open spec fn spec_buffer_usage(u: BufferUsage) -> u32 {
    match u {
        BufferUsage::DescriptorHeap => 0x60_0000,
        BufferUsage::General => 0x170,
    }
}

pub fn buffer_usage(u: BufferUsage) -> (r: u32)
    ensures
        r == spec_buffer_usage(u),
{
    match u {
        BufferUsage::DescriptorHeap => 0x60_0000,
        BufferUsage::General => 0x170,
    }
}

/// `VK_BUFFER_USAGE_SHADER_DEVICE_ADDRESS_BIT | TRANSFER_SRC | TRANSFER_DST`.
pub const BUFFER_ALWAYS_USAGE: u32 = 0x2_0003u32;

/// The usage that a buffer is created with: what its `BufferUsage` asks for,
/// and always a device address and both transfer directions.
pub fn buffer_create_usage(u: BufferUsage) -> (r: u32)
    ensures
        r == spec_buffer_usage(u) | BUFFER_ALWAYS_USAGE,
{
    buffer_usage(u) | BUFFER_ALWAYS_USAGE
}

/// The `VkImageUsageFlags` an image is created with. Every image may be an
/// input or color attachment, a storage or sampled image, and a transfer
/// source or destination, whatever its `ImageUsage`.
pub fn image_usage(u: ImageUsage) -> (r: u32)
    ensures
        r == 0x9f,
{
    let r: u32 = 0x80 | 0x10 | 0x8 | 0x4 | 0x1 | 0x2;
    assert(r == 0x9f) by (bit_vector)
        requires
            r == 0x80u32 | 0x10u32 | 0x8u32 | 0x4u32 | 0x1u32 | 0x2u32,
    ;
    r
}

/// The `VkSampleCountFlagBits` for `count` samples per texel.
pub fn sample_count_flags(count: u32) -> (r: u32)
    requires
        count == 1 || count == 2 || count == 4 || count == 8,
    ensures
        r == count,
{
    if count == 1 {
        0x1
    } else if count == 2 {
        0x2
    } else if count == 4 {
        0x4
    } else {
        0x8
    }
}

/// How the memory of a buffer is placed.
#[derive(Clone, Copy, Debug, PartialEq, Eq, Structural)]
pub enum MemoryPlacement {
    /// Wherever the allocator finds best.
    Auto,
    /// Preferably in device-local memory.
    AutoPreferDevice,
}

/// How the host may touch the memory of a buffer.
#[derive(Clone, Copy, Debug, PartialEq, Eq, Structural)]
pub enum HostAccess {
    NoAccess,
    SequentialWrite,
    Random,
}

/// What the allocator is asked for when memory of a given kind is allocated.
#[derive(Clone, Copy, Debug, PartialEq, Eq, Structural)]
pub struct AllocationPlan {
    pub placement: MemoryPlacement,
    pub host_access: HostAccess,
    pub require_host_coherent: bool,
}

pub open spec fn spec_allocation_plan(m: Memory) -> AllocationPlan {
    match m {
        Memory::Default => AllocationPlan {
            placement: MemoryPlacement::Auto,
            host_access: HostAccess::SequentialWrite,
            require_host_coherent: false,
        },
        Memory::DeviceOnly => AllocationPlan {
            placement: MemoryPlacement::AutoPreferDevice,
            host_access: HostAccess::NoAccess,
            require_host_coherent: false,
        },
        Memory::HostCoherent => AllocationPlan {
            placement: MemoryPlacement::Auto,
            host_access: HostAccess::Random,
            require_host_coherent: true,
        },
    }
}

/// The allocation that memory of kind `m` asks for.
pub fn allocation_plan(m: Memory) -> (r: AllocationPlan)
    ensures
        r == spec_allocation_plan(m),
        r.require_host_coherent == (m == Memory::HostCoherent),
        (r.placement == MemoryPlacement::AutoPreferDevice) == (m == Memory::DeviceOnly),
        (r.host_access == HostAccess::NoAccess) == (m == Memory::DeviceOnly),
        (r.host_access == HostAccess::SequentialWrite) == (m == Memory::Default),
        (r.host_access == HostAccess::Random) == (m == Memory::HostCoherent),
{
    match m {
        Memory::Default => AllocationPlan {
            placement: MemoryPlacement::Auto,
            host_access: HostAccess::SequentialWrite,
            require_host_coherent: false,
        },
        Memory::DeviceOnly => AllocationPlan {
            placement: MemoryPlacement::AutoPreferDevice,
            host_access: HostAccess::NoAccess,
            require_host_coherent: false,
        },
        Memory::HostCoherent => AllocationPlan {
            placement: MemoryPlacement::Auto,
            host_access: HostAccess::Random,
            require_host_coherent: true,
        },
    }
}

/// Whether a buffer of memory kind `m` is kept mapped into host memory.
pub fn is_host_mapped(m: Memory) -> (r: bool)
    ensures
        r == (m != Memory::DeviceOnly),
{
    match m {
        Memory::DeviceOnly => false,
        _ => true,
    }
}

} // verus!
