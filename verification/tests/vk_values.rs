use ash::vk;
use styro::rhi::{
    BlendFactor, BlendOp, BufferUsage, CompareOp, Cull, Error, Filter, ImageLayout, ImageType,
    ImageUsage, LoadOp, Memory, MipmapMode, PipelineType, SamplerAddressMode, Stage, StencilOp,
    StoreOp, Topology,
};
use styro::vk_map;
use styro::vk_map::{HostAccess, MemoryPlacement};

#[test]
fn compare_ops_match_vulkan() {
    let pairs = [
        (CompareOp::Never, vk::CompareOp::NEVER),
        (CompareOp::Less, vk::CompareOp::LESS),
        (CompareOp::Equal, vk::CompareOp::EQUAL),
        (CompareOp::LessOrEqual, vk::CompareOp::LESS_OR_EQUAL),
        (CompareOp::Greater, vk::CompareOp::GREATER),
        (CompareOp::NotEqual, vk::CompareOp::NOT_EQUAL),
        (CompareOp::GreaterOrEqual, vk::CompareOp::GREATER_OR_EQUAL),
        (CompareOp::Always, vk::CompareOp::ALWAYS),
    ];
    for (op, v) in pairs {
        assert_eq!(vk_map::compare_op(op), v.as_raw());
    }
}

#[test]
fn stencil_ops_match_vulkan() {
    let pairs = [
        (StencilOp::Keep, vk::StencilOp::KEEP),
        (StencilOp::Zero, vk::StencilOp::ZERO),
        (StencilOp::Replace, vk::StencilOp::REPLACE),
        (StencilOp::IncrementAndClamp, vk::StencilOp::INCREMENT_AND_CLAMP),
        (StencilOp::DecrementAndClamp, vk::StencilOp::DECREMENT_AND_CLAMP),
        (StencilOp::Invert, vk::StencilOp::INVERT),
        (StencilOp::IncrementAndWrap, vk::StencilOp::INCREMENT_AND_WRAP),
        (StencilOp::DecrementAndWrap, vk::StencilOp::DECREMENT_AND_WRAP),
    ];
    for (op, v) in pairs {
        assert_eq!(vk_map::stencil_op(op), v.as_raw());
    }
}

#[test]
fn blend_ops_and_factors_match_vulkan() {
    let ops = [
        (BlendOp::Add, vk::BlendOp::ADD),
        (BlendOp::Subtract, vk::BlendOp::SUBTRACT),
        (BlendOp::ReverseSubtract, vk::BlendOp::REVERSE_SUBTRACT),
        (BlendOp::Min, vk::BlendOp::MIN),
        (BlendOp::Max, vk::BlendOp::MAX),
    ];
    for (op, v) in ops {
        assert_eq!(vk_map::blend_op(op), v.as_raw());
    }
    let factors = [
        (BlendFactor::Zero, vk::BlendFactor::ZERO),
        (BlendFactor::One, vk::BlendFactor::ONE),
        (BlendFactor::SrcColor, vk::BlendFactor::SRC_COLOR),
        (BlendFactor::OneMinusSrcColor, vk::BlendFactor::ONE_MINUS_SRC_COLOR),
        (BlendFactor::DstColor, vk::BlendFactor::DST_COLOR),
        (BlendFactor::OneMinusDstColor, vk::BlendFactor::ONE_MINUS_DST_COLOR),
        (BlendFactor::SrcAlpha, vk::BlendFactor::SRC_ALPHA),
        (BlendFactor::OneMinusSrcAlpha, vk::BlendFactor::ONE_MINUS_SRC_ALPHA),
        (BlendFactor::DstAlpha, vk::BlendFactor::DST_ALPHA),
        (BlendFactor::OneMinusDstAlpha, vk::BlendFactor::ONE_MINUS_DST_ALPHA),
        (BlendFactor::ConstantColor, vk::BlendFactor::CONSTANT_COLOR),
        (BlendFactor::OneMinusConstantColor, vk::BlendFactor::ONE_MINUS_CONSTANT_COLOR),
        (BlendFactor::ConstantAlpha, vk::BlendFactor::CONSTANT_ALPHA),
        (BlendFactor::OneMinusConstantAlpha, vk::BlendFactor::ONE_MINUS_CONSTANT_ALPHA),
        (BlendFactor::SrcAlphaSaturate, vk::BlendFactor::SRC_ALPHA_SATURATE),
        (BlendFactor::Src1Color, vk::BlendFactor::SRC1_COLOR),
        (BlendFactor::OneMinusSrc1Color, vk::BlendFactor::ONE_MINUS_SRC1_COLOR),
        (BlendFactor::Src1Alpha, vk::BlendFactor::SRC1_ALPHA),
        (BlendFactor::OneMinusSrc1Alpha, vk::BlendFactor::ONE_MINUS_SRC1_ALPHA),
    ];
    for (f, v) in factors {
        assert_eq!(vk_map::blend_factor(f), v.as_raw());
    }
}

#[test]
fn attachment_ops_and_topologies_match_vulkan() {
    assert_eq!(vk_map::load_op(LoadOp::Load), vk::AttachmentLoadOp::LOAD.as_raw());
    assert_eq!(vk_map::load_op(LoadOp::Clear), vk::AttachmentLoadOp::CLEAR.as_raw());
    assert_eq!(vk_map::load_op(LoadOp::DontCare), vk::AttachmentLoadOp::DONT_CARE.as_raw());
    assert_eq!(vk_map::store_op(StoreOp::Store), vk::AttachmentStoreOp::STORE.as_raw());
    assert_eq!(vk_map::store_op(StoreOp::DontCare), vk::AttachmentStoreOp::DONT_CARE.as_raw());
    let topologies = [
        (Topology::PointList, vk::PrimitiveTopology::POINT_LIST),
        (Topology::LineList, vk::PrimitiveTopology::LINE_LIST),
        (Topology::LineStrip, vk::PrimitiveTopology::LINE_STRIP),
        (Topology::TriangleList, vk::PrimitiveTopology::TRIANGLE_LIST),
        (Topology::TriangleStrip, vk::PrimitiveTopology::TRIANGLE_STRIP),
        (Topology::TriangleFan, vk::PrimitiveTopology::TRIANGLE_FAN),
    ];
    for (t, v) in topologies {
        assert_eq!(vk_map::topology(t), v.as_raw());
    }
}

#[test]
fn cull_modes_match_vulkan() {
    assert_eq!(
        vk_map::cull(Cull::CCW),
        (vk::CullModeFlags::BACK.as_raw(), vk::FrontFace::COUNTER_CLOCKWISE.as_raw())
    );
    assert_eq!(
        vk_map::cull(Cull::CW),
        (vk::CullModeFlags::BACK.as_raw(), vk::FrontFace::CLOCKWISE.as_raw())
    );
    assert_eq!(
        vk_map::cull(Cull::BOTH),
        (vk::CullModeFlags::FRONT_AND_BACK.as_raw(), vk::FrontFace::CLOCKWISE.as_raw())
    );
    assert_eq!(
        vk_map::cull(Cull::NONE),
        (vk::CullModeFlags::NONE.as_raw(), vk::FrontFace::CLOCKWISE.as_raw())
    );
}

#[test]
fn image_types_and_sampler_modes_match_vulkan() {
    let types = [
        (ImageType::Type1D, vk::ImageType::TYPE_1D, vk::ImageViewType::TYPE_1D),
        (ImageType::Type2D, vk::ImageType::TYPE_2D, vk::ImageViewType::TYPE_2D),
        (ImageType::Type3D, vk::ImageType::TYPE_3D, vk::ImageViewType::TYPE_3D),
    ];
    for (t, it, vt) in types {
        assert_eq!(vk_map::image_type(t), it.as_raw());
        assert_eq!(vk_map::image_view_type(t), vt.as_raw());
    }
    assert_eq!(vk_map::filter(Filter::Nearest), vk::Filter::NEAREST.as_raw());
    assert_eq!(vk_map::filter(Filter::Linear), vk::Filter::LINEAR.as_raw());
    assert_eq!(vk_map::mipmap_mode(MipmapMode::Nearest), vk::SamplerMipmapMode::NEAREST.as_raw());
    assert_eq!(vk_map::mipmap_mode(MipmapMode::Linear), vk::SamplerMipmapMode::LINEAR.as_raw());
    let modes = [
        (SamplerAddressMode::Repeat, vk::SamplerAddressMode::REPEAT),
        (SamplerAddressMode::MirroredRepeat, vk::SamplerAddressMode::MIRRORED_REPEAT),
        (SamplerAddressMode::ClampToEdge, vk::SamplerAddressMode::CLAMP_TO_EDGE),
        (SamplerAddressMode::ClampToBorder, vk::SamplerAddressMode::CLAMP_TO_BORDER),
        (SamplerAddressMode::MirrorClampToEdge, vk::SamplerAddressMode::MIRROR_CLAMP_TO_EDGE),
    ];
    for (m, v) in modes {
        assert_eq!(vk_map::address_mode(m), v.as_raw());
    }
}

#[test]
fn stages_match_vulkan() {
    let stages = [
        (Stage::NoStage, vk::PipelineStageFlags2::NONE),
        (Stage::TopOfPipe, vk::PipelineStageFlags2::TOP_OF_PIPE),
        (Stage::DrawIndirect, vk::PipelineStageFlags2::DRAW_INDIRECT),
        (Stage::VertexShader, vk::PipelineStageFlags2::VERTEX_SHADER),
        (Stage::FragmentShader, vk::PipelineStageFlags2::FRAGMENT_SHADER),
        (Stage::EarlyFragmentTests, vk::PipelineStageFlags2::EARLY_FRAGMENT_TESTS),
        (Stage::LateFragmentTests, vk::PipelineStageFlags2::LATE_FRAGMENT_TESTS),
        (Stage::ColorAttachmentOutput, vk::PipelineStageFlags2::COLOR_ATTACHMENT_OUTPUT),
        (Stage::ComputeShader, vk::PipelineStageFlags2::COMPUTE_SHADER),
        (Stage::Transfer, vk::PipelineStageFlags2::TRANSFER),
        (Stage::BottomOfPipe, vk::PipelineStageFlags2::BOTTOM_OF_PIPE),
        (Stage::AllGraphics, vk::PipelineStageFlags2::ALL_GRAPHICS),
        (Stage::AllCommands, vk::PipelineStageFlags2::ALL_COMMANDS),
        (Stage::Host, vk::PipelineStageFlags2::HOST),
        (Stage::Copy, vk::PipelineStageFlags2::COPY),
        (Stage::Resolve, vk::PipelineStageFlags2::RESOLVE),
        (Stage::Blit, vk::PipelineStageFlags2::BLIT),
        (Stage::Clear, vk::PipelineStageFlags2::CLEAR),
        (Stage::TaskShader, vk::PipelineStageFlags2::TASK_SHADER_EXT),
        (Stage::MeshShader, vk::PipelineStageFlags2::MESH_SHADER_EXT),
    ];
    for (s, v) in stages {
        assert_eq!(vk_map::stage_flags(s), v.as_raw());
    }
}

#[test]
fn image_layouts_match_vulkan() {
    let layouts = [
        (ImageLayout::Undefined, vk::ImageLayout::UNDEFINED),
        (ImageLayout::General, vk::ImageLayout::GENERAL),
        (ImageLayout::Attachment, vk::ImageLayout::ATTACHMENT_OPTIMAL),
        (ImageLayout::ShaderReadOnlyOptimal, vk::ImageLayout::SHADER_READ_ONLY_OPTIMAL),
        (ImageLayout::TransferSrcOptimal, vk::ImageLayout::TRANSFER_SRC_OPTIMAL),
        (ImageLayout::TransferDstOptimal, vk::ImageLayout::TRANSFER_DST_OPTIMAL),
        (ImageLayout::RenderingLocalRead, vk::ImageLayout::RENDERING_LOCAL_READ_KHR),
        (ImageLayout::PresentSrc, vk::ImageLayout::PRESENT_SRC_KHR),
    ];
    for (l, v) in layouts {
        assert_eq!(vk_map::image_layout(l), v.as_raw());
    }
    assert_eq!(vk_map::bind_point(PipelineType::Graphics), vk::PipelineBindPoint::GRAPHICS.as_raw());
    assert_eq!(vk_map::bind_point(PipelineType::Compute), vk::PipelineBindPoint::COMPUTE.as_raw());
}

#[test]
fn vulkan_results_map_to_errors() {
    assert_eq!(vk_map::error_from_result(vk::Result::ERROR_DEVICE_LOST.as_raw()), Error::DeviceLost);
    assert_eq!(
        vk_map::error_from_result(vk::Result::ERROR_SURFACE_LOST_KHR.as_raw()),
        Error::SurfaceLost
    );
    assert_eq!(
        vk_map::error_from_result(vk::Result::ERROR_OUT_OF_DATE_KHR.as_raw()),
        Error::SwapchainOutOfDate
    );
    let oom = vk::Result::ERROR_OUT_OF_HOST_MEMORY.as_raw();
    assert_eq!(vk_map::error_from_result(oom), Error::OtherError(oom));
    assert_eq!(vk_map::VK_NOT_READY, vk::Result::NOT_READY.as_raw());
}

#[test]
fn buffer_and_image_usage_flags() {
    let general = vk::BufferUsageFlags::INDEX_BUFFER
        | vk::BufferUsageFlags::INDIRECT_BUFFER
        | vk::BufferUsageFlags::STORAGE_BUFFER
        | vk::BufferUsageFlags::UNIFORM_BUFFER;
    assert_eq!(vk_map::buffer_usage(BufferUsage::General), general.as_raw());
    let heap = vk::BufferUsageFlags::RESOURCE_DESCRIPTOR_BUFFER_EXT
        | vk::BufferUsageFlags::SAMPLER_DESCRIPTOR_BUFFER_EXT;
    assert_eq!(vk_map::buffer_usage(BufferUsage::DescriptorHeap), heap.as_raw());
    let always = vk::BufferUsageFlags::SHADER_DEVICE_ADDRESS
        | vk::BufferUsageFlags::TRANSFER_SRC
        | vk::BufferUsageFlags::TRANSFER_DST;
    assert_eq!(vk_map::BUFFER_ALWAYS_USAGE, always.as_raw());
    assert_eq!(vk_map::buffer_create_usage(BufferUsage::General), (general | always).as_raw());
    assert_eq!(vk_map::buffer_create_usage(BufferUsage::DescriptorHeap), (heap | always).as_raw());
    let image = vk::ImageUsageFlags::INPUT_ATTACHMENT
        | vk::ImageUsageFlags::COLOR_ATTACHMENT
        | vk::ImageUsageFlags::STORAGE
        | vk::ImageUsageFlags::SAMPLED
        | vk::ImageUsageFlags::TRANSFER_SRC
        | vk::ImageUsageFlags::TRANSFER_DST;
    for u in [ImageUsage::Sampled, ImageUsage::Storage, ImageUsage::Attachment] {
        assert_eq!(vk_map::image_usage(u), image.as_raw());
    }
}

#[test]
fn sample_counts_match_vulkan() {
    assert_eq!(vk_map::sample_count_flags(1), vk::SampleCountFlags::TYPE_1.as_raw());
    assert_eq!(vk_map::sample_count_flags(2), vk::SampleCountFlags::TYPE_2.as_raw());
    assert_eq!(vk_map::sample_count_flags(4), vk::SampleCountFlags::TYPE_4.as_raw());
    assert_eq!(vk_map::sample_count_flags(8), vk::SampleCountFlags::TYPE_8.as_raw());
}

#[test]
fn allocation_plans_per_memory_kind() {
    let d = vk_map::allocation_plan(Memory::Default);
    assert_eq!(d.placement, MemoryPlacement::Auto);
    assert_eq!(d.host_access, HostAccess::SequentialWrite);
    assert!(!d.require_host_coherent);
    let dev = vk_map::allocation_plan(Memory::DeviceOnly);
    assert_eq!(dev.placement, MemoryPlacement::AutoPreferDevice);
    assert_eq!(dev.host_access, HostAccess::NoAccess);
    let hc = vk_map::allocation_plan(Memory::HostCoherent);
    assert_eq!(hc.host_access, HostAccess::Random);
    assert!(hc.require_host_coherent);
    assert!(vk_map::is_host_mapped(Memory::Default));
    assert!(!vk_map::is_host_mapped(Memory::DeviceOnly));
    assert!(vk_map::is_host_mapped(Memory::HostCoherent));
}
