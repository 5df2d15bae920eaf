//! A render hardware interface over Vulkan: the resource, command, swapchain
//! and frame-pacing rules of the renderer, with the Vulkan values they select.

pub mod rhi;
pub mod gpu_ptr;
pub mod vk_map;
pub mod heap;
pub mod command;
pub mod queue;
pub mod swapchain;
pub mod device_select;
pub mod descriptor;
pub mod image;
pub mod frame;
pub mod reflect;
pub mod shader;
pub mod pipeline;
pub mod texture;
pub mod slot_heap;
pub mod laws;
