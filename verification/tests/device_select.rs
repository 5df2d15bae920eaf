use ash::vk;
use styro::device_select::{
    any_fits, any_supported, choose_physical_device, choose_queue_family, descriptor_heap_support,
    required_api_version,
    PhysicalDeviceInfo, QueueFamilyInfo, QueueRole,
};
use styro::rhi::DescriptorHeapProps;

#[test]
fn the_renderer_needs_vulkan_1_4() {
    assert_eq!(required_api_version(), vk::make_api_version(0, 1, 4, 0));
    assert_eq!(required_api_version(), 0x40_4000);
}

fn dev(major_minor: (u32, u32), ty: vk::PhysicalDeviceType) -> PhysicalDeviceInfo {
    PhysicalDeviceInfo {
        api_version: vk::make_api_version(0, major_minor.0, major_minor.1, 0),
        device_type: ty.as_raw(),
    }
}

#[test]
fn discrete_gpus_are_preferred() {
    let devices = vec![
        dev((1, 3), vk::PhysicalDeviceType::DISCRETE_GPU),
        dev((1, 4), vk::PhysicalDeviceType::INTEGRATED_GPU),
        dev((1, 4), vk::PhysicalDeviceType::DISCRETE_GPU),
    ];
    assert_eq!(choose_physical_device(&devices), 2);
}

#[test]
fn first_supported_device_without_a_discrete_one() {
    let devices = vec![
        dev((1, 2), vk::PhysicalDeviceType::DISCRETE_GPU),
        dev((1, 4), vk::PhysicalDeviceType::CPU),
        dev((1, 4), vk::PhysicalDeviceType::INTEGRATED_GPU),
    ];
    assert!(any_supported(&devices));
    assert_eq!(choose_physical_device(&devices), 1);
    assert!(!any_supported(&vec![dev((1, 3), vk::PhysicalDeviceType::DISCRETE_GPU)]));
    assert!(!any_supported(&vec![]));
}

#[test]
fn queue_families_by_role() {
    let g = vk::QueueFlags::GRAPHICS.as_raw();
    let c = vk::QueueFlags::COMPUTE.as_raw();
    let t = vk::QueueFlags::TRANSFER.as_raw();
    let families = vec![
        QueueFamilyInfo { flags: g | c | t, supports_present: false },
        QueueFamilyInfo { flags: g | c | t, supports_present: true },
        QueueFamilyInfo { flags: c | t, supports_present: false },
        QueueFamilyInfo { flags: t, supports_present: false },
    ];
    assert_eq!(choose_queue_family(&families, QueueRole::Graphics), 1);
    assert_eq!(choose_queue_family(&families, QueueRole::AsyncCompute), 2);
    assert_eq!(choose_queue_family(&families, QueueRole::Transfer), 3);
    assert!(any_fits(&families, QueueRole::Transfer));
    assert!(!any_fits(&families[..1].to_vec(), QueueRole::Transfer));
    assert!(!any_fits(&families[..1].to_vec(), QueueRole::Graphics));
}

fn props() -> DescriptorHeapProps {
    DescriptorHeapProps {
        sampler_descriptor_size: 16,
        image_descriptor_size: 32,
        buffer_descriptor_size: 16,
        sampler_heap_alignment: 64,
        resource_heap_alignment: 64,
        min_sampler_heap_reserved_range: 64,
        min_resource_heap_reserved_range: 128,
        max_resource_heap_size: 1024,
        max_sampler_heap_size: 256,
        max_push_data_size: 128,
    }
}

#[test]
fn heap_support_follows_the_feature() {
    assert_eq!(descriptor_heap_support(true, props()), Some(props()));
    assert_eq!(descriptor_heap_support(false, props()), None);
}
