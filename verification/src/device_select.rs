//! Choosing the physical device and its queue families, and what the device
//! offers of `VK_EXT_descriptor_heap`.
use vstd::prelude::*;
use crate::rhi::DescriptorHeapProps;

verus! {

/// The value that `ash::vk::make_api_version` packs: the variant in the top
/// three bits, then seven bits of major, ten of minor and twelve of patch.
pub open spec fn spec_api_version(variant: u32, major: u32, minor: u32, patch: u32) -> u32 {
    (variant << 29u32) | (major << 22u32) | (minor << 12u32) | patch
}

/// `ash::vk::make_api_version`: packs a Vulkan API version into one `u32`.
/// Claimed: the result is the shifted fields or-ed together, as ash's source
/// computes it.
#[verifier::external_body]
fn make_api_version(variant: u32, major: u32, minor: u32, patch: u32) -> (r: u32)
    ensures
        r == spec_api_version(variant, major, minor, patch),
{
    ash::vk::make_api_version(variant, major, minor, patch)
}

/// The Vulkan version that the renderer needs: 1.4.
pub fn required_api_version() -> (r: u32)
    ensures
        r == spec_api_version(0, 1, 4, 0),
        r == 0x40_4000,
{
    let r = make_api_version(0, 1, 4, 0);
    assert(spec_api_version(0, 1, 4, 0) == 0x40_4000u32) by (bit_vector);
    r
}

/// `VK_PHYSICAL_DEVICE_TYPE_DISCRETE_GPU`.
pub const DEVICE_TYPE_DISCRETE_GPU: i32 = 2i32;

/// What the choice of a physical device looks at.
#[derive(Clone, Copy, Debug, PartialEq, Eq, Structural)]
pub struct PhysicalDeviceInfo {
    pub api_version: u32,
    /// The raw `VkPhysicalDeviceType`.
    pub device_type: i32,
}

/// Whether a device offers Vulkan 1.4.
pub open spec fn spec_supported(d: PhysicalDeviceInfo) -> bool {
    d.api_version >= 0x40_4000
}

/// Whether a device offers Vulkan 1.4 and is a discrete GPU.
pub open spec fn spec_preferred(d: PhysicalDeviceInfo) -> bool {
    spec_supported(d) && d.device_type == DEVICE_TYPE_DISCRETE_GPU
}

/// Whether some device offers Vulkan 1.4.
pub fn any_supported(devices: &Vec<PhysicalDeviceInfo>) -> (r: bool)
    ensures
        r == exists|k: int| 0 <= k < devices@.len() && spec_supported(#[trigger] devices@[k]),
{
    let required = required_api_version();
    let mut i: usize = 0;
    while i < devices.len()
        invariant
            required == 0x40_4000,
            0 <= i <= devices@.len(),
            forall|k: int| 0 <= k < i ==> !spec_supported(#[trigger] devices@[k]),
        decreases devices@.len() - i,
    {
        if devices[i].api_version >= required {
            return true;
        }
        i = i + 1;
    }
    false
}

/// The device to render with: the first discrete GPU that offers Vulkan 1.4,
/// else the first device that offers Vulkan 1.4. Some device must offer it.
pub fn choose_physical_device(devices: &Vec<PhysicalDeviceInfo>) -> (r: usize)
    requires
        exists|k: int| 0 <= k < devices@.len() && spec_supported(#[trigger] devices@[k]),
    ensures
        r < devices@.len(),
        spec_supported(devices@[r as int]),
        if exists|k: int| 0 <= k < devices@.len() && spec_preferred(#[trigger] devices@[k]) {
            &&& spec_preferred(devices@[r as int])
            &&& forall|k: int| 0 <= k < r ==> !spec_preferred(#[trigger] devices@[k])
        } else {
            forall|k: int| 0 <= k < r ==> !spec_supported(#[trigger] devices@[k])
        },
{
    let required = required_api_version();
    let mut first_supported: Option<usize> = None;
    let mut i: usize = 0;
    while i < devices.len()
        invariant
            required == 0x40_4000,
            0 <= i <= devices@.len(),
            forall|k: int| 0 <= k < i ==> !spec_preferred(#[trigger] devices@[k]),
            first_supported is None <==> forall|k: int| 0 <= k < i ==> !spec_supported(#[trigger] devices@[k]),
            first_supported matches Some(j) ==> j < i && spec_supported(devices@[j as int])
                && forall|k: int| 0 <= k < j ==> !spec_supported(#[trigger] devices@[k]),
        decreases devices@.len() - i,
    {
        let d = devices[i];
        if d.api_version >= required {
            if d.device_type == DEVICE_TYPE_DISCRETE_GPU {
                return i;
            }
            if first_supported.is_none() {
                first_supported = Some(i);
            }
        }
        i = i + 1;
    }
    match first_supported {
        Some(j) => j,
        None => vstd::pervasive::unreached(),
    }
}

/// `VK_QUEUE_GRAPHICS_BIT`.
pub const QUEUE_GRAPHICS: u32 = 0x1u32;

/// `VK_QUEUE_COMPUTE_BIT`.
pub const QUEUE_COMPUTE: u32 = 0x2u32;

/// `VK_QUEUE_TRANSFER_BIT`.
pub const QUEUE_TRANSFER: u32 = 0x4u32;

/// What the choice of queue families looks at.
#[derive(Clone, Copy, Debug, PartialEq, Eq, Structural)]
pub struct QueueFamilyInfo {
    /// The raw `VkQueueFlags`.
    pub flags: u32,
    /// Whether the family can present to the surface.
    pub supports_present: bool,
}

/// The role that a queue family is chosen for.
#[derive(Clone, Copy, Debug, PartialEq, Eq, Structural)]
pub enum QueueRole {
    /// Graphics, compute and transfer, and presentation to the surface.
    Graphics,
    /// Compute and transfer, but not graphics.
    AsyncCompute,
    /// Transfer only.
    Transfer,
}

pub open spec fn spec_has(flags: u32, bit: u32) -> bool {
    flags & bit == bit
}

/// Whether family `f` can take `role`.
pub open spec fn spec_fits(role: QueueRole, f: QueueFamilyInfo) -> bool {
    match role {
        QueueRole::Graphics => spec_has(f.flags, QUEUE_GRAPHICS) && spec_has(f.flags, QUEUE_COMPUTE)
            && spec_has(f.flags, QUEUE_TRANSFER) && f.supports_present,
        QueueRole::AsyncCompute => !spec_has(f.flags, QUEUE_GRAPHICS) && spec_has(
            f.flags,
            QUEUE_COMPUTE,
        ) && spec_has(f.flags, QUEUE_TRANSFER),
        QueueRole::Transfer => !spec_has(f.flags, QUEUE_GRAPHICS) && !spec_has(f.flags, QUEUE_COMPUTE)
            && spec_has(f.flags, QUEUE_TRANSFER),
    }
}

fn fits(role: QueueRole, f: QueueFamilyInfo) -> (r: bool)
    ensures
        r == spec_fits(role, f),
{
    let g = f.flags & QUEUE_GRAPHICS == QUEUE_GRAPHICS;
    let c = f.flags & QUEUE_COMPUTE == QUEUE_COMPUTE;
    let t = f.flags & QUEUE_TRANSFER == QUEUE_TRANSFER;
    match role {
        QueueRole::Graphics => g && c && t && f.supports_present,
        QueueRole::AsyncCompute => !g && c && t,
        QueueRole::Transfer => !g && !c && t,
    }
}

/// Whether some queue family can take `role`.
pub fn any_fits(families: &Vec<QueueFamilyInfo>, role: QueueRole) -> (r: bool)
    ensures
        r == exists|k: int| 0 <= k < families@.len() && spec_fits(role, #[trigger] families@[k]),
{
    let mut i: usize = 0;
    while i < families.len()
        invariant
            0 <= i <= families@.len(),
            forall|k: int| 0 <= k < i ==> !spec_fits(role, #[trigger] families@[k]),
        decreases families@.len() - i,
    {
        if fits(role, families[i]) {
            return true;
        }
        i = i + 1;
    }
    false
}

/// The index of the first queue family that can take `role`. Some family
/// must take it.
pub fn choose_queue_family(families: &Vec<QueueFamilyInfo>, role: QueueRole) -> (r: u32)
    requires
        families@.len() <= u32::MAX,
        exists|k: int| 0 <= k < families@.len() && spec_fits(role, #[trigger] families@[k]),
    ensures
        r < families@.len(),
        spec_fits(role, families@[r as int]),
        forall|k: int| 0 <= k < r ==> !spec_fits(role, #[trigger] families@[k]),
{
    let mut i: usize = 0;
    while i < families.len()
        invariant
            families@.len() <= u32::MAX,
            0 <= i <= families@.len(),
            forall|k: int| 0 <= k < i ==> !spec_fits(role, #[trigger] families@[k]),
        decreases families@.len() - i,
    {
        if fits(role, families[i]) {
            return i as u32;
        }
        i = i + 1;
    }
    vstd::pervasive::unreached()
}

/// A queue family takes at most one role, so the families chosen for the
/// three roles are different families.
pub proof fn law_each_family_takes_one_role(f: QueueFamilyInfo)
    ensures
        spec_fits(QueueRole::Graphics, f) ==> !spec_fits(QueueRole::AsyncCompute, f) && !spec_fits(
            QueueRole::Transfer,
            f,
        ),
        spec_fits(QueueRole::AsyncCompute, f) ==> !spec_fits(QueueRole::Transfer, f),
{
}

/// The descriptor heap limits of a device, if it has the descriptor heap
/// feature.
pub fn descriptor_heap_support(feature_enabled: bool, props: DescriptorHeapProps) -> (r: Option<
    DescriptorHeapProps,
>)
    ensures
        feature_enabled ==> r == Some(props),
        !feature_enabled ==> r is None,
{
    if !feature_enabled {
        return None;
    }
    Some(props)
}

} // verus!
