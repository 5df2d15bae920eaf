//! Extents of images and whether regions of them lie inside.
use vstd::prelude::*;
use crate::rhi::ImageDesc;

verus! {

/// A three-dimensional offset, as `VkOffset3D` holds it.
#[derive(Clone, Copy, Debug, PartialEq, Eq, Structural)]
pub struct Offset3D {
    pub x: i32,
    pub y: i32,
    pub z: i32,
}

/// A three-dimensional extent, as `VkExtent3D` holds it.
#[derive(Clone, Copy, Debug, PartialEq, Eq, Structural)]
pub struct Extent3D {
    pub width: u32,
    pub height: u32,
    pub depth: u32,
}

/// The width and height of an image.
pub fn extent2d(desc: &ImageDesc) -> (r: (u32, u32))
    ensures
        r == (desc.dimensions[0], desc.dimensions[1]),
{
    (desc.dimensions[0], desc.dimensions[1])
}

/// The width, height and depth of an image.
pub fn extent3d(desc: &ImageDesc) -> (r: Extent3D)
    ensures
        r == (Extent3D { width: desc.dimensions[0], height: desc.dimensions[1], depth: desc.dimensions[2] }),
{
    Extent3D { width: desc.dimensions[0], height: desc.dimensions[1], depth: desc.dimensions[2] }
}

/// Whether the region of `extent` at `offset` ends inside the image, each
/// offset read as an unsigned 32-bit value.
pub fn extent_is_within_bounds(desc: &ImageDesc, offset: Offset3D, extent: Extent3D) -> (r: bool)
    requires
        (offset.x as u32) + extent.width <= u32::MAX,
        (offset.y as u32) + extent.height <= u32::MAX,
        (offset.z as u32) + extent.depth <= u32::MAX,
    ensures
        r == ((offset.x as u32) + extent.width <= desc.dimensions[0] && (offset.y as u32)
            + extent.height <= desc.dimensions[1] && (offset.z as u32) + extent.depth
            <= desc.dimensions[2]),
{
    let this = extent3d(desc);
    (offset.x as u32 + extent.width) <= this.width && (offset.y as u32 + extent.height)
        <= this.height && (offset.z as u32 + extent.depth) <= this.depth
}

/// Whether `offset` lies inside the image or on its far edge, each extent
/// read as a signed 32-bit value.
pub fn offset_is_within_bounds(desc: &ImageDesc, offset: Offset3D) -> (r: bool)
    ensures
        r == (offset.x <= desc.dimensions[0] as i32 && offset.y <= desc.dimensions[1] as i32
            && offset.z <= desc.dimensions[2] as i32),
{
    let this = extent3d(desc);
    offset.x <= this.width as i32 && offset.y <= this.height as i32 && offset.z <= this.depth as i32
}

} // verus!
