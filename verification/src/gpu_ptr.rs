//! Handles to resources that the descriptor heap owns.
use vstd::prelude::*;

verus! {

/// A handle to a buffer or an image, with a byte range inside it.
/// The handle 0 is reserved for the null pointer.
#[derive(Clone, Copy, Debug, PartialEq, Eq, Structural)]
pub struct GpuPtr {
    handle: u64,
    pub offset: u32,
    pub size: u32,
}

/// The values that a `GpuPtr` holds.
pub struct GpuPtrView {
    pub handle: u64,
    pub offset: u32,
    pub size: u32,
}

impl View for GpuPtr {
    type V = GpuPtrView;

    closed spec fn view(&self) -> GpuPtrView {
        GpuPtrView { handle: self.handle, offset: self.offset, size: self.size }
    }
}

impl GpuPtr {
    pub(crate) fn from_parts(handle: u64, offset: u32, size: u32) -> (r: GpuPtr)
        ensures
            r@ == (GpuPtrView { handle, offset, size }),
    {
        GpuPtr { handle, offset, size }
    }

    /// The pointer that names no resource.
    pub fn null() -> (r: GpuPtr)
        ensures
            r@ == (GpuPtrView { handle: 0, offset: 0, size: 0 }),
    {
        GpuPtr { handle: 0, offset: 0, size: 0 }
    }

    /// Whether this pointer names no resource.
    pub fn is_null(&self) -> (r: bool)
        ensures
            r == (self@.handle == 0),
    {
        self.handle == 0
    }

    /// The byte offset into the resource.
    pub fn offset(&self) -> (r: u32)
        ensures
            r == self@.offset,
    {
        self.offset
    }

    /// The byte length of the range.
    pub fn size(&self) -> (r: u32)
        ensures
            r == self@.size,
    {
        self.size
    }

    /// The handle that this pointer names.
    pub fn handle(&self) -> (r: u64)
        ensures
            r == self@.handle,
    {
        self.handle
    }
}

} // verus!
