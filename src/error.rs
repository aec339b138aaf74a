use vstd::prelude::*;

verus! {

/// Error that can happen when copying between buffers.
#[derive(Clone, Copy, Debug, PartialEq, Eq, Structural)]
pub enum BufferCopyError {
    /// can't copy buffers from within a render pass
    ForbiddenWithinRenderPass,
    /// one of regions is out of range of the buffer
    OutOfRange,
    /// one of the buffers doesn't have the correct usage flag
    WrongUsageFlag,
    /// some regions are overlapping
    OverlappingRegions,
}

/// Error that can happen when filling a buffer.
#[derive(Clone, Copy, Debug, PartialEq, Eq, Structural)]
pub enum BufferFillError {
    /// can't fill buffers from within a render pass
    ForbiddenWithinRenderPass,
    /// the queue family this command buffer belongs to does not support this operation
    NotSupportedByQueueFamily,
    /// the buffer doesn't have the correct usage flag
    WrongUsageFlag,
    /// the offset and size must be multiples of 4
    WrongAlignment,
}

/// Error that can happen when updating a buffer.
#[derive(Clone, Copy, Debug, PartialEq, Eq, Structural)]
pub enum BufferUpdateError {
    /// can't update buffers from within a render pass
    ForbiddenWithinRenderPass,
    /// the buffer doesn't have the correct usage flag
    WrongUsageFlag,
    /// the offset and size must be multiples of 4
    WrongAlignment,
    /// the size of the region exceeds the allowed limits
    RegionTooLarge,
    /// the data is smaller than the region to copy to
    DataTooSmall,
}

impl BufferCopyError {
    /// A short human-readable description of the error.
    pub fn description(&self) -> (r: &'static str)
        ensures
            r@ == match *self {
                BufferCopyError::ForbiddenWithinRenderPass => "can't copy buffers from within a render pass"@,
                BufferCopyError::OutOfRange => "one of regions is out of range of the buffer"@,
                BufferCopyError::WrongUsageFlag => "one of the buffers doesn't have the correct usage flag"@,
                BufferCopyError::OverlappingRegions => "some regions are overlapping"@,
            },
    {
        match *self {
            BufferCopyError::ForbiddenWithinRenderPass => "can't copy buffers from within a render pass",
            BufferCopyError::OutOfRange => "one of regions is out of range of the buffer",
            BufferCopyError::WrongUsageFlag => "one of the buffers doesn't have the correct usage flag",
            BufferCopyError::OverlappingRegions => "some regions are overlapping",
        }
    }
}

impl BufferFillError {
    /// A short human-readable description of the error.
    pub fn description(&self) -> (r: &'static str)
        ensures
            r@ == match *self {
                BufferFillError::ForbiddenWithinRenderPass => "can't fill buffers from within a render pass"@,
                BufferFillError::NotSupportedByQueueFamily => "the queue family this command buffer belongs to does not support this operation"@,
                BufferFillError::WrongUsageFlag => "the buffer doesn't have the correct usage flag"@,
                BufferFillError::WrongAlignment => "the offset and size must be multiples of 4"@,
            },
    {
        match *self {
            BufferFillError::ForbiddenWithinRenderPass => "can't fill buffers from within a render pass",
            BufferFillError::NotSupportedByQueueFamily => "the queue family this command buffer belongs to does not support this operation",
            BufferFillError::WrongUsageFlag => "the buffer doesn't have the correct usage flag",
            BufferFillError::WrongAlignment => "the offset and size must be multiples of 4",
        }
    }
}

impl BufferUpdateError {
    /// A short human-readable description of the error.
    pub fn description(&self) -> (r: &'static str)
        ensures
            r@ == match *self {
                BufferUpdateError::ForbiddenWithinRenderPass => "can't update buffers from within a render pass"@,
                BufferUpdateError::WrongUsageFlag => "the buffer doesn't have the correct usage flag"@,
                BufferUpdateError::WrongAlignment => "the offset and size must be multiples of 4"@,
                BufferUpdateError::RegionTooLarge => "the size of the region exceeds the allowed limits"@,
                BufferUpdateError::DataTooSmall => "the data is smaller than the region to copy to"@,
            },
    {
        match *self {
            BufferUpdateError::ForbiddenWithinRenderPass => "can't update buffers from within a render pass",
            BufferUpdateError::WrongUsageFlag => "the buffer doesn't have the correct usage flag",
            BufferUpdateError::WrongAlignment => "the offset and size must be multiples of 4",
            BufferUpdateError::RegionTooLarge => "the size of the region exceeds the allowed limits",
            BufferUpdateError::DataTooSmall => "the data is smaller than the region to copy to",
        }
    }
}

} // verus!
