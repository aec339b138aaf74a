use std::sync::Arc;
use vstd::prelude::*;

verus! {

/// A buffer object of a device, as commands see it.
#[derive(Debug, Clone, Copy, PartialEq, Eq)]
pub struct UnsafeBuffer {
    /// Identity of the underlying device object; two handles over one object share it.
    pub object: u64,
    /// Identity of the device that owns the buffer.
    pub device: u64,
    /// Size of the buffer in bytes.
    pub size: usize,
    /// The buffer may be the source of a transfer.
    pub usage_transfer_src: bool,
    /// The buffer may be the destination of a transfer.
    pub usage_transfer_dest: bool,
}

/// A byte range of a buffer.
pub struct BufferSlice {
    buffer: Arc<UnsafeBuffer>,
    offset: usize,
    size: usize,
}

impl BufferSlice {
    /// The range lies within the buffer.
    pub open spec fn wf(&self) -> bool {
        self.offset_spec() + self.size_spec() <= self.buffer_spec().size
    }

    pub closed spec fn buffer_spec(&self) -> UnsafeBuffer {
        *self.buffer
    }

    pub closed spec fn offset_spec(&self) -> usize {
        self.offset
    }

    pub closed spec fn size_spec(&self) -> usize {
        self.size
    }

    /// The range of `size` bytes from `offset` of `buffer`, or `None` when it does not lie
    /// within the buffer.
    pub fn new(buffer: &Arc<UnsafeBuffer>, offset: usize, size: usize) -> (r: Option<BufferSlice>)
        ensures
            r is Some <==> offset + size <= buffer.size,
            r matches Some(s) ==> s.buffer_spec() == **buffer && s.offset_spec() == offset
                && s.size_spec() == size && s.wf(),
    {
        match offset.checked_add(size) {
            Some(end) if end <= buffer.size => {
                Some(BufferSlice { buffer: buffer.clone(), offset, size })
            },
            _ => None,
        }
    }

    /// The range covering all of `buffer`.
    pub fn whole(buffer: &Arc<UnsafeBuffer>) -> (r: BufferSlice)
        ensures
            r.buffer_spec() == **buffer,
            r.offset_spec() == 0,
            r.size_spec() == buffer.size,
            r.wf(),
    {
        BufferSlice { buffer: buffer.clone(), offset: 0, size: buffer.size }
    }

    /// The buffer that the range belongs to.
    pub fn buffer(&self) -> (r: &Arc<UnsafeBuffer>)
        ensures
            **r == self.buffer_spec(),
    {
        &self.buffer
    }

    /// Offset of the first byte of the range.
    pub fn offset(&self) -> (r: usize)
        ensures
            r == self.offset_spec(),
    {
        self.offset
    }

    /// Size of the range in bytes.
    pub fn size(&self) -> (r: usize)
        ensures
            r == self.size_spec(),
    {
        self.size
    }
}

/// The queue family that a command pool allocates for.
#[derive(Debug, Clone, Copy, PartialEq, Eq)]
pub struct QueueFamily {
    /// Index of the family on its physical device.
    pub id: u32,
    /// Queues of the family accept graphics commands.
    pub supports_graphics: bool,
    /// Queues of the family accept compute commands.
    pub supports_compute: bool,
}

/// A pool that command buffers are allocated from, bound to one device and one queue family.
#[derive(Debug, Clone, Copy, PartialEq, Eq)]
pub struct CommandBufferPool {
    /// Identity of the device that owns the pool.
    pub device: u64,
    /// The queue family of the command buffers allocated from the pool.
    pub queue_family: QueueFamily,
}

} // verus!
