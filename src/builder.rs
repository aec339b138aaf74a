use std::sync::Arc;
use vstd::prelude::*;

use crate::command::{encode_copy, encode_fill, encode_update, Command, CommandRecord};
use crate::error::{BufferCopyError, BufferFillError, BufferUpdateError};
use crate::region::{copy_validation, validate_copy_regions, BufferCopyRegion};
use crate::region_list::{region_list_items, region_list_len};
use crate::resource::{BufferSlice, CommandBufferPool, UnsafeBuffer};

verus! {

/// Largest number of bytes that one buffer update may write.
pub const MAX_UPDATE_SIZE: usize = 65536;

/// Records commands for a device, checking each against the rules of the device, and keeps
/// alive every buffer that a recorded command uses.
pub struct UnsafeCommandBufferBuilder {
    // The native command sequence recorded so far.
    commands: Vec<Command>,
    pool: CommandBufferPool,
    // Resources that must be kept alive because they are used by this command buffer.
    keep_alive: Vec<Arc<UnsafeBuffer>>,
    // Pipeline object bound to the graphics bind point.
    current_graphics_pipeline: Option<u64>,
    // Pipeline object bound to the compute bind point.
    current_compute_pipeline: Option<u64>,
    secondary_cb: bool,
    within_render_pass: bool,
}

/// The state of a builder, as contracts speak of it.
pub ghost struct BuilderState {
    /// The commands recorded so far, in order.
    pub records: Seq<CommandRecord>,
    /// The buffers kept alive, in the order they were added.
    pub keep_alive: Seq<UnsafeBuffer>,
    pub pool: CommandBufferPool,
    pub current_graphics_pipeline: Option<u64>,
    pub current_compute_pipeline: Option<u64>,
    pub secondary: bool,
    pub within_render_pass: bool,
}

impl View for UnsafeCommandBufferBuilder {
    type V = BuilderState;

    closed spec fn view(&self) -> BuilderState {
        BuilderState {
            records: self.commands@.map_values(|c: Command| c@),
            keep_alive: self.keep_alive@.map_values(|b: Arc<UnsafeBuffer>| *b),
            pool: self.pool,
            current_graphics_pipeline: self.current_graphics_pipeline,
            current_compute_pipeline: self.current_compute_pipeline,
            secondary: self.secondary_cb,
            within_render_pass: self.within_render_pass,
        }
    }
}

impl BuilderState {
    /// `self` is `old` with the command `c` appended and the buffers `used` kept alive.
    pub open spec fn appended(
        self,
        old: BuilderState,
        c: CommandRecord,
        used: Seq<UnsafeBuffer>,
    ) -> bool {
        self == BuilderState {
            records: old.records.push(c),
            keep_alive: old.keep_alive + used,
            ..old
        }
    }
}

/// What a copy between `src` and `dest` over `rs` does: the error it returns, or the command
/// it records (`None` when every region is empty).
pub open spec fn copy_outcome(
    within_render_pass: bool,
    src: UnsafeBuffer,
    dest: UnsafeBuffer,
    rs: Seq<BufferCopyRegion>,
) -> Result<Option<CommandRecord>, BufferCopyError> {
    if within_render_pass {
        Err(BufferCopyError::ForbiddenWithinRenderPass)
    } else if !src.usage_transfer_src || !dest.usage_transfer_dest {
        Err(BufferCopyError::WrongUsageFlag)
    } else {
        match copy_validation(rs, src.size as int, dest.size as int, src.object == dest.object) {
            Err(e) => Err(e),
            Ok(cs) => if cs.len() == 0 {
                Ok(None)
            } else {
                let c = CommandRecord::CopyBuffer { src: src.object, dst: dest.object, regions: cs };
                Ok(Some(c))
            },
        }
    }
}

/// What filling `size` bytes of `buffer` from `offset` with `data` does.
pub open spec fn fill_outcome(
    within_render_pass: bool,
    pool: CommandBufferPool,
    buffer: UnsafeBuffer,
    offset: usize,
    size: usize,
    data: u32,
) -> Result<Option<CommandRecord>, BufferFillError> {
    if within_render_pass {
        Err(BufferFillError::ForbiddenWithinRenderPass)
    } else if !buffer.usage_transfer_src {
        Err(BufferFillError::WrongUsageFlag)
    } else if offset % 4 != 0 || size % 4 != 0 {
        Err(BufferFillError::WrongAlignment)
    } else if size == 0 {
        Ok(None)
    } else if !pool.queue_family.supports_graphics && !pool.queue_family.supports_compute {
        Err(BufferFillError::NotSupportedByQueueFamily)
    } else {
        Ok(
            Some(
                CommandRecord::FillBuffer {
                    buffer: buffer.object,
                    offset: offset as u64,
                    size: size as u64,
                    value: data,
                },
            ),
        )
    }
}

/// What writing `data` over `size` bytes of `buffer` from `offset` does.
pub open spec fn update_outcome(
    within_render_pass: bool,
    buffer: UnsafeBuffer,
    offset: usize,
    size: usize,
    data: Seq<u8>,
) -> Result<Option<CommandRecord>, BufferUpdateError> {
    if within_render_pass {
        Err(BufferUpdateError::ForbiddenWithinRenderPass)
    } else if !buffer.usage_transfer_src {
        Err(BufferUpdateError::WrongUsageFlag)
    } else if offset % 4 != 0 || size % 4 != 0 {
        Err(BufferUpdateError::WrongAlignment)
    } else if size == 0 {
        Ok(None)
    } else if size > MAX_UPDATE_SIZE {
        Err(BufferUpdateError::RegionTooLarge)
    } else if data.len() < size {
        Err(BufferUpdateError::DataTooSmall)
    } else {
        Ok(
            Some(
                CommandRecord::UpdateBuffer {
                    buffer: buffer.object,
                    offset: offset as u64,
                    data: data.take(size as int),
                },
            ),
        )
    }
}

impl UnsafeCommandBufferBuilder {
    /// A builder with no command recorded, allocated from `pool`.
    pub fn new(pool: CommandBufferPool, secondary: bool) -> (r: UnsafeCommandBufferBuilder)
        ensures
            r@ == (BuilderState {
                records: Seq::empty(),
                keep_alive: Seq::empty(),
                pool,
                current_graphics_pipeline: None,
                current_compute_pipeline: None,
                secondary,
                within_render_pass: false,
            }),
    {
        let r = UnsafeCommandBufferBuilder {
            commands: Vec::new(),
            pool,
            keep_alive: Vec::new(),
            current_graphics_pipeline: None,
            current_compute_pipeline: None,
            secondary_cb: secondary,
            within_render_pass: false,
        };
        assert(r@.records =~= Seq::empty());
        assert(r@.keep_alive =~= Seq::empty());
        r
    }

    proof fn lemma_push_command(old_cmds: Seq<Command>, c: Command)
        ensures
            old_cmds.push(c).map_values(|x: Command| x@) == old_cmds.map_values(
                |x: Command| x@,
            ).push(c@),
    {
        assert(old_cmds.push(c).map_values(|x: Command| x@) =~= old_cmds.map_values(
            |x: Command| x@,
        ).push(c@));
    }

    /// Adds a command that copies regions between a source and a destination buffer.
    ///
    /// Regions whose size is 0 are ignored. If no region was passed or if all regions have a
    /// size of 0, no command is added. On an error the builder is left as it was.
    pub fn copy_buffer_untyped(
        &mut self,
        src: &Arc<UnsafeBuffer>,
        dest: &Arc<UnsafeBuffer>,
        regions: &[BufferCopyRegion],
    ) -> (r: Result<(), BufferCopyError>)
        requires
            src.device == old(self)@.pool.device,
            dest.device == old(self)@.pool.device,
        ensures
            match copy_outcome(old(self)@.within_render_pass, **src, **dest, regions@) {
                Err(e) => r == Err::<(), BufferCopyError>(e) && *final(self) == *old(self),
                Ok(None) => r is Ok && *final(self) == *old(self),
                Ok(Some(c)) => r is Ok && final(self)@.appended(old(self)@, c, seq![**src, **dest]),
            },
    {
        if self.within_render_pass {
            return Err(BufferCopyError::ForbiddenWithinRenderPass);
        }
        if !src.usage_transfer_src || !dest.usage_transfer_dest {
            return Err(BufferCopyError::WrongUsageFlag);
        }
        let same_object = src.object == dest.object;
        let list = match validate_copy_regions(regions, src.size, dest.size, same_object) {
            Ok(list) => list,
            Err(e) => return Err(e),
        };
        if region_list_len(&list) == 0 {
            return Ok(());
        }
        let c = encode_copy(src.object, dest.object, &list);
        let ghost old_cmds = self.commands@;
        let ghost old_kept = self.keep_alive@;
        self.keep_alive.push(src.clone());
        self.keep_alive.push(dest.clone());
        self.commands.push(c);
        proof {
            Self::lemma_push_command(old_cmds, c);
            assert(self.keep_alive@.map_values(|b: Arc<UnsafeBuffer>| *b) =~= old_kept.map_values(
                |b: Arc<UnsafeBuffer>| *b,
            ) + seq![**src, **dest]);
        }
        Ok(())
    }

    /// Adds a command that fills the range of `buffer` with `data`, a `u32` written over and
    /// over.
    ///
    /// If the range is empty, no command is added. On an error the builder is left as it was.
    pub fn fill_buffer_untyped(&mut self, buffer: &BufferSlice, data: u32) -> (r: Result<
        (),
        BufferFillError,
    >)
        requires
            buffer.wf(),
            buffer.buffer_spec().device == old(self)@.pool.device,
        ensures
            match fill_outcome(
                old(self)@.within_render_pass,
                old(self)@.pool,
                buffer.buffer_spec(),
                buffer.offset_spec(),
                buffer.size_spec(),
                data,
            ) {
                Err(e) => r == Err::<(), BufferFillError>(e) && *final(self) == *old(self),
                Ok(None) => r is Ok && *final(self) == *old(self),
                Ok(Some(c)) => r is Ok && final(self)@.appended(
                    old(self)@,
                    c,
                    seq![buffer.buffer_spec()],
                ),
            },
    {
        let target = buffer.buffer();
        let offset = buffer.offset();
        let size = buffer.size();
        if self.within_render_pass {
            return Err(BufferFillError::ForbiddenWithinRenderPass);
        }
        if !target.usage_transfer_src {
            return Err(BufferFillError::WrongUsageFlag);
        }
        if offset % 4 != 0 || size % 4 != 0 {
            return Err(BufferFillError::WrongAlignment);
        }
        if size == 0 {
            return Ok(());
        }
        if !self.pool.queue_family.supports_graphics && !self.pool.queue_family.supports_compute {
            return Err(BufferFillError::NotSupportedByQueueFamily);
        }
        let c = encode_fill(target.object, offset, size, data);
        let ghost old_cmds = self.commands@;
        let ghost old_kept = self.keep_alive@;
        self.keep_alive.push(target.clone());
        self.commands.push(c);
        proof {
            Self::lemma_push_command(old_cmds, c);
            assert(self.keep_alive@.map_values(|b: Arc<UnsafeBuffer>| *b) =~= old_kept.map_values(
                |b: Arc<UnsafeBuffer>| *b,
            ) + seq![buffer.buffer_spec()]);
        }
        Ok(())
    }

    /// Adds a command that writes the first bytes of `data` into the range of `buffer`.
    ///
    /// The size of the range decides how many bytes are written: bytes of `data` past it are
    /// ignored, and a `data` shorter than the range is an error. If the range is empty, no
    /// command is added. On an error the builder is left as it was.
    pub fn update_buffer_untyped(&mut self, buffer: &BufferSlice, data: &[u8]) -> (r: Result<
        (),
        BufferUpdateError,
    >)
        requires
            buffer.wf(),
            buffer.buffer_spec().device == old(self)@.pool.device,
        ensures
            match update_outcome(
                old(self)@.within_render_pass,
                buffer.buffer_spec(),
                buffer.offset_spec(),
                buffer.size_spec(),
                data@,
            ) {
                Err(e) => r == Err::<(), BufferUpdateError>(e) && *final(self) == *old(self),
                Ok(None) => r is Ok && *final(self) == *old(self),
                Ok(Some(c)) => r is Ok && final(self)@.appended(
                    old(self)@,
                    c,
                    seq![buffer.buffer_spec()],
                ),
            },
    {
        let target = buffer.buffer();
        let offset = buffer.offset();
        let size = buffer.size();
        if self.within_render_pass {
            return Err(BufferUpdateError::ForbiddenWithinRenderPass);
        }
        if !target.usage_transfer_src {
            return Err(BufferUpdateError::WrongUsageFlag);
        }
        if offset % 4 != 0 || size % 4 != 0 {
            return Err(BufferUpdateError::WrongAlignment);
        }
        if size == 0 {
            return Ok(());
        }
        if size > MAX_UPDATE_SIZE {
            return Err(BufferUpdateError::RegionTooLarge);
        }
        if data.len() < size {
            return Err(BufferUpdateError::DataTooSmall);
        }
        let c = encode_update(target.object, offset, size, data);
        let ghost old_cmds = self.commands@;
        let ghost old_kept = self.keep_alive@;
        self.keep_alive.push(target.clone());
        self.commands.push(c);
        proof {
            Self::lemma_push_command(old_cmds, c);
            assert(self.keep_alive@.map_values(|b: Arc<UnsafeBuffer>| *b) =~= old_kept.map_values(
                |b: Arc<UnsafeBuffer>| *b,
            ) + seq![buffer.buffer_spec()]);
        }
        Ok(())
    }

    /// Enters a render-pass scope: buffer transfers are refused until it ends.
    pub fn begin_render_pass(&mut self)
        requires
            !old(self)@.within_render_pass,
        ensures
            final(self)@ == (BuilderState { within_render_pass: true, ..old(self)@ }),
    {
        self.within_render_pass = true;
    }

    /// Leaves the current render-pass scope.
    pub fn end_render_pass(&mut self)
        requires
            old(self)@.within_render_pass,
        ensures
            final(self)@ == (BuilderState { within_render_pass: false, ..old(self)@ }),
    {
        self.within_render_pass = false;
    }

    /// True if the builder is within a render pass.
    pub fn within_render_pass(&self) -> (r: bool)
        ensures
            r == self@.within_render_pass,
    {
        self.within_render_pass
    }

    /// True if the builder records a secondary command buffer.
    pub fn is_secondary(&self) -> (r: bool)
        ensures
            r == self@.secondary,
    {
        self.secondary_cb
    }

    /// The pool that the builder was allocated from.
    pub fn pool(&self) -> (r: CommandBufferPool)
        ensures
            r == self@.pool,
    {
        self.pool
    }

    /// The pipeline object bound to the graphics bind point, if any.
    pub fn current_graphics_pipeline(&self) -> (r: Option<u64>)
        ensures
            r == self@.current_graphics_pipeline,
    {
        self.current_graphics_pipeline
    }

    /// The pipeline object bound to the compute bind point, if any.
    pub fn current_compute_pipeline(&self) -> (r: Option<u64>)
        ensures
            r == self@.current_compute_pipeline,
    {
        self.current_compute_pipeline
    }

    /// The commands recorded so far, in order.
    pub fn commands(&self) -> (r: &Vec<Command>)
        ensures
            r@.map_values(|c: Command| c@) == self@.records,
    {
        &self.commands
    }

    /// The buffers kept alive so far, in the order they were added.
    pub fn keep_alive(&self) -> (r: &Vec<Arc<UnsafeBuffer>>)
        ensures
            r@.map_values(|b: Arc<UnsafeBuffer>| *b) == self@.keep_alive,
    {
        &self.keep_alive
    }
}

} // verus!
