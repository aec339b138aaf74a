use vstd::prelude::*;

use crate::region::BufferCopy;
use crate::region_list::{region_list_items, RegionList};

verus! {

/// A command in the device's native form, as it is appended to a command sequence.
#[derive(Debug, PartialEq, Eq)]
pub enum Command {
    /// Copies regions from the buffer object `src` to the buffer object `dst`.
    CopyBuffer { src: u64, dst: u64, regions: Vec<BufferCopy> },
    /// Writes `value` repeatedly over `size` bytes of `buffer` from `offset`.
    FillBuffer { buffer: u64, offset: u64, size: u64, value: u32 },
    /// Writes the bytes of `data` into `buffer` from `offset`.
    UpdateBuffer { buffer: u64, offset: u64, data: Vec<u8> },
}

/// The mathematical content of a [`Command`].
pub ghost enum CommandRecord {
    CopyBuffer { src: u64, dst: u64, regions: Seq<BufferCopy> },
    FillBuffer { buffer: u64, offset: u64, size: u64, value: u32 },
    UpdateBuffer { buffer: u64, offset: u64, data: Seq<u8> },
}

impl View for Command {
    type V = CommandRecord;

    open spec fn view(&self) -> CommandRecord {
        match self {
            Command::CopyBuffer { src, dst, regions } => CommandRecord::CopyBuffer {
                src: *src,
                dst: *dst,
                regions: regions@,
            },
            Command::FillBuffer { buffer, offset, size, value } => CommandRecord::FillBuffer {
                buffer: *buffer,
                offset: *offset,
                size: *size,
                value: *value,
            },
            Command::UpdateBuffer { buffer, offset, data } => CommandRecord::UpdateBuffer {
                buffer: *buffer,
                offset: *offset,
                data: data@,
            },
        }
    }
}

/// Encodes a copy of the validated `regions` from buffer object `src` to buffer object `dst`.
pub fn encode_copy(src: u64, dst: u64, regions: &RegionList) -> (c: Command)
    ensures
        c@ == (CommandRecord::CopyBuffer { src, dst, regions: region_list_items(*regions) }),
{
    Command::CopyBuffer { src, dst, regions: regions.to_vec() }
}

/// Encodes a fill of `size` bytes of buffer object `buffer` from `offset` with `data`.
pub fn encode_fill(buffer: u64, offset: usize, size: usize, data: u32) -> (c: Command)
    ensures
        c@ == (CommandRecord::FillBuffer {
            buffer,
            offset: offset as u64,
            size: size as u64,
            value: data,
        }),
{
    Command::FillBuffer { buffer, offset: offset as u64, size: size as u64, value: data }
}

/// Encodes a write of the first `size` bytes of `data` into buffer object `buffer` from
/// `offset`.
pub fn encode_update(buffer: u64, offset: usize, size: usize, data: &[u8]) -> (c: Command)
    requires
        size <= data@.len(),
    ensures
        c@ == (CommandRecord::UpdateBuffer {
            buffer,
            offset: offset as u64,
            data: data@.take(size as int),
        }),
{
    let mut out: Vec<u8> = Vec::new();
    let mut i: usize = 0;
    while i < size
        invariant
            size <= data@.len(),
            i <= size,
            out@ == data@.take(i as int),
        decreases size - i,
    {
        out.push(data[i]);
        assert(data@.take(i + 1) =~= data@.take(i as int).push(data@[i as int]));
        i = i + 1;
    }
    Command::UpdateBuffer { buffer, offset: offset as u64, data: out }
}

} // verus!
