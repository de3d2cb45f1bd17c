//! Descriptors of device buffers and the arithmetic of their updates.

use vstd::prelude::*;

verus! {

/// The size in bytes of one element of a buffer's contents, a 32-bit scalar
/// or integer.
pub const ELEMENT_BYTES: usize = 4;

/// The byte range of a buffer that an update writes.
#[derive(Clone, Copy, Debug, PartialEq, Eq, Structural)]
pub struct BufferRange {
    pub offset: isize,
    pub byte_count: isize,
}

/// The number of bytes that an update of `requested` bytes at `offset` may
/// write into a buffer of `capacity` bytes: the request itself where it ends
/// inside the buffer, otherwise only what is left between `offset` and the
/// buffer's end.
pub open spec fn clamped_byte_count(requested: int, offset: int, capacity: int) -> int {
    if offset + requested > capacity {
        capacity - offset
    } else {
        requested
    }
}

/// A clamped update never ends past the buffer and never writes more than
/// was asked for. It writes all that was asked for exactly when the request
/// ends inside the buffer.
pub proof fn lemma_clamped_update_stays_inside(requested: int, offset: int, capacity: int)
    ensures
        offset + clamped_byte_count(requested, offset, capacity) <= capacity,
        clamped_byte_count(requested, offset, capacity) <= requested,
        clamped_byte_count(requested, offset, capacity) == requested <==> offset + requested
            <= capacity,
{
}

/// A copyable name of a buffer: the handle of the device buffer object and
/// the target class it binds to, neither of which changes while the buffer
/// lives.
#[derive(Clone, Copy, Debug, PartialEq, Eq, Structural)]
pub struct BufferBinding {
    pub handle: u32,
    pub target: u32,
}

/// A device buffer object: its handle, its capacity in bytes, the target
/// class it binds to and its usage hint. The record has one owner and
/// cannot be copied, so the capacity is written down in one place only.
#[derive(Debug)]
pub struct Buffer {
    handle: u32,
    size: isize,
    buffer_type: u32,
    usage: u32,
}

impl Buffer {
    #[verifier::type_invariant]
    spec fn size_is_a_byte_count(self) -> bool {
        0 <= self.size
    }

    pub closed spec fn spec_handle(&self) -> u32 {
        self.handle
    }

    pub closed spec fn spec_size(&self) -> isize {
        self.size
    }

    pub closed spec fn spec_type(&self) -> u32 {
        self.buffer_type
    }

    pub closed spec fn spec_usage(&self) -> u32 {
        self.usage
    }

    /// The name under which the buffer is bound.
    pub open spec fn spec_binding(&self) -> BufferBinding {
        BufferBinding { handle: self.spec_handle(), target: self.spec_type() }
    }

    /// The name under which the buffer is bound.
    #[verifier::when_used_as_spec(spec_binding)]
    pub fn binding(&self) -> (name: BufferBinding)
        ensures
            name == self.spec_binding(),
    {
        BufferBinding { handle: self.handle, target: self.buffer_type }
    }

    /// Describes the empty buffer that the device created under `handle`.
    /// The device reports a failed creation as handle 0, and then there is
    /// no buffer.
    pub fn new(handle: u32, buffer_type: u32, usage: u32) -> (buffer: Option<Buffer>)
        ensures
            handle == 0 <==> buffer is None,
            buffer matches Some(b) ==> {
                &&& b.spec_handle() == handle
                &&& b.spec_size() == 0
                &&& b.spec_type() == buffer_type
                &&& b.spec_usage() == usage
            },
    {
        if handle == 0 {
            None
        } else {
            Some(Buffer { handle, size: 0, buffer_type, usage })
        }
    }

    /// Describes the buffer that the device created under `handle` with
    /// storage of exactly `capacity` bytes.
    pub fn new_with_capacity(handle: u32, buffer_type: u32, usage: u32, capacity: u32) -> (buffer:
        Option<Buffer>)
        requires
            capacity <= isize::MAX,
        ensures
            handle == 0 <==> buffer is None,
            buffer matches Some(b) ==> {
                &&& b.spec_handle() == handle
                &&& b.spec_size() == capacity
                &&& b.spec_type() == buffer_type
                &&& b.spec_usage() == usage
            },
    {
        if handle == 0 {
            None
        } else {
            Some(Buffer { handle, size: capacity as isize, buffer_type, usage })
        }
    }

    /// Clamps an update of `byte_count` bytes at `dst_offset` to the
    /// buffer's capacity. A request that would end past the buffer is cut
    /// down to the bytes between `dst_offset` and the end; it is never
    /// refused.
    pub fn copy_data_part(&self, byte_count: isize, dst_offset: isize) -> (range: BufferRange)
        ensures
            range.offset == dst_offset,
            range.byte_count == clamped_byte_count(
                byte_count as int,
                dst_offset as int,
                self.spec_size() as int,
            ),
            range.offset + range.byte_count <= self.spec_size(),
    {
        proof {
            use_type_invariant(self);
        }
        let end: i128 = dst_offset as i128 + byte_count as i128;
        if end > self.size as i128 {
            BufferRange { offset: dst_offset, byte_count: self.size - dst_offset }
        } else {
            BufferRange { offset: dst_offset, byte_count }
        }
    }

    /// Clamps an update with `element_count` four-byte elements at byte
    /// `offset` to the buffer's capacity, as `copy_data_part` does for a
    /// count of bytes.
    pub fn copy_data(&self, element_count: usize, offset: isize) -> (range: BufferRange)
        requires
            element_count * ELEMENT_BYTES <= isize::MAX,
        ensures
            range.offset == offset,
            range.byte_count == clamped_byte_count(
                element_count * ELEMENT_BYTES,
                offset as int,
                self.spec_size() as int,
            ),
    {
        self.copy_data_part((element_count * 4) as isize, offset)
    }

    /// Replaces the contents of the buffer by `element_count` scalars of
    /// four bytes each. The buffer's capacity becomes the size of the new
    /// contents, which is returned: the device has to allocate that many
    /// bytes afresh and then fill them.
    pub fn set_data(&mut self, element_count: usize) -> (byte_count: isize)
        requires
            element_count * ELEMENT_BYTES <= isize::MAX,
        ensures
            byte_count == element_count * ELEMENT_BYTES,
            final(self).spec_size() == byte_count,
            final(self).spec_handle() == old(self).spec_handle(),
            final(self).spec_type() == old(self).spec_type(),
            final(self).spec_usage() == old(self).spec_usage(),
    {
        self.resize_to(element_count)
    }

    /// Replaces the contents of the buffer by `element_count` unsigned
    /// 32-bit integers, as `set_data` does for scalars.
    pub fn set_data_u32(&mut self, element_count: usize) -> (byte_count: isize)
        requires
            element_count * ELEMENT_BYTES <= isize::MAX,
        ensures
            byte_count == element_count * ELEMENT_BYTES,
            final(self).spec_size() == byte_count,
            final(self).spec_handle() == old(self).spec_handle(),
            final(self).spec_type() == old(self).spec_type(),
            final(self).spec_usage() == old(self).spec_usage(),
    {
        self.resize_to(element_count)
    }

    fn resize_to(&mut self, element_count: usize) -> (byte_count: isize)
        requires
            element_count * ELEMENT_BYTES <= isize::MAX,
        ensures
            byte_count == element_count * ELEMENT_BYTES,
            final(self).spec_size() == byte_count,
            final(self).spec_handle() == old(self).spec_handle(),
            final(self).spec_type() == old(self).spec_type(),
            final(self).spec_usage() == old(self).spec_usage(),
    {
        let byte_count: isize = (element_count * 4) as isize;
        self.size = byte_count;
        byte_count
    }

    #[verifier::when_used_as_spec(spec_size)]
    pub fn get_size(&self) -> (size: isize)
        ensures
            size == self.spec_size(),
            size >= 0,
    {
        proof {
            use_type_invariant(self);
        }
        self.size
    }

    #[verifier::when_used_as_spec(spec_type)]
    pub fn get_type(&self) -> (buffer_type: u32)
        ensures
            buffer_type == self.spec_type(),
    {
        self.buffer_type
    }

    #[verifier::when_used_as_spec(spec_usage)]
    pub fn get_usage(&self) -> (usage: u32)
        ensures
            usage == self.spec_usage(),
    {
        self.usage
    }

    #[verifier::when_used_as_spec(spec_handle)]
    pub fn get_handle(&self) -> (handle: u32)
        ensures
            handle == self.spec_handle(),
    {
        self.handle
    }
}

} // verus!
