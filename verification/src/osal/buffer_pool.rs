//! A pool of growing buffers, for devices that fill buffers that they own.

use crate::buffer_pool::write_frame;
use crate::error::IoFailure;
use std::collections::VecDeque;
use vstd::prelude::*;

verus! {

/// A fixed-size, preallocated pool of buffers. A buffer that is handed out is empty.
pub struct BufferPool {
    free: VecDeque<Vec<u8>>,
    count: usize,
}

/// A buffer of a pool, and what it is filled with.
pub struct PooledBuffer {
    buffer: Vec<u8>,
}

impl BufferPool {
    /// How many buffers can be handed out.
    pub closed spec fn available(self) -> nat {
        self.free@.len()
    }

    /// How many buffers the pool was made with.
    pub closed spec fn count(self) -> nat {
        self.count as nat
    }

    /// The pool never holds more buffers than it was made with, and all of them are empty.
    pub closed spec fn wf(self) -> bool {
        &&& self.free@.len() <= self.count
        &&& forall|i: int| 0 <= i < self.free@.len() ==> (#[trigger] self.free@[i])@.len() == 0
    }

    /// A pool of `count` buffers. Room for `buf_size` bytes is asked for when each of them is made;
    /// how much a buffer has is up to the allocator.
    pub fn new(count: usize, buf_size: usize) -> (r: BufferPool)
        requires
            count > 0,
        ensures
            r.wf(),
            r.count() == count,
            r.available() == count,
    {
        let mut free: VecDeque<Vec<u8>> = VecDeque::new();
        let mut made: usize = 0;
        while made < count
            invariant
                made <= count,
                free@.len() == made,
                forall|i: int| 0 <= i < made ==> (#[trigger] free@[i])@.len() == 0,
            decreases count - made,
        {
            free.push_back(Vec::with_capacity(buf_size));
            made = made + 1;
        }
        BufferPool { free, count }
    }

    /// Gets an empty buffer from the pool, if one is available.
    pub fn pop(&mut self) -> (r: Option<PooledBuffer>)
        requires
            old(self).wf(),
        ensures
            final(self).wf(),
            final(self).count() == old(self).count(),
            r is Some <==> old(self).available() > 0,
            r is Some ==> r->0.filled().len() == 0 && final(self).available() == old(
                self,
            ).available() - 1,
            r is None ==> final(self).available() == 0,
    {
        let ghost before = self.free@;
        match self.free.pop_front() {
            Some(buffer) => {
                assert(buffer@ == before[0]@);
                assert forall|i: int| 0 <= i < self.free@.len() implies (#[trigger] self.free@[i])@.len()
                    == 0 by {
                    assert(self.free@[i] == before[i + 1]);
                }
                Some(PooledBuffer { buffer })
            },
            None => None,
        }
    }

    /// Takes back a buffer that was handed out, and empties it.
    pub fn reclaim(&mut self, buffer: PooledBuffer)
        requires
            old(self).wf(),
            old(self).available() < old(self).count(),
        ensures
            final(self).wf(),
            final(self).count() == old(self).count(),
            final(self).available() == old(self).available() + 1,
    {
        let mut buffer = buffer.buffer;
        buffer.clear();
        self.free.push_back(buffer);
    }
}

impl PooledBuffer {
    /// What the buffer is filled with.
    pub closed spec fn filled(self) -> Seq<u8> {
        self.buffer@
    }

    /// Gives the buffer to a device, which is to hand it back with `read_frame`.
    pub fn into_vec(self) -> (r: Vec<u8>)
        ensures
            r@ == self.filled(),
    {
        self.buffer
    }

    /// Makes a buffer that a device has filled with a frame a read-only view of it.
    pub fn read_frame(read_buf: Vec<u8>) -> (r: PooledSlice)
        ensures
            r.owned().filled() == read_buf@,
    {
        PooledSlice::new(PooledBuffer { buffer: read_buf })
    }

    /// Checks that the frame in the buffer was written as a whole, given how many bytes of it were
    /// written.
    pub fn write_frame(&self, written_len: usize) -> (r: Result<(), IoFailure>)
        ensures
            r is Ok <==> written_len == self.filled().len(),
            r is Err ==> {
                &&& r->Err_0.raw_os_error is None
                &&& r->Err_0.kind == std::io::ErrorKind::Other
                &&& r->Err_0.message@ == crate::buffer_pool::short_write_message(
                    self.filled().len(),
                    written_len as nat,
                )
            },
    {
        write_frame(self.buffer.as_slice(), written_len)
    }

    /// What the buffer is filled with.
    pub fn as_slice(&self) -> (r: &[u8])
        ensures
            r@ == self.filled(),
    {
        self.buffer.as_slice()
    }
}

/// An owning, read-only view of a buffer.
pub struct PooledSlice {
    owned: PooledBuffer,
}

impl PooledSlice {
    /// The buffer that is viewed.
    pub closed spec fn owned(self) -> PooledBuffer {
        self.owned
    }

    pub fn new(owned: PooledBuffer) -> (r: PooledSlice)
        ensures
            r.owned() == owned,
    {
        PooledSlice { owned }
    }

    /// Gives back the buffer.
    pub fn into_buffer(self) -> (r: PooledBuffer)
        ensures
            r == self.owned(),
    {
        self.owned
    }

    /// What the buffer is filled with.
    pub fn as_slice(&self) -> (r: &[u8])
        ensures
            r@ == self.owned().filled(),
    {
        self.owned.as_slice()
    }
}

} // verus!
