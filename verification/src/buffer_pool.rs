//! A pool of buffers into which packets are read.

use crate::error::IoFailure;
use crate::text;
use std::collections::VecDeque;
use std::io::ErrorKind;
use vstd::prelude::*;

verus! {

/// A fixed-size, preallocated pool of buffers, all of one size. Buffers are handed out in the order
/// in which they came back.
pub struct BufferPool {
    free: VecDeque<Vec<u8>>,
    count: usize,
    buf_size: usize,
}

/// A buffer of a pool. Its first bytes are filled, the rest is there to be filled.
pub struct PooledBuffer {
    buffer: Vec<u8>,
    filled_len: usize,
}

impl BufferPool {
    /// The buffers that can be handed out, in that order.
    pub closed spec fn free(self) -> Seq<Seq<u8>> {
        self.free@.map_values(|buffer: Vec<u8>| buffer@)
    }

    /// How many buffers the pool was made with.
    pub closed spec fn count(self) -> nat {
        self.count as nat
    }

    /// The size of each buffer.
    pub closed spec fn buf_size(self) -> nat {
        self.buf_size as nat
    }

    /// How many buffers are handed out.
    pub open spec fn outstanding(self) -> int {
        self.count() - self.free().len()
    }

    /// The pool never holds more buffers than it was made with, and all are of one size.
    pub open spec fn wf(self) -> bool {
        &&& self.free().len() <= self.count()
        &&& forall|i: int| 0 <= i < self.free().len() ==> (#[trigger] self.free()[i]).len()
            == self.buf_size()
    }

    /// A pool of `count` buffers of `buf_size` zeros each.
    pub fn new(count: usize, buf_size: usize) -> (r: BufferPool)
        requires
            count > 0,
        ensures
            r.wf(),
            r.count() == count,
            r.buf_size() == buf_size,
            r.outstanding() == 0,
            forall|i: int|
                0 <= i < count ==> #[trigger] r.free()[i] == Seq::new(buf_size as nat, |j: int| 0u8),
    {
        let mut free: VecDeque<Vec<u8>> = VecDeque::new();
        let mut made: usize = 0;
        while made < count
            invariant
                made <= count,
                free@.len() == made,
                forall|i: int|
                    0 <= i < made ==> (#[trigger] free@[i])@ == Seq::new(
                        buf_size as nat,
                        |j: int| 0u8,
                    ),
            decreases count - made,
        {
            let mut buffer: Vec<u8> = Vec::new();
            buffer.resize(buf_size, 0);
            assert(buffer@ == Seq::new(buf_size as nat, |j: int| 0u8));
            free.push_back(buffer);
            made = made + 1;
        }
        BufferPool { free, count, buf_size }
    }

    /// Whether a pool hands out a buffer, if one is available.
    pub open spec fn hands_out(
        before: BufferPool,
        r: Option<PooledBuffer>,
        after: BufferPool,
    ) -> bool {
        &&& after.count() == before.count()
        &&& after.buf_size() == before.buf_size()
        &&& match r {
            Some(buffer) => {
                &&& before.free().len() > 0
                &&& buffer.bytes() == before.free()[0]
                &&& buffer.filled_len() == 0
                &&& after.free() == before.free().skip(1)
            },
            None => before.free().len() == 0 && after.free() == before.free(),
        }
    }

    /// Whether a pool takes back a buffer.
    pub open spec fn takes_back(
        before: BufferPool,
        buffer: PooledBuffer,
        after: BufferPool,
    ) -> bool {
        &&& after.count() == before.count()
        &&& after.buf_size() == before.buf_size()
        &&& after.free() == before.free().push(buffer.bytes())
    }

    /// Gets an empty buffer from the pool, if one is available.
    pub fn pop(&mut self) -> (r: Option<PooledBuffer>)
        requires
            old(self).wf(),
        ensures
            final(self).wf(),
            final(self).count() == old(self).count(),
            final(self).buf_size() == old(self).buf_size(),
            Self::hands_out(*old(self), r, *final(self)),
            r is Some <==> old(self).free().len() > 0,
            r is Some ==> {
                &&& r->0.wf()
                &&& r->0.bytes() == old(self).free()[0]
                &&& r->0.filled().len() == 0
                &&& final(self).free() == old(self).free().skip(1)
            },
            r is None ==> final(self).free() == old(self).free(),
    {
        let ghost before = self.free();
        match self.free.pop_front() {
            Some(buffer) => {
                assert(self.free() == before.skip(1));
                assert(before[0] == buffer@);
                Some(PooledBuffer { buffer, filled_len: 0 })
            },
            None => None,
        }
    }

    /// Takes back a buffer that was handed out.
    pub fn reclaim(&mut self, buffer: PooledBuffer)
        requires
            old(self).wf(),
            old(self).outstanding() > 0,
            buffer.bytes().len() == old(self).buf_size(),
        ensures
            final(self).wf(),
            final(self).count() == old(self).count(),
            final(self).buf_size() == old(self).buf_size(),
            Self::takes_back(*old(self), buffer, *final(self)),
            final(self).free() == old(self).free().push(buffer.bytes()),
    {
        let ghost before = self.free();
        self.free.push_back(buffer.buffer);
        assert(self.free() == before.push(buffer.bytes()));
    }

    /// How many buffers are available.
    pub fn available(&self) -> (r: usize)
        ensures
            r == self.free().len(),
    {
        self.free.len()
    }
}

impl PooledBuffer {
    /// The bytes of the buffer, filled or not.
    pub closed spec fn bytes(self) -> Seq<u8> {
        self.buffer@
    }

    /// How many bytes are filled.
    pub closed spec fn filled_len(self) -> nat {
        self.filled_len as nat
    }

    /// The bytes that are filled.
    pub open spec fn filled(self) -> Seq<u8> {
        self.bytes().take(self.filled_len() as int)
    }

    /// No more bytes are filled than the buffer has.
    pub open spec fn wf(self) -> bool {
        self.filled_len() <= self.bytes().len()
    }

    /// How many more bytes can be filled.
    pub fn remaining_mut(&self) -> (r: usize)
        requires
            self.wf(),
        ensures
            r == self.bytes().len() - self.filled_len(),
    {
        self.buffer.len() - self.filled_len
    }

    /// The bytes that can be filled.
    pub fn chunk_mut(&mut self) -> (r: &mut [u8])
        requires
            old(self).wf(),
        ensures
            r@ == old(self).bytes().skip(old(self).filled_len() as int),
            final(self).wf(),
            final(self).bytes() == old(self).filled() + final(r)@,
            final(self).filled_len() == old(self).filled_len(),
            final(self).filled() == old(self).filled(),
    {
        let (_, rest) = self.buffer.as_mut_slice().split_at_mut(self.filled_len);
        rest
    }

    /// Marks the next `cnt` bytes as filled.
    pub fn advance_mut(&mut self, cnt: usize)
        requires
            old(self).wf(),
            old(self).filled_len() + cnt <= old(self).bytes().len(),
        ensures
            final(self).wf(),
            final(self).bytes() == old(self).bytes(),
            final(self).filled_len() == old(self).filled_len() + cnt,
    {
        assert(self.buffer.len() == self.bytes().len());
        self.filled_len = self.filled_len + cnt;
    }

    /// Starts appending to what is filled.
    pub fn read_buf(self) -> (r: UpdatingReadBuf)
        requires
            self.wf(),
        ensures
            r.wf(),
            r.target() == self,
            r.filled_len() == 0,
    {
        UpdatingReadBuf { target: self, filled_len: 0 }
    }

    /// Makes the frame that was read into the buffer, of which the length is known, a read-only view
    /// of it.
    pub fn read_frame(self, len: usize) -> (r: PooledSlice)
        requires
            self.wf(),
            self.filled_len() + len <= self.bytes().len(),
        ensures
            r.wf(),
            r.owned().bytes() == self.bytes(),
            r.owned().filled_len() == self.filled_len() + len,
            r.owned().filled() == self.bytes().take(self.filled_len() + len),
    {
        let mut updater = self.read_buf();
        updater.advance(len);
        PooledSlice::new(updater.finish())
    }

    /// The bytes that are filled.
    pub fn as_slice(&self) -> (r: &[u8])
        requires
            self.wf(),
        ensures
            r@ == self.filled(),
    {
        vstd::slice::slice_subrange(self.buffer.as_slice(), 0, self.filled_len)
    }
}

/// Appends to a buffer. What was appended counts as filled once this is finished.
pub struct UpdatingReadBuf {
    target: PooledBuffer,
    filled_len: usize,
}

impl UpdatingReadBuf {
    /// The buffer that is appended to, as it was when this was started but for the bytes that were
    /// written.
    pub closed spec fn target(self) -> PooledBuffer {
        self.target
    }

    /// How many bytes were appended.
    pub closed spec fn filled_len(self) -> nat {
        self.filled_len as nat
    }

    /// What was appended fits in the buffer.
    pub open spec fn wf(self) -> bool {
        &&& self.target().wf()
        &&& self.target().filled_len() + self.filled_len() <= self.target().bytes().len()
    }

    /// The bytes after those that are filled, be they appended or not.
    pub fn initialized_mut(&mut self) -> (r: &mut [u8])
        requires
            old(self).wf(),
        ensures
            r@ == old(self).target().bytes().skip(old(self).target().filled_len() as int),
            final(self).target().wf(),
            final(self).target().bytes() == old(self).target().filled() + final(r)@,
            final(self).target().filled_len() == old(self).target().filled_len(),
            final(self).filled_len() == old(self).filled_len(),
    {
        self.target.chunk_mut()
    }

    /// Counts the next `n` bytes as appended.
    pub fn advance(&mut self, n: usize)
        requires
            old(self).wf(),
            old(self).target().filled_len() + old(self).filled_len() + n
                <= old(self).target().bytes().len(),
        ensures
            final(self).wf(),
            final(self).target() == old(self).target(),
            final(self).filled_len() == old(self).filled_len() + n,
    {
        assert(self.target.buffer.len() == self.target().bytes().len());
        self.filled_len = self.filled_len + n;
    }

    /// Gives back the buffer, with what was appended counted as filled.
    pub fn finish(self) -> (r: PooledBuffer)
        requires
            self.wf(),
        ensures
            r.wf(),
            r.bytes() == self.target().bytes(),
            r.filled_len() == self.target().filled_len() + self.filled_len(),
    {
        let mut target = self.target;
        target.advance_mut(self.filled_len);
        target
    }
}

/// An owning, read-only view of a buffer.
pub struct PooledSlice {
    owned: PooledBuffer,
}

impl PooledSlice {
    /// The buffer that is viewed.
    pub closed spec fn owned(self) -> PooledBuffer {
        self.owned
    }

    pub open spec fn wf(self) -> bool {
        self.owned().wf()
    }

    pub fn new(owned: PooledBuffer) -> (r: PooledSlice)
        ensures
            r.owned() == owned,
    {
        PooledSlice { owned }
    }

    /// Gives back the buffer.
    pub fn clear(self) -> (r: PooledBuffer)
        ensures
            r == self.owned(),
    {
        self.owned
    }

    /// The bytes that are filled.
    pub fn as_slice(&self) -> (r: &[u8])
        requires
            self.wf(),
        ensures
            r@ == self.owned().filled(),
    {
        self.owned.as_slice()
    }
}

/// A pool hands out a buffer exactly if one is available, and it is empty and of the size of the pool.
/// One more is outstanding then. If none is available, all are outstanding, and that stays so.
pub proof fn buffers_are_handed_out_while_there_are_any(
    before: BufferPool,
    r: Option<PooledBuffer>,
    after: BufferPool,
)
    requires
        before.wf(),
        BufferPool::hands_out(before, r, after),
    ensures
        r is Some <==> before.free().len() > 0,
        r is Some ==> r->0.filled().len() == 0 && r->0.bytes().len() == before.buf_size()
            && after.outstanding() == before.outstanding() + 1,
        r is None ==> before.outstanding() == before.count() && after.outstanding()
            == before.outstanding(),
        after.wf(),
{
}

/// What is taken back can be handed out again: taking back a buffer undoes handing one out, as far as
/// the number of buffers goes.
pub proof fn buffers_come_back(before: BufferPool, buffer: PooledBuffer, after: BufferPool)
    requires
        before.wf(),
        before.outstanding() > 0,
        buffer.bytes().len() == before.buf_size(),
        BufferPool::takes_back(before, buffer, after),
    ensures
        after.wf(),
        after.outstanding() == before.outstanding() - 1,
        after.free().len() > 0,
        after.free().last() == buffer.bytes(),
{
}

/// Buffers are handed out in the order in which they came back: the buffer that was taken back comes
/// after all that were free before, and it does come then. `pools` are what a pool becomes as the
/// buffers `popped` are handed out.
pub proof fn the_longest_free_buffer_is_next(
    before: BufferPool,
    buffer: PooledBuffer,
    pools: Seq<BufferPool>,
    popped: Seq<PooledBuffer>,
)
    requires
        pools.len() == popped.len() + 1,
        popped.len() == before.free().len() + 1,
        BufferPool::takes_back(before, buffer, pools[0]),
        forall|i: int|
            0 <= i < popped.len() ==> BufferPool::hands_out(
                #[trigger] pools[i],
                Some(popped[i]),
                pools[i + 1],
            ),
    ensures
        forall|i: int|
            0 <= i < before.free().len() ==> (#[trigger] popped[i]).bytes() == before.free()[i],
        popped.last().bytes() == buffer.bytes(),
        pools.last().free().len() == 0,
{
    let all = before.free().push(buffer.bytes());
    assert forall|i: int| 0 <= i <= popped.len() implies (#[trigger] pools[i]).free() == all.skip(i)
        by {
        the_rest_is_free(all, pools, popped, i);
    }
    assert forall|i: int| 0 <= i < popped.len() implies (#[trigger] popped[i]).bytes() == all[i] by {
        assert(BufferPool::hands_out(pools[i], Some(popped[i]), pools[i + 1]));
        assert(pools[i].free() == all.skip(i));
    }
    assert(pools[popped.len() as int].free() == all.skip(popped.len() as int));
    assert(popped[popped.len() - 1].bytes() == all[popped.len() - 1]);
}

proof fn the_rest_is_free(
    all: Seq<Seq<u8>>,
    pools: Seq<BufferPool>,
    popped: Seq<PooledBuffer>,
    n: int,
)
    requires
        pools.len() == popped.len() + 1,
        popped.len() == all.len(),
        pools[0].free() == all,
        0 <= n <= popped.len(),
        forall|i: int|
            0 <= i < popped.len() ==> BufferPool::hands_out(
                #[trigger] pools[i],
                Some(popped[i]),
                pools[i + 1],
            ),
    ensures
        pools[n].free() == all.skip(n),
    decreases n,
{
    if n > 0 {
        the_rest_is_free(all, pools, popped, n - 1);
        assert(BufferPool::hands_out(pools[n - 1], Some(popped[n - 1]), pools[n]));
        assert(all.skip(n - 1).skip(1) == all.skip(n));
    } else {
        assert(all.skip(0) == all);
    }
}

/// What is filled of a buffer are its first bytes, as many as were marked as filled; marking more of
/// them keeps those that were marked before.
pub proof fn the_first_bytes_are_filled(buffer: PooledBuffer, more: PooledBuffer)
    requires
        buffer.wf(),
        more.wf(),
        more.bytes() == buffer.bytes(),
        more.filled_len() >= buffer.filled_len(),
    ensures
        buffer.filled().len() == buffer.filled_len(),
        forall|i: int| 0 <= i < buffer.filled().len() ==> #[trigger] buffer.filled()[i]
            == buffer.bytes()[i],
        buffer.filled().is_prefix_of(more.filled()),
{
    assert(more.filled().take(buffer.filled_len() as int) == buffer.filled());
}

/// The message for a frame of which not all bytes were written.
pub open spec fn short_write_message(len: nat, written: nat) -> Seq<char> {
    "Buffer length "@ + text::decimal(len) + " != written "@ + text::decimal(written)
}

/// Checks that a frame was written as a whole, given how many bytes of it were written.
pub fn write_frame(buffer: &[u8], written_len: usize) -> (r: Result<(), IoFailure>)
    ensures
        r is Ok <==> written_len == buffer@.len(),
        r is Err ==> {
            &&& r->Err_0.raw_os_error is None
            &&& r->Err_0.kind == ErrorKind::Other
            &&& r->Err_0.message@ == short_write_message(buffer@.len(), written_len as nat)
            &&& r->Err_0.message@ == "Buffer length "@ + text::decimal(buffer@.len())
                + " != written "@ + text::decimal(written_len as nat)
        },
{
    if written_len != buffer.len() {
        let mut message = "Buffer length ".to_owned();
        message.append(text::decimal_text(buffer.len()).as_str());
        message.append(" != written ");
        message.append(text::decimal_text(written_len).as_str());
        return Err(IoFailure { raw_os_error: None, kind: ErrorKind::Other, message });
    }
    Ok(())
}

} // verus!
