//! An in-memory stand-in for a socket: one buffer that reads are served
//! from, one that writes go to, each with a position as a cursor has it.

use crate::types::Error;
use vstd::prelude::*;
use vstd::slice::{slice_subrange, slice_to_vec};

verus! {

/// What a buffer holds after `msg` is written at `at`: the bytes before
/// `at`, then `msg`, then what the message did not reach.
pub open spec fn overwritten(data: Seq<u8>, at: int, msg: Seq<u8>) -> Seq<u8> {
    if at + msg.len() <= data.len() {
        data.take(at) + msg + data.skip(at + msg.len())
    } else {
        data.take(at) + msg
    }
}

/// A duplex byte buffer with a read side and a write side.
pub struct MockStream {
    reader: Vec<u8>,
    read_pos: usize,
    writer: Vec<u8>,
    write_pos: usize,
}

impl MockStream {
    /// The bytes of the read side, read or not.
    pub closed spec fn incoming(&self) -> Seq<u8> {
        self.reader@
    }

    /// How many bytes of the read side have been read.
    pub closed spec fn read_position(&self) -> int {
        self.read_pos as int
    }

    /// The bytes of the write side.
    pub closed spec fn outgoing(&self) -> Seq<u8> {
        self.writer@
    }

    /// Where the next write lands in the write side.
    pub closed spec fn write_position(&self) -> int {
        self.write_pos as int
    }

    /// Both positions lie within their buffers.
    pub closed spec fn wf(&self) -> bool {
        &&& self.read_pos <= self.reader@.len()
        &&& self.write_pos <= self.writer@.len()
    }

    /// The bytes that reads have not handed out yet.
    pub open spec fn unread(&self) -> Seq<u8> {
        self.incoming().skip(self.read_position())
    }

    /// The write side is as in `before`.
    pub open spec fn same_write_side(&self, before: &MockStream) -> bool {
        &&& self.outgoing() == before.outgoing()
        &&& self.write_position() == before.write_position()
    }

    /// The read side is as in `before`.
    pub open spec fn same_read_side(&self, before: &MockStream) -> bool {
        &&& self.incoming() == before.incoming()
        &&& self.read_position() == before.read_position()
    }

    /// A stream with both sides empty.
    pub fn new() -> (r: MockStream)
        ensures
            r.wf(),
            r.incoming() == Seq::<u8>::empty(),
            r.outgoing() == Seq::<u8>::empty(),
            r.read_position() == 0,
            r.write_position() == 0,
    {
        MockStream { reader: Vec::new(), read_pos: 0, writer: Vec::new(), write_pos: 0 }
    }

    /// A stream whose reads are served from `vec`.
    pub fn with_vec(vec: Vec<u8>) -> (r: MockStream)
        ensures
            r.wf(),
            r.incoming() == vec@,
            r.outgoing() == Seq::<u8>::empty(),
            r.read_position() == 0,
            r.write_position() == 0,
    {
        MockStream { reader: vec, read_pos: 0, writer: Vec::new(), write_pos: 0 }
    }

    /// Where the next write lands in the write side.
    pub fn write_pos(&self) -> (r: usize)
        ensures
            r == self.write_position(),
    {
        self.write_pos
    }

    /// Hands out what was written, and empties the write side.
    pub fn take_vec(&mut self) -> (r: Vec<u8>)
        requires
            old(self).wf(),
        ensures
            r@ == old(self).outgoing(),
            final(self).wf(),
            final(self).outgoing() == Seq::<u8>::empty(),
            final(self).write_position() == 0,
            final(self).same_read_side(old(self)),
    {
        let mut vec: Vec<u8> = Vec::new();
        std::mem::swap(&mut vec, &mut self.writer);
        self.write_pos = 0;
        vec
    }

    /// Sets the bytes that the next reads are served from.
    pub fn next_vec(&mut self, vec: Vec<u8>)
        requires
            old(self).wf(),
        ensures
            final(self).wf(),
            final(self).incoming() == vec@,
            final(self).read_position() == 0,
            final(self).same_write_side(old(self)),
    {
        self.reader = vec;
        self.read_pos = 0;
    }

    /// Exchanges the two sides: what was written is there to read from its
    /// start, and the write side holds the read side's bytes, to be
    /// overwritten from their start.
    pub fn swap(&mut self)
        requires
            old(self).wf(),
        ensures
            final(self).wf(),
            final(self).incoming() == old(self).outgoing(),
            final(self).outgoing() == old(self).incoming(),
            final(self).read_position() == 0,
            final(self).write_position() == 0,
    {
        std::mem::swap(&mut self.reader, &mut self.writer);
        self.read_pos = 0;
        self.write_pos = 0;
    }

    /// Writes `msg` at the write position and moves the position behind it.
    pub fn write(&mut self, msg: &[u8]) -> (r: Result<usize, Error>)
        requires
            old(self).wf(),
            old(self).write_position() + msg@.len() <= usize::MAX,
        ensures
            r == Ok::<usize, Error>(msg@.len() as usize),
            final(self).wf(),
            final(self).outgoing() == overwritten(
                old(self).outgoing(),
                old(self).write_position(),
                msg@,
            ),
            final(self).write_position() == old(self).write_position() + msg@.len(),
            final(self).same_read_side(old(self)),
    {
        let at = self.write_pos;
        let end = at + msg.len();
        let mut data = slice_to_vec(slice_subrange(self.writer.as_slice(), 0, at));
        data.extend_from_slice(msg);
        if end <= self.writer.len() {
            let rest = slice_subrange(self.writer.as_slice(), end, self.writer.len());
            data.extend_from_slice(rest);
        }
        proof {
            let before = self.writer@;
            assert(before.subrange(0, at as int) =~= before.take(at as int));
            if end <= before.len() {
                assert(before.subrange(end as int, before.len() as int) =~= before.skip(
                    end as int,
                ));
            }
        }
        self.writer = data;
        self.write_pos = end;
        Ok(msg.len())
    }

    /// Nothing is buffered, so nothing is to be done.
    pub fn flush(&mut self) -> (r: Result<(), Error>)
        ensures
            r == Ok::<(), Error>(()),
            *final(self) == *old(self),
    {
        Ok(())
    }

    /// Reads up to `len` bytes: `len` of the unread ones, or all of them
    /// where they are fewer.
    pub fn read(&mut self, len: usize) -> (r: Vec<u8>)
        requires
            old(self).wf(),
        ensures
            final(self).wf(),
            r@.len() == if len <= old(self).unread().len() {
                len as int
            } else {
                old(self).unread().len() as int
            },
            r@ == old(self).unread().take(r@.len() as int),
            final(self).incoming() == old(self).incoming(),
            final(self).read_position() == old(self).read_position() + r@.len(),
            final(self).same_write_side(old(self)),
    {
        let left = self.reader.len() - self.read_pos;
        let n = if len <= left { len } else { left };
        let part = slice_subrange(self.reader.as_slice(), self.read_pos, self.read_pos + n);
        let r = slice_to_vec(part);
        assert(part@ =~= self.unread().take(n as int));
        self.read_pos = self.read_pos + n;
        r
    }

    /// Appends all unread bytes to `buf` and gives their number.
    pub fn read_to_end(&mut self, buf: &mut Vec<u8>) -> (r: Result<usize, Error>)
        requires
            old(self).wf(),
        ensures
            r == Ok::<usize, Error>(old(self).unread().len() as usize),
            final(buf)@ == old(buf)@ + old(self).unread(),
            final(self).wf(),
            final(self).incoming() == old(self).incoming(),
            final(self).read_position() == old(self).incoming().len(),
            final(self).same_write_side(old(self)),
    {
        let n = self.reader.len() - self.read_pos;
        let part = slice_subrange(self.reader.as_slice(), self.read_pos, self.reader.len());
        assert(part@ =~= self.unread());
        buf.extend_from_slice(part);
        self.read_pos = self.reader.len();
        Ok(n)
    }
}

} // verus!
