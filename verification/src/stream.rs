//! A seekable, byte-addressable stream over an in-memory buffer: the reading
//! side of the container protocol consumes one of these.

use vstd::prelude::*;

use crate::bytes::u32_of_be_bytes;
use crate::error::Error;

verus! {

/// A byte stream with an absolute cursor.
pub struct ByteStream {
    pub data: Vec<u8>,
    pub pos: usize,
}

impl ByteStream {
    /// Well formed: the cursor sits inside the buffer, at most one past its
    /// last byte.
    pub open spec fn wf(&self) -> bool {
        self.pos <= self.data@.len()
    }

    /// A stream over the given bytes, positioned at their start.
    pub fn new(data: Vec<u8>) -> (r: ByteStream)
        ensures
            r.wf(),
            r.data@ == data@,
            r.pos == 0,
    {
        ByteStream { data, pos: 0 }
    }

    /// The current cursor offset from the start of the stream.
    pub fn stream_position(&self) -> (r: usize)
        ensures
            r == self.pos,
    {
        self.pos
    }

    /// How many bytes remain between the cursor and the end of the stream.
    pub fn remaining(&self) -> (r: usize)
        requires
            self.wf(),
        ensures
            r == self.data@.len() - self.pos,
    {
        self.data.len() - self.pos
    }

    /// Reads a 32-bit big-endian value and advances the cursor by four;
    /// fails, moving nothing, when fewer than four bytes remain.
    pub fn read_u32_be(&mut self) -> (r: Result<u32, Error>)
        requires
            old(self).wf(),
        ensures
            final(self).wf(),
            final(self).data@ == old(self).data@,
            old(self).pos + 4 <= old(self).data@.len() ==> {
                &&& r == Ok::<u32, Error>(
                    u32_of_be_bytes(
                        old(self).data@.subrange(old(self).pos as int, old(self).pos + 4),
                    ),
                )
                &&& final(self).pos == old(self).pos + 4
            },
            old(self).pos + 4 > old(self).data@.len() ==> {
                &&& r == Err::<u32, Error>(Error::UnexpectedEof)
                &&& final(self).pos == old(self).pos
            },
    {
        if self.data.len() - self.pos < 4 {
            return Err(Error::UnexpectedEof);
        }
        let b0 = self.data[self.pos];
        let b1 = self.data[self.pos + 1];
        let b2 = self.data[self.pos + 2];
        let b3 = self.data[self.pos + 3];
        let v = crate::bytes::u32_from_be(b0, b1, b2, b3);
        self.pos = self.pos + 4;
        proof {
            assert(old(self).data@.subrange(old(self).pos as int, old(self).pos + 4) =~= seq![
                b0,
                b1,
                b2,
                b3,
            ]);
        }
        Ok(v)
    }

    /// Reads exactly `n` bytes into a fresh buffer and advances the cursor;
    /// fails, moving nothing, when fewer than `n` bytes remain.
    pub fn read_bytes(&mut self, n: usize) -> (r: Result<Vec<u8>, Error>)
        requires
            old(self).wf(),
        ensures
            final(self).wf(),
            final(self).data@ == old(self).data@,
            old(self).pos + n <= old(self).data@.len() ==> {
                &&& r matches Ok(v) && v@ == old(self).data@.subrange(
                    old(self).pos as int,
                    old(self).pos + n,
                )
                &&& final(self).pos == old(self).pos + n
            },
            old(self).pos + n > old(self).data@.len() ==> {
                &&& r == Err::<Vec<u8>, Error>(Error::UnexpectedEof)
                &&& final(self).pos == old(self).pos
            },
    {
        if self.data.len() - self.pos < n {
            return Err(Error::UnexpectedEof);
        }
        let mut v: Vec<u8> = Vec::new();
        let mut i: usize = 0;
        while i < n
            invariant
                self == old(self),
                self.wf(),
                i <= n,
                self.pos + n <= self.data@.len(),
                self.data@.len() <= usize::MAX,
                v@ == self.data@.subrange(self.pos as int, self.pos + i),
            decreases n - i,
        {
            v.push(self.data[self.pos + i]);
            i = i + 1;
            proof {
                assert(v@ =~= old(self).data@.subrange(old(self).pos as int, old(self).pos + i));
            }
        }
        self.pos = self.pos + n;
        Ok(v)
    }
}

/// The byte offset at which the current box's header began: the cursor is
/// assumed to sit just past the fixed 8-byte header.
pub fn box_start(stream: &ByteStream) -> (r: u64)
    requires
        stream.pos >= 8,
    ensures
        r == stream.pos - 8,
{
    (stream.pos - 8) as u64
}

/// Repositions the cursor to an absolute offset; fails, moving nothing, when
/// the offset lies beyond the end of the stream.
pub fn skip_bytes_to(stream: &mut ByteStream, pos: u64) -> (r: Result<(), Error>)
    requires
        old(stream).wf(),
    ensures
        final(stream).wf(),
        final(stream).data@ == old(stream).data@,
        pos <= old(stream).data@.len() ==> {
            &&& r == Ok::<(), Error>(())
            &&& final(stream).pos == pos
        },
        pos > old(stream).data@.len() ==> {
            &&& r == Err::<(), Error>(Error::UnexpectedEof)
            &&& final(stream).pos == old(stream).pos
        },
{
    if pos <= stream.data.len() as u64 {
        stream.pos = pos as usize;
        Ok(())
    } else {
        Err(Error::UnexpectedEof)
    }
}

} // verus!
