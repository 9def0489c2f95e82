use vstd::prelude::*;

use crate::codec::{le16, u16_to_le, CodecError};

verus! {

/// Appends bytes to a buffer that may not grow past a fixed capacity.
pub struct WriteCursor {
    buf: Vec<u8>,
    cap: usize,
}

impl WriteCursor {
    /// The bytes written so far.
    pub closed spec fn written(&self) -> Seq<u8> {
        self.buf@
    }

    /// The number of bytes the cursor may hold in all.
    pub closed spec fn capacity(&self) -> nat {
        self.cap as nat
    }

    pub closed spec fn wf(&self) -> bool {
        self.buf@.len() <= self.cap
    }

    /// A cursor with room for `cap` bytes.
    pub fn new(cap: usize) -> (r: WriteCursor)
        ensures
            r.wf(),
            r.written() == Seq::<u8>::empty(),
            r.capacity() == cap,
    {
        WriteCursor { buf: Vec::new(), cap }
    }

    /// Bytes written so far.
    pub fn len(&self) -> (r: usize)
        requires
            self.wf(),
        ensures
            r == self.written().len(),
    {
        self.buf.len()
    }

    /// Room left.
    pub fn available(&self) -> (r: usize)
        requires
            self.wf(),
        ensures
            r == self.capacity() - self.written().len(),
    {
        self.cap - self.buf.len()
    }

    /// Appends `bytes` if they fit; otherwise leaves the cursor unchanged.
    pub fn append(&mut self, bytes: &[u8]) -> (r: Result<(), CodecError>)
        requires
            old(self).wf(),
        ensures
            final(self).wf(),
            final(self).capacity() == old(self).capacity(),
            old(self).written().len() + bytes@.len() <= old(self).capacity() ==> r is Ok
                && final(self).written() == old(self).written() + bytes@,
            old(self).written().len() + bytes@.len() > old(self).capacity() ==> r
                == Err::<(), CodecError>(CodecError::InsufficientSpace) && final(self).written()
                == old(self).written(),
    {
        if bytes.len() > self.cap - self.buf.len() {
            return Err(CodecError::InsufficientSpace);
        }
        let ghost start = self.buf@;
        let mut i: usize = 0;
        while i < bytes.len()
            invariant
                i <= bytes@.len(),
                self.cap == old(self).cap,
                start == old(self).buf@,
                start.len() + bytes@.len() <= self.cap,
                self.buf@ == start + bytes@.subrange(0, i as int),
            decreases bytes@.len() - i,
        {
            self.buf.push(bytes[i]);
            i += 1;
            assert(self.buf@ =~= start + bytes@.subrange(0, i as int));
        }
        assert(bytes@.subrange(0, bytes@.len() as int) =~= bytes@);
        Ok(())
    }

    /// Appends one byte.
    pub fn write_u8(&mut self, v: u8) -> (r: Result<(), CodecError>)
        requires
            old(self).wf(),
        ensures
            final(self).wf(),
            final(self).capacity() == old(self).capacity(),
            old(self).written().len() + 1 <= old(self).capacity() ==> r is Ok
                && final(self).written() == old(self).written().push(v),
            old(self).written().len() + 1 > old(self).capacity() ==> r == Err::<(), CodecError>(
                CodecError::InsufficientSpace,
            ) && final(self).written() == old(self).written(),
    {
        if self.buf.len() >= self.cap {
            return Err(CodecError::InsufficientSpace);
        }
        self.buf.push(v);
        Ok(())
    }

    /// Appends a 16-bit value, little-endian.
    pub fn write_u16(&mut self, v: u16) -> (r: Result<(), CodecError>)
        requires
            old(self).wf(),
        ensures
            final(self).wf(),
            final(self).capacity() == old(self).capacity(),
            old(self).written().len() + 2 <= old(self).capacity() ==> r is Ok
                && final(self).written() == old(self).written() + le16(v),
            old(self).written().len() + 2 > old(self).capacity() ==> r == Err::<(), CodecError>(
                CodecError::InsufficientSpace,
            ) && final(self).written() == old(self).written(),
    {
        let b = u16_to_le(v);
        self.append(b.as_slice())
    }

    /// The bytes written, as a vector.
    pub fn into_bytes(self) -> (r: Vec<u8>)
        requires
            self.wf(),
        ensures
            r@ == self.written(),
            r@.len() <= self.capacity(),
    {
        self.buf
    }
}

/// Reads bytes front to back from a buffer it owns.
pub struct ReadCursor {
    data: Vec<u8>,
    pos: usize,
}

impl ReadCursor {
    /// The bytes not read yet.
    pub closed spec fn remaining(&self) -> Seq<u8> {
        self.data@.subrange(self.pos as int, self.data@.len() as int)
    }

    pub closed spec fn wf(&self) -> bool {
        self.pos <= self.data@.len()
    }

    /// A cursor at the start of `data`.
    pub fn new(data: &[u8]) -> (r: ReadCursor)
        ensures
            r.wf(),
            r.remaining() == data@,
    {
        let v = vstd::slice::slice_to_vec(data);
        let r = ReadCursor { data: v, pos: 0 };
        assert(r.remaining() =~= data@);
        r
    }

    /// Bytes not read yet.
    pub fn available(&self) -> (r: usize)
        requires
            self.wf(),
        ensures
            r == self.remaining().len(),
    {
        self.data.len() - self.pos
    }

    /// Reads one byte.
    pub fn read_u8(&mut self) -> (r: Result<u8, CodecError>)
        requires
            old(self).wf(),
        ensures
            final(self).wf(),
            old(self).remaining().len() >= 1 ==> r == Ok::<u8, CodecError>(
                old(self).remaining()[0],
            ) && final(self).remaining() == old(self).remaining().drop_first(),
            old(self).remaining().len() < 1 ==> r == Err::<u8, CodecError>(
                CodecError::InsufficientSpace,
            ) && final(self).remaining() == old(self).remaining(),
    {
        if self.pos >= self.data.len() {
            return Err(CodecError::InsufficientSpace);
        }
        let b = self.data[self.pos];
        self.pos += 1;
        assert(self.remaining() =~= old(self).remaining().drop_first());
        Ok(b)
    }

    /// Takes the next `n` bytes.
    pub fn slice(&mut self, n: usize) -> (r: Result<Vec<u8>, CodecError>)
        requires
            old(self).wf(),
        ensures
            final(self).wf(),
            n <= old(self).remaining().len() ==> r is Ok && r.unwrap()@ == old(
                self,
            ).remaining().subrange(0, n as int) && final(self).remaining() == old(
                self,
            ).remaining().subrange(n as int, old(self).remaining().len() as int),
            n > old(self).remaining().len() ==> r == Err::<Vec<u8>, CodecError>(
                CodecError::InsufficientSpace,
            ) && final(self).remaining() == old(self).remaining(),
    {
        if n > self.data.len() - self.pos {
            return Err(CodecError::InsufficientSpace);
        }
        let mut out: Vec<u8> = Vec::new();
        let mut i: usize = 0;
        while i < n
            invariant
                i <= n,
                self.pos + n <= self.data@.len(),
                self.data@.len() <= usize::MAX,
                self.pos == old(self).pos,
                self.data == old(self).data,
                out@ == self.data@.subrange(self.pos as int, self.pos + i),
            decreases n - i,
        {
            out.push(self.data[self.pos + i]);
            i += 1;
            assert(out@ =~= self.data@.subrange(self.pos as int, self.pos + i));
        }
        self.pos += n;
        assert(out@ =~= old(self).remaining().subrange(0, n as int));
        assert(self.remaining() =~= old(self).remaining().subrange(
            n as int,
            old(self).remaining().len() as int,
        ));
        Ok(out)
    }
}

} // verus!
