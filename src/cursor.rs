use vstd::prelude::*;

verus! {

/// The byte at `off`, or zero where `b` ends before it.
pub open spec fn byte_at(b: Seq<u8>, off: int) -> u8 {
    if 0 <= off < b.len() {
        b[off]
    } else {
        0
    }
}

/// The big-endian 16-bit integer in the two bytes at `off`, or zero where
/// `b` ends before both are there.
pub open spec fn be16_at(b: Seq<u8>, off: int) -> u16 {
    if 0 <= off && off + 2 <= b.len() {
        (b[off] as int * 256 + b[off + 1] as int) as u16
    } else {
        0
    }
}

/// How many of `n` bytes a read can take from `b`.
pub open spec fn taken(b: Seq<u8>, n: nat) -> nat {
    if n <= b.len() {
        n
    } else {
        b.len()
    }
}

/// A forward-only reader of big-endian integers over a byte buffer.
///
/// Every read takes bytes from the front of what is left. A read that finds
/// too few bytes takes what is there and yields zero.
pub struct ByteCursor<'a> {
    buf: &'a [u8],
    pos: usize,
}

impl<'a> ByteCursor<'a> {
    /// The bytes not read yet.
    pub closed spec fn remaining(&self) -> Seq<u8> {
        self.buf@.subrange(self.pos as int, self.buf@.len() as int)
    }

    /// The position lies within the buffer.
    pub closed spec fn wf(&self) -> bool {
        self.pos <= self.buf@.len()
    }

    /// A cursor at the start of `buf`.
    pub fn new(buf: &'a [u8]) -> (r: ByteCursor<'a>)
        ensures
            r.wf(),
            r.remaining() == buf@,
    {
        let r = ByteCursor { buf, pos: 0 };
        assert(r.remaining() =~= buf@);
        r
    }

    /// How many bytes are left to read.
    pub fn len(&self) -> (r: usize)
        requires
            self.wf(),
        ensures
            r == self.remaining().len(),
    {
        self.buf.len() - self.pos
    }

    /// Takes the next byte, or yields zero where none is left.
    pub fn read_u8(&mut self) -> (r: u8)
        requires
            old(self).wf(),
        ensures
            final(self).wf(),
            r == byte_at(old(self).remaining(), 0),
            final(self).remaining() == old(self).remaining().skip(
                taken(old(self).remaining(), 1) as int,
            ),
    {
        if self.pos < self.buf.len() {
            let b = self.buf[self.pos];
            self.pos = self.pos + 1;
            assert(final(self).remaining() =~= old(self).remaining().skip(1));
            b
        } else {
            assert(final(self).remaining() =~= old(self).remaining().skip(0));
            0
        }
    }

    /// Takes the next two bytes as a big-endian integer, or takes what is
    /// left and yields zero where fewer than two are left.
    pub fn read_u16(&mut self) -> (r: u16)
        requires
            old(self).wf(),
        ensures
            final(self).wf(),
            r == be16_at(old(self).remaining(), 0),
            final(self).remaining() == old(self).remaining().skip(
                taken(old(self).remaining(), 2) as int,
            ),
    {
        if self.buf.len() - self.pos >= 2 {
            let hi = self.buf[self.pos];
            let lo = self.buf[self.pos + 1];
            self.pos = self.pos + 2;
            assert(final(self).remaining() =~= old(self).remaining().skip(2));
            (hi as u16) * 256 + (lo as u16)
        } else {
            let n = self.buf.len() - self.pos;
            self.pos = self.buf.len();
            assert(final(self).remaining() =~= old(self).remaining().skip(n as int));
            0
        }
    }
}

} // verus!
