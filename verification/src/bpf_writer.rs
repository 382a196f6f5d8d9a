//! A writer that fills a buffer of fixed length from its start.

use vstd::prelude::*;

verus! {

/// The buffer was full before the whole input was written.
#[derive(Copy, Clone, PartialEq, Eq, Debug, Structural)]
pub struct WriteZero;

#[derive(Debug, Default)]
pub struct BpfWriter {
    inner: Vec<u8>,
    pos: u64,
}

impl BpfWriter {
    /// The buffer as it stands.
    pub closed spec fn buffer(&self) -> Seq<u8> {
        self.inner@
    }

    /// Number of bytes written so far.
    pub closed spec fn position(&self) -> nat {
        self.pos as nat
    }

    /// The writer has not run past its buffer.
    pub open spec fn wf(&self) -> bool {
        self.position() <= self.buffer().len()
    }

    /// What one `write` of `buf` takes: as much as still fits.
    pub open spec fn accepted(&self, buf: Seq<u8>) -> nat {
        let room = (self.buffer().len() - self.position()) as nat;
        if buf.len() < room {
            buf.len()
        } else {
            room
        }
    }

    /// The buffer after the first `amt` bytes of `buf` were put at the
    /// writer's position.
    pub open spec fn filled(&self, buf: Seq<u8>, amt: nat) -> Seq<u8> {
        Seq::new(
            self.buffer().len(),
            |i: int|
                if self.position() <= i < self.position() + amt {
                    buf[i - self.position()]
                } else {
                    self.buffer()[i]
                },
        )
    }

    pub fn new(inner: Vec<u8>) -> (r: Self)
        ensures
            r.buffer() == inner@,
            r.position() == 0,
            r.wf(),
    {
        Self { inner, pos: 0 }
    }

    /// Hands the buffer back.
    pub fn into_inner(self) -> (r: Vec<u8>)
        ensures
            r@ == self.buffer(),
    {
        self.inner
    }

    /// Copies as much of `buf` as still fits and returns how much that was;
    /// zero once the buffer is full.
    pub fn write(&mut self, buf: &[u8]) -> (amt: usize)
        requires
            old(self).wf(),
        ensures
            final(self).wf(),
            amt == old(self).accepted(buf@),
            final(self).position() == old(self).position() + amt,
            final(self).buffer() == old(self).filled(buf@, amt as nat),
    {
        let len = self.inner.len();
        let start = self.pos as usize;
        let room = len - start;
        let amt = if buf.len() < room {
            buf.len()
        } else {
            room
        };
        let ghost before = *self;
        let mut k: usize = 0;
        while k < amt
            invariant
                k <= amt,
                start + amt <= len,
                amt <= buf@.len(),
                self.inner@.len() == len,
                self.pos == before.pos,
                before.inner@.len() == len,
                start == before.pos,
                forall|i: int|
                    0 <= i < len ==> self.inner@[i] == if start <= i < start + k {
                        buf@[i - start]
                    } else {
                        before.inner@[i]
                    },
            decreases amt - k,
        {
            self.inner.set(start + k, buf[k]);
            k += 1;
        }
        self.pos = self.pos + amt as u64;
        assert(self.inner@ =~= before.filled(buf@, amt as nat));
        amt
    }

    /// Writes the whole of `buf`, or fails when it does not fit; what did
    /// fit is written even then.
    pub fn write_all(&mut self, buf: &[u8]) -> (r: Result<(), WriteZero>)
        requires
            old(self).wf(),
        ensures
            final(self).wf(),
            r is Ok <==> buf@.len() <= old(self).buffer().len() - old(self).position(),
            final(self).position() == old(self).position() + old(self).accepted(buf@),
            final(self).buffer() == old(self).filled(buf@, old(self).accepted(buf@)),
    {
        if self.write(buf) == buf.len() {
            Ok(())
        } else {
            Err(WriteZero)
        }
    }

    /// Nothing is held back, so there is nothing to flush.
    pub fn flush(&mut self)
        ensures
            *final(self) == *old(self),
    {
    }
}

} // verus!
