//! Fixed-capacity USB data packet.
//!
//! A packet owns one DMA-capable buffer of `CAPACITY` bytes and an
//! explicit length. Its view is the prefix of the buffer that the
//! length selects.

use vstd::prelude::*;

verus! {

/// How much data a packet can hold, in bytes.
pub const CAPACITY: u8 = 64;

/// One USB data-stage or bulk payload.
pub struct Packet {
    buf: Vec<u8>,
    len: u8,
}

impl View for Packet {
    type V = Seq<u8>;

    closed spec fn view(&self) -> Seq<u8> {
        self.buf@.take(self.len as int)
    }
}

impl Packet {
    /// The buffer is always full capacity and the length never exceeds it.
    pub closed spec fn wf(&self) -> bool {
        &&& self.buf@.len() == CAPACITY
        &&& self.len <= CAPACITY
    }

    /// The packet's current length, as a mathematical value.
    pub closed spec fn spec_len(&self) -> nat {
        self.len as nat
    }

    pub proof fn lemma_view_len(&self)
        requires
            self.wf(),
        ensures
            self@.len() == self.spec_len() <= CAPACITY,
    {
    }

    /// An empty packet backed by a zeroed full-capacity buffer.
    pub(crate) fn empty() -> (r: Packet)
        ensures
            r.wf(),
            r@ == Seq::<u8>::empty(),
            r.spec_len() == 0,
    {
        let mut buf: Vec<u8> = Vec::new();
        while buf.len() < CAPACITY as usize
            invariant
                buf@.len() <= CAPACITY,
                forall|i: int| 0 <= i < buf@.len() ==> buf@[i] == 0u8,
            decreases CAPACITY - buf@.len(),
        {
            buf.push(0u8);
        }
        assert(buf@.take(0) =~= Seq::<u8>::empty());
        Packet { buf, len: 0 }
    }

    /// Returns the size of this packet.
    pub fn len(&self) -> (r: u8)
        ensures
            r == self.spec_len(),
    {
        self.len
    }

    /// Changes the length of the packet; `len` is truncated to
    /// `CAPACITY`. Only the length changes: shrinking keeps a prefix of
    /// the data, and growing keeps the data as a prefix (the exposed
    /// tail holds whatever the buffer already held).
    pub fn set_len(&mut self, len: u8)
        requires
            old(self).wf(),
        ensures
            final(self).wf(),
            final(self).spec_len() == if len <= CAPACITY {
                len as nat
            } else {
                CAPACITY as nat
            },
            final(self)@.len() == final(self).spec_len(),
            final(self).spec_len() <= old(self).spec_len() ==> final(self)@ == old(self)@.take(
                final(self).spec_len() as int,
            ),
            final(self).spec_len() >= old(self).spec_len() ==> final(self)@.take(
                old(self).spec_len() as int,
            ) == old(self)@,
    {
        self.len = if len <= CAPACITY {
            len
        } else {
            CAPACITY
        };
        proof {
            if self.spec_len() <= old(self).spec_len() {
                assert(self@ =~= old(self)@.take(self.spec_len() as int));
            } else {
                assert(self@.take(old(self).spec_len() as int) =~= old(self)@);
            }
        }
    }

    /// Fills the packet with the given data, truncated to `CAPACITY` bytes.
    pub fn copy_from_slice(&mut self, src: &[u8])
        requires
            old(self).wf(),
        ensures
            final(self).wf(),
            final(self).spec_len() == if src@.len() <= CAPACITY {
                src@.len()
            } else {
                CAPACITY as nat
            },
            final(self)@ == src@.take(final(self).spec_len() as int),
    {
        let n: usize = if src.len() <= CAPACITY as usize {
            src.len()
        } else {
            CAPACITY as usize
        };
        let mut buf: Vec<u8> = Vec::new();
        let mut i: usize = 0;
        while i < n
            invariant
                i <= n,
                n <= src@.len(),
                n <= CAPACITY,
                buf@.len() == i,
                buf@ =~= src@.take(i as int),
            decreases n - i,
        {
            buf.push(src[i]);
            assert(buf@ =~= src@.take(i + 1));
            i = i + 1;
        }
        while i < CAPACITY as usize
            invariant
                n <= i <= CAPACITY,
                buf@.len() == i,
                buf@.take(n as int) =~= src@.take(n as int),
            decreases CAPACITY - i,
        {
            buf.push(0u8);
            i = i + 1;
        }
        self.buf = buf;
        self.len = n as u8;
        assert(self@ =~= src@.take(n as int));
    }

    /// Returns a copy of the packet's data.
    pub fn data(&self) -> (r: Vec<u8>)
        requires
            self.wf(),
        ensures
            r@ == self@,
    {
        let mut out: Vec<u8> = Vec::new();
        let mut i: usize = 0;
        while i < self.len as usize
            invariant
                self.wf(),
                i <= self.spec_len(),
                out@.len() == i,
                out@ =~= self@.take(i as int),
            decreases self.spec_len() - i,
        {
            out.push(self.buf[i]);
            assert(out@ =~= self@.take(i + 1));
            i = i + 1;
        }
        assert(out@ =~= self@);
        out
    }
}

} // verus!
