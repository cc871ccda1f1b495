//! Bounded packet pool.
//!
//! A fixed set of pre-registered buffers, the only heap-like resource of
//! the driver. A buffer is free in the pool, owned by the application,
//! or latched into a DMA register; ownership moves only by moving the
//! `Packet` value. Allocation never blocks here: an exhausted pool
//! reports `None` and the caller suspends until a packet is released.

use vstd::prelude::*;

use crate::packet::Packet;

verus! {

/// Bounded supply of fixed-size packets.
pub struct PacketPool {
    free: Vec<Packet>,
    capacity: usize,
}

impl PacketPool {
    /// Every stored packet is well formed and the pool never holds more
    /// than the fixed number of buffers registered at initialization.
    pub closed spec fn wf(&self) -> bool {
        &&& self.free@.len() <= self.capacity
        &&& forall|i: int| 0 <= i < self.free@.len() ==> self.free@[i].wf()
    }

    /// How many buffers are currently free.
    pub closed spec fn free_count(&self) -> nat {
        self.free@.len()
    }

    /// The fixed number of buffers the pool was created with.
    pub closed spec fn spec_capacity(&self) -> nat {
        self.capacity as nat
    }

    /// A well-formed pool never holds more buffers than it registered.
    pub proof fn lemma_free_count_bounded(&self)
        requires
            self.wf(),
        ensures
            self.free_count() <= self.spec_capacity(),
    {
    }

    /// Registers `count` fresh buffers.
    pub fn new(count: usize) -> (r: PacketPool)
        ensures
            r.wf(),
            r.free_count() == count,
            r.spec_capacity() == count,
    {
        let mut free: Vec<Packet> = Vec::new();
        let mut i: usize = 0;
        while i < count
            invariant
                i <= count,
                free@.len() == i,
                forall|j: int| 0 <= j < free@.len() ==> free@[j].wf(),
            decreases count - i,
        {
            free.push(Packet::empty());
            i = i + 1;
        }
        PacketPool { free, capacity: count }
    }

    /// Hands out exclusive ownership of one zero-length packet, or
    /// `None` exactly when no buffer is free (the caller then suspends).
    pub fn allocate(&mut self) -> (r: Option<Packet>)
        requires
            old(self).wf(),
        ensures
            final(self).wf(),
            final(self).spec_capacity() == old(self).spec_capacity(),
            r is Some <==> old(self).free_count() > 0,
            r matches Some(p) ==> {
                &&& p.wf()
                &&& p.spec_len() == 0
                &&& p@ == Seq::<u8>::empty()
                &&& final(self).free_count() == old(self).free_count() - 1
            },
            r is None ==> final(self).free_count() == old(self).free_count(),
    {
        let popped = self.free.pop();
        match popped {
            Some(mut p) => {
                p.set_len(0);
                proof {
                    p.lemma_view_len();
                    assert(p@ =~= Seq::<u8>::empty());
                }
                Some(p)
            },
            None => None,
        }
    }

    /// Returns a packet's buffer to the pool.
    ///
    /// The pool only ever receives back buffers it handed out, so the
    /// free count is strictly below the capacity whenever a packet is
    /// still outstanding.
    pub fn release(&mut self, packet: Packet)
        requires
            old(self).wf(),
            packet.wf(),
            old(self).free_count() < old(self).spec_capacity(),
        ensures
            final(self).wf(),
            final(self).spec_capacity() == old(self).spec_capacity(),
            final(self).free_count() == old(self).free_count() + 1,
    {
        self.free.push(packet);
    }
}

impl Packet {
    /// Returns an empty packet from the pool, or `None` exactly when
    /// the pool is exhausted and the caller must suspend.
    pub fn new(pool: &mut PacketPool) -> (r: Option<Packet>)
        requires
            old(pool).wf(),
        ensures
            final(pool).wf(),
            final(pool).spec_capacity() == old(pool).spec_capacity(),
            r is Some <==> old(pool).free_count() > 0,
            r matches Some(p) ==> {
                &&& p.wf()
                &&& p.spec_len() == 0
                &&& final(pool).free_count() == old(pool).free_count() - 1
            },
            r is None ==> final(pool).free_count() == old(pool).free_count(),
    {
        pool.allocate()
    }
}

/// One pool operation, for stating laws about operation sequences.
pub enum PoolOp {
    /// A successful `allocate`.
    TakeOne,
    /// A `release`.
    GiveBack,
}

/// The free count after applying `ops`, mirroring the contracts of
/// `allocate` (decrements when a buffer is free) and `release`
/// (increments; only legal below capacity). `None` marks a sequence
/// that the contracts forbid.
pub open spec fn count_after(c: nat, cap: nat, ops: Seq<PoolOp>) -> Option<nat>
    decreases ops.len(),
{
    if ops.len() == 0 {
        if c <= cap {
            Some(c)
        } else {
            None
        }
    } else {
        match ops[0] {
            PoolOp::TakeOne => if c > 0 {
                count_after((c - 1) as nat, cap, ops.skip(1))
            } else {
                None
            },
            PoolOp::GiveBack => if c < cap {
                count_after(c + 1, cap, ops.skip(1))
            } else {
                None
            },
        }
    }
}

/// A run of `n` successful allocations lowers the count by `n` and
/// leaves the rest of the sequence to run from there.
proof fn lemma_allocs_prefix(c: nat, cap: nat, n: nat, rest: Seq<PoolOp>)
    requires
        n <= c <= cap,
    ensures
        count_after(c, cap, Seq::new(n, |i: int| PoolOp::TakeOne) + rest) == count_after(
            (c - n) as nat,
            cap,
            rest,
        ),
    decreases n,
{
    let allocs = Seq::new(n, |i: int| PoolOp::TakeOne);
    if n == 0 {
        assert(allocs + rest =~= rest);
    } else {
        assert((allocs + rest)[0] == PoolOp::TakeOne);
        assert((allocs + rest).skip(1) =~= Seq::new((n - 1) as nat, |i: int| PoolOp::TakeOne)
            + rest);
        lemma_allocs_prefix((c - 1) as nat, cap, (n - 1) as nat, rest);
    }
}

/// After `k` releases from count `c`, the count is `c + k`.
proof fn lemma_releases_restore(c: nat, cap: nat, k: nat)
    requires
        c + k <= cap,
    ensures
        count_after(c, cap, Seq::new(k, |i: int| PoolOp::GiveBack)) == Some((c + k) as nat),
    decreases k,
{
    let rels = Seq::new(k, |i: int| PoolOp::GiveBack);
    if k == 0 {
        assert(rels =~= Seq::<PoolOp>::empty());
    } else {
        assert(rels[0] == PoolOp::GiveBack);
        assert(rels.skip(1) =~= Seq::new((k - 1) as nat, |i: int| PoolOp::GiveBack));
        lemma_releases_restore(c + 1, cap, (k - 1) as nat);
    }
}

/// Allocate/release cycles neither leak nor duplicate buffers: after `n`
/// successful allocations followed by `n` releases the pool holds
/// exactly its original free count.
pub proof fn lemma_pool_balance(c: nat, cap: nat, n: nat)
    requires
        n <= c <= cap,
    ensures
        count_after(
            c,
            cap,
            Seq::new(n, |i: int| PoolOp::TakeOne) + Seq::new(n, |i: int| PoolOp::GiveBack),
        ) == Some(c),
{
    let rels = Seq::new(n, |i: int| PoolOp::GiveBack);
    lemma_allocs_prefix(c, cap, n, rels);
    lemma_releases_restore((c - n) as nat, cap, n);
}

} // verus!
