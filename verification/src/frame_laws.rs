//! What holds of every history of a frame pool.
//!
//! The allocator's operations are specified by the transitions of
//! [`FramePool`]; the lemmas here are about those transitions and about
//! sequences of them.

use vstd::prelude::*;
use crate::address::PhysicalAddress;
use crate::error::Error;
use crate::frame::{
    count_free,
    first_free,
    lemma_count_free_bounds,
    lemma_count_free_update,
    lemma_first_free,
    lemma_frame_address,
    lemma_frame_index,
    FramePool,
    FrameState,
};

verus! {

/// One call on the allocator.
pub enum FrameOp {
    Allocate,
    Free(PhysicalAddress),
}

/// What a call returned.
pub enum FrameOutcome {
    Allocated(PhysicalAddress),
    Freed,
    Failed(Error),
}

impl FramePool {
    /// The pool after the call `op`, and what the call returned.
    pub open spec fn apply(self, op: FrameOp) -> (FramePool, FrameOutcome) {
        match op {
            FrameOp::Allocate => (
                self.allocate().0,
                match self.allocate().1 {
                    Ok(addr) => FrameOutcome::Allocated(addr),
                    Err(error) => FrameOutcome::Failed(error),
                },
            ),
            FrameOp::Free(addr) => (
                self.free(addr).0,
                match self.free(addr).1 {
                    Ok(()) => FrameOutcome::Freed,
                    Err(error) => FrameOutcome::Failed(error),
                },
            ),
        }
    }

    /// The pool after the calls `ops`, made in order.
    pub open spec fn run(self, ops: Seq<FrameOp>) -> FramePool
        decreases ops.len(),
    {
        if ops.len() == 0 {
            self
        } else {
            self.run(ops.drop_last()).apply(ops.last()).0
        }
    }

    /// What the call `ops[i]` returned, made after the calls before it.
    pub open spec fn outcome(self, ops: Seq<FrameOp>, i: int) -> FrameOutcome {
        self.run(ops.take(i)).apply(ops[i]).1
    }
}

/// An allocation succeeds exactly while a frame is free. The frame it hands
/// out was free and is allocated afterwards, one frame fewer is free, and
/// every frame that was allocated stays so. A failed allocation reports
/// `OutOfMemory` and changes nothing.
pub proof fn lemma_allocate(pool: FramePool)
    requires
        pool.wf(),
    ensures
        pool.allocate().0.wf(),
        pool.allocate().1 is Ok <==> pool.free_count() > 0,
        pool.allocate().1 is Err ==> pool.allocate() == (
            pool,
            Err::<PhysicalAddress, Error>(Error::OutOfMemory),
        ),
        pool.allocate().1 matches Ok(addr) ==> {
            &&& pool.is_free(addr.0 as int)
            &&& pool.allocate().0.is_allocated(addr.0 as int)
            &&& pool.allocate().0.free_count() == pool.free_count() - 1
            &&& forall|other: int| other != addr.0 ==> pool.allocate().0.state_of(other) == pool.state_of(other)
            &&& forall|lower: int| pool.is_free(lower) ==> addr.0 <= lower
        },
{
    let index = first_free(pool.used);
    lemma_first_free(pool.used);
    lemma_count_free_bounds(pool.used);
    if index < pool.used.len() {
        let after = pool.allocate().0;
        lemma_frame_address(pool, index);
        lemma_count_free_update(pool.used, index, true);
        let addr = pool.address_of(index);
        assert forall|other: int| other != addr implies after.state_of(other) == pool.state_of(
            other,
        ) by {
            if pool.manages(other) {
                lemma_frame_index(pool, other);
            }
        }
        assert forall|lower: int| pool.is_free(lower) implies addr <= lower by {
            lemma_frame_index(pool, lower);
            let at = pool.index_of(lower);
            if at < index {
                assert(pool.used[at]);
            }
            vstd::arithmetic::mul::lemma_mul_inequality(index, at, pool.page_size);
        }
    }
}

/// Freeing succeeds exactly for the start of an allocated frame, which is
/// free afterwards; one frame more is free and no other frame changes. Any
/// other address is refused with `DoubleFree` and changes nothing.
pub proof fn lemma_free(pool: FramePool, addr: PhysicalAddress)
    requires
        pool.wf(),
    ensures
        pool.free(addr).0.wf(),
        pool.free(addr).1 is Ok <==> pool.is_allocated(addr.0 as int),
        pool.free(addr).1 is Err ==> pool.free(addr) == (
            pool,
            Err::<(), Error>(Error::DoubleFree(addr)),
        ),
        pool.free(addr).1 is Ok ==> {
            &&& pool.free(addr).0.is_free(addr.0 as int)
            &&& pool.free(addr).0.free_count() == pool.free_count() + 1
            &&& forall|other: int| other != addr.0 ==> pool.free(addr).0.state_of(other) == pool.state_of(other)
        },
{
    if pool.is_allocated(addr.0 as int) {
        let index = pool.index_of(addr.0 as int);
        let after = pool.free(addr).0;
        lemma_frame_index(pool, addr.0 as int);
        lemma_count_free_update(pool.used, index, false);
        assert forall|other: int| other != addr.0 implies after.state_of(other) == pool.state_of(
            other,
        ) by {
            if pool.manages(other) {
                lemma_frame_index(pool, other);
            }
        }
    }
}

/// Freeing the same address twice in a row fails the second time with
/// `DoubleFree` of that address, whatever the first call returned.
pub proof fn lemma_double_free(pool: FramePool, addr: PhysicalAddress)
    requires
        pool.wf(),
    ensures
        pool.free(addr).0.free(addr).1 == Err::<(), Error>(Error::DoubleFree(addr)),
        pool.free(addr).0.free(addr).0 == pool.free(addr).0,
{
    lemma_free(pool, addr);
    lemma_free(pool.free(addr).0, addr);
}

/// Allocating `n` times in a row leaves as many frames free as were free
/// beyond `n`.
pub proof fn lemma_allocate_times(pool: FramePool, n: nat)
    requires
        pool.wf(),
    ensures
        pool.allocate_times(n).wf(),
        n <= pool.free_count() ==> pool.allocate_times(n).free_count() == pool.free_count() - n,
        n >= pool.free_count() ==> pool.allocate_times(n).free_count() == 0,
    decreases n,
{
    if n > 0 {
        lemma_allocate(pool);
        lemma_allocate_times(pool.allocate().0, (n - 1) as nat);
    }
}

/// With `N` frames free, the first `N` allocations in a row succeed and
/// the one after them fails with `OutOfMemory`, as does every later one.
pub proof fn lemma_allocate_until_exhausted(pool: FramePool, n: nat)
    requires
        pool.wf(),
    ensures
        n < pool.free_count() ==> pool.allocate_times(n).allocate().1 is Ok,
        n >= pool.free_count() ==> pool.allocate_times(n).allocate().1 == Err::<
            PhysicalAddress,
            Error,
        >(Error::OutOfMemory),
{
    lemma_allocate_times(pool, n);
    lemma_allocate(pool.allocate_times(n));
}

/// Every call leaves the pool well formed.
pub proof fn lemma_apply(pool: FramePool, op: FrameOp)
    requires
        pool.wf(),
    ensures
        pool.apply(op).0.wf(),
{
    match op {
        FrameOp::Allocate => lemma_allocate(pool),
        FrameOp::Free(addr) => lemma_free(pool, addr),
    }
}

/// Every sequence of calls leaves the pool well formed.
pub proof fn lemma_run(pool: FramePool, ops: Seq<FrameOp>)
    requires
        pool.wf(),
    ensures
        pool.run(ops).wf(),
    decreases ops.len(),
{
    if ops.len() > 0 {
        lemma_run(pool, ops.drop_last());
        lemma_apply(pool.run(ops.drop_last()), ops.last());
    }
}

/// A frame that call `i` handed out is allocated before call `m`, unless a
/// call in between freed it.
proof fn lemma_stays_allocated(
    pool: FramePool,
    ops: Seq<FrameOp>,
    i: int,
    m: int,
    addr: PhysicalAddress,
)
    requires
        pool.wf(),
        0 <= i < m <= ops.len(),
        pool.outcome(ops, i) == FrameOutcome::Allocated(addr),
        forall|k: int|
            i < k < m ==> !(ops[k] == FrameOp::Free(addr) && #[trigger] pool.outcome(ops, k)
                == FrameOutcome::Freed),
    ensures
        pool.run(ops.take(m)).is_allocated(addr.0 as int),
    decreases m - i,
{
    let before = pool.run(ops.take(m - 1));
    assert(ops.take(m).drop_last() =~= ops.take(m - 1));
    assert(ops.take(m).last() == ops[m - 1]);
    assert(pool.run(ops.take(m)) == before.apply(ops[m - 1]).0);
    lemma_run(pool, ops.take(m - 1));
    let after = before.apply(ops[m - 1]).0;
    if m == i + 1 {
        lemma_allocate(before);
    } else {
        lemma_stays_allocated(pool, ops, i, m - 1, addr);
        assert(before.state_of(addr.0 as int) == Some(FrameState::Allocated));
        match ops[m - 1] {
            FrameOp::Allocate => {
                lemma_allocate(before);
                assert(after.state_of(addr.0 as int) == Some(FrameState::Allocated));
            },
            FrameOp::Free(freed) => {
                lemma_free(before, freed);
                if freed == addr {
                    assert(pool.outcome(ops, m - 1) == FrameOutcome::Freed);
                }
                assert(after.state_of(addr.0 as int) == Some(FrameState::Allocated));
            },
        }
    }
}

/// No frame is handed out twice without being freed in between: where two
/// calls of a history return the same address, a call between them freed
/// that address.
pub proof fn lemma_no_reuse_before_free(
    pool: FramePool,
    ops: Seq<FrameOp>,
    i: int,
    j: int,
    addr: PhysicalAddress,
)
    requires
        pool.wf(),
        0 <= i < j < ops.len(),
        pool.outcome(ops, i) == FrameOutcome::Allocated(addr),
        pool.outcome(ops, j) == FrameOutcome::Allocated(addr),
    ensures
        exists|k: int|
            i < k < j && ops[k] == FrameOp::Free(addr) && #[trigger] pool.outcome(ops, k)
                == FrameOutcome::Freed,
{
    if !(exists|k: int|
        i < k < j && ops[k] == FrameOp::Free(addr) && #[trigger] pool.outcome(ops, k)
            == FrameOutcome::Freed) {
        lemma_stays_allocated(pool, ops, i, j, addr);
        lemma_run(pool, ops.take(j));
        lemma_allocate(pool.run(ops.take(j)));
    }
}

} // verus!
