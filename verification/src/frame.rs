//! Allocation of physical frames.
//!
//! The allocator owns a run of page-sized frames of physical memory and
//! knows of each whether it is free or allocated. It hands out the free
//! frame with the lowest address, never hands out a frame that is allocated,
//! and refuses to free a frame that is not.

use vstd::prelude::*;
use vstd::arithmetic::div_mod::*;
use vstd::arithmetic::mul::*;
use core::marker::PhantomData;
use core::ops::Range;
use crate::address::PhysicalAddress;
use crate::align::{
    align_down,
    align_down_raw,
    align_up,
    checked_align_up_raw,
    lemma_align_down,
    lemma_align_up,
};
use crate::error::Error;
use crate::mode::{Mode, PAGE_SIZE};

verus! {

/// The state of one frame.
#[derive(Clone, Copy, Debug, PartialEq, Eq, Structural)]
pub enum FrameState {
    Free,
    Allocated,
}

/// The number of free frames among `used`, which holds for each frame
/// whether it is allocated.
pub open spec fn count_free(used: Seq<bool>) -> nat
    decreases used.len(),
{
    if used.len() == 0 {
        0
    } else if used.last() {
        count_free(used.drop_last())
    } else {
        count_free(used.drop_last()) + 1
    }
}

/// The index of the first free frame among `used`, or the length of `used`
/// where none is free.
pub open spec fn first_free(used: Seq<bool>) -> int
    decreases used.len(),
{
    if used.len() == 0 {
        0
    } else if !used[0] {
        0
    } else {
        1 + first_free(used.drop_first())
    }
}

/// The frames of an allocator and their states.
///
/// Frame `i` starts at `base + i * page_size`; `used[i]` says whether it is
/// allocated.
pub struct FramePool {
    pub base: int,
    pub page_size: int,
    pub used: Seq<bool>,
}

impl FramePool {
    /// The frames are aligned to the page size and lie inside the address
    /// space.
    pub open spec fn wf(self) -> bool {
        &&& self.page_size > 0
        &&& self.base >= 0
        &&& self.base % self.page_size == 0
        &&& self.base + self.used.len() * self.page_size <= usize::MAX
    }

    /// The pool of the whole pages between `start` and `end`, all of them
    /// free.
    pub open spec fn covering(start: int, end: int, page_size: int) -> FramePool {
        let first = align_up(start, page_size);
        let last = align_down(end, page_size);
        if first < last {
            FramePool {
                base: first,
                page_size,
                used: Seq::new(((last - first) / page_size) as nat, |i: int| false),
            }
        } else {
            FramePool { base: 0, page_size, used: Seq::empty() }
        }
    }

    /// The address of the frame with the given index.
    pub open spec fn address_of(self, index: int) -> int {
        self.base + index * self.page_size
    }

    /// The index of the frame that starts at `addr`.
    pub open spec fn index_of(self, addr: int) -> int {
        (addr - self.base) / self.page_size
    }

    /// Whether `addr` is the start of a frame of this pool.
    pub open spec fn manages(self, addr: int) -> bool {
        &&& self.base <= addr
        &&& (addr - self.base) % self.page_size == 0
        &&& self.index_of(addr) < self.used.len()
    }

    /// Whether `addr` is the start of an allocated frame.
    pub open spec fn is_allocated(self, addr: int) -> bool {
        self.manages(addr) && self.used[self.index_of(addr)]
    }

    /// Whether `addr` is the start of a free frame.
    pub open spec fn is_free(self, addr: int) -> bool {
        self.manages(addr) && !self.used[self.index_of(addr)]
    }

    /// The state of the frame that starts at `addr`, if there is one.
    pub open spec fn state_of(self, addr: int) -> Option<FrameState> {
        if !self.manages(addr) {
            None
        } else if self.used[self.index_of(addr)] {
            Some(FrameState::Allocated)
        } else {
            Some(FrameState::Free)
        }
    }

    /// The number of free frames.
    pub open spec fn free_count(self) -> nat {
        count_free(self.used)
    }

    /// The pool with the state of frame `index` changed.
    pub open spec fn with_frame(self, index: int, used: bool) -> FramePool {
        FramePool { base: self.base, page_size: self.page_size, used: self.used.update(index, used) }
    }

    /// An allocation: the free frame with the lowest address becomes
    /// allocated and its address is returned. Without a free frame the pool
    /// stays as it is and the allocation fails.
    pub open spec fn allocate(self) -> (FramePool, Result<PhysicalAddress, Error>) {
        let index = first_free(self.used);
        if index < self.used.len() {
            (self.with_frame(index, true), Ok(PhysicalAddress(self.address_of(index) as usize)))
        } else {
            (self, Err(Error::OutOfMemory))
        }
    }

    /// The release of the frame at `addr`: an allocated frame becomes free.
    /// Any other address is refused and the pool stays as it is.
    pub open spec fn free(self, addr: PhysicalAddress) -> (FramePool, Result<(), Error>) {
        if self.is_allocated(addr.0 as int) {
            (self.with_frame(self.index_of(addr.0 as int), false), Ok(()))
        } else {
            (self, Err(Error::DoubleFree(addr)))
        }
    }

    /// The pool after `n` allocations in a row.
    pub open spec fn allocate_times(self, n: nat) -> FramePool
        decreases n,
    {
        if n == 0 {
            self
        } else {
            self.allocate().0.allocate_times((n - 1) as nat)
        }
    }
}

/// `first_free` is the least index of a free frame.
pub proof fn lemma_first_free(used: Seq<bool>)
    ensures
        0 <= first_free(used) <= used.len(),
        first_free(used) < used.len() ==> !used[first_free(used)],
        forall|j: int| 0 <= j < first_free(used) ==> used[j],
    decreases used.len(),
{
    if used.len() > 0 && used[0] {
        let rest = used.drop_first();
        lemma_first_free(rest);
        assert forall|j: int| 0 <= j < first_free(used) implies used[j] by {
            if j > 0 {
                assert(used[j] == rest[j - 1]);
            }
        }
        assert(first_free(used) < used.len() ==> used[first_free(used)] == rest[first_free(rest)]);
    }
}

/// An index below which every frame is allocated, and which is free itself
/// or the end, is `first_free`.
pub proof fn lemma_first_free_is(used: Seq<bool>, index: int)
    requires
        0 <= index <= used.len(),
        forall|j: int| 0 <= j < index ==> used[j],
        index < used.len() ==> !used[index],
    ensures
        first_free(used) == index,
{
    lemma_first_free(used);
    let found = first_free(used);
    if found < index {
        assert(used[found]);
    } else if found > index {
        assert(used[index]);
    }
}

/// Changing the state of one frame changes the number of free frames by
/// that frame alone.
pub proof fn lemma_count_free_update(used: Seq<bool>, index: int, value: bool)
    requires
        0 <= index < used.len(),
    ensures
        count_free(used.update(index, value)) + (if used[index] {
            0nat
        } else {
            1nat
        }) == count_free(used) + (if value {
            0nat
        } else {
            1nat
        }),
    decreases used.len(),
{
    let changed = used.update(index, value);
    if index == used.len() - 1 {
        assert(changed.drop_last() =~= used.drop_last());
    } else {
        assert(changed.drop_last() =~= used.drop_last().update(index, value));
        lemma_count_free_update(used.drop_last(), index, value);
    }
}

/// No frame is free exactly where `first_free` finds none, and the number
/// of free frames is at most the number of frames.
pub proof fn lemma_count_free_bounds(used: Seq<bool>)
    ensures
        count_free(used) <= used.len(),
        count_free(used) == 0 <==> first_free(used) == used.len(),
    decreases used.len(),
{
    lemma_first_free(used);
    if used.len() > 0 {
        let front = used.drop_last();
        lemma_count_free_bounds(front);
        lemma_first_free(front);
        if first_free(used) == used.len() {
            assert forall|j: int| 0 <= j < front.len() implies front[j] by {
                assert(front[j] == used[j]);
            }
            lemma_first_free_is(front, front.len() as int);
        }
        if count_free(used) == 0 {
            assert forall|j: int| 0 <= j < used.len() implies used[j] by {
                if j < front.len() {
                    assert(used[j] == front[j]);
                }
            }
            lemma_first_free_is(used, used.len() as int);
        }
    }
}

/// Among frames that are all free, every one counts.
pub proof fn lemma_count_free_all_free(used: Seq<bool>)
    requires
        forall|j: int| 0 <= j < used.len() ==> !used[j],
    ensures
        count_free(used) == used.len(),
    decreases used.len(),
{
    if used.len() > 0 {
        lemma_count_free_all_free(used.drop_last());
    }
}

/// Frame arithmetic inside a well-formed pool: the address of a frame lies
/// in the address space, is a frame start, and leads back to its index.
pub proof fn lemma_frame_address(pool: FramePool, index: int)
    requires
        pool.wf(),
        0 <= index < pool.used.len(),
    ensures
        pool.base <= pool.address_of(index),
        index * pool.page_size <= pool.used.len() * pool.page_size,
        pool.address_of(index) + pool.page_size <= usize::MAX,
        pool.manages(pool.address_of(index)),
        pool.index_of(pool.address_of(index)) == index,
        pool.address_of(index) % pool.page_size == 0,
{
    let size = pool.page_size;
    lemma_mul_inequality(index + 1, pool.used.len() as int, size);
    lemma_mul_is_distributive_add_other_way(size, index, 1);
    lemma_mul_nonnegative(index, size);
    lemma_mod_multiples_basic(index, size);
    lemma_div_multiples_vanish(index, size);
    lemma_fundamental_div_mod(pool.base, size);
    lemma_mul_is_commutative(pool.base / size, size);
    lemma_mul_is_distributive_add_other_way(size, pool.base / size, index);
    lemma_mod_multiples_basic(pool.base / size + index, size);
}

/// A frame start that the pool manages is the address of its index.
pub proof fn lemma_frame_index(pool: FramePool, addr: int)
    requires
        pool.wf(),
        pool.manages(addr),
    ensures
        0 <= pool.index_of(addr) < pool.used.len(),
        pool.address_of(pool.index_of(addr)) == addr,
{
    let size = pool.page_size;
    lemma_fundamental_div_mod(addr - pool.base, size);
    lemma_mul_is_commutative(pool.index_of(addr), size);
    lemma_div_pos_is_pos(addr - pool.base, size);
}

/// The pool of the whole pages of a region is well formed, lies inside the
/// region, and all its frames are free.
pub proof fn lemma_covering(start: int, end: int, page_size: int)
    requires
        0 <= start,
        0 <= end <= usize::MAX,
        page_size > 0,
    ensures
        FramePool::covering(start, end, page_size).wf(),
        FramePool::covering(start, end, page_size).free_count() == FramePool::covering(
            start,
            end,
            page_size,
        ).used.len(),
        ({
            let pool = FramePool::covering(start, end, page_size);
            pool.used.len() > 0 ==> start <= pool.base && pool.base + pool.used.len() * page_size
                <= end && pool.base + pool.used.len() * page_size == align_down(end, page_size)
        }),
{
    let pool = FramePool::covering(start, end, page_size);
    let first = align_up(start, page_size);
    let last = align_down(end, page_size);
    lemma_align_up(start, page_size);
    lemma_align_down(end, page_size);
    lemma_count_free_all_free(pool.used);
    if first < last {
        lemma_sub_mod_noop(last, first, page_size);
        lemma_fundamental_div_mod(last - first, page_size);
        lemma_mul_is_commutative((last - first) / page_size, page_size);
        lemma_div_pos_is_pos(last - first, page_size);
    }
}

/// The allocator of the physical frames of one region of memory, for the
/// page size of the mode `M`.
pub struct FrameAllocator<M: Mode> {
    base: usize,
    used: Vec<bool>,
    _m: PhantomData<M>,
}

impl<M: Mode> View for FrameAllocator<M> {
    type V = FramePool;

    closed spec fn view(&self) -> FramePool {
        FramePool { base: self.base as int, page_size: PAGE_SIZE as int, used: self.used@ }
    }
}

impl<M: Mode> FrameAllocator<M> {
    #[verifier::type_invariant]
    spec fn well_formed(self) -> bool {
        self@.wf()
    }

    /// An allocator for the whole pages inside `region`, all of them free.
    pub fn new(region: Range<PhysicalAddress>) -> (allocator: Self)
        ensures
            allocator@ == FramePool::covering(
                region.start.0 as int,
                region.end.0 as int,
                PAGE_SIZE as int,
            ),
            allocator@.wf(),
    {
        let size = M::memory_mode().page_size();
        let ghost pool = FramePool::covering(
            region.start.0 as int,
            region.end.0 as int,
            PAGE_SIZE as int,
        );
        proof {
            lemma_covering(region.start.0 as int, region.end.0 as int, PAGE_SIZE as int);
        }
        let last = align_down_raw(region.end.0, size);
        let first = match checked_align_up_raw(region.start.0, size) {
            Some(first) => first,
            None => last,
        };
        let mut used: Vec<bool> = Vec::new();
        if first < last {
            let count = (last - first) / size;
            let mut i: usize = 0;
            while i < count
                invariant
                    i <= count,
                    used@ == Seq::new(i as nat, |j: int| false),
                decreases count - i,
            {
                used.push(false);
                i += 1;
                assert(used@ =~= Seq::new(i as nat, |j: int| false));
            }
            assert(used@ == pool.used);
            Self { base: first, used, _m: PhantomData }
        } else {
            assert(used@ =~= pool.used);
            Self { base: 0, used, _m: PhantomData }
        }
    }

    /// Bytes of a frame.
    pub fn page_size(&self) -> (size: usize)
        ensures
            size == self@.page_size,
            size == PAGE_SIZE,
    {
        M::memory_mode().page_size()
    }

    /// The number of frames, free or allocated.
    pub fn frame_count(&self) -> (count: usize)
        ensures
            count == self@.used.len(),
    {
        self.used.len()
    }

    /// The number of free frames.
    pub fn free_frames(&self) -> (count: usize)
        ensures
            count == self@.free_count(),
    {
        let mut count: usize = 0;
        let mut i: usize = 0;
        while i < self.used.len()
            invariant
                i <= self.used.len(),
                count == count_free(self.used@.take(i as int)),
                count <= i,
            decreases self.used.len() - i,
        {
            assert(self.used@.take(i + 1).drop_last() =~= self.used@.take(i as int));
            if !self.used[i] {
                count += 1;
            }
            i += 1;
        }
        assert(self.used@.take(i as int) =~= self.used@);
        count
    }

    /// The state of the frame that starts at `addr`, or `None` where no
    /// frame of this allocator starts there.
    pub fn state_of(&self, addr: PhysicalAddress) -> (state: Option<FrameState>)
        ensures
            state == self@.state_of(addr.0 as int),
    {
        let size = M::memory_mode().page_size();
        if addr.0 < self.base {
            return None;
        }
        let offset = addr.0 - self.base;
        if offset % size != 0 {
            return None;
        }
        let index = offset / size;
        if index >= self.used.len() {
            return None;
        }
        if self.used[index] {
            Some(FrameState::Allocated)
        } else {
            Some(FrameState::Free)
        }
    }

    /// Hands out the free frame with the lowest address, which from then on
    /// is allocated. Fails with `OutOfMemory`, and changes nothing, where no
    /// frame is free.
    pub fn allocate(&mut self) -> (r: Result<PhysicalAddress, Error>)
        ensures
            old(self)@.wf(),
            (final(self)@, r) == old(self)@.allocate(),
    {
        proof {
            use_type_invariant(&*self);
        }
        let size = M::memory_mode().page_size();
        let count = self.used.len();
        let ghost before = self@;
        let mut i: usize = 0;
        while i < count
            invariant
                i <= count,
                count == self.used.len(),
                size == PAGE_SIZE,
                self@ == before,
                before == old(self)@,
                before.wf(),
                forall|j: int| 0 <= j < i ==> self.used@[j],
            decreases count - i,
        {
            if !self.used[i] {
                proof {
                    lemma_first_free_is(self.used@, i as int);
                    lemma_frame_address(self@, i as int);
                }
                let addr = PhysicalAddress(self.base + i * size);
                self.used[i] = true;
                return Ok(addr);
            }
            i += 1;
        }
        proof {
            lemma_first_free_is(self.used@, count as int);
        }
        Err(Error::OutOfMemory)
    }

    /// Takes back the frame at `addr`, which from then on is free. Fails
    /// with `DoubleFree`, and changes nothing, where `addr` is not the start
    /// of an allocated frame of this allocator.
    pub fn free(&mut self, addr: PhysicalAddress) -> (r: Result<(), Error>)
        ensures
            old(self)@.wf(),
            (final(self)@, r) == old(self)@.free(addr),
    {
        proof {
            use_type_invariant(&*self);
        }
        match self.state_of(addr) {
            Some(FrameState::Allocated) => {
                let size = M::memory_mode().page_size();
                let index = (addr.0 - self.base) / size;
                self.used[index] = false;
                Ok(())
            },
            _ => Err(Error::DoubleFree(addr)),
        }
    }
}

} // verus!
