//! The paging modes and their table geometry.
//!
//! A mode is chosen once, as a type, and every query about the translation
//! tables is answered from that choice alone: there is no state that a call
//! could change.

use vstd::prelude::*;
use core::ops::Range;
use crate::address::VirtualAddress;
use crate::error::{Error, PlatformFault};

verus! {

/// Bytes of a leaf page, in every mode.
pub const PAGE_SIZE: usize = 4096;

/// Bits of an address that select the byte inside a leaf page.
pub const PAGE_SHIFT: usize = 12;

/// Bits of an address that one level of the tables consumes.
pub const INDEX_BITS: usize = 9;

/// Entries of one translation table.
pub const TABLE_ENTRIES: usize = 512;

/// The paging modes of RISC-V.
#[derive(Clone, Copy, Debug, PartialEq, Eq, Structural)]
pub enum MemoryMode {
    Riscv64Sv39,
    Riscv64Sv48,
    Riscv64Sv57,
}

/// Bytes that one entry of a table at `level` maps; level 0 holds the leaves.
pub open spec fn span_of(level: nat) -> nat
    decreases level,
{
    if level == 0 {
        4096
    } else {
        512 * span_of((level - 1) as nat)
    }
}

/// The index into the table at `level` under which `addr` is looked up.
pub open spec fn index_at(addr: int, level: nat) -> int {
    (addr / (span_of(level) as int)) % 512
}

/// The spans of the five levels that any mode can have.
pub proof fn lemma_spans()
    ensures
        span_of(0) == 0x1000,
        span_of(1) == 0x20_0000,
        span_of(2) == 0x4000_0000,
        span_of(3) == 0x80_0000_0000,
        span_of(4) == 0x1_0000_0000_0000,
        span_of(5) == 0x200_0000_0000_0000,
{
    reveal_with_fuel(span_of, 6);
}

/// The part of `addr` that the tables below `levels` levels translate: the
/// indices of those levels, each at its place, above the page offset.
pub open spec fn recomposed(addr: int, levels: nat) -> int
    decreases levels,
{
    if levels == 0 {
        addr % 4096
    } else {
        index_at(addr, (levels - 1) as nat) * span_of((levels - 1) as nat) + recomposed(
            addr,
            (levels - 1) as nat,
        )
    }
}

/// The indices of the levels and the page offset are a decomposition of the
/// address: put back at their places they give the address, as far as the
/// tables reach.
pub proof fn lemma_indices_decompose(addr: int, levels: nat)
    requires
        0 <= addr,
        levels <= 5,
    ensures
        recomposed(addr, levels) == addr % (span_of(levels) as int),
        addr < span_of(levels) ==> recomposed(addr, levels) == addr,
    decreases levels,
{
    lemma_spans();
    if levels > 0 {
        let below = (levels - 1) as nat;
        let span = span_of(below) as int;
        lemma_indices_decompose(addr, below);
        vstd::arithmetic::div_mod::lemma_mod_breakdown(addr, span, 512);
        vstd::arithmetic::mul::lemma_mul_is_commutative(span, 512);
        vstd::arithmetic::mul::lemma_mul_is_commutative(span, (addr / span) % 512);
    }
    if addr < span_of(levels) {
        vstd::arithmetic::div_mod::lemma_small_mod(addr as nat, span_of(levels));
    }
}

impl MemoryMode {
    /// The number of translation levels.
    pub open spec fn level_count(self) -> nat {
        match self {
            MemoryMode::Riscv64Sv39 => 3,
            MemoryMode::Riscv64Sv48 => 4,
            MemoryMode::Riscv64Sv57 => 5,
        }
    }

    /// The width of a virtual address: the page offset and one index for
    /// each level.
    pub open spec fn address_bits(self) -> nat {
        12 + 9 * self.level_count()
    }

    /// The end of the lower half of the address space: half of what the
    /// root table spans.
    pub open spec fn lower_half_end(self) -> nat {
        span_of(self.level_count()) / 2
    }

    /// Whether `addr` is in canonical form: every bit above the address
    /// width repeats the topmost bit of the address. Such an address lies in
    /// the lower half of the 64-bit space or in the upper half.
    pub open spec fn canonical(self, addr: int) -> bool {
        0 <= addr < self.lower_half_end() || 0x1_0000_0000_0000_0000 - self.lower_half_end() <= addr
            < 0x1_0000_0000_0000_0000
    }

    /// The number of translation levels.
    pub fn levels(self) -> (n: usize)
        ensures
            n == self.level_count(),
    {
        match self {
            MemoryMode::Riscv64Sv39 => 3,
            MemoryMode::Riscv64Sv48 => 4,
            MemoryMode::Riscv64Sv57 => 5,
        }
    }

    /// The width of a virtual address in bits.
    pub fn virtual_address_bits(self) -> (n: usize)
        ensures
            n == self.address_bits(),
            self == MemoryMode::Riscv64Sv39 ==> n == 39,
            self == MemoryMode::Riscv64Sv48 ==> n == 48,
            self == MemoryMode::Riscv64Sv57 ==> n == 57,
    {
        PAGE_SHIFT + INDEX_BITS * self.levels()
    }

    /// Bytes of a leaf page.
    pub fn page_size(self) -> (n: usize)
        ensures
            n == PAGE_SIZE,
            n == span_of(0),
    {
        PAGE_SIZE
    }

    /// Bits of an address that the table at `level` consumes.
    pub fn index_bits(self, level: usize) -> (n: usize)
        requires
            level < self.level_count(),
        ensures
            n == INDEX_BITS,
    {
        INDEX_BITS
    }

    /// Entries of one translation table.
    pub fn entries_per_table(self) -> (n: usize)
        ensures
            n == TABLE_ENTRIES,
    {
        TABLE_ENTRIES
    }

    /// Bytes that one entry of a table at `level` maps.
    pub fn level_span(self, level: usize) -> (n: u64)
        requires
            level < self.level_count(),
        ensures
            n == span_of(level as nat),
    {
        proof {
            lemma_spans();
        }
        if level == 0 {
            0x1000
        } else if level == 1 {
            0x20_0000
        } else if level == 2 {
            0x4000_0000
        } else if level == 3 {
            0x80_0000_0000
        } else {
            0x1_0000_0000_0000
        }
    }

    /// The index into the table at `level` under which `addr` is looked up.
    pub fn table_index(self, addr: VirtualAddress, level: usize) -> (i: usize)
        requires
            level < self.level_count(),
        ensures
            i == index_at(addr.0 as int, level as nat),
            i < TABLE_ENTRIES,
    {
        proof {
            lemma_spans();
        }
        let span = self.level_span(level);
        let index: u64 = (addr.0 as u64 / span) % 512;
        index as usize
    }

    /// Whether `addr` is in canonical form for this mode.
    pub fn is_canonical(self, addr: VirtualAddress) -> (r: bool)
        ensures
            r == self.canonical(addr.0 as int),
    {
        proof {
            lemma_spans();
        }
        let half: u64 = match self {
            MemoryMode::Riscv64Sv39 => 0x40_0000_0000,
            MemoryMode::Riscv64Sv48 => 0x8000_0000_0000,
            MemoryMode::Riscv64Sv57 => 0x100_0000_0000_0000,
        };
        let raw: u64 = addr.0 as u64;
        raw < half || raw >= u64::MAX - half + 1
    }
}

/// A mode answers for its own geometry and for no other: the level counts
/// of the three modes differ, so a count identifies its mode, and each of
/// the three types stands for one mode, always the same.
pub proof fn lemma_modes_are_distinct(a: MemoryMode, b: MemoryMode)
    ensures
        Sv39::mode() == MemoryMode::Riscv64Sv39,
        Sv48::mode() == MemoryMode::Riscv64Sv48,
        Sv57::mode() == MemoryMode::Riscv64Sv57,
        MemoryMode::Riscv64Sv39.level_count() == 3,
        MemoryMode::Riscv64Sv48.level_count() == 4,
        MemoryMode::Riscv64Sv57.level_count() == 5,
        MemoryMode::Riscv64Sv39.address_bits() == 39,
        MemoryMode::Riscv64Sv48.address_bits() == 48,
        MemoryMode::Riscv64Sv57.address_bits() == 57,
        a.level_count() == b.level_count() <==> a == b,
        a.address_bits() == b.address_bits() <==> a == b,
{
}

/// One request to the platform: drop the cached translations of the address
/// space `asid` for the addresses from `start` up to, not including, `end`.
#[derive(Clone, Copy, Debug, PartialEq, Eq, Structural)]
pub struct Invalidation {
    pub asid: usize,
    pub start: VirtualAddress,
    pub end: VirtualAddress,
}

impl Invalidation {
    /// The request that invalidating `range` in `asid` sends to the
    /// platform: none for a range that holds nothing.
    pub open spec fn of(asid: usize, range: Range<VirtualAddress>) -> Option<Invalidation> {
        if range.start.0 < range.end.0 {
            Some(Invalidation { asid, start: range.start, end: range.end })
        } else {
            None
        }
    }

    /// The addresses to invalidate.
    pub fn range(&self) -> (r: Range<VirtualAddress>)
        ensures
            r.start == self.start,
            r.end == self.end,
    {
        Range { start: self.start, end: self.end }
    }

    /// The number of bytes to invalidate.
    pub fn size(&self) -> (n: usize)
        ensures
            self.start.0 <= self.end.0 ==> n == self.end.0 - self.start.0,
            self.start.0 > self.end.0 ==> n == 0,
    {
        if self.start.0 <= self.end.0 {
            self.end.0 - self.start.0
        } else {
            0
        }
    }
}

/// Whether `fence` accepts the request, where there is one. Nothing is asked
/// of `fence` where there is none, so it cannot be called then.
pub open spec fn accepts<F: FnOnce(Invalidation) -> Result<(), PlatformFault>>(
    fence: F,
    request: Option<Invalidation>,
) -> bool {
    request matches Some(inv) ==> call_requires(fence, (inv,))
}

/// Whether `r` is a result of sending `request` through `fence`: success
/// where there is nothing to send, else what one call of `fence` on the
/// request returned, with a fault wrapped.
pub open spec fn resolves<F: FnOnce(Invalidation) -> Result<(), PlatformFault>>(
    fence: F,
    request: Option<Invalidation>,
    r: Result<(), Error>,
) -> bool {
    match request {
        None => r == Ok::<(), Error>(()),
        Some(inv) => exists|outcome: Result<(), PlatformFault>|
            #[trigger] call_ensures(fence, (inv,), outcome) && r == Error::lift(outcome),
    }
}

/// A paging mode, chosen as a type.
pub trait Mode: Sized {
    /// The mode that the type stands for.
    spec fn mode() -> MemoryMode;

    /// The mode that the type stands for.
    fn memory_mode() -> (m: MemoryMode)
        ensures
            m == Self::mode(),
    ;

    /// The number of translation levels.
    fn levels() -> (n: usize)
        ensures
            n == Self::mode().level_count(),
    {
        Self::memory_mode().levels()
    }

    /// The width of a virtual address in bits.
    fn virtual_address_bits() -> (n: usize)
        ensures
            n == Self::mode().address_bits(),
    {
        Self::memory_mode().virtual_address_bits()
    }

    /// Bytes of a leaf page.
    fn page_size() -> (n: usize)
        ensures
            n == PAGE_SIZE,
    {
        Self::memory_mode().page_size()
    }

    /// Invalidates the cached translations of `range` in the address space
    /// `asid` on every hart. `fence` is the platform call that does so; it
    /// is called once, with that range, unless the range holds nothing.
    fn invalidate_range<F>(asid: usize, range: Range<VirtualAddress>, fence: F) -> (r: Result<
        (),
        Error,
    >) where F: FnOnce(Invalidation) -> Result<(), PlatformFault>
        requires
            accepts(fence, Invalidation::of(asid, range)),
        ensures
            resolves(fence, Invalidation::of(asid, range), r),
    {
        if range.start.0 < range.end.0 {
            let request = Invalidation { asid, start: range.start, end: range.end };
            let outcome = fence(request);
            Error::from_platform(outcome)
        } else {
            Ok(())
        }
    }
}

/// Three levels, 39-bit virtual addresses.
pub struct Sv39;

/// Four levels, 48-bit virtual addresses.
pub struct Sv48;

/// Five levels, 57-bit virtual addresses.
pub struct Sv57;

impl Mode for Sv39 {
    open spec fn mode() -> MemoryMode {
        MemoryMode::Riscv64Sv39
    }

    fn memory_mode() -> (m: MemoryMode) {
        MemoryMode::Riscv64Sv39
    }
}

impl Mode for Sv48 {
    open spec fn mode() -> MemoryMode {
        MemoryMode::Riscv64Sv48
    }

    fn memory_mode() -> (m: MemoryMode) {
        MemoryMode::Riscv64Sv48
    }
}

impl Mode for Sv57 {
    open spec fn mode() -> MemoryMode {
        MemoryMode::Riscv64Sv57
    }

    fn memory_mode() -> (m: MemoryMode) {
        MemoryMode::Riscv64Sv57
    }
}

} // verus!
