//! Alignment arithmetic on raw addresses.
//!
//! The spec functions work on mathematical integers, so they never wrap; the
//! executable functions report a result that does not fit the machine word
//! instead of truncating it.

use vstd::prelude::*;
use vstd::arithmetic::div_mod::*;
use vstd::arithmetic::mul::*;

verus! {

/// Whether `addr` is a multiple of `align`.
pub open spec fn is_aligned(addr: int, align: int) -> bool {
    addr % align == 0
}

/// `addr` rounded down to a multiple of `align`.
pub open spec fn align_down(addr: int, align: int) -> int {
    addr - addr % align
}

/// `addr` rounded up to a multiple of `align`.
pub open spec fn align_up(addr: int, align: int) -> int {
    if addr % align == 0 {
        addr
    } else {
        addr - addr % align + align
    }
}

/// The number of the page of size `page_size` that holds `addr`.
pub open spec fn page_number(addr: int, page_size: int) -> int {
    addr / page_size
}

/// The offset of `addr` inside its page of size `page_size`.
pub open spec fn page_offset(addr: int, page_size: int) -> int {
    addr % page_size
}

/// A product with `align` is aligned to `align`.
pub proof fn lemma_multiple_is_aligned(k: int, align: int)
    requires
        align > 0,
    ensures
        is_aligned(k * align, align),
        is_aligned(align * k, align),
        (k * align) / align == k,
{
    lemma_mod_multiples_basic(k, align);
    lemma_mul_is_commutative(k, align);
    lemma_div_multiples_vanish(k, align);
}

/// Between two distinct multiples of `align` lies at least `align`.
pub proof fn lemma_aligned_gap(low: int, high: int, align: int)
    requires
        align > 0,
        is_aligned(low, align),
        is_aligned(high, align),
        low < high,
    ensures
        low + align <= high,
{
    lemma_fundamental_div_mod(low, align);
    lemma_fundamental_div_mod(high, align);
    let a = low / align;
    let b = high / align;
    if b <= a {
        lemma_mul_inequality(b, a, align);
        lemma_mul_is_commutative(a, align);
        lemma_mul_is_commutative(b, align);
    }
    assert(a + 1 <= b);
    lemma_mul_inequality(a + 1, b, align);
    lemma_mul_is_commutative(a + 1, align);
    lemma_mul_is_commutative(b, align);
    lemma_mul_is_distributive_add(align, a, 1);
}

/// `align_down` gives the greatest multiple of `align` that is at most `addr`.
pub proof fn lemma_align_down(addr: int, align: int)
    requires
        align > 0,
    ensures
        is_aligned(align_down(addr, align), align),
        align_down(addr, align) <= addr < align_down(addr, align) + align,
        align_down(addr, align) == align * (addr / align),
        forall|m: int| is_aligned(m, align) && m <= addr ==> m <= align_down(addr, align),
{
    let down = align_down(addr, align);
    lemma_fundamental_div_mod(addr, align);
    lemma_mod_bound(addr, align);
    lemma_multiple_is_aligned(addr / align, align);
    lemma_mul_is_commutative(addr / align, align);
    assert forall|m: int| is_aligned(m, align) && m <= addr implies m <= down by {
        if down < m {
            lemma_aligned_gap(down, m, align);
        }
    }
}

/// `align_up` gives the least multiple of `align` that is at least `addr`.
pub proof fn lemma_align_up(addr: int, align: int)
    requires
        align > 0,
    ensures
        is_aligned(align_up(addr, align), align),
        addr <= align_up(addr, align) < addr + align,
        forall|m: int| is_aligned(m, align) && addr <= m ==> align_up(addr, align) <= m,
{
    let up = align_up(addr, align);
    lemma_align_down(addr, align);
    lemma_mod_bound(addr, align);
    if addr % align != 0 {
        let down = align_down(addr, align);
        lemma_fundamental_div_mod(addr, align);
        lemma_multiple_is_aligned(addr / align + 1, align);
        lemma_mul_is_distributive_add_other_way(align, addr / align, 1);
        lemma_mul_is_commutative(addr / align, align);
        assert(up == (addr / align + 1) * align);
        assert forall|m: int| is_aligned(m, align) && addr <= m implies up <= m by {
            assert(m != down);
            if m < down {
            } else {
                lemma_aligned_gap(down, m, align);
            }
        }
    }
}

/// Rounding is idempotent: an aligned address is its own rounding, both ways.
pub proof fn lemma_align_idempotent(addr: int, align: int)
    requires
        align > 0,
    ensures
        align_down(align_down(addr, align), align) == align_down(addr, align),
        align_up(align_up(addr, align), align) == align_up(addr, align),
        align_up(align_down(addr, align), align) == align_down(addr, align),
        align_down(align_up(addr, align), align) == align_up(addr, align),
{
    lemma_align_down(addr, align);
    lemma_align_up(addr, align);
}

/// Rounding an address down to its page and adding one page size gives the
/// start of the next page: the least page boundary above the address. The
/// result is a fixed point of rounding, and it is where the rounded-up
/// address lands unless the address was a boundary itself.
pub proof fn lemma_next_page_boundary(addr: int, page_size: int)
    requires
        page_size > 0,
    ensures
        is_aligned(align_down(addr, page_size) + page_size, page_size),
        addr < align_down(addr, page_size) + page_size <= addr + page_size,
        forall|m: int|
            is_aligned(m, page_size) && addr < m ==> align_down(addr, page_size) + page_size <= m,
        align_down(align_down(addr, page_size) + page_size, page_size) == align_down(
            addr,
            page_size,
        ) + page_size,
        align_down(align_down(addr, page_size), page_size) == align_down(addr, page_size),
        page_number(align_down(addr, page_size) + page_size, page_size) == page_number(
            addr,
            page_size,
        ) + 1,
        !is_aligned(addr, page_size) ==> align_up(addr, page_size) == align_down(addr, page_size)
            + page_size,
{
    let down = align_down(addr, page_size);
    let next = down + page_size;
    lemma_align_down(addr, page_size);
    lemma_align_idempotent(addr, page_size);
    lemma_multiple_is_aligned(addr / page_size + 1, page_size);
    lemma_mul_is_distributive_add_other_way(page_size, addr / page_size, 1);
    lemma_mul_is_commutative(addr / page_size, page_size);
    assert(next == (addr / page_size + 1) * page_size);
    assert forall|m: int| is_aligned(m, page_size) && addr < m implies next <= m by {
        if m < next {
            if down < m {
                lemma_aligned_gap(down, m, page_size);
            }
        }
    }
}

/// Rounds `addr` down to a multiple of `align`.
pub fn align_down_raw(addr: usize, align: usize) -> (r: usize)
    requires
        align > 0,
    ensures
        r == align_down(addr as int, align as int),
        r <= addr,
{
    proof {
        lemma_align_down(addr as int, align as int);
    }
    addr - addr % align
}

/// Rounds `addr` up to a multiple of `align`, or reports that the result
/// does not fit the machine word.
pub fn checked_align_up_raw(addr: usize, align: usize) -> (r: Option<usize>)
    requires
        align > 0,
    ensures
        align_up(addr as int, align as int) <= usize::MAX ==> r == Some(
            align_up(addr as int, align as int) as usize,
        ),
        align_up(addr as int, align as int) > usize::MAX ==> r is None,
{
    proof {
        lemma_align_down(addr as int, align as int);
    }
    let rest: usize = addr % align;
    if rest == 0 {
        Some(addr)
    } else {
        (addr - rest).checked_add(align)
    }
}

} // verus!
