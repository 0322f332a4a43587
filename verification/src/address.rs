//! Virtual and physical addresses.
//!
//! The two kinds are distinct types with the same arithmetic. Neither
//! converts into the other: going from one to the other is a translation
//! through the page tables, which is not an operation on the number.

use vstd::prelude::*;
use crate::align::{
    align_down,
    align_down_raw,
    align_up,
    checked_align_up_raw,
    is_aligned,
    lemma_align_down,
    lemma_next_page_boundary,
    page_number,
    page_offset,
};

verus! {

/// An address as seen through the translation tables of an address space.
#[derive(Clone, Copy, Debug, PartialEq, Eq, Ord, Hash, Structural)]
pub struct VirtualAddress(pub usize);

impl VirtualAddress {
    /// The address `offset` bytes above this one, if there is one.
    pub open spec fn plus(self, offset: usize) -> Option<Self> {
        if self.0 + offset <= usize::MAX {
            Some(VirtualAddress((self.0 + offset) as usize))
        } else {
            None
        }
    }

    /// The address `offset` bytes below this one, if there is one.
    pub open spec fn minus(self, offset: usize) -> Option<Self> {
        if offset <= self.0 {
            Some(VirtualAddress((self.0 - offset) as usize))
        } else {
            None
        }
    }

    /// The greatest multiple of `align` at or below the address.
    pub open spec fn rounded_down(self, align: usize) -> Self {
        VirtualAddress(align_down(self.0 as int, align as int) as usize)
    }

    /// The least multiple of `align` at or above the address, if it is an
    /// address.
    pub open spec fn rounded_up(self, align: usize) -> Option<Self> {
        if align_up(self.0 as int, align as int) <= usize::MAX {
            Some(VirtualAddress(align_up(self.0 as int, align as int) as usize))
        } else {
            None
        }
    }

    /// Wraps a raw machine address.
    pub fn new(raw: usize) -> (addr: Self)
        ensures
            addr.0 == raw,
    {
        VirtualAddress(raw)
    }

    /// The raw machine address.
    pub fn as_raw(self) -> (raw: usize)
        ensures
            raw == self.0,
    {
        self.0
    }

    /// The address `offset` bytes above this one, or `None` where that would
    /// leave the address space.
    pub fn checked_add(self, offset: usize) -> (r: Option<Self>)
        ensures
            r == self.plus(offset),
    {
        match self.0.checked_add(offset) {
            Some(raw) => Some(VirtualAddress(raw)),
            None => None,
        }
    }

    /// The address `offset` bytes below this one, or `None` where that would
    /// fall below address zero.
    pub fn checked_sub(self, offset: usize) -> (r: Option<Self>)
        ensures
            r == self.minus(offset),
    {
        match self.0.checked_sub(offset) {
            Some(raw) => Some(VirtualAddress(raw)),
            None => None,
        }
    }

    /// The number of bytes from `origin` up to this address, or `None` where
    /// `origin` lies above it.
    pub fn checked_offset_from(self, origin: Self) -> (r: Option<usize>)
        ensures
            origin.0 <= self.0 ==> r == Some((self.0 - origin.0) as usize),
            origin.0 > self.0 ==> r is None,
    {
        self.0.checked_sub(origin.0)
    }

    /// Whether the address is a multiple of `align`.
    pub fn is_aligned(self, align: usize) -> (r: bool)
        requires
            align > 0,
        ensures
            r == is_aligned(self.0 as int, align as int),
    {
        self.0 % align == 0
    }

    /// The greatest multiple of `align` at or below the address.
    pub fn align_down(self, align: usize) -> (r: Self)
        requires
            align > 0,
        ensures
            r == self.rounded_down(align),
            r.0 == align_down(self.0 as int, align as int),
    {
        VirtualAddress(align_down_raw(self.0, align))
    }

    /// The least multiple of `align` at or above the address, or `None`
    /// where it lies beyond the address space.
    pub fn checked_align_up(self, align: usize) -> (r: Option<Self>)
        requires
            align > 0,
        ensures
            r == self.rounded_up(align),
    {
        match checked_align_up_raw(self.0, align) {
            Some(raw) => Some(VirtualAddress(raw)),
            None => None,
        }
    }

    /// The number of the page that holds the address, for pages of
    /// `page_size` bytes.
    pub fn page_number(self, page_size: usize) -> (r: usize)
        requires
            page_size > 0,
        ensures
            r == page_number(self.0 as int, page_size as int),
    {
        self.0 / page_size
    }

    /// The offset of the address inside its page of `page_size` bytes.
    pub fn page_offset(self, page_size: usize) -> (r: usize)
        requires
            page_size > 0,
        ensures
            r == page_offset(self.0 as int, page_size as int),
    {
        self.0 % page_size
    }
}

/// An address of physical memory.
#[derive(Clone, Copy, Debug, PartialEq, Eq, Ord, Hash, Structural)]
pub struct PhysicalAddress(pub usize);

impl PhysicalAddress {
    /// The address `offset` bytes above this one, if there is one.
    pub open spec fn plus(self, offset: usize) -> Option<Self> {
        if self.0 + offset <= usize::MAX {
            Some(PhysicalAddress((self.0 + offset) as usize))
        } else {
            None
        }
    }

    /// The address `offset` bytes below this one, if there is one.
    pub open spec fn minus(self, offset: usize) -> Option<Self> {
        if offset <= self.0 {
            Some(PhysicalAddress((self.0 - offset) as usize))
        } else {
            None
        }
    }

    /// The greatest multiple of `align` at or below the address.
    pub open spec fn rounded_down(self, align: usize) -> Self {
        PhysicalAddress(align_down(self.0 as int, align as int) as usize)
    }

    /// The least multiple of `align` at or above the address, if it is an
    /// address.
    pub open spec fn rounded_up(self, align: usize) -> Option<Self> {
        if align_up(self.0 as int, align as int) <= usize::MAX {
            Some(PhysicalAddress(align_up(self.0 as int, align as int) as usize))
        } else {
            None
        }
    }

    /// Wraps a raw machine address.
    pub fn new(raw: usize) -> (addr: Self)
        ensures
            addr.0 == raw,
    {
        PhysicalAddress(raw)
    }

    /// The raw machine address.
    pub fn as_raw(self) -> (raw: usize)
        ensures
            raw == self.0,
    {
        self.0
    }

    /// The address `offset` bytes above this one, or `None` where that would
    /// leave the address space.
    pub fn checked_add(self, offset: usize) -> (r: Option<Self>)
        ensures
            r == self.plus(offset),
    {
        match self.0.checked_add(offset) {
            Some(raw) => Some(PhysicalAddress(raw)),
            None => None,
        }
    }

    /// The address `offset` bytes below this one, or `None` where that would
    /// fall below address zero.
    pub fn checked_sub(self, offset: usize) -> (r: Option<Self>)
        ensures
            r == self.minus(offset),
    {
        match self.0.checked_sub(offset) {
            Some(raw) => Some(PhysicalAddress(raw)),
            None => None,
        }
    }

    /// The number of bytes from `origin` up to this address, or `None` where
    /// `origin` lies above it.
    pub fn checked_offset_from(self, origin: Self) -> (r: Option<usize>)
        ensures
            origin.0 <= self.0 ==> r == Some((self.0 - origin.0) as usize),
            origin.0 > self.0 ==> r is None,
    {
        self.0.checked_sub(origin.0)
    }

    /// Whether the address is a multiple of `align`.
    pub fn is_aligned(self, align: usize) -> (r: bool)
        requires
            align > 0,
        ensures
            r == is_aligned(self.0 as int, align as int),
    {
        self.0 % align == 0
    }

    /// The greatest multiple of `align` at or below the address.
    pub fn align_down(self, align: usize) -> (r: Self)
        requires
            align > 0,
        ensures
            r == self.rounded_down(align),
            r.0 == align_down(self.0 as int, align as int),
    {
        PhysicalAddress(align_down_raw(self.0, align))
    }

    /// The least multiple of `align` at or above the address, or `None`
    /// where it lies beyond the address space.
    pub fn checked_align_up(self, align: usize) -> (r: Option<Self>)
        requires
            align > 0,
        ensures
            r == self.rounded_up(align),
    {
        match checked_align_up_raw(self.0, align) {
            Some(raw) => Some(PhysicalAddress(raw)),
            None => None,
        }
    }

    /// The number of the page that holds the address, for pages of
    /// `page_size` bytes.
    pub fn page_number(self, page_size: usize) -> (r: usize)
        requires
            page_size > 0,
        ensures
            r == page_number(self.0 as int, page_size as int),
    {
        self.0 / page_size
    }

    /// The offset of the address inside its page of `page_size` bytes.
    pub fn page_offset(self, page_size: usize) -> (r: usize)
        requires
            page_size > 0,
        ensures
            r == page_offset(self.0 as int, page_size as int),
    {
        self.0 % page_size
    }
}

/// Rounding an address down to its page and adding the page size gives the
/// start of the next page: it is an address unless the page is the last of
/// the address space, it is the least page boundary above the address, and
/// rounding it, or rounding the rounded address again, changes nothing.
pub proof fn lemma_next_page(addr: VirtualAddress, page_size: usize)
    requires
        page_size > 0,
    ensures
        addr.rounded_down(page_size).0 <= addr.0,
        addr.rounded_down(page_size).rounded_down(page_size) == addr.rounded_down(page_size),
        addr.rounded_down(page_size).plus(page_size) is Some <==> addr.rounded_down(page_size).0
            + page_size <= usize::MAX,
        addr.rounded_down(page_size).plus(page_size) matches Some(next) ==> {
            &&& is_aligned(next.0 as int, page_size as int)
            &&& addr.0 < next.0 <= addr.0 + page_size
            &&& next.0 == addr.rounded_down(page_size).0 + page_size
            &&& forall|boundary: int|
                is_aligned(boundary, page_size as int) && addr.0 < boundary ==> next.0 <= boundary
            &&& next.rounded_down(page_size) == next
            &&& page_number(next.0 as int, page_size as int) == page_number(
                addr.0 as int,
                page_size as int,
            ) + 1
        },
{
    lemma_align_down(addr.0 as int, page_size as int);
    lemma_next_page_boundary(addr.0 as int, page_size as int);
}

} // verus!
