//! Batching of translation invalidations.
//!
//! Edits to the page tables of one address space leave stale translations in
//! the caches of the harts. A [`Flush`] collects the ranges that a sequence
//! of edits touched, and is resolved once: by [`Flush::flush`], which asks
//! the platform to invalidate what was collected, or by [`Flush::ignore`],
//! with which the caller declares that no hart can hold a stale entry.

use vstd::prelude::*;
use core::marker::PhantomData;
use core::ops::Range;
use crate::address::VirtualAddress;
use crate::error::{Error, PlatformFault};
use crate::mode::{accepts, resolves, Invalidation, Mode};
use crate::range::AddressRangeExt;

verus! {

/// What a batcher holds: the address space that it belongs to, and the
/// union of the ranges recorded so far, if any was.
pub struct FlushState {
    pub asid: usize,
    pub pending: Option<Range<VirtualAddress>>,
}

impl FlushState {
    /// The state of a batcher in which nothing was recorded yet.
    pub open spec fn empty(asid: usize) -> FlushState {
        FlushState { asid, pending: None }
    }

    /// The state after an attempt to record `range` for the address space
    /// `asid`, and what the attempt returns. A range of another address space
    /// is refused and changes nothing.
    pub open spec fn extend(self, asid: usize, range: Range<VirtualAddress>) -> (
        FlushState,
        Result<(), Error>,
    ) {
        if self.asid == asid {
            let merged = match self.pending {
                Some(pending) => pending.merged(range),
                None => range,
            };
            (FlushState { asid: self.asid, pending: Some(merged) }, Ok(()))
        } else {
            (self, Err(Error::AddressSpaceMismatch { expected: self.asid, found: asid }))
        }
    }

    /// The one request that flushing sends to the platform: none where
    /// nothing was recorded, or where what was recorded holds no address.
    pub open spec fn obligation(self) -> Option<Invalidation> {
        match self.pending {
            Some(range) => Invalidation::of(self.asid, range),
            None => None,
        }
    }
}

/// The invalidations that a sequence of page-table edits in one address
/// space has made necessary. It has to be resolved by `flush` or `ignore`;
/// letting it go out of scope leaves the harts with stale translations.
#[must_use]
pub struct Flush<M: Mode> {
    asid: usize,
    range: Option<Range<VirtualAddress>>,
    _m: PhantomData<M>,
}

impl<M: Mode> View for Flush<M> {
    type V = FlushState;

    closed spec fn view(&self) -> FlushState {
        FlushState { asid: self.asid, pending: self.range }
    }
}

impl<M: Mode> Flush<M> {
    /// A batcher for the address space `asid` with nothing recorded.
    pub fn empty(asid: usize) -> (flush: Self)
        ensures
            flush@ == FlushState::empty(asid),
    {
        Self { asid, range: None, _m: PhantomData }
    }

    /// A batcher for the address space `asid` with `range` recorded.
    pub fn new(asid: usize, range: Range<VirtualAddress>) -> (flush: Self)
        ensures
            flush@ == (FlushState { asid, pending: Some(range) }),
    {
        Self { asid, range: Some(range), _m: PhantomData }
    }

    /// The address space that the batcher belongs to.
    pub fn asid(&self) -> (asid: usize)
        ensures
            asid == self@.asid,
    {
        self.asid
    }

    /// The union of the ranges recorded so far.
    pub fn pending(&self) -> (pending: Option<Range<VirtualAddress>>)
        ensures
            pending == self@.pending,
    {
        match &self.range {
            Some(range) => Some(Range { start: range.start, end: range.end }),
            None => None,
        }
    }

    /// The request that flushing would send to the platform: none where
    /// nothing was recorded, or where what was recorded holds no address.
    pub fn obligation(&self) -> (request: Option<Invalidation>)
        ensures
            request == self@.obligation(),
    {
        match &self.range {
            Some(range) => {
                if range.start.0 < range.end.0 {
                    Some(Invalidation { asid: self.asid, start: range.start, end: range.end })
                } else {
                    None
                }
            },
            None => None,
        }
    }

    /// Asks the platform, through `fence`, to invalidate what was recorded,
    /// and returns its failure wrapped. `fence` is called once, with the
    /// union of the recorded ranges. Where nothing was recorded the flush
    /// succeeds without a call.
    pub fn flush<F>(self, fence: F) -> (r: Result<(), Error>) where
        F: FnOnce(Invalidation) -> Result<(), PlatformFault>,

        requires
            accepts(fence, self@.obligation()),
        ensures
            resolves(fence, self@.obligation(), r),
    {
        match self.range {
            Some(range) => M::invalidate_range(self.asid, range, fence),
            None => Ok(()),
        }
    }

    /// Discards what was recorded without any call to the platform.
    ///
    /// The caller takes over the responsibility for the harts: this is right
    /// only where none of them can have cached a translation that the edits
    /// changed, such as for an address space that was never activated.
    pub fn ignore(self) {
    }

    /// Records `other`, a range of the address space `asid`, by merging it
    /// into what was recorded so far.
    pub fn extend_range(&mut self, asid: usize, other: Range<VirtualAddress>) -> (r: Result<
        (),
        Error,
    >)
        ensures
            (final(self)@, r) == old(self)@.extend(asid, other),
    {
        if self.asid == asid {
            let merged = match self.range.take() {
                Some(this) => this.concat(other),
                None => other,
            };
            self.range = Some(merged);
            Ok(())
        } else {
            Err(Error::AddressSpaceMismatch { expected: self.asid, found: asid })
        }
    }
}

/// A range of another address space is refused, with both identifiers in
/// the error, and leaves the batcher as it was: after a first range went
/// into an empty batcher, that range is still what is pending.
pub proof fn lemma_mismatch_changes_nothing(
    state: FlushState,
    found: usize,
    first: Range<VirtualAddress>,
    second: Range<VirtualAddress>,
)
    requires
        found != state.asid,
    ensures
        state.extend(found, second) == (
            state,
            Err::<(), Error>(Error::AddressSpaceMismatch { expected: state.asid, found }),
        ),
        FlushState::empty(state.asid).extend(state.asid, first).1 == Ok::<(), Error>(()),
        FlushState::empty(state.asid).extend(state.asid, first).0.extend(found, second).0.pending
            == Some(first),
        FlushState::empty(state.asid).extend(state.asid, first).0.extend(found, second).1 == Err::<
            (),
            Error,
        >(Error::AddressSpaceMismatch { expected: state.asid, found }),
{
}

/// Two ranges recorded one after the other are flushed as one: the single
/// request runs from the lower start to the higher end, and where the two
/// ranges touch it covers their addresses and no others.
pub proof fn lemma_extends_merge_into_one_request(
    asid: usize,
    first: Range<VirtualAddress>,
    second: Range<VirtualAddress>,
)
    requires
        first.start.0 < first.end.0,
        second.start.0 < second.end.0,
    ensures
        ({
            let state = FlushState::empty(asid).extend(asid, first).0.extend(asid, second).0;
            let merged = first.merged(second);
            &&& state.obligation() == Some(
                Invalidation { asid, start: merged.start, end: merged.end },
            )
            &&& merged.span() == first.span().concat(second.span())
            &&& first.span().touches(second.span()) ==> merged.span().points()
                == first.span().points().union(second.span().points())
        }),
{
    crate::range::lemma_concat_is_union(first.span(), second.span());
}

/// A batcher into which nothing was recorded has nothing to send: flushing
/// it makes no call and succeeds.
pub proof fn lemma_empty_flush_sends_nothing<F: FnOnce(Invalidation) -> Result<(), PlatformFault>>(
    asid: usize,
    fence: F,
    r: Result<(), Error>,
)
    ensures
        FlushState::empty(asid).obligation() is None,
        accepts(fence, FlushState::empty(asid).obligation()),
        resolves(fence, FlushState::empty(asid).obligation(), r) <==> r == Ok::<(), Error>(()),
{
}

} // verus!
