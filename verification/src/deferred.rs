//! The finder that asks a host runtime.
//!
//! A host answers three questions through its [`HostCallbacks`]: where the
//! code region of a program counter starts, where the index header is, and
//! where the frame table is. It overrides the callbacks that it can answer;
//! each of the others stays as it is and reports that nothing is known.

use crate::custom::{find_fde_from_bases, found_from_bases, BaseAddressFinder};
use crate::memory::{Memory, MemoryView};
use crate::FDESearchResult;
use vstd::prelude::*;

verus! {

/// The text base of a host that cannot tell: unknown.
pub fn __unwinding_get_text_base(_pc: usize) -> (address: Option<usize>)
    ensures
        address is None,
{
    None
}

/// The index header of a host that cannot tell: unknown.
pub fn __unwinding_get_eh_frame_hdr() -> (address: Option<usize>)
    ensures
        address is None,
{
    None
}

/// The frame table of a host that cannot tell: unknown.
pub fn __unwinding_get_eh_frame() -> (address: Option<usize>)
    ensures
        address is None,
{
    None
}

/// The questions that a host runtime answers. Each callback that a host
/// does not override reports that nothing is known.
pub trait HostCallbacks {
    /// The base address of the code region that holds `pc`.
    fn text_base(&self, pc: usize) -> (address: Option<usize>)
        default_ensures
            address is None,
    {
        __unwinding_get_text_base(pc)
    }

    /// The address of the index header.
    fn eh_frame_hdr(&self) -> (address: Option<usize>)
        default_ensures
            address is None,
    {
        __unwinding_get_eh_frame_hdr()
    }

    /// The address of the frame table.
    fn eh_frame(&self) -> (address: Option<usize>)
        default_ensures
            address is None,
    {
        __unwinding_get_eh_frame()
    }
}

/// The host that overrides no callback.
pub struct NoCallbacks;

impl HostCallbacks for NoCallbacks {

}

/// The finder that looks up through the callbacks of a host.
pub struct DeferredFinder<H>(H);

/// The finder of a host that overrides no callback.
pub fn get_finder() -> (finder: &'static DeferredFinder<NoCallbacks>)
    ensures
        finder.callbacks() == NoCallbacks,
{
    &DeferredFinder(NoCallbacks)
}

impl<H> DeferredFinder<H> {
    /// The callbacks that this finder asks.
    pub closed spec fn callbacks(self) -> H {
        self.0
    }

    /// The finder that asks `callbacks`.
    pub fn new(callbacks: H) -> (finder: Self)
        ensures
            finder.callbacks() == callbacks,
    {
        DeferredFinder(callbacks)
    }
}

impl<H: HostCallbacks> BaseAddressFinder for DeferredFinder<H> {
    fn find_text_base(&self, pc: usize) -> (address: Option<usize>)
        ensures
            call_ensures(H::text_base, (&self.callbacks(), pc), address),
    {
        self.0.text_base(pc)
    }

    fn find_eh_frame_hdr(&self) -> (address: Option<usize>)
        ensures
            call_ensures(H::eh_frame_hdr, (&self.callbacks(),), address),
    {
        self.0.eh_frame_hdr()
    }

    fn find_eh_frame(&self) -> (address: Option<usize>)
        ensures
            call_ensures(H::eh_frame, (&self.callbacks(),), address),
    {
        self.0.eh_frame()
    }
}

impl<H: HostCallbacks> DeferredFinder<H> {
    /// Looks up `pc` through what the host's callbacks report: nothing where
    /// the text base is unknown; else by the index header first, and by the
    /// frame table where that finds nothing.
    pub fn find_fde(&self, memory: &Memory<'_>, pc: usize) -> (result: Option<FDESearchResult>)
        ensures
            found_from_bases(self, memory@, pc, result),
            result matches Some(entry) ==> entry.fde.covers(pc as u64),
    {
        find_fde_from_bases(self, memory, pc)
    }
}

/// With no callback overridden, nothing is ever found.
pub proof fn lemma_no_callbacks_find_nothing(
    finder: &DeferredFinder<NoCallbacks>,
    memory: MemoryView,
    pc: usize,
    result: Option<FDESearchResult>,
)
    requires
        found_from_bases(finder, memory, pc, result),
    ensures
        result is None,
{
}

/// Whether the host behind `finder` leaves both section callbacks as they
/// are: neither ever reports an address.
pub open spec fn sections_unknown<H: HostCallbacks>(finder: &DeferredFinder<H>) -> bool {
    &&& forall|address: Option<usize>|
        call_ensures(H::eh_frame_hdr, (&finder.callbacks(),), address) ==> address is None
    &&& forall|address: Option<usize>|
        call_ensures(H::eh_frame, (&finder.callbacks(),), address) ==> address is None
}

/// A host that overrides the text-base callback alone finds nothing either:
/// with neither section known there is nothing to search.
pub proof fn lemma_text_base_alone_finds_nothing<H: HostCallbacks>(
    finder: &DeferredFinder<H>,
    memory: MemoryView,
    pc: usize,
    result: Option<FDESearchResult>,
)
    requires
        sections_unknown(finder),
        found_from_bases(finder, memory, pc, result),
    ensures
        result is None,
{
}

} // verus!
