//! Frame lookup for a stack unwinder: from a program counter to the frame
//! description entry that says how to unwind the frame it belongs to.
//!
//! A finder resolves the base address of the code region that holds the
//! program counter, then searches the region's index header by binary search
//! or, failing that, its frame table from the start. Two finders are at hand:
//! one that an application registers once ([`custom`]), and one that asks the
//! callbacks of a host runtime ([`deferred`]).

pub mod custom;
pub mod decoder;
pub mod deferred;
pub mod memory;
pub mod race;
pub mod search;

use crate::decoder::Fde;
use crate::memory::Memory;
use vstd::prelude::*;

verus! {

/// The addresses that relative pointers in the sections are resolved
/// against. The text base comes first: no value of this type is without it.
#[derive(Clone, Copy, Debug, PartialEq, Eq, Structural)]
pub struct BaseAddresses {
    /// Where the code region starts.
    pub text: u64,
    /// Where the index header is, once known.
    pub eh_frame_hdr: Option<u64>,
    /// Where the frame table is, once known.
    pub eh_frame: Option<u64>,
}

impl BaseAddresses {
    /// The bases of a code region at `text`, with no section known yet.
    pub fn new(text: u64) -> (bases: Self)
        ensures
            bases == (BaseAddresses { text, eh_frame_hdr: None, eh_frame: None }),
    {
        BaseAddresses { text, eh_frame_hdr: None, eh_frame: None }
    }

    /// These bases with the index header at `address`.
    pub fn set_eh_frame_hdr(self, address: u64) -> (bases: Self)
        ensures
            bases == (BaseAddresses { eh_frame_hdr: Some(address), ..self }),
    {
        BaseAddresses { eh_frame_hdr: Some(address), ..self }
    }

    /// These bases with the frame table at `address`.
    pub fn set_eh_frame(self, address: u64) -> (bases: Self)
        ensures
            bases == (BaseAddresses { eh_frame: Some(address), ..self }),
    {
        BaseAddresses { eh_frame: Some(address), ..self }
    }
}

/// A frame description entry that a lookup found, with what it takes to
/// read it again.
#[derive(Clone, Copy, Debug, PartialEq, Eq, Structural)]
pub struct FDESearchResult {
    /// The entry.
    pub fde: Fde,
    /// The bases that the entry was decoded with.
    pub bases: BaseAddresses,
    /// The address of the frame table that holds the entry.
    pub eh_frame: usize,
}

/// Something that finds the frame description entry of a program counter.
pub trait FDEFinder {
    /// The entry that covers `pc`, looked for in `memory`; `None` where
    /// there is none to be found.
    fn find_fde(&self, memory: &Memory<'_>, pc: usize) -> Option<FDESearchResult>;
}

} // verus!
