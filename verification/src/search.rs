//! The search that every finder ends in: through the index header by binary
//! search, else through the frame table from its start.
//!
//! A section that does not decode is no error. The path that read it finds
//! nothing, and where another path is left the search goes on with it.

use crate::decoder::{
    decoded_header, fde_by_scan, fde_by_table, indexed_fde, lookup_table, parse_header,
    scanned_fde, searchable, table_target, within_table, Fde, IndexHeader, Pointer,
    MAX_TABLE_ROWS,
};
use crate::memory::{Memory, MemoryView};
use crate::{BaseAddresses, FDESearchResult};
use vstd::prelude::*;

verus! {

impl IndexHeader {
    /// Whether the header's binary-search table may be searched.
    pub fn has_searchable_table(&self) -> (yes: bool)
        ensures
            yes == searchable(Some(*self)),
    {
        match self.rows {
            Some(rows) => rows as u64 <= MAX_TABLE_ROWS,
            None => false,
        }
    }

    /// Whether `target`, as the table gave it, lies at or behind the start
    /// of the frame table.
    pub fn holds(&self, target: Option<Pointer>) -> (yes: bool)
        ensures
            yes == within_table(target, Some(*self)),
    {
        match (target, self.eh_frame_ptr) {
            (Some(Pointer::Direct(at)), Pointer::Direct(start)) => start <= at,
            _ => false,
        }
    }
}

/// The address that `pointer` stands for in `memory`: itself where it is
/// direct, else the word stored where it points.
pub open spec fn pointed_address(memory: MemoryView, pointer: Pointer) -> Option<usize> {
    match pointer {
        Pointer::Direct(address) => Some(address as usize),
        Pointer::Indirect(cell) => match memory.word_at(cell as usize) {
            Some(word) => Some(word as usize),
            None => None,
        },
    }
}

/// What a search reports for an entry found in the frame table at `table`.
pub open spec fn found_in(
    fde: Option<Fde>,
    text: usize,
    index: Option<usize>,
    table: usize,
) -> Option<FDESearchResult> {
    match fde {
        Some(fde) => Some(
            FDESearchResult {
                fde,
                bases: BaseAddresses {
                    text: text as u64,
                    eh_frame_hdr: match index {
                        Some(index) => Some(index as u64),
                        None => None,
                    },
                    eh_frame: Some(table as u64),
                },
                eh_frame: table,
            },
        ),
        None => None,
    }
}

/// The entry that the decoder returned for `pc`, which covers `pc`. The
/// decoder returns no other; an entry that did not cover `pc` would count
/// as none.
pub open spec fn covering(fde: Option<Fde>, pc: usize) -> Option<Fde> {
    match fde {
        Some(entry) if entry.covers(pc as u64) => fde,
        _ => None,
    }
}

/// The entry that a walk through the frame table at `table` finds for `pc`.
pub open spec fn scan_of(
    memory: MemoryView,
    pc: usize,
    text: usize,
    index: Option<usize>,
    table: usize,
) -> Option<Fde> {
    covering(
        scanned_fde(
            memory.layout.order,
            memory.layout.address_size.width(),
            memory.bytes_from(table),
            text as u64,
            match index {
                Some(index) => Some(index as u64),
                None => None,
            },
            table as u64,
            pc as u64,
        ),
        pc,
    )
}

/// The entry that the binary-search table of the header at `index` finds for
/// `pc`. The table is asked only where it may be searched and points into
/// the frame table.
pub open spec fn table_hit(
    memory: MemoryView,
    pc: usize,
    text: usize,
    index: usize,
    table: usize,
) -> Option<Fde> {
    let order = memory.layout.order;
    let width = memory.layout.address_size.width();
    let bytes = memory.bytes_from(index);
    let header = decoded_header(order, width, bytes, text as u64, index as u64);
    let target = table_target(
        order,
        width,
        bytes,
        text as u64,
        index as u64,
        table as u64,
        pc as u64,
    );
    if searchable(header) && within_table(target, header) {
        covering(
            indexed_fde(
                order,
                width,
                bytes,
                memory.bytes_from(table),
                text as u64,
                index as u64,
                table as u64,
                pc as u64,
            ),
            pc,
        )
    } else {
        None
    }
}

/// What the search through a frame table at `eh_frame` alone finds for `pc`.
pub open spec fn frame_table_outcome(
    memory: MemoryView,
    pc: usize,
    text: usize,
    eh_frame: usize,
) -> Option<FDESearchResult> {
    found_in(scan_of(memory, pc, text, None, eh_frame), text, None, eh_frame)
}

/// What the search through the index header at `eh_frame_hdr` finds for
/// `pc`: nothing where the header does not decode or its pointer to the
/// frame table cannot be followed; else what the binary-search table finds,
/// and where that is nothing, what a walk through the frame table finds.
pub open spec fn index_header_outcome(
    memory: MemoryView,
    pc: usize,
    text: usize,
    eh_frame_hdr: usize,
) -> Option<FDESearchResult> {
    let header = decoded_header(
        memory.layout.order,
        memory.layout.address_size.width(),
        memory.bytes_from(eh_frame_hdr),
        text as u64,
        eh_frame_hdr as u64,
    );
    match header {
        None => None,
        Some(header) => match pointed_address(memory, header.eh_frame_ptr) {
            None => None,
            Some(table) => {
                let hit = table_hit(memory, pc, text, eh_frame_hdr, table);
                let fde = if hit is Some {
                    hit
                } else {
                    scan_of(memory, pc, text, Some(eh_frame_hdr), table)
                };
                found_in(fde, text, Some(eh_frame_hdr), table)
            },
        },
    }
}

/// What the whole search finds for `pc` in the code region at `text`: what
/// the index header gives where one is known; else, or where that is
/// nothing, what the frame table gives where one is known.
pub open spec fn locate_outcome(
    memory: MemoryView,
    pc: usize,
    text: usize,
    eh_frame_hdr: Option<usize>,
    eh_frame: Option<usize>,
) -> Option<FDESearchResult> {
    let first = match eh_frame_hdr {
        Some(index) => index_header_outcome(memory, pc, text, index),
        None => None,
    };
    if first is Some {
        first
    } else {
        match eh_frame {
            Some(table) => frame_table_outcome(memory, pc, text, table),
            None => None,
        }
    }
}

/// Follows `pointer` to the address it stands for: a direct pointer is the
/// address, an indirect one is read from `memory`. `None` where the word it
/// points at cannot be read.
pub fn deref_pointer(memory: &Memory<'_>, pointer: Pointer) -> (address: Option<usize>)
    ensures
        address == pointed_address(memory@, pointer),
{
    match pointer {
        Pointer::Direct(address) => Some(address as usize),
        Pointer::Indirect(cell) => match memory.read_word(cell as usize) {
            Some(word) => Some(word as usize),
            None => None,
        },
    }
}

/// Wraps an entry found in the frame table at `table` with the bases it was
/// decoded with.
pub fn found(
    fde: Option<Fde>,
    text: usize,
    index: Option<usize>,
    table: usize,
) -> (result: Option<FDESearchResult>)
    ensures
        result == found_in(fde, text, index, table),
{
    match fde {
        Some(fde) => {
            let bases = BaseAddresses::new(text as u64);
            let bases = match index {
                Some(index) => bases.set_eh_frame_hdr(index as u64),
                None => bases,
            };
            Some(FDESearchResult { fde, bases: bases.set_eh_frame(table as u64), eh_frame: table })
        },
        None => None,
    }
}

/// Walks the frame table at `table` for the entry that covers `pc`.
fn scan(
    memory: &Memory<'_>,
    pc: usize,
    text: usize,
    index: Option<usize>,
    table: usize,
) -> (fde: Option<Fde>)
    ensures
        fde == scan_of(memory@, pc, text, index, table),
        fde matches Some(entry) ==> entry.covers(pc as u64),
{
    let layout = memory.layout();
    let index_base = match index {
        Some(index) => Some(index as u64),
        None => None,
    };
    fde_by_scan(
        layout.order,
        layout.address_size.bytes(),
        memory.slice_from(table),
        text as u64,
        index_base,
        table as u64,
        pc as u64,
    )
}

/// Asks the binary-search table of the header at `index` for the entry that
/// covers `pc`. `header` is what the index header decoded to.
fn search_table(
    memory: &Memory<'_>,
    pc: usize,
    text: usize,
    index: usize,
    header: IndexHeader,
    table: usize,
) -> (fde: Option<Fde>)
    requires
        Some(header) == decoded_header(
            memory@.layout.order,
            memory@.layout.address_size.width(),
            memory@.bytes_from(index),
            text as u64,
            index as u64,
        ),
    ensures
        fde == table_hit(memory@, pc, text, index, table),
        fde matches Some(entry) ==> entry.covers(pc as u64),
{
    if !header.has_searchable_table() {
        return None;
    }
    let layout = memory.layout();
    let width = layout.address_size.bytes();
    let bytes = memory.slice_from(index);
    let target = lookup_table(
        layout.order,
        width,
        bytes,
        text as u64,
        index as u64,
        table as u64,
        pc as u64,
    );
    if !header.holds(target) {
        return None;
    }
    fde_by_table(
        layout.order,
        width,
        bytes,
        memory.slice_from(table),
        text as u64,
        index as u64,
        table as u64,
        pc as u64,
    )
}

/// Searches the frame table at `eh_frame`, from its start, for the entry
/// that covers `pc`.
pub fn find_fde_with_eh_frame(
    memory: &Memory<'_>,
    pc: usize,
    text: usize,
    eh_frame: usize,
) -> (result: Option<FDESearchResult>)
    ensures
        result == frame_table_outcome(memory@, pc, text, eh_frame),
        result matches Some(entry) ==> entry.fde.covers(pc as u64),
{
    found(scan(memory, pc, text, None, eh_frame), text, None, eh_frame)
}

/// Searches for the entry that covers `pc` through the index header at
/// `eh_frame_hdr`: first by its binary-search table, then by a walk through
/// the frame table that it points to.
pub fn find_fde_with_eh_frame_hdr(
    memory: &Memory<'_>,
    pc: usize,
    text: usize,
    eh_frame_hdr: usize,
) -> (result: Option<FDESearchResult>)
    ensures
        result == index_header_outcome(memory@, pc, text, eh_frame_hdr),
        result matches Some(entry) ==> entry.fde.covers(pc as u64),
{
    let layout = memory.layout();
    let header = parse_header(
        layout.order,
        layout.address_size.bytes(),
        memory.slice_from(eh_frame_hdr),
        text as u64,
        eh_frame_hdr as u64,
    );
    let header = match header {
        Some(header) => header,
        None => { return None; },
    };
    let eh_frame = match deref_pointer(memory, header.eh_frame_ptr) {
        Some(eh_frame) => eh_frame,
        None => { return None; },
    };
    // The binary-search table comes first where there is one.
    let hit = search_table(memory, pc, text, eh_frame_hdr, header, eh_frame);
    if hit.is_some() {
        return found(hit, text, Some(eh_frame_hdr), eh_frame);
    }
    // Otherwise walk the frame table.
    let walked = scan(memory, pc, text, Some(eh_frame_hdr), eh_frame);
    found(walked, text, Some(eh_frame_hdr), eh_frame)
}

/// Searches for the entry that covers `pc` in the code region at `text`,
/// given what is known of the region's sections: through the index header
/// where its address is known, and through the frame table where that found
/// nothing and the table's address is known.
pub fn locate(
    memory: &Memory<'_>,
    pc: usize,
    text: usize,
    eh_frame_hdr: Option<usize>,
    eh_frame: Option<usize>,
) -> (result: Option<FDESearchResult>)
    ensures
        result == locate_outcome(memory@, pc, text, eh_frame_hdr, eh_frame),
        result matches Some(entry) ==> entry.fde.covers(pc as u64),
        eh_frame_hdr is None && eh_frame is None ==> result is None,
{
    let first = match eh_frame_hdr {
        Some(index) => find_fde_with_eh_frame_hdr(memory, pc, text, index),
        None => None,
    };
    if first.is_some() {
        return first;
    }
    match eh_frame {
        Some(table) => find_fde_with_eh_frame(memory, pc, text, table),
        None => None,
    }
}

/// Where the index header does not decode, the search goes on with the
/// frame table as if no header had been named, and finds what a walk
/// through the table finds.
pub proof fn lemma_fallback_after_decode_failure(
    memory: MemoryView,
    pc: usize,
    text: usize,
    eh_frame_hdr: usize,
    eh_frame: usize,
)
    requires
        decoded_header(
            memory.layout.order,
            memory.layout.address_size.width(),
            memory.bytes_from(eh_frame_hdr),
            text as u64,
            eh_frame_hdr as u64,
        ) is None,
    ensures
        index_header_outcome(memory, pc, text, eh_frame_hdr) is None,
        locate_outcome(memory, pc, text, Some(eh_frame_hdr), Some(eh_frame)) == frame_table_outcome(
            memory,
            pc,
            text,
            eh_frame,
        ),
        scan_of(memory, pc, text, None, eh_frame) is Some ==> locate_outcome(
            memory,
            pc,
            text,
            Some(eh_frame_hdr),
            Some(eh_frame),
        ) is Some,
{
}

/// Whatever makes the index header find nothing, a frame table that is
/// named besides is searched by itself.
pub proof fn lemma_fallback_after_any_failure(
    memory: MemoryView,
    pc: usize,
    text: usize,
    eh_frame_hdr: usize,
    eh_frame: Option<usize>,
)
    requires
        index_header_outcome(memory, pc, text, eh_frame_hdr) is None,
    ensures
        locate_outcome(memory, pc, text, Some(eh_frame_hdr), eh_frame) == locate_outcome(
            memory,
            pc,
            text,
            None,
            eh_frame,
        ),
{
}

/// Whatever the search finds covers `pc`, and lies in the frame table that
/// the result names.
pub proof fn lemma_found_entry_covers(
    memory: MemoryView,
    pc: usize,
    text: usize,
    eh_frame_hdr: Option<usize>,
    eh_frame: Option<usize>,
)
    ensures
        locate_outcome(memory, pc, text, eh_frame_hdr, eh_frame) matches Some(found) ==> {
            &&& found.fde.covers(pc as u64)
            &&& found.bases.text == text as u64
            &&& found.bases.eh_frame == Some(found.eh_frame as u64)
        },
{
}

/// A range includes its start and excludes its end. So the search never
/// resolves an address to an entry that ends there, nor to one that starts
/// behind it; and of two ranges that meet, the address where they meet lies
/// in the second alone.
pub proof fn lemma_boundaries(
    memory: MemoryView,
    pc: usize,
    text: usize,
    eh_frame_hdr: Option<usize>,
    eh_frame: Option<usize>,
    range: Fde,
    next: Fde,
)
    requires
        range.initial_address < range.end_address,
        next.initial_address == range.end_address,
        next.initial_address < next.end_address,
    ensures
        locate_outcome(memory, pc, text, eh_frame_hdr, eh_frame) matches Some(found) ==> {
            &&& found.fde.initial_address <= pc
            &&& found.fde.end_address != pc
        },
        pc == range.end_address ==> !(locate_outcome(memory, pc, text, eh_frame_hdr, eh_frame)
            matches Some(found) && found.fde == range),
        range.covers(range.initial_address),
        !range.covers(range.end_address),
        next.covers(range.end_address),
{
}

/// Whether no two of `entries` cover a common address.
pub open spec fn disjoint(entries: Seq<Fde>) -> bool {
    forall|i: int, j: int, address: u64|
        0 <= i < j < entries.len() ==> !(#[trigger] entries[i].covers(address)
            && #[trigger] entries[j].covers(address))
}

/// In a table whose ranges do not overlap, an address has one entry at
/// most: two entries of the table that cover `address` are one.
pub proof fn lemma_one_entry_covers(entries: Seq<Fde>, address: u64, one: Fde, other: Fde)
    requires
        disjoint(entries),
        entries.contains(one),
        entries.contains(other),
        one.covers(address),
        other.covers(address),
    ensures
        one == other,
{
    let i = choose|i: int| 0 <= i < entries.len() && entries[i] == one;
    let j = choose|j: int| 0 <= j < entries.len() && entries[j] == other;
    if i < j {
        assert(entries[i].covers(address) && entries[j].covers(address));
    } else if j < i {
        assert(entries[j].covers(address) && entries[i].covers(address));
    }
}

/// The binary-search table and the walk agree on a frame table whose ranges
/// do not overlap. Let `entries` be such a table, and let each of the two
/// searches, where it finds an entry, find one of `entries`. Then for a `pc`
/// that both find an entry for, they find the same; and for a `pc` that no
/// entry covers, both find nothing.
pub proof fn lemma_searches_agree(
    memory: MemoryView,
    pc: usize,
    text: usize,
    index: usize,
    table: usize,
    entries: Seq<Fde>,
)
    requires
        disjoint(entries),
        table_hit(memory, pc, text, index, table) matches Some(entry) ==> entries.contains(entry),
        scan_of(memory, pc, text, Some(index), table) matches Some(entry) ==> entries.contains(
            entry,
        ),
    ensures
        table_hit(memory, pc, text, index, table) is Some && scan_of(
            memory,
            pc,
            text,
            Some(index),
            table,
        ) is Some ==> table_hit(memory, pc, text, index, table) == scan_of(
            memory,
            pc,
            text,
            Some(index),
            table,
        ),
        (forall|i: int| 0 <= i < entries.len() ==> !entries[i].covers(pc as u64)) ==> table_hit(
            memory,
            pc,
            text,
            index,
            table,
        ) is None && scan_of(memory, pc, text, Some(index), table) is None,
{
    let by_index = table_hit(memory, pc, text, index, table);
    let by_walk = scan_of(memory, pc, text, Some(index), table);
    if by_index is Some && by_walk is Some {
        lemma_one_entry_covers(entries, pc as u64, by_index->0, by_walk->0);
    }
    if forall|i: int| 0 <= i < entries.len() ==> !entries[i].covers(pc as u64) {
        if by_index is Some {
            let i = choose|i: int| 0 <= i < entries.len() && entries[i] == by_index->0;
            assert(!entries[i].covers(pc as u64));
        }
        if by_walk is Some {
            let j = choose|j: int| 0 <= j < entries.len() && entries[j] == by_walk->0;
            assert(!entries[j].covers(pc as u64));
        }
    }
}

} // verus!
