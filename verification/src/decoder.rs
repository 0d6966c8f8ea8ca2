//! The boundary to the call-frame-information decoder.
//!
//! Everything here that touches `gimli` is trusted: Verus reads the contracts
//! and not the bodies. The decoder's results are functions of the bytes and
//! addresses handed to it, so each gets a name that contracts can speak of.
//!
//! Values of the decoder's own types do not cross the boundary. What comes
//! out is copied into the plain types below, and a call that needs a parsed
//! header parses the same bytes again with the same bases.
//!
//! The decoder is told the byte order and the address size with every call.
//! It shifts by eight times the address size, so that size is between 1 and
//! 8; the frame table is given it with `set_address_size`, in place of the
//! width of the machine's `usize` that the decoder would take by itself.

use gimli::UnwindSection;
use vstd::prelude::*;

verus! {

broadcast use vstd::layout::layout_of_primitives;

/// Byte order of the data in a section.
#[derive(Clone, Copy, Debug, PartialEq, Eq, Structural)]
pub enum ByteOrder {
    Little,
    Big,
}

/// Width of an address of the target.
#[derive(Clone, Copy, Debug, PartialEq, Eq, Structural)]
pub enum AddressSize {
    Four,
    Eight,
}

impl AddressSize {
    /// The width in bytes.
    pub open spec fn width(self) -> u8 {
        match self {
            AddressSize::Four => 4,
            AddressSize::Eight => 8,
        }
    }

    /// The width in bytes.
    pub fn bytes(self) -> (n: u8)
        ensures
            n == self.width(),
    {
        match self {
            AddressSize::Four => 4,
            AddressSize::Eight => 8,
        }
    }
}

/// How the target lays out integers and addresses in memory.
#[derive(Clone, Copy, Debug, PartialEq, Eq, Structural)]
pub struct Layout {
    pub order: ByteOrder,
    pub address_size: AddressSize,
}

/// A pointer as a section encodes it.
#[derive(Clone, Copy, Debug, PartialEq, Eq, Structural)]
pub enum Pointer {
    /// The value is the address itself.
    Direct(u64),
    /// The value is the address of the word that holds the address.
    Indirect(u64),
}

/// What the lookup keeps of a frame description entry.
#[derive(Clone, Copy, Debug, PartialEq, Eq, Structural)]
pub struct Fde {
    /// Where the entry starts within the frame table.
    pub offset: usize,
    /// The first address that the entry covers.
    pub initial_address: u64,
    /// One more than the last address that the entry covers.
    pub end_address: u64,
}

impl Fde {
    /// Whether `address` lies in the entry's range, which includes its start
    /// and excludes its end.
    pub open spec fn covers(self, address: u64) -> bool {
        self.initial_address <= address < self.end_address
    }

    /// Whether `address` lies in the entry's range.
    pub fn contains(&self, address: u64) -> (inside: bool)
        ensures
            inside == self.covers(address),
    {
        self.initial_address <= address && address < self.end_address
    }
}

/// What the lookup keeps of a parsed index header.
#[derive(Clone, Copy, Debug, PartialEq, Eq, Structural)]
pub struct IndexHeader {
    /// Where the frame table is.
    pub eh_frame_ptr: Pointer,
    /// The number of rows that the header gives its binary-search table;
    /// `None` where it has no table, or more rows than a `usize` counts.
    pub rows: Option<usize>,
}

/// The largest number of rows that a binary-search table is searched with.
/// A row is at most 16 bytes, so up to this bound the decoder's offsets into
/// the table stay within 64 bits.
pub const MAX_TABLE_ROWS: u64 = 0x0fff_ffff_ffff_ffff;

/// The header that `gimli::EhFrameHdr::parse` reads from `index`, which lies
/// at the address `index_base` and belongs to the code region at
/// `text_base`; `None` where it reports an error.
pub uninterp spec fn decoded_header(
    order: ByteOrder,
    address_size: u8,
    index: Seq<u8>,
    text_base: u64,
    index_base: u64,
) -> Option<IndexHeader>;

/// The pointer that `gimli::EhHdrTable::lookup` finds for `address` in the
/// binary-search table of `index`, with the frame table at `table_base`;
/// `None` where the header does not parse, has no table, or the lookup
/// reports an error.
pub uninterp spec fn table_target(
    order: ByteOrder,
    address_size: u8,
    index: Seq<u8>,
    text_base: u64,
    index_base: u64,
    table_base: u64,
    address: u64,
) -> Option<Pointer>;

/// The entry that `gimli::EhHdrTable::fde_for_address` finds for `address`
/// through the binary-search table of `index`, in the frame table `table`;
/// `None` where it reports an error.
pub uninterp spec fn indexed_fde(
    order: ByteOrder,
    address_size: u8,
    index: Seq<u8>,
    table: Seq<u8>,
    text_base: u64,
    index_base: u64,
    table_base: u64,
    address: u64,
) -> Option<Fde>;

/// The entry that `gimli::UnwindSection::fde_for_address` finds for `address`
/// by walking the frame table `table`, which lies at `table_base`, from its
/// start; `None` where it reports an error. `index_base` is the address of
/// the index header that led to the table, if one did.
pub uninterp spec fn scanned_fde(
    order: ByteOrder,
    address_size: u8,
    table: Seq<u8>,
    text_base: u64,
    index_base: Option<u64>,
    table_base: u64,
    address: u64,
) -> Option<Fde>;

/// Whether the binary-search table of a header may be searched: it has rows,
/// and few enough.
pub open spec fn searchable(header: Option<IndexHeader>) -> bool {
    &&& header matches Some(header)
    &&& header.rows matches Some(rows)
    &&& rows <= MAX_TABLE_ROWS
}

/// Whether a pointer that the table gave lies at or behind the start of the
/// frame table, both known directly.
pub open spec fn within_table(target: Option<Pointer>, header: Option<IndexHeader>) -> bool {
    &&& target matches Some(Pointer::Direct(at))
    &&& header matches Some(header)
    &&& header.eh_frame_ptr matches Pointer::Direct(start)
    &&& start <= at
}

/// Calls `gimli::RunTimeEndian::default`, which is the byte order of the
/// machine that runs this code. Nothing is claimed of the result.
#[verifier::external_body]
fn native_byte_order() -> ByteOrder {
    match gimli::RunTimeEndian::default() {
        gimli::RunTimeEndian::Little => ByteOrder::Little,
        gimli::RunTimeEndian::Big => ByteOrder::Big,
    }
}

impl Layout {
    /// The layout of the machine that runs this code: its byte order, and
    /// the width of its `usize`.
    pub fn native() -> (layout: Layout)
        ensures
            layout.address_size.width() == vstd::layout::size_of::<usize>(),
    {
        let address_size = if core::mem::size_of::<usize>() == 4 {
            AddressSize::Four
        } else {
            AddressSize::Eight
        };
        Layout { order: native_byte_order(), address_size }
    }
}

/// Calls `gimli::EhFrameHdr::parse` on `index`, with the text base and the
/// section's own address as the bases for relative pointers. The contract
/// claims that the result is the named one: the header's pointer to the frame
/// table as `eh_frame_ptr` returns it, and the number of rows that an iterator
/// over `table` reports as its upper size hint.
#[verifier::external_body]
pub(crate) fn parse_header(
    order: ByteOrder,
    address_size: u8,
    index: &[u8],
    text_base: u64,
    index_base: u64,
) -> (header: Option<IndexHeader>)
    requires
        1 <= address_size <= 8,
    ensures
        header == decoded_header(order, address_size, index@, text_base, index_base),
{
    let endian = match order {
        ByteOrder::Little => gimli::RunTimeEndian::Little,
        ByteOrder::Big => gimli::RunTimeEndian::Big,
    };
    let bases = gimli::BaseAddresses::default().set_text(text_base).set_eh_frame_hdr(index_base);
    let parsed = gimli::EhFrameHdr::new(index, endian).parse(&bases, address_size).ok()?;
    let eh_frame_ptr = match parsed.eh_frame_ptr() {
        gimli::Pointer::Direct(address) => Pointer::Direct(address),
        gimli::Pointer::Indirect(address) => Pointer::Indirect(address),
    };
    let rows = parsed.table().and_then(|table| table.iter(&bases).size_hint().1);
    Some(IndexHeader { eh_frame_ptr, rows })
}

/// Calls `gimli::EhHdrTable::lookup` for `address` on the table of the header
/// parsed from `index`. The contract claims that the result is the named one.
/// The decoder multiplies half the number of rows by the size of a row,
/// which is 16 bytes at most, so the table must be searchable.
#[verifier::external_body]
pub(crate) fn lookup_table(
    order: ByteOrder,
    address_size: u8,
    index: &[u8],
    text_base: u64,
    index_base: u64,
    table_base: u64,
    address: u64,
) -> (target: Option<Pointer>)
    requires
        1 <= address_size <= 8,
        searchable(decoded_header(order, address_size, index@, text_base, index_base)),
    ensures
        target == table_target(
            order,
            address_size,
            index@,
            text_base,
            index_base,
            table_base,
            address,
        ),
{
    let endian = match order {
        ByteOrder::Little => gimli::RunTimeEndian::Little,
        ByteOrder::Big => gimli::RunTimeEndian::Big,
    };
    let bases = gimli::BaseAddresses::default().set_text(text_base).set_eh_frame_hdr(index_base);
    let parsed = gimli::EhFrameHdr::new(index, endian).parse(&bases, address_size).ok()?;
    let bases = bases.set_eh_frame(table_base);
    match parsed.table()?.lookup(address, &bases).ok()? {
        gimli::Pointer::Direct(address) => Some(Pointer::Direct(address)),
        gimli::Pointer::Indirect(address) => Some(Pointer::Indirect(address)),
    }
}

/// Calls `gimli::EhHdrTable::fde_for_address` for `address` on the table of
/// the header parsed from `index`, with `table` as the frame table. The
/// contract claims that the result is the named one, and that an entry that
/// comes back covers `address`: the decoder returns none that does not
/// contain it. The decoder looks `address` up as `lookup` does and subtracts
/// the frame table's start from the pointer found, so the table must be
/// searchable and that pointer must not lie before the frame table.
#[verifier::external_body]
pub(crate) fn fde_by_table(
    order: ByteOrder,
    address_size: u8,
    index: &[u8],
    table: &[u8],
    text_base: u64,
    index_base: u64,
    table_base: u64,
    address: u64,
) -> (found: Option<Fde>)
    requires
        1 <= address_size <= 8,
        searchable(decoded_header(order, address_size, index@, text_base, index_base)),
        within_table(
            table_target(order, address_size, index@, text_base, index_base, table_base, address),
            decoded_header(order, address_size, index@, text_base, index_base),
        ),
    ensures
        found == indexed_fde(
            order,
            address_size,
            index@,
            table@,
            text_base,
            index_base,
            table_base,
            address,
        ),
        found matches Some(fde) ==> fde.covers(address),
{
    let endian = match order {
        ByteOrder::Little => gimli::RunTimeEndian::Little,
        ByteOrder::Big => gimli::RunTimeEndian::Big,
    };
    let bases = gimli::BaseAddresses::default().set_text(text_base).set_eh_frame_hdr(index_base);
    let parsed = gimli::EhFrameHdr::new(index, endian).parse(&bases, address_size).ok()?;
    let bases = bases.set_eh_frame(table_base);
    let mut section = gimli::EhFrame::new(table, endian);
    section.set_address_size(address_size);
    let get_cie = gimli::EhFrame::cie_from_offset;
    let fde = parsed.table()?.fde_for_address(&section, &bases, address, get_cie).ok()?;
    let (initial_address, end_address) = (fde.initial_address(), fde.end_address());
    Some(Fde { offset: fde.offset(), initial_address, end_address })
}

/// Calls `gimli::UnwindSection::fde_for_address` for `address` on the frame
/// table `table`, which walks the entries from the start. The contract claims
/// that the result is the named one, and that an entry that comes back covers
/// `address`: the decoder returns the first that contains it.
#[verifier::external_body]
pub(crate) fn fde_by_scan(
    order: ByteOrder,
    address_size: u8,
    table: &[u8],
    text_base: u64,
    index_base: Option<u64>,
    table_base: u64,
    address: u64,
) -> (found: Option<Fde>)
    requires
        1 <= address_size <= 8,
    ensures
        found == scanned_fde(
            order,
            address_size,
            table@,
            text_base,
            index_base,
            table_base,
            address,
        ),
        found matches Some(fde) ==> fde.covers(address),
{
    let endian = match order {
        ByteOrder::Little => gimli::RunTimeEndian::Little,
        ByteOrder::Big => gimli::RunTimeEndian::Big,
    };
    let mut bases = gimli::BaseAddresses::default().set_text(text_base).set_eh_frame(table_base);
    bases.eh_frame_hdr.section = index_base;
    bases.eh_frame_hdr.data = index_base;
    let mut section = gimli::EhFrame::new(table, endian);
    section.set_address_size(address_size);
    let fde = section.fde_for_address(&bases, address, gimli::EhFrame::cie_from_offset).ok()?;
    let (initial_address, end_address) = (fde.initial_address(), fde.end_address());
    Some(Fde { offset: fde.offset(), initial_address, end_address })
}

} // verus!
