use find_fde::decoder::{AddressSize, ByteOrder, Fde, Layout};
use find_fde::memory::Memory;
use find_fde::search::{find_fde_with_eh_frame, find_fde_with_eh_frame_hdr, locate};
use find_fde::{BaseAddresses, FDESearchResult};

const TEXT: usize = 0x1000;
const HDR: usize = 0x2000;
const FRAME: usize = 0x2100;

const PCREL_SDATA4: u8 = 0x1b;
const DATAREL_SDATA4: u8 = 0x3b;
const UDATA4: u8 = 0x03;
const INDIRECT_UDATA4: u8 = 0x83;
const OMIT: u8 = 0xff;

fn little() -> Layout {
    Layout { order: ByteOrder::Little, address_size: AddressSize::Eight }
}

fn big() -> Layout {
    Layout { order: ByteOrder::Big, address_size: AddressSize::Eight }
}

fn put_u32(out: &mut Vec<u8>, order: ByteOrder, value: u32) {
    match order {
        ByteOrder::Little => out.extend_from_slice(&value.to_le_bytes()),
        ByteOrder::Big => out.extend_from_slice(&value.to_be_bytes()),
    }
}

/// Appends a CIE whose FDEs write their addresses pc-relative, and returns its offset.
fn push_cie(section: &mut Vec<u8>, order: ByteOrder) -> usize {
    let at = section.len();
    put_u32(section, order, 16);
    put_u32(section, order, 0);
    section.extend_from_slice(&[1, b'z', b'R', 0, 1, 0x78, 16, 1, PCREL_SDATA4, 0, 0, 0]);
    at
}

/// Appends an FDE for `start..start + len` to the section that lies at `base`, and returns its
/// offset.
fn push_fde(
    section: &mut Vec<u8>,
    order: ByteOrder,
    base: usize,
    cie: usize,
    start: u64,
    len: u32,
) -> usize {
    let at = section.len();
    put_u32(section, order, 16);
    let pointer_at = section.len();
    put_u32(section, order, (pointer_at - cie) as u32);
    let field = (base + section.len()) as u64;
    put_u32(section, order, start.wrapping_sub(field) as u32);
    put_u32(section, order, len);
    section.extend_from_slice(&[0, 0, 0, 0]);
    at
}

/// A frame table at `base` with one CIE and one FDE for each of `ranges`; the offsets of the FDEs.
fn frame_table(order: ByteOrder, base: usize, ranges: &[(u64, u32)]) -> (Vec<u8>, Vec<usize>) {
    let mut section = Vec::new();
    let cie = push_cie(&mut section, order);
    let mut offsets = Vec::new();
    for &(start, len) in ranges {
        offsets.push(push_fde(&mut section, order, base, cie, start, len));
    }
    put_u32(&mut section, order, 0);
    (section, offsets)
}

/// An index header at `HDR` for the frame table at `FRAME`, with one row for each of `rows`:
/// the start of a range and the offset of its FDE.
fn index_header(order: ByteOrder, rows: &[(u64, usize)]) -> Vec<u8> {
    let mut section = vec![1, PCREL_SDATA4, UDATA4, DATAREL_SDATA4];
    put_u32(&mut section, order, (FRAME as u64).wrapping_sub(HDR as u64 + 4) as u32);
    put_u32(&mut section, order, rows.len() as u32);
    for &(start, offset) in rows {
        put_u32(&mut section, order, start.wrapping_sub(HDR as u64) as u32);
        put_u32(&mut section, order, ((FRAME + offset) as u64).wrapping_sub(HDR as u64) as u32);
    }
    section
}

/// The bytes from `HDR` on: the header, then the frame table at `FRAME`.
fn image(header: &[u8], table: &[u8]) -> Vec<u8> {
    let mut bytes = header.to_vec();
    assert!(bytes.len() <= FRAME - HDR);
    bytes.resize(FRAME - HDR, 0);
    bytes.extend_from_slice(table);
    bytes
}

fn indexed_image(order: ByteOrder, ranges: &[(u64, u32)]) -> (Vec<u8>, Vec<usize>) {
    let (table, offsets) = frame_table(order, FRAME, ranges);
    let rows: Vec<(u64, usize)> = ranges.iter().zip(&offsets).map(|(r, o)| (r.0, *o)).collect();
    (image(&index_header(order, &rows), &table), offsets)
}

fn through_header(offset: usize, start: u64, end: u64) -> FDESearchResult {
    FDESearchResult {
        fde: Fde { offset, initial_address: start, end_address: end },
        bases: BaseAddresses {
            text: TEXT as u64,
            eh_frame_hdr: Some(HDR as u64),
            eh_frame: Some(FRAME as u64),
        },
        eh_frame: FRAME,
    }
}

fn through_table(offset: usize, start: u64, end: u64) -> FDESearchResult {
    FDESearchResult {
        fde: Fde { offset, initial_address: start, end_address: end },
        bases: BaseAddresses {
            text: TEXT as u64,
            eh_frame_hdr: None,
            eh_frame: Some(FRAME as u64),
        },
        eh_frame: FRAME,
    }
}

const RANGES: [(u64, u32); 4] = [(0x1000, 0x40), (0x1040, 0x20), (0x1100, 0x80), (0x1200, 0x10)];

#[test]
fn one_entry_is_found_inside_and_not_outside() {
    let (bytes, offsets) = indexed_image(ByteOrder::Little, &[(0x1000, 0x40)]);
    let memory = Memory::new(HDR, &bytes, little());
    assert_eq!(offsets, vec![20]);
    assert_eq!(
        find_fde_with_eh_frame_hdr(&memory, 0x1020, TEXT, HDR),
        Some(through_header(20, 0x1000, 0x1040))
    );
    assert_eq!(find_fde_with_eh_frame_hdr(&memory, 0x1040, TEXT, HDR), None);
    assert_eq!(find_fde_with_eh_frame_hdr(&memory, 0x0fff, TEXT, HDR), None);
    assert_eq!(
        find_fde_with_eh_frame(&memory, 0x1020, TEXT, FRAME),
        Some(through_table(20, 0x1000, 0x1040))
    );
    assert_eq!(find_fde_with_eh_frame(&memory, 0x1040, TEXT, FRAME), None);
    assert_eq!(find_fde_with_eh_frame(&memory, 0x0fff, TEXT, FRAME), None);
}

#[test]
fn index_and_walk_find_the_same_entry() {
    let (bytes, offsets) = indexed_image(ByteOrder::Little, &RANGES);
    let memory = Memory::new(HDR, &bytes, little());
    for (i, &(start, len)) in RANGES.iter().enumerate() {
        let end = start + len as u64;
        for pc in [start, start + 1, start + len as u64 / 2, end - 1] {
            let by_index = find_fde_with_eh_frame_hdr(&memory, pc as usize, TEXT, HDR);
            let by_walk = find_fde_with_eh_frame(&memory, pc as usize, TEXT, FRAME);
            assert_eq!(by_index, Some(through_header(offsets[i], start, end)));
            assert_eq!(by_walk, Some(through_table(offsets[i], start, end)));
            assert_eq!(by_index.unwrap().fde, by_walk.unwrap().fde);
        }
    }
}

#[test]
fn index_and_walk_find_nothing_outside_all_ranges() {
    let (bytes, _) = indexed_image(ByteOrder::Little, &RANGES);
    let memory = Memory::new(HDR, &bytes, little());
    for pc in [0usize, 0xfff, 0x1060, 0x10ff, 0x1180, 0x11ff, 0x1210, 0x5000, usize::MAX] {
        assert_eq!(find_fde_with_eh_frame_hdr(&memory, pc, TEXT, HDR), None);
        assert_eq!(find_fde_with_eh_frame(&memory, pc, TEXT, FRAME), None);
    }
}

#[test]
fn start_is_inside_and_end_belongs_to_the_next_range() {
    let (bytes, offsets) = indexed_image(ByteOrder::Little, &RANGES);
    let memory = Memory::new(HDR, &bytes, little());
    // 0x1040 ends the first range and starts the second.
    assert_eq!(
        find_fde_with_eh_frame_hdr(&memory, 0x1000, TEXT, HDR),
        Some(through_header(offsets[0], 0x1000, 0x1040))
    );
    assert_eq!(
        find_fde_with_eh_frame_hdr(&memory, 0x103f, TEXT, HDR),
        Some(through_header(offsets[0], 0x1000, 0x1040))
    );
    assert_eq!(
        find_fde_with_eh_frame_hdr(&memory, 0x1040, TEXT, HDR),
        Some(through_header(offsets[1], 0x1040, 0x1060))
    );
    assert_eq!(
        find_fde_with_eh_frame(&memory, 0x1040, TEXT, FRAME),
        Some(through_table(offsets[1], 0x1040, 0x1060))
    );
    // No range starts where the second ends.
    assert_eq!(find_fde_with_eh_frame_hdr(&memory, 0x1060, TEXT, HDR), None);
    assert_eq!(find_fde_with_eh_frame(&memory, 0x1060, TEXT, FRAME), None);
}

#[test]
fn big_endian_sections_are_read_in_their_order() {
    let (bytes, offsets) = indexed_image(ByteOrder::Big, &RANGES);
    let memory = Memory::new(HDR, &bytes, big());
    assert_eq!(
        find_fde_with_eh_frame_hdr(&memory, 0x1101, TEXT, HDR),
        Some(through_header(offsets[2], 0x1100, 0x1180))
    );
    assert_eq!(
        find_fde_with_eh_frame(&memory, 0x1101, TEXT, FRAME),
        Some(through_table(offsets[2], 0x1100, 0x1180))
    );
    // Read in the other order the same bytes decode to nothing.
    let swapped = Memory::new(HDR, &bytes, little());
    assert_eq!(find_fde_with_eh_frame_hdr(&swapped, 0x1101, TEXT, HDR), None);
    assert_eq!(find_fde_with_eh_frame(&swapped, 0x1101, TEXT, FRAME), None);
}

#[test]
fn native_memory_reads_native_sections() {
    let order = if u16::from_ne_bytes([1, 0]) == 1 { ByteOrder::Little } else { ByteOrder::Big };
    let (bytes, offsets) = indexed_image(order, &RANGES);
    let memory = Memory::native(HDR, &bytes);
    assert_eq!(memory.layout(), Layout::native());
    assert_eq!(memory.layout().order, order);
    assert_eq!(
        find_fde_with_eh_frame_hdr(&memory, 0x1205, TEXT, HDR),
        Some(through_header(offsets[3], 0x1200, 0x1210))
    );
}

#[test]
fn header_that_does_not_decode_falls_back_to_the_frame_table() {
    let (table, offsets) = frame_table(ByteOrder::Little, FRAME, &RANGES);
    // Version 2 is no version of the header.
    let bytes = image(&[2, PCREL_SDATA4, UDATA4, DATAREL_SDATA4, 0, 0, 0, 0], &table);
    let memory = Memory::new(HDR, &bytes, little());
    assert_eq!(find_fde_with_eh_frame_hdr(&memory, 0x1110, TEXT, HDR), None);
    assert_eq!(
        locate(&memory, 0x1110, TEXT, Some(HDR), Some(FRAME)),
        Some(through_table(offsets[2], 0x1100, 0x1180))
    );
    assert_eq!(locate(&memory, 0x1110, TEXT, Some(HDR), None), None);
    assert_eq!(locate(&memory, 0x10ff, TEXT, Some(HDR), Some(FRAME)), None);
}

#[test]
fn locate_without_any_section_finds_nothing() {
    let (bytes, _) = indexed_image(ByteOrder::Little, &RANGES);
    let memory = Memory::new(HDR, &bytes, little());
    assert_eq!(locate(&memory, 0x1020, TEXT, None, None), None);
}

#[test]
fn locate_prefers_the_index_header() {
    let (bytes, offsets) = indexed_image(ByteOrder::Little, &RANGES);
    let memory = Memory::new(HDR, &bytes, little());
    assert_eq!(
        locate(&memory, 0x1020, TEXT, Some(HDR), Some(FRAME)),
        Some(through_header(offsets[0], 0x1000, 0x1040))
    );
    assert_eq!(
        locate(&memory, 0x1020, TEXT, Some(HDR), None),
        Some(through_header(offsets[0], 0x1000, 0x1040))
    );
    assert_eq!(
        locate(&memory, 0x1020, TEXT, None, Some(FRAME)),
        Some(through_table(offsets[0], 0x1000, 0x1040))
    );
}

#[test]
fn header_without_table_is_walked() {
    let (table, offsets) = frame_table(ByteOrder::Little, FRAME, &RANGES);
    let mut header = vec![1, PCREL_SDATA4, OMIT, OMIT];
    put_u32(&mut header, ByteOrder::Little, (FRAME as u64).wrapping_sub(HDR as u64 + 4) as u32);
    let bytes = image(&header, &table);
    let memory = Memory::new(HDR, &bytes, little());
    assert_eq!(
        find_fde_with_eh_frame_hdr(&memory, 0x1041, TEXT, HDR),
        Some(through_header(offsets[1], 0x1040, 0x1060))
    );
    assert_eq!(find_fde_with_eh_frame_hdr(&memory, 0x1061, TEXT, HDR), None);
}

#[test]
fn table_takes_precedence_over_the_walk() {
    // Two entries cover 0x1010. A walk meets the first; the table names the second.
    let ranges = [(0x1000u64, 0x40u32), (0x1000, 0x20)];
    let (table, offsets) = frame_table(ByteOrder::Little, FRAME, &ranges);
    let bytes = image(&index_header(ByteOrder::Little, &[(0x1000, offsets[1])]), &table);
    let memory = Memory::new(HDR, &bytes, little());
    assert_eq!(
        find_fde_with_eh_frame_hdr(&memory, 0x1010, TEXT, HDR),
        Some(through_header(offsets[1], 0x1000, 0x1020))
    );
    assert_eq!(
        find_fde_with_eh_frame(&memory, 0x1010, TEXT, FRAME),
        Some(through_table(offsets[0], 0x1000, 0x1040))
    );
    // Where the table's entry does not cover the address, the walk decides.
    assert_eq!(
        find_fde_with_eh_frame_hdr(&memory, 0x1030, TEXT, HDR),
        Some(through_header(offsets[0], 0x1000, 0x1040))
    );
}

#[test]
fn table_reaches_an_entry_that_a_walk_cannot() {
    // The table starts with an entry whose CIE pointer leads nowhere, so a walk stops there.
    let mut table = Vec::new();
    put_u32(&mut table, ByteOrder::Little, 4);
    put_u32(&mut table, ByteOrder::Little, 0x7fff_0000);
    let cie = push_cie(&mut table, ByteOrder::Little);
    let fde = push_fde(&mut table, ByteOrder::Little, FRAME, cie, 0x1000, 0x40);
    put_u32(&mut table, ByteOrder::Little, 0);
    let bytes = image(&index_header(ByteOrder::Little, &[(0x1000, fde)]), &table);
    let memory = Memory::new(HDR, &bytes, little());
    assert_eq!(find_fde_with_eh_frame(&memory, 0x1020, TEXT, FRAME), None);
    assert_eq!(
        find_fde_with_eh_frame_hdr(&memory, 0x1020, TEXT, HDR),
        Some(through_header(fde, 0x1000, 0x1040))
    );
    assert_eq!(find_fde_with_eh_frame_hdr(&memory, 0x1040, TEXT, HDR), None);
}

#[test]
fn table_row_before_the_frame_table_is_not_followed() {
    let (table, offsets) = frame_table(ByteOrder::Little, FRAME, &[(0x1000, 0x40)]);
    // The row points 0x10 bytes before the start of the frame table.
    let mut header = vec![1, PCREL_SDATA4, UDATA4, DATAREL_SDATA4];
    put_u32(&mut header, ByteOrder::Little, (FRAME as u64).wrapping_sub(HDR as u64 + 4) as u32);
    put_u32(&mut header, ByteOrder::Little, 1);
    put_u32(&mut header, ByteOrder::Little, (0x1000u64).wrapping_sub(HDR as u64) as u32);
    put_u32(&mut header, ByteOrder::Little, (FRAME - 0x10 - HDR) as u32);
    let bytes = image(&header, &table);
    let memory = Memory::new(HDR, &bytes, little());
    assert_eq!(
        find_fde_with_eh_frame_hdr(&memory, 0x1020, TEXT, HDR),
        Some(through_header(offsets[0], 0x1000, 0x1040))
    );
}

#[test]
fn indirect_pointer_to_the_frame_table_is_read_from_memory() {
    let (table, offsets) = frame_table(ByteOrder::Little, FRAME, &[(0x1000, 0x40)]);
    // The header holds the address of the word that holds the frame table's address.
    let cell = HDR + 0x40;
    let mut header = vec![1, INDIRECT_UDATA4, OMIT, OMIT];
    put_u32(&mut header, ByteOrder::Little, cell as u32);
    header.resize(0x40, 0);
    header.extend_from_slice(&(FRAME as u64).to_le_bytes());
    let bytes = image(&header, &table);
    let memory = Memory::new(HDR, &bytes, little());
    assert_eq!(memory.read_word(cell), Some(FRAME as u64));
    assert_eq!(
        find_fde_with_eh_frame_hdr(&memory, 0x1020, TEXT, HDR),
        Some(through_header(offsets[0], 0x1000, 0x1040))
    );
}

#[test]
fn indirect_pointer_outside_memory_finds_nothing() {
    let (table, _) = frame_table(ByteOrder::Little, FRAME, &[(0x1000, 0x40)]);
    let mut header = vec![1, INDIRECT_UDATA4, OMIT, OMIT];
    put_u32(&mut header, ByteOrder::Little, 0x10);
    let bytes = image(&header, &table);
    let memory = Memory::new(HDR, &bytes, little());
    assert_eq!(find_fde_with_eh_frame_hdr(&memory, 0x1020, TEXT, HDR), None);
}

#[test]
fn sections_outside_memory_find_nothing() {
    let (bytes, _) = indexed_image(ByteOrder::Little, &RANGES);
    let memory = Memory::new(HDR, &bytes, little());
    assert_eq!(find_fde_with_eh_frame_hdr(&memory, 0x1020, TEXT, 0x100), None);
    assert_eq!(find_fde_with_eh_frame(&memory, 0x1020, TEXT, 0x100), None);
    assert_eq!(find_fde_with_eh_frame(&memory, 0x1020, TEXT, HDR + bytes.len()), None);
    assert_eq!(find_fde_with_eh_frame(&memory, 0x1020, TEXT, usize::MAX), None);
}

#[test]
fn relative_addresses_follow_the_section_base() {
    // The same table read as if it lay 0x100 higher covers addresses 0x100 higher.
    let (table, offsets) = frame_table(ByteOrder::Little, FRAME, &[(0x1000, 0x40)]);
    let memory = Memory::new(FRAME + 0x100, &table, little());
    assert_eq!(find_fde_with_eh_frame(&memory, 0x1020, TEXT, FRAME + 0x100), None);
    assert_eq!(
        find_fde_with_eh_frame(&memory, 0x1120, TEXT, FRAME + 0x100),
        Some(FDESearchResult {
            fde: Fde { offset: offsets[0], initial_address: 0x1100, end_address: 0x1140 },
            bases: BaseAddresses {
                text: TEXT as u64,
                eh_frame_hdr: None,
                eh_frame: Some((FRAME + 0x100) as u64),
            },
            eh_frame: FRAME + 0x100,
        })
    );
}

#[test]
fn table_claiming_too_many_rows_is_walked() {
    let (table, offsets) = frame_table(ByteOrder::Little, FRAME, &RANGES);
    // The count is written in eight bytes and says more rows than any table has.
    let mut header = vec![1, PCREL_SDATA4, 0x04, DATAREL_SDATA4];
    put_u32(&mut header, ByteOrder::Little, (FRAME as u64).wrapping_sub(HDR as u64 + 4) as u32);
    header.extend_from_slice(&u64::MAX.to_le_bytes());
    put_u32(&mut header, ByteOrder::Little, (0x1000u64).wrapping_sub(HDR as u64) as u32);
    put_u32(&mut header, ByteOrder::Little, (FRAME + offsets[0] - HDR) as u32);
    let bytes = image(&header, &table);
    let memory = Memory::new(HDR, &bytes, little());
    assert_eq!(
        find_fde_with_eh_frame_hdr(&memory, 0x1105, TEXT, HDR),
        Some(through_header(offsets[2], 0x1100, 0x1180))
    );
    assert_eq!(find_fde_with_eh_frame_hdr(&memory, 0x1fff, TEXT, HDR), None);
}

#[test]
fn absolute_addresses_have_the_width_of_the_layout() {
    // A CIE without augmentation: its FDEs write start and length as plain addresses.
    let table_of = |width: usize| {
        let mut table = Vec::new();
        put_u32(&mut table, ByteOrder::Little, 12);
        put_u32(&mut table, ByteOrder::Little, 0);
        table.extend_from_slice(&[1, 0, 1, 0x78, 16, 0, 0, 0]);
        put_u32(&mut table, ByteOrder::Little, (4 + 2 * width) as u32);
        put_u32(&mut table, ByteOrder::Little, 20);
        table.extend_from_slice(&0x1000u64.to_le_bytes()[..width]);
        table.extend_from_slice(&0x40u64.to_le_bytes()[..width]);
        put_u32(&mut table, ByteOrder::Little, 0);
        table
    };
    let narrow = Layout { order: ByteOrder::Little, address_size: AddressSize::Four };
    let four = table_of(4);
    let eight = table_of(8);
    assert_eq!(
        find_fde_with_eh_frame(&Memory::new(FRAME, &four, narrow), 0x1020, TEXT, FRAME),
        Some(through_table(16, 0x1000, 0x1040))
    );
    assert_eq!(
        find_fde_with_eh_frame(&Memory::new(FRAME, &eight, little()), 0x1020, TEXT, FRAME),
        Some(through_table(16, 0x1000, 0x1040))
    );
    // Read in the other width the entry is another, or none.
    let four_as_eight = Memory::new(FRAME, &four, little());
    let eight_as_four = Memory::new(FRAME, &eight, narrow);
    assert_eq!(find_fde_with_eh_frame(&four_as_eight, 0x1020, TEXT, FRAME), None);
    assert_eq!(find_fde_with_eh_frame(&eight_as_four, 0x1020, TEXT, FRAME), None);
}

/// A small generator of numbers that look random and are the same in every run.
struct Noise(u64);

impl Noise {
    fn next(&mut self) -> u64 {
        self.0 ^= self.0 << 13;
        self.0 ^= self.0 >> 7;
        self.0 ^= self.0 << 17;
        self.0
    }
}

fn settled(result: Option<FDESearchResult>, pc: usize) {
    if let Some(found) = result {
        assert!(found.fde.contains(pc as u64));
        assert_eq!(found.bases.text, TEXT as u64);
        assert_eq!(found.bases.eh_frame, Some(found.eh_frame as u64));
    }
}

#[test]
fn spoiled_sections_never_give_an_entry_that_misses_the_address() {
    let (bytes, _) = indexed_image(ByteOrder::Little, &RANGES);
    let mut noise = Noise(0x9e37_79b9_7f4a_7c15);
    for _ in 0..20_000 {
        let mut spoiled = bytes.clone();
        for _ in 0..1 + noise.next() % 3 {
            let at = (noise.next() % spoiled.len() as u64) as usize;
            spoiled[at] = noise.next() as u8;
        }
        let pc = (0x0f00 + noise.next() % 0x400) as usize;
        for layout in [little(), big()] {
            let memory = Memory::new(HDR, &spoiled, layout);
            settled(find_fde_with_eh_frame_hdr(&memory, pc, TEXT, HDR), pc);
            settled(find_fde_with_eh_frame(&memory, pc, TEXT, FRAME), pc);
            settled(locate(&memory, pc, TEXT, Some(HDR), Some(FRAME)), pc);
        }
    }
}

#[test]
fn arbitrary_bytes_never_give_an_entry_that_misses_the_address() {
    let mut noise = Noise(0x2545_f491_4f6c_dd1d);
    for round in 0..20_000usize {
        let len = 1 + (noise.next() % 96) as usize;
        let mut bytes: Vec<u8> = (0..len).map(|_| noise.next() as u8).collect();
        // Half of the images start like a header, so that the decoder gets past the first byte.
        if round % 2 == 0 {
            bytes[0] = 1;
        }
        let pc = noise.next() as usize;
        let narrow = Layout { order: ByteOrder::Little, address_size: AddressSize::Four };
        for layout in [little(), big(), narrow] {
            let memory = Memory::new(HDR, &bytes, layout);
            settled(find_fde_with_eh_frame_hdr(&memory, pc, TEXT, HDR), pc);
            settled(find_fde_with_eh_frame(&memory, pc, TEXT, HDR), pc);
        }
    }
}
