//! A read-only window onto the address space that the frame tables live in.
//!
//! The lookup never reads memory by itself. Whoever calls it hands over the
//! bytes that can be read, with the address of the first, and says how the
//! target lays out its integers.

use crate::decoder::{AddressSize, ByteOrder, Layout};
use vstd::prelude::*;
use vstd::slice::slice_subrange;

verus! {

/// Bound of the numbers that `digits` base-256 digits write.
spec fn radix_bound(digits: nat) -> nat
    decreases digits,
{
    if digits == 0 {
        1
    } else {
        256 * radix_bound((digits - 1) as nat)
    }
}

/// The number that `bytes` write with the most significant byte first.
pub open spec fn big_endian_value(bytes: Seq<u8>) -> nat
    decreases bytes.len(),
{
    if bytes.len() == 0 {
        0
    } else {
        256 * big_endian_value(bytes.drop_last()) + bytes.last() as nat
    }
}

/// The number that `bytes` write in the byte order `order`.
pub open spec fn unsigned_value(bytes: Seq<u8>, order: ByteOrder) -> nat {
    match order {
        ByteOrder::Big => big_endian_value(bytes),
        ByteOrder::Little => big_endian_value(bytes.reverse()),
    }
}

/// A number of `n` bytes is below the radix bound of `n`.
proof fn lemma_value_bounded(bytes: Seq<u8>)
    ensures
        big_endian_value(bytes) < radix_bound(bytes.len()),
    decreases bytes.len(),
{
    if bytes.len() > 0 {
        lemma_value_bounded(bytes.drop_last());
    }
}

/// Eight bytes fill 64 bits, and fewer bytes less.
proof fn lemma_radix_bound_of_word(digits: nat)
    ensures
        digits <= 8 ==> radix_bound(digits) <= 0x1_0000_0000_0000_0000,
        digits == 4 ==> radix_bound(digits) == 0x1_0000_0000,
        digits == 8 ==> radix_bound(digits) == 0x1_0000_0000_0000_0000,
{
    reveal_with_fuel(radix_bound, 9);
}

/// What a [`Memory`] stands for: `bytes` are readable, the first of them at
/// the address `base`, and integers in them are laid out as `layout` says.
pub struct MemoryView {
    pub base: usize,
    pub bytes: Seq<u8>,
    pub layout: Layout,
}

impl MemoryView {
    /// Whether a read may start at `address`: within the window, or right
    /// behind its last byte.
    pub open spec fn reaches(self, address: usize) -> bool {
        self.base <= address <= self.base + self.bytes.len()
    }

    /// The bytes that are readable from `address` on; none outside the window.
    pub open spec fn bytes_from(self, address: usize) -> Seq<u8> {
        if self.reaches(address) {
            self.bytes.skip(address - self.base)
        } else {
            Seq::empty()
        }
    }

    /// The address-sized word stored at `address`; `None` where the window
    /// does not hold the whole of it.
    pub open spec fn word_at(self, address: usize) -> Option<u64> {
        let width = self.layout.address_size.width() as int;
        let readable = self.bytes_from(address);
        if width <= readable.len() {
            Some(unsigned_value(readable.take(width), self.layout.order) as u64)
        } else {
            None
        }
    }
}

/// A window onto memory: the bytes that the lookup may read, and where they
/// are.
#[derive(Clone, Copy, Debug)]
pub struct Memory<'a> {
    base: usize,
    bytes: &'a [u8],
    layout: Layout,
}

impl<'a> View for Memory<'a> {
    type V = MemoryView;

    closed spec fn view(&self) -> MemoryView {
        MemoryView { base: self.base, bytes: self.bytes@, layout: self.layout }
    }
}

impl<'a> Memory<'a> {
    /// The window of `bytes` whose first byte has the address `base`.
    pub fn new(base: usize, bytes: &'a [u8], layout: Layout) -> (memory: Self)
        ensures
            memory@ == (MemoryView { base, bytes: bytes@, layout }),
    {
        Memory { base, bytes, layout }
    }

    /// The window of `bytes` at `base`, read in the layout of this machine.
    pub fn native(base: usize, bytes: &'a [u8]) -> (memory: Self)
        ensures
            memory@.base == base,
            memory@.bytes == bytes@,
            memory@.layout.address_size.width() == vstd::layout::size_of::<usize>(),
    {
        Memory { base, bytes, layout: Layout::native() }
    }

    /// How integers are laid out in this memory.
    pub fn layout(&self) -> (layout: Layout)
        ensures
            layout == self@.layout,
    {
        self.layout
    }

    /// The bytes that can be read from `address` on. Outside the window
    /// there are none.
    pub fn slice_from(&self, address: usize) -> (bytes: &'a [u8])
        ensures
            bytes@ == self@.bytes_from(address),
    {
        let len = self.bytes.len();
        if address < self.base || address - self.base > len {
            slice_subrange(self.bytes, 0, 0)
        } else {
            slice_subrange(self.bytes, address - self.base, len)
        }
    }

    /// Reads the address-sized word stored at `address`, in this memory's
    /// byte order; `None` where the window does not hold the whole word.
    pub fn read_word(&self, address: usize) -> (word: Option<u64>)
        ensures
            word == self@.word_at(address),
    {
        let readable = self.slice_from(address);
        let width: usize = match self.layout.address_size {
            AddressSize::Four => 4,
            AddressSize::Eight => 8,
        };
        if readable.len() < width {
            return None;
        }
        let ghost digits = match self.layout.order {
            ByteOrder::Big => readable@.take(width as int),
            ByteOrder::Little => readable@.take(width as int).reverse(),
        };
        let mut value: u64 = 0;
        let mut done: usize = 0;
        while done < width
            invariant
                done <= width <= 8,
                width <= readable@.len(),
                digits.len() == width,
                digits == match self.layout.order {
                    ByteOrder::Big => readable@.take(width as int),
                    ByteOrder::Little => readable@.take(width as int).reverse(),
                },
                value == big_endian_value(digits.take(done as int)),
            decreases width - done,
        {
            let at: usize = match self.layout.order {
                ByteOrder::Big => done,
                ByteOrder::Little => width - 1 - done,
            };
            let byte = readable[at];
            proof {
                let before = digits.take(done as int);
                let after = digits.take(done + 1);
                assert(after.drop_last() == before);
                assert(after.last() == byte);
                lemma_value_bounded(before);
                lemma_value_bounded(after);
                lemma_radix_bound_of_word((done + 1) as nat);
            }
            value = value * 256 + byte as u64;
            done = done + 1;
        }
        proof {
            assert(digits.take(width as int) == digits);
        }
        Some(value)
    }
}

} // verus!
