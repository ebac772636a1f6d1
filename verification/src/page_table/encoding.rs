//! How a page-map entry is laid out in its 64 bits, and which entry of
//! each level a page number selects.

use vstd::prelude::*;
use crate::mem::Page;
use crate::page_table::PageSize;

verus! {

/// Entries in a page map of any level.
pub const ENTRIES: usize = 0x200;

/// Bit 0: the entry is present.
pub const PRESENT: u64 = 0x1;

/// Bit 1: writes are allowed.
pub const WRITABLE: u64 = 0x2;

/// Bit 7: the entry is a leaf of 2 MiB or 1 GiB, not a pointer to a page map.
pub const PAGE_SIZE: u64 = 0x80;

/// Bits 12 to 51: where the address of the frame or page map stands.
pub const ADDRESS_MASK: u64 = 0x000f_ffff_ffff_f000;

/// The entry of the level 4 map that the page number selects: address bits 39 to 47.
pub open spec fn index4(page: u64) -> u64 {
    (page >> 27) & 0x1ff
}

/// The entry of a level 3 map that the page number selects: address bits 30 to 38.
pub open spec fn index3(page: u64) -> u64 {
    (page >> 18) & 0x1ff
}

/// The entry of a level 2 map that the page number selects: address bits 21 to 29.
pub open spec fn index2(page: u64) -> u64 {
    (page >> 9) & 0x1ff
}

/// The entry of a level 1 map that the page number selects: address bits 12 to 20.
pub open spec fn index1(page: u64) -> u64 {
    page & 0x1ff
}

/// The index that the page number `number` selects in the level 4 map.
pub fn number_index4(number: u64) -> (index: usize)
    ensures
        index == index4(number),
        index < ENTRIES,
{
    proof {
        lemma_index_bounds(number);
    }
    ((number >> 27) & 0x1ff) as usize
}

/// The index that `page` selects in the level 4 map.
pub fn page_index4(page: Page) -> (index: usize)
    ensures
        index == index4(page.number() as u64),
        index < ENTRIES,
{
    let number: usize = page.into();
    number_index4(number as u64)
}

/// The index that the page number `number` selects in a level 3 map.
pub fn number_index3(number: u64) -> (index: usize)
    ensures
        index == index3(number),
        index < ENTRIES,
{
    proof {
        lemma_index_bounds(number);
    }
    ((number >> 18) & 0x1ff) as usize
}

/// The index that `page` selects in a level 3 map.
pub fn page_index3(page: Page) -> (index: usize)
    ensures
        index == index3(page.number() as u64),
        index < ENTRIES,
{
    let number: usize = page.into();
    number_index3(number as u64)
}

/// The index that the page number `number` selects in a level 2 map.
pub fn number_index2(number: u64) -> (index: usize)
    ensures
        index == index2(number),
        index < ENTRIES,
{
    proof {
        lemma_index_bounds(number);
    }
    ((number >> 9) & 0x1ff) as usize
}

/// The index that `page` selects in a level 2 map.
pub fn page_index2(page: Page) -> (index: usize)
    ensures
        index == index2(page.number() as u64),
        index < ENTRIES,
{
    let number: usize = page.into();
    number_index2(number as u64)
}

/// The index that the page number `number` selects in a level 1 map.
pub fn number_index1(number: u64) -> (index: usize)
    ensures
        index == index1(number),
        index < ENTRIES,
{
    proof {
        lemma_index_bounds(number);
    }
    (number & 0x1ff) as usize
}

/// The index that `page` selects in a level 1 map.
pub fn page_index1(page: Page) -> (index: usize)
    ensures
        index == index1(page.number() as u64),
        index < ENTRIES,
{
    let number: usize = page.into();
    number_index1(number as u64)
}

/// What an entry is, read off its present and page-size bits.
pub enum EntryKind {
    /// Nothing is mapped through the entry.
    NotPresent,
    /// The entry points to the page map one level down.
    Table,
    /// The entry maps memory itself.
    Leaf,
}

pub open spec fn entry_present(entry: u64) -> bool {
    entry & 0x1 == 0x1
}

pub open spec fn entry_page_size(entry: u64) -> bool {
    (entry >> 7) & 0x1 == 0x1
}

pub open spec fn entry_writable(entry: u64) -> bool {
    entry & 0x2 == 0x2
}

/// The physical address that the entry holds.
pub open spec fn entry_address(entry: u64) -> u64 {
    entry & ADDRESS_MASK
}

/// The kind of an entry of level 2 or 3, where a leaf carries the page-size bit.
pub open spec fn entry_kind(entry: u64) -> EntryKind {
    if !entry_present(entry) {
        EntryKind::NotPresent
    } else if entry_page_size(entry) {
        EntryKind::Leaf
    } else {
        EntryKind::Table
    }
}

/// A present, writable entry that names `frame`: a pointer to a page map,
/// or at level 1 the leaf of a 4 KiB page.
pub open spec fn frame_entry(frame: u64) -> u64 {
    0x3u64 | ((frame & 0xff_ffff_ffff) << 12)
}

/// The leaf of a 2 MiB page: `frame` with its low 9 bits dropped.
pub open spec fn leaf2_entry(frame: u64) -> u64 {
    0x83u64 | ((frame & (0x7fff_ffffu64 << 9)) << 12)
}

/// The leaf of a 1 GiB page: `frame` with its low 18 bits dropped.
pub open spec fn leaf3_entry(frame: u64) -> u64 {
    0x83u64 | ((frame & (0x3f_ffffu64 << 18)) << 12)
}

/// The 512 entries of a page map that was just filled with zeros.
pub open spec fn zero_entries() -> Seq<u64> {
    Seq::new(ENTRIES as nat, |i: int| 0u64)
}

/// Whether the page numbers `page` and `other` select the same entry of
/// a level 1 map.
pub open spec fn covers1(page: u64, other: u64) -> bool {
    index1(page) == index1(other)
}

/// Whether, seen from a level 2 map, the page of `size` that holds `page`
/// also holds `other`.
pub open spec fn covers2(page: u64, size: PageSize, other: u64) -> bool {
    index2(page) == index2(other) && (size !is FourKb || covers1(page, other))
}

/// Whether, seen from a level 3 map, the page of `size` that holds `page`
/// also holds `other`.
pub open spec fn covers3(page: u64, size: PageSize, other: u64) -> bool {
    index3(page) == index3(other) && (size is OneGb || covers2(page, size, other))
}

/// Whether, seen from the level 4 map, the page of `size` that holds
/// `page` also holds `other`.
pub open spec fn covers4(page: u64, size: PageSize, other: u64) -> bool {
    index4(page) == index4(other) && covers3(page, size, other)
}

/// Whether, seen from a level 2 map, the page of `size` that holds `page`
/// and the page of `other_size` that holds `other` share memory.
pub open spec fn overlaps2(page: u64, size: PageSize, other: u64, other_size: PageSize) -> bool {
    index2(page) == index2(other) && (size !is FourKb || other_size !is FourKb || covers1(
        page,
        other,
    ))
}

/// Whether, seen from a level 3 map, the two pages share memory.
pub open spec fn overlaps3(page: u64, size: PageSize, other: u64, other_size: PageSize) -> bool {
    index3(page) == index3(other) && (size is OneGb || other_size is OneGb || overlaps2(
        page,
        size,
        other,
        other_size,
    ))
}

/// Whether, seen from the level 4 map, the two pages share memory.
pub open spec fn overlaps4(page: u64, size: PageSize, other: u64, other_size: PageSize) -> bool {
    index4(page) == index4(other) && overlaps3(page, size, other, other_size)
}

/// The leaf entry that maps a page of `size` to `frame`.
pub open spec fn leaf_entry(frame: u64, size: PageSize) -> u64 {
    match size {
        PageSize::FourKb => frame_entry(frame),
        PageSize::TwoMb => leaf2_entry(frame),
        PageSize::OneGb => leaf3_entry(frame),
    }
}

/// The bits of an address that are its offset in a page of `size`.
pub open spec fn page_offset(size: PageSize, address: u64) -> u64 {
    match size {
        PageSize::FourKb => address & 0xfff,
        PageSize::TwoMb => address & 0x1f_ffff,
        PageSize::OneGb => address & 0x3fff_ffff,
    }
}

/// Where a leaf that maps a page of `size` to `frame` sends `address`.
pub open spec fn leaf_target(frame: u64, size: PageSize, address: u64) -> u64 {
    (entry_address(leaf_entry(frame, size)) + page_offset(size, address)) as u64
}

/// An entry of all zeros maps nothing.
pub proof fn lemma_zero_entry()
    ensures
        !entry_present(0),
        entry_kind(0) is NotPresent,
{
    assert(0u64 & 0x1 != 0x1) by (bit_vector);
}

/// What can be read back from an entry that names a frame.
pub proof fn lemma_frame_entry(frame: u64)
    ensures
        entry_present(frame_entry(frame)),
        entry_writable(frame_entry(frame)),
        !entry_page_size(frame_entry(frame)),
        entry_kind(frame_entry(frame)) is Table,
        entry_address(frame_entry(frame)) == (frame & 0xff_ffff_ffff) << 12,
        frame < 0x100_0000_0000 ==> entry_address(frame_entry(frame)) == frame * 0x1000,
{
    let e = frame_entry(frame);
    assert(e & 0x1 == 0x1 && e & 0x2 == 0x2 && (e >> 7) & 0x1 != 0x1 && e & 0x000f_ffff_ffff_f000
        == (frame & 0xff_ffff_ffff) << 12 && (frame < 0x100_0000_0000 ==> e & 0x000f_ffff_ffff_f000
        == frame * 0x1000)) by (bit_vector)
        requires
            e == 0x3u64 | ((frame & 0xff_ffff_ffff) << 12),
    ;
}

/// What can be read back from the leaf of a 2 MiB page.
pub proof fn lemma_leaf2_entry(frame: u64)
    ensures
        entry_present(leaf2_entry(frame)),
        entry_writable(leaf2_entry(frame)),
        entry_page_size(leaf2_entry(frame)),
        entry_kind(leaf2_entry(frame)) is Leaf,
        entry_address(leaf2_entry(frame)) == (frame & (0x7fff_ffffu64 << 9)) << 12,
        frame < 0x100_0000_0000 ==> entry_address(leaf2_entry(frame)) == (frame / 0x200) * 0x20_0000,
{
    let e = leaf2_entry(frame);
    assert(e & 0x1 == 0x1 && e & 0x2 == 0x2 && (e >> 7) & 0x1 == 0x1 && e & 0x000f_ffff_ffff_f000
        == (frame & (0x7fff_ffffu64 << 9)) << 12 && (frame < 0x100_0000_0000 ==> e
        & 0x000f_ffff_ffff_f000 == (frame / 0x200) * 0x20_0000)) by (bit_vector)
        requires
            e == 0x83u64 | ((frame & (0x7fff_ffffu64 << 9)) << 12),
    ;
}

/// What can be read back from the leaf of a 1 GiB page.
pub proof fn lemma_leaf3_entry(frame: u64)
    ensures
        entry_present(leaf3_entry(frame)),
        entry_writable(leaf3_entry(frame)),
        entry_page_size(leaf3_entry(frame)),
        entry_kind(leaf3_entry(frame)) is Leaf,
        entry_address(leaf3_entry(frame)) == (frame & (0x3f_ffffu64 << 18)) << 12,
        frame < 0x100_0000_0000 ==> entry_address(leaf3_entry(frame)) == (frame / 0x4_0000)
            * 0x4000_0000,
{
    let e = leaf3_entry(frame);
    assert(e & 0x1 == 0x1 && e & 0x2 == 0x2 && (e >> 7) & 0x1 == 0x1 && e & 0x000f_ffff_ffff_f000
        == (frame & (0x3f_ffffu64 << 18)) << 12 && (frame < 0x100_0000_0000 ==> e
        & 0x000f_ffff_ffff_f000 == (frame / 0x4_0000) * 0x4000_0000)) by (bit_vector)
        requires
            e == 0x83u64 | ((frame & (0x3f_ffffu64 << 18)) << 12),
    ;
}

/// The flag bits of a writable supervisor entry, together with the
/// present bit, the page-size bit and an address, make up the entries above.
pub proof fn lemma_compose_entry(address: u64)
    ensures
        (0x2u64 | 0x1) | address == 0x3u64 | address,
        ((0x2u64 | 0x1) | 0x80) | address == 0x83u64 | address,
{
    assert((0x2u64 | 0x1) | address == 0x3u64 | address && ((0x2u64 | 0x1) | 0x80) | address == 0x83u64
        | address) by (bit_vector);
}

/// The address in an entry and an offset in a page add up without overflow.
pub proof fn lemma_target_bounds(entry: u64, address: u64)
    ensures
        entry_address(entry) <= ADDRESS_MASK,
        address & 0xfff <= 0xfff,
        address & 0x1f_ffff <= 0x1f_ffff,
        address & 0x3fff_ffff <= 0x3fff_ffff,
{
    assert(entry & 0x000f_ffff_ffff_f000 <= 0x000f_ffff_ffff_f000 && address & 0xfff <= 0xfff
        && address & 0x1f_ffff <= 0x1f_ffff && address & 0x3fff_ffff <= 0x3fff_ffff)
        by (bit_vector);
}

/// Every index is below the number of entries in a map.
pub proof fn lemma_index_bounds(page: u64)
    ensures
        index1(page) < ENTRIES,
        index2(page) < ENTRIES,
        index3(page) < ENTRIES,
        index4(page) < ENTRIES,
{
    assert(page & 0x1ff < 0x200 && (page >> 9) & 0x1ff < 0x200 && (page >> 18) & 0x1ff < 0x200 && (
    page >> 27) & 0x1ff < 0x200) by (bit_vector);
}

} // verus!
