//! The page map of level 4, the root of a page table, whose entries
//! point to level 3 maps.

use vstd::prelude::*;
use vstd::std_specs::convert::FromSpecImpl;
use crate::frame_allocator::FrameAllocator;
use crate::mem::{Frame, Page};
use crate::page_table::encoding::{
    covers4, entry_present, frame_entry, index4, leaf_target, lemma_compose_entry,
    lemma_frame_entry, lemma_index_bounds, lemma_zero_entry, number_index4, overlaps4, page_index4,
    zero_entries,
    ENTRIES,
};
use crate::page_table::level3;
use crate::page_table::{PageEntryBuilder, PageSize};

verus! {

/// One entry of the level 4 map, as the hardware reads it.
#[derive(Clone, Copy, PartialEq, Eq, Structural, Debug)]
pub struct GenericPageEntry {
    entry: u64,
}

/// An entry of the level 4 map, told apart by its present bit.
#[derive(Clone, Copy, PartialEq, Eq, Structural, Debug)]
pub enum PageEntryType {
    NotPresent(NotPresent),
    PageTableEntry(PageTableEntry),
}

/// An entry through which nothing is mapped.
#[derive(Clone, Copy, PartialEq, Eq, Structural, Debug)]
pub struct NotPresent {
    entry: u64,
}

/// An entry that points to a level 3 map.
#[derive(Clone, Copy, PartialEq, Eq, Structural, Debug)]
pub struct PageTableEntry {
    entry: u64,
}

impl NotPresent {
    /// The 64 bits of the entry.
    pub closed spec fn bits(self) -> u64 {
        self.entry
    }

    /// The 64 bits of the entry.
    pub fn to_bits(&self) -> (result: u64)
        ensures
            result == self.bits(),
    {
        self.entry
    }
}

impl From<NotPresent> for GenericPageEntry {
    fn from(value: NotPresent) -> (result: Self)
        ensures
            result.bits() == value.bits(),
    {
        GenericPageEntry { entry: value.entry }
    }
}

impl FromSpecImpl<NotPresent> for GenericPageEntry {
    open spec fn obeys_from_spec() -> bool {
        true
    }

    closed spec fn from_spec(v: NotPresent) -> Self {
        GenericPageEntry { entry: v.entry }
    }
}

impl PageTableEntry {
    /// The 64 bits of the entry.
    pub closed spec fn bits(self) -> u64 {
        self.entry
    }

    /// The 64 bits of the entry.
    pub fn to_bits(&self) -> (result: u64)
        ensures
            result == self.bits(),
    {
        self.entry
    }

    /// The present, writable entry that points to the level 3 map in `frame`.
    pub fn new(frame: Frame) -> (result: Self)
        ensures
            result.bits() == frame_entry(frame.number() as u64),
    {
        let mut entry: u64 = PageEntryBuilder::writable().to_entry();
        entry |= 0x1;
        let frame_number: usize = frame.into();
        let address: u64 = (frame_number as u64 & 0xff_ffff_ffff) << 12;
        entry |= address;
        proof {
            lemma_compose_entry(address);
        }
        PageTableEntry { entry }
    }
}

impl From<PageTableEntry> for GenericPageEntry {
    fn from(value: PageTableEntry) -> (result: Self)
        ensures
            result.bits() == value.bits(),
    {
        GenericPageEntry { entry: value.entry }
    }
}

impl FromSpecImpl<PageTableEntry> for GenericPageEntry {
    open spec fn obeys_from_spec() -> bool {
        true
    }

    closed spec fn from_spec(v: PageTableEntry) -> Self {
        GenericPageEntry { entry: v.entry }
    }
}

impl GenericPageEntry {
    /// The 64 bits of the entry.
    pub closed spec fn bits(self) -> u64 {
        self.entry
    }

    /// The entry of all zeros, which is not present.
    pub fn empty() -> (result: Self)
        ensures
            result.bits() == 0,
    {
        GenericPageEntry { entry: 0 }
    }

    /// The entry as the variant that its present bit selects, with its
    /// bits unchanged.
    pub fn as_enum(self) -> (result: PageEntryType)
        ensures
            match result {
                PageEntryType::NotPresent(inner) => !entry_present(self.bits()) && inner.bits()
                    == self.bits(),
                PageEntryType::PageTableEntry(inner) => entry_present(self.bits()) && inner.bits()
                    == self.bits(),
            },
    {
        if self.get_present() {
            PageEntryType::PageTableEntry(PageTableEntry { entry: self.entry })
        } else {
            PageEntryType::NotPresent(NotPresent { entry: self.entry })
        }
    }

    pub fn get_present(&self) -> (result: bool)
        ensures
            result == entry_present(self.bits()),
    {
        (self.entry & 0x1) == 0x1
    }

    /// The 64 bits of the entry.
    pub fn to_bits(&self) -> (result: u64)
        ensures
            result == self.bits(),
    {
        self.entry
    }
}

/// The level 4 page map: 512 entries, each not present or a pointer to
/// the level 3 map that the map holds beside it.
pub struct PageMap {
    table: Vec<GenericPageEntry>,
    maps: Vec<Option<level3::PageMap>>,
}

impl PageMap {
    /// The entries of the map, each as its 64 bits.
    pub closed spec fn entries(&self) -> Seq<u64> {
        Seq::new(self.table@.len(), |i: int| self.table@[i].entry)
    }

    /// For each entry, the level 3 map that it points to, if it points to one.
    pub closed spec fn children(&self) -> Seq<Option<level3::PageMap>> {
        self.maps@
    }

    /// The map has its 512 entries, holds a level 3 map for exactly those
    /// entries that are present, and each of these is well formed.
    pub open spec fn wf(&self) -> bool {
        &&& self.entries().len() == ENTRIES
        &&& self.children().len() == ENTRIES
        &&& forall|i: int|
            0 <= i < ENTRIES ==> ((#[trigger] self.children()[i]) is Some <==> entry_present(
                self.entries()[i],
            ))
        &&& forall|i: int|
            0 <= i < ENTRIES && (#[trigger] self.children()[i]) is Some
                ==> self.children()[i].unwrap().wf()
    }

    /// Where the map sends `address`: where the level 3 map under the
    /// selected entry sends it.
    pub open spec fn translate(&self, address: u64) -> Option<u64> {
        let index = index4(address >> 12) as int;
        if entry_present(self.entries()[index]) {
            self.children()[index].unwrap().translate(address)
        } else {
            None
        }
    }

    /// Whether a page of `size` that holds `page` cannot be mapped.
    pub open spec fn collides(&self, page: Page, size: PageSize) -> bool {
        let index = index4(page.number() as u64) as int;
        entry_present(self.entries()[index]) && self.children()[index].unwrap().collides(
            page,
            size,
        )
    }

    /// Whether this map is `before` after a page of `size` at `page` was
    /// mapped to `frame`, with `cursor` the first frame that new page maps
    /// are put in.
    ///
    /// Only the entry that `page` selects differs: it points to a level 3
    /// map, in the frame `cursor` where there was none, that has the page
    /// put in.
    pub open spec fn inserted(
        &self,
        before: &PageMap,
        cursor: usize,
        frame: Frame,
        page: Page,
        size: PageSize,
    ) -> bool {
        let index = index4(page.number() as u64) as int;
        let old_entry = before.entries()[index];
        &&& self.entries().len() == ENTRIES
        &&& self.children().len() == ENTRIES
        &&& forall|i: int|
            0 <= i < ENTRIES && i != index ==> (#[trigger] self.entries()[i])
                == before.entries()[i]
        &&& forall|i: int|
            0 <= i < ENTRIES && i != index ==> (#[trigger] self.children()[i])
                == before.children()[i]
        &&& self.entries()[index] == if entry_present(old_entry) {
            old_entry
        } else {
            frame_entry(cursor as u64)
        }
        &&& self.children()[index] is Some
        &&& self.children()[index].unwrap().inserted(
            before.children()[index],
            if entry_present(old_entry) {
                cursor
            } else {
                (cursor + 1) as usize
            },
            frame,
            page,
            size,
        )
    }

    /// The frames that mapping a page of `size` at `page` takes for new
    /// page maps: one for each map on the way down that is not there.
    pub open spec fn tables_needed(&self, page: Page, size: PageSize) -> int {
        let index = index4(page.number() as u64) as int;
        if entry_present(self.entries()[index]) {
            self.children()[index].unwrap().tables_needed(page, size)
        } else {
            match size {
                PageSize::FourKb => 3,
                PageSize::TwoMb => 2,
                PageSize::OneGb => 1,
            }
        }
    }

    /// No address in a page that can be mapped is sent anywhere.
    pub proof fn lemma_free_page_unmapped(&self, page: Page, size: PageSize, address: u64)
        requires
            self.wf(),
            !self.collides(page, size),
            covers4(page.number() as u64, size, address >> 12),
        ensures
            self.translate(address) is None,
    {
        let index = index4(page.number() as u64) as int;
        lemma_index_bounds(page.number() as u64);
        if entry_present(self.entries()[index]) {
            self.children()[index].unwrap().lemma_free_page_unmapped(page, size, address);
        }
    }

    /// A map in which no entry is present.
    pub fn new() -> (result: Self)
        ensures
            result.wf(),
            result.entries() == zero_entries(),
            forall|i: int| 0 <= i < ENTRIES ==> (#[trigger] result.children()[i]) is None,
            forall|address: u64| (#[trigger] result.translate(address)) is None,
            forall|page: Page, size: PageSize| !(#[trigger] result.collides(page, size)),
    {
        let mut table: Vec<GenericPageEntry> = Vec::new();
        let mut maps: Vec<Option<level3::PageMap>> = Vec::new();
        while table.len() < ENTRIES
            invariant
                table.len() <= ENTRIES,
                maps.len() == table.len(),
                forall|i: int| 0 <= i < table.len() ==> (#[trigger] table[i]).entry == 0,
                forall|i: int| 0 <= i < maps.len() ==> (#[trigger] maps[i]) is None,
            decreases ENTRIES - table.len(),
        {
            table.push(GenericPageEntry::empty());
            maps.push(None);
        }
        let result = PageMap { table, maps };
        proof {
            lemma_zero_entry();
            assert(result.entries() =~= zero_entries());
            assert forall|address: u64| (#[trigger] result.translate(address)) is None by {
                lemma_index_bounds(address >> 12);
            }
            assert forall|page: Page, size: PageSize| !(#[trigger] result.collides(page, size)) by {
                lemma_index_bounds(page.number() as u64);
            }
        }
        result
    }

    /// The entry at `index`.
    pub fn entry(&self, index: usize) -> (result: GenericPageEntry)
        requires
            self.wf(),
            index < ENTRIES,
        ensures
            result.bits() == self.entries()[index as int],
    {
        self.table[index]
    }

    /// The level 3 map that the entry at `index` points to, if it points
    /// to one.
    pub fn get_map(&self, index: usize) -> (result: Option<&level3::PageMap>)
        requires
            self.wf(),
            index < ENTRIES,
        ensures
            match result {
                Some(map) => self.children()[index as int] == Some(*map),
                None => self.children()[index as int] is None,
            },
    {
        self.maps[index].as_ref()
    }

    /// Walks the map as the hardware does: where `address` is sent.
    pub fn walk(&self, address: u64) -> (result: Option<u64>)
        requires
            self.wf(),
        ensures
            result == self.translate(address),
    {
        let index = number_index4(address >> 12);
        match &self.maps[index] {
            Some(map) => map.walk(address),
            None => None,
        }
    }

    /// Whether a page of `page_size` that holds `page` cannot be mapped.
    pub fn is_taken(&self, page: Page, page_size: PageSize) -> (result: bool)
        requires
            self.wf(),
        ensures
            result == self.collides(page, page_size),
    {
        let index = page_index4(page);
        match &self.maps[index] {
            Some(map) => map.is_taken(page, page_size),
            None => false,
        }
    }

    /// Maps the page of `page_size` that holds `page` to `frame`, in the
    /// level 3 map under the entry that `page` selects. Where that entry
    /// was not present the level 3 map is made first, in a frame of
    /// `frame_allocator`.
    pub fn insert_page(
        &mut self,
        frame_allocator: &mut FrameAllocator,
        frame: Frame,
        page: Page,
        page_size: PageSize,
    )
        requires
            old(self).wf(),
            !old(self).collides(page, page_size),
            old(frame_allocator).cursor() + 3 <= usize::MAX,
        ensures
            final(self).wf(),
            final(self).inserted(old(self), old(frame_allocator).cursor(), frame, page, page_size),
            final(frame_allocator).cursor() == old(frame_allocator).cursor() + old(
                self,
            ).tables_needed(page, page_size),
            forall|address: u64| #[trigger]
                final(self).translate(address) == if covers4(
                    page.number() as u64,
                    page_size,
                    address >> 12,
                ) {
                    Some(leaf_target(frame.number() as u64, page_size, address))
                } else {
                    old(self).translate(address)
                },
            forall|other: Page, other_size: PageSize| #[trigger]
                final(self).collides(other, other_size) == (old(self).collides(other, other_size)
                    || overlaps4(
                    page.number() as u64,
                    page_size,
                    other.number() as u64,
                    other_size,
                )),
    {
        let index = page_index4(page);
        let ghost before = *self;
        let ghost cursor = frame_allocator.cursor();
        if let PageEntryType::NotPresent(_) = self.table[index].as_enum() {
            let table_frame = frame_allocator.get_frame();
            let map = level3::PageMap::new_in_place();
            self.maps[index] = Some(map);
            self.table[index] = PageTableEntry::new(table_frame).into();
            proof {
                lemma_frame_entry(table_frame.number() as u64);
                lemma_zero_entry();
                lemma_index_bounds(page.number() as u64);
            }
        }
        let taken = self.maps[index].take();
        let mut map = taken.unwrap();
        map.insert_page(frame_allocator, frame, page, page_size);
        self.maps[index] = Some(map);
        proof {
            assert(final(self).inserted(&before, cursor, frame, page, page_size));
            assert forall|address: u64| #[trigger]
                final(self).translate(address) == if covers4(
                    page.number() as u64,
                    page_size,
                    address >> 12,
                ) {
                    Some(leaf_target(frame.number() as u64, page_size, address))
                } else {
                    before.translate(address)
                } by {
                lemma_index_bounds(address >> 12);
            }
            assert forall|other: Page, other_size: PageSize| #[trigger]
                final(self).collides(other, other_size) == (before.collides(other, other_size)
                    || overlaps4(
                    page.number() as u64,
                    page_size,
                    other.number() as u64,
                    other_size,
                )) by {
                lemma_index_bounds(other.number() as u64);
            }
        }
    }
}

} // verus!
