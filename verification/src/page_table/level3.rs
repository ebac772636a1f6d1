//! The page maps of level 3, whose entries map 1 GiB pages or point to
//! level 2 maps.

use vstd::prelude::*;
use vstd::std_specs::convert::FromSpecImpl;
use crate::frame_allocator::FrameAllocator;
use crate::mem::{Frame, Page};
use crate::page_table::encoding::{
    covers3, entry_address, entry_kind, entry_page_size, entry_present, frame_entry, index3,
    leaf3_entry, leaf_target, lemma_compose_entry, lemma_frame_entry, lemma_index_bounds,
    lemma_leaf3_entry, lemma_target_bounds, lemma_zero_entry, number_index3, overlaps3,
    page_index3, zero_entries, EntryKind, ADDRESS_MASK, ENTRIES,
};
use crate::page_table::level2;
use crate::page_table::{PageEntryBuilder, PageSize};

verus! {

/// One entry of a level 3 map, as the hardware reads it.
#[derive(Clone, Copy, PartialEq, Eq, Structural, Debug)]
pub struct GenericPageEntry {
    entry: u64,
}

/// An entry of a level 3 map, told apart by its present and page-size bits.
#[derive(Clone, Copy, PartialEq, Eq, Structural, Debug)]
pub enum PageEntryType {
    NotPresent(NotPresent),
    PageTableEntry(PageTableEntry),
    PageEntry(PageEntry),
}

/// An entry through which nothing is mapped.
#[derive(Clone, Copy, PartialEq, Eq, Structural, Debug)]
pub struct NotPresent {
    entry: u64,
}

/// An entry that points to a level 2 map.
#[derive(Clone, Copy, PartialEq, Eq, Structural, Debug)]
pub struct PageTableEntry {
    entry: u64,
}

/// The leaf of a 1 GiB page.
#[derive(Clone, Copy, PartialEq, Eq, Structural, Debug)]
pub struct PageEntry {
    entry: u64,
}

impl NotPresent {
    /// The 64 bits of the entry.
    pub closed spec fn bits(self) -> u64 {
        self.entry
    }

    /// The 64 bits of the entry.
    pub fn to_bits(&self) -> (result: u64)
        ensures
            result == self.bits(),
    {
        self.entry
    }
}

impl PageTableEntry {
    /// The 64 bits of the entry.
    pub closed spec fn bits(self) -> u64 {
        self.entry
    }

    /// The 64 bits of the entry.
    pub fn to_bits(&self) -> (result: u64)
        ensures
            result == self.bits(),
    {
        self.entry
    }

    /// The present, writable entry that points to the level 2 map in `frame`.
    pub fn new(frame: Frame) -> (result: Self)
        ensures
            result.bits() == frame_entry(frame.number() as u64),
    {
        let mut entry: u64 = PageEntryBuilder::writable().to_entry();
        entry |= 0x1;
        let frame_number: usize = frame.into();
        let address: u64 = (frame_number as u64 & 0xff_ffff_ffff) << 12;
        entry |= address;
        proof {
            lemma_compose_entry(address);
        }
        PageTableEntry { entry }
    }
}

impl PageEntry {
    /// The 64 bits of the entry.
    pub closed spec fn bits(self) -> u64 {
        self.entry
    }

    /// The 64 bits of the entry.
    pub fn to_bits(&self) -> (result: u64)
        ensures
            result == self.bits(),
    {
        self.entry
    }

    /// The present, writable leaf that maps a 1 GiB page to the 262144
    /// frames in a row among which `frame` is.
    pub fn new(frame: Frame) -> (result: Self)
        ensures
            result.bits() == leaf3_entry(frame.number() as u64),
    {
        let mut entry: u64 = PageEntryBuilder::writable().to_entry();
        entry |= 0x1;
        entry |= 0x80;
        let frame_number: usize = frame.into();
        let address: u64 = (frame_number as u64 & (0x3f_ffff << 18)) << 12;
        entry |= address;
        proof {
            lemma_compose_entry(address);
        }
        PageEntry { entry }
    }
}

impl From<PageTableEntry> for GenericPageEntry {
    fn from(value: PageTableEntry) -> (result: Self)
        ensures
            result.bits() == value.bits(),
    {
        GenericPageEntry { entry: value.entry }
    }
}

impl FromSpecImpl<PageTableEntry> for GenericPageEntry {
    open spec fn obeys_from_spec() -> bool {
        true
    }

    closed spec fn from_spec(v: PageTableEntry) -> Self {
        GenericPageEntry { entry: v.entry }
    }
}

impl From<PageEntry> for GenericPageEntry {
    fn from(value: PageEntry) -> (result: Self)
        ensures
            result.bits() == value.bits(),
    {
        GenericPageEntry { entry: value.entry }
    }
}

impl FromSpecImpl<PageEntry> for GenericPageEntry {
    open spec fn obeys_from_spec() -> bool {
        true
    }

    closed spec fn from_spec(v: PageEntry) -> Self {
        GenericPageEntry { entry: v.entry }
    }
}

impl Default for GenericPageEntry {
    /// The entry of all zeros, which is not present.
    fn default() -> (result: Self)
        ensures
            result.bits() == 0,
    {
        GenericPageEntry { entry: 0 }
    }
}

impl GenericPageEntry {
    /// The 64 bits of the entry.
    pub closed spec fn bits(self) -> u64 {
        self.entry
    }

    /// The entry as the variant that its present and page-size bits
    /// select, with its bits unchanged.
    pub fn as_enum(self) -> (result: PageEntryType)
        ensures
            match result {
                PageEntryType::NotPresent(inner) => entry_kind(self.bits()) is NotPresent
                    && inner.bits() == self.bits(),
                PageEntryType::PageTableEntry(inner) => entry_kind(self.bits()) is Table
                    && inner.bits() == self.bits(),
                PageEntryType::PageEntry(inner) => entry_kind(self.bits()) is Leaf && inner.bits()
                    == self.bits(),
            },
    {
        let present = self.present();
        let page_size = self.page_size();
        if !present {
            PageEntryType::NotPresent(NotPresent { entry: self.entry })
        } else if !page_size {
            PageEntryType::PageTableEntry(PageTableEntry { entry: self.entry })
        } else {
            PageEntryType::PageEntry(PageEntry { entry: self.entry })
        }
    }

    pub fn present(&self) -> (result: bool)
        ensures
            result == entry_present(self.bits()),
    {
        (self.entry & 0x1) == 0x1
    }

    pub fn page_size(&self) -> (result: bool)
        ensures
            result == entry_page_size(self.bits()),
    {
        ((self.entry >> 7) & 0x1) == 0x1
    }

    /// The 64 bits of the entry.
    pub fn to_bits(&self) -> (result: u64)
        ensures
            result == self.bits(),
    {
        self.entry
    }
}

/// A level 3 page map: 512 entries, each not present, the leaf of a
/// 1 GiB page, or a pointer to the level 2 map that the map holds beside it.
pub struct PageMap {
    table: Vec<GenericPageEntry>,
    maps: Vec<Option<level2::PageMap>>,
}

impl Default for PageMap {
    /// A map in which no entry is present.
    fn default() -> (result: Self)
        ensures
            result.wf(),
            result.entries() == zero_entries(),
            forall|i: int| 0 <= i < ENTRIES ==> (#[trigger] result.children()[i]) is None,
    {
        let mut table: Vec<GenericPageEntry> = Vec::new();
        let mut maps: Vec<Option<level2::PageMap>> = Vec::new();
        while table.len() < ENTRIES
            invariant
                table.len() <= ENTRIES,
                maps.len() == table.len(),
                forall|i: int| 0 <= i < table.len() ==> (#[trigger] table[i]).entry == 0,
                forall|i: int| 0 <= i < maps.len() ==> (#[trigger] maps[i]) is None,
            decreases ENTRIES - table.len(),
        {
            table.push(GenericPageEntry::default());
            maps.push(None);
        }
        let result = PageMap { table, maps };
        proof {
            lemma_zero_entry();
            assert(result.entries() =~= zero_entries());
        }
        result
    }
}

impl PageMap {
    /// The entries of the map, each as its 64 bits.
    pub closed spec fn entries(&self) -> Seq<u64> {
        Seq::new(self.table@.len(), |i: int| self.table@[i].entry)
    }

    /// For each entry, the level 2 map that it points to, if it points to one.
    pub closed spec fn children(&self) -> Seq<Option<level2::PageMap>> {
        self.maps@
    }

    /// The entries of `map`, or those of a map filled with zeros where
    /// there is none.
    pub open spec fn entries_of(map: Option<PageMap>) -> Seq<u64> {
        match map {
            Some(map) => map.entries(),
            None => zero_entries(),
        }
    }

    /// The level 2 map under entry `index` of `map`, if `map` is there
    /// and has one.
    pub open spec fn child_of(map: Option<PageMap>, index: int) -> Option<level2::PageMap> {
        match map {
            Some(map) => map.children()[index],
            None => None,
        }
    }

    /// The map has its 512 entries, holds a level 2 map for exactly those
    /// entries that point to one, and each of these is well formed.
    pub open spec fn wf(&self) -> bool {
        &&& self.entries().len() == ENTRIES
        &&& self.children().len() == ENTRIES
        &&& forall|i: int|
            0 <= i < ENTRIES ==> ((#[trigger] self.children()[i]) is Some <==> entry_kind(
                self.entries()[i],
            ) is Table)
        &&& forall|i: int|
            0 <= i < ENTRIES && (#[trigger] self.children()[i]) is Some
                ==> self.children()[i].unwrap().wf()
    }

    /// Where the map sends `address`: through a leaf, to the 1 GiB of
    /// frames that it names; through a pointer, where the level 2 map
    /// sends it.
    pub open spec fn translate(&self, address: u64) -> Option<u64> {
        let index = index3(address >> 12) as int;
        let entry = self.entries()[index];
        match entry_kind(entry) {
            EntryKind::NotPresent => None,
            EntryKind::Leaf => Some((entry_address(entry) + (address & 0x3fff_ffff)) as u64),
            EntryKind::Table => self.children()[index].unwrap().translate(address),
        }
    }

    /// Whether a page of `size` that holds `page` cannot be mapped: the
    /// entry is a leaf, or a pointer where a leaf is asked for, or the
    /// page cannot be mapped in the level 2 map below.
    pub open spec fn collides(&self, page: Page, size: PageSize) -> bool {
        let index = index3(page.number() as u64) as int;
        match entry_kind(self.entries()[index]) {
            EntryKind::NotPresent => false,
            EntryKind::Leaf => true,
            EntryKind::Table => size is OneGb || self.children()[index].unwrap().collides(
                page,
                size,
            ),
        }
    }

    /// Whether this map is `before`, or a map of zeros where there was
    /// none, after a page of `size` at `page` was mapped to `frame`, with
    /// `cursor` the first frame that new page maps are put in.
    ///
    /// Only the entry that `page` selects differs. For a 1 GiB page it is
    /// the leaf; for a smaller page it points to a level 2 map, in the
    /// frame `cursor` where there was none, that has the page put in.
    pub open spec fn inserted(
        &self,
        before: Option<PageMap>,
        cursor: usize,
        frame: Frame,
        page: Page,
        size: PageSize,
    ) -> bool {
        let index = index3(page.number() as u64) as int;
        let old_entry = PageMap::entries_of(before)[index];
        &&& self.entries().len() == ENTRIES
        &&& self.children().len() == ENTRIES
        &&& forall|i: int|
            0 <= i < ENTRIES && i != index ==> (#[trigger] self.entries()[i])
                == PageMap::entries_of(before)[i]
        &&& forall|i: int|
            0 <= i < ENTRIES && i != index ==> (#[trigger] self.children()[i]) == PageMap::child_of(
                before,
                i,
            )
        &&& if size !is OneGb {
            &&& self.entries()[index] == if entry_kind(old_entry) is NotPresent {
                frame_entry(cursor as u64)
            } else {
                old_entry
            }
            &&& self.children()[index] is Some
            &&& self.children()[index].unwrap().inserted(
                PageMap::child_of(before, index),
                if entry_kind(old_entry) is NotPresent {
                    (cursor + 1) as usize
                } else {
                    cursor
                },
                frame,
                page,
                size,
            )
        } else {
            &&& self.entries()[index] == leaf3_entry(frame.number() as u64)
            &&& self.children()[index] is None
        }
    }

    /// The frames that mapping a page of `size` at `page` takes for new
    /// page maps: one for each map on the way down that is not there.
    pub open spec fn tables_needed(&self, page: Page, size: PageSize) -> int {
        let index = index3(page.number() as u64) as int;
        if size is OneGb {
            0
        } else if entry_kind(self.entries()[index]) is NotPresent {
            if size is FourKb {
                2
            } else {
                1
            }
        } else {
            self.children()[index].unwrap().tables_needed(page, size)
        }
    }

    /// No address in a page that can be mapped is sent anywhere.
    pub proof fn lemma_free_page_unmapped(&self, page: Page, size: PageSize, address: u64)
        requires
            self.wf(),
            !self.collides(page, size),
            covers3(page.number() as u64, size, address >> 12),
        ensures
            self.translate(address) is None,
    {
        let index = index3(page.number() as u64) as int;
        lemma_index_bounds(page.number() as u64);
        if entry_kind(self.entries()[index]) is Table && size !is OneGb {
            self.children()[index].unwrap().lemma_free_page_unmapped(page, size, address);
        }
    }

    /// The map as it stands in a frame that was just filled with zeros.
    pub fn new_in_place() -> (result: Self)
        ensures
            result.wf(),
            result.entries() == zero_entries(),
            forall|i: int| 0 <= i < ENTRIES ==> (#[trigger] result.children()[i]) is None,
            forall|address: u64| (#[trigger] result.translate(address)) is None,
            forall|page: Page, size: PageSize| !(#[trigger] result.collides(page, size)),
    {
        let result = PageMap::default();
        proof {
            lemma_zero_entry();
            assert forall|address: u64| (#[trigger] result.translate(address)) is None by {
                lemma_index_bounds(address >> 12);
            }
            assert forall|page: Page, size: PageSize| !(#[trigger] result.collides(page, size)) by {
                lemma_index_bounds(page.number() as u64);
            }
        }
        result
    }

    /// The entry at `index`.
    pub fn entry(&self, index: usize) -> (result: GenericPageEntry)
        requires
            self.wf(),
            index < ENTRIES,
        ensures
            result.bits() == self.entries()[index as int],
    {
        self.table[index]
    }

    /// The level 2 map that the entry at `index` points to, if it points
    /// to one.
    pub fn get_map(&self, index: usize) -> (result: Option<&level2::PageMap>)
        requires
            self.wf(),
            index < ENTRIES,
        ensures
            match result {
                Some(map) => self.children()[index as int] == Some(*map),
                None => self.children()[index as int] is None,
            },
    {
        self.maps[index].as_ref()
    }

    /// Walks the map as the hardware does: where `address` is sent.
    pub fn walk(&self, address: u64) -> (result: Option<u64>)
        requires
            self.wf(),
        ensures
            result == self.translate(address),
    {
        let index = number_index3(address >> 12);
        let entry = self.table[index];
        match entry.as_enum() {
            PageEntryType::NotPresent(_) => None,
            PageEntryType::PageEntry(_) => {
                proof {
                    lemma_target_bounds(entry.entry, address);
                }
                Some((entry.entry & ADDRESS_MASK) + (address & 0x3fff_ffff))
            },
            PageEntryType::PageTableEntry(_) => match &self.maps[index] {
                Some(map) => map.walk(address),
                None => None,
            },
        }
    }

    /// Whether a page of `page_size` that holds `page` cannot be mapped.
    pub fn is_taken(&self, page: Page, page_size: PageSize) -> (result: bool)
        requires
            self.wf(),
        ensures
            result == self.collides(page, page_size),
    {
        let index = page_index3(page);
        match self.table[index].as_enum() {
            PageEntryType::NotPresent(_) => false,
            PageEntryType::PageEntry(_) => true,
            PageEntryType::PageTableEntry(_) => match page_size {
                PageSize::OneGb => true,
                _ => match &self.maps[index] {
                    Some(map) => map.is_taken(page, page_size),
                    None => true,
                },
            },
        }
    }

    /// Maps the page of `page_size` that holds `page` to `frame`. A 1 GiB
    /// page becomes a leaf in the entry that `page` selects; a smaller
    /// page goes into the level 2 map under that entry, which is made
    /// first, in a frame of `frame_allocator`, where the entry was not
    /// present.
    pub fn insert_page(
        &mut self,
        frame_allocator: &mut FrameAllocator,
        frame: Frame,
        page: Page,
        page_size: PageSize,
    )
        requires
            old(self).wf(),
            !old(self).collides(page, page_size),
            old(frame_allocator).cursor() + 2 <= usize::MAX,
        ensures
            final(self).wf(),
            final(self).inserted(
                Some(*old(self)),
                old(frame_allocator).cursor(),
                frame,
                page,
                page_size,
            ),
            final(frame_allocator).cursor() == old(frame_allocator).cursor() + old(
                self,
            ).tables_needed(page, page_size),
            forall|address: u64| #[trigger]
                final(self).translate(address) == if covers3(
                    page.number() as u64,
                    page_size,
                    address >> 12,
                ) {
                    Some(leaf_target(frame.number() as u64, page_size, address))
                } else {
                    old(self).translate(address)
                },
            forall|other: Page, other_size: PageSize| #[trigger]
                final(self).collides(other, other_size) == (old(self).collides(other, other_size)
                    || overlaps3(
                    page.number() as u64,
                    page_size,
                    other.number() as u64,
                    other_size,
                )),
    {
        let index = page_index3(page);
        let ghost before = *self;
        let ghost cursor = frame_allocator.cursor();
        match (page_size, self.table[index].as_enum()) {
            (PageSize::OneGb, PageEntryType::NotPresent(_)) => {
                self.table[index] = PageEntry::new(frame).into();
                proof {
                    lemma_leaf3_entry(frame.number() as u64);
                }
            },
            (PageSize::OneGb, _) => {
                assert(false);
            },
            (_, PageEntryType::NotPresent(_)) => {
                let table_frame = frame_allocator.get_frame();
                self.table[index] = PageTableEntry::new(table_frame).into();
                let mut map = level2::PageMap::new_in_place();
                proof {
                    lemma_frame_entry(table_frame.number() as u64);
                    lemma_zero_entry();
                    lemma_index_bounds(page.number() as u64);
                }
                map.insert_page(frame_allocator, frame, page, page_size);
                self.maps[index] = Some(map);
            },
            (_, PageEntryType::PageTableEntry(_)) => {
                let taken = self.maps[index].take();
                let mut map = taken.unwrap();
                map.insert_page(frame_allocator, frame, page, page_size);
                self.maps[index] = Some(map);
            },
            (_, PageEntryType::PageEntry(_)) => {
                assert(false);
            },
        }
        proof {
            assert(final(self).inserted(Some(before), cursor, frame, page, page_size));
            assert forall|address: u64| #[trigger]
                final(self).translate(address) == if covers3(
                    page.number() as u64,
                    page_size,
                    address >> 12,
                ) {
                    Some(leaf_target(frame.number() as u64, page_size, address))
                } else {
                    before.translate(address)
                } by {
                lemma_index_bounds(address >> 12);
            }
            assert forall|other: Page, other_size: PageSize| #[trigger]
                final(self).collides(other, other_size) == (before.collides(other, other_size)
                    || overlaps3(
                    page.number() as u64,
                    page_size,
                    other.number() as u64,
                    other_size,
                )) by {
                lemma_index_bounds(other.number() as u64);
            }
        }
    }
}

} // verus!
