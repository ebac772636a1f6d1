//! The page maps of level 1, whose entries map 4 KiB pages.

use vstd::prelude::*;
use vstd::std_specs::convert::FromSpecImpl;
use crate::mem::{Frame, Page};
use crate::page_table::encoding::{
    covers1, entry_address, entry_present, frame_entry, index1, leaf_target, lemma_compose_entry,
    lemma_frame_entry, lemma_index_bounds, lemma_target_bounds, lemma_zero_entry, number_index1,
    page_index1, zero_entries, ADDRESS_MASK, ENTRIES,
};
use crate::page_table::{PageEntryBuilder, PageSize};

verus! {

/// One entry of a level 1 map, as the hardware reads it.
#[derive(Clone, Copy, PartialEq, Eq, Structural, Debug)]
pub struct GenericPageEntry {
    entry: u64,
}

/// An entry of a level 1 map, told apart by its present bit.
#[derive(Clone, Copy, PartialEq, Eq, Structural, Debug)]
pub enum PageEntryType {
    NotPresent(NotPresent),
    PageEntry(PageEntry),
}

/// An entry through which nothing is mapped.
#[derive(Clone, Copy, PartialEq, Eq, Structural, Debug)]
pub struct NotPresent {
    entry: u64,
}

/// The leaf of a 4 KiB page.
#[derive(Clone, Copy, PartialEq, Eq, Structural, Debug)]
pub struct PageEntry {
    entry: u64,
}

impl NotPresent {
    /// The 64 bits of the entry.
    pub closed spec fn bits(self) -> u64 {
        self.entry
    }

    /// The 64 bits of the entry.
    pub fn to_bits(&self) -> (result: u64)
        ensures
            result == self.bits(),
    {
        self.entry
    }
}

impl PageEntry {
    /// The 64 bits of the entry.
    pub closed spec fn bits(self) -> u64 {
        self.entry
    }

    /// The 64 bits of the entry.
    pub fn to_bits(&self) -> (result: u64)
        ensures
            result == self.bits(),
    {
        self.entry
    }

    /// The present, writable leaf that maps a page to `frame`.
    pub fn new(frame: Frame) -> (result: Self)
        ensures
            result.bits() == frame_entry(frame.number() as u64),
    {
        let mut entry: u64 = PageEntryBuilder::writable().to_entry();
        entry |= 0x1;
        let frame_number: usize = frame.into();
        let address: u64 = (frame_number as u64 & 0xff_ffff_ffff) << 12;
        entry |= address;
        proof {
            lemma_compose_entry(address);
        }
        PageEntry { entry }
    }
}

impl From<PageEntry> for GenericPageEntry {
    fn from(value: PageEntry) -> (result: Self)
        ensures
            result.bits() == value.bits(),
    {
        GenericPageEntry { entry: value.entry }
    }
}

impl FromSpecImpl<PageEntry> for GenericPageEntry {
    open spec fn obeys_from_spec() -> bool {
        true
    }

    closed spec fn from_spec(v: PageEntry) -> Self {
        GenericPageEntry { entry: v.entry }
    }
}

impl Default for GenericPageEntry {
    /// The entry of all zeros, which is not present.
    fn default() -> (result: Self)
        ensures
            result.bits() == 0,
    {
        GenericPageEntry { entry: 0 }
    }
}

impl GenericPageEntry {
    /// The 64 bits of the entry.
    pub closed spec fn bits(self) -> u64 {
        self.entry
    }

    /// The entry as the variant that its present bit selects, with its
    /// bits unchanged.
    pub fn as_enum(self) -> (result: PageEntryType)
        ensures
            match result {
                PageEntryType::NotPresent(inner) => !entry_present(self.bits()) && inner.bits()
                    == self.bits(),
                PageEntryType::PageEntry(inner) => entry_present(self.bits()) && inner.bits()
                    == self.bits(),
            },
    {
        if self.present() {
            PageEntryType::PageEntry(PageEntry { entry: self.entry })
        } else {
            PageEntryType::NotPresent(NotPresent { entry: self.entry })
        }
    }

    pub fn present(&self) -> (result: bool)
        ensures
            result == entry_present(self.bits()),
    {
        (self.entry & 0x1) == 0x1
    }

    /// The 64 bits of the entry.
    pub fn to_bits(&self) -> (result: u64)
        ensures
            result == self.bits(),
    {
        self.entry
    }
}

/// A level 1 page map: 512 entries, each not present or the leaf of a
/// 4 KiB page.
pub struct PageMap {
    table: Vec<GenericPageEntry>,
}

impl Default for PageMap {
    /// A map in which no entry is present.
    fn default() -> (result: Self)
        ensures
            result.wf(),
            result.entries() == zero_entries(),
    {
        let mut table: Vec<GenericPageEntry> = Vec::new();
        while table.len() < ENTRIES
            invariant
                table.len() <= ENTRIES,
                forall|i: int| 0 <= i < table.len() ==> (#[trigger] table[i]).entry == 0,
            decreases ENTRIES - table.len(),
        {
            table.push(GenericPageEntry::default());
        }
        let result = PageMap { table };
        assert(result.entries() =~= zero_entries());
        result
    }
}

impl PageMap {
    /// The entries of the map, each as its 64 bits.
    pub closed spec fn entries(&self) -> Seq<u64> {
        Seq::new(self.table@.len(), |i: int| self.table@[i].entry)
    }

    /// The entries of `map`, or those of a map filled with zeros where
    /// there is none.
    pub open spec fn entries_of(map: Option<PageMap>) -> Seq<u64> {
        match map {
            Some(map) => map.entries(),
            None => zero_entries(),
        }
    }

    /// Whether this map is `before`, or a map of zeros where there was
    /// none, with the leaf for `frame` put in the entry that `page` selects.
    pub open spec fn inserted(&self, before: Option<PageMap>, frame: Frame, page: Page) -> bool {
        self.entries() == PageMap::entries_of(before).update(
            index1(page.number() as u64) as int,
            frame_entry(frame.number() as u64),
        )
    }

    /// The map has its 512 entries.
    pub open spec fn wf(&self) -> bool {
        self.entries().len() == ENTRIES
    }

    /// Where the map sends `address`: to the frame that the selected
    /// entry names, at the same offset in the page, where that entry is
    /// present.
    pub open spec fn translate(&self, address: u64) -> Option<u64> {
        let entry = self.entries()[index1(address >> 12) as int];
        if entry_present(entry) {
            Some((entry_address(entry) + (address & 0xfff)) as u64)
        } else {
            None
        }
    }

    /// Whether the entry that `page` selects is taken.
    pub open spec fn collides(&self, page: Page) -> bool {
        entry_present(self.entries()[index1(page.number() as u64) as int])
    }

    /// No address in a page whose entry is free is sent anywhere.
    pub proof fn lemma_free_page_unmapped(&self, page: Page, address: u64)
        requires
            !self.collides(page),
            covers1(page.number() as u64, address >> 12),
        ensures
            self.translate(address) is None,
    {
    }

    /// The map as it stands in a frame that was just filled with zeros.
    pub fn new_in_place() -> (result: Self)
        ensures
            result.wf(),
            result.entries() == zero_entries(),
            forall|address: u64| (#[trigger] result.translate(address)) is None,
            forall|page: Page| !(#[trigger] result.collides(page)),
    {
        let result = PageMap::default();
        proof {
            lemma_zero_entry();
            assert forall|address: u64| (#[trigger] result.translate(address)) is None by {
                lemma_index_bounds(address >> 12);
            }
            assert forall|page: Page| !(#[trigger] result.collides(page)) by {
                lemma_index_bounds(page.number() as u64);
            }
        }
        result
    }

    /// The entry at `index`.
    pub fn entry(&self, index: usize) -> (result: GenericPageEntry)
        requires
            self.wf(),
            index < ENTRIES,
        ensures
            result.bits() == self.entries()[index as int],
    {
        self.table[index]
    }

    /// Walks the map as the hardware does: where `address` is sent.
    pub fn walk(&self, address: u64) -> (result: Option<u64>)
        requires
            self.wf(),
        ensures
            result == self.translate(address),
    {
        let entry = self.table[number_index1(address >> 12)];
        if entry.present() {
            proof {
                lemma_target_bounds(entry.entry, address);
            }
            Some((entry.entry & ADDRESS_MASK) + (address & 0xfff))
        } else {
            None
        }
    }

    /// Whether the entry that `page` selects is taken, so that a page
    /// cannot be mapped there.
    pub fn is_taken(&self, page: Page) -> (result: bool)
        requires
            self.wf(),
        ensures
            result == self.collides(page),
    {
        self.table[page_index1(page)].present()
    }

    /// Maps the 4 KiB page `page` to `frame`, in the entry that the page
    /// selects, which must be free.
    pub fn insert_page(&mut self, frame: Frame, page: Page, page_size: PageSize)
        requires
            old(self).wf(),
            page_size is FourKb,
            !old(self).collides(page),
        ensures
            final(self).wf(),
            final(self).inserted(Some(*old(self)), frame, page),
            forall|address: u64| #[trigger]
                final(self).translate(address) == if covers1(page.number() as u64, address >> 12) {
                    Some(leaf_target(frame.number() as u64, PageSize::FourKb, address))
                } else {
                    old(self).translate(address)
                },
            forall|other: Page| #[trigger]
                final(self).collides(other) == (old(self).collides(other) || covers1(
                    page.number() as u64,
                    other.number() as u64,
                )),
    {
        let index = page_index1(page);
        match self.table[index].as_enum() {
            PageEntryType::NotPresent(_) => {
                self.table[index] = PageEntry::new(frame).into();
            },
            PageEntryType::PageEntry(_) => {
                assert(false);
            },
        }
        proof {
            lemma_frame_entry(frame.number() as u64);
            assert(final(self).entries() =~= old(self).entries().update(
                index1(page.number() as u64) as int,
                frame_entry(frame.number() as u64),
            ));
            assert forall|address: u64| #[trigger]
                final(self).translate(address) == if covers1(page.number() as u64, address >> 12) {
                    Some(leaf_target(frame.number() as u64, PageSize::FourKb, address))
                } else {
                    old(self).translate(address)
                } by {
                lemma_index_bounds(address >> 12);
            }
            assert forall|other: Page| #[trigger]
                final(self).collides(other) == (old(self).collides(other) || covers1(
                    page.number() as u64,
                    other.number() as u64,
                )) by {
                lemma_index_bounds(other.number() as u64);
            }
        }
    }
}

} // verus!
