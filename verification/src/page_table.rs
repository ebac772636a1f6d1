//! The four-level page table: page maps of 512 entries each, from the
//! level 4 map at the root down to the level 1 maps of 4 KiB pages.

use vstd::prelude::*;
use crate::frame_allocator::FrameAllocator;
use crate::mem::{Frame, FrameOffset, Page, PageOffset, PhysicalAddress, PAGE_BYTES};
use crate::page_table::encoding::{
    covers4, index1, index2, index3, index4, leaf_target, lemma_frame_entry, lemma_index_bounds,
    lemma_leaf2_entry, lemma_leaf3_entry, lemma_zero_entry, overlaps4, zero_entries,
};

pub mod address;
pub mod encoding;
pub mod level1;
pub mod level2;
pub mod level3;
pub mod level4;
pub mod pages;

verus! {

/// The sizes of page that a leaf can map.
#[derive(Clone, Copy, PartialEq, Eq, Structural, Debug)]
pub enum PageSize {
    FourKb,
    TwoMb,
    OneGb,
}

impl PageSize {
    /// The bytes that a page of this size holds.
    pub open spec fn spec_bytes(self) -> usize {
        match self {
            PageSize::FourKb => 0x1000,
            PageSize::TwoMb => 0x20_0000,
            PageSize::OneGb => 0x4000_0000,
        }
    }

    /// The bytes that a page of this size holds.
    #[verifier::when_used_as_spec(spec_bytes)]
    pub fn bytes(self) -> (result: usize)
        ensures
            result == self.spec_bytes(),
    {
        match self {
            PageSize::FourKb => 0x1000,
            PageSize::TwoMb => 0x20_0000,
            PageSize::OneGb => 0x4000_0000,
        }
    }
}

impl PageSize {
    /// The 4 KiB pages that a page of this size is made of.
    pub open spec fn pages(self) -> int {
        match self {
            PageSize::FourKb => 1,
            PageSize::TwoMb => 0x200,
            PageSize::OneGb => 0x4_0000,
        }
    }
}

/// A page table: the frame of its level 4 map, and the maps that hang
/// from it.
pub struct PageTable {
    pml4: PhysicalAddress,
    root: level4::PageMap,
}

impl PageTable {
    /// The level 4 map.
    pub closed spec fn root(&self) -> level4::PageMap {
        self.root
    }

    /// The physical address of the level 4 map.
    pub closed spec fn root_address(&self) -> usize {
        self.pml4.value()
    }

    /// Every page map of the table is well formed.
    pub open spec fn wf(&self) -> bool {
        self.root().wf()
    }

    /// The physical address to which the table sends the virtual address
    /// `address`, if it maps it. Only the low 48 bits of `address` count.
    pub open spec fn translate(&self, address: u64) -> Option<u64> {
        self.root().translate(address)
    }

    /// Whether a page of `size` that holds `page` cannot be mapped,
    /// because a leaf or a page map stands in its way.
    pub open spec fn collides(&self, page: Page, size: PageSize) -> bool {
        self.root().collides(page, size)
    }

    /// The frames that mapping a page of `size` at `page` takes for new
    /// page maps.
    pub open spec fn tables_needed(&self, page: Page, size: PageSize) -> int {
        self.root().tables_needed(page, size)
    }

    /// Whether this table maps what `before` mapped and, besides, the
    /// page of `size` that holds `page`, to `frame`: the addresses in that
    /// page go to the leaf's target, all others where they went; and a
    /// page cannot be mapped if it could not before, or if it shares
    /// memory with the new one.
    pub open spec fn mapped(
        &self,
        before: &PageTable,
        frame: Frame,
        page: Page,
        size: PageSize,
    ) -> bool {
        &&& forall|address: u64| #[trigger]
            self.translate(address) == if covers4(page.number() as u64, size, address >> 12) {
                Some(leaf_target(frame.number() as u64, size, address))
            } else {
                before.translate(address)
            }
        &&& forall|other: Page, other_size: PageSize| #[trigger]
            self.collides(other, other_size) == (before.collides(other, other_size) || overlaps4(
                page.number() as u64,
                size,
                other.number() as u64,
                other_size,
            ))
    }

    /// An empty page table whose level 4 map stands in `frame`.
    pub fn new(frame: Frame) -> (result: PageTable)
        requires
            frame.number() * PAGE_BYTES <= usize::MAX,
        ensures
            result.wf(),
            result.root_address() == frame.number() * PAGE_BYTES,
            result.root().entries() == zero_entries(),
            forall|address: u64| (#[trigger] result.translate(address)) is None,
            forall|page: Page, size: PageSize| !(#[trigger] result.collides(page, size)),
            forall|page: Page, size: PageSize| #[trigger]
                result.tables_needed(page, size) == match size {
                    PageSize::FourKb => 3int,
                    PageSize::TwoMb => 2int,
                    PageSize::OneGb => 1int,
                },
    {
        let result = PageTable {
            pml4: PhysicalAddress::from_frame(frame),
            root: level4::PageMap::new(),
        };
        proof {
            lemma_zero_entry();
            assert forall|page: Page, size: PageSize| #[trigger]
                result.tables_needed(page, size) == match size {
                    PageSize::FourKb => 3int,
                    PageSize::TwoMb => 2int,
                    PageSize::OneGb => 1int,
                } by {
                lemma_index_bounds(page.number() as u64);
            }
        }
        result
    }

    /// Maps the page of `page_size` that holds `page` to `frame`, taking
    /// the frames of the page maps that are missing on the way down from
    /// `frame_allocator`, in the order in which they are met.
    pub fn insert_page(
        &mut self,
        frame_allocator: &mut FrameAllocator,
        frame: Frame,
        page: Page,
        page_size: PageSize,
    )
        requires
            old(self).wf(),
            !old(self).collides(page, page_size),
            old(frame_allocator).cursor() + 3 <= usize::MAX,
        ensures
            final(self).wf(),
            final(self).root_address() == old(self).root_address(),
            final(self).mapped(old(self), frame, page, page_size),
            final(self).root().inserted(
                &old(self).root(),
                old(frame_allocator).cursor(),
                frame,
                page,
                page_size,
            ),
            final(frame_allocator).cursor() == old(frame_allocator).cursor() + old(
                self,
            ).tables_needed(page, page_size),
    {
        self.root.insert_page(frame_allocator, frame, page, page_size);
    }

    /// Maps `count` 4 KiB pages in a row, from `page` on, to as many
    /// frames in a row, from `frame` on.
    pub fn insert_pages(
        &mut self,
        frame_allocator: &mut FrameAllocator,
        frame: Frame,
        page: Page,
        count: usize,
    )
        requires
            count <= isize::MAX,
            page.number() + count <= 0x10_0000_0000,
            page.number() + count <= usize::MAX,
            frame.number() + count <= 0x100_0000_0000,
            frame.number() + count <= usize::MAX,
            old(frame_allocator).cursor() + 3 * count <= usize::MAX,
            old(self).wf(),
            forall|other: Page|
                page.number() <= other.number() < page.number() + count ==> !(#[trigger] old(
                    self,
                ).collides(other, PageSize::FourKb)),
        ensures
            final(self).wf(),
            final(self).root_address() == old(self).root_address(),
            old(frame_allocator).cursor() <= final(frame_allocator).cursor() <= old(
                frame_allocator,
            ).cursor() + 3 * count,
            forall|address: u64|
                address < 0x1_0000_0000_0000 ==> #[trigger] final(self).translate(address)
                    == if page.number() <= address / 0x1000 < page.number() + count {
                    Some(
                        ((frame.number() + (address / 0x1000 - page.number())) * 0x1000 + address
                            % 0x1000) as u64,
                    )
                } else {
                    old(self).translate(address)
                },
            forall|other: Page, size: PageSize|
                other.number() < 0x10_0000_0000 ==> #[trigger] final(self).collides(other, size)
                    == (old(self).collides(other, size) || in_the_way(
                    page.number() as int,
                    count as int,
                    other.number() as int,
                    size,
                )),
    {
        let ghost first = page.number();
        let ghost first_frame = frame.number();
        let ghost before = *self;
        let ghost cursor = frame_allocator.cursor();
        let mut offset: usize = 0;
        while offset < count
            invariant
                offset <= count,
                count <= isize::MAX,
                page == (Page { page: first }),
                frame == (Frame { frame: first_frame }),
                first + count <= 0x10_0000_0000,
                first + count <= usize::MAX,
                first_frame + count <= 0x100_0000_0000,
                first_frame + count <= usize::MAX,
                cursor + 3 * count <= usize::MAX,
                cursor <= frame_allocator.cursor() <= cursor + 3 * offset,
                self.wf(),
                before.wf(),
                self.root_address() == before.root_address(),
                forall|p: Page|
                    first <= p.number() < first + count ==> !(#[trigger] before.collides(
                        p,
                        PageSize::FourKb,
                    )),
                forall|address: u64|
                    address < 0x1_0000_0000_0000 ==> #[trigger] self.translate(address)
                        == if first <= address / 0x1000 < first + offset {
                        Some(
                            ((first_frame + (address / 0x1000 - first)) * 0x1000 + address
                                % 0x1000) as u64,
                        )
                    } else {
                        before.translate(address)
                    },
                forall|other: Page, size: PageSize|
                    other.number() < 0x10_0000_0000 ==> #[trigger] self.collides(other, size) == (
                    before.collides(other, size) || in_the_way(
                        first as int,
                        offset as int,
                        other.number() as int,
                        size,
                    )),
            decreases count - offset,
        {
            let page_i = page + PageOffset::new(offset as isize);
            let frame_i = frame + FrameOffset::new(offset as isize);
            let ghost previous = *self;
            proof {
                assert(!before.collides(page_i, PageSize::FourKb));
                assert(!in_the_way(
                    first as int,
                    offset as int,
                    page_i.number() as int,
                    PageSize::FourKb,
                ));
                assert(!previous.collides(page_i, PageSize::FourKb));
            }
            self.insert_page(frame_allocator, frame_i, page_i, PageSize::FourKb);
            proof {
                assert forall|address: u64| address < 0x1_0000_0000_0000 implies #[trigger]
                    self.translate(address) == if first <= address / 0x1000 < first + offset + 1 {
                    Some(
                        ((first_frame + (address / 0x1000 - first)) * 0x1000 + address
                            % 0x1000) as u64,
                    )
                } else {
                    before.translate(address)
                } by {
                    lemma_covers(page_i.number() as u64, PageSize::FourKb, address);
                    lemma_leaf_target(frame_i.number() as u64, PageSize::FourKb, address);
                    assert(previous.translate(address) == if first <= address / 0x1000 < first
                        + offset {
                        Some(
                            ((first_frame + (address / 0x1000 - first)) * 0x1000 + address
                                % 0x1000) as u64,
                        )
                    } else {
                        before.translate(address)
                    });
                }
                assert forall|other: Page, size: PageSize|
                    other.number() < 0x10_0000_0000 implies #[trigger] self.collides(other, size)
                    == (before.collides(other, size) || in_the_way(
                    first as int,
                    offset as int + 1,
                    other.number() as int,
                    size,
                )) by {
                    lemma_overlaps(
                        page_i.number() as u64,
                        PageSize::FourKb,
                        other.number() as u64,
                        size,
                    );
                    assert(previous.collides(other, size) == (before.collides(other, size)
                        || in_the_way(first as int, offset as int, other.number() as int, size)));
                }
            }
            offset += 1;
        }
    }

    /// Whether a page of `page_size` that holds `page` cannot be mapped.
    pub fn is_taken(&self, page: Page, page_size: PageSize) -> (result: bool)
        requires
            self.wf(),
        ensures
            result == self.collides(page, page_size),
    {
        self.root.is_taken(page, page_size)
    }

    /// Whether one of the `count` 4 KiB pages from `page` on cannot be
    /// mapped.
    pub fn is_any_taken(&self, page: Page, count: usize) -> (result: bool)
        requires
            self.wf(),
            page.number() + count <= usize::MAX,
            count <= isize::MAX,
        ensures
            result == exists|other: Page|
                page.number() <= other.number() < page.number() + count && #[trigger] self.collides(
                    other,
                    PageSize::FourKb,
                ),
    {
        let mut offset: usize = 0;
        while offset < count
            invariant
                offset <= count,
                count <= isize::MAX,
                page.number() + count <= usize::MAX,
                self.wf(),
                forall|other: Page|
                    page.number() <= other.number() < page.number() + offset ==> !(
                    #[trigger] self.collides(other, PageSize::FourKb)),
            decreases count - offset,
        {
            let page_i = page + PageOffset::new(offset as isize);
            if self.is_taken(page_i, PageSize::FourKb) {
                return true;
            }
            offset += 1;
        }
        false
    }

    /// Walks the table as the hardware does: the physical address to
    /// which the virtual address `address` is sent, if it is mapped.
    pub fn walk(&self, address: u64) -> (result: Option<u64>)
        requires
            self.wf(),
        ensures
            result == self.translate(address),
    {
        self.root.walk(address)
    }

    /// The level 4 map.
    pub fn pml4(&self) -> (result: &level4::PageMap)
        ensures
            *result == self.root(),
    {
        &self.root
    }

    /// The value that the page-table base register takes to make this
    /// table the one in use: the address of the level 4 map.
    pub fn load(&self) -> (result: usize)
        ensures
            result == self.root_address(),
    {
        self.pml4.into()
    }

    /// The low 32 bits of the address of the level 4 map.
    pub fn physical_address(&self) -> (result: u32)
        ensures
            result == self.root_address() as int % 0x1_0000_0000,
    {
        let address: usize = self.pml4.into();
        ((address as u64) % 0x1_0000_0000) as u32
    }
}

/// The number of the first 4 KiB page or frame in the page or frame of
/// `size` that holds the one numbered `number`.
pub open spec fn base_of(number: int, size: PageSize) -> int {
    match size {
        PageSize::FourKb => number,
        PageSize::TwoMb => number / 0x200 * 0x200,
        PageSize::OneGb => number / 0x4_0000 * 0x4_0000,
    }
}

/// The offset of `address` in the page of `size` that holds it.
pub open spec fn offset_of(address: int, size: PageSize) -> int {
    match size {
        PageSize::FourKb => address % 0x1000,
        PageSize::TwoMb => address % 0x20_0000,
        PageSize::OneGb => address % 0x4000_0000,
    }
}

/// Whether the page of `size` that holds page number `other` has memory
/// in common with the `count` pages from page number `first` on.
pub open spec fn in_the_way(first: int, count: int, other: int, size: PageSize) -> bool {
    count > 0 && base_of(other, size) < first + count && first < base_of(other, size)
        + size.pages()
}

/// Whether the page of `size` that holds page number `page` and the page
/// of `other_size` that holds `other` have memory in common: both lie in
/// the same page of the larger size.
pub open spec fn share_memory(page: int, size: PageSize, other: int, other_size: PageSize) -> bool {
    let larger = if size.pages() >= other_size.pages() {
        size
    } else {
        other_size
    };
    base_of(page, larger) == base_of(other, larger)
}

/// Two page numbers of 36 bits select the same entries from level 4 down
/// to a level exactly if they agree in all bits but those below it.
pub proof fn lemma_same_path(page: u64, other: u64)
    requires
        page < 0x10_0000_0000,
        other < 0x10_0000_0000,
    ensures
        (index4(page) == index4(other) && index3(page) == index3(other)) <==> page / 0x4_0000
            == other / 0x4_0000,
        (index4(page) == index4(other) && index3(page) == index3(other) && index2(page) == index2(
            other,
        )) <==> page / 0x200 == other / 0x200,
        (index4(page) == index4(other) && index3(page) == index3(other) && index2(page) == index2(
            other,
        ) && index1(page) == index1(other)) <==> page == other,
{
    assert((((page >> 27) & 0x1ff) == ((other >> 27) & 0x1ff) && ((page >> 18) & 0x1ff) == ((other
        >> 18) & 0x1ff)) <==> page / 0x4_0000 == other / 0x4_0000) by (bit_vector)
        requires
            page < 0x10_0000_0000,
            other < 0x10_0000_0000,
    ;
    assert((((page >> 27) & 0x1ff) == ((other >> 27) & 0x1ff) && ((page >> 18) & 0x1ff) == ((other
        >> 18) & 0x1ff) && ((page >> 9) & 0x1ff) == ((other >> 9) & 0x1ff)) <==> page / 0x200
        == other / 0x200) by (bit_vector)
        requires
            page < 0x10_0000_0000,
            other < 0x10_0000_0000,
    ;
    assert((((page >> 27) & 0x1ff) == ((other >> 27) & 0x1ff) && ((page >> 18) & 0x1ff) == ((other
        >> 18) & 0x1ff) && ((page >> 9) & 0x1ff) == ((other >> 9) & 0x1ff) && (page & 0x1ff) == (
    other & 0x1ff)) <==> page == other) by (bit_vector)
        requires
            page < 0x10_0000_0000,
            other < 0x10_0000_0000,
    ;
}

/// For page numbers of 36 bits and addresses of 48, an address lies in
/// the page of a given size that holds `page` exactly if its own page
/// is within that page.
pub proof fn lemma_covers(page: u64, size: PageSize, address: u64)
    requires
        page < 0x10_0000_0000,
        address < 0x1_0000_0000_0000,
    ensures
        covers4(page, size, address >> 12) <==> base_of(address as int / 0x1000, size) == base_of(
            page as int,
            size,
        ),
{
    let number = address >> 12;
    assert(number == address / 0x1000 && number < 0x10_0000_0000) by (bit_vector)
        requires
            number == address >> 12,
            address < 0x1_0000_0000_0000,
    ;
    lemma_same_path(page, number);
}

/// For page numbers of 36 bits, two pages are in each other's way
/// exactly if they have memory in common.
pub proof fn lemma_overlaps(page: u64, size: PageSize, other: u64, other_size: PageSize)
    requires
        page < 0x10_0000_0000,
        other < 0x10_0000_0000,
    ensures
        overlaps4(page, size, other, other_size) <==> share_memory(
            page as int,
            size,
            other as int,
            other_size,
        ),
{
    lemma_same_path(page, other);
}

/// For a frame number of 40 bits, a leaf sends an address to the same
/// offset in the frames that it names: those of the frame of its size
/// that holds `frame`.
pub proof fn lemma_leaf_target(frame: u64, size: PageSize, address: u64)
    requires
        frame < 0x100_0000_0000,
    ensures
        leaf_target(frame, size, address) == base_of(frame as int, size) * 0x1000 + offset_of(
            address as int,
            size,
        ),
{
    lemma_frame_entry(frame);
    lemma_leaf2_entry(frame);
    lemma_leaf3_entry(frame);
    assert(address & 0xfff == address % 0x1000 && address & 0x1f_ffff == address % 0x20_0000
        && address & 0x3fff_ffff == address % 0x4000_0000) by (bit_vector);
}

/// Once a 4 KiB page is mapped to a frame, every address in the page is
/// sent to the same offset in the frame.
pub proof fn lemma_mapped_page_translates(
    before: PageTable,
    after: PageTable,
    frame: Frame,
    page: Page,
    offset: u64,
)
    requires
        after.mapped(&before, frame, page, PageSize::FourKb),
        page.number() < 0x10_0000_0000,
        frame.number() < 0x100_0000_0000,
        offset < 0x1000,
    ensures
        after.translate((page.number() * 0x1000 + offset) as u64) == Some(
            (frame.number() * 0x1000 + offset) as u64,
        ),
{
    let address = (page.number() * 0x1000 + offset) as u64;
    lemma_covers(page.number() as u64, PageSize::FourKb, address);
    lemma_leaf_target(frame.number() as u64, PageSize::FourKb, address);
}

/// Once a page of any size is mapped, every address in it is sent to the
/// same offset in the frames of that size among which the given frame is.
pub proof fn lemma_mapped_region_translates(
    before: PageTable,
    after: PageTable,
    frame: Frame,
    page: Page,
    size: PageSize,
    address: u64,
)
    requires
        after.mapped(&before, frame, page, size),
        page.number() < 0x10_0000_0000,
        frame.number() < 0x100_0000_0000,
        address < 0x1_0000_0000_0000,
        base_of(address as int / 0x1000, size) == base_of(page.number() as int, size),
    ensures
        after.translate(address) == Some(
            (base_of(frame.number() as int, size) * 0x1000 + offset_of(address as int, size)) as u64,
        ),
{
    lemma_covers(page.number() as u64, size, address);
    lemma_leaf_target(frame.number() as u64, size, address);
}

/// Mapping a further page leaves every address that was mapped where it
/// was sent.
pub proof fn lemma_mapping_keeps_translations(
    before: PageTable,
    after: PageTable,
    frame: Frame,
    page: Page,
    size: PageSize,
    address: u64,
)
    requires
        before.wf(),
        !before.collides(page, size),
        after.mapped(&before, frame, page, size),
        before.translate(address) is Some,
    ensures
        after.translate(address) == before.translate(address),
{
    if covers4(page.number() as u64, size, address >> 12) {
        before.root().lemma_free_page_unmapped(page, size, address);
    }
}

/// Once a page is mapped, no page that has memory in common with it can
/// be mapped: neither the same page again, nor one inside it, nor one
/// around it.
pub proof fn lemma_mapped_page_collides(
    before: PageTable,
    after: PageTable,
    frame: Frame,
    page: Page,
    size: PageSize,
    other: Page,
    other_size: PageSize,
)
    requires
        after.mapped(&before, frame, page, size),
        page.number() < 0x10_0000_0000,
        other.number() < 0x10_0000_0000,
        share_memory(page.number() as int, size, other.number() as int, other_size),
    ensures
        after.collides(other, other_size),
{
    lemma_overlaps(page.number() as u64, size, other.number() as u64, other_size);
}

/// Mapping a page takes nothing from a page that has no memory in common
/// with it: that one can be mapped afterwards exactly if it could before.
pub proof fn lemma_disjoint_page_unaffected(
    before: PageTable,
    after: PageTable,
    frame: Frame,
    page: Page,
    size: PageSize,
    other: Page,
    other_size: PageSize,
)
    requires
        after.mapped(&before, frame, page, size),
        page.number() < 0x10_0000_0000,
        other.number() < 0x10_0000_0000,
        !share_memory(page.number() as int, size, other.number() as int, other_size),
    ensures
        after.collides(other, other_size) == before.collides(other, other_size),
{
    lemma_overlaps(page.number() as u64, size, other.number() as u64, other_size);
}

/// Whether an entry allows writes.
#[derive(Clone, Copy, PartialEq, Eq, Structural, Debug)]
pub enum ReadWrite {
    ReadOnly,
    Writeable,
}

/// Whether an entry can be used from user mode.
#[derive(Clone, Copy, PartialEq, Eq, Structural, Debug)]
pub enum UserSupervisor {
    Supervisor,
    User,
}

/// The flags of a page-map entry, before the present bit and the address
/// are put in.
#[derive(Clone, Copy, PartialEq, Eq, Structural, Debug)]
pub struct PageEntryBuilder {
    pub read_write: ReadWrite,
    pub user_supervisor: UserSupervisor,
    pub page_level_write_through: bool,
    pub page_level_cache_disable: bool,
    pub accessed: bool,
}

/// One bit: 1 for `true`.
pub open spec fn bit(value: bool) -> u64 {
    if value {
        1
    } else {
        0
    }
}

impl Default for PageEntryBuilder {
    /// A read-only supervisor entry with every other flag clear.
    fn default() -> (result: Self)
        ensures
            result == (PageEntryBuilder {
                read_write: ReadWrite::ReadOnly,
                user_supervisor: UserSupervisor::Supervisor,
                page_level_write_through: false,
                page_level_cache_disable: false,
                accessed: false,
            }),
    {
        PageEntryBuilder {
            read_write: ReadWrite::ReadOnly,
            user_supervisor: UserSupervisor::Supervisor,
            page_level_write_through: false,
            page_level_cache_disable: false,
            accessed: false,
        }
    }
}

impl PageEntryBuilder {
    /// The flags as they stand in an entry: writable in bit 1, user in
    /// bit 2, write-through in bit 3, cache-disable in bit 4 and accessed
    /// in bit 5.
    pub open spec fn flags(self) -> u64 {
        (bit(self.read_write is Writeable) << 1) | (bit(self.user_supervisor is User) << 2) | (bit(
            self.page_level_write_through,
        ) << 3) | (bit(self.page_level_cache_disable) << 4) | (bit(self.accessed) << 5)
    }

    pub fn to_entry(self) -> (result: u64)
        ensures
            result == self.flags(),
    {
        let read_write: u64 = match self.read_write {
            ReadWrite::ReadOnly => 0,
            ReadWrite::Writeable => 1,
        };
        let user_supervisor: u64 = match self.user_supervisor {
            UserSupervisor::Supervisor => 0,
            UserSupervisor::User => 1,
        };
        let write_through: u64 = if self.page_level_write_through { 1 } else { 0 };
        let cache_disable: u64 = if self.page_level_cache_disable { 1 } else { 0 };
        let accessed: u64 = if self.accessed { 1 } else { 0 };
        (read_write << 1) | (user_supervisor << 2) | (write_through << 3) | (cache_disable << 4) | (
        accessed << 5)
    }

    /// The flags of the entries that the page table writes: writable, and
    /// nothing else set.
    pub fn writable() -> (result: Self)
        ensures
            result == (PageEntryBuilder {
                read_write: ReadWrite::Writeable,
                user_supervisor: UserSupervisor::Supervisor,
                page_level_write_through: false,
                page_level_cache_disable: false,
                accessed: false,
            }),
            result.flags() == 0x2,
    {
        let result = PageEntryBuilder { read_write: ReadWrite::Writeable, ..Default::default() };
        assert(result.flags() == 0x2) by {
            assert((1u64 << 1) | (0u64 << 2) | (0u64 << 3) | (0u64 << 4) | (0u64 << 5) == 0x2)
                by (bit_vector);
        }
        result
    }
}

} // verus!
