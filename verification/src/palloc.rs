//! The kernel's page allocator: pages of virtual memory in rising order,
//! each backed by a new frame.

use vstd::prelude::*;
use crate::frame_allocator::FrameAllocator;
use crate::mem::{Frame, Page, PAGE_BYTES};
use crate::page_table::{in_the_way, PageSize, PageTable};

verus! {

/// The number of the first page that the allocator hands out.
pub const FIRST_PAGE: usize = 0x81_0000_0;

/// The bytes between two elements of a `PallocArray`.
pub const PAGE_SIZE: usize = 1 << 12;

/// Hands out pages in rising order and never takes one back. Each page
/// is mapped to a frame before it is handed out.
pub struct PageAllocator {
    next_page: usize,
}

/// A page that was handed out.
pub struct OwnedPage {
    page: Page,
}

/// A run of pages that was handed out.
pub struct OwnedPages {
    page: Page,
    len: usize,
}

impl OwnedPage {
    /// The page.
    pub closed spec fn view(&self) -> Page {
        self.page
    }

    /// The page.
    pub fn page(&self) -> (result: Page)
        ensures
            result == self@,
    {
        self.page
    }
}

impl OwnedPages {
    /// The first page of the run.
    pub closed spec fn first(&self) -> Page {
        self.page
    }

    /// The number of pages in the run.
    pub closed spec fn count(&self) -> usize {
        self.len
    }

    /// The run as the address of its first page and the number of its
    /// pages.
    pub fn into_unique(self) -> (result: (u64, usize))
        requires
            self.first().number() * PAGE_BYTES <= u64::MAX,
        ensures
            result.0 == self.first().number() * PAGE_BYTES,
            result.1 == self.count(),
    {
        let number: usize = self.page.into();
        ((number as u64) * (PAGE_BYTES as u64), self.len)
    }
}

/// An array whose elements stand one page apart, the first at the start
/// of a run of pages. The array is made empty and filled element by
/// element.
pub struct PallocArray<T> {
    ptr: u64,
    len: usize,
    items: Vec<T>,
}

/// The addresses of the elements of a `PallocArray`, one after the
/// other.
pub struct IterMut {
    ptr: u64,
    end: u64,
}

impl IterMut {
    /// The address that comes next.
    pub closed spec fn position(&self) -> u64 {
        self.ptr
    }

    /// The address at which the elements end.
    pub closed spec fn limit(&self) -> u64 {
        self.end
    }

    /// The address of the next element, or nothing when the end is
    /// reached.
    pub fn next(&mut self) -> (result: Option<u64>)
        requires
            old(self).position() < old(self).limit() ==> old(self).position() + PAGE_SIZE
                <= u64::MAX,
        ensures
            final(self).limit() == old(self).limit(),
            old(self).position() >= old(self).limit() ==> result is None && final(self).position()
                == old(self).position(),
            old(self).position() < old(self).limit() ==> result == Some(old(self).position())
                && final(self).position() == old(self).position() + PAGE_SIZE,
    {
        if self.ptr >= self.end {
            None
        } else {
            let result = Some(self.ptr);
            self.ptr = self.ptr + PAGE_SIZE as u64;
            result
        }
    }
}

impl<T> PallocArray<T> {
    /// The address of the first element.
    pub closed spec fn base(&self) -> u64 {
        self.ptr
    }

    /// The number of elements that the array has room for: one for each
    /// of its pages.
    pub closed spec fn capacity(&self) -> usize {
        self.len
    }

    /// The elements that the array holds so far.
    pub closed spec fn view(&self) -> Seq<T> {
        self.items@
    }

    /// The array holds no more elements than it has room for.
    pub open spec fn wf(&self) -> bool {
        self@.len() <= self.capacity()
    }

    /// The address of the element at `index`.
    pub open spec fn address_of(&self, index: int) -> int {
        self.base() + PAGE_SIZE * index
    }

    /// An array over the run `pages`, with no element yet.
    pub fn new(pages: OwnedPages) -> (result: PallocArray<T>)
        requires
            pages.first().number() * PAGE_BYTES <= u64::MAX,
        ensures
            result.wf(),
            result.base() == pages.first().number() * PAGE_BYTES,
            result.capacity() == pages.count(),
            result@ == Seq::<T>::empty(),
    {
        let (ptr, len) = pages.into_unique();
        PallocArray { ptr, len, items: Vec::new() }
    }

    /// The number of elements that the array has room for.
    pub fn len(&self) -> (result: usize)
        ensures
            result == self.capacity(),
    {
        self.len
    }

    /// The number of elements that the array holds so far.
    pub fn count(&self) -> (result: usize)
        ensures
            result == self@.len(),
    {
        self.items.len()
    }

    /// The number of elements fits the machine's word.
    pub proof fn lemma_len(&self)
        ensures
            self@.len() <= usize::MAX,
    {
        assert(self.items.len() == self.items@.len());
    }

    /// Puts `value` behind the elements of an array that has room.
    pub fn push(&mut self, value: T)
        requires
            old(self).wf(),
            old(self)@.len() < old(self).capacity(),
        ensures
            final(self).wf(),
            final(self).base() == old(self).base(),
            final(self).capacity() == old(self).capacity(),
            final(self)@ == old(self)@.push(value),
    {
        self.items.push(value);
    }

    /// The addresses of the array's elements, from the first on.
    pub fn iter_mut(&mut self) -> (result: IterMut)
        requires
            old(self).base() + PAGE_SIZE * old(self).capacity() <= u64::MAX,
        ensures
            *final(self) == *old(self),
            result.position() == old(self).base(),
            result.limit() == old(self).base() + PAGE_SIZE * old(self).capacity(),
    {
        IterMut { ptr: self.ptr, end: self.ptr + (PAGE_SIZE as u64) * (self.len as u64) }
    }

    /// The element at `index`.
    pub fn index(&self, index: usize) -> (result: &T)
        requires
            index < self@.len(),
        ensures
            *result == self@[index as int],
    {
        &self.items[index]
    }

    /// The element at `index`, to be changed in place.
    pub fn index_mut(&mut self, index: usize) -> (result: &mut T)
        requires
            index < old(self)@.len(),
        ensures
            *result == old(self)@[index as int],
            final(self)@ == old(self)@.update(index as int, *final(result)),
            final(self).base() == old(self).base(),
            final(self).capacity() == old(self).capacity(),
    {
        &mut self.items[index]
    }
}

/// An array of `len` elements in new pages, each element made by `new`.
pub fn get_contiguous_array<T, F: Fn() -> T>(
    len: usize,
    new: F,
    page_allocator: &mut PageAllocator,
    frame_allocator: &mut FrameAllocator,
    page_table: &mut PageTable,
) -> (result: PallocArray<T>)
    requires
        new.requires(()),
        len <= isize::MAX,
        old(page_allocator).cursor() + len <= 0x10_0000_0000,
        old(page_allocator).cursor() + len <= usize::MAX,
        old(frame_allocator).cursor() + 4 * len <= 0x100_0000_0000,
        old(frame_allocator).cursor() + 4 * len <= usize::MAX,
        old(page_table).wf(),
        forall|page: Page|
            old(page_allocator).cursor() <= page.number() < old(page_allocator).cursor() + len
                ==> !(#[trigger] old(page_table).collides(page, PageSize::FourKb)),
    ensures
        result.wf(),
        result.base() == old(page_allocator).cursor() * PAGE_BYTES,
        result.capacity() == len,
        result@.len() == len,
        forall|i: int| 0 <= i < len ==> new.ensures((), #[trigger] result@[i]),
        final(page_allocator).cursor() == old(page_allocator).cursor() + len,
        final(page_table).wf(),
        final(page_table).root_address() == old(page_table).root_address(),
        old(frame_allocator).cursor() + len <= final(frame_allocator).cursor() <= old(
            frame_allocator,
        ).cursor() + 4 * len,
        forall|address: u64|
            address < 0x1_0000_0000_0000 ==> #[trigger] final(page_table).translate(address)
                == if old(page_allocator).cursor() <= address / 0x1000 < old(
                page_allocator,
            ).cursor() + len {
                Some(
                    ((old(frame_allocator).cursor() + (address / 0x1000 - old(
                        page_allocator,
                    ).cursor())) * 0x1000 + address % 0x1000) as u64,
                )
            } else {
                old(page_table).translate(address)
            },
{
    let pages = page_allocator.get_multiple_pages(len, frame_allocator, page_table);
    let mut result: PallocArray<T> = PallocArray::new(pages);
    let mut filled: usize = 0;
    while filled < len
        invariant
            filled <= len,
            new.requires(()),
            result.wf(),
            result.base() == old(page_allocator).cursor() * PAGE_BYTES,
            result.capacity() == len,
            result@.len() == filled,
            forall|i: int| 0 <= i < filled ==> new.ensures((), #[trigger] result@[i]),
        decreases len - filled,
    {
        let value = new();
        result.push(value);
        filled += 1;
    }
    result
}

impl PageAllocator {
    /// The number of the page that the next request returns.
    pub closed spec fn cursor(&self) -> usize {
        self.next_page
    }

    /// An allocator that has handed out nothing yet.
    pub fn new() -> (result: Self)
        ensures
            result.cursor() == FIRST_PAGE,
    {
        PageAllocator { next_page: FIRST_PAGE }
    }

    /// One page: the one at the cursor, mapped to the next frame of
    /// `frame_allocator`.
    pub fn get_page(
        &mut self,
        frame_allocator: &mut FrameAllocator,
        page_table: &mut PageTable,
    ) -> (result: OwnedPage)
        requires
            old(self).cursor() < usize::MAX,
            old(page_table).wf(),
            !old(page_table).collides(Page { page: old(self).cursor() }, PageSize::FourKb),
            old(frame_allocator).cursor() + 4 <= usize::MAX,
        ensures
            result@ == (Page { page: old(self).cursor() }),
            final(self).cursor() == old(self).cursor() + 1,
            final(page_table).wf(),
            final(page_table).root_address() == old(page_table).root_address(),
            final(page_table).mapped(
                old(page_table),
                Frame { frame: old(frame_allocator).cursor() },
                result@,
                PageSize::FourKb,
            ),
            final(frame_allocator).cursor() == old(frame_allocator).cursor() + 1 + old(
                page_table,
            ).tables_needed(result@, PageSize::FourKb),
    {
        let frame = frame_allocator.get_frame();
        let page = Page::new(self.next_page);
        page_table.insert_page(frame_allocator, frame, page, PageSize::FourKb);
        self.next_page += 1;
        OwnedPage { page }
    }

    /// A run of `num_pages` pages from the cursor on, mapped to as many
    /// frames in a row, which are taken from `frame_allocator` before
    /// any frame for a page map is.
    pub fn get_multiple_pages(
        &mut self,
        num_pages: usize,
        frame_allocator: &mut FrameAllocator,
        page_table: &mut PageTable,
    ) -> (result: OwnedPages)
        requires
            num_pages <= isize::MAX,
            old(self).cursor() + num_pages <= 0x10_0000_0000,
            old(self).cursor() + num_pages <= usize::MAX,
            old(frame_allocator).cursor() + 4 * num_pages <= 0x100_0000_0000,
            old(frame_allocator).cursor() + 4 * num_pages <= usize::MAX,
            old(page_table).wf(),
            forall|page: Page|
                old(self).cursor() <= page.number() < old(self).cursor() + num_pages ==> !(
                #[trigger] old(page_table).collides(page, PageSize::FourKb)),
        ensures
            result.first() == (Page { page: old(self).cursor() }),
            result.count() == num_pages,
            final(self).cursor() == old(self).cursor() + num_pages,
            final(page_table).wf(),
            final(page_table).root_address() == old(page_table).root_address(),
            old(frame_allocator).cursor() + num_pages <= final(frame_allocator).cursor() <= old(
                frame_allocator,
            ).cursor() + 4 * num_pages,
            forall|address: u64|
                address < 0x1_0000_0000_0000 ==> #[trigger] final(page_table).translate(address)
                    == if old(self).cursor() <= address / 0x1000 < old(self).cursor() + num_pages {
                    Some(
                        ((old(frame_allocator).cursor() + (address / 0x1000 - old(self).cursor()))
                            * 0x1000 + address % 0x1000) as u64,
                    )
                } else {
                    old(page_table).translate(address)
                },
            forall|other: Page, size: PageSize|
                other.number() < 0x10_0000_0000 ==> #[trigger] final(page_table).collides(
                    other,
                    size,
                ) == (old(page_table).collides(other, size) || in_the_way(
                    old(self).cursor() as int,
                    num_pages as int,
                    other.number() as int,
                    size,
                )),
    {
        let frame = frame_allocator.get_multiple_frames(num_pages);
        let page = Page::new(self.next_page);
        page_table.insert_pages(frame_allocator, frame, page, num_pages);
        self.next_page += num_pages;
        OwnedPages { page, len: num_pages }
    }
}

} // verus!
