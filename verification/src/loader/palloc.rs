//! The loader's page allocator: page numbers in rising order, from zero.

use vstd::prelude::*;
use crate::mem::Page;

verus! {

/// Hands out page numbers in rising order and maps nothing.
pub struct PageAllocator {
    next_page: usize,
}

impl PageAllocator {
    /// The number of the page that the next request returns.
    pub closed spec fn cursor(&self) -> usize {
        self.next_page
    }

    /// An allocator that starts at page 0.
    pub fn new() -> (result: Self)
        ensures
            result.cursor() == 0,
    {
        PageAllocator { next_page: 0 }
    }

    /// One page: the one at the cursor, which moves on by one.
    pub fn get_page(&mut self) -> (result: Page)
        requires
            old(self).cursor() < usize::MAX,
        ensures
            result.number() == old(self).cursor(),
            final(self).cursor() == old(self).cursor() + 1,
    {
        let result = Page::new(self.next_page);
        self.next_page += 1;
        result
    }

    /// The first of `num_pages` pages in a row, which start at the
    /// cursor; the cursor moves past all of them.
    pub fn get_multiple_pages(&mut self, num_pages: usize) -> (result: Page)
        requires
            old(self).cursor() + num_pages <= usize::MAX,
        ensures
            result.number() == old(self).cursor(),
            final(self).cursor() == old(self).cursor() + num_pages,
    {
        let result = Page::new(self.next_page);
        self.next_page += num_pages;
        result
    }
}

} // verus!
