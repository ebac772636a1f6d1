//! Page numbers and their differences, as the loader counts them.

use vstd::prelude::*;
use vstd::std_specs::convert::FromSpecImpl;
use vstd::std_specs::ops::AddSpecImpl;

verus! {

/// A signed number of pages.
#[derive(Clone, Copy, PartialEq, Eq, Structural, Debug)]
pub struct PageOffset {
    pub page_offset: isize,
}

impl PageOffset {
    pub fn new(page_offset: isize) -> (result: Self)
        ensures
            result.page_offset == page_offset,
    {
        PageOffset { page_offset }
    }

    /// This many pages and `by` more, or nothing if the sum is out of
    /// range.
    pub fn step(&self, by: &Self) -> (result: Option<Self>)
        ensures
            isize::MIN <= self.page_offset + by.page_offset <= isize::MAX ==> result == Some(
                PageOffset { page_offset: (self.page_offset + by.page_offset) as isize },
            ),
            !(isize::MIN <= self.page_offset + by.page_offset <= isize::MAX) ==> result is None,
    {
        match self.page_offset.checked_add(by.page_offset) {
            Some(page_offset) => Some(PageOffset { page_offset }),
            None => None,
        }
    }

    pub fn is_negative(&self) -> (result: bool)
        ensures
            result == (self.page_offset < 0),
    {
        self.page_offset < 0
    }

    /// One page more.
    pub fn add_one(&self) -> (result: Self)
        requires
            self.page_offset < isize::MAX,
        ensures
            result.page_offset == self.page_offset + 1,
    {
        PageOffset { page_offset: self.page_offset + 1 }
    }

    /// One page less.
    pub fn sub_one(&self) -> (result: Self)
        requires
            self.page_offset > isize::MIN,
        ensures
            result.page_offset == self.page_offset - 1,
    {
        PageOffset { page_offset: self.page_offset - 1 }
    }

    /// Sets this to one page, and returns that.
    pub fn replace_one(&mut self) -> (result: Self)
        ensures
            final(self).page_offset == 1,
            result.page_offset == 1,
    {
        self.page_offset = 1;
        *self
    }

    /// Sets this to no page, and returns that.
    pub fn replace_zero(&mut self) -> (result: Self)
        ensures
            final(self).page_offset == 0,
            result.page_offset == 0,
    {
        self.page_offset = 0;
        *self
    }
}

impl From<isize> for PageOffset {
    fn from(value: isize) -> (result: Self)
        ensures
            result.page_offset == value,
    {
        PageOffset::new(value)
    }
}

impl FromSpecImpl<isize> for PageOffset {
    open spec fn obeys_from_spec() -> bool {
        true
    }

    open spec fn from_spec(v: isize) -> Self {
        PageOffset { page_offset: v }
    }
}

impl From<PageOffset> for isize {
    fn from(value: PageOffset) -> (result: isize)
        ensures
            result == value.page_offset,
    {
        value.page_offset
    }
}

impl FromSpecImpl<PageOffset> for isize {
    open spec fn obeys_from_spec() -> bool {
        true
    }

    open spec fn from_spec(v: PageOffset) -> isize {
        v.page_offset
    }
}

impl core::ops::Add<PageOffset> for PageOffset {
    type Output = PageOffset;

    fn add(self, rhs: PageOffset) -> (result: PageOffset)
        ensures
            result.page_offset == self.page_offset + rhs.page_offset,
    {
        PageOffset { page_offset: self.page_offset + rhs.page_offset }
    }
}

impl AddSpecImpl<PageOffset> for PageOffset {
    open spec fn obeys_add_spec() -> bool {
        true
    }

    open spec fn add_req(self, rhs: PageOffset) -> bool {
        isize::MIN <= self.page_offset + rhs.page_offset <= isize::MAX
    }

    open spec fn add_spec(self, rhs: PageOffset) -> PageOffset {
        PageOffset { page_offset: (self.page_offset + rhs.page_offset) as isize }
    }
}

/// The number of a page.
#[derive(Clone, Copy, PartialEq, Eq, Structural, Debug)]
pub struct PageAddress {
    pub page_address: usize,
}

impl PageAddress {
    pub fn new(page_address: usize) -> (result: Self)
        ensures
            result.page_address == page_address,
    {
        PageAddress { page_address }
    }
}

impl From<usize> for PageAddress {
    fn from(value: usize) -> (result: Self)
        ensures
            result.page_address == value,
    {
        PageAddress::new(value)
    }
}

impl FromSpecImpl<usize> for PageAddress {
    open spec fn obeys_from_spec() -> bool {
        true
    }

    open spec fn from_spec(v: usize) -> Self {
        PageAddress { page_address: v }
    }
}

impl From<PageAddress> for usize {
    fn from(value: PageAddress) -> (result: usize)
        ensures
            result == value.page_address,
    {
        value.page_address
    }
}

impl FromSpecImpl<PageAddress> for usize {
    open spec fn obeys_from_spec() -> bool {
        true
    }

    open spec fn from_spec(v: PageAddress) -> usize {
        v.page_address
    }
}

impl core::ops::Add<PageOffset> for PageAddress {
    type Output = PageAddress;

    /// The page `rhs` pages further on, or back where `rhs` is negative.
    fn add(self, rhs: PageOffset) -> (result: PageAddress)
        ensures
            result.page_address == self.page_address + rhs.page_offset,
    {
        if rhs.page_offset < 0 {
            PageAddress { page_address: self.page_address - ((-(rhs.page_offset + 1)) as usize + 1) }
        } else {
            PageAddress { page_address: self.page_address + rhs.page_offset as usize }
        }
    }
}

impl AddSpecImpl<PageOffset> for PageAddress {
    open spec fn obeys_add_spec() -> bool {
        true
    }

    open spec fn add_req(self, rhs: PageOffset) -> bool {
        0 <= self.page_address + rhs.page_offset <= usize::MAX
    }

    open spec fn add_spec(self, rhs: PageOffset) -> PageAddress {
        PageAddress { page_address: (self.page_address + rhs.page_offset) as usize }
    }
}

} // verus!
