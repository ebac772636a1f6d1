//! Strongly typed page and frame numbers, addresses and their differences.
//!
//! A `Frame` is a 4 KiB physical page number and a `Page` a 4 KiB virtual
//! page number; the address of either is its number times `PAGE_BYTES`.

use vstd::prelude::*;
use vstd::std_specs::convert::FromSpecImpl;
use vstd::std_specs::ops::AddSpecImpl;

verus! {

/// Bytes in a page or frame.
pub const PAGE_BYTES: usize = 0x1000;

/// A 4 KiB virtual page, named by its page number.
#[derive(Clone, Copy, PartialEq, Eq, Structural, Debug)]
pub struct Page {
    pub page: usize,
}

impl Page {
    /// The page number.
    pub open spec fn number(self) -> usize {
        self.page
    }

    pub fn new(page: usize) -> (result: Page)
        ensures
            result.number() == page,
    {
        Page { page }
    }
}

impl From<VirtualAddress> for Page {
    /// The page that holds the address.
    fn from(value: VirtualAddress) -> (result: Self)
        ensures
            result.number() == value.value() / PAGE_BYTES,
    {
        Page { page: value.address / PAGE_BYTES }
    }
}

impl FromSpecImpl<VirtualAddress> for Page {
    open spec fn obeys_from_spec() -> bool {
        true
    }

    open spec fn from_spec(v: VirtualAddress) -> Self {
        Page { page: v.address / PAGE_BYTES }
    }
}

impl From<Page> for usize {
    fn from(value: Page) -> (result: usize)
        ensures
            result == value.number(),
    {
        value.page
    }
}

impl FromSpecImpl<Page> for usize {
    open spec fn obeys_from_spec() -> bool {
        true
    }

    open spec fn from_spec(v: Page) -> usize {
        v.page
    }
}

impl core::ops::Add<PageOffset> for Page {
    type Output = Page;

    /// The page `rhs` pages further on, or back where `rhs` is negative.
    fn add(self, rhs: PageOffset) -> (result: Page)
        ensures
            result.number() == self.number() + rhs.value(),
    {
        if rhs.page_offset < 0 {
            Page { page: self.page - ((-(rhs.page_offset + 1)) as usize + 1) }
        } else {
            Page { page: self.page + rhs.page_offset as usize }
        }
    }
}

impl AddSpecImpl<PageOffset> for Page {
    open spec fn obeys_add_spec() -> bool {
        true
    }

    open spec fn add_req(self, rhs: PageOffset) -> bool {
        0 <= self.number() + rhs.value() <= usize::MAX
    }

    open spec fn add_spec(self, rhs: PageOffset) -> Page {
        Page { page: (self.page + rhs.page_offset) as usize }
    }
}

/// A signed number of pages.
#[derive(Clone, Copy, PartialEq, Eq, Structural, Debug)]
pub struct PageOffset {
    pub page_offset: isize,
}

/// The count of whole pages that cover `bytes` bytes, negative counts
/// rounding towards zero.
pub open spec fn pages_covering(bytes: int) -> int {
    let padded = bytes + PAGE_BYTES - 1;
    if padded >= 0 {
        padded / (PAGE_BYTES as int)
    } else {
        -((-padded) / (PAGE_BYTES as int))
    }
}

impl PageOffset {
    /// The signed count of pages.
    pub open spec fn value(self) -> isize {
        self.page_offset
    }

    pub fn new(page_offset: isize) -> (result: Self)
        ensures
            result.value() == page_offset,
    {
        PageOffset { page_offset }
    }

    /// The pages that a span of `value` bytes takes up, a started page
    /// counting as a whole one.
    pub fn from_address_offset(value: VirtualAddressOffset) -> (result: Self)
        requires
            value.value() + PAGE_BYTES - 1 <= isize::MAX,
        ensures
            result.value() == pages_covering(value.value() as int),
    {
        let padded: isize = value.address_offset + 0xfff;
        if padded >= 0 {
            PageOffset { page_offset: padded / 0x1000 }
        } else {
            let back: usize = (-(padded + 1)) as usize + 1;
            PageOffset { page_offset: -((back / 0x1000) as isize) }
        }
    }
}

impl From<PageOffset> for isize {
    fn from(value: PageOffset) -> (result: isize)
        ensures
            result == value.value(),
    {
        value.page_offset
    }
}

impl FromSpecImpl<PageOffset> for isize {
    open spec fn obeys_from_spec() -> bool {
        true
    }

    open spec fn from_spec(v: PageOffset) -> isize {
        v.page_offset
    }
}

impl core::ops::Add<PageOffset> for PageOffset {
    type Output = PageOffset;

    fn add(self, rhs: PageOffset) -> (result: PageOffset)
        ensures
            result.value() == self.value() + rhs.value(),
    {
        PageOffset { page_offset: self.page_offset + rhs.page_offset }
    }
}

impl AddSpecImpl<PageOffset> for PageOffset {
    open spec fn obeys_add_spec() -> bool {
        true
    }

    open spec fn add_req(self, rhs: PageOffset) -> bool {
        isize::MIN <= self.value() + rhs.value() <= isize::MAX
    }

    open spec fn add_spec(self, rhs: PageOffset) -> PageOffset {
        PageOffset { page_offset: (self.page_offset + rhs.page_offset) as isize }
    }
}

/// A 4 KiB physical page, named by its frame number.
#[derive(Clone, Copy, PartialEq, Eq, Structural, Debug)]
pub struct Frame {
    pub frame: usize,
}

impl Frame {
    /// The frame number.
    pub open spec fn number(self) -> usize {
        self.frame
    }

    pub fn new(frame: usize) -> (result: Frame)
        ensures
            result.number() == frame,
    {
        Frame { frame }
    }
}

impl From<PhysicalAddress> for Frame {
    /// The frame that holds the address.
    fn from(value: PhysicalAddress) -> (result: Self)
        ensures
            result.number() == value.value() / PAGE_BYTES,
    {
        Frame { frame: value.address / PAGE_BYTES }
    }
}

impl FromSpecImpl<PhysicalAddress> for Frame {
    open spec fn obeys_from_spec() -> bool {
        true
    }

    open spec fn from_spec(v: PhysicalAddress) -> Self {
        Frame { frame: v.address / PAGE_BYTES }
    }
}

impl From<Frame> for usize {
    fn from(value: Frame) -> (result: usize)
        ensures
            result == value.number(),
    {
        value.frame
    }
}

impl FromSpecImpl<Frame> for usize {
    open spec fn obeys_from_spec() -> bool {
        true
    }

    open spec fn from_spec(v: Frame) -> usize {
        v.frame
    }
}

impl core::ops::Add<FrameOffset> for Frame {
    type Output = Frame;

    /// The frame `rhs` frames further on, or back where `rhs` is negative.
    fn add(self, rhs: FrameOffset) -> (result: Frame)
        ensures
            result.number() == self.number() + rhs.value(),
    {
        if rhs.frame_offset < 0 {
            Frame { frame: self.frame - ((-(rhs.frame_offset + 1)) as usize + 1) }
        } else {
            Frame { frame: self.frame + rhs.frame_offset as usize }
        }
    }
}

impl AddSpecImpl<FrameOffset> for Frame {
    open spec fn obeys_add_spec() -> bool {
        true
    }

    open spec fn add_req(self, rhs: FrameOffset) -> bool {
        0 <= self.number() + rhs.value() <= usize::MAX
    }

    open spec fn add_spec(self, rhs: FrameOffset) -> Frame {
        Frame { frame: (self.frame + rhs.frame_offset) as usize }
    }
}

/// A signed number of frames.
#[derive(Clone, Copy, PartialEq, Eq, Structural, Debug)]
pub struct FrameOffset {
    pub frame_offset: isize,
}

impl FrameOffset {
    /// The signed count of frames.
    pub open spec fn value(self) -> isize {
        self.frame_offset
    }

    pub fn new(frame_offset: isize) -> (result: Self)
        ensures
            result.value() == frame_offset,
    {
        FrameOffset { frame_offset }
    }
}

/// A physical address in bytes.
#[derive(Clone, Copy, PartialEq, Eq, Structural, Debug)]
pub struct PhysicalAddress {
    pub address: usize,
}

impl PhysicalAddress {
    /// The address in bytes.
    pub open spec fn value(self) -> usize {
        self.address
    }

    pub fn new(address: usize) -> (result: Self)
        ensures
            result.value() == address,
    {
        PhysicalAddress { address }
    }

    /// The address as the number that a read-only pointer to it holds.
    pub fn as_ptr(&self) -> (result: usize)
        ensures
            result == self.value(),
    {
        self.address
    }

    /// The address as the number that a pointer for writing holds.
    pub fn as_mut_ptr(&mut self) -> (result: usize)
        ensures
            result == old(self).value(),
            *final(self) == *old(self),
    {
        self.address
    }

    /// The first address of `frame`.
    pub fn from_frame(frame: Frame) -> (result: Self)
        requires
            frame.number() * PAGE_BYTES <= usize::MAX,
        ensures
            result.value() == frame.number() * PAGE_BYTES,
    {
        PhysicalAddress { address: frame.frame * PAGE_BYTES }
    }
}

impl From<PhysicalAddress> for usize {
    fn from(value: PhysicalAddress) -> (result: usize)
        ensures
            result == value.value(),
    {
        value.address
    }
}

impl FromSpecImpl<PhysicalAddress> for usize {
    open spec fn obeys_from_spec() -> bool {
        true
    }

    open spec fn from_spec(v: PhysicalAddress) -> usize {
        v.address
    }
}

/// A virtual address in bytes.
#[derive(Clone, Copy, PartialEq, Eq, Structural, Debug)]
pub struct VirtualAddress {
    pub address: usize,
}

impl VirtualAddress {
    /// The address in bytes.
    pub open spec fn value(self) -> usize {
        self.address
    }

    pub fn new(address: usize) -> (result: Self)
        ensures
            result.value() == address,
    {
        VirtualAddress { address }
    }

    /// The address as the number that a read-only pointer to it holds.
    pub fn as_ptr(&self) -> (result: usize)
        ensures
            result == self.value(),
    {
        self.address
    }

    /// The address as the number that a pointer for writing holds.
    pub fn as_mut_ptr(&mut self) -> (result: usize)
        ensures
            result == old(self).value(),
            *final(self) == *old(self),
    {
        self.address
    }

    /// The first address of `page`.
    pub fn from_page(page: Page) -> (result: Self)
        requires
            page.number() * PAGE_BYTES <= usize::MAX,
        ensures
            result.value() == page.number() * PAGE_BYTES,
    {
        VirtualAddress { address: page.page * PAGE_BYTES }
    }
}

impl From<VirtualAddress> for usize {
    fn from(value: VirtualAddress) -> (result: usize)
        ensures
            result == value.value(),
    {
        value.address
    }
}

impl FromSpecImpl<VirtualAddress> for usize {
    open spec fn obeys_from_spec() -> bool {
        true
    }

    open spec fn from_spec(v: VirtualAddress) -> usize {
        v.address
    }
}

/// A signed number of bytes between two virtual addresses.
#[derive(Clone, Copy, PartialEq, Eq, Structural, Debug)]
pub struct VirtualAddressOffset {
    pub address_offset: isize,
}

impl VirtualAddressOffset {
    /// The signed count of bytes.
    pub open spec fn value(self) -> isize {
        self.address_offset
    }

    pub fn new(address_offset: isize) -> (result: Self)
        ensures
            result.value() == address_offset,
    {
        VirtualAddressOffset { address_offset }
    }
}

/// A signed number of bytes between two physical addresses.
#[derive(Clone, Copy, PartialEq, Eq, Structural, Debug)]
pub struct PhysicalAddressOffset {
    pub address_offset: isize,
}

/// An address in a page table's own numbering, which goes one to one
/// with physical addresses.
#[derive(Clone, Copy, PartialEq, Eq, Structural, Debug)]
pub struct PageTableAddress {
    pub address: usize,
}

/// A signed number of bytes between two page-table addresses.
#[derive(Clone, Copy, PartialEq, Eq, Structural, Debug)]
pub struct PageTableAddressOffset {
    pub address_offset: isize,
}

/// A page in a page table's own numbering, which goes one to one with
/// frames.
#[derive(Clone, Copy, PartialEq, Eq, Structural, Debug)]
pub struct PageTablePage {
    pub page: usize,
}

/// An address as the firmware counts it, which goes one to one with
/// physical addresses.
#[derive(Clone, Copy, PartialEq, Eq, Structural, Debug)]
pub struct UefiAddress {
    pub address: usize,
}

/// A signed number of bytes between two firmware addresses.
#[derive(Clone, Copy, PartialEq, Eq, Structural, Debug)]
pub struct UefiAddressOffset {
    pub address_offset: isize,
}

/// A page goes to the first address of its page and back unchanged:
/// where `address` is what `VirtualAddress::from_page` makes of `page`
/// and `back` what `Page::from` makes of `address`, `back` is `page`,
/// and its first address is `address` again.
pub proof fn lemma_page_address_round_trip(page: Page, address: VirtualAddress, back: Page)
    requires
        address.value() == page.number() * PAGE_BYTES,
        back.number() == address.value() / PAGE_BYTES,
    ensures
        back == page,
        back.number() * PAGE_BYTES == address.value(),
{
}

/// A frame goes to the first address of its frame and back unchanged.
pub proof fn lemma_frame_address_round_trip(frame: Frame, address: PhysicalAddress, back: Frame)
    requires
        address.value() == frame.number() * PAGE_BYTES,
        back.number() == address.value() / PAGE_BYTES,
    ensures
        back == frame,
        back.number() * PAGE_BYTES == address.value(),
{
}

} // verus!
