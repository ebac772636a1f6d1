//! Byte addresses and their differences, as the loader counts them.

use vstd::prelude::*;
use vstd::std_specs::convert::FromSpecImpl;
use vstd::std_specs::ops::AddSpecImpl;
use crate::page_table::pages::{PageAddress, PageOffset};

verus! {

/// A signed number of bytes between two addresses.
#[derive(Clone, Copy, PartialEq, Eq, Structural, Debug)]
pub struct AddressOffset {
    pub offset: isize,
}

impl AddressOffset {
    pub fn new(offset: isize) -> (result: Self)
        ensures
            result.offset == offset,
    {
        AddressOffset { offset }
    }
}

impl From<isize> for AddressOffset {
    fn from(value: isize) -> (result: Self)
        ensures
            result.offset == value,
    {
        AddressOffset { offset: value }
    }
}

impl FromSpecImpl<isize> for AddressOffset {
    open spec fn obeys_from_spec() -> bool {
        true
    }

    open spec fn from_spec(v: isize) -> Self {
        AddressOffset { offset: v }
    }
}

/// A virtual address in bytes.
#[derive(Clone, Copy, PartialEq, Eq, Structural, Debug)]
pub struct VirtualAddress {
    pub address: usize,
}

impl From<usize> for VirtualAddress {
    fn from(value: usize) -> (result: Self)
        ensures
            result.address == value,
    {
        VirtualAddress { address: value }
    }
}

impl FromSpecImpl<usize> for VirtualAddress {
    open spec fn obeys_from_spec() -> bool {
        true
    }

    open spec fn from_spec(v: usize) -> Self {
        VirtualAddress { address: v }
    }
}

impl core::ops::Add<AddressOffset> for VirtualAddress {
    type Output = VirtualAddress;

    /// The address `rhs` bytes further on, or back where `rhs` is
    /// negative.
    fn add(self, rhs: AddressOffset) -> (result: VirtualAddress)
        ensures
            result.address == self.address + rhs.offset,
    {
        if rhs.offset < 0 {
            VirtualAddress { address: self.address - ((-(rhs.offset + 1)) as usize + 1) }
        } else {
            VirtualAddress { address: self.address + rhs.offset as usize }
        }
    }
}

impl AddSpecImpl<AddressOffset> for VirtualAddress {
    open spec fn obeys_add_spec() -> bool {
        true
    }

    open spec fn add_req(self, rhs: AddressOffset) -> bool {
        0 <= self.address + rhs.offset <= usize::MAX
    }

    open spec fn add_spec(self, rhs: AddressOffset) -> VirtualAddress {
        VirtualAddress { address: (self.address + rhs.offset) as usize }
    }
}

/// A physical address in bytes.
#[derive(Clone, Copy, PartialEq, Eq, Structural, Debug)]
pub struct PhysicalAddress {
    pub address: usize,
}

impl PhysicalAddress {
    pub fn new(address: usize) -> (result: Self)
        ensures
            result.address == address,
    {
        PhysicalAddress { address }
    }

    /// The address as the number that a read-only pointer to it holds.
    pub fn as_ptr(&self) -> (result: usize)
        ensures
            result == self.address,
    {
        self.address
    }

    /// The address as the number that a pointer for writing holds.
    pub fn as_mut_ptr(&mut self) -> (result: usize)
        ensures
            result == old(self).address,
            *final(self) == *old(self),
    {
        self.address
    }

    /// The first address of the page numbered `value`.
    pub fn from_page_address(value: PageAddress) -> (result: Self)
        requires
            value.page_address * 0x1000 <= usize::MAX,
        ensures
            result.address == value.page_address * 0x1000,
    {
        PhysicalAddress { address: value.page_address * 0x1000 }
    }
}

impl From<usize> for PhysicalAddress {
    fn from(value: usize) -> (result: Self)
        ensures
            result.address == value,
    {
        PhysicalAddress { address: value }
    }
}

impl FromSpecImpl<usize> for PhysicalAddress {
    open spec fn obeys_from_spec() -> bool {
        true
    }

    open spec fn from_spec(v: usize) -> Self {
        PhysicalAddress { address: v }
    }
}

impl From<PhysicalAddress> for usize {
    fn from(value: PhysicalAddress) -> (result: usize)
        ensures
            result == value.address,
    {
        value.address
    }
}

impl FromSpecImpl<PhysicalAddress> for usize {
    open spec fn obeys_from_spec() -> bool {
        true
    }

    open spec fn from_spec(v: PhysicalAddress) -> usize {
        v.address
    }
}

impl core::ops::Add<AddressOffset> for PhysicalAddress {
    type Output = PhysicalAddress;

    /// The address `rhs` bytes further on, or back where `rhs` is
    /// negative.
    fn add(self, rhs: AddressOffset) -> (result: PhysicalAddress)
        ensures
            result.address == self.address + rhs.offset,
    {
        if rhs.offset < 0 {
            PhysicalAddress { address: self.address - ((-(rhs.offset + 1)) as usize + 1) }
        } else {
            PhysicalAddress { address: self.address + rhs.offset as usize }
        }
    }
}

impl AddSpecImpl<AddressOffset> for PhysicalAddress {
    open spec fn obeys_add_spec() -> bool {
        true
    }

    open spec fn add_req(self, rhs: AddressOffset) -> bool {
        0 <= self.address + rhs.offset <= usize::MAX
    }

    open spec fn add_spec(self, rhs: AddressOffset) -> PhysicalAddress {
        PhysicalAddress { address: (self.address + rhs.offset) as usize }
    }
}

/// The pages that `bytes` bytes from address 0 reach into: a started
/// page counts as a whole one.
pub open spec fn pages_up_to(bytes: int) -> int {
    (bytes + 0xfff) / 0x1000
}

impl PageAddress {
    /// The number of the first page at or after the virtual address
    /// `value`.
    pub fn from_virtual_address(value: VirtualAddress) -> (result: Self)
        requires
            value.address + 0xfff <= usize::MAX,
        ensures
            result.page_address == pages_up_to(value.address as int),
    {
        PageAddress::new((value.address + 0xfff) / 0x1000)
    }

    /// The number of the first page at or after the physical address
    /// `value`.
    pub fn from_physical_address(value: PhysicalAddress) -> (result: Self)
        requires
            value.address + 0xfff <= usize::MAX,
        ensures
            result.page_address == pages_up_to(value.address as int),
    {
        PageAddress::new((value.address + 0xfff) / 0x1000)
    }
}

impl PageOffset {
    /// The pages that a span of `value` bytes takes up, a started page
    /// counting as a whole one.
    pub fn from_address_offset(value: AddressOffset) -> (result: Self)
        requires
            value.offset + 0xfff <= isize::MAX,
        ensures
            result.page_offset == crate::mem::pages_covering(value.offset as int),
    {
        let padded: isize = value.offset + 0xfff;
        if padded >= 0 {
            PageOffset::new(padded / 0x1000)
        } else {
            let back: usize = (-(padded + 1)) as usize + 1;
            PageOffset::new(-((back / 0x1000) as isize))
        }
    }
}

impl AddressOffset {
    /// The bytes of `value` pages.
    pub fn from_page_offset(value: PageOffset) -> (result: Self)
        requires
            isize::MIN <= value.page_offset * 0x1000 <= isize::MAX,
        ensures
            result.offset == value.page_offset * 0x1000,
    {
        AddressOffset::new(value.page_offset * 0x1000)
    }
}

} // verus!
