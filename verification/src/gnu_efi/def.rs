//! The memory map that the firmware hands over.

use vstd::prelude::*;
use crate::mem::{PhysicalAddress, VirtualAddress};

verus! {

/// A handle of the firmware: a value that the firmware gave out and
/// takes back.
#[derive(Clone, Copy, PartialEq, Eq, Structural, Debug)]
pub struct Handle {
    pub handle: usize,
}

/// What a region of memory is used for.
#[derive(Clone, Copy, PartialEq, Eq, Structural, Debug)]
pub enum MemoryType {
    ReservedMemoryType,
    LoaderCode,
    LoaderData,
    BootServicesCode,
    BootServicesData,
    RuntimeServicesCode,
    RuntimeServicesData,
    ConventionalMemory,
    UnusableMemory,
    ACPIReclaimMemory,
    ACPIMemoryNVS,
    MemoryMappedIO,
    MemoryMappedIOPortSpace,
    PalCode,
    PersistentMemory,
    MaxMemoryType,
}

/// How the firmware is to pick the pages that it allocates.
#[derive(Clone, Copy, PartialEq, Eq, Structural, Debug)]
pub enum AllocateType {
    AllocateAnyPages,
    AllocateMaxAddress,
    AllocateAddress,
    MaxAllocateType,
}

/// One region of the memory map.
#[derive(Clone, Copy, PartialEq, Eq, Structural, Debug)]
pub struct MemoryDescriptor {
    pub region_type: MemoryType,
    pub physical_start: PhysicalAddress,
    pub virtual_start: VirtualAddress,
    pub number_of_pages: u64,
    pub attribute: u64,
}

/// The memory map: its regions, and the bytes from one region's record
/// to the next in the firmware's buffer.
pub struct MemoryDescriptors {
    start: Vec<MemoryDescriptor>,
    number: usize,
    size: usize,
}

/// A walk over the regions of a memory map.
pub struct Iter<'a> {
    current: usize,
    descriptors: &'a MemoryDescriptors,
}

impl MemoryDescriptors {
    /// The regions of the map.
    pub closed spec fn view(&self) -> Seq<MemoryDescriptor> {
        self.start@.subrange(0, self.number as int)
    }

    /// The bytes from one region's record to the next.
    pub closed spec fn stride(&self) -> usize {
        self.size
    }

    /// The map holds as many regions as it says.
    pub closed spec fn wf(&self) -> bool {
        self.number <= self.start@.len()
    }

    /// The map of the first `number` regions of `start`, or of all if
    /// there are fewer.
    pub fn new(start: Vec<MemoryDescriptor>, number: usize, size: usize) -> (result:
        MemoryDescriptors)
        ensures
            result.wf(),
            result.stride() == size,
            result@ == if number <= start@.len() {
                start@.subrange(0, number as int)
            } else {
                start@
            },
    {
        let number = if number <= start.len() {
            number
        } else {
            start.len()
        };
        let result = MemoryDescriptors { start, number, size };
        assert(start@.subrange(0, start@.len() as int) =~= start@);
        result
    }

    /// The number of regions.
    pub fn len(&self) -> (result: usize)
        requires
            self.wf(),
        ensures
            result == self@.len(),
    {
        self.number
    }

    /// The region at `index`, if there is one.
    pub fn get(&self, index: usize) -> (result: Option<&MemoryDescriptor>)
        requires
            self.wf(),
        ensures
            index < self@.len() ==> result == Some(&self@[index as int]),
            index >= self@.len() ==> result is None,
    {
        if index < self.number {
            Some(self.get_unchecked(index))
        } else {
            None
        }
    }

    /// The region at `index`, which must be one of the map's.
    pub fn get_unchecked(&self, index: usize) -> (result: &MemoryDescriptor)
        requires
            self.wf(),
            index < self@.len(),
        ensures
            *result == self@[index as int],
    {
        &self.start[index]
    }

    /// A walk over the regions, from the first on.
    pub fn into_iter<'a>(&'a self) -> (result: Iter<'a>)
        requires
            self.wf(),
        ensures
            result.wf(),
            result@ == self@,
    {
        let result = Iter { current: 0, descriptors: self };
        assert(result@ =~= self@);
        result
    }
}

impl<'a> Iter<'a> {
    /// The regions that are still to come.
    pub closed spec fn view(&self) -> Seq<MemoryDescriptor> {
        self.descriptors@.subrange(self.current as int, self.descriptors@.len() as int)
    }

    /// The walk stands within its map.
    pub closed spec fn wf(&self) -> bool {
        self.descriptors.wf() && self.current <= self.descriptors@.len()
    }

    /// The region that comes next, or nothing when all were given.
    pub fn next(&mut self) -> (result: Option<&'a MemoryDescriptor>)
        requires
            old(self).wf(),
        ensures
            final(self).wf(),
            old(self)@.len() == 0 ==> result is None && final(self)@ == old(self)@,
            old(self)@.len() > 0 ==> result == Some(&old(self)@[0]) && final(self)@ == old(
                self,
            )@.drop_first(),
    {
        if self.current < self.descriptors.len() {
            let result = self.descriptors.get_unchecked(self.current);
            self.current += 1;
            assert(final(self)@ =~= old(self)@.drop_first());
            Some(result)
        } else {
            None
        }
    }
}

} // verus!
