//! What the loader, which runs before the kernel, decides: which memory
//! stays mapped, and where the sections of the kernel's file go.

use vstd::prelude::*;
use crate::elf::{section_type_of, SectionHeader, SectionType};
use crate::frame_allocator::FrameAllocator;
use crate::gnu_efi::def::{MemoryDescriptor, MemoryType};
use crate::mem::{pages_covering, Frame, Page, PageOffset, VirtualAddress, VirtualAddressOffset};
use crate::page_table::{PageSize, PageTable};

pub mod interrupt;
pub mod palloc;

verus! {

/// The pages of low memory that the loader maps onto themselves, page 0
/// left out.
pub const INIT_RAM_PAGES: usize = 0x1000;

/// Whether a region of the kind `region_type` holds what the kernel
/// still needs, and so stays mapped at the address it has: the loader's
/// own code and data, the firmware's runtime services, and the ACPI
/// tables.
pub open spec fn kept(region_type: MemoryType) -> bool {
    region_type is LoaderCode || region_type is LoaderData || region_type is RuntimeServicesCode
        || region_type is RuntimeServicesData || region_type is ACPIMemoryNVS
        || region_type is ACPIReclaimMemory
}

/// Whether a region of the kind `region_type` stays mapped.
pub fn keeps(region_type: MemoryType) -> (result: bool)
    ensures
        result == kept(region_type),
{
    match region_type {
        MemoryType::LoaderCode => true,
        MemoryType::LoaderData => true,
        MemoryType::RuntimeServicesCode => true,
        MemoryType::RuntimeServicesData => true,
        MemoryType::ACPIMemoryNVS => true,
        MemoryType::ACPIReclaimMemory => true,
        MemoryType::PalCode => false,
        _ => false,
    }
}

/// The address at which the region ends.
pub fn end_address(memory_descriptor: &MemoryDescriptor) -> (result: u64)
    requires
        memory_descriptor.number_of_pages * 0x1000 + memory_descriptor.physical_start.value()
            <= u64::MAX,
    ensures
        result == memory_descriptor.number_of_pages * 0x1000
            + memory_descriptor.physical_start.value(),
{
    let start_address: usize = memory_descriptor.physical_start.into();
    memory_descriptor.number_of_pages * 0x1000 + start_address as u64
}

/// Maps the pages of a region that stays mapped onto the frames of the
/// same numbers; does nothing for a region that does not stay.
pub fn map_memory_descriptor(
    memory_descriptor: &MemoryDescriptor,
    page_table: &mut PageTable,
    frame_allocator: &mut FrameAllocator,
)
    requires
        old(page_table).wf(),
        kept(memory_descriptor.region_type) ==> {
            &&& memory_descriptor.number_of_pages <= isize::MAX
            &&& memory_descriptor.physical_start.value() / 0x1000
                + memory_descriptor.number_of_pages <= 0x10_0000_0000
            &&& memory_descriptor.physical_start.value() / 0x1000
                + memory_descriptor.number_of_pages <= usize::MAX
            &&& old(frame_allocator).cursor() + 3 * memory_descriptor.number_of_pages
                <= usize::MAX
            &&& forall|other: Page|
                memory_descriptor.physical_start.value() / 0x1000 <= other.number()
                    < memory_descriptor.physical_start.value() / 0x1000
                    + memory_descriptor.number_of_pages ==> !(#[trigger] old(page_table).collides(
                    other,
                    PageSize::FourKb,
                ))
        },
    ensures
        final(page_table).wf(),
        final(page_table).root_address() == old(page_table).root_address(),
        old(frame_allocator).cursor() <= final(frame_allocator).cursor(),
        forall|address: u64|
            address < 0x1_0000_0000_0000 ==> #[trigger] final(page_table).translate(address)
                == if kept(memory_descriptor.region_type)
                && memory_descriptor.physical_start.value() / 0x1000 <= address / 0x1000
                < memory_descriptor.physical_start.value() / 0x1000
                + memory_descriptor.number_of_pages {
                Some(address)
            } else {
                old(page_table).translate(address)
            },
{
    if keeps(memory_descriptor.region_type) {
        let frame_start: Frame = memory_descriptor.physical_start.into();
        let frame_number: usize = frame_start.into();
        let page_start = Page::new(frame_number);
        page_table.insert_pages(
            frame_allocator,
            frame_start,
            page_start,
            memory_descriptor.number_of_pages as usize,
        );
    }
}

/// Maps the pages of low memory onto the frames of the same numbers,
/// from page 1 up to, but without, page `INIT_RAM_PAGES`.
pub fn map_init_ram(page_table: &mut PageTable, frame_allocator: &mut FrameAllocator)
    requires
        old(page_table).wf(),
        old(frame_allocator).cursor() + 3 * INIT_RAM_PAGES <= usize::MAX,
        forall|other: Page|
            1 <= other.number() < INIT_RAM_PAGES ==> !(#[trigger] old(page_table).collides(
                other,
                PageSize::FourKb,
            )),
    ensures
        final(page_table).wf(),
        final(page_table).root_address() == old(page_table).root_address(),
        old(frame_allocator).cursor() <= final(frame_allocator).cursor() <= old(
            frame_allocator,
        ).cursor() + 3 * INIT_RAM_PAGES,
        forall|address: u64|
            address < 0x1_0000_0000_0000 ==> #[trigger] final(page_table).translate(address)
                == if 1 <= address / 0x1000 < INIT_RAM_PAGES {
                Some(address)
            } else {
                old(page_table).translate(address)
            },
{
    page_table.insert_pages(frame_allocator, Frame::new(1), Page::new(1), INIT_RAM_PAGES - 1);
}

/// What is to be put into the memory of a section once its pages are
/// mapped.
#[derive(Clone, Copy, PartialEq, Eq, Structural, Debug)]
pub enum SectionLoad {
    /// The section takes up no memory of its own.
    Skip,
    /// `size` bytes of zeros at `address`.
    Zero { address: u64, size: u64 },
    /// The `size` bytes of the file from `offset` on, at `address`.
    Copy { address: u64, offset: u64, size: u64 },
}

/// Whether the section takes up memory when the program runs: it holds
/// bytes of the program, or stands for zeros.
pub open spec fn loaded(section: &SectionHeader) -> bool {
    section_type_of(section.section_type) == Some(SectionType::NoBits) || section_type_of(
        section.section_type,
    ) == Some(SectionType::ProgramBits)
}

/// The number of the page in which the section starts.
pub open spec fn first_page(section: &SectionHeader) -> int {
    section.virtual_address as int / 0x1000
}

/// What `load_section` returns for `section`.
pub open spec fn section_load(section: &SectionHeader) -> SectionLoad {
    if section_type_of(section.section_type) == Some(SectionType::NoBits) {
        SectionLoad::Zero { address: section.virtual_address, size: section.size }
    } else if section_type_of(section.section_type) == Some(SectionType::ProgramBits) {
        SectionLoad::Copy {
            address: section.virtual_address,
            offset: section.file_offset,
            size: section.size,
        }
    } else {
        SectionLoad::Skip
    }
}

/// Makes room for a section of the kernel's file: takes as many new
/// frames in a row as the section's size takes pages, a started page
/// counting as a whole one, and maps the pages from the one in which the
/// section starts on to them. The result says what is to be put there.
/// Nothing is done for a section that takes up no memory.
pub fn load_section(
    section: &SectionHeader,
    page_table: &mut PageTable,
    frame_allocator: &mut FrameAllocator,
) -> (result: SectionLoad)
    requires
        old(page_table).wf(),
        loaded(section) ==> {
            &&& section.virtual_address <= usize::MAX
            &&& section.size + 0xfff <= isize::MAX
            &&& first_page(section) + pages_covering(section.size as int) <= 0x10_0000_0000
            &&& old(frame_allocator).cursor() + 4 * pages_covering(section.size as int)
                <= 0x100_0000_0000
            &&& old(frame_allocator).cursor() + 4 * pages_covering(section.size as int)
                <= usize::MAX
            &&& forall|other: Page|
                first_page(section) <= other.number() < first_page(section) + pages_covering(
                    section.size as int,
                ) ==> !(#[trigger] old(page_table).collides(other, PageSize::FourKb))
        },
    ensures
        result == section_load(section),
        final(page_table).wf(),
        final(page_table).root_address() == old(page_table).root_address(),
        !loaded(section) ==> final(frame_allocator).cursor() == old(frame_allocator).cursor(),
        loaded(section) ==> old(frame_allocator).cursor() + pages_covering(section.size as int)
            <= final(frame_allocator).cursor(),
        forall|address: u64|
            address < 0x1_0000_0000_0000 ==> #[trigger] final(page_table).translate(address)
                == if loaded(section) && first_page(section) <= address / 0x1000 < first_page(
                section,
            ) + pages_covering(section.size as int) {
                Some(
                    ((old(frame_allocator).cursor() + (address / 0x1000 - first_page(section)))
                        * 0x1000 + address % 0x1000) as u64,
                )
            } else {
                old(page_table).translate(address)
            },
{
    match section.kind() {
        Some(SectionType::NoBits) | Some(SectionType::ProgramBits) => {
            let size_bytes = VirtualAddressOffset::new(section.size as isize);
            let num_pages = PageOffset::from_address_offset(size_bytes);
            let num_pages_isize: isize = num_pages.into();
            let start_page: Page = {
                let start_virtual_address = VirtualAddress::new(section.virtual_address as usize);
                start_virtual_address.into()
            };
            let start_frame = frame_allocator.get_multiple_frames(num_pages_isize as usize);
            page_table.insert_pages(
                frame_allocator,
                start_frame,
                start_page,
                num_pages_isize as usize,
            );
        },
        _ => {},
    }
    match section.kind() {
        Some(SectionType::NoBits) => SectionLoad::Zero {
            address: section.addr_ptr(),
            size: section.size,
        },
        Some(SectionType::ProgramBits) => SectionLoad::Copy {
            address: section.addr_ptr(),
            offset: section.file_offset,
            size: section.size,
        },
        _ => SectionLoad::Skip,
    }
}

} // verus!
