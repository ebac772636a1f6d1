use ferros::loader::interrupt::idt::{make_intr_gate, InterruptDescriptor, InterruptTable};
use ferros::loader::interrupt::SystemDescriptorTypes;

#[test]
fn descriptor_fields_go_to_their_bits() {
    let mut descriptor = InterruptDescriptor::new([0xffff_ffff; 4]);
    descriptor.set_offset_low(0x1234);
    assert_eq!(descriptor.words(), [0xffff_1234, 0xffff_ffff, 0xffff_ffff, 0xffff_ffff]);
    descriptor.set_segment_selector(0x0010);
    assert_eq!(descriptor.words()[0], 0x0010_1234);
    descriptor.set_offset_med(0xabcd);
    assert_eq!(descriptor.words()[1], 0xabcd_ffff);
    descriptor.set_offset_high(0x89ab_cdef);
    assert_eq!(descriptor.words()[2], 0x89ab_cdef);
    descriptor.set_present_flag(false);
    assert_eq!(descriptor.words()[1], 0xabcd_7fff);
    descriptor.set_gate_type(SystemDescriptorTypes::InterruptGate);
    assert_eq!(descriptor.words()[1], 0xabcd_7eff);
    descriptor.set_present_flag(true);
    assert_eq!(descriptor.words()[1], 0xabcd_feff);
    descriptor.set_gate_type(SystemDescriptorTypes::_LDT);
    assert_eq!(descriptor.words()[1], 0xabcd_f2ff);
    assert_eq!(descriptor.words()[3], 0xffff_ffff);
}

#[test]
fn descriptor_kinds_have_their_numbers() {
    assert_eq!(SystemDescriptorTypes::_LDT.code(), 2);
    assert_eq!(SystemDescriptorTypes::_AvailableTSS.code(), 9);
    assert_eq!(SystemDescriptorTypes::_BusyTSS.code(), 11);
    assert_eq!(SystemDescriptorTypes::_CallGate.code(), 12);
    assert_eq!(SystemDescriptorTypes::InterruptGate.code(), 14);
    assert_eq!(SystemDescriptorTypes::_TrapGate.code(), 15);
}

#[test]
fn interrupt_descriptor_is_made_from_a_handler_address() {
    let descriptor = make_intr_gate(0xffff_8000_1234_5678, 0x10);
    assert_eq!(descriptor.words(), [0x0010_5678, 0x1234_8e00, 0xffff_8000, 0]);
}

#[test]
fn handlers_are_installed_at_their_vectors() {
    let mut table = InterruptTable::new();
    assert_eq!(table.gate(0x20).words(), [0; 4]);
    table.install_handler(0x1_0000_2000, 0x20, 0x8);
    assert_eq!(table.gate(0x20).words(), [0x0008_2000, 0x0000_8e00, 0x1, 0]);
    assert_eq!(table.gate(0x21).words(), [0; 4]);
    assert_eq!(table.install_idt(), 4095);
}

use ferros::elf::SectionHeader;
use ferros::frame_allocator::FrameAllocator;
use ferros::gnu_efi::def::{MemoryDescriptor, MemoryType};
use ferros::loader::{
    end_address, keeps, load_section, map_init_ram, map_memory_descriptor, SectionLoad,
};
use ferros::mem::{Frame, Page, PhysicalAddress, VirtualAddress};
use ferros::page_table::{PageSize, PageTable};

fn descriptor(region_type: MemoryType, start: usize, pages: u64) -> MemoryDescriptor {
    MemoryDescriptor {
        region_type,
        physical_start: PhysicalAddress::new(start),
        virtual_start: VirtualAddress::new(0),
        number_of_pages: pages,
        attribute: 0,
    }
}

#[test]
fn loader_keeps_what_the_kernel_needs() {
    let kept = [
        MemoryType::LoaderCode,
        MemoryType::LoaderData,
        MemoryType::RuntimeServicesCode,
        MemoryType::RuntimeServicesData,
        MemoryType::ACPIMemoryNVS,
        MemoryType::ACPIReclaimMemory,
    ];
    for region_type in kept {
        assert!(keeps(region_type));
    }
    let dropped = [
        MemoryType::ReservedMemoryType,
        MemoryType::BootServicesCode,
        MemoryType::BootServicesData,
        MemoryType::ConventionalMemory,
        MemoryType::UnusableMemory,
        MemoryType::MemoryMappedIO,
        MemoryType::MemoryMappedIOPortSpace,
        MemoryType::PalCode,
        MemoryType::PersistentMemory,
        MemoryType::MaxMemoryType,
    ];
    for region_type in dropped {
        assert!(!keeps(region_type));
    }
}

#[test]
fn kept_regions_are_mapped_onto_themselves() {
    let mut table = PageTable::new(Frame::new(1));
    let mut frames = FrameAllocator::new();
    map_memory_descriptor(&descriptor(MemoryType::LoaderData, 0x20_3000, 3), &mut table, &mut frames);
    assert_eq!(table.walk(0x20_2fff), None);
    assert_eq!(table.walk(0x20_3000), Some(0x20_3000));
    assert_eq!(table.walk(0x20_5fff), Some(0x20_5fff));
    assert_eq!(table.walk(0x20_6000), None);
    map_memory_descriptor(
        &descriptor(MemoryType::ConventionalMemory, 0x40_0000, 3),
        &mut table,
        &mut frames,
    );
    assert_eq!(table.walk(0x40_0000), None);
    assert_eq!(end_address(&descriptor(MemoryType::LoaderData, 0x20_3000, 3)), 0x20_6000);
}

#[test]
fn low_memory_is_mapped_but_for_page_zero() {
    let mut table = PageTable::new(Frame::new(1));
    let mut frames = FrameAllocator::new();
    map_init_ram(&mut table, &mut frames);
    assert_eq!(table.walk(0), None);
    assert_eq!(table.walk(0xfff), None);
    assert_eq!(table.walk(0x1000), Some(0x1000));
    assert_eq!(table.walk(0x3100), Some(0x3100));
    assert_eq!(table.walk(0xff_ffff), Some(0xff_ffff));
    assert_eq!(table.walk(0x100_0000), None);
    assert!(table.is_any_taken(Page::new(0), 2));
    assert!(!table.is_any_taken(Page::new(0), 1));
    assert!(!table.is_any_taken(Page::new(0x1000), 16));
    assert!(table.is_taken(Page::new(0), PageSize::TwoMb));
}

fn section(section_type: u32, address: u64, offset: u64, size: u64) -> SectionHeader {
    SectionHeader {
        name_index: 0,
        section_type,
        flags: 0,
        virtual_address: address,
        file_offset: offset,
        size,
        link: 0,
        info: 0,
        address_align: 0,
        entry_size: 0,
    }
}

#[test]
fn sections_get_their_pages() {
    let mut table = PageTable::new(Frame::new(1));
    let mut frames = FrameAllocator::new();
    let text = section(1, 0x40_0000, 0x1000, 0x1801);
    assert_eq!(
        load_section(&text, &mut table, &mut frames),
        SectionLoad::Copy { address: 0x40_0000, offset: 0x1000, size: 0x1801 }
    );
    assert_eq!(table.walk(0x40_0000), Some(0x5000));
    assert_eq!(table.walk(0x40_1abc), Some(0x6abc));
    assert_eq!(table.walk(0x40_2000), None);

    let bss = section(8, 0x60_0800, 0, 0x1000);
    assert_eq!(
        load_section(&bss, &mut table, &mut frames),
        SectionLoad::Zero { address: 0x60_0800, size: 0x1000 }
    );
    // Frames 7 to 9 held the page maps of the first section.
    assert_eq!(table.walk(0x60_0800), Some(0xa800));
    assert_eq!(table.walk(0x60_1000), None);

    let before = frames.get_frame();
    let symbols = section(2, 0x80_0000, 0, 0x1000);
    assert_eq!(load_section(&symbols, &mut table, &mut frames), SectionLoad::Skip);
    assert_eq!(table.walk(0x80_0000), None);
    let empty = section(1, 0x90_0000, 0, 0);
    assert_eq!(
        load_section(&empty, &mut table, &mut frames),
        SectionLoad::Copy { address: 0x90_0000, offset: 0, size: 0 }
    );
    assert_eq!(table.walk(0x90_0000), None);
    let after: usize = frames.get_frame().into();
    let before: usize = before.into();
    assert_eq!(after, before + 1);
}
