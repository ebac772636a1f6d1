use ferros::elf::{ElfType, File, SectionType};
use ferros::gnu_efi::acpi::{
    verify_checksum, ExtendedSystemDescriptorTable, InterruptControllerHeader,
    MultipleApicDescriptionTable, RootSystemDescriptorPointer, SystemDescriptionTableHeader,
};
use ferros::gnu_efi::api::protocol::device_path_protocol::{
    device_path_type, DevicePathEnd, DevicePathEndType, DevicePathIterator, DevicePathProtocol,
    DevicePathType, Error, FilepathDevicePath, MediaDevicePathType,
};
use ferros::gnu_efi::api::protocol::file_protocol::wide_file_name;
use ferros::gnu_efi::api::protocol::Protocol;
use ferros::gnu_efi::api::types::{
    acpi_20_table_guid, acpi_table_guid, device_path_guid, file_guid, ConfigurationTable,
    EfiBuffer, Guid, LocateSearchType, ResetType, SystemTable, TableHeader,
};
use ferros::gnu_efi::def::{Handle, MemoryDescriptor, MemoryDescriptors, MemoryType};
use ferros::gnu_efi::strlen;
use ferros::mem::{PhysicalAddress, VirtualAddress};
use ferros::pit::PortWrite;
use ferros::serial::{SerialOp, SerialWriter};

fn with_checksum(mut bytes: Vec<u8>, start: usize, end: usize, at: usize) -> Vec<u8> {
    bytes[at] = 0;
    let sum = bytes[start..end].iter().fold(0u8, |sum, byte| sum.wrapping_add(*byte));
    bytes[at] = 0u8.wrapping_sub(sum);
    bytes
}

fn sdt(signature: &[u8; 4], body: &[u8]) -> Vec<u8> {
    let mut bytes = vec![0u8; 36];
    bytes[0..4].copy_from_slice(signature);
    bytes.extend_from_slice(body);
    let length = bytes.len() as u32;
    bytes[4..8].copy_from_slice(&length.to_le_bytes());
    let end = bytes.len();
    with_checksum(bytes, 0, end, 9)
}

fn rsdp() -> Vec<u8> {
    let mut bytes = vec![0u8; 36];
    bytes[0..8].copy_from_slice(b"RSD PTR ");
    bytes[15] = 2;
    bytes[20..24].copy_from_slice(&36u32.to_le_bytes());
    bytes[24..32].copy_from_slice(&0x7ff0_1000u64.to_le_bytes());
    let bytes = with_checksum(bytes, 20, 33, 32);
    with_checksum(bytes, 0, 20, 8)
}

fn empty_xsdt() -> ExtendedSystemDescriptorTable {
    ExtendedSystemDescriptorTable::new(sdt(b"XSDT", &[]), vec![]).unwrap()
}

#[test]
fn checksum_is_a_sum_that_wraps() {
    assert!(verify_checksum(&[], 0, 0));
    assert!(verify_checksum(&[0x80, 0x80], 0, 2));
    assert!(verify_checksum(&[0xff, 0x01, 0x07], 0, 2));
    assert!(!verify_checksum(&[0xff, 0x01, 0x07], 0, 3));
    assert!(!verify_checksum(&[0xff, 0x01, 0x07], 1, 2));
    assert!(verify_checksum(&[1, 2, 3, 250], 0, 4));
}

#[test]
fn sound_rsdp_is_verified() {
    let table = RootSystemDescriptorPointer::new(rsdp(), empty_xsdt()).unwrap();
    assert!(table.verify_signature());
    assert!(table.verify_checksum());
    assert!(table.verify_extended_checksum());
    assert!(table.verify_length());
    assert!(table.verify_revision());
    assert!(table.verify());
    assert_eq!(table.length(), 36);
    assert_eq!(table.revision(), 2);
    assert_eq!(table.xsdt_address(), 0x7ff0_1000);
    assert!(table.xsdt().verify());
}

#[test]
fn unsound_rsdp_is_refused() {
    assert!(RootSystemDescriptorPointer::new(vec![0; 35], empty_xsdt()).is_none());

    let mut bytes = rsdp();
    bytes[7] = b'_';
    let bytes = with_checksum(bytes, 0, 20, 8);
    let table = RootSystemDescriptorPointer::new(bytes, empty_xsdt()).unwrap();
    assert!(!table.verify_signature());
    assert!(table.verify_checksum());
    assert!(!table.verify());

    let mut bytes = rsdp();
    bytes[9] ^= 1;
    let table = RootSystemDescriptorPointer::new(bytes, empty_xsdt()).unwrap();
    assert!(!table.verify_checksum());
    assert!(!table.verify());

    let mut bytes = rsdp();
    bytes[15] = 1;
    let bytes = with_checksum(bytes, 0, 20, 8);
    let table = RootSystemDescriptorPointer::new(bytes, empty_xsdt()).unwrap();
    assert!(!table.verify_revision());
    assert!(!table.verify());

    let mut bytes = rsdp();
    bytes[20] = 34;
    let bytes = with_checksum(bytes, 20, 33, 32);
    let table = RootSystemDescriptorPointer::new(bytes, empty_xsdt()).unwrap();
    assert!(table.verify_extended_checksum());
    assert!(!table.verify_length());
    assert!(!table.verify());

    let mut bytes = rsdp();
    bytes[20] = 33;
    let bytes = with_checksum(bytes, 20, 33, 32);
    let table = RootSystemDescriptorPointer::new(bytes, empty_xsdt()).unwrap();
    assert!(table.verify_length());

    let mut bytes = rsdp();
    bytes[30] ^= 0x40;
    let table = RootSystemDescriptorPointer::new(bytes, empty_xsdt()).unwrap();
    assert!(!table.verify_extended_checksum());
    assert!(!table.verify());
}

#[test]
fn xsdt_lists_its_tables() {
    let facp = sdt(b"FACP", &[1, 2, 3]);
    let apic = sdt(b"APIC", &[0; 8]);
    let mut entries = Vec::new();
    entries.extend_from_slice(&0x1000u64.to_le_bytes());
    entries.extend_from_slice(&0x2000u64.to_le_bytes());
    let image = sdt(b"XSDT", &entries);
    let headers = vec![
        SystemDescriptionTableHeader::from_bytes(&facp),
        SystemDescriptionTableHeader::from_bytes(&apic),
    ];
    assert!(ExtendedSystemDescriptorTable::new(image.clone(), vec![headers[0]]).is_none());
    assert!(ExtendedSystemDescriptorTable::new(image[..40].to_vec(), vec![]).is_none());
    let xsdt = ExtendedSystemDescriptorTable::new(image, headers.clone()).unwrap();
    assert!(xsdt.verify_signature());
    assert!(xsdt.verify_checksum());
    assert!(xsdt.verify());
    assert_eq!(xsdt.header().length, 52);
    assert_eq!(xsdt.header().signature, *b"XSDT");
    assert_eq!(xsdt.get_tables(), &headers[..]);
    assert_eq!(xsdt.table_address(0), 0x1000);
    assert_eq!(xsdt.table_address(1), 0x2000);
    assert_eq!(xsdt.find_sdt_by_signature(b"FACP"), Some(0));
    assert_eq!(xsdt.find_sdt_by_signature(b"APIC"), Some(1));
    assert_eq!(xsdt.find_sdt_by_signature(b"HPET"), None);
    assert_eq!(xsdt.find_madt(), Some(1));
    assert_eq!(empty_xsdt().find_madt(), None);
}

#[test]
fn unsound_xsdt_is_refused() {
    let mut image = sdt(b"XSDT", &[]);
    image[20] ^= 1;
    let xsdt = ExtendedSystemDescriptorTable::new(image, vec![]).unwrap();
    assert!(xsdt.verify_signature());
    assert!(!xsdt.verify_checksum());
    assert!(!xsdt.verify());
    let other = ExtendedSystemDescriptorTable::new(sdt(b"RSDT", &[]), vec![]).unwrap();
    assert!(!other.verify_signature());
    assert!(other.verify_checksum());
    assert!(!other.verify());
}

#[test]
fn madt_lists_its_interrupt_controllers() {
    let mut body = vec![0u8; 8];
    body.extend_from_slice(&[0, 8, 0, 0, 1, 0, 0, 0]);
    body.extend_from_slice(&[2, 10, 0, 9, 0x14, 0, 0, 0, 0x0d, 0]);
    body.extend_from_slice(&[1, 12, 0, 0, 0, 0, 0xc0, 0xfe, 0, 0, 0, 0]);
    let table = MultipleApicDescriptionTable::new(sdt(b"APIC", &body)).unwrap();
    let mut controllers = table.controllers();
    assert_eq!(
        controllers.next(&table),
        Some(InterruptControllerHeader { structure_type: 0, length: 8, offset: 44 })
    );
    let second = controllers.next(&table).unwrap();
    assert_eq!(second, InterruptControllerHeader { structure_type: 2, length: 10, offset: 52 });
    let source = table.to_interrupt_source_override(&second);
    assert_eq!(source.structure_type, 2);
    assert_eq!(source.length, 10);
    assert_eq!(source.bus, 0);
    assert_eq!(source.source, 9);
    assert_eq!(source.global_system_interrupt, 0x14);
    assert_eq!(source.flags, 0x0d);
    assert_eq!(
        controllers.next(&table),
        Some(InterruptControllerHeader { structure_type: 1, length: 12, offset: 62 })
    );
    assert_eq!(controllers.next(&table), None);
    assert_eq!(controllers.next(&table), None);
    assert!(MultipleApicDescriptionTable::new(vec![0; 43]).is_none());
}

#[test]
fn text_ends_at_the_first_zero() {
    assert_eq!(strlen(b"kernel\0rest\0"), 6);
    assert_eq!(strlen(b"\0"), 0);
    assert_eq!(strlen(b""), 0);
    assert_eq!(strlen(b"none"), 4);
}

#[test]
fn names_are_compared_part_by_part() {
    let name = acpi_20_table_guid();
    assert_eq!(
        name,
        Guid {
            data1: 0x8868e871,
            data2: 0xe4f1,
            data3: 0x11d3,
            data4: [0xbc, 0x22, 0x0, 0x80, 0xc7, 0x3c, 0x88, 0x81],
        }
    );
    assert!(name.equals(&acpi_20_table_guid()));
    assert!(!name.equals(&acpi_table_guid()));
    let mut close = name;
    close.data4[7] = 0x80;
    assert!(!name.equals(&close));
    assert_eq!(file_guid().data4, [0; 8]);
    assert_eq!(<DevicePathProtocol as Protocol>::get_guid(), device_path_guid());
}

#[test]
fn vendor_table_is_found_by_its_name() {
    let header = TableHeader { signature: 1, revision: 2, header_size: 3, crc32: 4, reserved: 0 };
    let rows = vec![
        ConfigurationTable { vendor_guid: acpi_table_guid(), vendor_table: Handle { handle: 0x10 } },
        ConfigurationTable {
            vendor_guid: acpi_20_table_guid(),
            vendor_table: Handle { handle: 0x20 },
        },
        ConfigurationTable {
            vendor_guid: acpi_20_table_guid(),
            vendor_table: Handle { handle: 0x30 },
        },
    ];
    let table = SystemTable::new(header, 7, rows.clone());
    assert_eq!(table.configuration_table(), &rows[..]);
    assert_eq!(table.get_vendor_table(&acpi_20_table_guid()), Some(Handle { handle: 0x20 }));
    assert_eq!(table.get_vendor_table(&acpi_table_guid()), Some(Handle { handle: 0x10 }));
    assert_eq!(table.get_vendor_table(&file_guid()), None);
}

#[test]
fn firmware_numbers() {
    assert_eq!(ResetType::ResetCold.as_usize(), 0);
    assert_eq!(ResetType::ResetWarm.as_usize(), 1);
    assert_eq!(ResetType::ResetShutdown.as_usize(), 2);
    assert_eq!(ResetType::ResetPlatformSpecific.as_usize(), 3);
    assert_eq!(LocateSearchType::AllHandles.as_usize(), 0);
    assert_eq!(LocateSearchType::ByRegisterNotify.as_usize(), 1);
    assert_eq!(LocateSearchType::ByProtocol.as_usize(), 2);
}

#[test]
fn firmware_buffer_keeps_address_and_size() {
    let mut buffer = EfiBuffer::new(0x1000, 64);
    assert_eq!(buffer.as_ptr(), 0x1000);
    assert_eq!(buffer.as_mut_ptr(), 0x1000);
    assert_eq!(*buffer.get_pointer(), 0x1000);
    assert_eq!(buffer.get_mut_pointer(), 0x1000);
    assert_eq!(buffer.size(), 64);
    assert_eq!(buffer.into_raw_parts(), (0x1000, 64));
}

fn region(region_type: MemoryType, start: usize, pages: u64) -> MemoryDescriptor {
    MemoryDescriptor {
        region_type,
        physical_start: PhysicalAddress::new(start),
        virtual_start: VirtualAddress::new(0),
        number_of_pages: pages,
        attribute: 0xf,
    }
}

#[test]
fn memory_map_gives_its_regions() {
    let regions = vec![
        region(MemoryType::LoaderCode, 0x1000, 2),
        region(MemoryType::ConventionalMemory, 0x3000, 5),
        region(MemoryType::ACPIReclaimMemory, 0x8000, 1),
    ];
    let map = MemoryDescriptors::new(regions.clone(), 2, 48);
    assert_eq!(map.len(), 2);
    assert_eq!(map.get(0), Some(&regions[0]));
    assert_eq!(map.get(1), Some(&regions[1]));
    assert_eq!(map.get(2), None);
    assert_eq!(map.get_unchecked(1), &regions[1]);
    let mut walk = map.into_iter();
    assert_eq!(walk.next(), Some(&regions[0]));
    assert_eq!(walk.next(), Some(&regions[1]));
    assert_eq!(walk.next(), None);
    assert_eq!(walk.next(), None);
    let all = MemoryDescriptors::new(regions, 9, 48);
    assert_eq!(all.len(), 3);
}

fn device_path() -> Vec<u8> {
    let mut bytes = vec![0x02, 0x01, 12, 0, 1, 2, 3, 4, 5, 6, 7, 8];
    bytes.extend_from_slice(&[0x04, 0x04, 10, 0, b'A', 0, b'B', 0, 0, 0]);
    bytes.extend_from_slice(&[0x7f, 0xff, 4, 0]);
    bytes
}

#[test]
fn device_path_is_walked_node_by_node() {
    let bytes = device_path();
    let mut walk = DevicePathIterator::new(&bytes);
    assert_eq!(
        walk.next(),
        Some(DevicePathProtocol {
            main_type: DevicePathType::AcpiDevicePath,
            subtype: 1,
            length: 12,
            offset: 0
        })
    );
    let file = walk.next().unwrap();
    assert_eq!(file.main_type, DevicePathType::MediaDevice);
    assert_eq!(file.offset, 12);
    assert_eq!(walk.next(), None);
    assert_eq!(walk.next(), None);

    let mut cut = DevicePathIterator::new(&bytes[..14]);
    assert!(cut.next().is_some());
    assert_eq!(cut.next(), None);
    let unknown = [0x66u8, 0, 4, 0];
    assert_eq!(DevicePathIterator::new(&unknown).next(), None);
    assert_eq!(DevicePathIterator::new(&[]).next(), None);
}

#[test]
fn device_path_kinds_have_their_numbers() {
    assert_eq!(device_path_type(1), Some(DevicePathType::HardwareDevicePath));
    assert_eq!(device_path_type(2), Some(DevicePathType::AcpiDevicePath));
    assert_eq!(device_path_type(3), Some(DevicePathType::MessagingDevicePath));
    assert_eq!(device_path_type(4), Some(DevicePathType::MediaDevice));
    assert_eq!(device_path_type(5), Some(DevicePathType::BiosBootSpecificationDevicePath));
    assert_eq!(device_path_type(0x7f), Some(DevicePathType::EndOfHardwareDevicePath));
    assert_eq!(device_path_type(0), None);
    assert_eq!(device_path_type(6), None);
}

#[test]
fn file_path_node_is_read_from_a_media_node() {
    let bytes = device_path();
    let node = DevicePathProtocol {
        main_type: DevicePathType::MediaDevice,
        subtype: 4,
        length: 10,
        offset: 12,
    };
    let file = FilepathDevicePath::try_from(&node, &bytes).unwrap();
    assert_eq!(file.main_type, DevicePathType::MediaDevice);
    assert_eq!(file.subtype, MediaDevicePathType::Filepath);
    assert_eq!(file.length, 10);
    assert_eq!(file.path_name, vec![b'A' as u16, b'B' as u16, 0]);

    let other = DevicePathProtocol { subtype: 1, ..node };
    assert_eq!(FilepathDevicePath::try_from(&other, &bytes), Err(Error::InvalidSubtype));
    let acpi = DevicePathProtocol { main_type: DevicePathType::AcpiDevicePath, ..node };
    assert_eq!(FilepathDevicePath::try_from(&acpi, &bytes), Err(Error::InvalidMainType));
}

#[test]
fn end_node_is_told_by_kind_and_subkind() {
    let end = DevicePathProtocol {
        main_type: DevicePathType::EndOfHardwareDevicePath,
        subtype: 0xff,
        length: 4,
        offset: 22,
    };
    assert_eq!(
        DevicePathEnd::try_from(&end),
        Ok(DevicePathEnd {
            main_type: DevicePathType::EndOfHardwareDevicePath,
            subtype: DevicePathEndType::EndEntireDevicePath,
            length: 4
        })
    );
    let instance = DevicePathProtocol { subtype: 0x01, ..end };
    assert_eq!(
        DevicePathEnd::try_from(&instance).map(|node| node.subtype),
        Ok(DevicePathEndType::EndDevicePathInstance)
    );
    let odd = DevicePathProtocol { subtype: 0x02, ..end };
    assert_eq!(DevicePathEnd::try_from(&odd), Err(Error::InvalidSubtype));
    let media = DevicePathProtocol { main_type: DevicePathType::MediaDevice, ..end };
    assert_eq!(DevicePathEnd::try_from(&media), Err(Error::InvalidMainType));
}

#[test]
fn file_name_is_widened() {
    let wide = wide_file_name("EFI\\OS\\KERNEL.EFI");
    let text: Vec<u16> = "EFI\\OS\\KERNEL.EFI".bytes().map(|byte| byte as u16).collect();
    assert_eq!(&wide[..17], &text[..]);
    assert!(wide[17..].iter().all(|unit| *unit == 0));
    assert_eq!(wide_file_name(""), [0; 30]);
}

fn elf_file() -> Vec<u8> {
    let mut bytes = vec![0u8; 64];
    bytes[0..4].copy_from_slice(&[0x7f, b'E', b'L', b'F']);
    bytes[4] = 2;
    bytes[5] = 1;
    bytes[6] = 1;
    bytes[16..18].copy_from_slice(&2u16.to_le_bytes());
    bytes[18..20].copy_from_slice(&0x3eu16.to_le_bytes());
    bytes[20..24].copy_from_slice(&1u32.to_le_bytes());
    bytes[24..32].copy_from_slice(&0xffff_8000_0010_0000u64.to_le_bytes());
    bytes[32..40].copy_from_slice(&64u64.to_le_bytes());
    bytes[40..48].copy_from_slice(&80u64.to_le_bytes());
    bytes[52..54].copy_from_slice(&64u16.to_le_bytes());
    bytes[58..60].copy_from_slice(&64u16.to_le_bytes());
    bytes[60..62].copy_from_slice(&3u16.to_le_bytes());
    bytes[62..64].copy_from_slice(&2u16.to_le_bytes());
    bytes.extend_from_slice(b"the program text");
    bytes.extend_from_slice(&[0u8; 64]);
    let mut text = vec![0u8; 64];
    text[0..4].copy_from_slice(&11u32.to_le_bytes());
    text[4..8].copy_from_slice(&1u32.to_le_bytes());
    text[8..16].copy_from_slice(&6u64.to_le_bytes());
    text[16..24].copy_from_slice(&0x40_0000u64.to_le_bytes());
    text[24..32].copy_from_slice(&64u64.to_le_bytes());
    text[32..40].copy_from_slice(&16u64.to_le_bytes());
    text[48..56].copy_from_slice(&16u64.to_le_bytes());
    bytes.extend_from_slice(&text);
    let mut bss = vec![0u8; 64];
    bss[4..8].copy_from_slice(&8u32.to_le_bytes());
    bss[16..24].copy_from_slice(&0x60_0000u64.to_le_bytes());
    bss[24..32].copy_from_slice(&80u64.to_le_bytes());
    bss[32..40].copy_from_slice(&0x3000u64.to_le_bytes());
    bytes.extend_from_slice(&bss);
    bytes
}

#[test]
fn elf_file_header_is_read() {
    let file = File::from_buffer(elf_file());
    assert_eq!(file.size(), 64 + 16 + 3 * 64);
    assert!(file.has_headers());
    let header = file.file_header();
    assert_eq!(header.identifier.magic_number, [0x7f, b'E', b'L', b'F']);
    assert_eq!(header.identifier.class, 2);
    assert_eq!(header.kind(), Some(ElfType::Executable));
    assert_eq!(header.machine, 0x3e);
    assert_eq!(header.version, 1);
    assert_eq!(header.entry_ptr(), 0xffff_8000_0010_0000);
    assert_eq!(header.section_header_offset, 80);
    assert_eq!(header.section_header_entry_size, 64);
    assert_eq!(header.section_header_number, 3);
    assert_eq!(header.section_header_string_index, 2);
}

#[test]
fn elf_sections_are_read_from_the_second_on() {
    let file = File::from_buffer(elf_file());
    let mut sections = file.section_headers();
    let text = sections.next().unwrap();
    assert_eq!(text.name_index, 11);
    assert_eq!(text.kind(), Some(SectionType::ProgramBits));
    assert_eq!(text.flags, 6);
    assert_eq!(text.addr_ptr(), 0x40_0000);
    assert_eq!(text.size, 16);
    assert_eq!(text.address_align, 16);
    assert_eq!(text.offset_buffer(&file), b"the program text");
    let bss = sections.next().unwrap();
    assert_eq!(bss.kind(), Some(SectionType::NoBits));
    assert_eq!(bss.addr_ptr(), 0x60_0000);
    assert_eq!(bss.size, 0x3000);
    assert_eq!(sections.next(), None);
    assert_eq!(sections.next(), None);
}

#[test]
fn short_elf_files_are_noticed() {
    assert!(!File::from_buffer(vec![0; 63]).has_headers());
    let bytes = elf_file();
    let cut = bytes[..bytes.len() - 1].to_vec();
    assert!(!File::from_buffer(cut).has_headers());
    let mut none = vec![0u8; 64];
    none[40] = 0xff;
    let file = File::from_buffer(none);
    assert!(file.has_headers());
    assert_eq!(file.file_header().kind(), Some(ElfType::NoType));
    assert_eq!(file.section_headers().next(), None);
    let mut odd = vec![0u8; 64];
    odd[16] = 9;
    assert_eq!(File::from_buffer(odd).file_header().kind(), None);
}

fn write(port: u16, value: u8) -> SerialOp {
    SerialOp::Write(PortWrite { port, value })
}

fn set_up() -> Vec<SerialOp> {
    vec![
        write(0x3f9, 0),
        write(0x3fa, 0),
        write(0x3fb, 0x83),
        write(0x3f8, 12),
        write(0x3f9, 0),
        write(0x3fb, 0x03),
    ]
}

#[test]
fn serial_port_is_set_up_before_the_first_byte() {
    let (mut writer, ops) = SerialWriter::new();
    assert_eq!(ops, set_up());
    assert!(!writer.is_queued());
    assert_eq!(writer.putc(b'x'), vec![SerialOp::WaitUntilEmpty, write(0x3f8, b'x')]);

    let mut late = SerialWriter::uninitialized();
    let mut expected = set_up();
    expected.push(SerialOp::WaitUntilEmpty);
    expected.push(write(0x3f8, b'y'));
    assert_eq!(late.putc(b'y'), expected);
    assert_eq!(late.putc(b'z'), vec![SerialOp::WaitUntilEmpty, write(0x3f8, b'z')]);
    assert_eq!(late.putc_poll(7), vec![SerialOp::WaitUntilEmpty, write(0x3f8, 7)]);
}

#[test]
fn serial_port_prints_byte_by_byte() {
    let mut writer = SerialWriter::uninitialized();
    assert_eq!(writer.print_str(""), vec![]);
    let mut expected = set_up();
    for byte in "ok\n".bytes() {
        expected.push(SerialOp::WaitUntilEmpty);
        expected.push(write(0x3f8, byte));
    }
    assert_eq!(writer.print_str("ok\n"), expected);
    assert_eq!(writer.print_str("!"), vec![SerialOp::WaitUntilEmpty, write(0x3f8, b'!')]);
}

#[test]
fn serial_rate_sets_the_divisor() {
    let writer = SerialWriter::uninitialized();
    assert_eq!(
        writer.set_serial(300),
        vec![write(0x3fb, 0x83), write(0x3f8, 0x80), write(0x3f9, 0x01), write(0x3fb, 0x03)]
    );
    assert_eq!(
        writer.set_serial(115200),
        vec![write(0x3fb, 0x83), write(0x3f8, 1), write(0x3f9, 0), write(0x3fb, 0x03)]
    );
    let mut other = SerialWriter::uninitialized();
    assert_eq!(other.init_poll(), set_up());
}
