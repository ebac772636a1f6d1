use ferros::frame_allocator::FrameAllocator;
use ferros::mem::{Frame, Page};
use ferros::page_table::level1;
use ferros::page_table::level2;
use ferros::page_table::level3;
use ferros::page_table::level4;
use ferros::page_table::{PageEntryBuilder, PageSize, PageTable, ReadWrite, UserSupervisor};

const PRESENT: u64 = 0x1;
const WRITABLE: u64 = 0x2;
const PAGE_SIZE_BIT: u64 = 0x80;

fn fresh() -> (PageTable, FrameAllocator) {
    (PageTable::new(Frame::new(1)), FrameAllocator::new())
}

#[test]
fn empty_table_maps_nothing() {
    let (table, _) = fresh();
    for address in [0u64, 0x1000, 0x80_0010_0000, 0xffff_ffff_ffff] {
        assert_eq!(table.walk(address), None);
    }
    for size in [PageSize::FourKb, PageSize::TwoMb, PageSize::OneGb] {
        assert!(!table.is_taken(Page::new(0), size));
        assert!(!table.is_taken(Page::new(0x800_0100), size));
    }
    for index in 0..512 {
        assert!(!table.pml4().entry(index).get_present());
        assert!(table.pml4().get_map(index).is_none());
    }
}

#[test]
fn mapped_4k_page_translates_every_address_in_it() {
    let (mut table, mut allocator) = fresh();
    table.insert_page(&mut allocator, Frame::new(0x1234), Page::new(0x800_0100), PageSize::FourKb);
    for offset in [0u64, 1, 0x7ff, 0xf00, 0xfff] {
        assert_eq!(table.walk(0x80_0010_0000 + offset), Some(0x1234 * 0x1000 + offset));
    }
    assert_eq!(table.walk(0x80_0010_1000), None);
    assert_eq!(table.walk(0x80_0010_0000 - 1), None);
}

#[test]
fn later_mappings_keep_earlier_translations() {
    let (mut table, mut allocator) = fresh();
    table.insert_page(&mut allocator, Frame::new(7), Page::new(0x10), PageSize::FourKb);
    table.insert_page(&mut allocator, Frame::new(9), Page::new(0x11), PageSize::FourKb);
    table.insert_page(&mut allocator, Frame::new(0x400), Page::new(0x400), PageSize::TwoMb);
    table.insert_page(&mut allocator, Frame::new(0x4_0000), Page::new(0x8_0000), PageSize::OneGb);
    assert_eq!(table.walk(0x10_123), Some(0x7_123));
    assert_eq!(table.walk(0x11_fff), Some(0x9_fff));
    assert_eq!(table.walk(0x40_0000), Some(0x40_0000));
    assert_eq!(table.walk(0x5f_ffff), Some(0x5f_ffff));
    assert_eq!(table.walk(0x60_0000), None);
    assert_eq!(table.walk(0x8000_0000 + 0x1234_5678), Some(0x4000_0000 + 0x1234_5678));
}

#[test]
fn large_pages_map_from_the_frame_rounded_down() {
    let (mut table, mut allocator) = fresh();
    table.insert_page(&mut allocator, Frame::new(0x1234), Page::new(0x200), PageSize::TwoMb);
    assert_eq!(table.walk(0x20_0000), Some(0x120_0000));
    assert_eq!(table.walk(0x20_0000 + 0x1f_ffff), Some(0x120_0000 + 0x1f_ffff));
    table.insert_page(&mut allocator, Frame::new(0x4_1234), Page::new(0x4_0000), PageSize::OneGb);
    assert_eq!(table.walk(0x4000_0000), Some(0x4000_0000));
    assert_eq!(table.walk(0x4000_0000 + 0x3fff_ffff), Some(0x4000_0000 + 0x3fff_ffff));
}

#[test]
fn mapping_twice_is_refused() {
    for size in [PageSize::FourKb, PageSize::TwoMb, PageSize::OneGb] {
        let (mut table, mut allocator) = fresh();
        let page = Page::new(0x800_0100);
        assert!(!table.is_taken(page, size));
        table.insert_page(&mut allocator, Frame::new(5), page, size);
        assert!(table.is_taken(page, size));
    }
}

#[test]
fn overlapping_mappings_are_refused() {
    let (mut table, mut allocator) = fresh();
    table.insert_page(&mut allocator, Frame::new(5), Page::new(0x800_0100), PageSize::FourKb);
    assert!(table.is_taken(Page::new(0x800_0100), PageSize::TwoMb));
    assert!(table.is_taken(Page::new(0x800_0000), PageSize::TwoMb));
    assert!(table.is_taken(Page::new(0x800_01ff), PageSize::TwoMb));
    assert!(table.is_taken(Page::new(0x800_0000), PageSize::OneGb));
    assert!(table.is_taken(Page::new(0x803_ffff), PageSize::OneGb));
    assert!(!table.is_taken(Page::new(0x800_0101), PageSize::FourKb));
    assert!(!table.is_taken(Page::new(0x800_0200), PageSize::TwoMb));
    assert!(!table.is_taken(Page::new(0x804_0000), PageSize::OneGb));

    let (mut table, mut allocator) = fresh();
    table.insert_page(&mut allocator, Frame::new(0), Page::new(0x200), PageSize::TwoMb);
    assert!(table.is_taken(Page::new(0x200), PageSize::FourKb));
    assert!(table.is_taken(Page::new(0x3ff), PageSize::FourKb));
    assert!(table.is_taken(Page::new(0), PageSize::OneGb));
    assert!(!table.is_taken(Page::new(0x400), PageSize::FourKb));
    assert!(!table.is_taken(Page::new(0x1ff), PageSize::FourKb));

    let (mut table, mut allocator) = fresh();
    table.insert_page(&mut allocator, Frame::new(0), Page::new(0), PageSize::OneGb);
    assert!(table.is_taken(Page::new(0x3_ffff), PageSize::FourKb));
    assert!(table.is_taken(Page::new(0x200), PageSize::TwoMb));
    assert!(!table.is_taken(Page::new(0x4_0000), PageSize::FourKb));
}

#[test]
fn insert_4k_page_builds_the_three_lower_levels() {
    let (mut table, mut allocator) = fresh();
    table.insert_page(&mut allocator, Frame::new(5), Page::new(0x800_0100), PageSize::FourKb);

    // The page's address is 0x80_0010_0000: bit 39 gives entry 1 of the
    // level 4 map, and bits 12 to 20 give entry 0x100 of the level 1 map.
    let pml4 = table.pml4();
    let entry4 = pml4.entry(1);
    assert!(entry4.get_present());
    assert_eq!(entry4.to_bits(), PRESENT | WRITABLE | (5 << 12));
    assert!(matches!(entry4.as_enum(), level4::PageEntryType::PageTableEntry(_)));
    assert!(!pml4.entry(0).get_present());

    let pdpt = pml4.get_map(1).unwrap();
    let entry3 = pdpt.entry(0);
    assert!(entry3.present());
    assert!(!entry3.page_size());
    assert_eq!(entry3.to_bits(), PRESENT | WRITABLE | (6 << 12));
    assert!(matches!(entry3.as_enum(), level3::PageEntryType::PageTableEntry(_)));
    assert!(!pdpt.entry(16).present());

    let pd = pdpt.get_map(0).unwrap();
    let entry2 = pd.entry(0);
    assert!(entry2.present());
    assert!(!entry2.page_size());
    assert_eq!(entry2.to_bits(), PRESENT | WRITABLE | (7 << 12));
    assert!(matches!(entry2.as_enum(), level2::PageEntryType::PageTableEntry(_)));

    let pt = pd.get_map(0).unwrap();
    let leaf = pt.entry(0x100);
    assert!(leaf.present());
    assert_eq!(leaf.to_bits(), PRESENT | WRITABLE | (5 << 12));
    assert_eq!(leaf.to_bits() >> 12, 5);
    assert!(matches!(leaf.as_enum(), level1::PageEntryType::PageEntry(_)));
    for index in 0..512 {
        if index != 0x100 {
            assert!(!pt.entry(index).present());
            assert!(matches!(pt.entry(index).as_enum(), level1::PageEntryType::NotPresent(_)));
        }
    }

    // Three page maps were made, in the three frames after frame 5.
    assert_eq!(allocator.get_frame(), Frame::new(8));
}

#[test]
fn insert_1g_page_makes_a_leaf_at_level_3() {
    let (mut table, mut allocator) = fresh();
    table.insert_page(&mut allocator, Frame::new(0), Page::new(0), PageSize::OneGb);
    let pml4 = table.pml4();
    assert!(pml4.entry(0).get_present());
    assert_eq!(pml4.entry(0).to_bits(), PRESENT | WRITABLE | (5 << 12));
    let pdpt = pml4.get_map(0).unwrap();
    let leaf = pdpt.entry(0);
    assert!(leaf.present());
    assert!(leaf.page_size());
    assert_eq!(leaf.to_bits(), PRESENT | WRITABLE | PAGE_SIZE_BIT);
    assert!(matches!(leaf.as_enum(), level3::PageEntryType::PageEntry(_)));
    assert!(pdpt.get_map(0).is_none());
    assert_eq!(allocator.get_frame(), Frame::new(6));
}

#[test]
fn insert_2m_page_makes_a_leaf_at_level_2() {
    let (mut table, mut allocator) = fresh();
    table.insert_page(&mut allocator, Frame::new(0x1200), Page::new(0x5ff), PageSize::TwoMb);
    let pd = table.pml4().get_map(0).unwrap().get_map(0).unwrap();
    let leaf = pd.entry(2);
    assert!(leaf.present());
    assert!(leaf.page_size());
    assert_eq!(leaf.to_bits(), PRESENT | WRITABLE | PAGE_SIZE_BIT | (0x1200 << 12));
    assert!(matches!(leaf.as_enum(), level2::PageEntryType::PageEntry(_)));
    assert!(pd.get_map(2).is_none());
    assert_eq!(allocator.get_frame(), Frame::new(7));
}

#[test]
fn existing_page_maps_are_used_again() {
    let (mut table, mut allocator) = fresh();
    table.insert_page(&mut allocator, Frame::new(100), Page::new(0x100), PageSize::FourKb);
    assert_eq!(allocator.get_frame(), Frame::new(8));
    table.insert_page(&mut allocator, Frame::new(101), Page::new(0x101), PageSize::FourKb);
    assert_eq!(allocator.get_frame(), Frame::new(9));
    table.insert_page(&mut allocator, Frame::new(102), Page::new(0x200), PageSize::FourKb);
    // One new level 1 map, in frame 10.
    assert_eq!(allocator.get_frame(), Frame::new(11));
    let pd = table.pml4().get_map(0).unwrap().get_map(0).unwrap();
    assert_eq!(pd.entry(1).to_bits(), PRESENT | WRITABLE | (10 << 12));
}

#[test]
fn entries_are_built_from_their_parts() {
    let frame = Frame::new(0xab_cdef_0123);
    assert_eq!(level4::PageTableEntry::new(frame).to_bits(), 0x3 | (0xab_cdef_0123 << 12));
    assert_eq!(level3::PageTableEntry::new(frame).to_bits(), 0x3 | (0xab_cdef_0123 << 12));
    assert_eq!(level2::PageTableEntry::new(frame).to_bits(), 0x3 | (0xab_cdef_0123 << 12));
    assert_eq!(level1::PageEntry::new(frame).to_bits(), 0x3 | (0xab_cdef_0123 << 12));
    assert_eq!(level2::PageEntry::new(frame).to_bits(), 0x83 | (0xab_cdef_0000 << 12));
    assert_eq!(level3::PageEntry::new(frame).to_bits(), 0x83 | (0xab_cdec_0000 << 12));
    // Only 40 bits of a frame number find room in an entry.
    let wide = Frame::new(0xfff_ffff_ffff);
    assert_eq!(level1::PageEntry::new(wide).to_bits(), 0x3 | (0xff_ffff_ffff << 12));
}

#[test]
fn empty_entries_are_not_present() {
    assert_eq!(level4::GenericPageEntry::empty().to_bits(), 0);
    assert!(!level4::GenericPageEntry::empty().get_present());
    assert!(!level3::GenericPageEntry::default().present());
    assert!(!level2::GenericPageEntry::default().page_size());
    assert!(!level1::GenericPageEntry::default().present());
    assert!(matches!(
        level4::GenericPageEntry::empty().as_enum(),
        level4::PageEntryType::NotPresent(_)
    ));
    assert!(matches!(
        level3::GenericPageEntry::default().as_enum(),
        level3::PageEntryType::NotPresent(_)
    ));
    assert!(matches!(
        level2::GenericPageEntry::default().as_enum(),
        level2::PageEntryType::NotPresent(_)
    ));
}

#[test]
fn builder_puts_each_flag_in_its_bit() {
    assert_eq!(PageEntryBuilder::default().to_entry(), 0);
    assert_eq!(PageEntryBuilder::writable().to_entry(), 0x2);
    let all = PageEntryBuilder {
        read_write: ReadWrite::Writeable,
        user_supervisor: UserSupervisor::User,
        page_level_write_through: true,
        page_level_cache_disable: true,
        accessed: true,
    };
    assert_eq!(all.to_entry(), 0x3e);
    let user = PageEntryBuilder { user_supervisor: UserSupervisor::User, ..Default::default() };
    assert_eq!(user.to_entry(), 0x4);
    let through = PageEntryBuilder { page_level_write_through: true, ..Default::default() };
    assert_eq!(through.to_entry(), 0x8);
    let uncached = PageEntryBuilder { page_level_cache_disable: true, ..Default::default() };
    assert_eq!(uncached.to_entry(), 0x10);
    let accessed = PageEntryBuilder { accessed: true, ..Default::default() };
    assert_eq!(accessed.to_entry(), 0x20);
}

#[test]
fn level_maps_work_on_their_own() {
    let mut allocator = FrameAllocator::new();
    let mut pt = level1::PageMap::new_in_place();
    assert!(!pt.is_taken(Page::new(3)));
    pt.insert_page(Frame::new(9), Page::new(3), PageSize::FourKb);
    assert!(pt.is_taken(Page::new(3)));
    assert_eq!(pt.walk(0x3abc), Some(0x9abc));
    assert_eq!(pt.walk(0x4abc), None);
    assert_eq!(level1::PageMap::default().walk(0x3abc), None);

    let mut pd = level2::PageMap::new_in_place();
    pd.insert_page(&mut allocator, Frame::new(9), Page::new(0x203), PageSize::FourKb);
    assert_eq!(pd.walk(0x20_3abc), Some(0x9abc));
    assert!(pd.is_taken(Page::new(0x200), PageSize::TwoMb));
    assert_eq!(level2::PageMap::default().walk(0x20_3abc), None);

    let mut pdpt = level3::PageMap::new_in_place();
    pdpt.insert_page(&mut allocator, Frame::new(0x200), Page::new(0x4_0200), PageSize::TwoMb);
    assert_eq!(pdpt.walk(0x4020_0123), Some(0x20_0123));
    assert!(pdpt.is_taken(Page::new(0x4_0000), PageSize::OneGb));
    assert!(!pdpt.is_taken(Page::new(0x4_0000), PageSize::TwoMb));
    assert_eq!(level3::PageMap::default().walk(0x4020_0123), None);

    let mut pml4 = level4::PageMap::new();
    pml4.insert_page(&mut allocator, Frame::new(1), Page::new(0x800_0000), PageSize::FourKb);
    assert_eq!(pml4.walk(0x80_0000_0042), Some(0x1042));
    assert!(pml4.is_taken(Page::new(0x800_0000), PageSize::OneGb));
}

#[test]
fn table_knows_where_its_root_is() {
    let table = PageTable::new(Frame::new(0x1234));
    assert_eq!(table.load(), 0x123_4000);
    assert_eq!(table.physical_address(), 0x123_4000);
    let high = PageTable::new(Frame::new(0x12_3456));
    assert_eq!(high.load(), 0x1_2345_6000);
    assert_eq!(high.physical_address(), 0x2345_6000);
}

#[test]
fn only_36_bits_of_a_page_number_count() {
    let (mut table, mut allocator) = fresh();
    table.insert_page(&mut allocator, Frame::new(3), Page::new(0x10_0000_0007), PageSize::FourKb);
    assert_eq!(table.walk(0x7123), Some(0x3123));
    assert!(table.is_taken(Page::new(7), PageSize::FourKb));
}
