use ferros::frame_allocator::FrameAllocator;
use ferros::loader::palloc::PageAllocator;
use ferros::mem::{
    Frame, FrameOffset, Page, PageOffset, PhysicalAddress, VirtualAddress, VirtualAddressOffset,
};
use ferros::page_table::address::{AddressOffset, PhysicalAddress as LoaderPhysicalAddress};
use ferros::page_table::address::VirtualAddress as LoaderVirtualAddress;
use ferros::page_table::pages::{PageAddress, PageOffset as LoaderPageOffset};
use ferros::page_table::PageSize;

#[test]
fn page_goes_to_its_address_and_back() {
    for number in [0usize, 1, 0x100, 0x800_0100, 0xf_ffff_ffff] {
        let page = Page::new(number);
        let address = VirtualAddress::from_page(page);
        let value: usize = address.into();
        assert_eq!(value, number * 0x1000);
        let back = Page::from(address);
        assert_eq!(back, page);
        assert_eq!(VirtualAddress::from_page(back), address);
    }
}

#[test]
fn address_inside_a_page_goes_to_that_page() {
    let page = Page::from(VirtualAddress::new(0x80_0010_0f00));
    assert_eq!(page, Page::new(0x800_0100));
    let number: usize = page.into();
    assert_eq!(number, 0x800_0100);
}

#[test]
fn frame_goes_to_its_address_and_back() {
    let frame = Frame::new(5);
    let address = PhysicalAddress::from_frame(frame);
    let value: usize = address.into();
    assert_eq!(value, 0x5000);
    assert_eq!(Frame::from(address), frame);
    assert_eq!(Frame::from(PhysicalAddress::new(0x5fff)), frame);
    let number: usize = frame.into();
    assert_eq!(number, 5);
}

#[test]
fn page_plus_offset_moves_both_ways() {
    assert_eq!(Page::new(10) + PageOffset::new(5), Page::new(15));
    assert_eq!(Page::new(10) + PageOffset::new(-10), Page::new(0));
    assert_eq!(Page::new(10) + PageOffset::new(0), Page::new(10));
    assert_eq!(Frame::new(7) + FrameOffset::new(3), Frame::new(10));
    assert_eq!(Frame::new(7) + FrameOffset::new(-7), Frame::new(0));
}

#[test]
fn page_offsets_add_up() {
    let sum = PageOffset::new(3) + PageOffset::new(-5);
    let value: isize = sum.into();
    assert_eq!(value, -2);
}

#[test]
fn bytes_round_up_to_pages() {
    let cases: [(isize, isize); 8] = [
        (0, 0),
        (1, 1),
        (0x1000, 1),
        (0x1001, 2),
        (0x2000, 2),
        (-1, 0),
        (-0x1000, 0),
        (-0x2000, -1),
    ];
    for (bytes, pages) in cases {
        let offset = PageOffset::from_address_offset(VirtualAddressOffset::new(bytes));
        let value: isize = offset.into();
        assert_eq!(value, pages, "bytes {}", bytes);
        let loader = LoaderPageOffset::from_address_offset(AddressOffset::new(bytes));
        assert_eq!(loader, LoaderPageOffset::new(pages));
    }
}

#[test]
fn addresses_as_pointers_keep_their_value() {
    let mut physical = PhysicalAddress::new(0xfee0_0000);
    assert_eq!(physical.as_ptr(), 0xfee0_0000);
    assert_eq!(physical.as_mut_ptr(), 0xfee0_0000);
    let mut virtual_address = VirtualAddress::new(0x1234);
    assert_eq!(virtual_address.as_ptr(), 0x1234);
    assert_eq!(virtual_address.as_mut_ptr(), 0x1234);
}

#[test]
fn frame_allocator_counts_up_from_its_cursor() {
    let mut allocator = FrameAllocator::new();
    assert_eq!(allocator.get_frame(), Frame::new(5));
    assert_eq!(allocator.get_frame(), Frame::new(6));
    assert_eq!(allocator.get_multiple_frames(10), Frame::new(7));
    assert_eq!(allocator.get_frame(), Frame::new(17));
    assert_eq!(allocator.get_multiple_frames(0), Frame::new(18));
    assert_eq!(allocator.get_frame(), Frame::new(18));
}

#[test]
fn loader_page_allocator_counts_up_from_zero() {
    let mut allocator = PageAllocator::new();
    assert_eq!(allocator.get_page(), Page::new(0));
    assert_eq!(allocator.get_multiple_pages(4), Page::new(1));
    assert_eq!(allocator.get_page(), Page::new(5));
}

#[test]
fn page_sizes_in_bytes() {
    assert_eq!(PageSize::FourKb.bytes(), 0x1000);
    assert_eq!(PageSize::TwoMb.bytes(), 0x20_0000);
    assert_eq!(PageSize::OneGb.bytes(), 0x4000_0000);
}

#[test]
fn loader_addresses_and_pages() {
    let address = LoaderVirtualAddress::from(0x3000usize) + AddressOffset::new(-0x1000);
    assert_eq!(address, LoaderVirtualAddress::from(0x2000usize));
    let physical = LoaderPhysicalAddress::new(0x2001);
    assert_eq!(physical + AddressOffset::from(0xfffisize), LoaderPhysicalAddress::new(0x3000));
    assert_eq!(PageAddress::from_physical_address(physical), PageAddress::new(3));
    assert_eq!(
        PageAddress::from_virtual_address(LoaderVirtualAddress::from(0x2000usize)),
        PageAddress::new(2)
    );
    assert_eq!(
        LoaderPhysicalAddress::from_page_address(PageAddress::new(3)),
        LoaderPhysicalAddress::new(0x3000)
    );
    assert_eq!(PageAddress::new(3) + LoaderPageOffset::new(-2), PageAddress::from(1usize));
    assert_eq!(AddressOffset::from_page_offset(LoaderPageOffset::new(-2)), AddressOffset::new(-0x2000));
    let number: usize = PageAddress::new(9).into();
    assert_eq!(number, 9);
    let mut pointer = LoaderPhysicalAddress::new(0x77);
    assert_eq!(pointer.as_ptr(), 0x77);
    assert_eq!(pointer.as_mut_ptr(), 0x77);
    let raw: usize = pointer.into();
    assert_eq!(raw, 0x77);
}

#[test]
fn loader_page_offset_steps() {
    let offset = LoaderPageOffset::new(4);
    assert_eq!(offset.step(&LoaderPageOffset::new(-6)), Some(LoaderPageOffset::new(-2)));
    assert_eq!(LoaderPageOffset::new(isize::MAX).step(&LoaderPageOffset::new(1)), None);
    assert!(LoaderPageOffset::new(-1).is_negative());
    assert!(!LoaderPageOffset::new(0).is_negative());
    assert_eq!(offset.add_one(), LoaderPageOffset::new(5));
    assert_eq!(offset.sub_one(), LoaderPageOffset::new(3));
    let mut changed = LoaderPageOffset::new(9);
    assert_eq!(changed.replace_one(), LoaderPageOffset::new(1));
    assert_eq!(changed, LoaderPageOffset::new(1));
    assert_eq!(changed.replace_zero(), LoaderPageOffset::from(0isize));
    assert_eq!(changed + LoaderPageOffset::new(7), LoaderPageOffset::new(7));
    let value: isize = changed.into();
    assert_eq!(value, 0);
}
