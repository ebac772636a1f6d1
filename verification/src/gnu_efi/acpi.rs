//! The ACPI tables that the firmware leaves in memory: how they are laid
//! out, and how they are checked.

use vstd::prelude::*;
use crate::elf::{le_u16, le_u32, le_u64, read_u16, read_u32, read_u64};

verus! {

/// The bytes of a root system descriptor pointer.
pub const RSDP_BYTES: usize = 36;

/// The bytes of the header that every system description table starts
/// with.
pub const SDT_HEADER_BYTES: usize = 36;

/// The offset in a multiple APIC description table of its first
/// interrupt controller structure.
pub const MADT_CONTROLLERS: usize = 44;

/// The sum of the bytes of `bytes`.
pub open spec fn byte_sum(bytes: Seq<u8>) -> int
    decreases bytes.len(),
{
    if bytes.len() == 0 {
        0
    } else {
        byte_sum(bytes.drop_last()) + bytes.last()
    }
}

/// The words "RSD PTR ", with which a root system descriptor pointer
/// starts.
pub open spec fn rsdp_signature() -> Seq<u8> {
    seq![0x52u8, 0x53, 0x44, 0x20, 0x50, 0x54, 0x52, 0x20]
}

/// The word "XSDT", with which an extended system descriptor table
/// starts.
pub open spec fn xsdt_signature() -> Seq<u8> {
    seq![0x58u8, 0x53, 0x44, 0x54]
}

/// The word "APIC", with which a multiple APIC description table
/// starts.
pub open spec fn madt_signature() -> Seq<u8> {
    seq![0x41u8, 0x50, 0x49, 0x43]
}

/// Whether the bytes of `bytes` from `start` up to `end` add up to a
/// multiple of 256, as the bytes of a sound table do.
pub fn verify_checksum(bytes: &[u8], start: usize, end: usize) -> (result: bool)
    requires
        start <= end <= bytes@.len(),
    ensures
        result == (byte_sum(bytes@.subrange(start as int, end as int)) % 256 == 0),
{
    let mut total: u8 = 0;
    let mut index: usize = start;
    proof {
        assert(bytes@.subrange(start as int, start as int) =~= Seq::<u8>::empty());
    }
    while index < end
        invariant
            start <= index <= end <= bytes@.len(),
            total == byte_sum(bytes@.subrange(start as int, index as int)) % 256,
        decreases end - index,
    {
        proof {
            let wider = bytes@.subrange(start as int, index as int + 1);
            assert(wider.drop_last() =~= bytes@.subrange(start as int, index as int));
            assert(wider.last() == bytes@[index as int]);
        }
        total = total.wrapping_add(bytes[index]);
        index += 1;
    }
    total == 0
}

/// Whether the `length` bytes of `bytes` from `at` on are those of
/// `word`.
pub fn bytes_match(bytes: &[u8], at: usize, word: &[u8]) -> (result: bool)
    requires
        at + word.len() <= bytes.len(),
    ensures
        result == (bytes@.subrange(at as int, at + word@.len()) == word@),
{
    let mut index: usize = 0;
    while index < word.len()
        invariant
            index <= word.len(),
            at + word.len() <= bytes.len(),
            forall|i: int| 0 <= i < index ==> bytes@[at + i] == word@[i],
        decreases word@.len() - index,
    {
        if bytes[at + index] != word[index] {
            assert(bytes@.subrange(at as int, at + word@.len())[index as int] != word@[index as int]);
            return false;
        }
        index += 1;
    }
    assert(bytes@.subrange(at as int, at + word@.len()) =~= word@);
    true
}

/// The header that every system description table starts with.
#[derive(Clone, Copy, PartialEq, Eq, Debug)]
pub struct SystemDescriptionTableHeader {
    pub signature: [u8; 4],
    /// The bytes of the whole table, header included.
    pub length: u32,
    pub _revision: u8,
    pub _checksum: u8,
    pub _oem_revision: u32,
    pub _creator_id: u32,
    pub _creator_revision: u32,
}

/// The header that the first 36 bytes of `bytes` hold.
pub open spec fn sdt_header_of(bytes: Seq<u8>) -> SystemDescriptionTableHeader {
    SystemDescriptionTableHeader {
        signature: [bytes[0], bytes[1], bytes[2], bytes[3]],
        length: le_u32(bytes, 4) as u32,
        _revision: bytes[8],
        _checksum: bytes[9],
        _oem_revision: le_u32(bytes, 24) as u32,
        _creator_id: le_u32(bytes, 28) as u32,
        _creator_revision: le_u32(bytes, 32) as u32,
    }
}

impl SystemDescriptionTableHeader {
    /// Reads the header from the first 36 bytes of a table.
    pub fn from_bytes(bytes: &[u8]) -> (result: Self)
        requires
            bytes@.len() >= SDT_HEADER_BYTES,
        ensures
            result == sdt_header_of(bytes@),
    {
        let length = bytes.len();
        SystemDescriptionTableHeader {
            signature: [bytes[0], bytes[1], bytes[2], bytes[3]],
            length: read_u32(bytes, 4),
            _revision: bytes[8],
            _checksum: bytes[9],
            _oem_revision: read_u32(bytes, 24),
            _creator_id: read_u32(bytes, 28),
            _creator_revision: read_u32(bytes, 32),
        }
    }
}

/// The table that lists the other system description tables, together
/// with the headers of the tables that it lists.
pub struct ExtendedSystemDescriptorTable {
    image: Vec<u8>,
    tables: Vec<SystemDescriptionTableHeader>,
}

impl ExtendedSystemDescriptorTable {
    /// The bytes of the table.
    pub closed spec fn image(&self) -> Seq<u8> {
        self.image@
    }

    /// The headers of the tables that the table lists, in the order of
    /// the list.
    pub closed spec fn tables(&self) -> Seq<SystemDescriptionTableHeader> {
        self.tables@
    }

    /// The number of tables that a table of `length` bytes lists: one
    /// for every 8 bytes after its header.
    pub open spec fn entries(length: int) -> int {
        (length - SDT_HEADER_BYTES) / 8
    }

    /// The table has its header, is as long as its header says, and has
    /// the header of every table that it lists.
    pub open spec fn wf(&self) -> bool {
        &&& self.image().len() >= SDT_HEADER_BYTES
        &&& self.image().len() == sdt_header_of(self.image()).length
        &&& self.tables().len() == Self::entries(self.image().len() as int)
    }

    /// The table with the bytes `image`, which lists tables with the
    /// headers `tables`; or nothing if the image is not as long as its
    /// header says, or the number of headers is not that of the list.
    pub fn new(image: Vec<u8>, tables: Vec<SystemDescriptionTableHeader>) -> (result: Option<
        ExtendedSystemDescriptorTable,
    >)
        ensures
            match result {
                Some(table) => table.wf() && table.image() == image@ && table.tables() == tables@,
                None => !(image@.len() >= SDT_HEADER_BYTES && image@.len() == sdt_header_of(
                    image@,
                ).length && tables@.len() == Self::entries(image@.len() as int)),
            },
    {
        if image.len() < SDT_HEADER_BYTES {
            return None;
        }
        let header = SystemDescriptionTableHeader::from_bytes(image.as_slice());
        if image.len() as u64 != header.length as u64 {
            return None;
        }
        if tables.len() != (image.len() - SDT_HEADER_BYTES) / 8 {
            return None;
        }
        Some(ExtendedSystemDescriptorTable { image, tables })
    }

    /// The header of the table.
    pub fn header(&self) -> (result: SystemDescriptionTableHeader)
        requires
            self.wf(),
        ensures
            result == sdt_header_of(self.image()),
    {
        SystemDescriptionTableHeader::from_bytes(self.image.as_slice())
    }

    /// Whether the table is sound: it starts with "XSDT" and its bytes
    /// add up to a multiple of 256.
    pub fn verify(&self) -> (result: bool)
        requires
            self.wf(),
        ensures
            result == (self.image().subrange(0, 4) == xsdt_signature() && byte_sum(self.image())
                % 256 == 0),
    {
        self.verify_signature() && self.verify_checksum()
    }

    /// Whether the table starts with "XSDT".
    pub fn verify_signature(&self) -> (result: bool)
        requires
            self.wf(),
        ensures
            result == (self.image().subrange(0, 4) == xsdt_signature()),
    {
        let word: [u8; 4] = [0x58, 0x53, 0x44, 0x54];
        assert(word@ =~= xsdt_signature());
        bytes_match(self.image.as_slice(), 0, word.as_slice())
    }

    /// Whether the bytes of the table add up to a multiple of 256.
    pub fn verify_checksum(&self) -> (result: bool)
        requires
            self.wf(),
        ensures
            result == (byte_sum(self.image()) % 256 == 0),
    {
        let bytes = self.image.as_slice();
        assert(bytes@.subrange(0, bytes@.len() as int) =~= bytes@);
        verify_checksum(bytes, 0, bytes.len())
    }

    /// The headers of the tables that the table lists.
    pub fn get_tables(&self) -> (result: &[SystemDescriptionTableHeader])
        ensures
            result@ == self.tables(),
    {
        self.tables.as_slice()
    }

    /// The address of the table that stands at place `index` of the
    /// list.
    pub fn table_address(&self, index: usize) -> (result: u64)
        requires
            self.wf(),
            index < self.tables().len(),
        ensures
            result == le_u64(self.image(), SDT_HEADER_BYTES + 8 * index),
    {
        let bytes = self.image.as_slice();
        let length = bytes.len();
        read_u64(bytes, SDT_HEADER_BYTES + 8 * index)
    }

    /// The place in the list of the first table whose header starts
    /// with `signature`, if there is one.
    pub fn find_sdt_by_signature(&self, signature: &[u8; 4]) -> (result: Option<usize>)
        ensures
            match result {
                Some(index) => {
                    &&& index < self.tables().len()
                    &&& self.tables()[index as int].signature@ == signature@
                    &&& forall|i: int|
                        0 <= i < index ==> (#[trigger] self.tables()[i]).signature@ != signature@
                },
                None => forall|i: int|
                    0 <= i < self.tables().len() ==> (#[trigger] self.tables()[i]).signature@
                        != signature@,
            },
    {
        let mut index: usize = 0;
        while index < self.tables.len()
            invariant
                index <= self.tables@.len(),
                forall|i: int| 0 <= i < index ==> (#[trigger] self.tables@[i]).signature@ != signature@,
            decreases self.tables@.len() - index,
        {
            let found = self.tables[index].signature;
            if found[0] == signature[0] && found[1] == signature[1] && found[2] == signature[2]
                && found[3] == signature[3] {
                assert(found@ =~= signature@);
                return Some(index);
            }
            assert(found@ != signature@) by {
                if found@ == signature@ {
                    assert(found@[0] == signature@[0]);
                    assert(found@[1] == signature@[1]);
                    assert(found@[2] == signature@[2]);
                    assert(found@[3] == signature@[3]);
                }
            }
            index += 1;
        }
        None
    }

    /// The place in the list of the multiple APIC description table, if
    /// the list has one.
    pub fn find_madt(&self) -> (result: Option<usize>)
        ensures
            match result {
                Some(index) => {
                    &&& index < self.tables().len()
                    &&& self.tables()[index as int].signature@ == madt_signature()
                    &&& forall|i: int|
                        0 <= i < index ==> (#[trigger] self.tables()[i]).signature@
                            != madt_signature()
                },
                None => forall|i: int|
                    0 <= i < self.tables().len() ==> (#[trigger] self.tables()[i]).signature@
                        != madt_signature(),
            },
    {
        let word: [u8; 4] = [0x41, 0x50, 0x49, 0x43];
        assert(word@ =~= madt_signature());
        self.find_sdt_by_signature(&word)
    }
}

/// The table at which the search for the ACPI tables starts, together
/// with the extended system descriptor table that it points to.
pub struct RootSystemDescriptorPointer {
    image: Vec<u8>,
    xsdt: ExtendedSystemDescriptorTable,
}

impl RootSystemDescriptorPointer {
    /// The 36 bytes of the table.
    pub closed spec fn image(&self) -> Seq<u8> {
        self.image@
    }

    /// The extended system descriptor table that the table points to.
    pub closed spec fn table(&self) -> ExtendedSystemDescriptorTable {
        self.xsdt
    }

    /// The table has its 36 bytes.
    pub open spec fn wf(&self) -> bool {
        self.image().len() == RSDP_BYTES
    }

    /// The extended system descriptor table that the table points to.
    pub fn xsdt(&self) -> (result: &ExtendedSystemDescriptorTable)
        ensures
            *result == self.table(),
    {
        &self.xsdt
    }

    /// The table with the bytes `image`, which points to `xsdt`; or
    /// nothing if these are not 36 bytes.
    pub fn new(image: Vec<u8>, xsdt: ExtendedSystemDescriptorTable) -> (result: Option<Self>)
        ensures
            match result {
                Some(table) => table.wf() && table.image() == image@ && table.table() == xsdt,
                None => image@.len() != RSDP_BYTES,
            },
    {
        if image.len() != RSDP_BYTES {
            return None;
        }
        Some(RootSystemDescriptorPointer { image, xsdt })
    }

    /// The revision of ACPI that the table is of.
    pub fn revision(&self) -> (result: u8)
        requires
            self.wf(),
        ensures
            result == self.image()[15],
    {
        self.image[15]
    }

    /// The bytes that the table says it has.
    pub fn length(&self) -> (result: u32)
        requires
            self.wf(),
        ensures
            result == le_u32(self.image(), 20),
    {
        let bytes = self.image.as_slice();
        let length = bytes.len();
        read_u32(bytes, 20)
    }

    /// The address of the extended system descriptor table.
    pub fn xsdt_address(&self) -> (result: u64)
        requires
            self.wf(),
        ensures
            result == le_u64(self.image(), 24),
    {
        let bytes = self.image.as_slice();
        let length = bytes.len();
        read_u64(bytes, 24)
    }

    /// Whether the table starts with "RSD PTR ".
    pub fn verify_signature(&self) -> (result: bool)
        requires
            self.wf(),
        ensures
            result == (self.image().subrange(0, 8) == rsdp_signature()),
    {
        let word: [u8; 8] = [0x52, 0x53, 0x44, 0x20, 0x50, 0x54, 0x52, 0x20];
        assert(word@ =~= rsdp_signature());
        bytes_match(self.image.as_slice(), 0, word.as_slice())
    }

    /// Whether the first 20 bytes, which are the table of the first
    /// revision, add up to a multiple of 256.
    pub fn verify_checksum(&self) -> (result: bool)
        requires
            self.wf(),
        ensures
            result == (byte_sum(self.image().subrange(0, 20)) % 256 == 0),
    {
        verify_checksum(self.image.as_slice(), 0, 20)
    }

    /// Whether the 13 bytes from the length on add up to a multiple of
    /// 256.
    pub fn verify_extended_checksum(&self) -> (result: bool)
        requires
            self.wf(),
        ensures
            result == (byte_sum(self.image().subrange(20, 33)) % 256 == 0),
    {
        verify_checksum(self.image.as_slice(), 20, 33)
    }

    /// Whether the table says that it has 36 bytes, or 33.
    pub fn verify_length(&self) -> (result: bool)
        requires
            self.wf(),
        ensures
            result == (le_u32(self.image(), 20) == 36 || le_u32(self.image(), 20) == 33),
    {
        let length = self.length();
        length == 36 || length == 33
    }

    /// Whether the table is of the second revision of ACPI at least.
    pub fn verify_revision(&self) -> (result: bool)
        requires
            self.wf(),
        ensures
            result == (self.image()[15] >= 2),
    {
        self.revision() >= 2
    }

    /// Whether the table is sound: signature, both sums, length and
    /// revision are as they should be.
    pub fn verify(&self) -> (result: bool)
        requires
            self.wf(),
        ensures
            result == {
                &&& self.image().subrange(0, 8) == rsdp_signature()
                &&& byte_sum(self.image().subrange(0, 20)) % 256 == 0
                &&& byte_sum(self.image().subrange(20, 33)) % 256 == 0
                &&& (le_u32(self.image(), 20) == 36 || le_u32(self.image(), 20) == 33)
                &&& self.image()[15] >= 2
            },
    {
        self.verify_signature() && self.verify_checksum() && self.verify_extended_checksum()
            && self.verify_length() && self.verify_revision()
    }
}

/// The two bytes with which every interrupt controller structure
/// starts.
#[derive(Clone, Copy, PartialEq, Eq, Structural, Debug)]
pub struct InterruptControllerHeader {
    /// The number of the kind of structure.
    pub structure_type: u8,
    /// The bytes of the structure.
    pub length: u8,
    /// Where in the table the structure starts.
    pub offset: usize,
}

/// An interrupt source override: the structure of kind 2.
#[derive(Clone, Copy, PartialEq, Eq, Structural, Debug)]
pub struct InterruptSourceOverride {
    pub structure_type: u8,
    pub length: u8,
    pub bus: u8,
    pub source: u8,
    pub global_system_interrupt: u32,
    pub flags: u16,
}

/// The interrupt source override that the 10 bytes of `bytes` from `at`
/// on hold.
pub open spec fn interrupt_source_override_of(bytes: Seq<u8>, at: int) -> InterruptSourceOverride {
    InterruptSourceOverride {
        structure_type: bytes[at],
        length: bytes[at + 1],
        bus: bytes[at + 2],
        source: bytes[at + 3],
        global_system_interrupt: le_u32(bytes, at + 4) as u32,
        flags: le_u16(bytes, at + 8) as u16,
    }
}

/// The table that describes the interrupt controllers of the machine.
pub struct MultipleApicDescriptionTable {
    image: Vec<u8>,
}

/// A walk over the interrupt controller structures of a table.
pub struct InterruptControllers {
    ptr: usize,
    end_ptr: usize,
}

impl InterruptControllers {
    /// Where in the table the walk stands.
    pub closed spec fn position(&self) -> usize {
        self.ptr
    }

    /// Where in the table the structures end.
    pub closed spec fn limit(&self) -> usize {
        self.end_ptr
    }

    /// The structure at which the walk stands, or nothing at the end of
    /// the table. The walk moves on by the length that the structure
    /// gives.
    pub fn next(&mut self, table: &MultipleApicDescriptionTable) -> (result: Option<
        InterruptControllerHeader,
    >)
        requires
            old(self).position() < old(self).limit() ==> old(self).position() + 2
                <= table.image().len(),
            old(self).position() < old(self).limit() ==> old(self).position() + 0xff
                <= usize::MAX,
        ensures
            final(self).limit() == old(self).limit(),
            old(self).position() >= old(self).limit() ==> result is None && final(self).position()
                == old(self).position(),
            old(self).position() < old(self).limit() ==> {
                &&& result == Some(
                    InterruptControllerHeader {
                        structure_type: table.image()[old(self).position() as int],
                        length: table.image()[old(self).position() + 1],
                        offset: old(self).position(),
                    },
                )
                &&& final(self).position() == old(self).position() + table.image()[old(
                    self,
                ).position() + 1]
            },
    {
        if self.ptr >= self.end_ptr {
            None
        } else {
            let bytes = table.image.as_slice();
            let total = bytes.len();
            let result = InterruptControllerHeader {
                structure_type: bytes[self.ptr],
                length: bytes[self.ptr + 1],
                offset: self.ptr,
            };
            self.ptr = self.ptr + result.length as usize;
            Some(result)
        }
    }
}

impl MultipleApicDescriptionTable {
    /// The bytes of the table.
    pub closed spec fn image(&self) -> Seq<u8> {
        self.image@
    }

    /// The table has its header and is as long as its header says.
    pub open spec fn wf(&self) -> bool {
        &&& self.image().len() >= MADT_CONTROLLERS
        &&& self.image().len() == sdt_header_of(self.image()).length
    }

    /// The table with the bytes `image`, or nothing if the image is not
    /// as long as its header says.
    pub fn new(image: Vec<u8>) -> (result: Option<Self>)
        ensures
            match result {
                Some(table) => table.wf() && table.image() == image@,
                None => !(image@.len() >= MADT_CONTROLLERS && image@.len() == sdt_header_of(
                    image@,
                ).length),
            },
    {
        if image.len() < MADT_CONTROLLERS {
            return None;
        }
        let header = SystemDescriptionTableHeader::from_bytes(image.as_slice());
        if image.len() as u64 != header.length as u64 {
            return None;
        }
        Some(MultipleApicDescriptionTable { image })
    }

    /// A walk over the interrupt controller structures, from the first
    /// to the end of the table.
    pub fn controllers(&self) -> (result: InterruptControllers)
        requires
            self.wf(),
        ensures
            result.position() == MADT_CONTROLLERS,
            result.limit() == self.image().len(),
    {
        InterruptControllers { ptr: MADT_CONTROLLERS, end_ptr: self.image.len() }
    }

    /// The interrupt source override that `header` starts, which must
    /// be of kind 2 and lie within the table.
    pub fn to_interrupt_source_override(&self, header: &InterruptControllerHeader) -> (result:
        InterruptSourceOverride)
        requires
            header.structure_type == 2,
            header.offset + 10 <= self.image().len(),
        ensures
            result == interrupt_source_override_of(self.image(), header.offset as int),
    {
        let bytes = self.image.as_slice();
        let total = bytes.len();
        let at = header.offset;
        InterruptSourceOverride {
            structure_type: bytes[at],
            length: bytes[at + 1],
            bus: bytes[at + 2],
            source: bytes[at + 3],
            global_system_interrupt: read_u32(bytes, at + 4),
            flags: read_u16(bytes, at + 8),
        }
    }
}

} // verus!
