//! The types of the firmware's interface.

use vstd::prelude::*;
use crate::gnu_efi::def::Handle;

verus! {

/// The header of each of the firmware's tables.
#[derive(Clone, Copy, PartialEq, Eq, Structural, Debug)]
pub struct TableHeader {
    pub signature: u64,
    pub revision: u32,
    pub header_size: u32,
    pub crc32: u32,
    pub reserved: u32,
}

/// How the machine is to be reset.
#[derive(Clone, Copy, PartialEq, Eq, Structural, Debug)]
pub enum ResetType {
    ResetCold,
    ResetWarm,
    ResetShutdown,
    ResetPlatformSpecific,
}

impl ResetType {
    /// The number that the firmware knows the kind of reset by.
    pub fn as_usize(&self) -> (result: usize)
        ensures
            result == match self {
                ResetType::ResetCold => 0usize,
                ResetType::ResetWarm => 1usize,
                ResetType::ResetShutdown => 2usize,
                ResetType::ResetPlatformSpecific => 3usize,
            },
    {
        match self {
            ResetType::ResetCold => 0,
            ResetType::ResetWarm => 1,
            ResetType::ResetShutdown => 2,
            ResetType::ResetPlatformSpecific => 3,
        }
    }
}

/// How the firmware is to look for handles.
#[derive(Clone, Copy, PartialEq, Eq, Structural, Debug)]
pub enum LocateSearchType {
    AllHandles,
    ByRegisterNotify,
    ByProtocol,
}

impl LocateSearchType {
    /// The number that the firmware knows the kind of search by.
    pub fn as_usize(&self) -> (result: usize)
        ensures
            result == match self {
                LocateSearchType::AllHandles => 0usize,
                LocateSearchType::ByRegisterNotify => 1usize,
                LocateSearchType::ByProtocol => 2usize,
            },
    {
        match self {
            LocateSearchType::AllHandles => 0,
            LocateSearchType::ByRegisterNotify => 1,
            LocateSearchType::ByProtocol => 2,
        }
    }
}

/// A name of 128 bits by which the firmware knows a table or a
/// protocol.
#[derive(Clone, Copy, PartialEq, Eq, Debug)]
pub struct Guid {
    pub data1: u32,
    pub data2: u16,
    pub data3: u16,
    pub data4: [u8; 8],
}

impl Guid {
    /// Whether two names are the same, part by part.
    pub open spec fn same(&self, other: &Guid) -> bool {
        &&& self.data1 == other.data1
        &&& self.data2 == other.data2
        &&& self.data3 == other.data3
        &&& self.data4@ == other.data4@
    }

    /// Whether two names are the same.
    pub fn equals(&self, other: &Guid) -> (result: bool)
        ensures
            result == self.same(other),
    {
        if self.data1 != other.data1 || self.data2 != other.data2 || self.data3 != other.data3 {
            return false;
        }
        let mut index: usize = 0;
        while index < 8
            invariant
                index <= 8,
                forall|i: int| 0 <= i < index ==> self.data4@[i] == other.data4@[i],
            decreases 8 - index,
        {
            if self.data4[index] != other.data4[index] {
                return false;
            }
            index += 1;
        }
        assert(self.data4@ =~= other.data4@);
        true
    }
}

/// The name of the table of ACPI 1.0.
pub fn acpi_table_guid() -> (result: Guid)
    ensures
        result.data1 == 0xeb9d2d30 && result.data2 == 0x2d88 && result.data3 == 0x11d3,
        result.data4@ == seq![0x9au8, 0x16, 0x0, 0x90, 0x27, 0x3f, 0xc1, 0x4d],
{
    let result = Guid {
        data1: 0xeb9d2d30,
        data2: 0x2d88,
        data3: 0x11d3,
        data4: [0x9a, 0x16, 0x0, 0x90, 0x27, 0x3f, 0xc1, 0x4d],
    };
    assert(result.data4@ =~= seq![0x9au8, 0x16, 0x0, 0x90, 0x27, 0x3f, 0xc1, 0x4d]);
    result
}

/// The name of the table of ACPI 2.0 and later.
pub fn acpi_20_table_guid() -> (result: Guid)
    ensures
        result.data1 == 0x8868e871 && result.data2 == 0xe4f1 && result.data3 == 0x11d3,
        result.data4@ == seq![0xbcu8, 0x22, 0x0, 0x80, 0xc7, 0x3c, 0x88, 0x81],
{
    let result = Guid {
        data1: 0x8868e871,
        data2: 0xe4f1,
        data3: 0x11d3,
        data4: [0xbc, 0x22, 0x0, 0x80, 0xc7, 0x3c, 0x88, 0x81],
    };
    assert(result.data4@ =~= seq![0xbcu8, 0x22, 0x0, 0x80, 0xc7, 0x3c, 0x88, 0x81]);
    result
}

/// The name of the protocol of loaded images.
pub fn loaded_image_protocol_guid() -> (result: Guid)
    ensures
        result.data1 == 0x5b1b31a1 && result.data2 == 0x9562 && result.data3 == 0x11d2,
        result.data4@ == seq![0x8eu8, 0x3f, 0x00, 0xa0, 0xc9, 0x69, 0x72, 0x3b],
{
    let result = Guid {
        data1: 0x5b1b31a1,
        data2: 0x9562,
        data3: 0x11d2,
        data4: [0x8e, 0x3f, 0x00, 0xa0, 0xc9, 0x69, 0x72, 0x3b],
    };
    assert(result.data4@ =~= seq![0x8eu8, 0x3f, 0x00, 0xa0, 0xc9, 0x69, 0x72, 0x3b]);
    result
}

/// The name of the protocol of device paths.
pub fn device_path_guid() -> (result: Guid)
    ensures
        result.data1 == 0x09576e91 && result.data2 == 0x6d3f && result.data3 == 0x11d2,
        result.data4@ == seq![0x8eu8, 0x39, 0x00, 0xa0, 0xc9, 0x69, 0x72, 0x3b],
{
    let result = Guid {
        data1: 0x09576e91,
        data2: 0x6d3f,
        data3: 0x11d2,
        data4: [0x8e, 0x39, 0x00, 0xa0, 0xc9, 0x69, 0x72, 0x3b],
    };
    assert(result.data4@ =~= seq![0x8eu8, 0x39, 0x00, 0xa0, 0xc9, 0x69, 0x72, 0x3b]);
    result
}

/// The name of the protocol that turns device paths into text.
pub fn device_path_to_text_guid() -> (result: Guid)
    ensures
        result.data1 == 0x8b843e20 && result.data2 == 0x8132 && result.data3 == 0x4852,
        result.data4@ == seq![0x90u8, 0xcc, 0x55, 0x1a, 0x4e, 0x4a, 0x7f, 0x1c],
{
    let result = Guid {
        data1: 0x8b843e20,
        data2: 0x8132,
        data3: 0x4852,
        data4: [0x90, 0xcc, 0x55, 0x1a, 0x4e, 0x4a, 0x7f, 0x1c],
    };
    assert(result.data4@ =~= seq![0x90u8, 0xcc, 0x55, 0x1a, 0x4e, 0x4a, 0x7f, 0x1c]);
    result
}

/// The name of the protocol that loads files.
pub fn load_file_guid() -> (result: Guid)
    ensures
        result.data1 == 0x56ec3091 && result.data2 == 0x954c && result.data3 == 0x11d2,
        result.data4@ == seq![0x8eu8, 0x3f, 0x00, 0xa0, 0xc9, 0x69, 0x72, 0x3b],
{
    let result = Guid {
        data1: 0x56ec3091,
        data2: 0x954c,
        data3: 0x11d2,
        data4: [0x8e, 0x3f, 0x00, 0xa0, 0xc9, 0x69, 0x72, 0x3b],
    };
    assert(result.data4@ =~= seq![0x8eu8, 0x3f, 0x00, 0xa0, 0xc9, 0x69, 0x72, 0x3b]);
    result
}

/// The name of the second protocol that loads files.
pub fn load_file2_guid() -> (result: Guid)
    ensures
        result.data1 == 0x4006c0c1 && result.data2 == 0xfcb3 && result.data3 == 0x403e,
        result.data4@ == seq![0x99u8, 0x6d, 0x4a, 0x6c, 0x87, 0x24, 0xe0, 0x6d],
{
    let result = Guid {
        data1: 0x4006c0c1,
        data2: 0xfcb3,
        data3: 0x403e,
        data4: [0x99, 0x6d, 0x4a, 0x6c, 0x87, 0x24, 0xe0, 0x6d],
    };
    assert(result.data4@ =~= seq![0x99u8, 0x6d, 0x4a, 0x6c, 0x87, 0x24, 0xe0, 0x6d]);
    result
}

/// The name of the protocol of simple file systems.
pub fn simple_file_system_guid() -> (result: Guid)
    ensures
        result.data1 == 0x964e5b22 && result.data2 == 0x6459 && result.data3 == 0x11d2,
        result.data4@ == seq![0x8eu8, 0x39, 0x00, 0xa0, 0xc9, 0x69, 0x72, 0x3b],
{
    let result = Guid {
        data1: 0x964e5b22,
        data2: 0x6459,
        data3: 0x11d2,
        data4: [0x8e, 0x39, 0x00, 0xa0, 0xc9, 0x69, 0x72, 0x3b],
    };
    assert(result.data4@ =~= seq![0x8eu8, 0x39, 0x00, 0xa0, 0xc9, 0x69, 0x72, 0x3b]);
    result
}

/// The name of the protocol of files: all zeros.
pub fn file_guid() -> (result: Guid)
    ensures
        result.data1 == 0 && result.data2 == 0 && result.data3 == 0,
        result.data4@ == seq![0u8, 0, 0, 0, 0, 0, 0, 0],
{
    let result = Guid { data1: 0, data2: 0, data3: 0, data4: [0; 8] };
    assert(result.data4@ =~= seq![0u8, 0, 0, 0, 0, 0, 0, 0]);
    result
}

/// One row of the table of the vendors' tables: a name, and the table
/// that goes by it.
#[derive(Clone, Copy, PartialEq, Eq, Debug)]
pub struct ConfigurationTable {
    pub vendor_guid: Guid,
    pub vendor_table: Handle,
}

/// What the kernel reads of the firmware's system table.
pub struct SystemTable {
    pub hdr: TableHeader,
    pub firmware_revision: u32,
    pub configuration_table: Vec<ConfigurationTable>,
}

impl SystemTable {
    /// The rows of the table of the vendors' tables.
    pub open spec fn rows(&self) -> Seq<ConfigurationTable> {
        self.configuration_table@
    }

    pub fn new(
        hdr: TableHeader,
        firmware_revision: u32,
        configuration_table: Vec<ConfigurationTable>,
    ) -> (result: Self)
        ensures
            result.hdr == hdr,
            result.firmware_revision == firmware_revision,
            result.rows() == configuration_table@,
    {
        SystemTable { hdr, firmware_revision, configuration_table }
    }

    /// The rows of the table of the vendors' tables.
    pub fn configuration_table(&self) -> (result: &[ConfigurationTable])
        ensures
            result@ == self.rows(),
    {
        self.configuration_table.as_slice()
    }

    /// The table that goes by the name `guid`: that of the first row
    /// with this name, if there is one.
    pub fn get_vendor_table(&self, guid: &Guid) -> (result: Option<Handle>)
        ensures
            match result {
                Some(table) => exists|index: int|
                    {
                        &&& 0 <= index < self.rows().len()
                        &&& (#[trigger] self.rows()[index]).vendor_guid.same(guid)
                        &&& self.rows()[index].vendor_table == table
                        &&& forall|i: int|
                            0 <= i < index ==> !(#[trigger] self.rows()[i]).vendor_guid.same(guid)
                    },
                None => forall|i: int|
                    0 <= i < self.rows().len() ==> !(#[trigger] self.rows()[i]).vendor_guid.same(
                        guid,
                    ),
            },
    {
        let mut index: usize = 0;
        while index < self.configuration_table.len()
            invariant
                index <= self.rows().len(),
                self.rows() == self.configuration_table@,
                forall|i: int| 0 <= i < index ==> !(#[trigger] self.rows()[i]).vendor_guid.same(guid),
            decreases self.rows().len() - index,
        {
            if self.configuration_table[index].vendor_guid.equals(guid) {
                return Some(self.configuration_table[index].vendor_table);
            }
            index += 1;
        }
        None
    }
}

/// A buffer that the firmware allocated: its address, which is not
/// zero, and its size.
pub struct EfiBuffer {
    buffer: usize,
    size: usize,
}

impl EfiBuffer {
    /// The address of the buffer.
    pub closed spec fn address(&self) -> usize {
        self.buffer
    }

    /// The bytes of the buffer.
    pub closed spec fn bytes(&self) -> usize {
        self.size
    }

    /// The buffer of `size` bytes at `pointer`, which must not be zero.
    pub fn new(pointer: usize, size: usize) -> (result: EfiBuffer)
        requires
            pointer != 0,
        ensures
            result.address() == pointer,
            result.bytes() == size,
    {
        EfiBuffer { buffer: pointer, size }
    }

    pub fn as_ptr(&self) -> (result: usize)
        ensures
            result == self.address(),
    {
        *self.get_pointer()
    }

    pub fn as_mut_ptr(&mut self) -> (result: usize)
        ensures
            result == old(self).address(),
            *final(self) == *old(self),
    {
        self.get_mut_pointer()
    }

    pub fn get_pointer(&self) -> (result: &usize)
        ensures
            *result == self.address(),
    {
        &self.buffer
    }

    pub fn get_mut_pointer(&mut self) -> (result: usize)
        ensures
            result == old(self).address(),
            *final(self) == *old(self),
    {
        self.buffer
    }

    /// The bytes of the buffer.
    pub fn size(&self) -> (result: usize)
        ensures
            result == self.bytes(),
    {
        self.size
    }

    /// The address and the size of the buffer, which the caller is now
    /// to give back to the firmware.
    pub fn into_raw_parts(self) -> (result: (usize, usize))
        ensures
            result.0 == self.address(),
            result.1 == self.bytes(),
    {
        (self.buffer, self.size)
    }
}

} // verus!
