//! Reading an ELF file of 64 bits, little endian, that lies in a buffer:
//! the file header and the section headers.

use vstd::prelude::*;

verus! {

/// The bytes of a file header.
pub const FILE_HEADER_BYTES: usize = 64;

/// The bytes of a section header that are read.
pub const SECTION_HEADER_BYTES: usize = 64;

/// The number that the two bytes of `bytes` from `at` on stand for, the
/// low byte first.
pub open spec fn le_u16(bytes: Seq<u8>, at: int) -> int {
    bytes[at] + bytes[at + 1] * 0x100
}

/// The number that the four bytes of `bytes` from `at` on stand for, the
/// lowest byte first.
pub open spec fn le_u32(bytes: Seq<u8>, at: int) -> int {
    le_u16(bytes, at) + le_u16(bytes, at + 2) * 0x1_0000
}

/// The number that the eight bytes of `bytes` from `at` on stand for,
/// the lowest byte first.
pub open spec fn le_u64(bytes: Seq<u8>, at: int) -> int {
    le_u32(bytes, at) + le_u32(bytes, at + 4) * 0x1_0000_0000
}

/// Reads two bytes, the low byte first.
pub fn read_u16(bytes: &[u8], at: usize) -> (result: u16)
    requires
        at + 2 <= bytes.len(),
    ensures
        result == le_u16(bytes@, at as int),
{
    (bytes[at] as u16) + (bytes[at + 1] as u16) * 0x100
}

/// Reads four bytes, the lowest byte first.
pub fn read_u32(bytes: &[u8], at: usize) -> (result: u32)
    requires
        at + 4 <= bytes.len(),
    ensures
        result == le_u32(bytes@, at as int),
{
    (read_u16(bytes, at) as u32) + (read_u16(bytes, at + 2) as u32) * 0x1_0000
}

/// Reads eight bytes, the lowest byte first.
pub fn read_u64(bytes: &[u8], at: usize) -> (result: u64)
    requires
        at + 8 <= bytes.len(),
    ensures
        result == le_u64(bytes@, at as int),
{
    (read_u32(bytes, at) as u64) + (read_u32(bytes, at + 4) as u64) * 0x1_0000_0000
}

/// The kinds of ELF file.
#[derive(Clone, Copy, PartialEq, Eq, Structural, Debug)]
pub enum ElfType {
    /// No kind of file: the number 0.
    NoType,
    Relocatable,
    Executable,
    Dynamic,
    Core,
    LOOS,
    HIOS,
    LOPROC,
    HIPROC,
}

/// The kind of file that the number `value` of a file header stands
/// for, if it stands for one.
pub open spec fn elf_type_of(value: u16) -> Option<ElfType> {
    if value == 0 {
        Some(ElfType::NoType)
    } else if value == 1 {
        Some(ElfType::Relocatable)
    } else if value == 2 {
        Some(ElfType::Executable)
    } else if value == 3 {
        Some(ElfType::Dynamic)
    } else if value == 4 {
        Some(ElfType::Core)
    } else if value == 0xfe00 {
        Some(ElfType::LOOS)
    } else if value == 0xfeff {
        Some(ElfType::HIOS)
    } else if value == 0xff00 {
        Some(ElfType::LOPROC)
    } else if value == 0xffff {
        Some(ElfType::HIPROC)
    } else {
        None
    }
}

/// The kinds of section.
#[derive(Clone, Copy, PartialEq, Eq, Structural, Debug)]
pub enum SectionType {
    Null,
    ProgramBits,
    SymbolTable,
    StringTable,
    Rela,
    SymbolHashTable,
    DynamicLinkingTable,
    Note,
    NoBits,
    Rel,
    SectionHeaderLib,
    DynamicLoaderSymbolTable,
    LOOS,
    HIOS,
    LOPROC,
    HIPROC,
}

/// The kind of section that the number `value` of a section header
/// stands for, if it stands for one.
pub open spec fn section_type_of(value: u32) -> Option<SectionType> {
    if value == 0 {
        Some(SectionType::Null)
    } else if value == 1 {
        Some(SectionType::ProgramBits)
    } else if value == 2 {
        Some(SectionType::SymbolTable)
    } else if value == 3 {
        Some(SectionType::StringTable)
    } else if value == 4 {
        Some(SectionType::Rela)
    } else if value == 5 {
        Some(SectionType::SymbolHashTable)
    } else if value == 6 {
        Some(SectionType::DynamicLinkingTable)
    } else if value == 7 {
        Some(SectionType::Note)
    } else if value == 8 {
        Some(SectionType::NoBits)
    } else if value == 9 {
        Some(SectionType::Rel)
    } else if value == 10 {
        Some(SectionType::SectionHeaderLib)
    } else if value == 11 {
        Some(SectionType::DynamicLoaderSymbolTable)
    } else if value == 0x6000_0000 {
        Some(SectionType::LOOS)
    } else if value == 0x6fff_ffff {
        Some(SectionType::HIOS)
    } else if value == 0x7000_0000 {
        Some(SectionType::LOPROC)
    } else if value == 0x7fff_ffff {
        Some(SectionType::HIPROC)
    } else {
        None
    }
}

/// The first 16 bytes of a file header, which say what kind of file
/// follows.
#[derive(Clone, Copy, PartialEq, Eq, Debug)]
pub struct FileHeaderIdentifier {
    pub magic_number: [u8; 4],
    pub class: u8,
    pub data: u8,
    pub version: u8,
    pub os_abi: u8,
    pub abi_version: u8,
}

/// The header at the start of an ELF file.
#[derive(Clone, Copy, PartialEq, Eq, Debug)]
pub struct FileHeader {
    pub identifier: FileHeaderIdentifier,
    /// The number of the kind of file.
    pub elf_type: u16,
    /// The number of the instruction set.
    pub machine: u16,
    pub version: u32,
    /// The address at which the program starts to run.
    pub entry: u64,
    pub program_header_offset: u64,
    /// Where in the file the section headers start.
    pub section_header_offset: u64,
    pub flags: u32,
    pub elf_header_size: u16,
    pub program_header_entry_size: u16,
    pub program_header_humber: u16,
    /// The bytes from one section header to the next.
    pub section_header_entry_size: u16,
    pub section_header_number: u16,
    pub section_header_string_index: u16,
}

/// The file header that the first 64 bytes of `bytes` hold.
pub open spec fn file_header_of(bytes: Seq<u8>) -> FileHeader {
    FileHeader {
        identifier: FileHeaderIdentifier {
            magic_number: [bytes[0], bytes[1], bytes[2], bytes[3]],
            class: bytes[4],
            data: bytes[5],
            version: bytes[6],
            os_abi: bytes[7],
            abi_version: bytes[8],
        },
        elf_type: le_u16(bytes, 16) as u16,
        machine: le_u16(bytes, 18) as u16,
        version: le_u32(bytes, 20) as u32,
        entry: le_u64(bytes, 24) as u64,
        program_header_offset: le_u64(bytes, 32) as u64,
        section_header_offset: le_u64(bytes, 40) as u64,
        flags: le_u32(bytes, 48) as u32,
        elf_header_size: le_u16(bytes, 52) as u16,
        program_header_entry_size: le_u16(bytes, 54) as u16,
        program_header_humber: le_u16(bytes, 56) as u16,
        section_header_entry_size: le_u16(bytes, 58) as u16,
        section_header_number: le_u16(bytes, 60) as u16,
        section_header_string_index: le_u16(bytes, 62) as u16,
    }
}

impl FileHeader {
    /// The address at which the program starts to run.
    pub fn entry_ptr(&self) -> (result: u64)
        ensures
            result == self.entry,
    {
        self.entry
    }

    /// The kind of file, if the header names one.
    pub fn kind(&self) -> (result: Option<ElfType>)
        ensures
            result == elf_type_of(self.elf_type),
    {
        match self.elf_type {
            0 => Some(ElfType::NoType),
            1 => Some(ElfType::Relocatable),
            2 => Some(ElfType::Executable),
            3 => Some(ElfType::Dynamic),
            4 => Some(ElfType::Core),
            0xfe00 => Some(ElfType::LOOS),
            0xfeff => Some(ElfType::HIOS),
            0xff00 => Some(ElfType::LOPROC),
            0xffff => Some(ElfType::HIPROC),
            _ => None,
        }
    }
}

/// The header of one section of an ELF file.
#[derive(Clone, Copy, PartialEq, Eq, Structural, Debug)]
pub struct SectionHeader {
    pub name_index: u32,
    /// The number of the kind of section.
    pub section_type: u32,
    pub flags: u64,
    /// The address at which the section is to stand in memory.
    pub virtual_address: u64,
    /// Where in the file the section's bytes start.
    pub file_offset: u64,
    /// The bytes that the section takes up in memory.
    pub size: u64,
    pub link: u32,
    pub info: u32,
    pub address_align: u64,
    pub entry_size: u64,
}

/// The section header that the 64 bytes of `bytes` from `at` on hold.
pub open spec fn section_header_of(bytes: Seq<u8>, at: int) -> SectionHeader {
    SectionHeader {
        name_index: le_u32(bytes, at) as u32,
        section_type: le_u32(bytes, at + 4) as u32,
        flags: le_u64(bytes, at + 8) as u64,
        virtual_address: le_u64(bytes, at + 16) as u64,
        file_offset: le_u64(bytes, at + 24) as u64,
        size: le_u64(bytes, at + 32) as u64,
        link: le_u32(bytes, at + 40) as u32,
        info: le_u32(bytes, at + 44) as u32,
        address_align: le_u64(bytes, at + 48) as u64,
        entry_size: le_u64(bytes, at + 56) as u64,
    }
}

impl SectionHeader {
    /// The address at which the section is to stand in memory.
    pub fn addr_ptr(&self) -> (result: u64)
        ensures
            result == self.virtual_address,
    {
        self.virtual_address
    }

    /// The kind of section, if the header names one.
    pub fn kind(&self) -> (result: Option<SectionType>)
        ensures
            result == section_type_of(self.section_type),
    {
        match self.section_type {
            0 => Some(SectionType::Null),
            1 => Some(SectionType::ProgramBits),
            2 => Some(SectionType::SymbolTable),
            3 => Some(SectionType::StringTable),
            4 => Some(SectionType::Rela),
            5 => Some(SectionType::SymbolHashTable),
            6 => Some(SectionType::DynamicLinkingTable),
            7 => Some(SectionType::Note),
            8 => Some(SectionType::NoBits),
            9 => Some(SectionType::Rel),
            10 => Some(SectionType::SectionHeaderLib),
            11 => Some(SectionType::DynamicLoaderSymbolTable),
            0x6000_0000 => Some(SectionType::LOOS),
            0x6fff_ffff => Some(SectionType::HIOS),
            0x7000_0000 => Some(SectionType::LOPROC),
            0x7fff_ffff => Some(SectionType::HIPROC),
            _ => None,
        }
    }

    /// Whether the section's bytes lie within `file`.
    pub open spec fn within(&self, file: &File) -> bool {
        self.file_offset + self.size <= file@.len()
    }

    /// The bytes of the section in `file`, which must hold them all.
    pub fn offset_buffer<'a>(&self, file: &'a File) -> (result: &'a [u8])
        requires
            self.within(file),
        ensures
            result@ == file@.subrange(
                self.file_offset as int,
                self.file_offset as int + self.size as int,
            ),
    {
        let bytes = file.buffer.as_slice();
        let length = bytes.len();
        let start = self.file_offset as usize;
        let end = (self.file_offset + self.size) as usize;
        vstd::slice::slice_subrange(bytes, start, end)
    }
}

/// An ELF file in a buffer.
pub struct File {
    buffer: Vec<u8>,
}

/// The section headers of a file, but for the first, which describes no
/// section.
pub struct SectionHeaders {
    headers: Vec<SectionHeader>,
    current: usize,
}

impl SectionHeaders {
    /// The headers that are still to come.
    pub closed spec fn view(&self) -> Seq<SectionHeader> {
        self.headers@.subrange(self.current as int, self.headers@.len() as int)
    }

    /// The place in the list is within it.
    pub closed spec fn wf(&self) -> bool {
        self.current <= self.headers@.len()
    }

    /// The header that comes next, or nothing when all were given.
    pub fn next(&mut self) -> (result: Option<SectionHeader>)
        requires
            old(self).wf(),
        ensures
            final(self).wf(),
            old(self)@.len() == 0 ==> result is None && final(self)@ == old(self)@,
            old(self)@.len() > 0 ==> result == Some(old(self)@[0]) && final(self)@ == old(
                self,
            )@.drop_first(),
    {
        if self.current < self.headers.len() {
            let result = self.headers[self.current];
            self.current += 1;
            assert(final(self)@ =~= old(self)@.drop_first());
            Some(result)
        } else {
            None
        }
    }
}

impl File {
    /// The bytes of the file.
    pub closed spec fn view(&self) -> Seq<u8> {
        self.buffer@
    }

    /// Where in the file the section header numbered `index` starts.
    pub open spec fn section_header_at(&self, index: int) -> int {
        file_header_of(self@).section_header_offset + file_header_of(
            self@,
        ).section_header_entry_size * index
    }

    /// Whether the file holds its file header and all the section
    /// headers that the file header speaks of.
    pub open spec fn headers_within(&self) -> bool {
        &&& self@.len() >= FILE_HEADER_BYTES
        &&& file_header_of(self@).section_header_number > 0 ==> self.section_header_at(
            file_header_of(self@).section_header_number - 1,
        ) + SECTION_HEADER_BYTES <= self@.len()
    }

    pub fn from_buffer(buffer: Vec<u8>) -> (result: File)
        ensures
            result@ == buffer@,
    {
        File { buffer }
    }

    /// The bytes in the file.
    pub fn size(&self) -> (result: usize)
        ensures
            result == self@.len(),
    {
        self.buffer.len()
    }

    /// The file header, read from the first 64 bytes of the file.
    pub fn file_header(&self) -> (result: FileHeader)
        requires
            self@.len() >= FILE_HEADER_BYTES,
        ensures
            result == file_header_of(self@),
    {
        let bytes = self.buffer.as_slice();
        FileHeader {
            identifier: FileHeaderIdentifier {
                magic_number: [bytes[0], bytes[1], bytes[2], bytes[3]],
                class: bytes[4],
                data: bytes[5],
                version: bytes[6],
                os_abi: bytes[7],
                abi_version: bytes[8],
            },
            elf_type: read_u16(bytes, 16),
            machine: read_u16(bytes, 18),
            version: read_u32(bytes, 20),
            entry: read_u64(bytes, 24),
            program_header_offset: read_u64(bytes, 32),
            section_header_offset: read_u64(bytes, 40),
            flags: read_u32(bytes, 48),
            elf_header_size: read_u16(bytes, 52),
            program_header_entry_size: read_u16(bytes, 54),
            program_header_humber: read_u16(bytes, 56),
            section_header_entry_size: read_u16(bytes, 58),
            section_header_number: read_u16(bytes, 60),
            section_header_string_index: read_u16(bytes, 62),
        }
    }

    /// Whether the file holds its file header and all the section
    /// headers that the file header speaks of.
    pub fn has_headers(&self) -> (result: bool)
        ensures
            result == self.headers_within(),
    {
        if self.buffer.len() < FILE_HEADER_BYTES {
            return false;
        }
        let header = self.file_header();
        if header.section_header_number == 0 {
            return true;
        }
        let last: u64 = (header.section_header_number - 1) as u64;
        let stride: u64 = header.section_header_entry_size as u64;
        assert(stride * last <= 0xffff * 0xffff) by (nonlinear_arith)
            requires
                0 <= stride <= 0xffff,
                0 <= last <= 0xffff,
        ;
        let span: u64 = stride * last + SECTION_HEADER_BYTES as u64;
        let size: u64 = self.buffer.len() as u64;
        span <= size && header.section_header_offset <= size - span
    }

    /// The section headers from the second on, in the order of the
    /// file.
    pub fn section_headers(&self) -> (result: SectionHeaders)
        requires
            self.headers_within(),
        ensures
            result.wf(),
            result@.len() == if file_header_of(self@).section_header_number > 0 {
                file_header_of(self@).section_header_number - 1
            } else {
                0
            },
            forall|i: int|
                0 <= i < result@.len() ==> (#[trigger] result@[i]) == section_header_of(
                    self@,
                    self.section_header_at(i + 1),
                ),
    {
        let header = self.file_header();
        let bytes = self.buffer.as_slice();
        let number: usize = header.section_header_number as usize;
        let stride: u64 = header.section_header_entry_size as u64;
        let mut headers: Vec<SectionHeader> = Vec::new();
        let mut current: usize = 1;
        if number == 0 {
            let result = SectionHeaders { headers, current: 0 };
            assert(result@ =~= Seq::<SectionHeader>::empty());
            return result;
        }
        while current < number
            invariant
                1 <= current <= number,
                number == header.section_header_number,
                stride == header.section_header_entry_size,
                header == file_header_of(self@),
                bytes@ == self@,
                self.headers_within(),
                headers@.len() == current - 1,
                forall|i: int|
                    0 <= i < headers@.len() ==> (#[trigger] headers@[i]) == section_header_of(
                        self@,
                        self.section_header_at(i + 1),
                    ),
            decreases number - current,
        {
            assert(0 <= stride * current <= stride * (number - 1)) by (nonlinear_arith)
                requires
                    0 <= current <= number - 1,
                    stride >= 0,
            ;
            let length = bytes.len();
            let at: usize = (header.section_header_offset + stride * (current as u64)) as usize;
            assert(at == self.section_header_at(current as int));
            headers.push(
                SectionHeader {
                    name_index: read_u32(bytes, at),
                    section_type: read_u32(bytes, at + 4),
                    flags: read_u64(bytes, at + 8),
                    virtual_address: read_u64(bytes, at + 16),
                    file_offset: read_u64(bytes, at + 24),
                    size: read_u64(bytes, at + 32),
                    link: read_u32(bytes, at + 40),
                    info: read_u32(bytes, at + 44),
                    address_align: read_u64(bytes, at + 48),
                    entry_size: read_u64(bytes, at + 56),
                },
            );
            current += 1;
        }
        let result = SectionHeaders { headers, current: 0 };
        assert(result@ =~= headers@);
        result
    }
}

} // verus!
