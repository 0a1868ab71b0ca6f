//! The optional header: the record behind the file header, in one of three
//! layouts that its magic number tells apart.

use crate::characteristics::DLLCharacteristics;
use crate::error::{view_result, ParseError};
use crate::fields::{DataDirectoryTableField, OptionalHeaderSubSystem};
use crate::flags::flags_of;
use crate::reader::{
    get_le_u32, lemma_skip_skip, peek_u16, peek_u32, peek_u64, u16_at, u32_at, u64_at,
};
use vstd::prelude::*;
use vstd::slice::slice_subrange;

verus! {

broadcast use lemma_skip_skip;

/// The magic number of the 32-bit layout.
pub const MAGIC_PE32: u16 = 0x10b;

/// The magic number of the 64-bit layout.
pub const MAGIC_PE32_PLUS: u16 = 0x20b;

/// The magic number of the ROM layout.
pub const MAGIC_ROM: u16 = 0x107;

/// The fields that all three layouts begin with.
#[derive(Clone, Copy, Debug, Default, PartialEq, Eq, Structural)]
pub struct CommonOptionalHeaderFields {
    /// The magic number that tells the layouts apart.
    pub magic: u16,
    /// The linker's major version.
    pub major_linker_version: u8,
    /// The linker's minor version.
    pub minor_linker_version: u8,
    /// The size of the code section, or the sum of all code sections.
    pub size_of_code: u32,
    /// The size of the initialized data section, or the sum of all such sections.
    pub size_of_initialized_data: u32,
    /// The size of the uninitialized data section, or the sum of all such sections.
    pub size_of_uninitialized_data: u32,
    /// The address of the entry point, relative to the image base.
    pub address_of_entry_point: u32,
    /// The address of the beginning of the code section, relative to the image base.
    pub base_of_code: u32,
}

/// One entry of the data directory.
#[derive(Clone, Copy, Debug, Default, PartialEq, Eq, Structural)]
pub struct DataDirectory {
    /// The address of the table, relative to the image base.
    pub virtual_address: u32,
    /// The size of the table in bytes.
    pub size: u32,
    /// What the entry points to, by its position in the directory.
    pub field: DataDirectoryTableField,
}

/// The optional header of a ROM image: the common fields alone.
#[derive(Clone, Copy, Debug, Default, PartialEq, Eq, Structural)]
pub struct ImageOptionalHeaderRom {
    pub common: CommonOptionalHeaderFields,
}

/// The optional header of a 32-bit image.
#[derive(Debug, Default)]
pub struct ImageOptionalHeader32 {
    pub common: CommonOptionalHeaderFields,
    /// The address of the beginning of the data section, relative to the image base.
    pub base_of_data: u32,
    /// The preferred address of the first byte of the image in memory.
    pub image_base: u32,
    /// The alignment of sections when they are loaded into memory.
    pub section_alignment: u32,
    /// The alignment of the raw data of sections in the file.
    pub file_alignment: u32,
    /// The major version of the required operating system.
    pub major_operating_system_version: u16,
    /// The minor version of the required operating system.
    pub minor_operating_system_version: u16,
    /// The major version of the image.
    pub major_image_version: u16,
    /// The minor version of the image.
    pub minor_image_version: u16,
    /// The major version of the subsystem.
    pub major_subsystem_version: u16,
    /// The minor version of the subsystem.
    pub minor_subsystem_version: u16,
    /// Reserved, must be zero.
    pub win32_version_value: u32,
    /// The size of the image as loaded in memory, headers included.
    pub size_of_image: u32,
    /// The combined size of the DOS stub, the headers and the section table.
    pub size_of_headers: u32,
    /// The image file checksum.
    pub checksum: u32,
    /// The subsystem that is required to run the image.
    pub subsystem: OptionalHeaderSubSystem,
    /// The DLL characteristics of the image.
    pub dll_characteristics: Vec<DLLCharacteristics>,
    /// The number of bytes to reserve for the stack.
    pub size_of_stack_reserve: u32,
    /// The number of bytes to commit for the stack.
    pub size_of_stack_commit: u32,
    /// The number of bytes to reserve for the local heap.
    pub size_of_heap_reserve: u32,
    /// The number of bytes to commit for the local heap.
    pub size_of_heap_commit: u32,
    /// Reserved, must be zero.
    pub loader_flags: u32,
    /// The number of entries of the data directory.
    pub number_of_rva_and_sizes: u32,
    /// The data directory.
    pub data_directories: Vec<DataDirectory>,
}

/// The model of an `ImageOptionalHeader32`.
pub struct ImageOptionalHeader32View {
    pub common: CommonOptionalHeaderFields,
    pub base_of_data: u32,
    pub image_base: u32,
    pub section_alignment: u32,
    pub file_alignment: u32,
    pub major_operating_system_version: u16,
    pub minor_operating_system_version: u16,
    pub major_image_version: u16,
    pub minor_image_version: u16,
    pub major_subsystem_version: u16,
    pub minor_subsystem_version: u16,
    pub win32_version_value: u32,
    pub size_of_image: u32,
    pub size_of_headers: u32,
    pub checksum: u32,
    pub subsystem: OptionalHeaderSubSystem,
    pub dll_characteristics: Seq<DLLCharacteristics>,
    pub size_of_stack_reserve: u32,
    pub size_of_stack_commit: u32,
    pub size_of_heap_reserve: u32,
    pub size_of_heap_commit: u32,
    pub loader_flags: u32,
    pub number_of_rva_and_sizes: u32,
    pub data_directories: Seq<DataDirectory>,
}

impl View for ImageOptionalHeader32 {
    type V = ImageOptionalHeader32View;

    open spec fn view(&self) -> ImageOptionalHeader32View {
        ImageOptionalHeader32View {
            common: self.common,
            base_of_data: self.base_of_data,
            image_base: self.image_base,
            section_alignment: self.section_alignment,
            file_alignment: self.file_alignment,
            major_operating_system_version: self.major_operating_system_version,
            minor_operating_system_version: self.minor_operating_system_version,
            major_image_version: self.major_image_version,
            minor_image_version: self.minor_image_version,
            major_subsystem_version: self.major_subsystem_version,
            minor_subsystem_version: self.minor_subsystem_version,
            win32_version_value: self.win32_version_value,
            size_of_image: self.size_of_image,
            size_of_headers: self.size_of_headers,
            checksum: self.checksum,
            subsystem: self.subsystem,
            dll_characteristics: self.dll_characteristics@,
            size_of_stack_reserve: self.size_of_stack_reserve,
            size_of_stack_commit: self.size_of_stack_commit,
            size_of_heap_reserve: self.size_of_heap_reserve,
            size_of_heap_commit: self.size_of_heap_commit,
            loader_flags: self.loader_flags,
            number_of_rva_and_sizes: self.number_of_rva_and_sizes,
            data_directories: self.data_directories@,
        }
    }
}

/// The optional header of a 64-bit image.
#[derive(Debug, Default)]
pub struct ImageOptionalHeader64 {
    pub common: CommonOptionalHeaderFields,
    /// The preferred address of the first byte of the image in memory.
    pub image_base: u64,
    /// The alignment of sections when they are loaded into memory.
    pub section_alignment: u32,
    /// The alignment of the raw data of sections in the file.
    pub file_alignment: u32,
    /// The major version of the required operating system.
    pub major_operating_system_version: u16,
    /// The minor version of the required operating system.
    pub minor_operating_system_version: u16,
    /// The major version of the image.
    pub major_image_version: u16,
    /// The minor version of the image.
    pub minor_image_version: u16,
    /// The major version of the subsystem.
    pub major_subsystem_version: u16,
    /// The minor version of the subsystem.
    pub minor_subsystem_version: u16,
    /// Reserved, must be zero.
    pub win32_version_value: u32,
    /// The size of the image as loaded in memory, headers included.
    pub size_of_image: u32,
    /// The combined size of the DOS stub, the headers and the section table.
    pub size_of_headers: u32,
    /// The image file checksum.
    pub checksum: u32,
    /// The subsystem that is required to run the image.
    pub subsystem: OptionalHeaderSubSystem,
    /// The DLL characteristics of the image.
    pub dll_characteristics: Vec<DLLCharacteristics>,
    /// The number of bytes to reserve for the stack.
    pub size_of_stack_reserve: u64,
    /// The number of bytes to commit for the stack.
    pub size_of_stack_commit: u64,
    /// The number of bytes to reserve for the local heap.
    pub size_of_heap_reserve: u64,
    /// The number of bytes to commit for the local heap.
    pub size_of_heap_commit: u64,
    /// Reserved, must be zero.
    pub loader_flags: u32,
    /// The number of entries of the data directory.
    pub number_of_rva_and_sizes: u32,
    /// The data directory.
    pub data_directories: Vec<DataDirectory>,
}

/// The model of an `ImageOptionalHeader64`.
pub struct ImageOptionalHeader64View {
    pub common: CommonOptionalHeaderFields,
    pub image_base: u64,
    pub section_alignment: u32,
    pub file_alignment: u32,
    pub major_operating_system_version: u16,
    pub minor_operating_system_version: u16,
    pub major_image_version: u16,
    pub minor_image_version: u16,
    pub major_subsystem_version: u16,
    pub minor_subsystem_version: u16,
    pub win32_version_value: u32,
    pub size_of_image: u32,
    pub size_of_headers: u32,
    pub checksum: u32,
    pub subsystem: OptionalHeaderSubSystem,
    pub dll_characteristics: Seq<DLLCharacteristics>,
    pub size_of_stack_reserve: u64,
    pub size_of_stack_commit: u64,
    pub size_of_heap_reserve: u64,
    pub size_of_heap_commit: u64,
    pub loader_flags: u32,
    pub number_of_rva_and_sizes: u32,
    pub data_directories: Seq<DataDirectory>,
}

impl View for ImageOptionalHeader64 {
    type V = ImageOptionalHeader64View;

    open spec fn view(&self) -> ImageOptionalHeader64View {
        ImageOptionalHeader64View {
            common: self.common,
            image_base: self.image_base,
            section_alignment: self.section_alignment,
            file_alignment: self.file_alignment,
            major_operating_system_version: self.major_operating_system_version,
            minor_operating_system_version: self.minor_operating_system_version,
            major_image_version: self.major_image_version,
            minor_image_version: self.minor_image_version,
            major_subsystem_version: self.major_subsystem_version,
            minor_subsystem_version: self.minor_subsystem_version,
            win32_version_value: self.win32_version_value,
            size_of_image: self.size_of_image,
            size_of_headers: self.size_of_headers,
            checksum: self.checksum,
            subsystem: self.subsystem,
            dll_characteristics: self.dll_characteristics@,
            size_of_stack_reserve: self.size_of_stack_reserve,
            size_of_stack_commit: self.size_of_stack_commit,
            size_of_heap_reserve: self.size_of_heap_reserve,
            size_of_heap_commit: self.size_of_heap_commit,
            loader_flags: self.loader_flags,
            number_of_rva_and_sizes: self.number_of_rva_and_sizes,
            data_directories: self.data_directories@,
        }
    }
}

/// The optional header, in the layout that its magic number chose.
#[derive(Debug)]
pub enum OptionalHeader {
    ImageOptionalHeader32(ImageOptionalHeader32),
    ImageOptionalHeader64(ImageOptionalHeader64),
    ImageOptionalHeaderRom(ImageOptionalHeaderRom),
}

/// The model of an `OptionalHeader`.
pub enum OptionalHeaderView {
    ImageOptionalHeader32(ImageOptionalHeader32View),
    ImageOptionalHeader64(ImageOptionalHeader64View),
    ImageOptionalHeaderRom(ImageOptionalHeaderRom),
}

impl View for OptionalHeader {
    type V = OptionalHeaderView;

    open spec fn view(&self) -> OptionalHeaderView {
        match self {
            OptionalHeader::ImageOptionalHeader32(header) => {
                OptionalHeaderView::ImageOptionalHeader32(header@)
            },
            OptionalHeader::ImageOptionalHeader64(header) => {
                OptionalHeaderView::ImageOptionalHeader64(header@)
            },
            OptionalHeader::ImageOptionalHeaderRom(header) => {
                OptionalHeaderView::ImageOptionalHeaderRom(*header)
            },
        }
    }
}

impl CommonOptionalHeaderFields {
    /// The common fields with every number at zero.
    pub open spec fn zeroed() -> CommonOptionalHeaderFields {
        CommonOptionalHeaderFields {
            magic: 0,
            major_linker_version: 0,
            minor_linker_version: 0,
            size_of_code: 0,
            size_of_initialized_data: 0,
            size_of_uninitialized_data: 0,
            address_of_entry_point: 0,
            base_of_code: 0,
        }
    }
}

impl ImageOptionalHeader32View {
    /// The header with every number at zero, the unknown subsystem, no flag
    /// and no directory.
    pub open spec fn zeroed() -> ImageOptionalHeader32View {
        ImageOptionalHeader32View {
            common: CommonOptionalHeaderFields::zeroed(),
            base_of_data: 0,
            image_base: 0,
            section_alignment: 0,
            file_alignment: 0,
            major_operating_system_version: 0,
            minor_operating_system_version: 0,
            major_image_version: 0,
            minor_image_version: 0,
            major_subsystem_version: 0,
            minor_subsystem_version: 0,
            win32_version_value: 0,
            size_of_image: 0,
            size_of_headers: 0,
            checksum: 0,
            subsystem: OptionalHeaderSubSystem::IMAGE_SUBSYSTEM_UNKNOWN,
            dll_characteristics: Seq::empty(),
            size_of_stack_reserve: 0,
            size_of_stack_commit: 0,
            size_of_heap_reserve: 0,
            size_of_heap_commit: 0,
            loader_flags: 0,
            number_of_rva_and_sizes: 0,
            data_directories: Seq::empty(),
        }
    }
}

impl Default for OptionalHeader {
    /// The 32-bit layout with every number at zero, the unknown subsystem, no
    /// flag and no directory.
    fn default() -> (header: Self)
        ensures
            header@ == OptionalHeaderView::ImageOptionalHeader32(
                ImageOptionalHeader32View::zeroed(),
            ),
    {
        let common = CommonOptionalHeaderFields {
            magic: 0,
            major_linker_version: 0,
            minor_linker_version: 0,
            size_of_code: 0,
            size_of_initialized_data: 0,
            size_of_uninitialized_data: 0,
            address_of_entry_point: 0,
            base_of_code: 0,
        };
        let header = ImageOptionalHeader32 {
            common,
            base_of_data: 0,
            image_base: 0,
            section_alignment: 0,
            file_alignment: 0,
            major_operating_system_version: 0,
            minor_operating_system_version: 0,
            major_image_version: 0,
            minor_image_version: 0,
            major_subsystem_version: 0,
            minor_subsystem_version: 0,
            win32_version_value: 0,
            size_of_image: 0,
            size_of_headers: 0,
            checksum: 0,
            subsystem: OptionalHeaderSubSystem::IMAGE_SUBSYSTEM_UNKNOWN,
            dll_characteristics: Vec::new(),
            size_of_stack_reserve: 0,
            size_of_stack_commit: 0,
            size_of_heap_reserve: 0,
            size_of_heap_commit: 0,
            loader_flags: 0,
            number_of_rva_and_sizes: 0,
            data_directories: Vec::new(),
        };
        OptionalHeader::ImageOptionalHeader32(header)
    }
}

/// True when the directory has at most sixteen entries and the entry at each
/// position has the meaning of that position.
pub open spec fn directory_wf(entries: Seq<DataDirectory>) -> bool {
    &&& entries.len() <= 16
    &&& forall|i: int| 0 <= i < entries.len() ==> (#[trigger] entries[i]).field.index() == i
}

impl ImageOptionalHeader32View {
    /// True when the magic number is the one of the layout and the data
    /// directory is the one that the header counts.
    pub open spec fn wf(self) -> bool {
        &&& self.common.magic == MAGIC_PE32
        &&& self.data_directories.len() == self.number_of_rva_and_sizes
        &&& directory_wf(self.data_directories)
    }
}

impl ImageOptionalHeader64View {
    /// True when the magic number is the one of the layout and the data
    /// directory is the one that the header counts.
    pub open spec fn wf(self) -> bool {
        &&& self.common.magic == MAGIC_PE32_PLUS
        &&& self.data_directories.len() == self.number_of_rva_and_sizes
        &&& directory_wf(self.data_directories)
    }
}

impl OptionalHeaderView {
    /// True when the header is well formed in its layout.
    pub open spec fn wf(self) -> bool {
        match self {
            OptionalHeaderView::ImageOptionalHeader32(header) => header.wf(),
            OptionalHeaderView::ImageOptionalHeader64(header) => header.wf(),
            OptionalHeaderView::ImageOptionalHeaderRom(header) => header.common.magic
                == MAGIC_ROM,
        }
    }
}

/// The common fields that the first twenty-four bytes of `o` hold.
pub open spec fn common_fields(o: Seq<u8>) -> CommonOptionalHeaderFields {
    CommonOptionalHeaderFields {
        magic: u16_at(o, 0),
        major_linker_version: o[2],
        minor_linker_version: o[3],
        size_of_code: u32_at(o, 4),
        size_of_initialized_data: u32_at(o, 8),
        size_of_uninitialized_data: u32_at(o, 12),
        address_of_entry_point: u32_at(o, 16),
        base_of_code: u32_at(o, 20),
    }
}

/// The entry of the data directory that the eight bytes at `at` hold, with
/// the meaning `field`.
pub open spec fn data_directory_at(o: Seq<u8>, at: int, field: DataDirectoryTableField)
    -> DataDirectory {
    DataDirectory { virtual_address: u32_at(o, at), size: u32_at(o, at + 4), field }
}

/// The meaning of the slot at position `index` of the directory.
pub open spec fn field_at(index: int) -> DataDirectoryTableField {
    DataDirectoryTableField::from_index(index as u32).unwrap()
}

/// The data directory of `count` entries that begins at offset `at` of `o`.
/// Entries are taken one by one: each needs its eight bytes, and then a
/// position below sixteen.
pub open spec fn data_directories(o: Seq<u8>, at: int, count: nat) -> Result<
    Seq<DataDirectory>,
    ParseError,
> {
    if count <= 16 {
        if o.len() < at + 8 * count {
            Err(ParseError::Incomplete)
        } else {
            Ok(Seq::new(count, |i: int| data_directory_at(o, at + 8 * i, field_at(i))))
        }
    } else {
        if o.len() < at + 8 * 17 {
            Err(ParseError::Incomplete)
        } else {
            Err(ParseError::UnsupportedValue)
        }
    }
}

/// The fields of the 32-bit layout that `o` holds, around the subsystem and the
/// data directory, which are given.
pub open spec fn optional_header_32_fields(
    o: Seq<u8>,
    subsystem: OptionalHeaderSubSystem,
    data_directories: Seq<DataDirectory>,
) -> ImageOptionalHeader32View {
    ImageOptionalHeader32View {
        common: common_fields(o),
        base_of_data: u32_at(o, 24),
        image_base: u32_at(o, 28),
        section_alignment: u32_at(o, 32),
        file_alignment: u32_at(o, 36),
        major_operating_system_version: u16_at(o, 40),
        minor_operating_system_version: u16_at(o, 42),
        major_image_version: u16_at(o, 44),
        minor_image_version: u16_at(o, 46),
        major_subsystem_version: u16_at(o, 48),
        minor_subsystem_version: u16_at(o, 50),
        win32_version_value: u32_at(o, 52),
        size_of_image: u32_at(o, 56),
        size_of_headers: u32_at(o, 60),
        checksum: u32_at(o, 64),
        subsystem,
        dll_characteristics: flags_of(u16_at(o, 70), DLLCharacteristics::all()),
        size_of_stack_reserve: u32_at(o, 72),
        size_of_stack_commit: u32_at(o, 76),
        size_of_heap_reserve: u32_at(o, 80),
        size_of_heap_commit: u32_at(o, 84),
        loader_flags: u32_at(o, 88),
        number_of_rva_and_sizes: u32_at(o, 92),
        data_directories,
    }
}

/// The 32-bit optional header that `o` holds, once its magic number and its
/// common fields are known to be there. The subsystem is judged as soon as its
/// two bytes are there, before the rest is asked for.
pub open spec fn optional_header_32(o: Seq<u8>) -> Result<ImageOptionalHeader32View, ParseError> {
    if o.len() < 70 {
        Err(ParseError::Incomplete)
    } else {
        match OptionalHeaderSubSystem::from_code(u16_at(o, 68)) {
            None => Err(ParseError::UnsupportedValue),
            Some(subsystem) => if o.len() < 96 {
                Err(ParseError::Incomplete)
            } else {
                match data_directories(o, 96, u32_at(o, 92) as nat) {
                    Err(e) => Err(e),
                    Ok(entries) => Ok(optional_header_32_fields(o, subsystem, entries)),
                }
            },
        }
    }
}

/// The fields of the 64-bit layout that `o` holds, around the subsystem and the
/// data directory, which are given.
pub open spec fn optional_header_64_fields(
    o: Seq<u8>,
    subsystem: OptionalHeaderSubSystem,
    data_directories: Seq<DataDirectory>,
) -> ImageOptionalHeader64View {
    ImageOptionalHeader64View {
        common: common_fields(o),
        image_base: u64_at(o, 24),
        section_alignment: u32_at(o, 32),
        file_alignment: u32_at(o, 36),
        major_operating_system_version: u16_at(o, 40),
        minor_operating_system_version: u16_at(o, 42),
        major_image_version: u16_at(o, 44),
        minor_image_version: u16_at(o, 46),
        major_subsystem_version: u16_at(o, 48),
        minor_subsystem_version: u16_at(o, 50),
        win32_version_value: u32_at(o, 52),
        size_of_image: u32_at(o, 56),
        size_of_headers: u32_at(o, 60),
        checksum: u32_at(o, 64),
        subsystem,
        dll_characteristics: flags_of(u16_at(o, 70), DLLCharacteristics::all()),
        size_of_stack_reserve: u64_at(o, 72),
        size_of_stack_commit: u64_at(o, 80),
        size_of_heap_reserve: u64_at(o, 88),
        size_of_heap_commit: u64_at(o, 96),
        loader_flags: u32_at(o, 104),
        number_of_rva_and_sizes: u32_at(o, 108),
        data_directories,
    }
}

/// The 64-bit optional header that `o` holds, once its magic number and its
/// common fields are known to be there. The subsystem is judged as soon as its
/// two bytes are there, before the rest is asked for.
pub open spec fn optional_header_64(o: Seq<u8>) -> Result<ImageOptionalHeader64View, ParseError> {
    if o.len() < 70 {
        Err(ParseError::Incomplete)
    } else {
        match OptionalHeaderSubSystem::from_code(u16_at(o, 68)) {
            None => Err(ParseError::UnsupportedValue),
            Some(subsystem) => if o.len() < 112 {
                Err(ParseError::Incomplete)
            } else {
                match data_directories(o, 112, u32_at(o, 108) as nat) {
                    Err(e) => Err(e),
                    Ok(entries) => Ok(optional_header_64_fields(o, subsystem, entries)),
                }
            },
        }
    }
}

/// The optional header that `o` holds, where `o` is all of the bytes that the
/// file header sets aside for it. Bytes behind the header's last field are
/// passed over.
pub open spec fn optional_header(o: Seq<u8>) -> Result<OptionalHeaderView, ParseError> {
    if o.len() < 2 {
        Err(ParseError::Incomplete)
    } else if u16_at(o, 0) != MAGIC_PE32 && u16_at(o, 0) != MAGIC_PE32_PLUS && u16_at(o, 0)
        != MAGIC_ROM {
        Err(ParseError::FormatViolation)
    } else if o.len() < 24 {
        Err(ParseError::Incomplete)
    } else if u16_at(o, 0) == MAGIC_ROM {
        Ok(
            OptionalHeaderView::ImageOptionalHeaderRom(
                ImageOptionalHeaderRom { common: common_fields(o) },
            ),
        )
    } else if u16_at(o, 0) == MAGIC_PE32 {
        match optional_header_32(o) {
            Err(e) => Err(e),
            Ok(header) => Ok(OptionalHeaderView::ImageOptionalHeader32(header)),
        }
    } else {
        match optional_header_64(o) {
            Err(e) => Err(e),
            Ok(header) => Ok(OptionalHeaderView::ImageOptionalHeader64(header)),
        }
    }
}

/// A data directory that is read has as many entries as were asked for, at
/// most sixteen; the entry at each position has the meaning of that position,
/// so no two entries have the same meaning.
pub proof fn lemma_data_directory_tags(o: Seq<u8>, at: int, count: nat)
    ensures
        data_directories(o, at, count) matches Ok(entries) ==> {
            &&& entries.len() == count
            &&& count <= 16
            &&& forall|i: int|
                0 <= i < count ==> (#[trigger] entries[i]).field.index() == i
            &&& forall|i: int, j: int|
                0 <= i < count && 0 <= j < count && i != j ==> (#[trigger] entries[i]).field != (
                #[trigger] entries[j]).field
        },
{
    if let Ok(entries) = data_directories(o, at, count) {
        assert forall|i: int| 0 <= i < count implies (#[trigger] entries[i]).field.index()
            == i by {
            DataDirectoryTableField::lemma_index_round_trip(entries[i].field, i as u32);
        }
    }
}

/// The data directory of an optional header that is read has exactly
/// `number_of_rva_and_sizes` entries, each with the meaning of its position.
pub proof fn lemma_directory_matches_count(o: Seq<u8>)
    ensures
        optional_header(o) matches Ok(OptionalHeaderView::ImageOptionalHeader32(header)) ==> {
            &&& header.data_directories.len() == header.number_of_rva_and_sizes
            &&& forall|i: int|
                0 <= i < header.data_directories.len() ==> (
                #[trigger] header.data_directories[i]).field.index() == i
        },
        optional_header(o) matches Ok(OptionalHeaderView::ImageOptionalHeader64(header)) ==> {
            &&& header.data_directories.len() == header.number_of_rva_and_sizes
            &&& forall|i: int|
                0 <= i < header.data_directories.len() ==> (
                #[trigger] header.data_directories[i]).field.index() == i
        },
{
    lemma_data_directory_tags(o, 96, u32_at(o, 92) as nat);
    lemma_data_directory_tags(o, 112, u32_at(o, 108) as nat);
}

/// An optional header that is read is well formed.
pub proof fn lemma_optional_header_wf(o: Seq<u8>)
    ensures
        optional_header(o) matches Ok(header) ==> header.wf(),
{
    lemma_directory_matches_count(o);
    lemma_data_directory_tags(o, 96, u32_at(o, 92) as nat);
    lemma_data_directory_tags(o, 112, u32_at(o, 108) as nat);
}

/// The image base and the sizes of stack and heap are eight-byte values in
/// the 64-bit layout and four-byte values in the 32-bit layout, in the same
/// order: the image base before the section alignment, the four sizes behind
/// the DLL characteristics one after the other from offset 72.
pub proof fn lemma_word_widths(o: Seq<u8>)
    ensures
        optional_header(o) matches Ok(OptionalHeaderView::ImageOptionalHeader64(header)) ==> {
            &&& header.image_base == u64_at(o, 24)
            &&& header.size_of_stack_reserve == u64_at(o, 72)
            &&& header.size_of_stack_commit == u64_at(o, 80)
            &&& header.size_of_heap_reserve == u64_at(o, 88)
            &&& header.size_of_heap_commit == u64_at(o, 96)
        },
        optional_header(o) matches Ok(OptionalHeaderView::ImageOptionalHeader32(header)) ==> {
            &&& header.image_base == u32_at(o, 28)
            &&& header.size_of_stack_reserve == u32_at(o, 72)
            &&& header.size_of_stack_commit == u32_at(o, 76)
            &&& header.size_of_heap_reserve == u32_at(o, 80)
            &&& header.size_of_heap_commit == u32_at(o, 84)
        },
{
}

/// Reads the data directory of `count` entries that begins at offset `at`.
pub fn parse_data_directories(o: &[u8], at: usize, count: u32) -> (r: Result<
    Vec<DataDirectory>,
    ParseError,
>)
    requires
        at <= o@.len(),
    ensures
        view_result(r) == data_directories(o@, at as int, count as nat),
{
    let mut cursor: &[u8] = slice_subrange(o, at, o.len());
    let mut entries: Vec<DataDirectory> = Vec::new();
    let mut index: u32 = 0;
    while index < count
        invariant
            index <= count,
            index <= 16,
            at + 8 * index <= o@.len(),
            cursor@ == o@.skip(at + 8 * index),
            entries@ == Seq::new(
                index as nat,
                |i: int| data_directory_at(o@, at + 8 * i, field_at(i)),
            ),
        decreases count - index,
    {
        let virtual_address = get_le_u32(&mut cursor)?;
        let size = get_le_u32(&mut cursor)?;
        let field = match DataDirectoryTableField::try_from(index) {
            Ok(field) => field,
            Err(_) => return Err(ParseError::UnsupportedValue),
        };
        entries.push(DataDirectory { virtual_address, size, field });
        index += 1;
        assert(entries@ =~= Seq::new(
            index as nat,
            |i: int| data_directory_at(o@, at + 8 * i, field_at(i)),
        ));
    }
    Ok(entries)
}

/// Reads the common fields.
pub fn parse_common_fields(o: &[u8]) -> (common: CommonOptionalHeaderFields)
    requires
        o@.len() >= 24,
    ensures
        common == common_fields(o@),
{
    CommonOptionalHeaderFields {
        magic: peek_u16(o, 0),
        major_linker_version: o[2],
        minor_linker_version: o[3],
        size_of_code: peek_u32(o, 4),
        size_of_initialized_data: peek_u32(o, 8),
        size_of_uninitialized_data: peek_u32(o, 12),
        address_of_entry_point: peek_u32(o, 16),
        base_of_code: peek_u32(o, 20),
    }
}

/// Reads the 32-bit optional header behind its common fields.
pub fn parse_optional_header_32(o: &[u8], common: CommonOptionalHeaderFields) -> (r: Result<
    ImageOptionalHeader32,
    ParseError,
>)
    requires
        o@.len() >= 24,
        common == common_fields(o@),
    ensures
        view_result(r) == optional_header_32(o@),
{
    if o.len() < 70 {
        return Err(ParseError::Incomplete);
    }
    let subsystem = match OptionalHeaderSubSystem::try_from(peek_u16(o, 68)) {
        Ok(subsystem) => subsystem,
        Err(_) => return Err(ParseError::UnsupportedValue),
    };
    if o.len() < 96 {
        return Err(ParseError::Incomplete);
    }
    let number_of_rva_and_sizes = peek_u32(o, 92);
    let data_directories = parse_data_directories(o, 96, number_of_rva_and_sizes)?;
    Ok(
        ImageOptionalHeader32 {
            common,
            base_of_data: peek_u32(o, 24),
            image_base: peek_u32(o, 28),
            section_alignment: peek_u32(o, 32),
            file_alignment: peek_u32(o, 36),
            major_operating_system_version: peek_u16(o, 40),
            minor_operating_system_version: peek_u16(o, 42),
            major_image_version: peek_u16(o, 44),
            minor_image_version: peek_u16(o, 46),
            major_subsystem_version: peek_u16(o, 48),
            minor_subsystem_version: peek_u16(o, 50),
            win32_version_value: peek_u32(o, 52),
            size_of_image: peek_u32(o, 56),
            size_of_headers: peek_u32(o, 60),
            checksum: peek_u32(o, 64),
            subsystem,
            dll_characteristics: DLLCharacteristics::from_u16(peek_u16(o, 70)),
            size_of_stack_reserve: peek_u32(o, 72),
            size_of_stack_commit: peek_u32(o, 76),
            size_of_heap_reserve: peek_u32(o, 80),
            size_of_heap_commit: peek_u32(o, 84),
            loader_flags: peek_u32(o, 88),
            number_of_rva_and_sizes,
            data_directories,
        },
    )
}

/// Reads the 64-bit optional header behind its common fields.
pub fn parse_optional_header_64(o: &[u8], common: CommonOptionalHeaderFields) -> (r: Result<
    ImageOptionalHeader64,
    ParseError,
>)
    requires
        o@.len() >= 24,
        common == common_fields(o@),
    ensures
        view_result(r) == optional_header_64(o@),
{
    if o.len() < 70 {
        return Err(ParseError::Incomplete);
    }
    let subsystem = match OptionalHeaderSubSystem::try_from(peek_u16(o, 68)) {
        Ok(subsystem) => subsystem,
        Err(_) => return Err(ParseError::UnsupportedValue),
    };
    if o.len() < 112 {
        return Err(ParseError::Incomplete);
    }
    let number_of_rva_and_sizes = peek_u32(o, 108);
    let data_directories = parse_data_directories(o, 112, number_of_rva_and_sizes)?;
    Ok(
        ImageOptionalHeader64 {
            common,
            image_base: peek_u64(o, 24),
            section_alignment: peek_u32(o, 32),
            file_alignment: peek_u32(o, 36),
            major_operating_system_version: peek_u16(o, 40),
            minor_operating_system_version: peek_u16(o, 42),
            major_image_version: peek_u16(o, 44),
            minor_image_version: peek_u16(o, 46),
            major_subsystem_version: peek_u16(o, 48),
            minor_subsystem_version: peek_u16(o, 50),
            win32_version_value: peek_u32(o, 52),
            size_of_image: peek_u32(o, 56),
            size_of_headers: peek_u32(o, 60),
            checksum: peek_u32(o, 64),
            subsystem,
            dll_characteristics: DLLCharacteristics::from_u16(peek_u16(o, 70)),
            size_of_stack_reserve: peek_u64(o, 72),
            size_of_stack_commit: peek_u64(o, 80),
            size_of_heap_reserve: peek_u64(o, 88),
            size_of_heap_commit: peek_u64(o, 96),
            loader_flags: peek_u32(o, 104),
            number_of_rva_and_sizes,
            data_directories,
        },
    )
}

/// Reads the optional header from the bytes that the file header sets aside
/// for it.
pub fn parse_optional_header(o: &[u8]) -> (r: Result<OptionalHeader, ParseError>)
    ensures
        view_result(r) == optional_header(o@),
        r matches Ok(header) ==> header@.wf(),
{
    proof {
        lemma_optional_header_wf(o@);
    }
    if o.len() < 2 {
        return Err(ParseError::Incomplete);
    }
    let magic = peek_u16(o, 0);
    if magic != MAGIC_PE32 && magic != MAGIC_PE32_PLUS && magic != MAGIC_ROM {
        return Err(ParseError::FormatViolation);
    }
    if o.len() < 24 {
        return Err(ParseError::Incomplete);
    }
    let common = parse_common_fields(o);
    if magic == MAGIC_ROM {
        Ok(OptionalHeader::ImageOptionalHeaderRom(ImageOptionalHeaderRom { common }))
    } else if magic == MAGIC_PE32 {
        Ok(OptionalHeader::ImageOptionalHeader32(parse_optional_header_32(o, common)?))
    } else {
        Ok(OptionalHeader::ImageOptionalHeader64(parse_optional_header_64(o, common)?))
    }
}

} // verus!
