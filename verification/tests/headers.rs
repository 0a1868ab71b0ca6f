use pe_reader::characteristics::{Characteristics, DLLCharacteristics};
use pe_reader::coff::parse_file_header;
use pe_reader::dos::parse_dos_header;
use pe_reader::error::ParseError;
use pe_reader::fields::{DataDirectoryTableField, OptionalHeaderSubSystem};
use pe_reader::machine::MachineType;
use pe_reader::nt::{parse_nt_header, parse_pe_header};
use pe_reader::reader::copy_range;
use pe_reader::optional::{
    parse_data_directories, parse_optional_header, DataDirectory, OptionalHeader,
};

fn dos_header(e_lfanew: u32) -> Vec<u8> {
    let mut bytes: Vec<u8> = (0u8..64).collect();
    bytes[0] = 0x4d;
    bytes[1] = 0x5a;
    bytes[60..64].copy_from_slice(&e_lfanew.to_le_bytes());
    bytes
}

fn nt_fixed(machine: u16, sections: u16, optional_size: u16, characteristics: u16) -> Vec<u8> {
    let mut bytes = b"PE\0\0".to_vec();
    bytes.extend_from_slice(&machine.to_le_bytes());
    bytes.extend_from_slice(&sections.to_le_bytes());
    bytes.extend_from_slice(&0x5f00_0001u32.to_le_bytes());
    bytes.extend_from_slice(&0x0000_1000u32.to_le_bytes());
    bytes.extend_from_slice(&7u32.to_le_bytes());
    bytes.extend_from_slice(&optional_size.to_le_bytes());
    bytes.extend_from_slice(&characteristics.to_le_bytes());
    bytes
}

fn common(magic: u16) -> Vec<u8> {
    let mut bytes = magic.to_le_bytes().to_vec();
    bytes.push(14);
    bytes.push(29);
    for value in [0x1000u32, 0x2000, 0x3000, 0x1234, 0x1000] {
        bytes.extend_from_slice(&value.to_le_bytes());
    }
    bytes
}

fn middle(subsystem: u16, dll_characteristics: u16) -> Vec<u8> {
    let mut bytes = Vec::new();
    bytes.extend_from_slice(&0x1000u32.to_le_bytes());
    bytes.extend_from_slice(&0x200u32.to_le_bytes());
    for value in [6u16, 1, 2, 3, 10, 4] {
        bytes.extend_from_slice(&value.to_le_bytes());
    }
    for value in [0u32, 0x9000, 0x400, 0xabcdef] {
        bytes.extend_from_slice(&value.to_le_bytes());
    }
    bytes.extend_from_slice(&subsystem.to_le_bytes());
    bytes.extend_from_slice(&dll_characteristics.to_le_bytes());
    bytes
}

fn directory(count: u32, present: u32) -> Vec<u8> {
    let mut bytes = count.to_le_bytes().to_vec();
    for i in 0..present {
        bytes.extend_from_slice(&(0x1000 * (i + 1)).to_le_bytes());
        bytes.extend_from_slice(&(0x10 + i).to_le_bytes());
    }
    bytes
}

fn optional_32(subsystem: u16, count: u32, present: u32) -> Vec<u8> {
    let mut bytes = common(0x10b);
    bytes.extend_from_slice(&0x4000u32.to_le_bytes());
    bytes.extend_from_slice(&0x0040_0000u32.to_le_bytes());
    bytes.extend_from_slice(&middle(subsystem, 0x8140));
    for value in [0x0010_0000u32, 0x1000, 0x0020_0000, 0x2000, 0] {
        bytes.extend_from_slice(&value.to_le_bytes());
    }
    bytes.extend_from_slice(&directory(count, present));
    bytes
}

fn optional_64(subsystem: u16, count: u32, present: u32) -> Vec<u8> {
    let mut bytes = common(0x20b);
    bytes.extend_from_slice(&0x0000_0001_4000_0000u64.to_le_bytes());
    bytes.extend_from_slice(&middle(subsystem, 0x8160));
    for value in [0x0102_0304_0506_0708u64, 0x1000, 0xffff_ffff_ffff_ffff, 0x2000] {
        bytes.extend_from_slice(&value.to_le_bytes());
    }
    bytes.extend_from_slice(&0u32.to_le_bytes());
    bytes.extend_from_slice(&directory(count, present));
    bytes
}

#[test]
fn copy_range_copies_the_middle() {
    assert_eq!(copy_range(&[1, 2, 3, 4, 5], 1, 4), vec![2, 3, 4]);
    assert_eq!(copy_range(&[1, 2, 3], 3, 3), vec![]);
}

#[test]
fn dos_header_fields_lie_at_their_offsets() {
    let bytes = dos_header(64);
    let mut cursor: &[u8] = &bytes;
    let (header, stub) = parse_dos_header(&mut cursor).unwrap();
    assert_eq!(header.e_magic, "MZ");
    assert_eq!(header.e_cblp, 0x0302);
    assert_eq!(header.e_cp, 0x0504);
    assert_eq!(header.e_crlc, 0x0706);
    assert_eq!(header.e_cparhdr, 0x0908);
    assert_eq!(header.e_minalloc, 0x0b0a);
    assert_eq!(header.e_maxalloc, 0x0d0c);
    assert_eq!(header.e_ss, 0x0f0e);
    assert_eq!(header.e_sp, 0x1110);
    assert_eq!(header.e_csum, 0x1312);
    assert_eq!(header.e_ip, 0x1514);
    assert_eq!(header.e_cs, 0x1716);
    assert_eq!(header.e_lfarlc, 0x1918);
    assert_eq!(header.e_ovno, 0x1b1a);
    assert_eq!(header.e_res, [0x1d1c, 0x1f1e, 0x2120, 0x2322]);
    assert_eq!(header.e_oemid, 0x2524);
    assert_eq!(header.e_oeminfo, 0x2726);
    assert_eq!(
        header.e_res2,
        [0x2928, 0x2b2a, 0x2d2c, 0x2f2e, 0x3130, 0x3332, 0x3534, 0x3736, 0x3938, 0x3b3a]
    );
    assert_eq!(header.e_lfanew, 64);
    assert!(stub.is_empty());
    assert!(cursor.is_empty());
}

#[test]
fn dos_stub_runs_up_to_the_nt_headers() {
    let mut bytes = dos_header(70);
    bytes.extend_from_slice(&[0xa1, 0xa2, 0xa3, 0xa4, 0xa5, 0xa6, 0xb1, 0xb2]);
    let mut cursor: &[u8] = &bytes;
    let (header, stub) = parse_dos_header(&mut cursor).unwrap();
    assert_eq!(header.e_lfanew, 70);
    assert_eq!(stub, vec![0xa1, 0xa2, 0xa3, 0xa4, 0xa5, 0xa6]);
    assert_eq!(cursor, &[0xb1u8, 0xb2][..]);
}

#[test]
fn dos_header_of_63_bytes_is_incomplete() {
    let bytes = dos_header(64);
    let mut cursor: &[u8] = &bytes[..63];
    assert_eq!(parse_dos_header(&mut cursor).unwrap_err(), ParseError::Incomplete);
    assert_eq!(cursor.len(), 63);
    let mut cursor: &[u8] = &[];
    assert_eq!(parse_dos_header(&mut cursor).unwrap_err(), ParseError::Incomplete);
}

#[test]
fn short_buffer_with_wrong_magic_is_incomplete() {
    let mut cursor: &[u8] = &[0u8; 10];
    assert_eq!(parse_dos_header(&mut cursor).unwrap_err(), ParseError::Incomplete);
}

#[test]
fn dos_header_without_magic_violates_the_format() {
    let mut bytes = dos_header(64);
    bytes[1] = 0x5b;
    let mut cursor: &[u8] = &bytes;
    assert_eq!(parse_dos_header(&mut cursor).unwrap_err(), ParseError::FormatViolation);
    assert_eq!(cursor.len(), 64);
    let mut bytes = dos_header(64);
    bytes[0] = 0xcd;
    let mut cursor: &[u8] = &bytes;
    assert_eq!(parse_dos_header(&mut cursor).unwrap_err(), ParseError::FormatViolation);
}

#[test]
fn nt_headers_inside_the_dos_header_violate_the_format() {
    for e_lfanew in [0u32, 1, 63] {
        let bytes = dos_header(e_lfanew);
        let mut cursor: &[u8] = &bytes;
        assert_eq!(parse_dos_header(&mut cursor).unwrap_err(), ParseError::FormatViolation);
        assert_eq!(cursor.len(), 64);
    }
}

#[test]
fn dos_stub_beyond_the_buffer_is_incomplete() {
    let mut bytes = dos_header(70);
    bytes.extend_from_slice(&[0; 5]);
    let mut cursor: &[u8] = &bytes;
    assert_eq!(parse_dos_header(&mut cursor).unwrap_err(), ParseError::Incomplete);
    assert_eq!(cursor.len(), 69);
    let bytes = dos_header(u32::MAX);
    let mut cursor: &[u8] = &bytes;
    assert_eq!(parse_dos_header(&mut cursor).unwrap_err(), ParseError::Incomplete);
}

#[test]
fn file_header_fields_lie_at_their_offsets() {
    let bytes = nt_fixed(0x8664, 3, 0xf0, 0x0022);
    let mut cursor: &[u8] = &bytes[4..];
    let header = parse_file_header(&mut cursor).unwrap();
    assert_eq!(header.machine, MachineType::IMAGE_FILE_MACHINE_AMD64);
    assert_eq!(header.number_of_sections, 3);
    assert_eq!(header.time_date_stamp, 0x5f00_0001);
    assert_eq!(header.pointer_to_symbol_table, 0x1000);
    assert_eq!(header.number_of_symbols, 7);
    assert_eq!(header.size_of_optional_header, 0xf0);
    assert_eq!(header.characteristics.value, 0x0022);
    assert_eq!(
        header.characteristics.characteristics,
        vec![
            Characteristics::IMAGE_FILE_EXECUTABLE_IMAGE,
            Characteristics::IMAGE_FILE_LARGE_ADDRESS_AWARE
        ]
    );
    assert!(cursor.is_empty());
}

#[test]
fn file_header_judges_the_machine_before_it_asks_for_the_rest() {
    let bytes = [0x34u8, 0x12];
    let mut cursor: &[u8] = &bytes;
    assert_eq!(parse_file_header(&mut cursor).unwrap_err(), ParseError::UnsupportedValue);
    assert_eq!(cursor.len(), 2);
    let bytes = [0x64u8, 0x86, 0, 0];
    let mut cursor: &[u8] = &bytes;
    assert_eq!(parse_file_header(&mut cursor).unwrap_err(), ParseError::Incomplete);
    assert_eq!(cursor.len(), 4);
    let mut cursor: &[u8] = &bytes[..1];
    assert_eq!(parse_file_header(&mut cursor).unwrap_err(), ParseError::Incomplete);
}

#[test]
fn nt_headers_without_optional_header() {
    let mut bytes = nt_fixed(0x14c, 0, 0, 0x0102);
    bytes.extend_from_slice(&[0xee, 0xff]);
    let mut cursor: &[u8] = &bytes;
    let headers = parse_nt_header(&mut cursor).unwrap();
    assert_eq!(headers.signature, "PE\0\0");
    assert_eq!(headers.file_header.machine, MachineType::IMAGE_FILE_MACHINE_I386);
    assert_eq!(headers.file_header.size_of_optional_header, 0);
    assert!(headers.optional_header.is_none());
    assert_eq!(cursor, &[0xeeu8, 0xff][..]);
}

#[test]
fn nt_signature_is_kept_as_it_stands() {
    let mut bytes = nt_fixed(0x14c, 0, 0, 0);
    bytes[..4].copy_from_slice(b"NE\0!");
    let mut cursor: &[u8] = &bytes;
    let headers = parse_nt_header(&mut cursor).unwrap();
    assert_eq!(headers.signature, "NE\0!");
}

#[test]
fn nt_signature_must_be_ascii() {
    let mut bytes = nt_fixed(0x14c, 0, 0, 0);
    bytes[2] = 0x80;
    let mut cursor: &[u8] = &bytes;
    assert_eq!(parse_nt_header(&mut cursor).unwrap_err(), ParseError::MalformedText);
    assert_eq!(cursor.len(), 24);
    let mut cursor: &[u8] = &bytes[..3];
    assert_eq!(parse_nt_header(&mut cursor).unwrap_err(), ParseError::Incomplete);
}

#[test]
fn nt_headers_refuse_an_unknown_machine() {
    let bytes = nt_fixed(0x1234, 0, 0, 0);
    let mut cursor: &[u8] = &bytes;
    assert_eq!(parse_nt_header(&mut cursor).unwrap_err(), ParseError::UnsupportedValue);
    assert_eq!(cursor.len(), 24);
}

#[test]
fn optional_header_room_beyond_the_buffer_is_incomplete() {
    let mut bytes = nt_fixed(0x14c, 0, 24, 0);
    bytes.extend_from_slice(&common(0x107)[..23]);
    let mut cursor: &[u8] = &bytes;
    assert_eq!(parse_nt_header(&mut cursor).unwrap_err(), ParseError::Incomplete);
    assert_eq!(cursor.len(), 47);
}

#[test]
fn rom_optional_header_holds_the_common_fields() {
    let mut bytes = nt_fixed(0x14c, 0, 30, 0);
    bytes.extend_from_slice(&common(0x107));
    bytes.extend_from_slice(&[9, 9, 9, 9, 9, 9, 0x77]);
    let mut cursor: &[u8] = &bytes;
    let headers = parse_nt_header(&mut cursor).unwrap();
    match headers.optional_header {
        Some(OptionalHeader::ImageOptionalHeaderRom(header)) => {
            assert_eq!(header.common.magic, 0x107);
            assert_eq!(header.common.major_linker_version, 14);
            assert_eq!(header.common.minor_linker_version, 29);
            assert_eq!(header.common.size_of_code, 0x1000);
            assert_eq!(header.common.size_of_initialized_data, 0x2000);
            assert_eq!(header.common.size_of_uninitialized_data, 0x3000);
            assert_eq!(header.common.address_of_entry_point, 0x1234);
            assert_eq!(header.common.base_of_code, 0x1000);
        }
        other => panic!("{:?}", other),
    }
    assert_eq!(cursor, &[0x77u8][..]);
}

#[test]
fn optional_header_with_unknown_magic_violates_the_format() {
    for magic in [0u16, 0x10a, 0x10c, 0x20a, 0x30b, 0xffff] {
        let bytes = common(magic);
        assert_eq!(parse_optional_header(&bytes).unwrap_err(), ParseError::FormatViolation);
        assert_eq!(parse_optional_header(&bytes[..2]).unwrap_err(), ParseError::FormatViolation);
    }
}

#[test]
fn optional_header_cut_short_is_incomplete() {
    assert_eq!(parse_optional_header(&[0x0b]).unwrap_err(), ParseError::Incomplete);
    assert_eq!(parse_optional_header(&common(0x107)[..23]).unwrap_err(), ParseError::Incomplete);
    let full = optional_32(3, 2, 2);
    assert_eq!(full.len(), 96 + 16);
    for len in 24..full.len() {
        assert_eq!(parse_optional_header(&full[..len]).unwrap_err(), ParseError::Incomplete);
    }
    let full = optional_64(3, 2, 2);
    assert_eq!(full.len(), 112 + 16);
    for len in 24..full.len() {
        assert_eq!(parse_optional_header(&full[..len]).unwrap_err(), ParseError::Incomplete);
    }
}

#[test]
fn optional_header_32_fields_lie_at_their_offsets() {
    let bytes = optional_32(3, 2, 2);
    match parse_optional_header(&bytes).unwrap() {
        OptionalHeader::ImageOptionalHeader32(header) => {
            assert_eq!(header.common.magic, 0x10b);
            assert_eq!(header.common.base_of_code, 0x1000);
            assert_eq!(header.base_of_data, 0x4000);
            assert_eq!(header.image_base, 0x0040_0000);
            assert_eq!(header.section_alignment, 0x1000);
            assert_eq!(header.file_alignment, 0x200);
            assert_eq!(header.major_operating_system_version, 6);
            assert_eq!(header.minor_operating_system_version, 1);
            assert_eq!(header.major_image_version, 2);
            assert_eq!(header.minor_image_version, 3);
            assert_eq!(header.major_subsystem_version, 10);
            assert_eq!(header.minor_subsystem_version, 4);
            assert_eq!(header.win32_version_value, 0);
            assert_eq!(header.size_of_image, 0x9000);
            assert_eq!(header.size_of_headers, 0x400);
            assert_eq!(header.checksum, 0xabcdef);
            assert_eq!(header.subsystem, OptionalHeaderSubSystem::IMAGE_SUBSYSTEM_WINDOWS_CUI);
            assert_eq!(
                header.dll_characteristics,
                vec![
                    DLLCharacteristics::IMAGE_DLLCHARACTERISTICS_DYNAMIC_BASE,
                    DLLCharacteristics::IMAGE_DLLCHARACTERISTICS_NX_COMPAT,
                    DLLCharacteristics::IMAGE_DLLCHARACTERISTICS_TERMINAL_SERVER_AWARE,
                ]
            );
            assert_eq!(header.size_of_stack_reserve, 0x0010_0000);
            assert_eq!(header.size_of_stack_commit, 0x1000);
            assert_eq!(header.size_of_heap_reserve, 0x0020_0000);
            assert_eq!(header.size_of_heap_commit, 0x2000);
            assert_eq!(header.loader_flags, 0);
            assert_eq!(header.number_of_rva_and_sizes, 2);
            assert_eq!(
                header.data_directories,
                vec![
                    DataDirectory {
                        virtual_address: 0x1000,
                        size: 0x10,
                        field: DataDirectoryTableField::EXPORT_TABLE
                    },
                    DataDirectory {
                        virtual_address: 0x2000,
                        size: 0x11,
                        field: DataDirectoryTableField::IMPORT_TABLE
                    },
                ]
            );
        }
        other => panic!("{:?}", other),
    }
}

#[test]
fn optional_header_64_fields_lie_at_their_offsets() {
    let bytes = optional_64(2, 1, 1);
    match parse_optional_header(&bytes).unwrap() {
        OptionalHeader::ImageOptionalHeader64(header) => {
            assert_eq!(header.common.magic, 0x20b);
            assert_eq!(header.common.address_of_entry_point, 0x1234);
            assert_eq!(header.image_base, 0x0000_0001_4000_0000);
            assert_eq!(header.section_alignment, 0x1000);
            assert_eq!(header.file_alignment, 0x200);
            assert_eq!(header.major_operating_system_version, 6);
            assert_eq!(header.minor_operating_system_version, 1);
            assert_eq!(header.major_image_version, 2);
            assert_eq!(header.minor_image_version, 3);
            assert_eq!(header.major_subsystem_version, 10);
            assert_eq!(header.minor_subsystem_version, 4);
            assert_eq!(header.win32_version_value, 0);
            assert_eq!(header.size_of_image, 0x9000);
            assert_eq!(header.size_of_headers, 0x400);
            assert_eq!(header.checksum, 0xabcdef);
            assert_eq!(header.subsystem, OptionalHeaderSubSystem::IMAGE_SUBSYSTEM_WINDOWS_GUI);
            assert_eq!(
                header.dll_characteristics,
                vec![
                    DLLCharacteristics::IMAGE_DLLCHARACTERISTICS_HIGH_ENTROPY_VA,
                    DLLCharacteristics::IMAGE_DLLCHARACTERISTICS_DYNAMIC_BASE,
                    DLLCharacteristics::IMAGE_DLLCHARACTERISTICS_NX_COMPAT,
                    DLLCharacteristics::IMAGE_DLLCHARACTERISTICS_TERMINAL_SERVER_AWARE,
                ]
            );
            assert_eq!(header.size_of_stack_reserve, 0x0102_0304_0506_0708);
            assert_eq!(header.size_of_stack_commit, 0x1000);
            assert_eq!(header.size_of_heap_reserve, u64::MAX);
            assert_eq!(header.size_of_heap_commit, 0x2000);
            assert_eq!(header.loader_flags, 0);
            assert_eq!(header.number_of_rva_and_sizes, 1);
            assert_eq!(
                header.data_directories,
                vec![DataDirectory {
                    virtual_address: 0x1000,
                    size: 0x10,
                    field: DataDirectoryTableField::EXPORT_TABLE
                }]
            );
        }
        other => panic!("{:?}", other),
    }
}

#[test]
fn wide_fields_take_eight_bytes_in_the_64_bit_layout_and_four_in_the_32_bit() {
    let mut wide = optional_64(3, 0, 0);
    let mut narrow = optional_32(3, 0, 0);
    for (i, byte) in wide[72..104].iter_mut().enumerate() {
        *byte = 0x10 + i as u8;
    }
    for (i, byte) in narrow[72..88].iter_mut().enumerate() {
        *byte = 0x10 + i as u8;
    }
    match parse_optional_header(&wide).unwrap() {
        OptionalHeader::ImageOptionalHeader64(header) => {
            assert_eq!(header.size_of_stack_reserve, 0x1716_1514_1312_1110);
            assert_eq!(header.size_of_stack_commit, 0x1f1e_1d1c_1b1a_1918);
            assert_eq!(header.size_of_heap_reserve, 0x2726_2524_2322_2120);
            assert_eq!(header.size_of_heap_commit, 0x2f2e_2d2c_2b2a_2928);
        }
        other => panic!("{:?}", other),
    }
    match parse_optional_header(&narrow).unwrap() {
        OptionalHeader::ImageOptionalHeader32(header) => {
            assert_eq!(header.size_of_stack_reserve, 0x1312_1110);
            assert_eq!(header.size_of_stack_commit, 0x1716_1514);
            assert_eq!(header.size_of_heap_reserve, 0x1b1a_1918);
            assert_eq!(header.size_of_heap_commit, 0x1f1e_1d1c);
        }
        other => panic!("{:?}", other),
    }
}

#[test]
fn optional_header_refuses_an_unknown_subsystem() {
    for subsystem in [4u16, 6, 15, 17, 0xffff] {
        assert_eq!(
            parse_optional_header(&optional_32(subsystem, 0, 0)).unwrap_err(),
            ParseError::UnsupportedValue
        );
        assert_eq!(
            parse_optional_header(&optional_64(subsystem, 0, 0)).unwrap_err(),
            ParseError::UnsupportedValue
        );
        assert_eq!(
            parse_optional_header(&optional_32(subsystem, 0, 0)[..70]).unwrap_err(),
            ParseError::UnsupportedValue
        );
    }
    assert_eq!(
        parse_optional_header(&optional_32(4, 0, 0)[..69]).unwrap_err(),
        ParseError::Incomplete
    );
}

#[test]
fn data_directory_has_as_many_entries_as_counted() {
    for count in 0u32..=16 {
        let bytes = optional_64(3, count, count);
        match parse_optional_header(&bytes).unwrap() {
            OptionalHeader::ImageOptionalHeader64(header) => {
                assert_eq!(header.number_of_rva_and_sizes, count);
                assert_eq!(header.data_directories.len(), count as usize);
                for (i, entry) in header.data_directories.iter().enumerate() {
                    assert_eq!(entry.virtual_address, 0x1000 * (i as u32 + 1));
                    assert_eq!(entry.size, 0x10 + i as u32);
                    assert_eq!(Ok(entry.field), DataDirectoryTableField::try_from(i as u32));
                    for other in &header.data_directories[..i] {
                        assert_ne!(other.field, entry.field);
                    }
                }
            }
            other => panic!("{:?}", other),
        }
    }
}

#[test]
fn data_directory_passes_over_bytes_behind_its_last_entry() {
    let bytes = optional_32(3, 1, 4);
    match parse_optional_header(&bytes).unwrap() {
        OptionalHeader::ImageOptionalHeader32(header) => {
            assert_eq!(header.data_directories.len(), 1);
        }
        other => panic!("{:?}", other),
    }
}

#[test]
fn data_directory_of_more_than_sixteen_entries_is_refused() {
    assert_eq!(
        parse_optional_header(&optional_32(3, 17, 17)).unwrap_err(),
        ParseError::UnsupportedValue
    );
    assert_eq!(
        parse_optional_header(&optional_64(3, u32::MAX, 17)).unwrap_err(),
        ParseError::UnsupportedValue
    );
    assert_eq!(
        parse_optional_header(&optional_64(3, 17, 16)).unwrap_err(),
        ParseError::Incomplete
    );
    let mut bytes = optional_32(3, 40, 16);
    bytes.extend_from_slice(&[0; 7]);
    assert_eq!(parse_optional_header(&bytes).unwrap_err(), ParseError::Incomplete);
}

#[test]
fn data_directories_read_from_an_offset() {
    let bytes = [0xaau8, 1, 0, 0, 0, 2, 0, 0, 0, 3, 0, 0, 0, 4, 0, 0, 0, 0xbb];
    assert_eq!(
        parse_data_directories(&bytes, 1, 2),
        Ok(vec![
            DataDirectory {
                virtual_address: 1,
                size: 2,
                field: DataDirectoryTableField::EXPORT_TABLE
            },
            DataDirectory {
                virtual_address: 3,
                size: 4,
                field: DataDirectoryTableField::IMPORT_TABLE
            },
        ])
    );
    assert_eq!(parse_data_directories(&bytes, 18, 0), Ok(vec![]));
    assert_eq!(parse_data_directories(&bytes, 1, 3), Err(ParseError::Incomplete));
    assert_eq!(parse_data_directories(&bytes, 7, 2), Err(ParseError::Incomplete));
}

#[test]
fn pe_header_reads_dos_and_nt_headers() {
    let mut bytes = dos_header(68);
    bytes.extend_from_slice(&[1, 2, 3, 4]);
    bytes.extend_from_slice(&nt_fixed(0x8664, 2, 112 + 16, 0x2022));
    bytes.extend_from_slice(&optional_64(3, 2, 2));
    bytes.extend_from_slice(&[0x55, 0x66]);
    let mut cursor: &[u8] = &bytes;
    let header = parse_pe_header(&mut cursor).unwrap();
    assert_eq!(header.dos_header.e_lfanew, 68);
    assert_eq!(header.dos_stub, vec![1, 2, 3, 4]);
    assert_eq!(header.nt_headers.signature, "PE\0\0");
    assert_eq!(header.nt_headers.file_header.number_of_sections, 2);
    assert_eq!(
        header.nt_headers.file_header.characteristics.characteristics,
        vec![
            Characteristics::IMAGE_FILE_EXECUTABLE_IMAGE,
            Characteristics::IMAGE_FILE_LARGE_ADDRESS_AWARE,
            Characteristics::IMAGE_FILE_DLL,
        ]
    );
    assert!(matches!(
        header.nt_headers.optional_header,
        Some(OptionalHeader::ImageOptionalHeader64(_))
    ));
    assert_eq!(cursor, &[0x55u8, 0x66][..]);
}

#[test]
fn pe_header_leaves_the_cursor_on_failure() {
    let mut bytes = dos_header(64);
    bytes.extend_from_slice(&nt_fixed(0x8664, 0, 0, 0)[..20]);
    let mut cursor: &[u8] = &bytes;
    assert_eq!(parse_pe_header(&mut cursor).unwrap_err(), ParseError::Incomplete);
    assert_eq!(cursor.len(), 84);
}

#[test]
fn default_optional_header_is_the_empty_32_bit_layout() {
    match OptionalHeader::default() {
        OptionalHeader::ImageOptionalHeader32(header) => {
            assert_eq!(header.common.magic, 0);
            assert_eq!(header.image_base, 0);
            assert_eq!(header.subsystem, OptionalHeaderSubSystem::IMAGE_SUBSYSTEM_UNKNOWN);
            assert!(header.dll_characteristics.is_empty());
            assert_eq!(header.number_of_rva_and_sizes, 0);
            assert!(header.data_directories.is_empty());
            assert_eq!(
                format!("{:?}", header),
                format!("{:?}", pe_reader::optional::ImageOptionalHeader32::default())
            );
        }
        other => panic!("{:?}", other),
    }
}
