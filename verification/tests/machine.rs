use pe_reader::fields::{DataDirectoryTableField, OptionalHeaderSubSystem};
use pe_reader::machine::MachineType;

const MACHINES: [(MachineType, u16, u32); 30] = [
    (MachineType::IMAGE_FILE_MACHINE_UNKNOWN, 0x0, 32),
    (MachineType::IMAGE_FILE_MACHINE_ALPHA, 0x184, 32),
    (MachineType::IMAGE_FILE_MACHINE_ALPHA64, 0x284, 64),
    (MachineType::IMAGE_FILE_MACHINE_AM33, 0x1d3, 32),
    (MachineType::IMAGE_FILE_MACHINE_AMD64, 0x8664, 64),
    (MachineType::IMAGE_FILE_MACHINE_ARM, 0x1c0, 32),
    (MachineType::IMAGE_FILE_MACHINE_ARM64, 0xaa64, 64),
    (MachineType::IMAGE_FILE_MACHINE_ARMNT, 0x1c4, 32),
    (MachineType::IMAGE_FILE_MACHINE_AXP64, 0x284, 64),
    (MachineType::IMAGE_FILE_MACHINE_EBC, 0xebc, 32),
    (MachineType::IMAGE_FILE_MACHINE_I386, 0x14c, 32),
    (MachineType::IMAGE_FILE_MACHINE_IA64, 0x200, 64),
    (MachineType::IMAGE_FILE_MACHINE_LOONGARCH32, 0x6232, 32),
    (MachineType::IMAGE_FILE_MACHINE_LOONGARCH64, 0x6264, 64),
    (MachineType::IMAGE_FILE_MACHINE_M32R, 0x9041, 32),
    (MachineType::IMAGE_FILE_MACHINE_MIPS16, 0x266, 32),
    (MachineType::IMAGE_FILE_MACHINE_MIPSFPU, 0x366, 32),
    (MachineType::IMAGE_FILE_MACHINE_MIPSFPU16, 0x466, 32),
    (MachineType::IMAGE_FILE_MACHINE_POWERPC, 0x1f0, 32),
    (MachineType::IMAGE_FILE_MACHINE_POWERPCFP, 0x1f1, 32),
    (MachineType::IMAGE_FILE_MACHINE_R4000, 0x166, 32),
    (MachineType::IMAGE_FILE_MACHINE_RISCV32, 0x5032, 32),
    (MachineType::IMAGE_FILE_MACHINE_RISCV64, 0x5064, 64),
    (MachineType::IMAGE_FILE_MACHINE_RISCV128, 0x5128, 64),
    (MachineType::IMAGE_FILE_MACHINE_SH3, 0x1a2, 32),
    (MachineType::IMAGE_FILE_MACHINE_SH3DSP, 0x1a3, 32),
    (MachineType::IMAGE_FILE_MACHINE_SH4, 0x1a6, 32),
    (MachineType::IMAGE_FILE_MACHINE_SH5, 0x1a8, 32),
    (MachineType::IMAGE_FILE_MACHINE_THUMB, 0x1c2, 32),
    (MachineType::IMAGE_FILE_MACHINE_WCEMIPSV2, 0x169, 32),
];

#[test]
fn machine_numbers_are_the_documented_ones() {
    for (machine, code, _) in MACHINES {
        assert_eq!(u16::from(machine), code);
        let through_into: u16 = machine.into();
        assert_eq!(through_into, code);
    }
}

#[test]
fn machine_of_a_number_is_the_machine_with_that_number() {
    for (machine, code, _) in MACHINES {
        if machine == MachineType::IMAGE_FILE_MACHINE_AXP64 {
            assert_eq!(MachineType::try_from(code), Ok(MachineType::IMAGE_FILE_MACHINE_ALPHA64));
        } else {
            assert_eq!(MachineType::try_from(code), Ok(machine));
        }
    }
}

#[test]
fn machine_of_any_other_number_is_refused() {
    let known: Vec<u16> = MACHINES.iter().map(|(_, code, _)| *code).collect();
    for value in 0u16..=u16::MAX {
        assert_eq!(MachineType::try_from(value).is_ok(), known.contains(&value));
    }
}

#[test]
fn bitness_is_64_for_the_wide_machines_and_32_for_the_rest() {
    for (machine, _, bits) in MACHINES {
        assert_eq!(machine.bitness(), bits);
    }
}

#[test]
fn bitness_of_sixteen_bit_and_unknown_machines_is_32() {
    assert_eq!(MachineType::IMAGE_FILE_MACHINE_MIPS16.bitness(), 32);
    assert_eq!(MachineType::IMAGE_FILE_MACHINE_MIPSFPU16.bitness(), 32);
    assert_eq!(MachineType::IMAGE_FILE_MACHINE_UNKNOWN.bitness(), 32);
    assert_eq!(MachineType::IMAGE_FILE_MACHINE_AMD64.bitness(), 64);
    assert_eq!(MachineType::IMAGE_FILE_MACHINE_I386.bitness(), 32);
}

#[test]
fn machine_descriptions() {
    assert_eq!(MachineType::IMAGE_FILE_MACHINE_AMD64.description(), "x64");
    assert_eq!(
        MachineType::IMAGE_FILE_MACHINE_I386.description(),
        "Intel 386 or later processors and compatible processors"
    );
    assert_eq!(
        MachineType::IMAGE_FILE_MACHINE_UNKNOWN.description(),
        "The content of this field is assumed to be applicable to any machine type"
    );
    assert_eq!(
        MachineType::IMAGE_FILE_MACHINE_AXP64.description(),
        "AXP 64 (Same as Alpha 64)"
    );
    assert_eq!(
        MachineType::IMAGE_FILE_MACHINE_WCEMIPSV2.description(),
        "MIPS little-endian WCE v2"
    );
}

#[test]
fn default_machine_is_the_unknown_one() {
    assert_eq!(MachineType::default(), MachineType::IMAGE_FILE_MACHINE_UNKNOWN);
}

#[test]
fn subsystem_of_a_number() {
    let known: [(u16, OptionalHeaderSubSystem); 14] = [
        (0, OptionalHeaderSubSystem::IMAGE_SUBSYSTEM_UNKNOWN),
        (1, OptionalHeaderSubSystem::IMAGE_SUBSYSTEM_NATIVE),
        (2, OptionalHeaderSubSystem::IMAGE_SUBSYSTEM_WINDOWS_GUI),
        (3, OptionalHeaderSubSystem::IMAGE_SUBSYSTEM_WINDOWS_CUI),
        (5, OptionalHeaderSubSystem::IMAGE_SUBSYSTEM_OS2_CUI),
        (7, OptionalHeaderSubSystem::IMAGE_SUBSYSTEM_POSIX_CUI),
        (8, OptionalHeaderSubSystem::IMAGE_SUBSYSTEM_NATIVE_WINDOWS),
        (9, OptionalHeaderSubSystem::IMAGE_SUBSYSTEM_WINDOWS_CE_GUI),
        (10, OptionalHeaderSubSystem::IMAGE_SUBSYSTEM_EFI_APPLICATION),
        (11, OptionalHeaderSubSystem::IMAGE_SUBSYSTEM_EFI_BOOT_SERVICE_DRIVER),
        (12, OptionalHeaderSubSystem::IMAGE_SUBSYSTEM_EFI_RUNTIME_DRIVER),
        (13, OptionalHeaderSubSystem::IMAGE_SUBSYSTEM_EFI_ROM),
        (14, OptionalHeaderSubSystem::IMAGE_SUBSYSTEM_XBOX),
        (16, OptionalHeaderSubSystem::IMAGE_SUBSYSTEM_WINDOWS_BOOT_APPLICATION),
    ];
    for value in 0u16..=u16::MAX {
        let expected = known.iter().find(|(code, _)| *code == value).map(|(_, s)| *s);
        assert_eq!(OptionalHeaderSubSystem::try_from(value).ok(), expected);
    }
}

#[test]
fn subsystem_numbers_with_no_meaning_are_refused() {
    assert_eq!(OptionalHeaderSubSystem::try_from(4u16), Err(()));
    assert_eq!(OptionalHeaderSubSystem::try_from(6u16), Err(()));
    assert_eq!(OptionalHeaderSubSystem::try_from(15u16), Err(()));
    assert_eq!(OptionalHeaderSubSystem::try_from(17u16), Err(()));
}

#[test]
fn directory_field_of_a_position() {
    let fields = [
        DataDirectoryTableField::EXPORT_TABLE,
        DataDirectoryTableField::IMPORT_TABLE,
        DataDirectoryTableField::RESOURCE_TABLE,
        DataDirectoryTableField::EXCEPTION_TABLE,
        DataDirectoryTableField::CERTIFICATE_TABLE,
        DataDirectoryTableField::BASE_RELOCATION_TABLE,
        DataDirectoryTableField::DEBUG,
        DataDirectoryTableField::ARCHITECTURE,
        DataDirectoryTableField::GLOBAL_PTR,
        DataDirectoryTableField::TLS_TABLE,
        DataDirectoryTableField::LOAD_CONFIG_TABLE,
        DataDirectoryTableField::BOUND_IMPORT,
        DataDirectoryTableField::IAT,
        DataDirectoryTableField::DELAY_IMPORT_DESCRIPTOR,
        DataDirectoryTableField::CLR_RUNTIME_HEADER,
        DataDirectoryTableField::RESERVED,
    ];
    for (position, field) in fields.iter().enumerate() {
        assert_eq!(DataDirectoryTableField::try_from(position as u32), Ok(*field));
    }
    assert_eq!(DataDirectoryTableField::try_from(16u32), Err(()));
    assert_eq!(DataDirectoryTableField::try_from(u32::MAX), Err(()));
}
