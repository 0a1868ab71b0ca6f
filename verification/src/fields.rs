//! The enumerated fields of the optional header: the subsystem and the
//! meaning of each slot of the data directory.

use vstd::prelude::*;
use vstd::std_specs::convert::TryFromSpecImpl;

verus! {

/// The subsystem that an image needs to run.
#[derive(Clone, Copy, Debug, Default, PartialEq, Eq, Structural)]
#[allow(non_camel_case_types)]
pub enum OptionalHeaderSubSystem {
    /// An unknown subsystem.
    #[default]
    IMAGE_SUBSYSTEM_UNKNOWN,
    /// Device drivers and native Windows processes.
    IMAGE_SUBSYSTEM_NATIVE,
    /// The Windows graphical user interface subsystem.
    IMAGE_SUBSYSTEM_WINDOWS_GUI,
    /// The Windows character subsystem.
    IMAGE_SUBSYSTEM_WINDOWS_CUI,
    /// The OS/2 character subsystem.
    IMAGE_SUBSYSTEM_OS2_CUI,
    /// The Posix character subsystem.
    IMAGE_SUBSYSTEM_POSIX_CUI,
    /// Native Win9x driver.
    IMAGE_SUBSYSTEM_NATIVE_WINDOWS,
    /// Windows CE.
    IMAGE_SUBSYSTEM_WINDOWS_CE_GUI,
    /// An Extensible Firmware Interface (EFI) application.
    IMAGE_SUBSYSTEM_EFI_APPLICATION,
    /// An EFI driver with boot services.
    IMAGE_SUBSYSTEM_EFI_BOOT_SERVICE_DRIVER,
    /// An EFI driver with run-time services.
    IMAGE_SUBSYSTEM_EFI_RUNTIME_DRIVER,
    /// An EFI ROM image.
    IMAGE_SUBSYSTEM_EFI_ROM,
    /// XBOX.
    IMAGE_SUBSYSTEM_XBOX,
    /// Windows boot application.
    IMAGE_SUBSYSTEM_WINDOWS_BOOT_APPLICATION,
}

impl OptionalHeaderSubSystem {
    /// The number that stands for the subsystem in the optional header.
    pub open spec fn code(self) -> u16 {
        match self {
            OptionalHeaderSubSystem::IMAGE_SUBSYSTEM_UNKNOWN => 0,
            OptionalHeaderSubSystem::IMAGE_SUBSYSTEM_NATIVE => 1,
            OptionalHeaderSubSystem::IMAGE_SUBSYSTEM_WINDOWS_GUI => 2,
            OptionalHeaderSubSystem::IMAGE_SUBSYSTEM_WINDOWS_CUI => 3,
            OptionalHeaderSubSystem::IMAGE_SUBSYSTEM_OS2_CUI => 5,
            OptionalHeaderSubSystem::IMAGE_SUBSYSTEM_POSIX_CUI => 7,
            OptionalHeaderSubSystem::IMAGE_SUBSYSTEM_NATIVE_WINDOWS => 8,
            OptionalHeaderSubSystem::IMAGE_SUBSYSTEM_WINDOWS_CE_GUI => 9,
            OptionalHeaderSubSystem::IMAGE_SUBSYSTEM_EFI_APPLICATION => 10,
            OptionalHeaderSubSystem::IMAGE_SUBSYSTEM_EFI_BOOT_SERVICE_DRIVER => 11,
            OptionalHeaderSubSystem::IMAGE_SUBSYSTEM_EFI_RUNTIME_DRIVER => 12,
            OptionalHeaderSubSystem::IMAGE_SUBSYSTEM_EFI_ROM => 13,
            OptionalHeaderSubSystem::IMAGE_SUBSYSTEM_XBOX => 14,
            OptionalHeaderSubSystem::IMAGE_SUBSYSTEM_WINDOWS_BOOT_APPLICATION => 16,
        }
    }

    /// The subsystem that a number of the optional header stands for, if any.
    pub open spec fn from_code(value: u16) -> Option<OptionalHeaderSubSystem> {
        if value == 0 {
            Some(OptionalHeaderSubSystem::IMAGE_SUBSYSTEM_UNKNOWN)
        } else if value == 1 {
            Some(OptionalHeaderSubSystem::IMAGE_SUBSYSTEM_NATIVE)
        } else if value == 2 {
            Some(OptionalHeaderSubSystem::IMAGE_SUBSYSTEM_WINDOWS_GUI)
        } else if value == 3 {
            Some(OptionalHeaderSubSystem::IMAGE_SUBSYSTEM_WINDOWS_CUI)
        } else if value == 5 {
            Some(OptionalHeaderSubSystem::IMAGE_SUBSYSTEM_OS2_CUI)
        } else if value == 7 {
            Some(OptionalHeaderSubSystem::IMAGE_SUBSYSTEM_POSIX_CUI)
        } else if value == 8 {
            Some(OptionalHeaderSubSystem::IMAGE_SUBSYSTEM_NATIVE_WINDOWS)
        } else if value == 9 {
            Some(OptionalHeaderSubSystem::IMAGE_SUBSYSTEM_WINDOWS_CE_GUI)
        } else if value == 10 {
            Some(OptionalHeaderSubSystem::IMAGE_SUBSYSTEM_EFI_APPLICATION)
        } else if value == 11 {
            Some(OptionalHeaderSubSystem::IMAGE_SUBSYSTEM_EFI_BOOT_SERVICE_DRIVER)
        } else if value == 12 {
            Some(OptionalHeaderSubSystem::IMAGE_SUBSYSTEM_EFI_RUNTIME_DRIVER)
        } else if value == 13 {
            Some(OptionalHeaderSubSystem::IMAGE_SUBSYSTEM_EFI_ROM)
        } else if value == 14 {
            Some(OptionalHeaderSubSystem::IMAGE_SUBSYSTEM_XBOX)
        } else if value == 16 {
            Some(OptionalHeaderSubSystem::IMAGE_SUBSYSTEM_WINDOWS_BOOT_APPLICATION)
        } else {
            None
        }
    }

    /// A number stands for a subsystem exactly when it is that subsystem's
    /// number.
    pub proof fn lemma_code_round_trip(subsystem: OptionalHeaderSubSystem, value: u16)
        ensures
            OptionalHeaderSubSystem::from_code(subsystem.code()) == Some(subsystem),
            OptionalHeaderSubSystem::from_code(value) matches Some(found) ==> found.code()
                == value,
    {
    }
}

impl TryFrom<u16> for OptionalHeaderSubSystem {
    type Error = ();

    /// The subsystem that a number of the optional header stands for.
    fn try_from(value: u16) -> (r: Result<Self, ()>) {
        match value {
            0 => Ok(OptionalHeaderSubSystem::IMAGE_SUBSYSTEM_UNKNOWN),
            1 => Ok(OptionalHeaderSubSystem::IMAGE_SUBSYSTEM_NATIVE),
            2 => Ok(OptionalHeaderSubSystem::IMAGE_SUBSYSTEM_WINDOWS_GUI),
            3 => Ok(OptionalHeaderSubSystem::IMAGE_SUBSYSTEM_WINDOWS_CUI),
            5 => Ok(OptionalHeaderSubSystem::IMAGE_SUBSYSTEM_OS2_CUI),
            7 => Ok(OptionalHeaderSubSystem::IMAGE_SUBSYSTEM_POSIX_CUI),
            8 => Ok(OptionalHeaderSubSystem::IMAGE_SUBSYSTEM_NATIVE_WINDOWS),
            9 => Ok(OptionalHeaderSubSystem::IMAGE_SUBSYSTEM_WINDOWS_CE_GUI),
            10 => Ok(OptionalHeaderSubSystem::IMAGE_SUBSYSTEM_EFI_APPLICATION),
            11 => Ok(OptionalHeaderSubSystem::IMAGE_SUBSYSTEM_EFI_BOOT_SERVICE_DRIVER),
            12 => Ok(OptionalHeaderSubSystem::IMAGE_SUBSYSTEM_EFI_RUNTIME_DRIVER),
            13 => Ok(OptionalHeaderSubSystem::IMAGE_SUBSYSTEM_EFI_ROM),
            14 => Ok(OptionalHeaderSubSystem::IMAGE_SUBSYSTEM_XBOX),
            16 => Ok(OptionalHeaderSubSystem::IMAGE_SUBSYSTEM_WINDOWS_BOOT_APPLICATION),
            _ => Err(()),
        }
    }
}

impl TryFromSpecImpl<u16> for OptionalHeaderSubSystem {
    open spec fn obeys_try_from_spec() -> bool {
        true
    }

    open spec fn try_from_spec(value: u16) -> Result<Self, ()> {
        match OptionalHeaderSubSystem::from_code(value) {
            Some(subsystem) => Ok(subsystem),
            None => Err(()),
        }
    }
}

/// What a slot of the data directory points to. The slot's position in the
/// directory decides it.
#[derive(Clone, Copy, Debug, Default, PartialEq, Eq, Structural)]
#[allow(non_camel_case_types)]
pub enum DataDirectoryTableField {
    /// The export table address and size.
    #[default]
    EXPORT_TABLE,
    /// The import table address and size.
    IMPORT_TABLE,
    /// The resource table address and size.
    RESOURCE_TABLE,
    /// The exception table address and size.
    EXCEPTION_TABLE,
    /// The attribute certificate table address and size.
    CERTIFICATE_TABLE,
    /// The base relocation table address and size.
    BASE_RELOCATION_TABLE,
    /// The debug data starting address and size.
    DEBUG,
    /// Reserved, must be zero.
    ARCHITECTURE,
    /// The address of the value to be stored in the global pointer register.
    GLOBAL_PTR,
    /// The thread local storage table address and size.
    TLS_TABLE,
    /// The load configuration table address and size.
    LOAD_CONFIG_TABLE,
    /// The bound import table address and size.
    BOUND_IMPORT,
    /// The import address table address and size.
    IAT,
    /// The delay import descriptor address and size.
    DELAY_IMPORT_DESCRIPTOR,
    /// The CLR runtime header address and size.
    CLR_RUNTIME_HEADER,
    /// Reserved, must be zero.
    RESERVED,
}

impl DataDirectoryTableField {
    /// The position of the slot in the directory.
    pub open spec fn index(self) -> u32 {
        match self {
            DataDirectoryTableField::EXPORT_TABLE => 0,
            DataDirectoryTableField::IMPORT_TABLE => 1,
            DataDirectoryTableField::RESOURCE_TABLE => 2,
            DataDirectoryTableField::EXCEPTION_TABLE => 3,
            DataDirectoryTableField::CERTIFICATE_TABLE => 4,
            DataDirectoryTableField::BASE_RELOCATION_TABLE => 5,
            DataDirectoryTableField::DEBUG => 6,
            DataDirectoryTableField::ARCHITECTURE => 7,
            DataDirectoryTableField::GLOBAL_PTR => 8,
            DataDirectoryTableField::TLS_TABLE => 9,
            DataDirectoryTableField::LOAD_CONFIG_TABLE => 10,
            DataDirectoryTableField::BOUND_IMPORT => 11,
            DataDirectoryTableField::IAT => 12,
            DataDirectoryTableField::DELAY_IMPORT_DESCRIPTOR => 13,
            DataDirectoryTableField::CLR_RUNTIME_HEADER => 14,
            DataDirectoryTableField::RESERVED => 15,
        }
    }

    /// The meaning of the slot at a position of the directory, if it has one.
    pub open spec fn from_index(value: u32) -> Option<DataDirectoryTableField> {
        if value == 0 {
            Some(DataDirectoryTableField::EXPORT_TABLE)
        } else if value == 1 {
            Some(DataDirectoryTableField::IMPORT_TABLE)
        } else if value == 2 {
            Some(DataDirectoryTableField::RESOURCE_TABLE)
        } else if value == 3 {
            Some(DataDirectoryTableField::EXCEPTION_TABLE)
        } else if value == 4 {
            Some(DataDirectoryTableField::CERTIFICATE_TABLE)
        } else if value == 5 {
            Some(DataDirectoryTableField::BASE_RELOCATION_TABLE)
        } else if value == 6 {
            Some(DataDirectoryTableField::DEBUG)
        } else if value == 7 {
            Some(DataDirectoryTableField::ARCHITECTURE)
        } else if value == 8 {
            Some(DataDirectoryTableField::GLOBAL_PTR)
        } else if value == 9 {
            Some(DataDirectoryTableField::TLS_TABLE)
        } else if value == 10 {
            Some(DataDirectoryTableField::LOAD_CONFIG_TABLE)
        } else if value == 11 {
            Some(DataDirectoryTableField::BOUND_IMPORT)
        } else if value == 12 {
            Some(DataDirectoryTableField::IAT)
        } else if value == 13 {
            Some(DataDirectoryTableField::DELAY_IMPORT_DESCRIPTOR)
        } else if value == 14 {
            Some(DataDirectoryTableField::CLR_RUNTIME_HEADER)
        } else if value == 15 {
            Some(DataDirectoryTableField::RESERVED)
        } else {
            None
        }
    }

    /// The sixteen positions 0 to 15 have a meaning each, no two the same,
    /// and no other position has one.
    pub proof fn lemma_index_round_trip(field: DataDirectoryTableField, value: u32)
        ensures
            field.index() < 16,
            DataDirectoryTableField::from_index(field.index()) == Some(field),
            DataDirectoryTableField::from_index(value) is Some <==> value < 16,
            DataDirectoryTableField::from_index(value) matches Some(found) ==> found.index()
                == value,
    {
    }
}

impl TryFrom<u32> for DataDirectoryTableField {
    type Error = ();

    /// The meaning of the slot at a position of the directory.
    fn try_from(value: u32) -> (r: Result<Self, ()>) {
        match value {
            0 => Ok(DataDirectoryTableField::EXPORT_TABLE),
            1 => Ok(DataDirectoryTableField::IMPORT_TABLE),
            2 => Ok(DataDirectoryTableField::RESOURCE_TABLE),
            3 => Ok(DataDirectoryTableField::EXCEPTION_TABLE),
            4 => Ok(DataDirectoryTableField::CERTIFICATE_TABLE),
            5 => Ok(DataDirectoryTableField::BASE_RELOCATION_TABLE),
            6 => Ok(DataDirectoryTableField::DEBUG),
            7 => Ok(DataDirectoryTableField::ARCHITECTURE),
            8 => Ok(DataDirectoryTableField::GLOBAL_PTR),
            9 => Ok(DataDirectoryTableField::TLS_TABLE),
            10 => Ok(DataDirectoryTableField::LOAD_CONFIG_TABLE),
            11 => Ok(DataDirectoryTableField::BOUND_IMPORT),
            12 => Ok(DataDirectoryTableField::IAT),
            13 => Ok(DataDirectoryTableField::DELAY_IMPORT_DESCRIPTOR),
            14 => Ok(DataDirectoryTableField::CLR_RUNTIME_HEADER),
            15 => Ok(DataDirectoryTableField::RESERVED),
            _ => Err(()),
        }
    }
}

impl TryFromSpecImpl<u32> for DataDirectoryTableField {
    open spec fn obeys_try_from_spec() -> bool {
        true
    }

    open spec fn try_from_spec(value: u32) -> Result<Self, ()> {
        match DataDirectoryTableField::from_index(value) {
            Some(field) => Ok(field),
            None => Err(()),
        }
    }
}

} // verus!
