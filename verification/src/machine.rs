//! The machine types of the COFF file header.

use vstd::prelude::*;
use vstd::std_specs::convert::{FromSpecImpl, TryFromSpecImpl};

verus! {

/// The processor that an image was built for.
#[derive(Clone, Copy, Debug, Default, PartialEq, Eq, Structural)]
#[allow(non_camel_case_types)]
pub enum MachineType {
    /// The content of this field is assumed to be applicable to any machine type.
    #[default]
    IMAGE_FILE_MACHINE_UNKNOWN,
    /// Alpha AXP, 32-bit address space.
    IMAGE_FILE_MACHINE_ALPHA,
    /// Alpha 64, 64-bit address space.
    IMAGE_FILE_MACHINE_ALPHA64,
    /// Matsushita AM33.
    IMAGE_FILE_MACHINE_AM33,
    /// x64.
    IMAGE_FILE_MACHINE_AMD64,
    /// ARM little endian.
    IMAGE_FILE_MACHINE_ARM,
    /// ARM64 little endian.
    IMAGE_FILE_MACHINE_ARM64,
    /// ARM Thumb-2 little endian.
    IMAGE_FILE_MACHINE_ARMNT,
    /// AXP 64 (Same as Alpha 64).
    IMAGE_FILE_MACHINE_AXP64,
    /// EFI byte code.
    IMAGE_FILE_MACHINE_EBC,
    /// Intel 386 or later processors and compatible processors.
    IMAGE_FILE_MACHINE_I386,
    /// Intel Itanium processor family.
    IMAGE_FILE_MACHINE_IA64,
    /// LoongArch 32-bit processor family.
    IMAGE_FILE_MACHINE_LOONGARCH32,
    /// LoongArch 64-bit processor family.
    IMAGE_FILE_MACHINE_LOONGARCH64,
    /// Mitsubishi M32R little endian.
    IMAGE_FILE_MACHINE_M32R,
    /// MIPS16.
    IMAGE_FILE_MACHINE_MIPS16,
    /// MIPS with FPU.
    IMAGE_FILE_MACHINE_MIPSFPU,
    /// MIPS16 with FPU.
    IMAGE_FILE_MACHINE_MIPSFPU16,
    /// Power PC little endian.
    IMAGE_FILE_MACHINE_POWERPC,
    /// Power PC with floating point support.
    IMAGE_FILE_MACHINE_POWERPCFP,
    /// MIPS little endian.
    IMAGE_FILE_MACHINE_R4000,
    /// RISC-V 32-bit address space.
    IMAGE_FILE_MACHINE_RISCV32,
    /// RISC-V 64-bit address space.
    IMAGE_FILE_MACHINE_RISCV64,
    /// RISC-V 128-bit address space.
    IMAGE_FILE_MACHINE_RISCV128,
    /// Hitachi SH3.
    IMAGE_FILE_MACHINE_SH3,
    /// Hitachi SH3 DSP.
    IMAGE_FILE_MACHINE_SH3DSP,
    /// Hitachi SH4.
    IMAGE_FILE_MACHINE_SH4,
    /// Hitachi SH5.
    IMAGE_FILE_MACHINE_SH5,
    /// Thumb.
    IMAGE_FILE_MACHINE_THUMB,
    /// MIPS little-endian WCE v2.
    IMAGE_FILE_MACHINE_WCEMIPSV2,
}

impl MachineType {
    /// The number that stands for the machine in the file header.
    pub open spec fn code(self) -> u16 {
        match self {
            MachineType::IMAGE_FILE_MACHINE_UNKNOWN => 0x0,
            MachineType::IMAGE_FILE_MACHINE_ALPHA => 0x184,
            MachineType::IMAGE_FILE_MACHINE_ALPHA64 => 0x284,
            MachineType::IMAGE_FILE_MACHINE_AM33 => 0x1d3,
            MachineType::IMAGE_FILE_MACHINE_AMD64 => 0x8664,
            MachineType::IMAGE_FILE_MACHINE_ARM => 0x1c0,
            MachineType::IMAGE_FILE_MACHINE_ARM64 => 0xaa64,
            MachineType::IMAGE_FILE_MACHINE_ARMNT => 0x1c4,
            MachineType::IMAGE_FILE_MACHINE_AXP64 => 0x284,
            MachineType::IMAGE_FILE_MACHINE_EBC => 0xebc,
            MachineType::IMAGE_FILE_MACHINE_I386 => 0x14c,
            MachineType::IMAGE_FILE_MACHINE_IA64 => 0x200,
            MachineType::IMAGE_FILE_MACHINE_LOONGARCH32 => 0x6232,
            MachineType::IMAGE_FILE_MACHINE_LOONGARCH64 => 0x6264,
            MachineType::IMAGE_FILE_MACHINE_M32R => 0x9041,
            MachineType::IMAGE_FILE_MACHINE_MIPS16 => 0x266,
            MachineType::IMAGE_FILE_MACHINE_MIPSFPU => 0x366,
            MachineType::IMAGE_FILE_MACHINE_MIPSFPU16 => 0x466,
            MachineType::IMAGE_FILE_MACHINE_POWERPC => 0x1f0,
            MachineType::IMAGE_FILE_MACHINE_POWERPCFP => 0x1f1,
            MachineType::IMAGE_FILE_MACHINE_R4000 => 0x166,
            MachineType::IMAGE_FILE_MACHINE_RISCV32 => 0x5032,
            MachineType::IMAGE_FILE_MACHINE_RISCV64 => 0x5064,
            MachineType::IMAGE_FILE_MACHINE_RISCV128 => 0x5128,
            MachineType::IMAGE_FILE_MACHINE_SH3 => 0x1a2,
            MachineType::IMAGE_FILE_MACHINE_SH3DSP => 0x1a3,
            MachineType::IMAGE_FILE_MACHINE_SH4 => 0x1a6,
            MachineType::IMAGE_FILE_MACHINE_SH5 => 0x1a8,
            MachineType::IMAGE_FILE_MACHINE_THUMB => 0x1c2,
            MachineType::IMAGE_FILE_MACHINE_WCEMIPSV2 => 0x169,
        }
    }

    /// The machine that a number of the file header stands for, if any. Alpha
    /// 64 and AXP 64 share a number, which stands for the former.
    pub open spec fn from_code(value: u16) -> Option<MachineType> {
        if value == 0x0 {
            Some(MachineType::IMAGE_FILE_MACHINE_UNKNOWN)
        } else if value == 0x184 {
            Some(MachineType::IMAGE_FILE_MACHINE_ALPHA)
        } else if value == 0x284 {
            Some(MachineType::IMAGE_FILE_MACHINE_ALPHA64)
        } else if value == 0x1d3 {
            Some(MachineType::IMAGE_FILE_MACHINE_AM33)
        } else if value == 0x8664 {
            Some(MachineType::IMAGE_FILE_MACHINE_AMD64)
        } else if value == 0x1c0 {
            Some(MachineType::IMAGE_FILE_MACHINE_ARM)
        } else if value == 0xaa64 {
            Some(MachineType::IMAGE_FILE_MACHINE_ARM64)
        } else if value == 0x1c4 {
            Some(MachineType::IMAGE_FILE_MACHINE_ARMNT)
        } else if value == 0xebc {
            Some(MachineType::IMAGE_FILE_MACHINE_EBC)
        } else if value == 0x14c {
            Some(MachineType::IMAGE_FILE_MACHINE_I386)
        } else if value == 0x200 {
            Some(MachineType::IMAGE_FILE_MACHINE_IA64)
        } else if value == 0x6232 {
            Some(MachineType::IMAGE_FILE_MACHINE_LOONGARCH32)
        } else if value == 0x6264 {
            Some(MachineType::IMAGE_FILE_MACHINE_LOONGARCH64)
        } else if value == 0x9041 {
            Some(MachineType::IMAGE_FILE_MACHINE_M32R)
        } else if value == 0x266 {
            Some(MachineType::IMAGE_FILE_MACHINE_MIPS16)
        } else if value == 0x366 {
            Some(MachineType::IMAGE_FILE_MACHINE_MIPSFPU)
        } else if value == 0x466 {
            Some(MachineType::IMAGE_FILE_MACHINE_MIPSFPU16)
        } else if value == 0x1f0 {
            Some(MachineType::IMAGE_FILE_MACHINE_POWERPC)
        } else if value == 0x1f1 {
            Some(MachineType::IMAGE_FILE_MACHINE_POWERPCFP)
        } else if value == 0x166 {
            Some(MachineType::IMAGE_FILE_MACHINE_R4000)
        } else if value == 0x5032 {
            Some(MachineType::IMAGE_FILE_MACHINE_RISCV32)
        } else if value == 0x5064 {
            Some(MachineType::IMAGE_FILE_MACHINE_RISCV64)
        } else if value == 0x5128 {
            Some(MachineType::IMAGE_FILE_MACHINE_RISCV128)
        } else if value == 0x1a2 {
            Some(MachineType::IMAGE_FILE_MACHINE_SH3)
        } else if value == 0x1a3 {
            Some(MachineType::IMAGE_FILE_MACHINE_SH3DSP)
        } else if value == 0x1a6 {
            Some(MachineType::IMAGE_FILE_MACHINE_SH4)
        } else if value == 0x1a8 {
            Some(MachineType::IMAGE_FILE_MACHINE_SH5)
        } else if value == 0x1c2 {
            Some(MachineType::IMAGE_FILE_MACHINE_THUMB)
        } else if value == 0x169 {
            Some(MachineType::IMAGE_FILE_MACHINE_WCEMIPSV2)
        } else {
            None
        }
    }

    /// The width of the machine's addresses as far as decoding goes: 64 for
    /// the machines with an address space of 64 bits or more, 32 for every
    /// other, the 16-bit machines and the unknown one included.
    pub open spec fn bitness_of(self) -> u32 {
        match self {
            MachineType::IMAGE_FILE_MACHINE_ALPHA64
            | MachineType::IMAGE_FILE_MACHINE_AMD64
            | MachineType::IMAGE_FILE_MACHINE_ARM64
            | MachineType::IMAGE_FILE_MACHINE_AXP64
            | MachineType::IMAGE_FILE_MACHINE_IA64
            | MachineType::IMAGE_FILE_MACHINE_LOONGARCH64
            | MachineType::IMAGE_FILE_MACHINE_RISCV64
            | MachineType::IMAGE_FILE_MACHINE_RISCV128 => 64,
            _ => 32,
        }
    }

    /// A sentence that describes the machine.
    pub open spec fn description_text(self) -> Seq<char> {
        match self {
            MachineType::IMAGE_FILE_MACHINE_UNKNOWN => "The content of this field is assumed to be applicable to any machine type"@,
            MachineType::IMAGE_FILE_MACHINE_ALPHA => "Alpha AXP, 32-bit address space"@,
            MachineType::IMAGE_FILE_MACHINE_ALPHA64 => "Alpha 64, 64-bit address space"@,
            MachineType::IMAGE_FILE_MACHINE_AM33 => "Matsushita AM33"@,
            MachineType::IMAGE_FILE_MACHINE_AMD64 => "x64"@,
            MachineType::IMAGE_FILE_MACHINE_ARM => "ARM little endian"@,
            MachineType::IMAGE_FILE_MACHINE_ARM64 => "ARM64 little endian"@,
            MachineType::IMAGE_FILE_MACHINE_ARMNT => "ARM Thumb-2 little endian"@,
            MachineType::IMAGE_FILE_MACHINE_AXP64 => "AXP 64 (Same as Alpha 64)"@,
            MachineType::IMAGE_FILE_MACHINE_EBC => "EFI byte code"@,
            MachineType::IMAGE_FILE_MACHINE_I386 => "Intel 386 or later processors and compatible processors"@,
            MachineType::IMAGE_FILE_MACHINE_IA64 => "Intel Itanium processor family"@,
            MachineType::IMAGE_FILE_MACHINE_LOONGARCH32 => "LoongArch 32-bit processor family"@,
            MachineType::IMAGE_FILE_MACHINE_LOONGARCH64 => "LoongArch 64-bit processor family"@,
            MachineType::IMAGE_FILE_MACHINE_M32R => "Mitsubishi M32R little endian"@,
            MachineType::IMAGE_FILE_MACHINE_MIPS16 => "MIPS16"@,
            MachineType::IMAGE_FILE_MACHINE_MIPSFPU => "MIPS with FPU"@,
            MachineType::IMAGE_FILE_MACHINE_MIPSFPU16 => "MIPS16 with FPU"@,
            MachineType::IMAGE_FILE_MACHINE_POWERPC => "Power PC little endian"@,
            MachineType::IMAGE_FILE_MACHINE_POWERPCFP => "Power PC with floating point support"@,
            MachineType::IMAGE_FILE_MACHINE_R4000 => "MIPS little endian"@,
            MachineType::IMAGE_FILE_MACHINE_RISCV32 => "RISC-V 32-bit address space"@,
            MachineType::IMAGE_FILE_MACHINE_RISCV64 => "RISC-V 64-bit address space"@,
            MachineType::IMAGE_FILE_MACHINE_RISCV128 => "RISC-V 128-bit address space"@,
            MachineType::IMAGE_FILE_MACHINE_SH3 => "Hitachi SH3"@,
            MachineType::IMAGE_FILE_MACHINE_SH3DSP => "Hitachi SH3 DSP"@,
            MachineType::IMAGE_FILE_MACHINE_SH4 => "Hitachi SH4"@,
            MachineType::IMAGE_FILE_MACHINE_SH5 => "Hitachi SH5"@,
            MachineType::IMAGE_FILE_MACHINE_THUMB => "Thumb"@,
            MachineType::IMAGE_FILE_MACHINE_WCEMIPSV2 => "MIPS little-endian WCE v2"@,
        }
    }

    /// The width of the machine's addresses as far as decoding goes, 32 or 64.
    pub fn bitness(&self) -> (bits: u32)
        ensures
            bits == self.bitness_of(),
            bits == 32 || bits == 64,
    {
        match self {
            MachineType::IMAGE_FILE_MACHINE_UNKNOWN => 32,
            MachineType::IMAGE_FILE_MACHINE_ALPHA => 32,
            MachineType::IMAGE_FILE_MACHINE_ALPHA64 => 64,
            MachineType::IMAGE_FILE_MACHINE_AM33 => 32,
            MachineType::IMAGE_FILE_MACHINE_AMD64 => 64,
            MachineType::IMAGE_FILE_MACHINE_ARM => 32,
            MachineType::IMAGE_FILE_MACHINE_ARM64 => 64,
            MachineType::IMAGE_FILE_MACHINE_ARMNT => 32,
            MachineType::IMAGE_FILE_MACHINE_AXP64 => 64,
            MachineType::IMAGE_FILE_MACHINE_EBC => 32,
            MachineType::IMAGE_FILE_MACHINE_I386 => 32,
            MachineType::IMAGE_FILE_MACHINE_IA64 => 64,
            MachineType::IMAGE_FILE_MACHINE_LOONGARCH32 => 32,
            MachineType::IMAGE_FILE_MACHINE_LOONGARCH64 => 64,
            MachineType::IMAGE_FILE_MACHINE_M32R => 32,
            MachineType::IMAGE_FILE_MACHINE_MIPS16 => 32,
            MachineType::IMAGE_FILE_MACHINE_MIPSFPU => 32,
            MachineType::IMAGE_FILE_MACHINE_MIPSFPU16 => 32,
            MachineType::IMAGE_FILE_MACHINE_POWERPC => 32,
            MachineType::IMAGE_FILE_MACHINE_POWERPCFP => 32,
            MachineType::IMAGE_FILE_MACHINE_R4000 => 32,
            MachineType::IMAGE_FILE_MACHINE_RISCV32 => 32,
            MachineType::IMAGE_FILE_MACHINE_RISCV64 => 64,
            MachineType::IMAGE_FILE_MACHINE_RISCV128 => 64,
            MachineType::IMAGE_FILE_MACHINE_SH3 => 32,
            MachineType::IMAGE_FILE_MACHINE_SH3DSP => 32,
            MachineType::IMAGE_FILE_MACHINE_SH4 => 32,
            MachineType::IMAGE_FILE_MACHINE_SH5 => 32,
            MachineType::IMAGE_FILE_MACHINE_THUMB => 32,
            MachineType::IMAGE_FILE_MACHINE_WCEMIPSV2 => 32,
        }
    }

    /// A sentence that describes the machine.
    pub fn description(&self) -> (text: String)
        ensures
            text@ == self.description_text(),
    {
        match self {
            MachineType::IMAGE_FILE_MACHINE_UNKNOWN => "The content of this field is assumed to be applicable to any machine type".to_owned(),
            MachineType::IMAGE_FILE_MACHINE_ALPHA => "Alpha AXP, 32-bit address space".to_owned(),
            MachineType::IMAGE_FILE_MACHINE_ALPHA64 => "Alpha 64, 64-bit address space".to_owned(),
            MachineType::IMAGE_FILE_MACHINE_AM33 => "Matsushita AM33".to_owned(),
            MachineType::IMAGE_FILE_MACHINE_AMD64 => "x64".to_owned(),
            MachineType::IMAGE_FILE_MACHINE_ARM => "ARM little endian".to_owned(),
            MachineType::IMAGE_FILE_MACHINE_ARM64 => "ARM64 little endian".to_owned(),
            MachineType::IMAGE_FILE_MACHINE_ARMNT => "ARM Thumb-2 little endian".to_owned(),
            MachineType::IMAGE_FILE_MACHINE_AXP64 => "AXP 64 (Same as Alpha 64)".to_owned(),
            MachineType::IMAGE_FILE_MACHINE_EBC => "EFI byte code".to_owned(),
            MachineType::IMAGE_FILE_MACHINE_I386 => "Intel 386 or later processors and compatible processors".to_owned(),
            MachineType::IMAGE_FILE_MACHINE_IA64 => "Intel Itanium processor family".to_owned(),
            MachineType::IMAGE_FILE_MACHINE_LOONGARCH32 => "LoongArch 32-bit processor family".to_owned(),
            MachineType::IMAGE_FILE_MACHINE_LOONGARCH64 => "LoongArch 64-bit processor family".to_owned(),
            MachineType::IMAGE_FILE_MACHINE_M32R => "Mitsubishi M32R little endian".to_owned(),
            MachineType::IMAGE_FILE_MACHINE_MIPS16 => "MIPS16".to_owned(),
            MachineType::IMAGE_FILE_MACHINE_MIPSFPU => "MIPS with FPU".to_owned(),
            MachineType::IMAGE_FILE_MACHINE_MIPSFPU16 => "MIPS16 with FPU".to_owned(),
            MachineType::IMAGE_FILE_MACHINE_POWERPC => "Power PC little endian".to_owned(),
            MachineType::IMAGE_FILE_MACHINE_POWERPCFP => "Power PC with floating point support".to_owned(),
            MachineType::IMAGE_FILE_MACHINE_R4000 => "MIPS little endian".to_owned(),
            MachineType::IMAGE_FILE_MACHINE_RISCV32 => "RISC-V 32-bit address space".to_owned(),
            MachineType::IMAGE_FILE_MACHINE_RISCV64 => "RISC-V 64-bit address space".to_owned(),
            MachineType::IMAGE_FILE_MACHINE_RISCV128 => "RISC-V 128-bit address space".to_owned(),
            MachineType::IMAGE_FILE_MACHINE_SH3 => "Hitachi SH3".to_owned(),
            MachineType::IMAGE_FILE_MACHINE_SH3DSP => "Hitachi SH3 DSP".to_owned(),
            MachineType::IMAGE_FILE_MACHINE_SH4 => "Hitachi SH4".to_owned(),
            MachineType::IMAGE_FILE_MACHINE_SH5 => "Hitachi SH5".to_owned(),
            MachineType::IMAGE_FILE_MACHINE_THUMB => "Thumb".to_owned(),
            MachineType::IMAGE_FILE_MACHINE_WCEMIPSV2 => "MIPS little-endian WCE v2".to_owned(),
        }
    }

    /// A machine's number stands for that machine, but for AXP 64, whose
    /// number stands for Alpha 64.
    pub proof fn lemma_code_round_trip(machine: MachineType)
        ensures
            machine != MachineType::IMAGE_FILE_MACHINE_AXP64 ==> MachineType::from_code(
                machine.code(),
            ) == Some(machine),
            MachineType::from_code(MachineType::IMAGE_FILE_MACHINE_AXP64.code()) == Some(
                MachineType::IMAGE_FILE_MACHINE_ALPHA64,
            ),
    {
    }

    /// A number that stands for a machine is that machine's number.
    pub proof fn lemma_from_code_sound(value: u16)
        ensures
            MachineType::from_code(value) matches Some(machine) ==> machine.code() == value,
    {
    }
}

impl From<MachineType> for u16 {
    /// The number that stands for the machine in the file header.
    fn from(machine: MachineType) -> (value: u16) {
        match machine {
            MachineType::IMAGE_FILE_MACHINE_UNKNOWN => 0x0,
            MachineType::IMAGE_FILE_MACHINE_ALPHA => 0x184,
            MachineType::IMAGE_FILE_MACHINE_ALPHA64 => 0x284,
            MachineType::IMAGE_FILE_MACHINE_AM33 => 0x1d3,
            MachineType::IMAGE_FILE_MACHINE_AMD64 => 0x8664,
            MachineType::IMAGE_FILE_MACHINE_ARM => 0x1c0,
            MachineType::IMAGE_FILE_MACHINE_ARM64 => 0xaa64,
            MachineType::IMAGE_FILE_MACHINE_ARMNT => 0x1c4,
            MachineType::IMAGE_FILE_MACHINE_AXP64 => 0x284,
            MachineType::IMAGE_FILE_MACHINE_EBC => 0xebc,
            MachineType::IMAGE_FILE_MACHINE_I386 => 0x14c,
            MachineType::IMAGE_FILE_MACHINE_IA64 => 0x200,
            MachineType::IMAGE_FILE_MACHINE_LOONGARCH32 => 0x6232,
            MachineType::IMAGE_FILE_MACHINE_LOONGARCH64 => 0x6264,
            MachineType::IMAGE_FILE_MACHINE_M32R => 0x9041,
            MachineType::IMAGE_FILE_MACHINE_MIPS16 => 0x266,
            MachineType::IMAGE_FILE_MACHINE_MIPSFPU => 0x366,
            MachineType::IMAGE_FILE_MACHINE_MIPSFPU16 => 0x466,
            MachineType::IMAGE_FILE_MACHINE_POWERPC => 0x1f0,
            MachineType::IMAGE_FILE_MACHINE_POWERPCFP => 0x1f1,
            MachineType::IMAGE_FILE_MACHINE_R4000 => 0x166,
            MachineType::IMAGE_FILE_MACHINE_RISCV32 => 0x5032,
            MachineType::IMAGE_FILE_MACHINE_RISCV64 => 0x5064,
            MachineType::IMAGE_FILE_MACHINE_RISCV128 => 0x5128,
            MachineType::IMAGE_FILE_MACHINE_SH3 => 0x1a2,
            MachineType::IMAGE_FILE_MACHINE_SH3DSP => 0x1a3,
            MachineType::IMAGE_FILE_MACHINE_SH4 => 0x1a6,
            MachineType::IMAGE_FILE_MACHINE_SH5 => 0x1a8,
            MachineType::IMAGE_FILE_MACHINE_THUMB => 0x1c2,
            MachineType::IMAGE_FILE_MACHINE_WCEMIPSV2 => 0x169,
        }
    }
}

impl FromSpecImpl<MachineType> for u16 {
    open spec fn obeys_from_spec() -> bool {
        true
    }

    open spec fn from_spec(machine: MachineType) -> u16 {
        machine.code()
    }
}

impl TryFrom<u16> for MachineType {
    type Error = ();

    /// The machine that a number of the file header stands for.
    fn try_from(value: u16) -> (r: Result<Self, ()>) {
        match value {
            0x0 => Ok(MachineType::IMAGE_FILE_MACHINE_UNKNOWN),
            0x184 => Ok(MachineType::IMAGE_FILE_MACHINE_ALPHA),
            0x284 => Ok(MachineType::IMAGE_FILE_MACHINE_ALPHA64),
            0x1d3 => Ok(MachineType::IMAGE_FILE_MACHINE_AM33),
            0x8664 => Ok(MachineType::IMAGE_FILE_MACHINE_AMD64),
            0x1c0 => Ok(MachineType::IMAGE_FILE_MACHINE_ARM),
            0xaa64 => Ok(MachineType::IMAGE_FILE_MACHINE_ARM64),
            0x1c4 => Ok(MachineType::IMAGE_FILE_MACHINE_ARMNT),
            0xebc => Ok(MachineType::IMAGE_FILE_MACHINE_EBC),
            0x14c => Ok(MachineType::IMAGE_FILE_MACHINE_I386),
            0x200 => Ok(MachineType::IMAGE_FILE_MACHINE_IA64),
            0x6232 => Ok(MachineType::IMAGE_FILE_MACHINE_LOONGARCH32),
            0x6264 => Ok(MachineType::IMAGE_FILE_MACHINE_LOONGARCH64),
            0x9041 => Ok(MachineType::IMAGE_FILE_MACHINE_M32R),
            0x266 => Ok(MachineType::IMAGE_FILE_MACHINE_MIPS16),
            0x366 => Ok(MachineType::IMAGE_FILE_MACHINE_MIPSFPU),
            0x466 => Ok(MachineType::IMAGE_FILE_MACHINE_MIPSFPU16),
            0x1f0 => Ok(MachineType::IMAGE_FILE_MACHINE_POWERPC),
            0x1f1 => Ok(MachineType::IMAGE_FILE_MACHINE_POWERPCFP),
            0x166 => Ok(MachineType::IMAGE_FILE_MACHINE_R4000),
            0x5032 => Ok(MachineType::IMAGE_FILE_MACHINE_RISCV32),
            0x5064 => Ok(MachineType::IMAGE_FILE_MACHINE_RISCV64),
            0x5128 => Ok(MachineType::IMAGE_FILE_MACHINE_RISCV128),
            0x1a2 => Ok(MachineType::IMAGE_FILE_MACHINE_SH3),
            0x1a3 => Ok(MachineType::IMAGE_FILE_MACHINE_SH3DSP),
            0x1a6 => Ok(MachineType::IMAGE_FILE_MACHINE_SH4),
            0x1a8 => Ok(MachineType::IMAGE_FILE_MACHINE_SH5),
            0x1c2 => Ok(MachineType::IMAGE_FILE_MACHINE_THUMB),
            0x169 => Ok(MachineType::IMAGE_FILE_MACHINE_WCEMIPSV2),
            _ => Err(()),
        }
    }
}

impl TryFromSpecImpl<u16> for MachineType {
    open spec fn obeys_try_from_spec() -> bool {
        true
    }

    open spec fn try_from_spec(value: u16) -> Result<Self, ()> {
        match MachineType::from_code(value) {
            Some(machine) => Ok(machine),
            None => Err(()),
        }
    }
}

} // verus!
