//! The two flag words of the headers: the characteristics of the COFF file
//! header and the DLL characteristics of the optional header.

use crate::flags::{
    compose, decode_flags, flags_of, independent, is_set, lemma_decode_inverts_compose,
    lemma_flags_of_contains, BitFlag,
};
use vstd::prelude::*;
use vstd::std_specs::convert::FromSpecImpl;

verus! {

/// A flag of the COFF file header's characteristics word.
#[derive(Clone, Copy, Debug, Default, PartialEq, Eq, Structural)]
#[allow(non_camel_case_types)]
pub enum Characteristics {
    /// The file holds no base relocations and must load at its preferred base.
    #[default]
    IMAGE_FILE_RELOCS_STRIPPED,
    /// The image is valid and can be run.
    IMAGE_FILE_EXECUTABLE_IMAGE,
    /// COFF line numbers were removed. Deprecated.
    IMAGE_FILE_LINE_NUMS_STRIPPED,
    /// COFF symbol table entries for local symbols were removed. Deprecated.
    IMAGE_FILE_LOCAL_SYMS_STRIPPED,
    /// Aggressively trim the working set. Obsolete.
    IMAGE_FILE_AGGRESSIVE_WS_TRIM,
    /// The application can handle addresses above 2 GB.
    IMAGE_FILE_LARGE_ADDRESS_AWARE,
    /// Little endian. Deprecated.
    IMAGE_FILE_BYTES_REVERSED_LO,
    /// The machine is based on a 32-bit-word architecture.
    IMAGE_FILE_32BIT_MACHINE,
    /// Debugging information was removed from the image.
    IMAGE_FILE_DEBUG_STRIPPED,
    /// If the image is on removable media, load it fully and copy it to swap.
    IMAGE_FILE_REMOVABLE_RUN_FROM_SWAP,
    /// If the image is on network media, load it fully and copy it to swap.
    IMAGE_FILE_NET_RUN_FROM_SWAP,
    /// The image is a system file, not a user program.
    IMAGE_FILE_SYSTEM,
    /// The image is a dynamic-link library.
    IMAGE_FILE_DLL,
    /// The file should run only on a uniprocessor machine.
    IMAGE_FILE_UP_SYSTEM_ONLY,
    /// Big endian. Deprecated.
    IMAGE_FILE_BYTES_REVERSED_HI,
}

impl Characteristics {
    /// Every flag, in the order of declaration.
    pub open spec fn all() -> Seq<Characteristics> {
        seq![
            Characteristics::IMAGE_FILE_RELOCS_STRIPPED,
            Characteristics::IMAGE_FILE_EXECUTABLE_IMAGE,
            Characteristics::IMAGE_FILE_LINE_NUMS_STRIPPED,
            Characteristics::IMAGE_FILE_LOCAL_SYMS_STRIPPED,
            Characteristics::IMAGE_FILE_AGGRESSIVE_WS_TRIM,
            Characteristics::IMAGE_FILE_LARGE_ADDRESS_AWARE,
            Characteristics::IMAGE_FILE_BYTES_REVERSED_LO,
            Characteristics::IMAGE_FILE_32BIT_MACHINE,
            Characteristics::IMAGE_FILE_DEBUG_STRIPPED,
            Characteristics::IMAGE_FILE_REMOVABLE_RUN_FROM_SWAP,
            Characteristics::IMAGE_FILE_NET_RUN_FROM_SWAP,
            Characteristics::IMAGE_FILE_SYSTEM,
            Characteristics::IMAGE_FILE_DLL,
            Characteristics::IMAGE_FILE_UP_SYSTEM_ONLY,
            Characteristics::IMAGE_FILE_BYTES_REVERSED_HI,
        ]
    }

    /// The flag's mask.
    pub open spec fn mask_spec(self) -> u16 {
        match self {
            Characteristics::IMAGE_FILE_RELOCS_STRIPPED => 0x0001,
            Characteristics::IMAGE_FILE_EXECUTABLE_IMAGE => 0x0002,
            Characteristics::IMAGE_FILE_LINE_NUMS_STRIPPED => 0x0004,
            Characteristics::IMAGE_FILE_LOCAL_SYMS_STRIPPED => 0x0008,
            Characteristics::IMAGE_FILE_AGGRESSIVE_WS_TRIM => 0x0010,
            Characteristics::IMAGE_FILE_LARGE_ADDRESS_AWARE => 0x0020,
            Characteristics::IMAGE_FILE_BYTES_REVERSED_LO => 0x0080,
            Characteristics::IMAGE_FILE_32BIT_MACHINE => 0x0100,
            Characteristics::IMAGE_FILE_DEBUG_STRIPPED => 0x0200,
            Characteristics::IMAGE_FILE_REMOVABLE_RUN_FROM_SWAP => 0x0400,
            Characteristics::IMAGE_FILE_NET_RUN_FROM_SWAP => 0x0800,
            Characteristics::IMAGE_FILE_SYSTEM => 0x1000,
            Characteristics::IMAGE_FILE_DLL => 0x2000,
            Characteristics::IMAGE_FILE_UP_SYSTEM_ONLY => 0x4000,
            Characteristics::IMAGE_FILE_BYTES_REVERSED_HI => 0x8000,
        }
    }

    /// The number of the flag's bit in the word, counted from the lowest. Bit
    /// 6 is reserved and belongs to no flag.
    pub open spec fn bit(self) -> u16 {
        match self {
            Characteristics::IMAGE_FILE_RELOCS_STRIPPED => 0,
            Characteristics::IMAGE_FILE_EXECUTABLE_IMAGE => 1,
            Characteristics::IMAGE_FILE_LINE_NUMS_STRIPPED => 2,
            Characteristics::IMAGE_FILE_LOCAL_SYMS_STRIPPED => 3,
            Characteristics::IMAGE_FILE_AGGRESSIVE_WS_TRIM => 4,
            Characteristics::IMAGE_FILE_LARGE_ADDRESS_AWARE => 5,
            Characteristics::IMAGE_FILE_BYTES_REVERSED_LO => 7,
            Characteristics::IMAGE_FILE_32BIT_MACHINE => 8,
            Characteristics::IMAGE_FILE_DEBUG_STRIPPED => 9,
            Characteristics::IMAGE_FILE_REMOVABLE_RUN_FROM_SWAP => 10,
            Characteristics::IMAGE_FILE_NET_RUN_FROM_SWAP => 11,
            Characteristics::IMAGE_FILE_SYSTEM => 12,
            Characteristics::IMAGE_FILE_DLL => 13,
            Characteristics::IMAGE_FILE_UP_SYSTEM_ONLY => 14,
            Characteristics::IMAGE_FILE_BYTES_REVERSED_HI => 15,
        }
    }

    /// The position of the flag in the order of declaration.
    pub open spec fn position(self) -> int {
        match self {
            Characteristics::IMAGE_FILE_RELOCS_STRIPPED => 0,
            Characteristics::IMAGE_FILE_EXECUTABLE_IMAGE => 1,
            Characteristics::IMAGE_FILE_LINE_NUMS_STRIPPED => 2,
            Characteristics::IMAGE_FILE_LOCAL_SYMS_STRIPPED => 3,
            Characteristics::IMAGE_FILE_AGGRESSIVE_WS_TRIM => 4,
            Characteristics::IMAGE_FILE_LARGE_ADDRESS_AWARE => 5,
            Characteristics::IMAGE_FILE_BYTES_REVERSED_LO => 6,
            Characteristics::IMAGE_FILE_32BIT_MACHINE => 7,
            Characteristics::IMAGE_FILE_DEBUG_STRIPPED => 8,
            Characteristics::IMAGE_FILE_REMOVABLE_RUN_FROM_SWAP => 9,
            Characteristics::IMAGE_FILE_NET_RUN_FROM_SWAP => 10,
            Characteristics::IMAGE_FILE_SYSTEM => 11,
            Characteristics::IMAGE_FILE_DLL => 12,
            Characteristics::IMAGE_FILE_UP_SYSTEM_ONLY => 13,
            Characteristics::IMAGE_FILE_BYTES_REVERSED_HI => 14,
        }
    }

    /// Every flag, in the order of declaration.
    fn table() -> (all: [Characteristics; 15])
        ensures
            all@ == Characteristics::all(),
    {
        let all = [
            Characteristics::IMAGE_FILE_RELOCS_STRIPPED,
            Characteristics::IMAGE_FILE_EXECUTABLE_IMAGE,
            Characteristics::IMAGE_FILE_LINE_NUMS_STRIPPED,
            Characteristics::IMAGE_FILE_LOCAL_SYMS_STRIPPED,
            Characteristics::IMAGE_FILE_AGGRESSIVE_WS_TRIM,
            Characteristics::IMAGE_FILE_LARGE_ADDRESS_AWARE,
            Characteristics::IMAGE_FILE_BYTES_REVERSED_LO,
            Characteristics::IMAGE_FILE_32BIT_MACHINE,
            Characteristics::IMAGE_FILE_DEBUG_STRIPPED,
            Characteristics::IMAGE_FILE_REMOVABLE_RUN_FROM_SWAP,
            Characteristics::IMAGE_FILE_NET_RUN_FROM_SWAP,
            Characteristics::IMAGE_FILE_SYSTEM,
            Characteristics::IMAGE_FILE_DLL,
            Characteristics::IMAGE_FILE_UP_SYSTEM_ONLY,
            Characteristics::IMAGE_FILE_BYTES_REVERSED_HI,
        ];
        assert(all@ =~= Characteristics::all());
        all
    }

    /// The flags that are set in `value`, in the order of declaration.
    pub fn get_characteristics(value: u16) -> (out: Vec<Characteristics>)
        ensures
            out@ == flags_of(value, Characteristics::all()),
    {
        let all = Characteristics::table();
        decode_flags(value, all.as_slice())
    }

    /// A flag is among the decoded ones exactly when its bit is set in the
    /// word.
    pub proof fn lemma_decoded_iff_set(value: u16, flag: Characteristics)
        ensures
            flags_of(value, Characteristics::all()).contains(flag) <==> is_set(value, flag),
    {
        Characteristics::lemma_all_complete(flag);
        lemma_flags_of_contains(value, Characteristics::all(), flag);
    }

    /// Every flag is in the list of all flags, once.
    pub proof fn lemma_all_complete(flag: Characteristics)
        ensures
            Characteristics::all().len() == 15,
            Characteristics::all()[flag.position()] == flag,
            Characteristics::all().no_duplicates(),
    {
        let all = Characteristics::all();
        assert forall|i: int, j: int| 0 <= i < all.len() && 0 <= j < all.len() && i != j implies all[i]
            != all[j] by {
            assert(all[i].position() == i);
            assert(all[j].position() == j);
        }
    }

    /// Each flag owns one bit, and no two flags own the same bit.
    pub proof fn lemma_independent()
        ensures
            independent::<Characteristics>(),
    {
        assert forall|a: Characteristics, b: Characteristics|
            (#[trigger] a.mask_of() & #[trigger] b.mask_of() != 0) <==> a == b by {
            let i = a.bit();
            let j = b.bit();
            lemma_single_bits();
            assert(a.mask_of() == 1u16 << i);
            assert(b.mask_of() == 1u16 << j);
            assert(((1u16 << i) & (1u16 << j) != 0) <==> i == j) by (bit_vector)
                requires
                    i < 16,
                    j < 16,
            ;
        }
    }

    /// Decoding the word composed from any choice of flags gives back exactly
    /// the chosen flags, in the order of declaration.
    pub proof fn lemma_decode_inverts_compose(chosen: Seq<Characteristics>)
        ensures
            flags_of(compose(chosen), Characteristics::all()) == Characteristics::all().filter(
                |flag: Characteristics| chosen.contains(flag),
            ),
    {
        Characteristics::lemma_independent();
        lemma_decode_inverts_compose(Characteristics::all(), chosen);
    }
}

impl From<Characteristics> for u16 {
    /// The flag's mask.
    fn from(flag: Characteristics) -> (m: u16) {
        match flag {
            Characteristics::IMAGE_FILE_RELOCS_STRIPPED => 0x0001,
            Characteristics::IMAGE_FILE_EXECUTABLE_IMAGE => 0x0002,
            Characteristics::IMAGE_FILE_LINE_NUMS_STRIPPED => 0x0004,
            Characteristics::IMAGE_FILE_LOCAL_SYMS_STRIPPED => 0x0008,
            Characteristics::IMAGE_FILE_AGGRESSIVE_WS_TRIM => 0x0010,
            Characteristics::IMAGE_FILE_LARGE_ADDRESS_AWARE => 0x0020,
            Characteristics::IMAGE_FILE_BYTES_REVERSED_LO => 0x0080,
            Characteristics::IMAGE_FILE_32BIT_MACHINE => 0x0100,
            Characteristics::IMAGE_FILE_DEBUG_STRIPPED => 0x0200,
            Characteristics::IMAGE_FILE_REMOVABLE_RUN_FROM_SWAP => 0x0400,
            Characteristics::IMAGE_FILE_NET_RUN_FROM_SWAP => 0x0800,
            Characteristics::IMAGE_FILE_SYSTEM => 0x1000,
            Characteristics::IMAGE_FILE_DLL => 0x2000,
            Characteristics::IMAGE_FILE_UP_SYSTEM_ONLY => 0x4000,
            Characteristics::IMAGE_FILE_BYTES_REVERSED_HI => 0x8000,
        }
    }
}

impl FromSpecImpl<Characteristics> for u16 {
    open spec fn obeys_from_spec() -> bool {
        true
    }

    open spec fn from_spec(flag: Characteristics) -> u16 {
        flag.mask_spec()
    }
}

impl BitFlag for Characteristics {
    open spec fn mask_of(self) -> u16 {
        self.mask_spec()
    }

    fn mask(self) -> (m: u16) {
        u16::from(self)
    }
}

/// A flag of the optional header's DLL characteristics word.
#[derive(Clone, Copy, Debug, Default, PartialEq, Eq, Structural)]
#[allow(non_camel_case_types)]
pub enum DLLCharacteristics {
    /// The image can handle a high-entropy 64-bit virtual address space.
    #[default]
    IMAGE_DLLCHARACTERISTICS_HIGH_ENTROPY_VA,
    /// The DLL can be relocated at load time.
    IMAGE_DLLCHARACTERISTICS_DYNAMIC_BASE,
    /// Code integrity checks are enforced.
    IMAGE_DLLCHARACTERISTICS_FORCE_INTEGRITY,
    /// The image is compatible with data execution prevention.
    IMAGE_DLLCHARACTERISTICS_NX_COMPAT,
    /// The image is isolation aware but must not be isolated.
    IMAGE_DLLCHARACTERISTICS_NO_ISOLATION,
    /// The image uses no structured exception handling.
    IMAGE_DLLCHARACTERISTICS_NO_SEH,
    /// The image must not be bound.
    IMAGE_DLLCHARACTERISTICS_NO_BIND,
    /// The image must run in an AppContainer.
    IMAGE_DLLCHARACTERISTICS_APPCONTAINER,
    /// The image is a WDM driver.
    IMAGE_DLLCHARACTERISTICS_WDM_DRIVER,
    /// The image supports control flow guard.
    IMAGE_DLLCHARACTERISTICS_GUARD_CF,
    /// The image is terminal server aware.
    IMAGE_DLLCHARACTERISTICS_TERMINAL_SERVER_AWARE,
}

impl DLLCharacteristics {
    /// Every flag, in the order of declaration.
    pub open spec fn all() -> Seq<DLLCharacteristics> {
        seq![
            DLLCharacteristics::IMAGE_DLLCHARACTERISTICS_HIGH_ENTROPY_VA,
            DLLCharacteristics::IMAGE_DLLCHARACTERISTICS_DYNAMIC_BASE,
            DLLCharacteristics::IMAGE_DLLCHARACTERISTICS_FORCE_INTEGRITY,
            DLLCharacteristics::IMAGE_DLLCHARACTERISTICS_NX_COMPAT,
            DLLCharacteristics::IMAGE_DLLCHARACTERISTICS_NO_ISOLATION,
            DLLCharacteristics::IMAGE_DLLCHARACTERISTICS_NO_SEH,
            DLLCharacteristics::IMAGE_DLLCHARACTERISTICS_NO_BIND,
            DLLCharacteristics::IMAGE_DLLCHARACTERISTICS_APPCONTAINER,
            DLLCharacteristics::IMAGE_DLLCHARACTERISTICS_WDM_DRIVER,
            DLLCharacteristics::IMAGE_DLLCHARACTERISTICS_GUARD_CF,
            DLLCharacteristics::IMAGE_DLLCHARACTERISTICS_TERMINAL_SERVER_AWARE,
        ]
    }

    /// The flag's mask.
    pub open spec fn mask_spec(self) -> u16 {
        match self {
            DLLCharacteristics::IMAGE_DLLCHARACTERISTICS_HIGH_ENTROPY_VA => 0x0020,
            DLLCharacteristics::IMAGE_DLLCHARACTERISTICS_DYNAMIC_BASE => 0x0040,
            DLLCharacteristics::IMAGE_DLLCHARACTERISTICS_FORCE_INTEGRITY => 0x0080,
            DLLCharacteristics::IMAGE_DLLCHARACTERISTICS_NX_COMPAT => 0x0100,
            DLLCharacteristics::IMAGE_DLLCHARACTERISTICS_NO_ISOLATION => 0x0200,
            DLLCharacteristics::IMAGE_DLLCHARACTERISTICS_NO_SEH => 0x0400,
            DLLCharacteristics::IMAGE_DLLCHARACTERISTICS_NO_BIND => 0x0800,
            DLLCharacteristics::IMAGE_DLLCHARACTERISTICS_APPCONTAINER => 0x1000,
            DLLCharacteristics::IMAGE_DLLCHARACTERISTICS_WDM_DRIVER => 0x2000,
            DLLCharacteristics::IMAGE_DLLCHARACTERISTICS_GUARD_CF => 0x4000,
            DLLCharacteristics::IMAGE_DLLCHARACTERISTICS_TERMINAL_SERVER_AWARE => 0x8000,
        }
    }

    /// The number of the flag's bit in the word, counted from the lowest. The
    /// five lowest bits are reserved and belong to no flag.
    pub open spec fn bit(self) -> u16 {
        match self {
            DLLCharacteristics::IMAGE_DLLCHARACTERISTICS_HIGH_ENTROPY_VA => 5,
            DLLCharacteristics::IMAGE_DLLCHARACTERISTICS_DYNAMIC_BASE => 6,
            DLLCharacteristics::IMAGE_DLLCHARACTERISTICS_FORCE_INTEGRITY => 7,
            DLLCharacteristics::IMAGE_DLLCHARACTERISTICS_NX_COMPAT => 8,
            DLLCharacteristics::IMAGE_DLLCHARACTERISTICS_NO_ISOLATION => 9,
            DLLCharacteristics::IMAGE_DLLCHARACTERISTICS_NO_SEH => 10,
            DLLCharacteristics::IMAGE_DLLCHARACTERISTICS_NO_BIND => 11,
            DLLCharacteristics::IMAGE_DLLCHARACTERISTICS_APPCONTAINER => 12,
            DLLCharacteristics::IMAGE_DLLCHARACTERISTICS_WDM_DRIVER => 13,
            DLLCharacteristics::IMAGE_DLLCHARACTERISTICS_GUARD_CF => 14,
            DLLCharacteristics::IMAGE_DLLCHARACTERISTICS_TERMINAL_SERVER_AWARE => 15,
        }
    }

    /// The position of the flag in the order of declaration.
    pub open spec fn position(self) -> int {
        match self {
            DLLCharacteristics::IMAGE_DLLCHARACTERISTICS_HIGH_ENTROPY_VA => 0,
            DLLCharacteristics::IMAGE_DLLCHARACTERISTICS_DYNAMIC_BASE => 1,
            DLLCharacteristics::IMAGE_DLLCHARACTERISTICS_FORCE_INTEGRITY => 2,
            DLLCharacteristics::IMAGE_DLLCHARACTERISTICS_NX_COMPAT => 3,
            DLLCharacteristics::IMAGE_DLLCHARACTERISTICS_NO_ISOLATION => 4,
            DLLCharacteristics::IMAGE_DLLCHARACTERISTICS_NO_SEH => 5,
            DLLCharacteristics::IMAGE_DLLCHARACTERISTICS_NO_BIND => 6,
            DLLCharacteristics::IMAGE_DLLCHARACTERISTICS_APPCONTAINER => 7,
            DLLCharacteristics::IMAGE_DLLCHARACTERISTICS_WDM_DRIVER => 8,
            DLLCharacteristics::IMAGE_DLLCHARACTERISTICS_GUARD_CF => 9,
            DLLCharacteristics::IMAGE_DLLCHARACTERISTICS_TERMINAL_SERVER_AWARE => 10,
        }
    }

    /// Every flag, in the order of declaration.
    fn table() -> (all: [DLLCharacteristics; 11])
        ensures
            all@ == DLLCharacteristics::all(),
    {
        let all = [
            DLLCharacteristics::IMAGE_DLLCHARACTERISTICS_HIGH_ENTROPY_VA,
            DLLCharacteristics::IMAGE_DLLCHARACTERISTICS_DYNAMIC_BASE,
            DLLCharacteristics::IMAGE_DLLCHARACTERISTICS_FORCE_INTEGRITY,
            DLLCharacteristics::IMAGE_DLLCHARACTERISTICS_NX_COMPAT,
            DLLCharacteristics::IMAGE_DLLCHARACTERISTICS_NO_ISOLATION,
            DLLCharacteristics::IMAGE_DLLCHARACTERISTICS_NO_SEH,
            DLLCharacteristics::IMAGE_DLLCHARACTERISTICS_NO_BIND,
            DLLCharacteristics::IMAGE_DLLCHARACTERISTICS_APPCONTAINER,
            DLLCharacteristics::IMAGE_DLLCHARACTERISTICS_WDM_DRIVER,
            DLLCharacteristics::IMAGE_DLLCHARACTERISTICS_GUARD_CF,
            DLLCharacteristics::IMAGE_DLLCHARACTERISTICS_TERMINAL_SERVER_AWARE,
        ];
        assert(all@ =~= DLLCharacteristics::all());
        all
    }

    /// The flags that are set in `value`, in the order of declaration.
    pub fn from_u16(value: u16) -> (out: Vec<DLLCharacteristics>)
        ensures
            out@ == flags_of(value, DLLCharacteristics::all()),
    {
        let all = DLLCharacteristics::table();
        decode_flags(value, all.as_slice())
    }

    /// A flag is among the decoded ones exactly when its bit is set in the
    /// word.
    pub proof fn lemma_decoded_iff_set(value: u16, flag: DLLCharacteristics)
        ensures
            flags_of(value, DLLCharacteristics::all()).contains(flag) <==> is_set(value, flag),
    {
        DLLCharacteristics::lemma_all_complete(flag);
        lemma_flags_of_contains(value, DLLCharacteristics::all(), flag);
    }

    /// Every flag is in the list of all flags, once.
    pub proof fn lemma_all_complete(flag: DLLCharacteristics)
        ensures
            DLLCharacteristics::all().len() == 11,
            DLLCharacteristics::all()[flag.position()] == flag,
            DLLCharacteristics::all().no_duplicates(),
    {
        let all = DLLCharacteristics::all();
        assert forall|i: int, j: int| 0 <= i < all.len() && 0 <= j < all.len() && i != j implies all[i]
            != all[j] by {
            assert(all[i].position() == i);
            assert(all[j].position() == j);
        }
    }

    /// Each flag owns one bit, and no two flags own the same bit.
    pub proof fn lemma_independent()
        ensures
            independent::<DLLCharacteristics>(),
    {
        assert forall|a: DLLCharacteristics, b: DLLCharacteristics|
            (#[trigger] a.mask_of() & #[trigger] b.mask_of() != 0) <==> a == b by {
            let i = a.bit();
            let j = b.bit();
            lemma_single_bits();
            assert(a.mask_of() == 1u16 << i);
            assert(b.mask_of() == 1u16 << j);
            assert(((1u16 << i) & (1u16 << j) != 0) <==> i == j) by (bit_vector)
                requires
                    i < 16,
                    j < 16,
            ;
        }
    }

    /// Decoding the word composed from any choice of flags gives back exactly
    /// the chosen flags, in the order of declaration.
    pub proof fn lemma_decode_inverts_compose(chosen: Seq<DLLCharacteristics>)
        ensures
            flags_of(compose(chosen), DLLCharacteristics::all()) == DLLCharacteristics::all().filter(
                |flag: DLLCharacteristics| chosen.contains(flag),
            ),
    {
        DLLCharacteristics::lemma_independent();
        lemma_decode_inverts_compose(DLLCharacteristics::all(), chosen);
    }
}

impl From<DLLCharacteristics> for u16 {
    /// The flag's mask.
    fn from(flag: DLLCharacteristics) -> (m: u16) {
        match flag {
            DLLCharacteristics::IMAGE_DLLCHARACTERISTICS_HIGH_ENTROPY_VA => 0x0020,
            DLLCharacteristics::IMAGE_DLLCHARACTERISTICS_DYNAMIC_BASE => 0x0040,
            DLLCharacteristics::IMAGE_DLLCHARACTERISTICS_FORCE_INTEGRITY => 0x0080,
            DLLCharacteristics::IMAGE_DLLCHARACTERISTICS_NX_COMPAT => 0x0100,
            DLLCharacteristics::IMAGE_DLLCHARACTERISTICS_NO_ISOLATION => 0x0200,
            DLLCharacteristics::IMAGE_DLLCHARACTERISTICS_NO_SEH => 0x0400,
            DLLCharacteristics::IMAGE_DLLCHARACTERISTICS_NO_BIND => 0x0800,
            DLLCharacteristics::IMAGE_DLLCHARACTERISTICS_APPCONTAINER => 0x1000,
            DLLCharacteristics::IMAGE_DLLCHARACTERISTICS_WDM_DRIVER => 0x2000,
            DLLCharacteristics::IMAGE_DLLCHARACTERISTICS_GUARD_CF => 0x4000,
            DLLCharacteristics::IMAGE_DLLCHARACTERISTICS_TERMINAL_SERVER_AWARE => 0x8000,
        }
    }
}

impl FromSpecImpl<DLLCharacteristics> for u16 {
    open spec fn obeys_from_spec() -> bool {
        true
    }

    open spec fn from_spec(flag: DLLCharacteristics) -> u16 {
        flag.mask_spec()
    }
}

impl BitFlag for DLLCharacteristics {
    open spec fn mask_of(self) -> u16 {
        self.mask_spec()
    }

    fn mask(self) -> (m: u16) {
        u16::from(self)
    }
}

/// The sixteen one-bit words.
proof fn lemma_single_bits()
    ensures
        1u16 << 0u16 == 0x0001,
        1u16 << 1u16 == 0x0002,
        1u16 << 2u16 == 0x0004,
        1u16 << 3u16 == 0x0008,
        1u16 << 4u16 == 0x0010,
        1u16 << 5u16 == 0x0020,
        1u16 << 6u16 == 0x0040,
        1u16 << 7u16 == 0x0080,
        1u16 << 8u16 == 0x0100,
        1u16 << 9u16 == 0x0200,
        1u16 << 10u16 == 0x0400,
        1u16 << 11u16 == 0x0800,
        1u16 << 12u16 == 0x1000,
        1u16 << 13u16 == 0x2000,
        1u16 << 14u16 == 0x4000,
        1u16 << 15u16 == 0x8000,
{
    assert(1u16 << 0u16 == 0x0001 && 1u16 << 1u16 == 0x0002 && 1u16 << 2u16 == 0x0004 && 1u16
        << 3u16 == 0x0008 && 1u16 << 4u16 == 0x0010 && 1u16 << 5u16 == 0x0020 && 1u16 << 6u16
        == 0x0040 && 1u16 << 7u16 == 0x0080 && 1u16 << 8u16 == 0x0100 && 1u16 << 9u16 == 0x0200
        && 1u16 << 10u16 == 0x0400 && 1u16 << 11u16 == 0x0800 && 1u16 << 12u16 == 0x1000 && 1u16
        << 13u16 == 0x2000 && 1u16 << 14u16 == 0x4000 && 1u16 << 15u16 == 0x8000) by (bit_vector);
}

} // verus!
