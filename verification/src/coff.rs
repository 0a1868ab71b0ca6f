//! The COFF file header: the twenty bytes that follow the signature.

use crate::characteristics::Characteristics;
use crate::error::{rest_after, view_result, ParseError};
use crate::flags::flags_of;
use crate::machine::MachineType;
use crate::reader::{get_le_u16, get_le_u32, lemma_skip_skip, u16_at, u32_at};
use vstd::prelude::*;

verus! {

broadcast use lemma_skip_skip;

/// The characteristics word of the file header and the flags it holds.
#[derive(Debug, Default)]
pub struct CharacteristicsBlock {
    pub characteristics: Vec<Characteristics>,
    pub value: u16,
}

/// The model of a `CharacteristicsBlock`.
pub struct CharacteristicsBlockView {
    pub characteristics: Seq<Characteristics>,
    pub value: u16,
}

impl View for CharacteristicsBlock {
    type V = CharacteristicsBlockView;

    open spec fn view(&self) -> CharacteristicsBlockView {
        CharacteristicsBlockView { characteristics: self.characteristics@, value: self.value }
    }
}

/// The COFF file header.
#[derive(Debug, Default)]
pub struct FileHeader {
    pub machine: MachineType,
    pub number_of_sections: u16,
    pub time_date_stamp: u32,
    pub pointer_to_symbol_table: u32,
    pub number_of_symbols: u32,
    pub size_of_optional_header: u16,
    pub characteristics: CharacteristicsBlock,
}

/// The model of a `FileHeader`.
pub struct FileHeaderView {
    pub machine: MachineType,
    pub number_of_sections: u16,
    pub time_date_stamp: u32,
    pub pointer_to_symbol_table: u32,
    pub number_of_symbols: u32,
    pub size_of_optional_header: u16,
    pub characteristics: CharacteristicsBlockView,
}

impl View for FileHeader {
    type V = FileHeaderView;

    open spec fn view(&self) -> FileHeaderView {
        FileHeaderView {
            machine: self.machine,
            number_of_sections: self.number_of_sections,
            time_date_stamp: self.time_date_stamp,
            pointer_to_symbol_table: self.pointer_to_symbol_table,
            number_of_symbols: self.number_of_symbols,
            size_of_optional_header: self.size_of_optional_header,
            characteristics: self.characteristics@,
        }
    }
}

impl CharacteristicsBlockView {
    /// True when the flags are those of the word.
    pub open spec fn wf(self) -> bool {
        self.characteristics == flags_of(self.value, Characteristics::all())
    }
}

impl FileHeaderView {
    /// True when the characteristics are those of their word.
    pub open spec fn wf(self) -> bool {
        self.characteristics.wf()
    }
}

/// The characteristics block that a word decodes to.
pub open spec fn characteristics_block(value: u16) -> CharacteristicsBlockView {
    CharacteristicsBlockView { characteristics: flags_of(value, Characteristics::all()), value }
}

/// The file header that the bytes of `s` hold, from their start. The machine
/// is judged as soon as its two bytes are there, before the rest is asked for.
pub open spec fn file_header(s: Seq<u8>) -> Result<FileHeaderView, ParseError> {
    if s.len() < 2 {
        Err(ParseError::Incomplete)
    } else {
        match MachineType::from_code(u16_at(s, 0)) {
            None => Err(ParseError::UnsupportedValue),
            Some(machine) => if s.len() < 20 {
                Err(ParseError::Incomplete)
            } else {
                Ok(
                    FileHeaderView {
                        machine,
                        number_of_sections: u16_at(s, 2),
                        time_date_stamp: u32_at(s, 4),
                        pointer_to_symbol_table: u32_at(s, 8),
                        number_of_symbols: u32_at(s, 12),
                        size_of_optional_header: u16_at(s, 16),
                        characteristics: characteristics_block(u16_at(s, 18)),
                    },
                )
            },
        }
    }
}

/// Reads the file header at the cursor.
pub fn parse_file_header<'s>(input: &mut &'s [u8]) -> (r: Result<FileHeader, ParseError>)
    ensures
        view_result(r) == file_header(old(input)@),
        final(input)@ == rest_after(old(input)@, r, 20),
        r matches Ok(header) ==> header@.wf(),
{
    let mut cursor: &[u8] = *input;
    let machine = match MachineType::try_from(get_le_u16(&mut cursor)?) {
        Ok(machine) => machine,
        Err(_) => return Err(ParseError::UnsupportedValue),
    };
    let number_of_sections = get_le_u16(&mut cursor)?;
    let time_date_stamp = get_le_u32(&mut cursor)?;
    let pointer_to_symbol_table = get_le_u32(&mut cursor)?;
    let number_of_symbols = get_le_u32(&mut cursor)?;
    let size_of_optional_header = get_le_u16(&mut cursor)?;
    let value = get_le_u16(&mut cursor)?;
    let characteristics = CharacteristicsBlock {
        characteristics: Characteristics::get_characteristics(value),
        value,
    };
    *input = cursor;
    Ok(
        FileHeader {
            machine,
            number_of_sections,
            time_date_stamp,
            pointer_to_symbol_table,
            number_of_symbols,
            size_of_optional_header,
            characteristics,
        },
    )
}

} // verus!
