//! The section table: one row of forty bytes for each section.

use crate::error::{rest_after, view_result, ParseError};
use crate::nt::PEHeader;
use crate::reader::{
    get_le_u16, get_le_u32, get_utf8_null_terminated_string, lemma_skip_skip,
    read_utf8_null_terminated, u16_at, u32_at,
};
use vstd::prelude::*;

verus! {

broadcast use lemma_skip_skip;

/// One row of the section table.
#[derive(Debug, Default)]
pub struct SectionEntry {
    /// The name: the text of the eight-byte field up to its first zero byte.
    pub name: String,
    pub virtual_size: u32,
    pub virtual_address: u32,
    pub size_of_raw_data: u32,
    pub pointer_to_raw_data: u32,
    pub pointer_to_relocations: u32,
    pub pointer_to_linenumbers: u32,
    pub number_of_relocations: u16,
    pub number_of_linenumbers: u16,
    /// The characteristics word, as it stands in the image.
    pub characteristics: u32,
}

/// The model of a `SectionEntry`.
pub struct SectionEntryView {
    pub name: Seq<char>,
    pub virtual_size: u32,
    pub virtual_address: u32,
    pub size_of_raw_data: u32,
    pub pointer_to_raw_data: u32,
    pub pointer_to_relocations: u32,
    pub pointer_to_linenumbers: u32,
    pub number_of_relocations: u16,
    pub number_of_linenumbers: u16,
    pub characteristics: u32,
}

impl View for SectionEntry {
    type V = SectionEntryView;

    open spec fn view(&self) -> SectionEntryView {
        SectionEntryView {
            name: self.name@,
            virtual_size: self.virtual_size,
            virtual_address: self.virtual_address,
            size_of_raw_data: self.size_of_raw_data,
            pointer_to_raw_data: self.pointer_to_raw_data,
            pointer_to_relocations: self.pointer_to_relocations,
            pointer_to_linenumbers: self.pointer_to_linenumbers,
            number_of_relocations: self.number_of_relocations,
            number_of_linenumbers: self.number_of_linenumbers,
            characteristics: self.characteristics,
        }
    }
}

/// The models of the rows of a table.
pub open spec fn entry_views(rows: Seq<SectionEntry>) -> Seq<SectionEntryView> {
    rows.map_values(|row: SectionEntry| row@)
}

/// The outcome of reading a table with its rows replaced by their models.
pub open spec fn table_result(r: Result<Vec<SectionEntry>, ParseError>) -> Result<
    Seq<SectionEntryView>,
    ParseError,
> {
    match r {
        Ok(rows) => Ok(entry_views(rows@)),
        Err(e) => Err(e),
    }
}

/// The row that `s` begins with. The name is judged as soon as its eight
/// bytes are there, before the rest is asked for.
pub open spec fn section_entry(s: Seq<u8>) -> Result<SectionEntryView, ParseError> {
    match read_utf8_null_terminated(s, 8) {
        Err(e) => Err(e),
        Ok(name) => if s.len() < 40 {
            Err(ParseError::Incomplete)
        } else {
            Ok(
                SectionEntryView {
                    name,
                    virtual_size: u32_at(s, 8),
                    virtual_address: u32_at(s, 12),
                    size_of_raw_data: u32_at(s, 16),
                    pointer_to_raw_data: u32_at(s, 20),
                    pointer_to_relocations: u32_at(s, 24),
                    pointer_to_linenumbers: u32_at(s, 28),
                    number_of_relocations: u16_at(s, 32),
                    number_of_linenumbers: u16_at(s, 34),
                    characteristics: u32_at(s, 36),
                },
            )
        },
    }
}

/// The table of `count` rows that `s` begins with: its rows in order, or the
/// failure of the first row that cannot be read.
pub open spec fn section_table(s: Seq<u8>, count: nat) -> Result<Seq<SectionEntryView>, ParseError>
    decreases count,
{
    if count == 0 {
        Ok(Seq::empty())
    } else {
        match section_table(s, (count - 1) as nat) {
            Err(e) => Err(e),
            Ok(rows) => match section_entry(s.skip(40 * (count - 1))) {
                Err(e) => Err(e),
                Ok(row) => Ok(rows.push(row)),
            },
        }
    }
}

/// A table that cannot be read up to some row cannot be read beyond it, and
/// fails the same way.
pub proof fn lemma_section_table_failure(s: Seq<u8>, failed: nat, count: nat)
    requires
        section_table(s, failed) is Err,
        failed <= count,
    ensures
        section_table(s, count) == section_table(s, failed),
    decreases count,
{
    if failed < count {
        lemma_section_table_failure(s, failed, (count - 1) as nat);
    }
}

/// A table that is read has as many rows as were asked for, and they lie in
/// the buffer.
pub proof fn lemma_section_table_len(s: Seq<u8>, count: nat)
    ensures
        section_table(s, count) matches Ok(rows) ==> rows.len() == count && 40 * count <= s.len(),
    decreases count,
{
    if count > 0 {
        lemma_section_table_len(s, (count - 1) as nat);
    }
}

/// Reads one row of the table.
pub fn parse_section_entry<'s>(input: &mut &'s [u8]) -> (r: Result<SectionEntry, ParseError>)
    ensures
        view_result(r) == section_entry(old(input)@),
        final(input)@ == rest_after(old(input)@, r, 40),
{
    let mut cursor: &[u8] = *input;
    let name = get_utf8_null_terminated_string(&mut cursor, 8)?;
    let virtual_size = get_le_u32(&mut cursor)?;
    let virtual_address = get_le_u32(&mut cursor)?;
    let size_of_raw_data = get_le_u32(&mut cursor)?;
    let pointer_to_raw_data = get_le_u32(&mut cursor)?;
    let pointer_to_relocations = get_le_u32(&mut cursor)?;
    let pointer_to_linenumbers = get_le_u32(&mut cursor)?;
    let number_of_relocations = get_le_u16(&mut cursor)?;
    let number_of_linenumbers = get_le_u16(&mut cursor)?;
    let characteristics = get_le_u32(&mut cursor)?;
    *input = cursor;
    Ok(
        SectionEntry {
            name,
            virtual_size,
            virtual_address,
            size_of_raw_data,
            pointer_to_raw_data,
            pointer_to_relocations,
            pointer_to_linenumbers,
            number_of_relocations,
            number_of_linenumbers,
            characteristics,
        },
    )
}

/// Reads the section table at the cursor: as many rows as the file header
/// counts. Leaves the cursor behind the table.
pub fn parse_sections_table<'s>(input: &mut &'s [u8], pe_header: &PEHeader) -> (r: Result<
    Vec<SectionEntry>,
    ParseError,
>)
    ensures
        table_result(r) == section_table(
            old(input)@,
            pe_header.nt_headers.file_header.number_of_sections as nat,
        ),
        final(input)@ == rest_after(
            old(input)@,
            r,
            40 * pe_header.nt_headers.file_header.number_of_sections,
        ),
{
    let count = pe_header.nt_headers.file_header.number_of_sections;
    let ghost s = old(input)@;
    let mut cursor: &[u8] = *input;
    let mut sections: Vec<SectionEntry> = Vec::new();
    let mut index: u16 = 0;
    proof {
        assert(s.skip(0) =~= s);
        assert(entry_views(sections@) =~= Seq::<SectionEntryView>::empty());
    }
    while index < count
        invariant
            s == old(input)@,
            count == pe_header.nt_headers.file_header.number_of_sections,
            index <= count,
            40 * index <= s.len(),
            cursor@ == s.skip(40 * index),
            section_table(s, index as nat) == Ok::<Seq<SectionEntryView>, ParseError>(
                entry_views(sections@),
            ),
        decreases count - index,
    {
        let section = match parse_section_entry(&mut cursor) {
            Ok(section) => section,
            Err(e) => {
                proof {
                    assert(section_table(s, (index + 1) as nat) == Err::<
                        Seq<SectionEntryView>,
                        ParseError,
                    >(e));
                    lemma_section_table_failure(s, (index + 1) as nat, count as nat);
                }
                return Err(e);
            },
        };
        proof {
            assert(entry_views(sections@.push(section)) =~= entry_views(sections@).push(section@));
        }
        sections.push(section);
        index += 1;
    }
    *input = cursor;
    Ok(sections)
}

} // verus!
