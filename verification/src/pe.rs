//! An image as a whole: its headers, its section table and its `.text`
//! section.

use crate::dos::has_dos_magic;
use crate::error::ParseError;
use crate::nt::{parse_pe_header, pe_header, pe_header_len, PEHeader, PEHeaderView};
use crate::reader::lemma_skip_skip;
use crate::section::{
    entry_views, lemma_section_table_len, parse_sections_table, section_table, SectionEntry,
    SectionEntryView,
};
use crate::text::{
    decoder_options_of, is_disassembly, is_section_of, lemma_disassembly_unique, lemma_first_text,
    locate_text, parse_text_section, raw_data, SectionData, SectionDataView,
};
use vstd::prelude::*;

verus! {

broadcast use lemma_skip_skip;

/// A decoded image.
#[derive(Debug)]
pub struct PEFile {
    pub headers: PEHeader,
    pub section_table: Vec<SectionEntry>,
    pub text_section: SectionData,
}

/// The model of a `PEFile`.
pub struct PEFileView {
    pub headers: PEHeaderView,
    pub section_table: Seq<SectionEntryView>,
    pub text_section: SectionDataView,
}

impl View for PEFile {
    type V = PEFileView;

    open spec fn view(&self) -> PEFileView {
        PEFileView {
            headers: self.headers@,
            section_table: entry_views(self.section_table@),
            text_section: self.text_section@,
        }
    }
}

impl PEFileView {
    /// True of a decoded image: its headers are well formed, it has as many
    /// rows as the file header counts, and its text section is a section
    /// named `.text` that is not empty, with the instructions of its bytes as
    /// the file header's machine decodes them.
    pub open spec fn wf(self) -> bool {
        let machine = self.headers.nt_headers.file_header.machine;
        &&& self.headers.wf()
        &&& self.section_table.len() == self.headers.nt_headers.file_header.number_of_sections
        &&& self.text_section.name == ".text"@
        &&& self.text_section.bytes.len() > 0
        &&& is_disassembly(
            self.text_section.data,
            machine.bitness_of(),
            decoder_options_of(machine),
            self.text_section.bytes,
        )
    }
}

/// The headers and the section table that `s` begins with: the first pass
/// over a buffer.
pub open spec fn headers_and_sections(s: Seq<u8>) -> Result<
    (PEHeaderView, Seq<SectionEntryView>),
    ParseError,
> {
    match pe_header(s) {
        Err(e) => Err(e),
        Ok(headers) => match section_table(
            s.skip(pe_header_len(s)),
            headers.nt_headers.file_header.number_of_sections as nat,
        ) {
            Err(e) => Err(e),
            Ok(rows) => Ok((headers, rows)),
        },
    }
}

/// True when `r` is what the buffer `s` comes to. The first failure of the
/// headers, of the section table or of locating `.text` is the result. Where
/// none fails, the result is the image with those headers and rows and with
/// the `.text` section decoded for the file header's machine; or, where the
/// decoder could not be made, `UnsupportedValue`.
pub open spec fn is_pe_outcome(r: Result<PEFile, ParseError>, s: Seq<u8>) -> bool {
    match headers_and_sections(s) {
        Err(e) => r == Err::<PEFile, ParseError>(e),
        Ok((headers, rows)) => match locate_text(rows, s.len()) {
            Err(e) => r == Err::<PEFile, ParseError>(e),
            Ok(i) => match r {
                Ok(file) => {
                    &&& file@.headers == headers
                    &&& file@.section_table == rows
                    &&& is_section_of(
                        file@.text_section,
                        rows[i],
                        s,
                        headers.nt_headers.file_header.machine,
                    )
                },
                Err(e) => e == ParseError::UnsupportedValue,
            },
        },
    }
}

/// A buffer of fewer than sixty-four bytes is incomplete.
pub proof fn lemma_short_buffer_is_incomplete(s: Seq<u8>)
    requires
        s.len() < 64,
    ensures
        headers_and_sections(s) == Err::<(PEHeaderView, Seq<SectionEntryView>), ParseError>(
            ParseError::Incomplete,
        ),
        forall|r: Result<PEFile, ParseError>| #[trigger]
            is_pe_outcome(r, s) ==> r == Err::<PEFile, ParseError>(ParseError::Incomplete),
{
}

/// A buffer that holds a DOS header's sixty-four bytes and does not begin
/// with `MZ` violates the format.
pub proof fn lemma_wrong_magic_is_format_violation(s: Seq<u8>)
    requires
        s.len() >= 64,
        !has_dos_magic(s),
    ensures
        headers_and_sections(s) == Err::<(PEHeaderView, Seq<SectionEntryView>), ParseError>(
            ParseError::FormatViolation,
        ),
        forall|r: Result<PEFile, ParseError>| #[trigger]
            is_pe_outcome(r, s) ==> r == Err::<PEFile, ParseError>(ParseError::FormatViolation),
{
}

/// Decoding is a function of the buffer: two images that both are what the
/// same buffer comes to are the same image.
pub proof fn lemma_pe_outcome_unique(
    first: Result<PEFile, ParseError>,
    second: Result<PEFile, ParseError>,
    s: Seq<u8>,
)
    requires
        is_pe_outcome(first, s),
        is_pe_outcome(second, s),
    ensures
        first matches Ok(a) ==> (second matches Ok(b) ==> a@ == b@),
{
    if let Ok((headers, rows)) = headers_and_sections(s) {
        if let Ok(i) = locate_text(rows, s.len()) {
            if let Ok(a) = first {
                if let Ok(b) = second {
                    let machine = headers.nt_headers.file_header.machine;
                    lemma_disassembly_unique(
                        a@.text_section.data,
                        b@.text_section.data,
                        machine.bitness_of(),
                        decoder_options_of(machine),
                        raw_data(rows[i], s),
                    );
                }
            }
        }
    }
}

/// Tells whether the buffer begins with the two bytes `MZ`.
pub fn is_pe_executable(data: &Vec<u8>) -> (r: bool)
    ensures
        r == has_dos_magic(data@),
{
    if data.len() < 2 {
        return false;
    }
    data[0] == 0x4d && data[1] == 0x5a
}

/// Decodes the image at the cursor in two passes: the headers and the section
/// table in order from the start, then the `.text` section by its offset
/// from the start. The cursor stays at the start.
pub fn parse_pe_file<'s>(input: &mut &'s [u8]) -> (r: Result<PEFile, ParseError>)
    ensures
        final(input)@ == old(input)@,
        is_pe_outcome(r, old(input)@),
        r matches Ok(file) ==> file@.wf(),
{
    let mut cursor: &[u8] = *input;
    let headers = parse_pe_header(&mut cursor)?;
    let section_table = parse_sections_table(&mut cursor, &headers)?;
    let mut start: &[u8] = *input;
    let text_section = parse_text_section(
        &mut start,
        &section_table,
        &headers.nt_headers.file_header,
    )?;
    proof {
        let rows = entry_views(section_table@);
        lemma_section_table_len(
            old(input)@.skip(pe_header_len(old(input)@)),
            headers.nt_headers.file_header.number_of_sections as nat,
        );
        lemma_first_text(rows, rows.len() as int);
    }
    Ok(PEFile { headers, section_table, text_section })
}

/// Decodes an image from a buffer.
pub fn parse_pe(bytes: Vec<u8>) -> (r: Result<PEFile, ParseError>)
    ensures
        is_pe_outcome(r, bytes@),
        r matches Ok(file) ==> file@.wf(),
        bytes@.len() < 64 ==> r == Err::<PEFile, ParseError>(ParseError::Incomplete),
        bytes@.len() >= 64 && !has_dos_magic(bytes@) ==> r == Err::<PEFile, ParseError>(
            ParseError::FormatViolation,
        ),
{
    let mut input: &[u8] = bytes.as_slice();
    parse_pe_file(&mut input)
}

} // verus!
