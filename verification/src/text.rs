//! The `.text` section: where it lies in the buffer, and its instructions.

use crate::coff::FileHeader;
use crate::disasm::{
    decoded_instruction, decoder_can_decode, decoder_decode, decoder_options_amd,
    decoder_options_none, decoder_state, decoder_try_new, initial_state, instruction_len,
    instruction_length, DecoderState, OPTIONS_AMD, OPTIONS_NONE,
};
use crate::error::ParseError;
use crate::machine::MachineType;
use crate::reader::copy_range;
use crate::section::{entry_views, SectionEntry, SectionEntryView};
use iced_x86::{Decoder, IcedError, Instruction};
use vstd::prelude::*;
use vstd::slice::slice_subrange;

verus! {

/// One decoded instruction of a section.
#[derive(Debug)]
pub struct InstructionData {
    /// The decoded form.
    pub instr: Instruction,
    /// The offset of the instruction's first byte in the section.
    pub offset: usize,
    /// The number of bytes that encode the instruction.
    pub size: usize,
    /// The bytes that encode the instruction.
    pub bytes: Vec<u8>,
}

/// The model of an `InstructionData`.
pub struct InstructionDataView {
    pub instr: Instruction,
    pub offset: nat,
    pub size: nat,
    pub bytes: Seq<u8>,
}

impl View for InstructionData {
    type V = InstructionDataView;

    open spec fn view(&self) -> InstructionDataView {
        InstructionDataView {
            instr: self.instr,
            offset: self.offset as nat,
            size: self.size as nat,
            bytes: self.bytes@,
        }
    }
}

/// A section with its instructions decoded.
#[derive(Debug, Default)]
pub struct SectionData {
    pub name: String,
    /// The instructions, in the order of their offsets.
    pub data: Vec<InstructionData>,
    /// The raw data of the section.
    pub bytes: Vec<u8>,
}

/// The model of a `SectionData`.
pub struct SectionDataView {
    pub name: Seq<char>,
    pub data: Seq<InstructionDataView>,
    pub bytes: Seq<u8>,
}

/// The models of a run of instructions.
pub open spec fn instruction_views(records: Seq<InstructionData>) -> Seq<InstructionDataView> {
    records.map_values(|record: InstructionData| record@)
}

impl View for SectionData {
    type V = SectionDataView;

    open spec fn view(&self) -> SectionDataView {
        SectionDataView {
            name: self.name@,
            data: instruction_views(self.data@),
            bytes: self.bytes@,
        }
    }
}

/// The decoder options for a machine: the AMD ones for x64, none otherwise.
pub open spec fn decoder_options_of(machine: MachineType) -> u32 {
    if machine == MachineType::IMAGE_FILE_MACHINE_AMD64 {
        OPTIONS_AMD
    } else {
        OPTIONS_NONE
    }
}

/// True when the row is the one of the `.text` section.
pub open spec fn is_text(row: SectionEntryView) -> bool {
    row.name == ".text"@
}

/// The position of the first `.text` row among the first `upto` rows.
pub open spec fn first_text(rows: Seq<SectionEntryView>, upto: int) -> Option<int>
    decreases upto,
{
    if upto <= 0 {
        None
    } else {
        match first_text(rows, upto - 1) {
            Some(i) => Some(i),
            None => if is_text(rows[upto - 1]) {
                Some(upto - 1)
            } else {
                None
            },
        }
    }
}

/// Where the raw data of `.text` lies in a buffer of `len` bytes: the
/// position of its row in the table, or why it cannot be had. The first row
/// named `.text` counts; its raw data must not be empty and must lie within
/// the buffer, from `pointer_to_raw_data` up to, not including,
/// `pointer_to_raw_data + size_of_raw_data`.
pub open spec fn locate_text(rows: Seq<SectionEntryView>, len: nat) -> Result<int, ParseError> {
    match first_text(rows, rows.len() as int) {
        None => Err(ParseError::SectionNotFound),
        Some(i) => if rows[i].size_of_raw_data == 0 {
            Err(ParseError::EmptySection)
        } else if rows[i].pointer_to_raw_data + rows[i].size_of_raw_data > len {
            Err(ParseError::SectionOutOfBounds)
        } else {
            Ok(i)
        },
    }
}

/// The first `.text` row is a `.text` row, and no row before it is one.
pub proof fn lemma_first_text(rows: Seq<SectionEntryView>, upto: int)
    requires
        upto <= rows.len(),
    ensures
        first_text(rows, upto) matches Some(i) ==> 0 <= i < upto && is_text(rows[i]) && forall|
            j: int,
        |
            0 <= j < i ==> !is_text(#[trigger] rows[j]),
        first_text(rows, upto) is None ==> forall|j: int|
            0 <= j < upto ==> !is_text(#[trigger] rows[j]),
    decreases upto,
{
    if upto > 0 {
        lemma_first_text(rows, upto - 1);
    }
}

/// The state of a decoder over `text` that has come to `offset` from the
/// start, with addresses counted from 0.
pub open spec fn state_at(bitness: u32, options: u32, text: Seq<u8>, offset: nat) -> DecoderState {
    DecoderState { bitness, options, data: text, position: offset, ip: offset as u64 }
}

/// The record of the instruction that begins at `offset` of `text`.
pub open spec fn instruction_at(bitness: u32, options: u32, text: Seq<u8>, offset: nat)
    -> InstructionDataView {
    let instr = decoded_instruction(state_at(bitness, options, text, offset));
    InstructionDataView {
        instr,
        offset,
        size: instruction_len(instr),
        bytes: text.subrange(offset as int, offset as int + instruction_len(instr) as int),
    }
}

/// The offset behind the last of the records: 0 where there is none.
pub open spec fn covered(records: Seq<InstructionDataView>) -> nat {
    if records.len() == 0 {
        0
    } else {
        records.last().offset + records.last().size
    }
}

/// True when the records are the instructions of the first `upto` bytes of
/// `text`, one behind the other from offset 0 with no gap and no overlap:
/// each record is the instruction that the decoder finds at the record's
/// offset, takes at least one byte, and begins where the one before it ends.
pub open spec fn decodes_prefix(
    records: Seq<InstructionDataView>,
    bitness: u32,
    options: u32,
    text: Seq<u8>,
    upto: nat,
) -> bool {
    &&& covered(records) == upto
    &&& upto <= text.len()
    &&& forall|i: int|
        0 <= i < records.len() ==> #[trigger] records[i] == instruction_at(
            bitness,
            options,
            text,
            covered(records.take(i)),
        )
    &&& forall|i: int| 0 <= i < records.len() ==> (#[trigger] records[i]).size >= 1
}

/// True when the records are the instructions of all of `text`.
pub open spec fn is_disassembly(
    records: Seq<InstructionDataView>,
    bitness: u32,
    options: u32,
    text: Seq<u8>,
) -> bool {
    decodes_prefix(records, bitness, options, text, text.len())
}

/// The records of a disassembly lie one behind the other: the first begins at
/// offset 0, each next one begins where the one before it ends, so the
/// offsets grow strictly, and the last ends where the text ends. Each record
/// holds the bytes of `text` that it covers.
pub proof fn lemma_disassembly_contiguous(
    records: Seq<InstructionDataView>,
    bitness: u32,
    options: u32,
    text: Seq<u8>,
)
    requires
        is_disassembly(records, bitness, options, text),
    ensures
        records.len() > 0 ==> records[0].offset == 0,
        forall|i: int|
            0 <= i < records.len() - 1 ==> (#[trigger] records[i]).offset + records[i].size
                == records[i + 1].offset,
        forall|i: int, j: int|
            0 <= i < j < records.len() ==> (#[trigger] records[i]).offset < (
            #[trigger] records[j]).offset,
        forall|i: int|
            0 <= i < records.len() ==> (#[trigger] records[i]).offset + records[i].size
                <= text.len(),
        forall|i: int|
            0 <= i < records.len() ==> (#[trigger] records[i]).bytes == text.subrange(
                records[i].offset as int,
                records[i].offset as int + records[i].size as int,
            ),
        covered(records) == text.len(),
        text.len() > 0 ==> records.len() > 0,
{
    assert forall|i: int| 0 <= i < records.len() implies (#[trigger] records[i]).offset
        == covered(records.take(i)) by {
        assert(records[i] == instruction_at(bitness, options, text, covered(records.take(i))));
    }
    assert forall|i: int| 0 <= i < records.len() - 1 implies (#[trigger] records[i]).offset
        + records[i].size == records[i + 1].offset by {
        assert(records.take(i + 1).last() == records[i]);
        assert(records[i + 1].offset == covered(records.take(i + 1)));
    }
    assert forall|i: int, j: int| 0 <= i < j < records.len() implies (#[trigger] records[i]).offset
        < (#[trigger] records[j]).offset by {
        lemma_offsets_grow(records, i, j);
    }
    assert forall|i: int| 0 <= i < records.len() implies (#[trigger] records[i]).offset
        + records[i].size <= text.len() by {
        if i < records.len() - 1 {
            lemma_offsets_grow(records, i, records.len() - 1);
            assert(records[i].offset + records[i].size == records[i + 1].offset);
            if i + 1 < records.len() - 1 {
                lemma_offsets_grow(records, i + 1, records.len() - 1);
            }
        }
    }
}

/// In a run of records that lie one behind the other and take a byte or
/// more each, a later record begins behind an earlier one.
proof fn lemma_offsets_grow(records: Seq<InstructionDataView>, i: int, j: int)
    requires
        0 <= i < j < records.len(),
        forall|k: int|
            0 <= k < records.len() - 1 ==> (#[trigger] records[k]).offset + records[k].size
                == records[k + 1].offset,
        forall|k: int| 0 <= k < records.len() ==> (#[trigger] records[k]).size >= 1,
    ensures
        records[i].offset < records[j].offset,
    decreases j - i,
{
    assert(records[j - 1].offset + records[j - 1].size == records[j].offset);
    if i < j - 1 {
        lemma_offsets_grow(records, i, j - 1);
    }
}

/// A text has one disassembly: two runs of records that both are the
/// instructions of `text` are the same run.
pub proof fn lemma_disassembly_unique(
    first: Seq<InstructionDataView>,
    second: Seq<InstructionDataView>,
    bitness: u32,
    options: u32,
    text: Seq<u8>,
)
    requires
        is_disassembly(first, bitness, options, text),
        is_disassembly(second, bitness, options, text),
    ensures
        first == second,
{
    lemma_disassembly_contiguous(first, bitness, options, text);
    lemma_disassembly_contiguous(second, bitness, options, text);
    lemma_same_prefix(first, second, bitness, options, text, first.len() as int);
    lemma_same_prefix(first, second, bitness, options, text, second.len() as int);
    if first.len() < second.len() {
        let n = first.len() as int;
        assert(second.take(n) =~= first);
        assert(second[n].offset == covered(second.take(n))) by {
            assert(second[n] == instruction_at(bitness, options, text, covered(second.take(n))));
        }
        assert(second[n].offset + second[n].size <= text.len());
    } else if second.len() < first.len() {
        let n = second.len() as int;
        assert(first.take(n) =~= second);
        assert(first[n].offset == covered(first.take(n))) by {
            assert(first[n] == instruction_at(bitness, options, text, covered(first.take(n))));
        }
        assert(first[n].offset + first[n].size <= text.len());
    } else {
        assert(first.take(first.len() as int) =~= first);
        assert(second.take(second.len() as int) =~= second);
    }
}

/// Two disassemblies of a text agree on as many records as both have.
proof fn lemma_same_prefix(
    first: Seq<InstructionDataView>,
    second: Seq<InstructionDataView>,
    bitness: u32,
    options: u32,
    text: Seq<u8>,
    n: int,
)
    requires
        is_disassembly(first, bitness, options, text),
        is_disassembly(second, bitness, options, text),
        0 <= n,
    ensures
        n <= first.len() && n <= second.len() ==> first.take(n) == second.take(n),
    decreases n,
{
    if n > 0 && n <= first.len() && n <= second.len() {
        lemma_same_prefix(first, second, bitness, options, text, n - 1);
        assert(first[n - 1] == instruction_at(
            bitness,
            options,
            text,
            covered(first.take(n - 1)),
        ));
        assert(second[n - 1] == instruction_at(
            bitness,
            options,
            text,
            covered(second.take(n - 1)),
        ));
        assert(first.take(n) =~= first.take(n - 1).push(first[n - 1]));
        assert(second.take(n) =~= second.take(n - 1).push(second[n - 1]));
    } else if n == 0 {
        assert(first.take(0) =~= second.take(0));
    }
}

/// Records what was decoded at `offset` of `text`: the instruction, where it
/// begins, how long it is, and a copy of its bytes.
pub fn record_instruction(text: &[u8], offset: usize, instr: Instruction, size: usize) -> (record:
    InstructionData)
    requires
        offset + size <= text@.len(),
    ensures
        record@ == (InstructionDataView {
            instr,
            offset: offset as nat,
            size: size as nat,
            bytes: text@.subrange(offset as int, offset + size),
        }),
{
    assert(text.len() == text@.len());
    InstructionData { instr, offset, size, bytes: copy_range(text, offset, offset + size) }
}

/// Decodes `text` with a decoder that was just made over it, one instruction
/// after the other until no byte is left.
pub fn decode_all<'a>(decoder: Decoder<'a>, text: &'a [u8]) -> (records: Vec<InstructionData>)
    requires
        decoder_state(decoder) == initial_state(
            decoder_state(decoder).bitness,
            decoder_state(decoder).options,
            text@,
        ),
    ensures
        is_disassembly(
            instruction_views(records@),
            decoder_state(decoder).bitness,
            decoder_state(decoder).options,
            text@,
        ),
{
    let ghost bitness = decoder_state(decoder).bitness;
    let ghost options = decoder_state(decoder).options;
    let mut decoder = decoder;
    let mut records: Vec<InstructionData> = Vec::new();
    let mut total: usize = 0;
    proof {
        assert(text.len() == text@.len());
    }
    while decoder_can_decode(&decoder)
        invariant
            text@.len() <= usize::MAX,
            decoder_state(decoder) == state_at(bitness, options, text@, total as nat),
            decodes_prefix(instruction_views(records@), bitness, options, text@, total as nat),
        decreases text@.len() - total,
    {
        let ghost before = instruction_views(records@);
        let instr = decoder_decode(&mut decoder);
        let size = instruction_length(&instr);
        let record = record_instruction(text, total, instr, size);
        records.push(record);
        proof {
            let after = instruction_views(records@);
            assert(after =~= before.push(record@));
            assert(record@ == instruction_at(bitness, options, text@, total as nat));
            assert forall|i: int| 0 <= i < after.len() implies #[trigger] after[i]
                == instruction_at(bitness, options, text@, covered(after.take(i))) by {
                if i < before.len() {
                    assert(after.take(i) =~= before.take(i));
                    assert(after[i] == before[i]);
                } else {
                    assert(after.take(i) =~= before);
                }
            }
        }
        total = total + size;
    }
    records
}

/// Turns what making the decoder gave into the section: a decoder that was
/// made decodes all of `text`; one that was refused ends the parse.
pub fn disassemble<'a>(made: Result<Decoder<'a>, IcedError>, name: &String, text: &'a [u8]) -> (r:
    Result<SectionData, ParseError>)
    requires
        made matches Ok(decoder) ==> decoder_state(decoder) == initial_state(
            decoder_state(decoder).bitness,
            decoder_state(decoder).options,
            text@,
        ),
    ensures
        made is Err ==> r == Err::<SectionData, ParseError>(ParseError::UnsupportedValue),
        made matches Ok(decoder) ==> r matches Ok(section) && {
            &&& section@.name == name@
            &&& section@.bytes == text@
            &&& is_disassembly(
                section@.data,
                decoder_state(decoder).bitness,
                decoder_state(decoder).options,
                text@,
            )
        },
{
    match made {
        Err(_) => Err(ParseError::UnsupportedValue),
        Ok(decoder) => {
            let data = decode_all(decoder, text);
            let bytes = copy_range(text, 0, text.len());
            assert(bytes@ =~= text@);
            Ok(SectionData { name: name.clone(), data, bytes })
        },
    }
}

/// The raw data of a section in the buffer `s`: the bytes from
/// `pointer_to_raw_data` up to, not including, `pointer_to_raw_data +
/// size_of_raw_data`.
pub open spec fn raw_data(row: SectionEntryView, s: Seq<u8>) -> Seq<u8> {
    s.subrange(
        row.pointer_to_raw_data as int,
        row.pointer_to_raw_data as int + row.size_of_raw_data as int,
    )
}

/// True when `section` is the section of `row` in the buffer `s`, decoded for
/// `machine`: it has the row's name and raw data, and its records are the
/// instructions of that raw data, in the machine's address width and with
/// the machine's decoder options.
pub open spec fn is_section_of(
    section: SectionDataView,
    row: SectionEntryView,
    s: Seq<u8>,
    machine: MachineType,
) -> bool {
    &&& section.name == row.name
    &&& section.bytes == raw_data(row, s)
    &&& is_disassembly(
        section.data,
        machine.bitness_of(),
        decoder_options_of(machine),
        raw_data(row, s),
    )
}

/// True when `r` is what the `.text` section of a buffer `s` with the rows
/// `rows` comes to for `machine`. Where `.text` cannot be located, `r` is
/// that failure. Where it can, `r` is its section; or, where the decoder
/// could not be made, `UnsupportedValue`.
pub open spec fn is_text_outcome(
    r: Result<SectionData, ParseError>,
    rows: Seq<SectionEntryView>,
    s: Seq<u8>,
    machine: MachineType,
) -> bool {
    match locate_text(rows, s.len()) {
        Err(e) => r == Err::<SectionData, ParseError>(e),
        Ok(i) => match r {
            Ok(section) => is_section_of(section@, rows[i], s, machine),
            Err(e) => e == ParseError::UnsupportedValue,
        },
    }
}

/// A `.text` section with no raw data is empty, and one whose raw data would
/// end behind the buffer is out of bounds, whatever else the table holds.
pub proof fn lemma_text_failures(
    r: Result<SectionData, ParseError>,
    rows: Seq<SectionEntryView>,
    s: Seq<u8>,
    machine: MachineType,
)
    requires
        is_text_outcome(r, rows, s, machine),
    ensures
        first_text(rows, rows.len() as int) is None ==> r == Err::<SectionData, ParseError>(
            ParseError::SectionNotFound,
        ),
        first_text(rows, rows.len() as int) matches Some(i) ==> {
            &&& rows[i].size_of_raw_data == 0 ==> r == Err::<SectionData, ParseError>(
                ParseError::EmptySection,
            )
            &&& rows[i].size_of_raw_data != 0 && rows[i].pointer_to_raw_data
                + rows[i].size_of_raw_data > s.len() ==> r == Err::<SectionData, ParseError>(
                ParseError::SectionOutOfBounds,
            )
            &&& r is Ok ==> 0 < rows[i].size_of_raw_data && rows[i].pointer_to_raw_data
                + rows[i].size_of_raw_data <= s.len()
        },
{
}

/// A buffer has one `.text` section: two sections that both are the outcome
/// for the same rows, buffer and machine are the same section.
pub proof fn lemma_text_outcome_unique(
    first: Result<SectionData, ParseError>,
    second: Result<SectionData, ParseError>,
    rows: Seq<SectionEntryView>,
    s: Seq<u8>,
    machine: MachineType,
)
    requires
        is_text_outcome(first, rows, s, machine),
        is_text_outcome(second, rows, s, machine),
    ensures
        first matches Ok(a) ==> (second matches Ok(b) ==> a@ == b@),
{
    if let Ok(i) = locate_text(rows, s.len()) {
        if let Ok(a) = first {
            if let Ok(b) = second {
                lemma_disassembly_unique(
                    a@.data,
                    b@.data,
                    machine.bitness_of(),
                    decoder_options_of(machine),
                    raw_data(rows[i], s),
                );
            }
        }
    }
}

/// Finds the first row named `.text`.
pub fn find_text(sections: &Vec<SectionEntry>) -> (found: Option<usize>)
    ensures
        found matches Some(i) ==> i < sections@.len() && first_text(
            entry_views(sections@),
            sections@.len() as int,
        ) == Some(i as int),
        found is None ==> first_text(entry_views(sections@), sections@.len() as int) is None,
{
    let target = ".text".to_owned();
    let mut i: usize = 0;
    while i < sections.len()
        invariant
            i <= sections@.len(),
            target@ == ".text"@,
            first_text(entry_views(sections@), i as int) is None,
        decreases sections@.len() - i,
    {
        if sections[i].name == target {
            proof {
                assert(entry_views(sections@)[i as int] == sections@[i as int]@);
                lemma_first_text_stays(entry_views(sections@), i + 1, sections@.len() as int);
            }
            return Some(i);
        }
        proof {
            assert(entry_views(sections@)[i as int] == sections@[i as int]@);
        }
        i += 1;
    }
    None
}

/// Once a `.text` row is found among the first rows, more rows do not change
/// which one is first.
pub proof fn lemma_first_text_stays(rows: Seq<SectionEntryView>, upto: int, more: int)
    requires
        first_text(rows, upto) is Some,
        upto <= more,
    ensures
        first_text(rows, more) == first_text(rows, upto),
    decreases more,
{
    if upto < more {
        lemma_first_text_stays(rows, upto, more - 1);
    }
}

/// Locates the raw data of the `.text` section in the buffer at `input` and
/// decodes its instructions, in the address width and with the decoder
/// options of the file header's machine. The cursor stays where it is: the
/// raw data is found by its offset from the start of the buffer.
pub fn parse_text_section<'s>(
    input: &mut &'s [u8],
    sections: &Vec<SectionEntry>,
    file_header: &FileHeader,
) -> (r: Result<SectionData, ParseError>)
    ensures
        final(input)@ == old(input)@,
        is_text_outcome(r, entry_views(sections@), old(input)@, file_header.machine),
{
    let buffer: &[u8] = *input;
    let index = match find_text(sections) {
        Some(index) => index,
        None => return Err(ParseError::SectionNotFound),
    };
    let entry = &sections[index];
    proof {
        assert(entry_views(sections@)[index as int] == entry@);
    }
    if entry.size_of_raw_data == 0 {
        return Err(ParseError::EmptySection);
    }
    if entry.pointer_to_raw_data as u64 + entry.size_of_raw_data as u64 > buffer.len() as u64 {
        return Err(ParseError::SectionOutOfBounds);
    }
    let start = entry.pointer_to_raw_data as usize;
    let end = start + entry.size_of_raw_data as usize;
    let text = slice_subrange(buffer, start, end);
    let options = if file_header.machine == MachineType::IMAGE_FILE_MACHINE_AMD64 {
        decoder_options_amd()
    } else {
        decoder_options_none()
    };
    let made = decoder_try_new(file_header.machine.bitness(), text, options);
    disassemble(made, &entry.name, text)
}

} // verus!
