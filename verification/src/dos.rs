//! The DOS header: the first sixty-four bytes of an image, and the stub
//! that lies between it and the NT headers.

use crate::error::{rest_after, view_result, ParseError};
use crate::reader::{
    copy_range, get_ascii_string, get_le_u16_vec, peek_u16, peek_u32, u16_at, u16s_at, u32_at,
};
use vstd::prelude::*;
use vstd::slice::slice_subrange;

verus! {

/// The DOS header.
#[derive(Debug, Default)]
pub struct DOSHeader {
    /// The magic number, `MZ`.
    pub e_magic: String,
    /// Bytes on the last page of the file.
    pub e_cblp: u16,
    /// Pages in the file.
    pub e_cp: u16,
    /// Relocations.
    pub e_crlc: u16,
    /// Size of the header in paragraphs.
    pub e_cparhdr: u16,
    /// Minimum extra paragraphs needed.
    pub e_minalloc: u16,
    /// Maximum extra paragraphs needed.
    pub e_maxalloc: u16,
    /// Initial (relative) SS value.
    pub e_ss: u16,
    /// Initial SP value.
    pub e_sp: u16,
    /// Checksum.
    pub e_csum: u16,
    /// Initial IP value.
    pub e_ip: u16,
    /// Initial (relative) CS value.
    pub e_cs: u16,
    /// File address of the relocation table.
    pub e_lfarlc: u16,
    /// Overlay number.
    pub e_ovno: u16,
    /// Reserved words.
    pub e_res: [u16; 4],
    /// OEM identifier.
    pub e_oemid: u16,
    /// OEM information.
    pub e_oeminfo: u16,
    /// Reserved words.
    pub e_res2: [u16; 10],
    /// File address of the NT headers.
    pub e_lfanew: u32,
}

/// The model of a `DOSHeader`.
pub struct DOSHeaderView {
    pub e_magic: Seq<char>,
    pub e_cblp: u16,
    pub e_cp: u16,
    pub e_crlc: u16,
    pub e_cparhdr: u16,
    pub e_minalloc: u16,
    pub e_maxalloc: u16,
    pub e_ss: u16,
    pub e_sp: u16,
    pub e_csum: u16,
    pub e_ip: u16,
    pub e_cs: u16,
    pub e_lfarlc: u16,
    pub e_ovno: u16,
    pub e_res: Seq<u16>,
    pub e_oemid: u16,
    pub e_oeminfo: u16,
    pub e_res2: Seq<u16>,
    pub e_lfanew: u32,
}

impl View for DOSHeader {
    type V = DOSHeaderView;

    open spec fn view(&self) -> DOSHeaderView {
        DOSHeaderView {
            e_magic: self.e_magic@,
            e_cblp: self.e_cblp,
            e_cp: self.e_cp,
            e_crlc: self.e_crlc,
            e_cparhdr: self.e_cparhdr,
            e_minalloc: self.e_minalloc,
            e_maxalloc: self.e_maxalloc,
            e_ss: self.e_ss,
            e_sp: self.e_sp,
            e_csum: self.e_csum,
            e_ip: self.e_ip,
            e_cs: self.e_cs,
            e_lfarlc: self.e_lfarlc,
            e_ovno: self.e_ovno,
            e_res: self.e_res@,
            e_oemid: self.e_oemid,
            e_oeminfo: self.e_oeminfo,
            e_res2: self.e_res2@,
            e_lfanew: self.e_lfanew,
        }
    }
}

impl DOSHeaderView {
    /// True of the header of an image: it begins with `MZ`, and the NT
    /// headers that it points to lie behind it.
    pub open spec fn wf(self) -> bool {
        &&& self.e_magic == seq!['M', 'Z']
        &&& self.e_res.len() == 4
        &&& self.e_res2.len() == 10
        &&& self.e_lfanew >= 64
    }
}

/// The size of the DOS header in bytes.
pub const DOS_HEADER_SIZE: usize = 64;

/// True when `s` begins with the two bytes `MZ`.
pub open spec fn has_dos_magic(s: Seq<u8>) -> bool {
    s.len() >= 2 && s[0] == 0x4D && s[1] == 0x5A
}

/// The fields of the DOS header that the first sixty-four bytes of `s` hold.
pub open spec fn dos_header_fields(s: Seq<u8>) -> DOSHeaderView {
    DOSHeaderView {
        e_magic: seq!['M', 'Z'],
        e_cblp: u16_at(s, 2),
        e_cp: u16_at(s, 4),
        e_crlc: u16_at(s, 6),
        e_cparhdr: u16_at(s, 8),
        e_minalloc: u16_at(s, 10),
        e_maxalloc: u16_at(s, 12),
        e_ss: u16_at(s, 14),
        e_sp: u16_at(s, 16),
        e_csum: u16_at(s, 18),
        e_ip: u16_at(s, 20),
        e_cs: u16_at(s, 22),
        e_lfarlc: u16_at(s, 24),
        e_ovno: u16_at(s, 26),
        e_res: u16s_at(s, 28, 4),
        e_oemid: u16_at(s, 36),
        e_oeminfo: u16_at(s, 38),
        e_res2: u16s_at(s, 40, 10),
        e_lfanew: u32_at(s, 60),
    }
}

/// The DOS header and the stub that `s` begins with. The stub runs from the
/// end of the header to the offset that `e_lfanew` names.
pub open spec fn dos_header(s: Seq<u8>) -> Result<(DOSHeaderView, Seq<u8>), ParseError> {
    if s.len() < 64 {
        Err(ParseError::Incomplete)
    } else if !has_dos_magic(s) {
        Err(ParseError::FormatViolation)
    } else if u32_at(s, 60) < 64 {
        Err(ParseError::FormatViolation)
    } else if s.len() < u32_at(s, 60) {
        Err(ParseError::Incomplete)
    } else {
        Ok((dos_header_fields(s), s.subrange(64, u32_at(s, 60) as int)))
    }
}

/// The number of bytes that the DOS header and its stub take: `e_lfanew`.
pub open spec fn dos_header_len(s: Seq<u8>) -> int {
    u32_at(s, 60) as int
}

/// The DOS header that is read begins with `MZ`, names an offset of the NT
/// headers behind itself, and comes with a stub that fills the gap.
pub proof fn lemma_dos_header_wf(s: Seq<u8>)
    ensures
        dos_header(s) matches Ok((header, stub)) ==> header.wf() && stub.len() == header.e_lfanew
            - 64,
{
}

/// Reads the DOS header and the stub that follows it, and leaves the cursor
/// at the NT headers.
pub fn parse_dos_header<'s>(input: &mut &'s [u8]) -> (r: Result<(DOSHeader, Vec<u8>), ParseError>)
    ensures
        view_result(r) == dos_header(old(input)@),
        final(input)@ == rest_after(old(input)@, r, dos_header_len(old(input)@)),
        r matches Ok((header, stub)) ==> header@.wf() && stub@.len() == header.e_lfanew - 64,
{
    let s: &[u8] = *input;
    if s.len() < DOS_HEADER_SIZE {
        return Err(ParseError::Incomplete);
    }
    if s[0] != 0x4D || s[1] != 0x5A {
        return Err(ParseError::FormatViolation);
    }
    let e_lfanew = peek_u32(s, 60);
    if e_lfanew < 64 {
        return Err(ParseError::FormatViolation);
    }
    let end = e_lfanew as usize;
    if s.len() < end {
        return Err(ParseError::Incomplete);
    }
    let mut magic: &[u8] = slice_subrange(s, 0, 2);
    let e_magic = get_ascii_string(&mut magic, 2)?;
    let mut words: &[u8] = slice_subrange(s, 28, 36);
    let res = get_le_u16_vec(&mut words, 4)?;
    let mut words: &[u8] = slice_subrange(s, 40, 60);
    let res2 = get_le_u16_vec(&mut words, 10)?;
    let stub = copy_range(s, DOS_HEADER_SIZE, end);
    let dos_header = DOSHeader {
        e_magic,
        e_cblp: peek_u16(s, 2),
        e_cp: peek_u16(s, 4),
        e_crlc: peek_u16(s, 6),
        e_cparhdr: peek_u16(s, 8),
        e_minalloc: peek_u16(s, 10),
        e_maxalloc: peek_u16(s, 12),
        e_ss: peek_u16(s, 14),
        e_sp: peek_u16(s, 16),
        e_csum: peek_u16(s, 18),
        e_ip: peek_u16(s, 20),
        e_cs: peek_u16(s, 22),
        e_lfarlc: peek_u16(s, 24),
        e_ovno: peek_u16(s, 26),
        e_res: [res[0], res[1], res[2], res[3]],
        e_oemid: peek_u16(s, 36),
        e_oeminfo: peek_u16(s, 38),
        e_res2: [
            res2[0],
            res2[1],
            res2[2],
            res2[3],
            res2[4],
            res2[5],
            res2[6],
            res2[7],
            res2[8],
            res2[9],
        ],
        e_lfanew,
    };
    proof {
        assert(dos_header@.e_magic =~= seq!['M', 'Z']);
        assert(dos_header@.e_res =~= u16s_at(s@, 28, 4));
        assert(dos_header@.e_res2 =~= u16s_at(s@, 40, 10));
    }
    *input = slice_subrange(s, end, s.len());
    Ok((dos_header, stub))
}

} // verus!
