//! The NT headers: the signature, the COFF file header and the optional
//! header; and the headers of an image as a whole.

use crate::coff::{file_header, parse_file_header, FileHeader, FileHeaderView};
use crate::dos::{dos_header, dos_header_len, parse_dos_header, DOSHeader, DOSHeaderView};
use crate::error::{rest_after, view_result, ParseError};
use crate::optional::{
    optional_header, parse_optional_header, OptionalHeader, OptionalHeaderView,
};
use crate::reader::{get_ascii_string, lemma_skip_skip, read_ascii, u16_at};
use vstd::prelude::*;
use vstd::slice::slice_subrange;

verus! {

broadcast use lemma_skip_skip;

/// The NT headers.
#[derive(Debug, Default)]
pub struct NtHeaders {
    /// The four bytes that open the NT headers, as they stand in the image.
    pub signature: String,
    pub file_header: FileHeader,
    /// The optional header; none where the file header gives it no room.
    pub optional_header: Option<OptionalHeader>,
}

/// The model of `NtHeaders`.
pub struct NtHeadersView {
    pub signature: Seq<char>,
    pub file_header: FileHeaderView,
    pub optional_header: Option<OptionalHeaderView>,
}

impl View for NtHeaders {
    type V = NtHeadersView;

    open spec fn view(&self) -> NtHeadersView {
        NtHeadersView {
            signature: self.signature@,
            file_header: self.file_header@,
            optional_header: match self.optional_header {
                Some(header) => Some(header@),
                None => None,
            },
        }
    }
}

/// The headers of an image.
#[derive(Debug)]
pub struct PEHeader {
    pub dos_header: DOSHeader,
    /// The bytes between the DOS header and the NT headers.
    pub dos_stub: Vec<u8>,
    pub nt_headers: NtHeaders,
}

/// The model of a `PEHeader`.
pub struct PEHeaderView {
    pub dos_header: DOSHeaderView,
    pub dos_stub: Seq<u8>,
    pub nt_headers: NtHeadersView,
}

impl View for PEHeader {
    type V = PEHeaderView;

    open spec fn view(&self) -> PEHeaderView {
        PEHeaderView {
            dos_header: self.dos_header@,
            dos_stub: self.dos_stub@,
            nt_headers: self.nt_headers@,
        }
    }
}

impl NtHeadersView {
    /// True when the signature has its four characters, the file header is
    /// well formed, and there is an optional header, well formed, exactly
    /// where the file header gives it room.
    pub open spec fn wf(self) -> bool {
        &&& self.signature.len() == 4
        &&& self.file_header.wf()
        &&& self.optional_header is None <==> self.file_header.size_of_optional_header == 0
        &&& self.optional_header matches Some(header) ==> header.wf()
    }
}

impl PEHeaderView {
    /// True when both headers are well formed and the stub fills the gap
    /// between them.
    pub open spec fn wf(self) -> bool {
        &&& self.dos_header.wf()
        &&& self.dos_stub.len() == self.dos_header.e_lfanew - 64
        &&& self.nt_headers.wf()
    }
}

/// The NT headers that `s` begins with. The signature is kept as it stands;
/// an optional header is read only where the file header gives it room, from
/// exactly the bytes that the file header sets aside.
pub open spec fn nt_headers(s: Seq<u8>) -> Result<NtHeadersView, ParseError> {
    match read_ascii(s, 4) {
        Err(e) => Err(e),
        Ok(signature) => match file_header(s.skip(4)) {
            Err(e) => Err(e),
            Ok(file_header) => {
                let size = file_header.size_of_optional_header as int;
                if size == 0 {
                    Ok(NtHeadersView { signature, file_header, optional_header: None })
                } else if s.len() < 24 + size {
                    Err(ParseError::Incomplete)
                } else {
                    match optional_header(s.subrange(24, 24 + size)) {
                        Err(e) => Err(e),
                        Ok(header) => Ok(
                            NtHeadersView { signature, file_header, optional_header: Some(header) },
                        ),
                    }
                }
            },
        },
    }
}

/// The number of bytes that the NT headers at the start of `s` take: the
/// signature, the file header, and the room of the optional header.
pub open spec fn nt_headers_len(s: Seq<u8>) -> int {
    24 + u16_at(s, 20) as int
}

/// The headers that `s` begins with.
pub open spec fn pe_header(s: Seq<u8>) -> Result<PEHeaderView, ParseError> {
    match dos_header(s) {
        Err(e) => Err(e),
        Ok((dos_header, dos_stub)) => match nt_headers(s.skip(dos_header_len(s))) {
            Err(e) => Err(e),
            Ok(nt_headers) => Ok(PEHeaderView { dos_header, dos_stub, nt_headers }),
        },
    }
}

/// The number of bytes that the headers at the start of `s` take.
pub open spec fn pe_header_len(s: Seq<u8>) -> int {
    dos_header_len(s) + nt_headers_len(s.skip(dos_header_len(s)))
}

/// Reads the NT headers at the cursor and leaves the cursor behind them.
pub fn parse_nt_header<'s>(input: &mut &'s [u8]) -> (r: Result<NtHeaders, ParseError>)
    ensures
        view_result(r) == nt_headers(old(input)@),
        final(input)@ == rest_after(old(input)@, r, nt_headers_len(old(input)@)),
        r matches Ok(headers) ==> headers@.wf(),
{
    let mut cursor: &[u8] = *input;
    let signature = get_ascii_string(&mut cursor, 4)?;
    let file_header = parse_file_header(&mut cursor)?;
    let size = file_header.size_of_optional_header as usize;
    if size == 0 {
        *input = cursor;
        return Ok(NtHeaders { signature, file_header, optional_header: None });
    }
    if cursor.len() < size {
        return Err(ParseError::Incomplete);
    }
    let room = slice_subrange(cursor, 0, size);
    proof {
        assert(room@ =~= old(input)@.subrange(24, 24 + size));
    }
    let optional_header = parse_optional_header(room)?;
    *input = slice_subrange(cursor, size, cursor.len());
    Ok(NtHeaders { signature, file_header, optional_header: Some(optional_header) })
}

/// Reads the headers of an image and leaves the cursor at the section table.
pub fn parse_pe_header<'s>(input: &mut &'s [u8]) -> (r: Result<PEHeader, ParseError>)
    ensures
        view_result(r) == pe_header(old(input)@),
        final(input)@ == rest_after(old(input)@, r, pe_header_len(old(input)@)),
        r matches Ok(headers) ==> headers@.wf(),
{
    let mut cursor: &[u8] = *input;
    let (dos_header, dos_stub) = parse_dos_header(&mut cursor)?;
    let nt_headers = parse_nt_header(&mut cursor)?;
    *input = cursor;
    Ok(PEHeader { dos_header, dos_stub, nt_headers })
}

} // verus!
