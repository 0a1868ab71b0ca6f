//! Bounds-checked reads from a cursor over a byte slice.
//!
//! The cursor is a `&mut &[u8]`: a read that succeeds moves it past the bytes
//! it consumed, a read that fails leaves it where it was.

use crate::error::{rest_after, view_result, ParseError};
use vstd::prelude::*;
use vstd::slice::slice_subrange;
use vstd::utf8::{
    decode_utf8, encode_utf8, encode_utf8_decode_utf8, encode_utf8_valid_utf8, is_ascii_chars,
    is_ascii_chars_encode_utf8, valid_utf8,
};

verus! {

/// The little-endian 16-bit value at offset `at` of `s`.
pub open spec fn u16_at(s: Seq<u8>, at: int) -> u16 {
    (s[at] as int + s[at + 1] as int * 0x100) as u16
}

/// The little-endian 32-bit value at offset `at` of `s`.
pub open spec fn u32_at(s: Seq<u8>, at: int) -> u32 {
    (s[at] as int + s[at + 1] as int * 0x100 + s[at + 2] as int * 0x1_0000 + s[at + 3] as int
        * 0x100_0000) as u32
}

/// The little-endian 64-bit value at offset `at` of `s`.
pub open spec fn u64_at(s: Seq<u8>, at: int) -> u64 {
    (u32_at(s, at) as int + u32_at(s, at + 4) as int * 0x1_0000_0000) as u64
}

/// `count` consecutive little-endian 16-bit values, the first at offset `at`.
pub open spec fn u16s_at(s: Seq<u8>, at: int, count: nat) -> Seq<u16> {
    Seq::new(count, |i: int| u16_at(s, at + 2 * i))
}

/// True when every byte is below 0x80.
pub open spec fn is_ascii_bytes(s: Seq<u8>) -> bool {
    forall|i: int| 0 <= i < s.len() ==> #[trigger] s[i] < 0x80
}

/// The characters that the bytes stand for, one per byte.
pub open spec fn ascii_text(s: Seq<u8>) -> Seq<char> {
    Seq::new(s.len(), |i: int| s[i] as char)
}

/// The bytes of `s` before its first zero byte; all of `s` when it has none.
pub open spec fn until_null(s: Seq<u8>) -> Seq<u8>
    decreases s.len(),
{
    if s.len() == 0 || s[0] == 0 {
        Seq::empty()
    } else {
        seq![s[0]] + until_null(s.drop_first())
    }
}

/// What reading one byte yields.
pub open spec fn read_u8(s: Seq<u8>) -> Result<u8, ParseError> {
    if s.len() < 1 {
        Err(ParseError::Incomplete)
    } else {
        Ok(s[0])
    }
}

/// What reading a little-endian 16-bit value yields.
pub open spec fn read_u16(s: Seq<u8>) -> Result<u16, ParseError> {
    if s.len() < 2 {
        Err(ParseError::Incomplete)
    } else {
        Ok(u16_at(s, 0))
    }
}

/// What reading a little-endian 32-bit value yields.
pub open spec fn read_u32(s: Seq<u8>) -> Result<u32, ParseError> {
    if s.len() < 4 {
        Err(ParseError::Incomplete)
    } else {
        Ok(u32_at(s, 0))
    }
}

/// What reading a little-endian 64-bit value yields.
pub open spec fn read_u64(s: Seq<u8>) -> Result<u64, ParseError> {
    if s.len() < 8 {
        Err(ParseError::Incomplete)
    } else {
        Ok(u64_at(s, 0))
    }
}

/// What reading `count` little-endian 16-bit values yields.
pub open spec fn read_u16s(s: Seq<u8>, count: nat) -> Result<Seq<u16>, ParseError> {
    if s.len() < 2 * count {
        Err(ParseError::Incomplete)
    } else {
        Ok(u16s_at(s, 0, count))
    }
}

/// What reading `len` bytes as ASCII text yields.
pub open spec fn read_ascii(s: Seq<u8>, len: nat) -> Result<Seq<char>, ParseError> {
    if s.len() < len {
        Err(ParseError::Incomplete)
    } else if !is_ascii_bytes(s.take(len as int)) {
        Err(ParseError::MalformedText)
    } else {
        Ok(ascii_text(s.take(len as int)))
    }
}

/// What reading a field of `len` bytes as UTF-8 text that ends at its first
/// zero byte yields.
pub open spec fn read_utf8_null_terminated(s: Seq<u8>, len: nat) -> Result<
    Seq<char>,
    ParseError,
> {
    if s.len() < len {
        Err(ParseError::Incomplete)
    } else if !valid_utf8(until_null(s.take(len as int))) {
        Err(ParseError::MalformedText)
    } else {
        Ok(decode_utf8(until_null(s.take(len as int))))
    }
}

/// Skipping twice is skipping once by the sum.
pub broadcast proof fn lemma_skip_skip(s: Seq<u8>, a: int, b: int)
    requires
        0 <= a,
        0 <= b,
        a + b <= s.len(),
    ensures
        #[trigger] s.skip(a).skip(b) == s.skip(a + b),
{
    assert(s.skip(a).skip(b) =~= s.skip(a + b));
}

/// ASCII bytes are valid UTF-8 and decode to one character per byte.
pub proof fn lemma_ascii_is_utf8(s: Seq<u8>)
    requires
        is_ascii_bytes(s),
    ensures
        valid_utf8(s),
        decode_utf8(s) == ascii_text(s),
{
    let chars = ascii_text(s);
    assert(is_ascii_chars(chars)) by {
        assert forall|i: int| 0 <= i < chars.len() implies '\0' <= #[trigger] chars[i]
            <= '\u{7f}' by {
            assert(s[i] < 0x80);
        }
    }
    is_ascii_chars_encode_utf8(chars);
    assert(encode_utf8(chars) =~= s) by {
        assert forall|i: int| 0 <= i < s.len() implies encode_utf8(chars)[i] == s[i] by {
            assert(s[i] < 0x80);
            assert(chars[i] as u8 == s[i]);
        }
    }
    encode_utf8_valid_utf8(chars);
    encode_utf8_decode_utf8(chars);
}

/// The prefix before the first zero byte is no longer than the field, is the
/// field's own beginning, and holds no zero byte.
pub proof fn lemma_until_null(s: Seq<u8>)
    ensures
        until_null(s).len() <= s.len(),
        until_null(s) == s.take(until_null(s).len() as int),
        forall|i: int| 0 <= i < until_null(s).len() ==> #[trigger] s[i] != 0,
        until_null(s).len() < s.len() ==> s[until_null(s).len() as int] == 0,
    decreases s.len(),
{
    if s.len() == 0 || s[0] == 0 {
    } else {
        let rest = s.drop_first();
        lemma_until_null(rest);
        let n = until_null(rest).len() as int;
        assert(until_null(s) =~= s.take(n + 1));
        assert forall|i: int| 0 <= i < until_null(s).len() implies #[trigger] s[i] != 0 by {
            if i > 0 {
                assert(rest[i - 1] != 0);
            }
        }
    }
}

/// The little-endian 16-bit value at offset `at` of `s`.
pub fn peek_u16(s: &[u8], at: usize) -> (value: u16)
    requires
        at + 2 <= s@.len(),
    ensures
        value == u16_at(s@, at as int),
{
    s[at] as u16 + s[at + 1] as u16 * 0x100
}

/// The little-endian 32-bit value at offset `at` of `s`.
pub fn peek_u32(s: &[u8], at: usize) -> (value: u32)
    requires
        at + 4 <= s@.len(),
    ensures
        value == u32_at(s@, at as int),
{
    s[at] as u32 + s[at + 1] as u32 * 0x100 + s[at + 2] as u32 * 0x1_0000 + s[at + 3] as u32
        * 0x100_0000
}

/// The little-endian 64-bit value at offset `at` of `s`.
pub fn peek_u64(s: &[u8], at: usize) -> (value: u64)
    requires
        at + 8 <= s@.len(),
    ensures
        value == u64_at(s@, at as int),
{
    assert(s.len() == s@.len());
    peek_u32(s, at) as u64 + peek_u32(s, at + 4) as u64 * 0x1_0000_0000
}

/// A field whose bytes before the first zero byte are ASCII reads as those
/// bytes, one character each.
pub proof fn lemma_null_terminated_ascii(s: Seq<u8>, len: nat)
    requires
        len <= s.len(),
        is_ascii_bytes(until_null(s.take(len as int))),
    ensures
        read_utf8_null_terminated(s, len) == Ok::<Seq<char>, ParseError>(
            ascii_text(until_null(s.take(len as int))),
        ),
{
    lemma_ascii_is_utf8(until_null(s.take(len as int)));
}

/// Reads one byte.
pub fn get_single_u8<'s>(input: &mut &'s [u8]) -> (r: Result<u8, ParseError>)
    ensures
        r == read_u8(old(input)@),
        final(input)@ == rest_after(old(input)@, r, 1),
{
    let s: &[u8] = *input;
    if s.len() < 1 {
        return Err(ParseError::Incomplete);
    }
    let value = s[0];
    *input = slice_subrange(s, 1, s.len());
    Ok(value)
}

/// Reads a little-endian 16-bit value.
pub fn get_le_u16<'s>(input: &mut &'s [u8]) -> (r: Result<u16, ParseError>)
    ensures
        r == read_u16(old(input)@),
        final(input)@ == rest_after(old(input)@, r, 2),
{
    let s: &[u8] = *input;
    if s.len() < 2 {
        return Err(ParseError::Incomplete);
    }
    let value = peek_u16(s, 0);
    *input = slice_subrange(s, 2, s.len());
    Ok(value)
}

/// Reads a little-endian 32-bit value.
pub fn get_le_u32<'s>(input: &mut &'s [u8]) -> (r: Result<u32, ParseError>)
    ensures
        r == read_u32(old(input)@),
        final(input)@ == rest_after(old(input)@, r, 4),
{
    let s: &[u8] = *input;
    if s.len() < 4 {
        return Err(ParseError::Incomplete);
    }
    let value = peek_u32(s, 0);
    *input = slice_subrange(s, 4, s.len());
    Ok(value)
}

/// Reads a little-endian 64-bit value.
pub fn get_le_u64<'s>(input: &mut &'s [u8]) -> (r: Result<u64, ParseError>)
    ensures
        r == read_u64(old(input)@),
        final(input)@ == rest_after(old(input)@, r, 8),
{
    let s: &[u8] = *input;
    if s.len() < 8 {
        return Err(ParseError::Incomplete);
    }
    let value = peek_u64(s, 0);
    *input = slice_subrange(s, 8, s.len());
    Ok(value)
}

/// Reads `len` little-endian 16-bit values.
pub fn get_le_u16_vec<'s>(input: &mut &'s [u8], len: usize) -> (r: Result<Vec<u16>, ParseError>)
    ensures
        view_result(r) == read_u16s(old(input)@, len as nat),
        final(input)@ == rest_after(old(input)@, r, 2 * len),
{
    let s: &[u8] = *input;
    if s.len() / 2 < len {
        return Err(ParseError::Incomplete);
    }
    let mut values: Vec<u16> = Vec::new();
    let mut i: usize = 0;
    while i < len
        invariant
            i <= len,
            2 * len <= s@.len() <= usize::MAX,
            values@ == u16s_at(s@, 0, i as nat),
        decreases len - i,
    {
        values.push(peek_u16(s, 2 * i));
        i += 1;
        assert(values@ =~= u16s_at(s@, 0, i as nat));
    }
    *input = slice_subrange(s, 2 * len, s.len());
    Ok(values)
}

/// `String::from_utf8`: the bytes become a string exactly when they are valid
/// UTF-8, and the string then holds the characters they encode.
#[verifier::external_body]
fn string_from_utf8(bytes: Vec<u8>) -> (r: Option<String>)
    ensures
        r is Some <==> valid_utf8(bytes@),
        r matches Some(text) ==> text@ == decode_utf8(bytes@),
{
    String::from_utf8(bytes).ok()
}

/// Copies the bytes of `s` from `start` up to, not including, `end`.
pub fn copy_range(s: &[u8], start: usize, end: usize) -> (out: Vec<u8>)
    requires
        start <= end <= s@.len(),
    ensures
        out@ == s@.subrange(start as int, end as int),
{
    let mut out: Vec<u8> = Vec::new();
    let mut i: usize = start;
    while i < end
        invariant
            start <= i <= end <= s@.len(),
            out@ == s@.subrange(start as int, i as int),
        decreases end - i,
    {
        out.push(s[i]);
        i += 1;
        assert(out@ =~= s@.subrange(start as int, i as int));
    }
    out
}

/// Tells whether the first `len` bytes of `s` are all ASCII.
fn prefix_is_ascii(s: &[u8], len: usize) -> (r: bool)
    requires
        len <= s@.len(),
    ensures
        r == is_ascii_bytes(s@.take(len as int)),
{
    let mut i: usize = 0;
    while i < len
        invariant
            i <= len <= s@.len(),
            is_ascii_bytes(s@.take(i as int)),
        decreases len - i,
    {
        if s[i] >= 0x80 {
            assert(s@.take(len as int)[i as int] >= 0x80);
            return false;
        }
        i += 1;
        assert forall|j: int| 0 <= j < i implies #[trigger] s@.take(i as int)[j] < 0x80 by {
            if j < i - 1 {
                assert(s@.take(i - 1)[j] < 0x80);
            }
        }
    }
    true
}

/// The number of bytes of the first `len` that precede the first zero byte.
fn null_position(s: &[u8], len: usize) -> (n: usize)
    requires
        len <= s@.len(),
    ensures
        n <= len,
        s@.take(n as int) == until_null(s@.take(len as int)),
{
    let ghost field = s@.take(len as int);
    let mut n: usize = 0;
    proof {
        assert(field.skip(0) =~= field);
        assert(field.take(0) + until_null(field) =~= until_null(field));
    }
    while n < len && s[n] != 0
        invariant
            n <= len <= s@.len(),
            field == s@.take(len as int),
            until_null(field) == field.take(n as int) + until_null(field.skip(n as int)),
        decreases len - n,
    {
        proof {
            let tail = field.skip(n as int);
            assert(tail[0] == s@[n as int]);
            assert(tail.drop_first() =~= field.skip(n + 1));
            assert(field.take(n as int) + seq![tail[0]] =~= field.take(n + 1));
        }
        n += 1;
    }
    proof {
        let tail = field.skip(n as int);
        if n < len {
            assert(tail[0] == s@[n as int]);
        }
        assert(until_null(tail) =~= Seq::<u8>::empty());
        assert(field.take(n as int) =~= s@.take(n as int));
    }
    n
}

/// Reads `len` bytes as ASCII text.
pub fn get_ascii_string<'s>(input: &mut &'s [u8], len: usize) -> (r: Result<String, ParseError>)
    ensures
        view_result(r) == read_ascii(old(input)@, len as nat),
        final(input)@ == rest_after(old(input)@, r, len as int),
{
    let s: &[u8] = *input;
    if s.len() < len {
        return Err(ParseError::Incomplete);
    }
    if !prefix_is_ascii(s, len) {
        return Err(ParseError::MalformedText);
    }
    let bytes = copy_range(s, 0, len);
    proof {
        lemma_ascii_is_utf8(bytes@);
    }
    match string_from_utf8(bytes) {
        Some(text) => {
            *input = slice_subrange(s, len, s.len());
            Ok(text)
        },
        None => Err(ParseError::MalformedText),
    }
}

/// Reads a field of `len` bytes as UTF-8 text that ends at the field's first
/// zero byte, or at the field's end when it holds none.
pub fn get_utf8_null_terminated_string<'s>(input: &mut &'s [u8], len: usize) -> (r: Result<
    String,
    ParseError,
>)
    ensures
        view_result(r) == read_utf8_null_terminated(old(input)@, len as nat),
        final(input)@ == rest_after(old(input)@, r, len as int),
{
    let s: &[u8] = *input;
    if s.len() < len {
        return Err(ParseError::Incomplete);
    }
    let n = null_position(s, len);
    let bytes = copy_range(s, 0, n);
    match string_from_utf8(bytes) {
        Some(text) => {
            *input = slice_subrange(s, len, s.len());
            Ok(text)
        },
        None => Err(ParseError::MalformedText),
    }
}

} // verus!
