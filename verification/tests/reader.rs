use pe_reader::error::ParseError;
use pe_reader::reader::{
    get_ascii_string, get_le_u16, get_le_u16_vec, get_le_u32, get_le_u64, get_single_u8,
    get_utf8_null_terminated_string, peek_u16, peek_u32, peek_u64,
};

#[test]
fn single_u8_reads_and_advances() {
    let bytes = [0xabu8, 0xcd];
    let mut cursor: &[u8] = &bytes;
    assert_eq!(get_single_u8(&mut cursor), Ok(0xab));
    assert_eq!(cursor, &[0xcdu8][..]);
    assert_eq!(get_single_u8(&mut cursor), Ok(0xcd));
    assert!(cursor.is_empty());
    assert_eq!(get_single_u8(&mut cursor), Err(ParseError::Incomplete));
    assert!(cursor.is_empty());
}

#[test]
fn le_u16_reads_low_byte_first() {
    let bytes = [0x34u8, 0x12, 0xff];
    let mut cursor: &[u8] = &bytes;
    assert_eq!(get_le_u16(&mut cursor), Ok(0x1234));
    assert_eq!(cursor, &[0xffu8][..]);
    assert_eq!(get_le_u16(&mut cursor), Err(ParseError::Incomplete));
    assert_eq!(cursor, &[0xffu8][..]);
}

#[test]
fn le_u16_reaches_the_largest_value() {
    let bytes = [0xffu8, 0xff];
    let mut cursor: &[u8] = &bytes;
    assert_eq!(get_le_u16(&mut cursor), Ok(0xffff));
}

#[test]
fn le_u32_reads_low_byte_first() {
    let bytes = [0x78u8, 0x56, 0x34, 0x12, 0x01];
    let mut cursor: &[u8] = &bytes;
    assert_eq!(get_le_u32(&mut cursor), Ok(0x1234_5678));
    assert_eq!(cursor, &[0x01u8][..]);
}

#[test]
fn le_u32_fails_on_three_bytes_without_moving() {
    let bytes = [1u8, 2, 3];
    let mut cursor: &[u8] = &bytes;
    assert_eq!(get_le_u32(&mut cursor), Err(ParseError::Incomplete));
    assert_eq!(cursor, &bytes[..]);
}

#[test]
fn le_u32_reaches_the_largest_value() {
    let bytes = [0xffu8; 4];
    let mut cursor: &[u8] = &bytes;
    assert_eq!(get_le_u32(&mut cursor), Ok(u32::MAX));
}

#[test]
fn le_u64_reads_low_byte_first() {
    let bytes = [0xefu8, 0xcd, 0xab, 0x89, 0x67, 0x45, 0x23, 0x01, 0x99];
    let mut cursor: &[u8] = &bytes;
    assert_eq!(get_le_u64(&mut cursor), Ok(0x0123_4567_89ab_cdef));
    assert_eq!(cursor, &[0x99u8][..]);
}

#[test]
fn le_u64_fails_on_seven_bytes_without_moving() {
    let bytes = [0u8; 7];
    let mut cursor: &[u8] = &bytes;
    assert_eq!(get_le_u64(&mut cursor), Err(ParseError::Incomplete));
    assert_eq!(cursor.len(), 7);
}

#[test]
fn le_u64_reaches_the_largest_value() {
    let bytes = [0xffu8; 8];
    let mut cursor: &[u8] = &bytes;
    assert_eq!(get_le_u64(&mut cursor), Ok(u64::MAX));
}

#[test]
fn le_values_agree_with_std() {
    let bytes = [0x10u8, 0x32, 0x54, 0x76, 0x98, 0xba, 0xdc, 0xfe, 0x11, 0x22];
    assert_eq!(peek_u16(&bytes, 1), u16::from_le_bytes([0x32, 0x54]));
    assert_eq!(peek_u32(&bytes, 2), u32::from_le_bytes([0x54, 0x76, 0x98, 0xba]));
    assert_eq!(
        peek_u64(&bytes, 2),
        u64::from_le_bytes([0x54, 0x76, 0x98, 0xba, 0xdc, 0xfe, 0x11, 0x22])
    );
}

#[test]
fn u16_vec_reads_as_many_values_as_asked() {
    let bytes = [1u8, 0, 2, 0, 0, 3, 0xaa];
    let mut cursor: &[u8] = &bytes;
    assert_eq!(get_le_u16_vec(&mut cursor, 3), Ok(vec![1, 2, 0x0300]));
    assert_eq!(cursor, &[0xaau8][..]);
}

#[test]
fn u16_vec_of_no_values_reads_nothing() {
    let bytes = [1u8, 2];
    let mut cursor: &[u8] = &bytes;
    assert_eq!(get_le_u16_vec(&mut cursor, 0), Ok(vec![]));
    assert_eq!(cursor.len(), 2);
}

#[test]
fn u16_vec_fails_short_without_moving() {
    let bytes = [1u8, 0, 2, 0, 3];
    let mut cursor: &[u8] = &bytes;
    assert_eq!(get_le_u16_vec(&mut cursor, 3), Err(ParseError::Incomplete));
    assert_eq!(cursor.len(), 5);
    assert_eq!(get_le_u16_vec(&mut cursor, usize::MAX), Err(ParseError::Incomplete));
    assert_eq!(cursor.len(), 5);
}

#[test]
fn ascii_string_keeps_every_byte() {
    let bytes = *b"PE\0\0rest";
    let mut cursor: &[u8] = &bytes;
    assert_eq!(get_ascii_string(&mut cursor, 4), Ok("PE\0\0".to_string()));
    assert_eq!(cursor, &b"rest"[..]);
}

#[test]
fn ascii_string_of_no_bytes_is_empty() {
    let bytes = [0x80u8];
    let mut cursor: &[u8] = &bytes;
    assert_eq!(get_ascii_string(&mut cursor, 0), Ok(String::new()));
    assert_eq!(cursor.len(), 1);
}

#[test]
fn ascii_string_fails_short_before_it_judges_the_bytes() {
    let bytes = [0x80u8, 0x41];
    let mut cursor: &[u8] = &bytes;
    assert_eq!(get_ascii_string(&mut cursor, 3), Err(ParseError::Incomplete));
    assert_eq!(cursor.len(), 2);
}

#[test]
fn ascii_string_refuses_a_byte_above_0x7f() {
    let bytes = [0x41u8, 0x80, 0x42];
    let mut cursor: &[u8] = &bytes;
    assert_eq!(get_ascii_string(&mut cursor, 2), Err(ParseError::MalformedText));
    assert_eq!(cursor.len(), 3);
    assert_eq!(get_ascii_string(&mut cursor, 1), Ok("A".to_string()));
}

#[test]
fn null_terminated_string_stops_at_the_first_zero() {
    let bytes = *b".text\0\0\0tail";
    let mut cursor: &[u8] = &bytes;
    assert_eq!(get_utf8_null_terminated_string(&mut cursor, 8), Ok(".text".to_string()));
    assert_eq!(cursor, &b"tail"[..]);
}

#[test]
fn null_terminated_string_passes_over_what_follows_the_zero() {
    let bytes = *b"ab\0cd\0\xff\xfe";
    let mut cursor: &[u8] = &bytes;
    assert_eq!(get_utf8_null_terminated_string(&mut cursor, 8), Ok("ab".to_string()));
    assert!(cursor.is_empty());
}

#[test]
fn null_terminated_string_without_zero_takes_the_whole_field() {
    let bytes = *b".textbss!";
    let mut cursor: &[u8] = &bytes;
    assert_eq!(get_utf8_null_terminated_string(&mut cursor, 8), Ok(".textbss".to_string()));
    assert_eq!(cursor, &b"!"[..]);
}

#[test]
fn null_terminated_string_that_begins_with_zero_is_empty() {
    let bytes = [0u8, 0x41, 0x42];
    let mut cursor: &[u8] = &bytes;
    assert_eq!(get_utf8_null_terminated_string(&mut cursor, 3), Ok(String::new()));
    assert!(cursor.is_empty());
}

#[test]
fn null_terminated_string_decodes_utf8() {
    let bytes = [0xc3u8, 0xa9, 0x74, 0xc3, 0xa9, 0, 0, 0];
    let mut cursor: &[u8] = &bytes;
    assert_eq!(get_utf8_null_terminated_string(&mut cursor, 8), Ok("été".to_string()));
}

#[test]
fn null_terminated_string_refuses_invalid_utf8() {
    let bytes = [0x41u8, 0xff, 0, 0];
    let mut cursor: &[u8] = &bytes;
    assert_eq!(get_utf8_null_terminated_string(&mut cursor, 4), Err(ParseError::MalformedText));
    assert_eq!(cursor.len(), 4);
    let cut_short = [0xc3u8, 0, 0, 0];
    let mut cursor: &[u8] = &cut_short;
    assert_eq!(get_utf8_null_terminated_string(&mut cursor, 4), Err(ParseError::MalformedText));
}

#[test]
fn null_terminated_string_fails_short_without_moving() {
    let bytes = *b".text";
    let mut cursor: &[u8] = &bytes;
    assert_eq!(get_utf8_null_terminated_string(&mut cursor, 8), Err(ParseError::Incomplete));
    assert_eq!(cursor.len(), 5);
}
