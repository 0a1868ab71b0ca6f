use vstd::prelude::*;

verus! {

/// Why a buffer was rejected.
#[derive(Clone, Copy, Debug, PartialEq, Eq, Structural)]
pub enum ParseError {
    /// Fewer bytes remain than the next field needs.
    Incomplete,
    /// A required constant (a magic number) has none of its recognised values.
    FormatViolation,
    /// An enumerated field holds a number outside its known set.
    UnsupportedValue,
    /// A run of bytes that should be text is not valid in its encoding.
    MalformedText,
    /// The section table has no `.text` entry.
    SectionNotFound,
    /// The `.text` entry declares no raw data.
    EmptySection,
    /// The raw data of `.text` would reach past the end of the buffer.
    SectionOutOfBounds,
}

/// The outcome of a parser with its value replaced by the value's view.
pub open spec fn view_result<T: View>(r: Result<T, ParseError>) -> Result<T::V, ParseError> {
    match r {
        Ok(v) => Ok(v@),
        Err(e) => Err(e),
    }
}

/// What is left of `s` after a read that consumes `n` bytes when it succeeds
/// and nothing when it fails.
pub open spec fn rest_after<T>(s: Seq<u8>, r: Result<T, ParseError>, n: int) -> Seq<u8> {
    if r is Ok {
        s.skip(n)
    } else {
        s
    }
}

} // verus!
