//! Decoding of Portable Executable images from a byte buffer: the DOS header,
//! the NT headers, the section table and the instructions of the `.text`
//! section.

pub mod characteristics;
pub mod coff;
pub mod disasm;
pub mod dos;
pub mod error;
pub mod fields;
pub mod flags;
pub mod machine;
pub mod nt;
pub mod optional;
pub mod pe;
pub mod reader;
pub mod section;
pub mod text;
