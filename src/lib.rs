//! Decoding of the ELF identification block and file header from raw bytes.
//!
//! `parse_header` turns the first bytes of an object file into an
//! `ElfHeader`, or says which check the bytes failed. Every field is read at
//! its fixed offset, little-endian, after the length of the buffer has been
//! checked against the layout that the class byte selects.
pub mod bytes;
pub mod codes;
pub mod header;
pub mod laws;

pub use codes::{Machine, OsAbi, Type, Type_, Version};
pub use header::{
    decode_body32, decode_body64, decode_ident, header_len, parse_header, validate_ident,
    ByteOrder, Class, DecodeError, ElfBaseInfo, ElfHeader, ElfInfo, ElfInfo_, P32, P64,
    BODY32_SIZE, BODY64_SIZE, IDENT_SIZE,
};
