//! The identification block and the class-dependent header body, decoded
//! field by field from a byte buffer.
use vstd::prelude::*;

use crate::bytes::{le16, le32, le64, read_u16_le, read_u32_le, read_u64_le};
use crate::codes::{
    machine_of_code, os_abi_of_code, type_of_code, version_of_code, Machine, OsAbi, Type, Type_,
    Version,
};

verus! {

/// An address or offset of the 32-bit layout.
pub type P32 = u32;

/// An address or offset of the 64-bit layout.
pub type P64 = u64;

/// Size of the identification block that opens every header.
pub const IDENT_SIZE: usize = 16;

/// Size of the header body that follows the identification block, 32-bit layout.
pub const BODY32_SIZE: usize = 36;

/// Size of the header body that follows the identification block, 64-bit layout.
pub const BODY64_SIZE: usize = 48;

/// Why a buffer could not be decoded.
#[derive(Debug, Clone, Copy, PartialEq, Eq)]
pub enum DecodeError {
    /// The first four bytes are not the identification magic.
    MalformedHeader,
    /// The class byte is neither 1 (32-bit) nor 2 (64-bit).
    UnsupportedClass,
    /// The byte-order byte does not name little-endian.
    UnsupportedByteOrder,
    /// The buffer ends before the header that it declares.
    TruncatedInput,
}

/// Address width of the object.
#[derive(Debug, Clone, Copy, PartialEq, Eq)]
pub enum Class {
    C32,
    C64,
}

/// Encoding of the multi-byte fields.
#[derive(Debug, Clone, Copy, PartialEq, Eq)]
pub enum ByteOrder {
    LE,
    BE,
}

/// The identification block.
#[derive(Debug, Clone, Copy, PartialEq, Eq)]
pub struct ElfBaseInfo {
    pub magic: [u8; 4],
    pub class: Class,
    pub data: ByteOrder,
    pub version: Version,
    pub os_abi: OsAbi,
    pub abi_version: u8,
    pub padding: [u8; 7],
}

/// The header body, with addresses and offsets of type `P`.
#[derive(Debug, PartialEq, Eq)]
pub struct ElfInfo_<P> {
    pub type_: Type,
    pub machine: Machine,
    pub version: u32,
    pub entry_point: P,
    pub ph_offset: P,
    pub sh_offset: P,
    pub flags: u32,
    pub header_size: u16,
    pub ph_entry_size: u16,
    pub ph_count: u16,
    pub sh_entry_size: u16,
    pub sh_count: u16,
    pub sh_str_index: u16,
}

/// The header body, tagged with its address width.
#[derive(Debug, PartialEq, Eq)]
pub enum ElfInfo {
    H32(ElfInfo_<P32>),
    H64(ElfInfo_<P64>),
}

/// A decoded header: identification block and body.
#[derive(Debug, PartialEq, Eq)]
pub struct ElfHeader {
    pub basic_info: ElfBaseInfo,
    pub info: ElfInfo,
}

/// The class byte that stands for a class.
pub open spec fn class_code(c: Class) -> u8 {
    match c {
        Class::C32 => 1,
        Class::C64 => 2,
    }
}

/// The byte-order byte that stands for a byte order.
pub open spec fn byte_order_code(o: ByteOrder) -> u8 {
    match o {
        ByteOrder::LE => 1,
        ByteOrder::BE => 2,
    }
}

/// `b` opens with the bytes 0x7F, 'E', 'L', 'F'.
pub open spec fn has_magic(b: Seq<u8>) -> bool {
    &&& b.len() >= 4
    &&& b[0] == 0x7F
    &&& b[1] == 0x45
    &&& b[2] == 0x4C
    &&& b[3] == 0x46
}

/// The class byte is 1 or 2.
pub open spec fn known_class(c: u8) -> bool {
    c == 1 || c == 2
}

/// Size of the whole header for a known class byte.
pub open spec fn header_len_for(c: u8) -> int {
    if c == 1 {
        IDENT_SIZE + BODY32_SIZE
    } else {
        IDENT_SIZE + BODY64_SIZE
    }
}

/// The error that decoding `b` fails with, checked stage by stage; `None`
/// when `b` decodes.
pub open spec fn decode_error(b: Seq<u8>) -> Option<DecodeError> {
    if b.len() < IDENT_SIZE {
        Some(DecodeError::TruncatedInput)
    } else if !has_magic(b) {
        Some(DecodeError::MalformedHeader)
    } else if !known_class(b[4]) {
        Some(DecodeError::UnsupportedClass)
    } else if b[5] != 1 {
        Some(DecodeError::UnsupportedByteOrder)
    } else if b.len() < header_len_for(b[4]) {
        Some(DecodeError::TruncatedInput)
    } else {
        None
    }
}

/// `i` holds the identification block that opens `b`.
pub open spec fn ident_matches(i: ElfBaseInfo, b: Seq<u8>) -> bool {
    &&& b.len() >= IDENT_SIZE
    &&& i.magic@ == b.subrange(0, 4)
    &&& class_code(i.class) == b[4]
    &&& byte_order_code(i.data) == b[5]
    &&& i.version == version_of_code(b[6])
    &&& i.os_abi == os_abi_of_code(b[7])
    &&& i.abi_version == b[8]
    &&& i.padding@ == b.subrange(9, 16)
}

/// Validates the identification block: long enough, and opening with the magic.
pub fn validate_ident(b: &[u8]) -> (r: Result<(), DecodeError>)
    ensures
        r is Ok <==> b@.len() >= IDENT_SIZE && has_magic(b@),
        r matches Err(e) ==> e == (if b@.len() < IDENT_SIZE {
            DecodeError::TruncatedInput
        } else {
            DecodeError::MalformedHeader
        }),
{
    if b.len() < IDENT_SIZE {
        return Err(DecodeError::TruncatedInput);
    }
    if b[0] != 0x7F || b[1] != 0x45 || b[2] != 0x4C || b[3] != 0x46 {
        return Err(DecodeError::MalformedHeader);
    }
    Ok(())
}

/// Decodes the identification block of a buffer that `validate_ident` accepted.
pub fn decode_ident(b: &[u8]) -> (r: Result<ElfBaseInfo, DecodeError>)
    requires
        b@.len() >= IDENT_SIZE,
        has_magic(b@),
    ensures
        match r {
            Ok(i) => known_class(b@[4]) && b@[5] == 1 && ident_matches(i, b@),
            Err(e) => if !known_class(b@[4]) {
                e == DecodeError::UnsupportedClass
            } else {
                b@[5] != 1 && e == DecodeError::UnsupportedByteOrder
            },
        },
{
    let class = match b[4] {
        1 => Class::C32,
        2 => Class::C64,
        _ => return Err(DecodeError::UnsupportedClass),
    };
    let data = match b[5] {
        1 => ByteOrder::LE,
        _ => return Err(DecodeError::UnsupportedByteOrder),
    };
    let magic: [u8; 4] = [b[0], b[1], b[2], b[3]];
    let padding: [u8; 7] = [b[9], b[10], b[11], b[12], b[13], b[14], b[15]];
    let info = ElfBaseInfo {
        magic,
        class,
        data,
        version: Version::from_code(b[6]),
        os_abi: OsAbi::from_code(b[7]),
        abi_version: b[8],
        padding,
    };
    assert(info.magic@ =~= b@.subrange(0, 4));
    assert(info.padding@ =~= b@.subrange(9, 16));
    Ok(info)
}

/// `h` holds the fields of the body in `b` that do not depend on the address
/// width: type and machine codes and version before the three addresses,
/// whose width is `w` bytes, then flags and the six 16-bit fields after them.
pub open spec fn fixed_fields_match<P>(h: ElfInfo_<P>, b: Seq<u8>, w: int) -> bool {
    &&& h.type_ == type_of_code(le16(b, 16) as u16)
    &&& h.machine == machine_of_code(le16(b, 18) as u16)
    &&& h.version as int == le32(b, 20)
    &&& h.flags as int == le32(b, 24 + 3 * w)
    &&& h.header_size as int == le16(b, 28 + 3 * w)
    &&& h.ph_entry_size as int == le16(b, 30 + 3 * w)
    &&& h.ph_count as int == le16(b, 32 + 3 * w)
    &&& h.sh_entry_size as int == le16(b, 34 + 3 * w)
    &&& h.sh_count as int == le16(b, 36 + 3 * w)
    &&& h.sh_str_index as int == le16(b, 38 + 3 * w)
}

/// `h` holds the 32-bit header body of `b`.
pub open spec fn body32_matches(h: ElfInfo_<P32>, b: Seq<u8>) -> bool {
    &&& b.len() >= IDENT_SIZE + BODY32_SIZE
    &&& fixed_fields_match(h, b, 4)
    &&& h.entry_point as int == le32(b, 24)
    &&& h.ph_offset as int == le32(b, 28)
    &&& h.sh_offset as int == le32(b, 32)
}

/// `h` holds the 64-bit header body of `b`.
pub open spec fn body64_matches(h: ElfInfo_<P64>, b: Seq<u8>) -> bool {
    &&& b.len() >= IDENT_SIZE + BODY64_SIZE
    &&& fixed_fields_match(h, b, 8)
    &&& h.entry_point as int == le64(b, 24)
    &&& h.ph_offset as int == le64(b, 32)
    &&& h.sh_offset as int == le64(b, 40)
}

/// `h` is the header that `b` encodes, its body in the layout of its class.
pub open spec fn header_matches(h: ElfHeader, b: Seq<u8>) -> bool {
    &&& ident_matches(h.basic_info, b)
    &&& match h.info {
        ElfInfo::H32(i) => h.basic_info.class == Class::C32 && body32_matches(i, b),
        ElfInfo::H64(i) => h.basic_info.class == Class::C64 && body64_matches(i, b),
    }
}

/// Size of the whole header, identification block and body, for a class.
pub fn header_len(c: Class) -> (n: usize)
    ensures
        n == header_len_for(class_code(c)),
{
    match c {
        Class::C32 => IDENT_SIZE + BODY32_SIZE,
        Class::C64 => IDENT_SIZE + BODY64_SIZE,
    }
}

/// Builds a body from its three addresses, reading the other fields of the
/// body in `b`, whose addresses are `w` bytes wide.
fn decode_body<P>(b: &[u8], w: usize, entry_point: P, ph_offset: P, sh_offset: P) -> (h: ElfInfo_<P>)
    requires
        w == 4 || w == 8,
        b@.len() >= 40 + 3 * w,
    ensures
        fixed_fields_match(h, b@, w as int),
        h.entry_point == entry_point,
        h.ph_offset == ph_offset,
        h.sh_offset == sh_offset,
{
    let tail: usize = 24 + 3 * w;
    ElfInfo_ {
        type_: Type_(read_u16_le(b, 16)).as_type(),
        machine: Machine::from_code(read_u16_le(b, 18)),
        version: read_u32_le(b, 20),
        entry_point,
        ph_offset,
        sh_offset,
        flags: read_u32_le(b, tail),
        header_size: read_u16_le(b, tail + 4),
        ph_entry_size: read_u16_le(b, tail + 6),
        ph_count: read_u16_le(b, tail + 8),
        sh_entry_size: read_u16_le(b, tail + 10),
        sh_count: read_u16_le(b, tail + 12),
        sh_str_index: read_u16_le(b, tail + 14),
    }
}

/// Decodes the 32-bit header body that follows the identification block.
pub fn decode_body32(b: &[u8]) -> (h: ElfInfo_<P32>)
    requires
        b@.len() >= IDENT_SIZE + BODY32_SIZE,
    ensures
        body32_matches(h, b@),
{
    let entry_point = read_u32_le(b, 24);
    let ph_offset = read_u32_le(b, 28);
    let sh_offset = read_u32_le(b, 32);
    decode_body(b, 4, entry_point, ph_offset, sh_offset)
}

/// Decodes the 64-bit header body that follows the identification block.
pub fn decode_body64(b: &[u8]) -> (h: ElfInfo_<P64>)
    requires
        b@.len() >= IDENT_SIZE + BODY64_SIZE,
    ensures
        body64_matches(h, b@),
{
    let entry_point = read_u64_le(b, 24);
    let ph_offset = read_u64_le(b, 32);
    let sh_offset = read_u64_le(b, 40);
    decode_body(b, 8, entry_point, ph_offset, sh_offset)
}

/// Decodes the header at the start of `input`: the identification block,
/// then the body in the layout that its class selects. Fails with the first
/// error of `decode_error`, and succeeds exactly where there is none.
pub fn parse_header(input: &[u8]) -> (r: Result<ElfHeader, DecodeError>)
    ensures
        match r {
            Ok(h) => decode_error(input@) is None && header_matches(h, input@),
            Err(e) => decode_error(input@) == Some(e),
        },
{
    match validate_ident(input) {
        Ok(()) => {},
        Err(e) => return Err(e),
    }
    let basic_info = match decode_ident(input) {
        Ok(i) => i,
        Err(e) => return Err(e),
    };
    if input.len() < header_len(basic_info.class) {
        return Err(DecodeError::TruncatedInput);
    }
    let info = match basic_info.class {
        Class::C32 => ElfInfo::H32(decode_body32(input)),
        Class::C64 => ElfInfo::H64(decode_body64(input)),
    };
    Ok(ElfHeader { basic_info, info })
}

} // verus!
