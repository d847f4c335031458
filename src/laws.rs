//! What holds of decoding over all buffers, stated over the model that
//! `parse_header`'s contract uses.
use vstd::prelude::*;

use crate::bytes::{le16, le32, le64};
use crate::codes::{
    code_of_machine, code_of_os_abi, code_of_type, code_of_version, machine_of_code,
    os_abi_of_code, type_of_code, version_of_code,
};
use crate::header::{
    byte_order_code, class_code, decode_error, fixed_fields_match, has_magic, header_len_for, header_matches,
    known_class, ByteOrder, Class, DecodeError, ElfHeader, ElfInfo, ElfInfo_, BODY32_SIZE,
    BODY64_SIZE, IDENT_SIZE,
};

verus! {

/// A buffer that opens with the magic, names a known class and little-endian
/// order, and is as long as its class's header, decodes.
pub proof fn lemma_well_formed_buffer_decodes(b: Seq<u8>)
    requires
        has_magic(b),
        known_class(b[4]),
        b[5] == 1,
        b.len() >= header_len_for(b[4]),
    ensures
        decode_error(b) is None,
{
}

/// A buffer of at least an identification block whose first four bytes are
/// not the magic fails with `MalformedHeader`, whatever follows.
pub proof fn lemma_bad_magic_is_malformed(b: Seq<u8>)
    requires
        b.len() >= IDENT_SIZE,
        !has_magic(b),
    ensures
        decode_error(b) == Some(DecodeError::MalformedHeader),
{
}

/// A buffer with the magic whose class byte is neither 1 nor 2 fails with
/// `UnsupportedClass`.
pub proof fn lemma_unknown_class_is_unsupported(b: Seq<u8>)
    requires
        b.len() >= IDENT_SIZE,
        has_magic(b),
        !known_class(b[4]),
    ensures
        decode_error(b) == Some(DecodeError::UnsupportedClass),
{
}

/// A buffer shorter than the identification block, or one with the magic, a
/// known class and little-endian order that is shorter than its class's
/// header, fails with `TruncatedInput`.
pub proof fn lemma_short_buffer_is_truncated(b: Seq<u8>)
    requires
        b.len() < IDENT_SIZE || (has_magic(b) && known_class(b[4]) && b[5] == 1 && b.len()
            < header_len_for(b[4])),
    ensures
        decode_error(b) == Some(DecodeError::TruncatedInput),
{
}

/// Decoding a buffer has one outcome: two headers that both match the buffer
/// are the same header.
pub proof fn lemma_decode_deterministic(b: Seq<u8>, h1: ElfHeader, h2: ElfHeader)
    requires
        header_matches(h1, b),
        header_matches(h2, b),
    ensures
        h1 == h2,
{
    assert(h1.basic_info.magic =~= h2.basic_info.magic);
    assert(h1.basic_info.padding =~= h2.basic_info.padding);
}

/// `s` with the byte `v` written at `at`.
pub open spec fn put8(s: Seq<u8>, at: int, v: int) -> Seq<u8> {
    s.update(at, v as u8)
}

/// `s` with `v` written little-endian in the two bytes at `at`.
pub open spec fn put16(s: Seq<u8>, at: int, v: int) -> Seq<u8> {
    put8(put8(s, at, v % 0x100), at + 1, v / 0x100)
}

/// `s` with `v` written little-endian in the four bytes at `at`.
pub open spec fn put32(s: Seq<u8>, at: int, v: int) -> Seq<u8> {
    put16(put16(s, at, v % 0x1_0000), at + 2, v / 0x1_0000)
}

/// `s` with `v` written little-endian in the eight bytes at `at`.
pub open spec fn put64(s: Seq<u8>, at: int, v: int) -> Seq<u8> {
    put32(put32(s, at, v % 0x1_0000_0000), at + 4, v / 0x1_0000_0000)
}

/// The identification block of `h`, as 16 bytes.
pub open spec fn encode_ident(h: ElfHeader) -> Seq<u8> {
    let i = h.basic_info;
    i.magic@ + seq![
        class_code(i.class),
        byte_order_code(i.data),
        code_of_version(i.version),
        code_of_os_abi(i.os_abi),
        i.abi_version,
    ] + i.padding@
}

/// Writes the fields of a body that do not depend on the address width into
/// `s`, for addresses `w` bytes wide.
pub open spec fn put_fixed_fields<P>(s: Seq<u8>, h: ElfInfo_<P>, w: int) -> Seq<u8> {
    let s = put16(s, 16, code_of_type(h.type_) as int);
    let s = put16(s, 18, code_of_machine(h.machine) as int);
    let s = put32(s, 20, h.version as int);
    let s = put32(s, 24 + 3 * w, h.flags as int);
    let s = put16(s, 28 + 3 * w, h.header_size as int);
    let s = put16(s, 30 + 3 * w, h.ph_entry_size as int);
    let s = put16(s, 32 + 3 * w, h.ph_count as int);
    let s = put16(s, 34 + 3 * w, h.sh_entry_size as int);
    let s = put16(s, 36 + 3 * w, h.sh_count as int);
    put16(s, 38 + 3 * w, h.sh_str_index as int)
}

/// The bytes of `h`: identification block, then the body in its layout.
pub open spec fn encode_header(h: ElfHeader) -> Seq<u8> {
    match h.info {
        ElfInfo::H32(i) => {
            let s = encode_ident(h) + Seq::new(BODY32_SIZE as nat, |k: int| 0u8);
            let s = put32(s, 24, i.entry_point as int);
            let s = put32(s, 28, i.ph_offset as int);
            let s = put32(s, 32, i.sh_offset as int);
            put_fixed_fields(s, i, 4)
        },
        ElfInfo::H64(i) => {
            let s = encode_ident(h) + Seq::new(BODY64_SIZE as nat, |k: int| 0u8);
            let s = put64(s, 24, i.entry_point as int);
            let s = put64(s, 32, i.ph_offset as int);
            let s = put64(s, 40, i.sh_offset as int);
            put_fixed_fields(s, i, 8)
        },
    }
}

/// `h` is a header that decoding can produce: it has the magic, little-endian
/// order, a body in the layout of its class, and each named code is the one
/// that its raw value maps to.
pub open spec fn decodable(h: ElfHeader) -> bool {
    let i = h.basic_info;
    &&& i.magic@ == seq![0x7Fu8, 0x45u8, 0x4Cu8, 0x46u8]
    &&& i.data == ByteOrder::LE
    &&& version_of_code(code_of_version(i.version)) == i.version
    &&& os_abi_of_code(code_of_os_abi(i.os_abi)) == i.os_abi
    &&& match h.info {
        ElfInfo::H32(b) => {
            &&& i.class == Class::C32
            &&& type_of_code(code_of_type(b.type_)) == b.type_
            &&& machine_of_code(code_of_machine(b.machine)) == b.machine
        },
        ElfInfo::H64(b) => {
            &&& i.class == Class::C64
            &&& type_of_code(code_of_type(b.type_)) == b.type_
            &&& machine_of_code(code_of_machine(b.machine)) == b.machine
        },
    }
}

/// Encoding a header that decoding can produce and decoding the bytes gives
/// back every field: the bytes decode, and to that header.
pub proof fn lemma_encode_then_decode(h: ElfHeader)
    requires
        decodable(h),
    ensures
        decode_error(encode_header(h)) is None,
        header_matches(h, encode_header(h)),
{
    let i = h.basic_info;
    let id = encode_ident(h);
    assert(id.len() == IDENT_SIZE);
    assert(id.subrange(0, 4) =~= i.magic@);
    assert(id.subrange(9, 16) =~= i.padding@);
    match h.info {
        ElfInfo::H32(b) => {
            let s0 = id + Seq::new(BODY32_SIZE as nat, |k: int| 0u8);
            let s1 = put32(s0, 24, b.entry_point as int);
            let s2 = put32(s1, 28, b.ph_offset as int);
            let s3 = put32(s2, 32, b.sh_offset as int);
            let s4 = put_fixed_fields(s3, b, 4);
            lemma_put32(s0, 24, b.entry_point as int);
            lemma_put32(s1, 28, b.ph_offset as int);
            lemma_put32(s2, 32, b.sh_offset as int);
            lemma_put_fixed_fields(s3, b, 4);
            assert(s4.subrange(0, 4) =~= id.subrange(0, 4));
            assert(s4.subrange(9, 16) =~= id.subrange(9, 16));
            assert(s4 == encode_header(h));
        },
        ElfInfo::H64(b) => {
            let s0 = id + Seq::new(BODY64_SIZE as nat, |k: int| 0u8);
            let s1 = put64(s0, 24, b.entry_point as int);
            let s2 = put64(s1, 32, b.ph_offset as int);
            let s3 = put64(s2, 40, b.sh_offset as int);
            let s4 = put_fixed_fields(s3, b, 8);
            lemma_put64(s0, 24, b.entry_point as int);
            lemma_put64(s1, 32, b.ph_offset as int);
            lemma_put64(s2, 40, b.sh_offset as int);
            lemma_put_fixed_fields(s3, b, 8);
            assert(s4.subrange(0, 4) =~= id.subrange(0, 4));
            assert(s4.subrange(9, 16) =~= id.subrange(9, 16));
            assert(s4 == encode_header(h));
        },
    }
}

proof fn lemma_put16(s: Seq<u8>, at: int, v: int)
    requires
        0 <= at,
        at + 2 <= s.len(),
        0 <= v < 0x1_0000,
    ensures
        put16(s, at, v).len() == s.len(),
        le16(put16(s, at, v), at) == v,
        forall|j: int| 0 <= j < s.len() && !(at <= j < at + 2) ==> #[trigger] put16(s, at, v)[j] == s[j],
{
}

proof fn lemma_put32(s: Seq<u8>, at: int, v: int)
    requires
        0 <= at,
        at + 4 <= s.len(),
        0 <= v < 0x1_0000_0000,
    ensures
        put32(s, at, v).len() == s.len(),
        le32(put32(s, at, v), at) == v,
        forall|j: int| 0 <= j < s.len() && !(at <= j < at + 4) ==> #[trigger] put32(s, at, v)[j] == s[j],
{
    let t = put16(s, at, v % 0x1_0000);
    lemma_put16(s, at, v % 0x1_0000);
    lemma_put16(t, at + 2, v / 0x1_0000);
}

proof fn lemma_put64(s: Seq<u8>, at: int, v: int)
    requires
        0 <= at,
        at + 8 <= s.len(),
        0 <= v < 0x1_0000_0000_0000_0000,
    ensures
        put64(s, at, v).len() == s.len(),
        le64(put64(s, at, v), at) == v,
        forall|j: int| 0 <= j < s.len() && !(at <= j < at + 8) ==> #[trigger] put64(s, at, v)[j] == s[j],
{
    let t = put32(s, at, v % 0x1_0000_0000);
    lemma_put32(s, at, v % 0x1_0000_0000);
    lemma_put32(t, at + 4, v / 0x1_0000_0000);
}

proof fn lemma_put_fixed_fields<P>(s: Seq<u8>, h: ElfInfo_<P>, w: int)
    requires
        w == 4 || w == 8,
        s.len() == 40 + 3 * w,
        type_of_code(code_of_type(h.type_)) == h.type_,
        machine_of_code(code_of_machine(h.machine)) == h.machine,
    ensures
        put_fixed_fields(s, h, w).len() == s.len(),
        fixed_fields_match(h, put_fixed_fields(s, h, w), w),
        forall|j: int|
            0 <= j < s.len() && (j < 16 || 24 <= j < 24 + 3 * w) ==> #[trigger] put_fixed_fields(
                s,
                h,
                w,
            )[j] == s[j],
{
    let s1 = put16(s, 16, code_of_type(h.type_) as int);
    let s2 = put16(s1, 18, code_of_machine(h.machine) as int);
    let s3 = put32(s2, 20, h.version as int);
    let s4 = put32(s3, 24 + 3 * w, h.flags as int);
    let s5 = put16(s4, 28 + 3 * w, h.header_size as int);
    let s6 = put16(s5, 30 + 3 * w, h.ph_entry_size as int);
    let s7 = put16(s6, 32 + 3 * w, h.ph_count as int);
    let s8 = put16(s7, 34 + 3 * w, h.sh_entry_size as int);
    let s9 = put16(s8, 36 + 3 * w, h.sh_count as int);
    let s10 = put16(s9, 38 + 3 * w, h.sh_str_index as int);
    lemma_put16(s, 16, code_of_type(h.type_) as int);
    lemma_put16(s1, 18, code_of_machine(h.machine) as int);
    lemma_put32(s2, 20, h.version as int);
    lemma_put32(s3, 24 + 3 * w, h.flags as int);
    lemma_put16(s4, 28 + 3 * w, h.header_size as int);
    lemma_put16(s5, 30 + 3 * w, h.ph_entry_size as int);
    lemma_put16(s6, 32 + 3 * w, h.ph_count as int);
    lemma_put16(s7, 34 + 3 * w, h.sh_entry_size as int);
    lemma_put16(s8, 36 + 3 * w, h.sh_count as int);
    lemma_put16(s9, 38 + 3 * w, h.sh_str_index as int);
    assert(s10 == put_fixed_fields(s, h, w));
}

} // verus!
