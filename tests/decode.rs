use elf_header::bytes::{read_u16_le, read_u32_le, read_u64_le};
use elf_header::{
    decode_body32, decode_ident, header_len, parse_header, validate_ident, ByteOrder, Class,
    DecodeError, ElfInfo, Machine, OsAbi, Type, Type_, Version, BODY32_SIZE, BODY64_SIZE,
    IDENT_SIZE,
};

fn ident(class: u8, order: u8) -> Vec<u8> {
    vec![0x7F, b'E', b'L', b'F', class, order, 1, 0, 0, 0, 0, 0, 0, 0, 0, 0]
}

fn header64() -> Vec<u8> {
    let mut b = ident(2, 1);
    b.extend_from_slice(&[2, 0, 0x3E, 0, 1, 0, 0, 0]);
    b.extend_from_slice(&0x0040_1000u64.to_le_bytes());
    b.extend_from_slice(&64u64.to_le_bytes());
    b.extend_from_slice(&0x1_2345_6789u64.to_le_bytes());
    b.extend_from_slice(&0xDEAD_BEEFu32.to_le_bytes());
    for v in [64u16, 56, 2, 64, 30, 29] {
        b.extend_from_slice(&v.to_le_bytes());
    }
    b
}

fn header32() -> Vec<u8> {
    let mut b = ident(1, 1);
    b[7] = 3;
    b[8] = 5;
    b.extend_from_slice(&[1, 0, 0x28, 0, 1, 0, 0, 0]);
    b.extend_from_slice(&0x8000u32.to_le_bytes());
    b.extend_from_slice(&52u32.to_le_bytes());
    b.extend_from_slice(&0x1234u32.to_le_bytes());
    b.extend_from_slice(&0x0500_0000u32.to_le_bytes());
    for v in [52u16, 32, 1, 40, 12, 11] {
        b.extend_from_slice(&v.to_le_bytes());
    }
    b
}

#[test]
fn example_64_bit_executable() {
    let b = header64();
    assert_eq!(b.len(), 64);
    let h = parse_header(&b).unwrap();
    assert_eq!(h.basic_info.class, Class::C64);
    assert_eq!(h.basic_info.data, ByteOrder::LE);
    assert_eq!(h.basic_info.version, Version::Current);
    assert_eq!(h.basic_info.os_abi, OsAbi::SystemV);
    assert_eq!(h.basic_info.magic, [0x7F, b'E', b'L', b'F']);
    match h.info {
        ElfInfo::H64(i) => {
            assert_eq!(i.type_, Type::Executable);
            assert_eq!(i.machine, Machine::X86_64);
            assert_eq!(i.version, 1);
            assert_eq!(i.entry_point, 0x0040_1000);
            assert_eq!(i.ph_offset, 64);
            assert_eq!(i.sh_offset, 0x1_2345_6789);
            assert_eq!(i.flags, 0xDEAD_BEEF);
            assert_eq!(i.header_size, 64);
            assert_eq!(i.ph_entry_size, 56);
            assert_eq!(i.ph_count, 2);
            assert_eq!(i.sh_entry_size, 64);
            assert_eq!(i.sh_count, 30);
            assert_eq!(i.sh_str_index, 29);
        }
        ElfInfo::H32(_) => panic!("expected the 64-bit layout"),
    }
}

#[test]
fn decodes_32_bit_relocatable() {
    let b = header32();
    assert_eq!(b.len(), 52);
    let h = parse_header(&b).unwrap();
    assert_eq!(h.basic_info.class, Class::C32);
    assert_eq!(h.basic_info.os_abi, OsAbi::Linux);
    assert_eq!(h.basic_info.abi_version, 5);
    match h.info {
        ElfInfo::H32(i) => {
            assert_eq!(i.type_, Type::Relocatable);
            assert_eq!(i.machine, Machine::Arm);
            assert_eq!(i.entry_point, 0x8000);
            assert_eq!(i.ph_offset, 52);
            assert_eq!(i.sh_offset, 0x1234);
            assert_eq!(i.flags, 0x0500_0000);
            assert_eq!(i.header_size, 52);
            assert_eq!(i.ph_entry_size, 32);
            assert_eq!(i.ph_count, 1);
            assert_eq!(i.sh_entry_size, 40);
            assert_eq!(i.sh_count, 12);
            assert_eq!(i.sh_str_index, 11);
        }
        ElfInfo::H64(_) => panic!("expected the 32-bit layout"),
    }
}

#[test]
fn trailing_bytes_are_ignored() {
    let mut b = header64();
    b.extend_from_slice(&[0xAA; 100]);
    let h = parse_header(&b).unwrap();
    assert_eq!(h, parse_header(&header64()).unwrap());
}

#[test]
fn bad_first_byte_is_malformed() {
    let mut b = header64();
    b[0] = 0x00;
    assert_eq!(parse_header(&b), Err(DecodeError::MalformedHeader));
}

#[test]
fn bad_magic_is_malformed_whatever_follows() {
    let mut b = header64();
    b[2] = b'X';
    b[4] = 9;
    b[5] = 9;
    b.truncate(IDENT_SIZE);
    assert_eq!(parse_header(&b), Err(DecodeError::MalformedHeader));
}

#[test]
fn class_three_is_unsupported() {
    let mut b = header64();
    b[4] = 3;
    assert_eq!(parse_header(&b), Err(DecodeError::UnsupportedClass));
}

#[test]
fn class_zero_is_unsupported_even_when_short() {
    let b = ident(0, 1);
    assert_eq!(parse_header(&b), Err(DecodeError::UnsupportedClass));
}

#[test]
fn big_endian_is_unsupported() {
    let mut b = header64();
    b[5] = 2;
    assert_eq!(parse_header(&b), Err(DecodeError::UnsupportedByteOrder));
    b[5] = 0;
    assert_eq!(parse_header(&b), Err(DecodeError::UnsupportedByteOrder));
}

#[test]
fn ident_and_four_body_bytes_is_truncated() {
    let mut b = ident(2, 1);
    b.extend_from_slice(&[2, 0, 0x3E, 0]);
    assert_eq!(parse_header(&b), Err(DecodeError::TruncatedInput));
}

#[test]
fn short_buffers_are_truncated() {
    assert_eq!(parse_header(&[]), Err(DecodeError::TruncatedInput));
    assert_eq!(parse_header(&[0x7F, b'E', b'L', b'F', 2]), Err(DecodeError::TruncatedInput));
    let b = header64();
    assert_eq!(parse_header(&b[..63]), Err(DecodeError::TruncatedInput));
    let b = header32();
    assert_eq!(parse_header(&b[..51]), Err(DecodeError::TruncatedInput));
}

#[test]
fn decoding_twice_gives_the_same_result() {
    let b = header64();
    assert_eq!(parse_header(&b), parse_header(&b));
    let mut bad = header32();
    bad[4] = 7;
    assert_eq!(parse_header(&bad), parse_header(&bad));
}

#[test]
fn type_codes_map_to_categories() {
    assert_eq!(Type_(0).as_type(), Type::NoFileType);
    assert_eq!(Type_(1).as_type(), Type::Relocatable);
    assert_eq!(Type_(2).as_type(), Type::Executable);
    assert_eq!(Type_(3).as_type(), Type::SharedObject);
    assert_eq!(Type_(4).as_type(), Type::Core);
    assert_eq!(Type_(5).as_type(), Type::ProcessorSpecific(5));
    assert_eq!(Type_(0xFF00).as_type(), Type::ProcessorSpecific(0xFF00));
}

#[test]
fn machine_codes_map_to_architectures() {
    assert_eq!(Machine::from_code(0), Machine::NoMachine);
    assert_eq!(Machine::from_code(0x03), Machine::X86);
    assert_eq!(Machine::from_code(0x3E), Machine::X86_64);
    assert_eq!(Machine::from_code(0xB7), Machine::AArch64);
    assert_eq!(Machine::from_code(0xF3), Machine::Unknown(0xF3));
}

#[test]
fn unknown_codes_decode_without_error() {
    let mut b = header64();
    b[6] = 7;
    b[7] = 0x61;
    b[16] = 0x00;
    b[17] = 0xFE;
    b[18] = 0xF3;
    b[19] = 0x00;
    let h = parse_header(&b).unwrap();
    assert_eq!(h.basic_info.version, Version::Other(7));
    assert_eq!(h.basic_info.os_abi, OsAbi::Unknown(0x61));
    match h.info {
        ElfInfo::H64(i) => {
            assert_eq!(i.type_, Type::ProcessorSpecific(0xFE00));
            assert_eq!(i.machine, Machine::Unknown(0xF3));
        }
        ElfInfo::H32(_) => panic!("expected the 64-bit layout"),
    }
}

#[test]
fn os_abi_and_version_codes() {
    assert_eq!(OsAbi::from_code(0x09), OsAbi::FreeBSD);
    assert_eq!(OsAbi::from_code(0x0D), OsAbi::OpenVMS);
    assert_eq!(OsAbi::from_code(0x05), OsAbi::Unknown(0x05));
    assert_eq!(Version::from_code(1), Version::Current);
    assert_eq!(Version::from_code(0), Version::Other(0));
}

#[test]
fn stages_report_their_errors() {
    assert_eq!(validate_ident(&[0u8; 15]), Err(DecodeError::TruncatedInput));
    assert_eq!(validate_ident(&[0u8; 16]), Err(DecodeError::MalformedHeader));
    assert_eq!(validate_ident(&ident(9, 9)), Ok(()));
    assert_eq!(decode_ident(&ident(9, 1)), Err(DecodeError::UnsupportedClass));
    assert_eq!(decode_ident(&ident(1, 2)), Err(DecodeError::UnsupportedByteOrder));
    let mut b = ident(1, 1);
    for (k, v) in (9..16).zip(1u8..) {
        b[k] = v;
    }
    let i = decode_ident(&b).unwrap();
    assert_eq!(i.padding, [1, 2, 3, 4, 5, 6, 7]);
}

#[test]
fn header_sizes_per_class() {
    assert_eq!(header_len(Class::C32), 52);
    assert_eq!(header_len(Class::C64), 64);
    assert_eq!(IDENT_SIZE + BODY32_SIZE, 52);
    assert_eq!(IDENT_SIZE + BODY64_SIZE, 64);
}

#[test]
fn body32_reads_each_field() {
    let h = decode_body32(&header32());
    assert_eq!(h.entry_point, 0x8000);
    assert_eq!(h.sh_str_index, 11);
}

#[test]
fn little_endian_reads() {
    let b = [0x01u8, 0x02, 0x03, 0x04, 0x05, 0x06, 0x07, 0x08, 0xFF];
    assert_eq!(read_u16_le(&b, 0), 0x0201);
    assert_eq!(read_u16_le(&b, 7), 0xFF08);
    assert_eq!(read_u32_le(&b, 1), 0x0504_0302);
    assert_eq!(read_u64_le(&b, 0), 0x0807_0605_0403_0201);
    assert_eq!(read_u64_le(&b, 1), 0xFF08_0706_0504_0302);
}
