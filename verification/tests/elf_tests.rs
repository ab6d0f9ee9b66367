use elf_text::{
    find_text_section, parse_elf, parse_header, parse_single_header, read_u16_le, read_u32_le,
    read_u64_le, DisasmError,
};

fn put_u16(buf: &mut [u8], off: usize, v: u16) {
    buf[off..off + 2].copy_from_slice(&v.to_le_bytes());
}

fn put_u32(buf: &mut [u8], off: usize, v: u32) {
    buf[off..off + 4].copy_from_slice(&v.to_le_bytes());
}

fn put_u64(buf: &mut [u8], off: usize, v: u64) {
    buf[off..off + 8].copy_from_slice(&v.to_le_bytes());
}

/// A well-formed 64-byte ELF64 little-endian file header declaring a
/// section header table at `shoff` with `shnum` entries.
fn make_header(shoff: u64, shnum: u16) -> Vec<u8> {
    let mut b = vec![0u8; 64];
    b[0] = 0x7f;
    b[1] = b'E';
    b[2] = b'L';
    b[3] = b'F';
    b[4] = 0x02; // 64-bit class
    b[5] = 0x01; // little-endian
    put_u16(&mut b, 16, 2); // e_type: executable
    put_u16(&mut b, 18, 0x3e); // e_machine: x86-64
    put_u32(&mut b, 20, 1); // e_version
    put_u64(&mut b, 24, 0x401000); // e_entry
    put_u64(&mut b, 40, shoff); // e_shoff
    put_u16(&mut b, 52, 64); // e_ehsize
    put_u16(&mut b, 58, 64); // e_shentsize
    put_u16(&mut b, 60, shnum); // e_shnum
    b
}

/// One 64-byte ELF64 section header record.
fn make_section_entry(sh_type: u32, sh_flags: u64, sh_addr: u64, sh_offset: u64, sh_size: u64) -> Vec<u8> {
    let mut e = vec![0u8; 64];
    put_u32(&mut e, 0, 7); // sh_name (string-table index; unused here)
    put_u32(&mut e, 4, sh_type);
    put_u64(&mut e, 8, sh_flags);
    put_u64(&mut e, 16, sh_addr);
    put_u64(&mut e, 24, sh_offset);
    put_u64(&mut e, 32, sh_size);
    put_u64(&mut e, 48, 16); // sh_addralign
    e
}

/// A whole synthetic file: header, then the given section entries right
/// after it, then `tail` bytes of section contents.
fn make_file(entries: &[Vec<u8>], tail: &[u8]) -> Vec<u8> {
    let mut b = make_header(64, entries.len() as u16);
    for e in entries {
        b.extend_from_slice(e);
    }
    b.extend_from_slice(tail);
    b
}

const SHT_PROGBITS: u32 = 1;
const SHT_NOBITS: u32 = 8;
const SHF_ALLOC: u64 = 0x2;
const SHF_EXECINSTR: u64 = 0x4;

// --- field reader ---

#[test]
fn read_u16_exact_value() {
    let data = [0x34u8, 0x12, 0xff];
    assert_eq!(read_u16_le(&data, 0), Ok(0x1234));
    assert_eq!(read_u16_le(&data, 1), Ok(0xff12));
}

#[test]
fn read_u32_exact_value() {
    let data = [0x78u8, 0x56, 0x34, 0x12];
    assert_eq!(read_u32_le(&data, 0), Ok(0x12345678));
}

#[test]
fn read_u64_exact_value() {
    let data = [0xefu8, 0xcd, 0xab, 0x89, 0x67, 0x45, 0x23, 0x01];
    assert_eq!(read_u64_le(&data, 0), Ok(0x0123456789abcdef));
}

#[test]
fn read_at_exact_end_succeeds() {
    let data = [1u8, 2, 3, 4, 5, 6, 7, 8];
    assert_eq!(read_u16_le(&data, 6), Ok(0x0807));
    assert_eq!(read_u32_le(&data, 4), Ok(0x08070605));
    assert_eq!(read_u64_le(&data, 0), Ok(0x0807060504030201));
}

#[test]
fn read_past_end_fails() {
    let data = [1u8, 2, 3, 4, 5, 6, 7, 8];
    assert_eq!(read_u16_le(&data, 7), Err(DisasmError::TruncatedInstruction));
    assert_eq!(read_u32_le(&data, 5), Err(DisasmError::TruncatedInstruction));
    assert_eq!(read_u64_le(&data, 1), Err(DisasmError::TruncatedInstruction));
}

#[test]
fn read_huge_offset_fails_without_panic() {
    let data = [1u8, 2, 3, 4];
    assert_eq!(read_u16_le(&data, usize::MAX), Err(DisasmError::TruncatedInstruction));
    assert_eq!(read_u32_le(&data, usize::MAX - 1), Err(DisasmError::TruncatedInstruction));
    assert_eq!(read_u64_le(&data, usize::MAX - 7), Err(DisasmError::TruncatedInstruction));
}

#[test]
fn read_from_empty_fails() {
    let data: [u8; 0] = [];
    assert_eq!(read_u16_le(&data, 0), Err(DisasmError::TruncatedInstruction));
    assert_eq!(read_u32_le(&data, 0), Err(DisasmError::TruncatedInstruction));
    assert_eq!(read_u64_le(&data, 0), Err(DisasmError::TruncatedInstruction));
}

// --- header parser ---

#[test]
fn header_too_short_is_truncated() {
    assert!(matches!(parse_header(&[]), Err(DisasmError::TruncatedHeader)));
    assert!(matches!(parse_header(&[0x7f]), Err(DisasmError::TruncatedHeader)));
    let b63 = make_header(0, 0);
    assert!(matches!(parse_header(&b63[..63]), Err(DisasmError::TruncatedHeader)));
    assert!(matches!(parse_elf(&b63[..63]), Err(DisasmError::TruncatedHeader)));
}

#[test]
fn each_magic_byte_checked_alone() {
    for pos in 0..4 {
        let mut b = make_header(0, 0);
        b[pos] ^= 0xff;
        assert!(
            matches!(parse_header(&b), Err(DisasmError::InvalidElfMagic)),
            "corrupt magic byte {pos} must be rejected"
        );
        assert!(matches!(parse_elf(&b), Err(DisasmError::InvalidElfMagic)));
    }
}

#[test]
fn wrong_class_rejected() {
    let mut b = make_header(0, 0);
    b[4] = 0x01; // 32-bit class
    assert!(matches!(parse_header(&b), Err(DisasmError::InvalidElfClass)));
    assert!(matches!(parse_elf(&b), Err(DisasmError::InvalidElfClass)));
}

#[test]
fn wrong_endianness_rejected() {
    let mut b = make_header(0, 0);
    b[5] = 0x02; // big-endian
    assert!(matches!(parse_header(&b), Err(DisasmError::InvalidEndianness)));
    assert!(matches!(parse_elf(&b), Err(DisasmError::InvalidEndianness)));
}

#[test]
fn header_fields_decoded_exactly() {
    let b = make_header(0x1234, 3);
    let h = parse_header(&b).unwrap();
    assert_eq!(&h.e_ident[..], &b[..16]);
    assert_eq!(h.e_type, 2);
    assert_eq!(h.e_machine, 0x3e);
    assert_eq!(h.e_version, 1);
    assert_eq!(h.e_entry, 0x401000);
    assert_eq!(h.e_phoff, 0);
    assert_eq!(h.e_shoff, 0x1234);
    assert_eq!(h.e_flags, 0);
    assert_eq!(h.e_ehsize, 64);
    assert_eq!(h.e_phentsize, 0);
    assert_eq!(h.e_phnum, 0);
    assert_eq!(h.e_shentsize, 64);
    assert_eq!(h.e_shnum, 3);
    assert_eq!(h.e_shstrndx, 0);
}

// --- section header parser ---

#[test]
fn section_header_decoded_exactly() {
    let mut b = vec![0u8; 32];
    b.extend_from_slice(&make_section_entry(SHT_PROGBITS, SHF_ALLOC | SHF_EXECINSTR, 0x401000, 0x200, 0x40));
    let sh = parse_single_header(&b, 32).unwrap();
    assert_eq!(sh.sh_name, 7);
    assert_eq!(sh.sh_type, SHT_PROGBITS);
    assert_eq!(sh.sh_flags, SHF_ALLOC | SHF_EXECINSTR);
    assert_eq!(sh.sh_addr, 0x401000);
    assert_eq!(sh.sh_offset, 0x200);
    assert_eq!(sh.sh_size, 0x40);
    assert_eq!(sh.sh_link, 0);
    assert_eq!(sh.sh_info, 0);
    assert_eq!(sh.sh_addralign, 16);
    assert_eq!(sh.sh_entsize, 0);
}

#[test]
fn section_header_truncated_record_rejected() {
    let b = vec![0u8; 100];
    assert!(matches!(parse_single_header(&b, 37), Err(DisasmError::InvalidSectionHeader)));
    assert!(matches!(parse_single_header(&b, usize::MAX), Err(DisasmError::InvalidSectionHeader)));
    assert!(parse_single_header(&b, 36).is_ok());
}

// --- executable section locator ---

#[test]
fn zero_sections_is_absence() {
    let b = make_header(64, 0);
    assert!(matches!(parse_elf(&b), Err(DisasmError::SectionNotFound)));
    assert!(matches!(find_text_section(&b, 64, 0), Err(DisasmError::SectionNotFound)));
}

#[test]
fn table_span_past_end_is_truncated() {
    // Header declares one section entry, but the file ends right after
    // the header.
    let b = make_header(64, 1);
    assert!(matches!(parse_elf(&b), Err(DisasmError::TruncatedHeader)));
    assert!(matches!(find_text_section(&b, 64, 1), Err(DisasmError::TruncatedHeader)));
}

#[test]
fn huge_table_offset_is_truncated() {
    let mut b = make_header(u64::MAX - 32, 2);
    b.extend_from_slice(&vec![0u8; 256]);
    assert!(matches!(parse_elf(&b), Err(DisasmError::TruncatedHeader)));
}

#[test]
fn single_executable_section_found() {
    let code = [0x55u8, 0x48, 0x89, 0xe5, 0x5d, 0xc3];
    // Layout: 64-byte header, two 64-byte entries, then the code at 192.
    let entries = vec![
        make_section_entry(SHT_PROGBITS, SHF_ALLOC, 0x400000, 0, 64), // data, not executable
        make_section_entry(SHT_PROGBITS, SHF_ALLOC | SHF_EXECINSTR, 0x401000, 192, code.len() as u64),
    ];
    let b = make_file(&entries, &code);
    let t = parse_elf(&b).unwrap();
    assert_eq!(t.offset, 192);
    assert_eq!(t.size, code.len() as u64);
    assert_eq!(t.virtual_addr, 0x401000);
    assert_eq!(t.data, &b[192..192 + code.len()]);
}

#[test]
fn non_progbits_with_exec_flag_skipped() {
    // A no-file-bits section with the executable flag set must not be
    // chosen: the winner needs both program-data type and the flag.
    let code = [0x90u8, 0xc3];
    let entries = vec![
        make_section_entry(SHT_NOBITS, SHF_ALLOC | SHF_EXECINSTR, 0x402000, 500, 0x1000),
        make_section_entry(SHT_PROGBITS, SHF_ALLOC | SHF_EXECINSTR, 0x401000, 192, 2),
    ];
    let b = make_file(&entries, &code);
    let t = parse_elf(&b).unwrap();
    assert_eq!(t.offset, 192);
    assert_eq!(t.virtual_addr, 0x401000);
    assert_eq!(t.data, &code[..]);
}

#[test]
fn earlier_of_two_qualifying_sections_wins() {
    let tail = [0xaau8, 0xbb, 0xcc, 0xdd];
    // Two qualifying sections; the one at the smaller table index points
    // at bytes 192..194, the later one at 194..196.
    let entries = vec![
        make_section_entry(SHT_PROGBITS, SHF_EXECINSTR, 0x1000, 192, 2),
        make_section_entry(SHT_PROGBITS, SHF_EXECINSTR, 0x2000, 194, 2),
    ];
    let b = make_file(&entries, &tail);
    let t1 = parse_elf(&b).unwrap();
    assert_eq!(t1.offset, 192);
    assert_eq!(t1.virtual_addr, 0x1000);
    assert_eq!(t1.data, &[0xaa, 0xbb]);
    // Deterministic: a second run gives the identical result.
    let t2 = parse_elf(&b).unwrap();
    assert_eq!(t2.offset, t1.offset);
    assert_eq!(t2.size, t1.size);
    assert_eq!(t2.virtual_addr, t1.virtual_addr);
    assert_eq!(t2.data, t1.data);
}

#[test]
fn qualifying_section_past_end_is_bounds_violation() {
    // The section table is readable, but the winning entry claims bytes
    // past the end of the file: rejected, not truncated output.
    let entries = vec![
        make_section_entry(SHT_PROGBITS, SHF_EXECINSTR, 0x1000, 120, 100),
    ];
    let b = make_file(&entries, &[0u8; 8]);
    assert!(matches!(parse_elf(&b), Err(DisasmError::InvalidSectionHeader)));
}

#[test]
fn qualifying_section_with_overflowing_range_rejected() {
    let entries = vec![
        make_section_entry(SHT_PROGBITS, SHF_EXECINSTR, 0x1000, u64::MAX - 1, 16),
    ];
    let b = make_file(&entries, &[0u8; 8]);
    assert!(matches!(parse_elf(&b), Err(DisasmError::InvalidSectionHeader)));
}

#[test]
fn round_trip_reproduces_embedded_bytes() {
    // Hand-encode a header and one executable section holding known
    // instruction bytes; the pipeline must hand back exactly those bytes.
    let code = [0x48u8, 0x31, 0xc0, 0x48, 0xff, 0xc0, 0xc3, 0x90];
    let entries = vec![
        make_section_entry(SHT_PROGBITS, SHF_ALLOC | SHF_EXECINSTR, 0xdeadbeef, 128, code.len() as u64),
    ];
    let b = make_file(&entries, &code);
    let t = parse_elf(&b).unwrap();
    assert_eq!(t.data, &code[..]);
    assert_eq!(t.size as usize, code.len());
    assert_eq!(t.virtual_addr, 0xdeadbeef);
}

#[test]
fn error_messages_are_specific() {
    assert_eq!(DisasmError::TruncatedHeader.message(), "ELF header is truncated or incomplete");
    assert_eq!(DisasmError::SectionNotFound.message(), "no executable section found");
    assert_eq!(DisasmError::InvalidElfMagic.message(), "invalid ELF magic number");
}
