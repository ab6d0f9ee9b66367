//! Locates the executable-code region of a 64-bit little-endian ELF
//! binary: validates the file header, walks the section header table, and
//! returns a zero-copy, bounds-checked view of the first section that
//! holds executable program data. Every offset and count taken from the
//! file is treated as untrusted, so a malformed or adversarial input is
//! rejected with a specific error instead of causing an out-of-bounds
//! read, an arithmetic overflow, or work proportional to a fabricated
//! section count.
use vstd::prelude::*;

pub mod error;
pub mod header;
pub mod section;
pub mod utils;

pub use error::DisasmError;
pub use header::{parse_header, ElfHeader};
pub use section::{find_text_section, parse_single_header, SectionHeader, TextSection};
pub use utils::{read_u16_le, read_u32_le, read_u64_le};

use header::{valid_ident, valid_magic, ELF_CLASS_64, ELF_DATA_2LSB};
use section::{entry_in_bounds, is_exec_entry, is_first_exec_entry, text_section_matches};
use utils::{spec_u16_le, spec_u64_le};

verus! {

/// The section-header-table offset that the file header at the start of
/// `s` declares.
pub open spec fn spec_table_offset(s: Seq<u8>) -> u64 {
    spec_u64_le(s, 40)
}

/// The section count that the file header at the start of `s` declares.
pub open spec fn spec_section_count(s: Seq<u8>) -> u16 {
    spec_u16_le(s, 60)
}

/// The whole pipeline: validates the ELF64 file header of `bytes`, checks
/// that the declared section header table lies inside the buffer, and
/// returns the first executable section as a zero-copy view.
///
/// The first failing stage's error is propagated unchanged: truncation
/// when the input cannot hold the 64-byte header or the declared table,
/// one format-rejection error per violated identification byte, absence
/// when no section qualifies, and an invalid-section error when the
/// winning section declares a byte range outside the buffer.
pub fn parse_elf<'a>(bytes: &'a [u8]) -> (r: Result<TextSection<'a>, DisasmError>)
    ensures
        bytes@.len() < 64 ==> r == Err::<TextSection<'a>, DisasmError>(DisasmError::TruncatedHeader),
        bytes@.len() >= 64 && !valid_magic(bytes@) ==> r == Err::<TextSection<'a>, DisasmError>(
            DisasmError::InvalidElfMagic,
        ),
        bytes@.len() >= 64 && valid_magic(bytes@) && bytes@[4] != ELF_CLASS_64 ==> r == Err::<
            TextSection<'a>,
            DisasmError,
        >(DisasmError::InvalidElfClass),
        bytes@.len() >= 64 && valid_magic(bytes@) && bytes@[4] == ELF_CLASS_64 && bytes@[5]
            != ELF_DATA_2LSB ==> r == Err::<TextSection<'a>, DisasmError>(
            DisasmError::InvalidEndianness,
        ),
        valid_ident(bytes@) && spec_table_offset(bytes@) + spec_section_count(bytes@) * 64
            > bytes@.len() ==> r == Err::<TextSection<'a>, DisasmError>(
            DisasmError::TruncatedHeader,
        ),
        valid_ident(bytes@) && spec_table_offset(bytes@) + spec_section_count(bytes@) * 64
            <= bytes@.len() && (forall|i: int|
            0 <= i < spec_section_count(bytes@) ==> !is_exec_entry(
                bytes@,
                spec_table_offset(bytes@) as int,
                i,
            )) ==> r == Err::<TextSection<'a>, DisasmError>(DisasmError::SectionNotFound),
        forall|i: int|
            valid_ident(bytes@) && spec_table_offset(bytes@) + spec_section_count(bytes@) * 64
                <= bytes@.len() && is_first_exec_entry(
                bytes@,
                spec_table_offset(bytes@) as int,
                spec_section_count(bytes@) as int,
                i,
            ) && !entry_in_bounds(bytes@, spec_table_offset(bytes@) as int, i) ==> r == Err::<
                TextSection<'a>,
                DisasmError,
            >(DisasmError::InvalidSectionHeader),
        forall|i: int|
            valid_ident(bytes@) && spec_table_offset(bytes@) + spec_section_count(bytes@) * 64
                <= bytes@.len() && is_first_exec_entry(
                bytes@,
                spec_table_offset(bytes@) as int,
                spec_section_count(bytes@) as int,
                i,
            ) && entry_in_bounds(bytes@, spec_table_offset(bytes@) as int, i) ==> r is Ok
                && text_section_matches(r->Ok_0, bytes@, spec_table_offset(bytes@) as int, i),
        r is Ok <==> valid_ident(bytes@) && spec_table_offset(bytes@) + spec_section_count(bytes@)
            * 64 <= bytes@.len() && (exists|i: int|
            is_first_exec_entry(
                bytes@,
                spec_table_offset(bytes@) as int,
                spec_section_count(bytes@) as int,
                i,
            ) && entry_in_bounds(bytes@, spec_table_offset(bytes@) as int, i)),
        r is Ok ==> r->Ok_0.offset + r->Ok_0.size <= bytes@.len() && r->Ok_0.data@.len()
            == r->Ok_0.size,
        valid_ident(bytes@) && spec_section_count(bytes@) == 0 && spec_table_offset(bytes@)
            <= bytes@.len() ==> r == Err::<TextSection<'a>, DisasmError>(
            DisasmError::SectionNotFound,
        ),
{
    if bytes.len() < 64 {
        return Err(DisasmError::TruncatedHeader);
    }

    let elf_header = match parse_header(bytes) {
        Ok(h) => h,
        Err(e) => { return Err(e); },
    };

    // Re-validate the section-table span before walking it: the table
    // walk performs the same check, but the entry point stays
    // conservative and rejects an unreadable table up front.
    let len_u64 = bytes.len() as u64;
    let table_bytes = (elf_header.e_shnum as u64) * 64;
    if elf_header.e_shoff > u64::MAX - table_bytes || elf_header.e_shoff + table_bytes > len_u64 {
        return Err(DisasmError::TruncatedHeader);
    }

    find_text_section(bytes, elf_header.e_shoff, elf_header.e_shnum)
}

} // verus!
