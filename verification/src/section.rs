use vstd::prelude::*;
use vstd::slice::slice_subrange;
use crate::error::DisasmError;
use crate::utils::{read_u32_le, read_u64_le, spec_u32_le, spec_u64_le};

verus! {

/// Each ELF64 section header record occupies exactly 64 bytes.
pub const SECTION_HEADER_SIZE: usize = 64;

// Section types (sh_type field values).
pub const SHT_NULL: u32 = 0;
pub const SHT_PROGBITS: u32 = 1;
pub const SHT_SYMTAB: u32 = 2;
pub const SHT_STRTAB: u32 = 3;
pub const SHT_NOBITS: u32 = 8;

// Section attribute flags (sh_flags field bits).
pub const SHF_WRITE: u64 = 0x1;
pub const SHF_ALLOC: u64 = 0x2;
pub const SHF_EXECINSTR: u64 = 0x4;

/// One decoded ELF64 section header record: metadata about one named
/// region of the file. Ephemeral — created on demand while scanning the
/// section header table.
pub struct SectionHeader {
    pub sh_name: u32,
    pub sh_type: u32,
    pub sh_flags: u64,
    pub sh_addr: u64,
    pub sh_offset: u64,
    pub sh_size: u64,
    pub sh_link: u32,
    pub sh_info: u32,
    pub sh_addralign: u64,
    pub sh_entsize: u64,
}

/// The located executable section: its file offset, size and mapped
/// virtual address, plus a borrowed, bounds-checked view of exactly
/// `size` bytes starting at `offset` within the original buffer. The view
/// never outlives the buffer it borrows from.
pub struct TextSection<'a> {
    pub offset: u64,
    pub size: u64,
    pub virtual_addr: u64,
    pub data: &'a [u8],
}

/// Every field of `sh` equals the little-endian decoding of `s` at
/// `off` plus the sub-offset the ELF64 layout assigns to that field.
pub open spec fn section_fields_match(sh: SectionHeader, s: Seq<u8>, off: int) -> bool {
    &&& sh.sh_name == spec_u32_le(s, off)
    &&& sh.sh_type == spec_u32_le(s, off + 4)
    &&& sh.sh_flags == spec_u64_le(s, off + 8)
    &&& sh.sh_addr == spec_u64_le(s, off + 16)
    &&& sh.sh_offset == spec_u64_le(s, off + 24)
    &&& sh.sh_size == spec_u64_le(s, off + 32)
    &&& sh.sh_link == spec_u32_le(s, off + 40)
    &&& sh.sh_info == spec_u32_le(s, off + 44)
    &&& sh.sh_addralign == spec_u64_le(s, off + 48)
    &&& sh.sh_entsize == spec_u64_le(s, off + 56)
}

/// Decodes the 64-byte section header record of `bytes` starting at
/// `offset`.
///
/// Fails, without reading anything, whenever the record would run past
/// the end of the buffer; on success every field equals the little-endian
/// value of the bytes at its fixed sub-offset.
pub fn parse_single_header(bytes: &[u8], offset: usize) -> (r: Result<SectionHeader, DisasmError>)
    ensures
        offset + 64 <= bytes@.len() ==> r is Ok && section_fields_match(
            r->Ok_0,
            bytes@,
            offset as int,
        ),
        offset + 64 > bytes@.len() ==> r == Err::<SectionHeader, DisasmError>(
            DisasmError::InvalidSectionHeader,
        ),
{
    if bytes.len() < SECTION_HEADER_SIZE || offset > bytes.len() - SECTION_HEADER_SIZE {
        return Err(DisasmError::InvalidSectionHeader);
    }

    let sh_name = match read_u32_le(bytes, offset) {
        Ok(v) => v,
        Err(e) => { return Err(e); },
    };
    let sh_type = match read_u32_le(bytes, offset + 4) {
        Ok(v) => v,
        Err(e) => { return Err(e); },
    };
    let sh_flags = match read_u64_le(bytes, offset + 8) {
        Ok(v) => v,
        Err(e) => { return Err(e); },
    };
    let sh_addr = match read_u64_le(bytes, offset + 16) {
        Ok(v) => v,
        Err(e) => { return Err(e); },
    };
    let sh_offset = match read_u64_le(bytes, offset + 24) {
        Ok(v) => v,
        Err(e) => { return Err(e); },
    };
    let sh_size = match read_u64_le(bytes, offset + 32) {
        Ok(v) => v,
        Err(e) => { return Err(e); },
    };
    let sh_link = match read_u32_le(bytes, offset + 40) {
        Ok(v) => v,
        Err(e) => { return Err(e); },
    };
    let sh_info = match read_u32_le(bytes, offset + 44) {
        Ok(v) => v,
        Err(e) => { return Err(e); },
    };
    let sh_addralign = match read_u64_le(bytes, offset + 48) {
        Ok(v) => v,
        Err(e) => { return Err(e); },
    };
    let sh_entsize = match read_u64_le(bytes, offset + 56) {
        Ok(v) => v,
        Err(e) => { return Err(e); },
    };

    Ok(
        SectionHeader {
            sh_name,
            sh_type,
            sh_flags,
            sh_addr,
            sh_offset,
            sh_size,
            sh_link,
            sh_info,
            sh_addralign,
            sh_entsize,
        },
    )
}

/// The byte offset of table entry `i` in a section header table that
/// starts at `table_off`.
pub open spec fn entry_off(table_off: int, i: int) -> int {
    table_off + 64 * i
}

/// Table entry `i` describes executable code: its type is program-data
/// (real file bytes, not no-file-bits) and its flags include
/// executable-instructions.
pub open spec fn is_exec_entry(s: Seq<u8>, table_off: int, i: int) -> bool {
    &&& spec_u32_le(s, entry_off(table_off, i) + 4) == SHT_PROGBITS
    &&& spec_u64_le(s, entry_off(table_off, i) + 8) & SHF_EXECINSTR != 0
}

/// Table entry `i` is the first of the `count` entries that describes
/// executable code: it qualifies and no entry at a smaller index does.
pub open spec fn is_first_exec_entry(s: Seq<u8>, table_off: int, count: int, i: int) -> bool {
    &&& 0 <= i < count
    &&& is_exec_entry(s, table_off, i)
    &&& forall|j: int| 0 <= j < i ==> !is_exec_entry(s, table_off, j)
}

/// The byte range that table entry `i` declares — its file offset plus
/// its size, added without truncation — lies inside the buffer.
pub open spec fn entry_in_bounds(s: Seq<u8>, table_off: int, i: int) -> bool {
    spec_u64_le(s, entry_off(table_off, i) + 24) + spec_u64_le(s, entry_off(table_off, i) + 32)
        <= s.len()
}

/// `t` is the executable section that table entry `i` describes: its
/// offset, size and virtual address are the entry's decoded fields, and
/// its data is exactly the declared sub-range of the buffer.
pub open spec fn text_section_matches(t: TextSection, s: Seq<u8>, table_off: int, i: int) -> bool {
    &&& t.offset == spec_u64_le(s, entry_off(table_off, i) + 24)
    &&& t.size == spec_u64_le(s, entry_off(table_off, i) + 32)
    &&& t.virtual_addr == spec_u64_le(s, entry_off(table_off, i) + 16)
    &&& t.data@ == s.subrange(t.offset as int, t.offset + t.size)
}

/// At most one table index is the first executable entry, so the
/// locator's selection is deterministic: two parses of the same buffer
/// pick the same section.
pub proof fn lemma_first_exec_entry_unique(
    s: Seq<u8>,
    table_off: int,
    count: int,
    i: int,
    j: int,
)
    requires
        is_first_exec_entry(s, table_off, count, i),
        is_first_exec_entry(s, table_off, count, j),
    ensures
        i == j,
{
    if i < j {
        assert(!is_exec_entry(s, table_off, i));
    } else if j < i {
        assert(!is_exec_entry(s, table_off, j));
    }
}

/// Selection is deterministic: two located sections that each satisfy
/// the locator's contract for the same buffer and table agree on every
/// field, offset, size, virtual address and data alike, so running the
/// locator twice on one input yields the identical result.
pub proof fn lemma_locator_deterministic<'a>(
    s: Seq<u8>,
    table_off: int,
    count: int,
    t1: TextSection<'a>,
    t2: TextSection<'a>,
    i1: int,
    i2: int,
)
    requires
        is_first_exec_entry(s, table_off, count, i1),
        is_first_exec_entry(s, table_off, count, i2),
        text_section_matches(t1, s, table_off, i1),
        text_section_matches(t2, s, table_off, i2),
    ensures
        t1.offset == t2.offset,
        t1.size == t2.size,
        t1.virtual_addr == t2.virtual_addr,
        t1.data@ == t2.data@,
{
    lemma_first_exec_entry_unique(s, table_off, count, i1, i2);
}

/// Walks the section header table of `bytes` — `section_header_count`
/// 64-byte records starting at `section_header_offset` — and returns the
/// first section whose type is program-data and whose flags include
/// executable-instructions, as a zero-copy view into `bytes`.
///
/// Fails with a truncation error when the table itself runs past the end
/// of the buffer, with an absence error when no entry qualifies, and with
/// an invalid-section error when the winning entry declares a byte range
/// that does not fit inside the buffer.
#[verifier::loop_isolation(false)]
pub fn find_text_section<'a>(
    bytes: &'a [u8],
    section_header_offset: u64,
    section_header_count: u16,
) -> (r: Result<TextSection<'a>, DisasmError>)
    ensures
        section_header_offset + section_header_count * 64 > bytes@.len() ==> r == Err::<
            TextSection<'a>,
            DisasmError,
        >(DisasmError::TruncatedHeader),
        section_header_offset + section_header_count * 64 <= bytes@.len() && (forall|i: int|
            0 <= i < section_header_count ==> !is_exec_entry(
                bytes@,
                section_header_offset as int,
                i,
            )) ==> r == Err::<TextSection<'a>, DisasmError>(DisasmError::SectionNotFound),
        forall|i: int|
            section_header_offset + section_header_count * 64 <= bytes@.len()
                && is_first_exec_entry(
                bytes@,
                section_header_offset as int,
                section_header_count as int,
                i,
            ) && !entry_in_bounds(bytes@, section_header_offset as int, i) ==> r == Err::<
                TextSection<'a>,
                DisasmError,
            >(DisasmError::InvalidSectionHeader),
        forall|i: int|
            section_header_offset + section_header_count * 64 <= bytes@.len()
                && is_first_exec_entry(
                bytes@,
                section_header_offset as int,
                section_header_count as int,
                i,
            ) && entry_in_bounds(bytes@, section_header_offset as int, i) ==> r is Ok
                && text_section_matches(r->Ok_0, bytes@, section_header_offset as int, i),
        r is Ok <==> section_header_offset + section_header_count * 64 <= bytes@.len() && (exists|
            i: int,
        |
            is_first_exec_entry(
                bytes@,
                section_header_offset as int,
                section_header_count as int,
                i,
            ) && entry_in_bounds(bytes@, section_header_offset as int, i)),
        r is Ok ==> r->Ok_0.offset + r->Ok_0.size <= bytes@.len() && r->Ok_0.data@.len()
            == r->Ok_0.size,
{
    let len_u64 = bytes.len() as u64;
    let table_bytes = (section_header_count as u64) * 64;
    if section_header_offset > u64::MAX - table_bytes || section_header_offset + table_bytes
        > len_u64 {
        return Err(DisasmError::TruncatedHeader);
    }

    let mut i: u16 = 0;
    while i < section_header_count
        invariant
            i <= section_header_count,
            forall|j: int|
                0 <= j < i ==> !is_exec_entry(bytes@, section_header_offset as int, j),
        decreases section_header_count - i,
    {
        let off_u64 = section_header_offset + (i as u64) * 64;
        let off = off_u64 as usize;
        let sh = match parse_single_header(bytes, off) {
            Ok(sh) => sh,
            Err(e) => { return Err(e); },
        };
        if sh.sh_type == SHT_PROGBITS && sh.sh_flags & SHF_EXECINSTR != 0 {
            let ghost first = i as int;
            assert(is_first_exec_entry(
                bytes@,
                section_header_offset as int,
                section_header_count as int,
                first,
            ));
            // The chosen entry's declared byte range must itself lie
            // inside the buffer before it may be sliced.
            if sh.sh_offset > u64::MAX - sh.sh_size || sh.sh_offset + sh.sh_size > len_u64 {
                proof {
                    assert forall|k: int|
                        is_first_exec_entry(
                            bytes@,
                            section_header_offset as int,
                            section_header_count as int,
                            k,
                        ) implies k == first by {
                        lemma_first_exec_entry_unique(
                            bytes@,
                            section_header_offset as int,
                            section_header_count as int,
                            k,
                            first,
                        );
                    }
                }
                return Err(DisasmError::InvalidSectionHeader);
            }
            let start = sh.sh_offset as usize;
            let end = (sh.sh_offset + sh.sh_size) as usize;
            let data = slice_subrange(bytes, start, end);
            proof {
                assert(entry_in_bounds(bytes@, section_header_offset as int, first));
                assert forall|k: int|
                    is_first_exec_entry(
                        bytes@,
                        section_header_offset as int,
                        section_header_count as int,
                        k,
                    ) implies k == first by {
                    lemma_first_exec_entry_unique(
                        bytes@,
                        section_header_offset as int,
                        section_header_count as int,
                        k,
                        first,
                    );
                }
            }
            return Ok(
                TextSection {
                    offset: sh.sh_offset,
                    size: sh.sh_size,
                    virtual_addr: sh.sh_addr,
                    data,
                },
            );
        }
        i = i + 1;
    }
    Err(DisasmError::SectionNotFound)
}

} // verus!
