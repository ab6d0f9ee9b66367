use vstd::prelude::*;
use crate::error::DisasmError;
use crate::utils::{read_u16_le, read_u32_le, read_u64_le, spec_u16_le, spec_u32_le, spec_u64_le};

verus! {

// ELF64 identification constants.
pub const ELF_MAGIC_0: u8 = 0x7f;
pub const ELF_MAGIC_1: u8 = 0x45;
pub const ELF_MAGIC_2: u8 = 0x4c;
pub const ELF_MAGIC_3: u8 = 0x46;

/// Class byte value declaring a 64-bit file.
pub const ELF_CLASS_64: u8 = 0x02;
/// Data-encoding byte value declaring little-endian fields.
pub const ELF_DATA_2LSB: u8 = 0x01;

/// The file header occupies the first 64 bytes of an ELF64 file.
pub const ELF_HEADER_SIZE: usize = 64;
/// The identification array occupies the first 16 bytes of the header.
pub const E_IDENT_SIZE: usize = 16;

/// Defensive upper bound on the declared section count; a file claiming
/// more sections is rejected before any section data is touched.
pub const MAX_REASONABLE_SECTIONS: u16 = 65535;

/// The first four bytes of `s` spell the fixed ELF magic sequence.
pub open spec fn valid_magic(s: Seq<u8>) -> bool {
    &&& s[0] == ELF_MAGIC_0
    &&& s[1] == ELF_MAGIC_1
    &&& s[2] == ELF_MAGIC_2
    &&& s[3] == ELF_MAGIC_3
}

/// `s` is long enough to hold the file header, carries the ELF magic, and
/// declares a 64-bit little-endian file: exactly the inputs on which
/// `parse_header` succeeds.
pub open spec fn valid_ident(s: Seq<u8>) -> bool {
    &&& s.len() >= ELF_HEADER_SIZE
    &&& valid_magic(s)
    &&& s[4] == ELF_CLASS_64
    &&& s[5] == ELF_DATA_2LSB
}

/// The ELF64 file header: the fixed 64-byte record at the start of the
/// file, decoded field by field at the offsets the format prescribes.
pub struct ElfHeader {
    pub e_ident: [u8; 16],
    pub e_type: u16,
    pub e_machine: u16,
    pub e_version: u32,
    pub e_entry: u64,
    pub e_phoff: u64,
    pub e_shoff: u64,
    pub e_flags: u32,
    pub e_ehsize: u16,
    pub e_phentsize: u16,
    pub e_phnum: u16,
    pub e_shentsize: u16,
    pub e_shnum: u16,
    pub e_shstrndx: u16,
}

impl ElfHeader {
    /// Well-formedness: a header is only ever constructed from an input
    /// whose identification bytes passed validation, so its own copy of
    /// them carries the magic, the 64-bit class and the little-endian
    /// encoding.
    pub open spec fn wf(self) -> bool {
        &&& self.e_ident[0] == ELF_MAGIC_0
        &&& self.e_ident[1] == ELF_MAGIC_1
        &&& self.e_ident[2] == ELF_MAGIC_2
        &&& self.e_ident[3] == ELF_MAGIC_3
        &&& self.e_ident[4] == ELF_CLASS_64
        &&& self.e_ident[5] == ELF_DATA_2LSB
    }
}

/// Every field of `h` equals the little-endian decoding of `s` at the
/// offset the ELF64 layout assigns to that field.
pub open spec fn header_fields_match(h: ElfHeader, s: Seq<u8>) -> bool {
    &&& h.e_ident@ == s.subrange(0, 16)
    &&& h.e_type == spec_u16_le(s, 16)
    &&& h.e_machine == spec_u16_le(s, 18)
    &&& h.e_version == spec_u32_le(s, 20)
    &&& h.e_entry == spec_u64_le(s, 24)
    &&& h.e_phoff == spec_u64_le(s, 32)
    &&& h.e_shoff == spec_u64_le(s, 40)
    &&& h.e_flags == spec_u32_le(s, 48)
    &&& h.e_ehsize == spec_u16_le(s, 52)
    &&& h.e_phentsize == spec_u16_le(s, 54)
    &&& h.e_phnum == spec_u16_le(s, 56)
    &&& h.e_shentsize == spec_u16_le(s, 58)
    &&& h.e_shnum == spec_u16_le(s, 60)
    &&& h.e_shstrndx == spec_u16_le(s, 62)
}

/// Validates and decodes the 64-byte ELF64 file header at the start of
/// `bytes`.
///
/// The checks run in a fixed order, each with its own error: enough bytes
/// for the header, the four magic bytes (individually, so a partial match
/// is still rejected), the 64-bit class byte, the little-endian encoding
/// byte. On success every header field equals the little-endian value of
/// the bytes at its fixed offset. A declared section count above the
/// defensive maximum would be rejected as an invalid section header, but
/// the count is decoded from two bytes and therefore can never exceed it.
pub fn parse_header(bytes: &[u8]) -> (r: Result<ElfHeader, DisasmError>)
    ensures
        bytes@.len() < 64 ==> r == Err::<ElfHeader, DisasmError>(DisasmError::TruncatedHeader),
        bytes@.len() >= 64 && !valid_magic(bytes@) ==> r == Err::<ElfHeader, DisasmError>(
            DisasmError::InvalidElfMagic,
        ),
        bytes@.len() >= 64 && valid_magic(bytes@) && bytes@[4] != ELF_CLASS_64 ==> r == Err::<
            ElfHeader,
            DisasmError,
        >(DisasmError::InvalidElfClass),
        bytes@.len() >= 64 && valid_magic(bytes@) && bytes@[4] == ELF_CLASS_64 && bytes@[5]
            != ELF_DATA_2LSB ==> r == Err::<ElfHeader, DisasmError>(DisasmError::InvalidEndianness),
        valid_ident(bytes@) ==> r is Ok && header_fields_match(r->Ok_0, bytes@) && r->Ok_0.wf(),
        r is Ok <==> valid_ident(bytes@),
{
    if bytes.len() < ELF_HEADER_SIZE {
        return Err(DisasmError::TruncatedHeader);
    }

    if bytes[0] != ELF_MAGIC_0 {
        return Err(DisasmError::InvalidElfMagic);
    }
    if bytes[1] != ELF_MAGIC_1 {
        return Err(DisasmError::InvalidElfMagic);
    }
    if bytes[2] != ELF_MAGIC_2 {
        return Err(DisasmError::InvalidElfMagic);
    }
    if bytes[3] != ELF_MAGIC_3 {
        return Err(DisasmError::InvalidElfMagic);
    }

    // Only 64-bit files are supported.
    if bytes[4] != ELF_CLASS_64 {
        return Err(DisasmError::InvalidElfClass);
    }

    // Only little-endian files are supported.
    if bytes[5] != ELF_DATA_2LSB {
        return Err(DisasmError::InvalidEndianness);
    }

    // Copy out the 16-byte identification array.
    let e_ident: [u8; 16] = [
        bytes[0],
        bytes[1],
        bytes[2],
        bytes[3],
        bytes[4],
        bytes[5],
        bytes[6],
        bytes[7],
        bytes[8],
        bytes[9],
        bytes[10],
        bytes[11],
        bytes[12],
        bytes[13],
        bytes[14],
        bytes[15],
    ];
    proof {
        assert(e_ident@ =~= bytes@.subrange(0, 16));
    }

    // Decode the remaining fields at their fixed offsets.
    let e_type = match read_u16_le(bytes, 16) {
        Ok(v) => v,
        Err(e) => { return Err(e); },
    };
    let e_machine = match read_u16_le(bytes, 18) {
        Ok(v) => v,
        Err(e) => { return Err(e); },
    };
    let e_version = match read_u32_le(bytes, 20) {
        Ok(v) => v,
        Err(e) => { return Err(e); },
    };
    let e_entry = match read_u64_le(bytes, 24) {
        Ok(v) => v,
        Err(e) => { return Err(e); },
    };
    let e_phoff = match read_u64_le(bytes, 32) {
        Ok(v) => v,
        Err(e) => { return Err(e); },
    };
    let e_shoff = match read_u64_le(bytes, 40) {
        Ok(v) => v,
        Err(e) => { return Err(e); },
    };
    let e_flags = match read_u32_le(bytes, 48) {
        Ok(v) => v,
        Err(e) => { return Err(e); },
    };
    let e_ehsize = match read_u16_le(bytes, 52) {
        Ok(v) => v,
        Err(e) => { return Err(e); },
    };
    let e_phentsize = match read_u16_le(bytes, 54) {
        Ok(v) => v,
        Err(e) => { return Err(e); },
    };
    let e_phnum = match read_u16_le(bytes, 56) {
        Ok(v) => v,
        Err(e) => { return Err(e); },
    };
    let e_shentsize = match read_u16_le(bytes, 58) {
        Ok(v) => v,
        Err(e) => { return Err(e); },
    };
    let e_shnum = match read_u16_le(bytes, 60) {
        Ok(v) => v,
        Err(e) => { return Err(e); },
    };
    let e_shstrndx = match read_u16_le(bytes, 62) {
        Ok(v) => v,
        Err(e) => { return Err(e); },
    };

    // Defensive bound on the section count, so a hostile file cannot make
    // later stages do work proportional to an absurd declared count. The
    // count comes out of a two-byte field, so it already fits the bound.
    if e_shnum > MAX_REASONABLE_SECTIONS {
        return Err(DisasmError::InvalidSectionHeader);
    }

    Ok(
        ElfHeader {
            e_ident,
            e_type,
            e_machine,
            e_version,
            e_entry,
            e_phoff,
            e_shoff,
            e_flags,
            e_ehsize,
            e_phentsize,
            e_phnum,
            e_shentsize,
            e_shnum,
            e_shstrndx,
        },
    )
}

} // verus!
