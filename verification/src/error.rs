use vstd::prelude::*;

verus! {

/// One tagged reason why ELF parsing rejected an input.
///
/// Every failure is a deterministic function of the input bytes, so each
/// variant identifies exactly which precondition failed; no variant is a
/// generic "parse failed".
#[derive(Debug, Clone, Copy, PartialEq, Eq)]
pub enum DisasmError {
    /// The four magic bytes at the start of the file do not spell ELF.
    InvalidElfMagic,
    /// The class byte does not declare a 64-bit file.
    InvalidElfClass,
    /// The data-encoding byte does not declare little-endian.
    InvalidEndianness,
    /// No section holds program data with the executable flag set.
    SectionNotFound,
    /// A section header is unreadable, or declares a byte range that does
    /// not fit inside the file.
    InvalidSectionHeader,
    /// The input ends before a required fixed region (the file header or
    /// the section header table) is complete.
    TruncatedHeader,
    /// A fixed-width field read would run past the end of the buffer.
    TruncatedInstruction,
}

impl DisasmError {
    /// A human-readable description of the error, for diagnostics.
    pub fn message(&self) -> (s: &'static str)
        ensures
            s@ == match *self {
                DisasmError::InvalidElfMagic => "invalid ELF magic number"@,
                DisasmError::InvalidElfClass => "only 64-bit ELF files are supported"@,
                DisasmError::InvalidEndianness => "only little-endian ELF files are supported"@,
                DisasmError::SectionNotFound => "no executable section found"@,
                DisasmError::InvalidSectionHeader => "invalid or corrupted section header"@,
                DisasmError::TruncatedHeader => "ELF header is truncated or incomplete"@,
                DisasmError::TruncatedInstruction => "field extends beyond available bytes"@,
            },
    {
        match *self {
            DisasmError::InvalidElfMagic => "invalid ELF magic number",
            DisasmError::InvalidElfClass => "only 64-bit ELF files are supported",
            DisasmError::InvalidEndianness => "only little-endian ELF files are supported",
            DisasmError::SectionNotFound => "no executable section found",
            DisasmError::InvalidSectionHeader => "invalid or corrupted section header",
            DisasmError::TruncatedHeader => "ELF header is truncated or incomplete",
            DisasmError::TruncatedInstruction => "field extends beyond available bytes",
        }
    }
}

} // verus!
