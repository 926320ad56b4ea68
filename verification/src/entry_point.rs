use vstd::prelude::*;

use crate::bytes::{checksum_ok, checksum_over, le16, le32, le64, read_le16, read_le32, read_le64};
use crate::error::Error;

verus! {

/// Fixed size of the legacy (32-bit) entry-point header.
pub const HEADER32_LEN: usize = 31;

/// Fixed size of the extended (64-bit) entry-point header.
pub const HEADER64_LEN: usize = 24;

/// A parsed legacy SMBIOS entry point ("_SM_" anchor).
///
/// The table address and length are kept as 32-bit unsigned values, exactly
/// as the header stores them; widening to 64 bits is always zero-extension.
#[derive(Clone, Copy, Debug, PartialEq, Eq, Structural)]
pub struct EntryPoint32 {
    pub major: u8,
    pub minor: u8,
    pub table_length: u32,
    pub table_address: u32,
    pub structure_count: u16,
}

/// A parsed extended SMBIOS entry point ("_SM3_" anchor).
#[derive(Clone, Copy, Debug, PartialEq, Eq, Structural)]
pub struct EntryPoint64 {
    pub major: u8,
    pub minor: u8,
    pub table_length: u32,
    pub table_address: u64,
}

/// A parsed SMBIOS anchor record, in one of its two address-width variants.
#[derive(Clone, Copy, Debug, PartialEq, Eq, Structural)]
pub enum EntryPoint {
    Bits32(EntryPoint32),
    Bits64(EntryPoint64),
}

/// The four-byte legacy anchor signature "_SM_" stands at offset `i`.
pub open spec fn is_sig32_at(s: Seq<u8>, i: int) -> bool {
    &&& 0 <= i
    &&& i + 4 <= s.len()
    &&& s[i] == 0x5fu8
    &&& s[i + 1] == 0x53u8
    &&& s[i + 2] == 0x4du8
    &&& s[i + 3] == 0x5fu8
}

/// The five-byte extended anchor signature "_SM3_" stands at offset `i`.
pub open spec fn is_sig64_at(s: Seq<u8>, i: int) -> bool {
    &&& 0 <= i
    &&& i + 5 <= s.len()
    &&& s[i] == 0x5fu8
    &&& s[i + 1] == 0x53u8
    &&& s[i + 2] == 0x4du8
    &&& s[i + 3] == 0x33u8
    &&& s[i + 4] == 0x5fu8
}

/// A legacy header starting at offset 0 parses successfully: the signature
/// matches, the declared header length is the fixed legacy size, the
/// secondary (intermediate) checksum over bytes 16..31 sums to zero, and
/// the declared table length is nonzero.
pub open spec fn parse32_ok(s: Seq<u8>) -> bool {
    &&& s.len() >= HEADER32_LEN
    &&& is_sig32_at(s, 0)
    &&& s[5] == 0x1fu8
    &&& checksum_ok(s.subrange(16, 31))
    &&& le16(s, 22) != 0
}

/// An extended header starting at offset 0 parses successfully: the
/// signature matches, the declared header length is the fixed extended
/// size, and the declared table length is nonzero.  The extended header
/// carries no secondary checksum.
pub open spec fn parse64_ok(s: Seq<u8>) -> bool {
    &&& s.len() >= HEADER64_LEN
    &&& is_sig64_at(s, 0)
    &&& s[6] == 0x18u8
    &&& le32(s, 12) != 0
}

/// The legacy entry point encoded by a header that satisfies `parse32_ok`.
pub open spec fn spec_parse32(s: Seq<u8>) -> EntryPoint32 {
    EntryPoint32 {
        major: s[6],
        minor: s[7],
        table_length: le16(s, 22) as u32,
        table_address: le32(s, 24) as u32,
        structure_count: le16(s, 28) as u16,
    }
}

/// The extended entry point encoded by a header that satisfies `parse64_ok`.
pub open spec fn spec_parse64(s: Seq<u8>) -> EntryPoint64 {
    EntryPoint64 {
        major: s[7],
        minor: s[8],
        table_length: le32(s, 12) as u32,
        table_address: le64(s, 16) as u64,
    }
}

/// What `parse_entry_point` returns for any input bytes.
pub open spec fn spec_parse(s: Seq<u8>) -> Result<EntryPoint, Error> {
    if parse32_ok(s) {
        Ok(EntryPoint::Bits32(spec_parse32(s)))
    } else if parse64_ok(s) {
        Ok(EntryPoint::Bits64(spec_parse64(s)))
    } else {
        Err(Error::InvalidEntryPoint)
    }
}

/// The `(table address, table length)` pair an entry point describes, both
/// widened to 64 bits without sign extension.
pub open spec fn spec_table(ep: EntryPoint) -> (u64, u64) {
    match ep {
        EntryPoint::Bits32(e) => (e.table_address as u64, e.table_length as u64),
        EntryPoint::Bits64(e) => (e.table_address, e.table_length as u64),
    }
}

impl EntryPoint {
    /// The entry point's invariant: it describes a table of at least one
    /// byte.  Established by the parser for every entry point it returns.
    pub open spec fn wf(self) -> bool {
        spec_table(self).1 > 0
    }

    /// Where the structure table lives: its address and its length in bytes.
    pub fn table(&self) -> (r: (u64, u64))
        ensures
            r == spec_table(*self),
    {
        match self {
            EntryPoint::Bits32(e) => (e.table_address as u64, e.table_length as u64),
            EntryPoint::Bits64(e) => (e.table_address, e.table_length as u64),
        }
    }
}

/// Parses the entry-point header that starts at offset 0 of `bytes`.
///
/// Succeeds exactly on headers whose anchor signature is recognized, whose
/// declared header length equals the fixed size of the detected variant,
/// whose secondary checksum (legacy variant only) sums to zero, and whose
/// declared table length is nonzero; every other input is rejected with
/// `Error::InvalidEntryPoint`.
pub fn parse_entry_point(bytes: &Vec<u8>) -> (r: Result<EntryPoint, Error>)
    ensures
        r == spec_parse(bytes@),
        r matches Ok(ep) ==> ep.wf(),
{
    let n: usize = bytes.len();
    if n >= HEADER32_LEN
        && bytes[0] == 0x5f && bytes[1] == 0x53 && bytes[2] == 0x4d && bytes[3] == 0x5f
        && bytes[5] == 0x1f
        && checksum_over(bytes, 16, 31)
        && read_le16(bytes, 22) != 0
    {
        let table_length = read_le16(bytes, 22) as u32;
        let table_address = read_le32(bytes, 24);
        let structure_count = read_le16(bytes, 28);
        Ok(EntryPoint::Bits32(EntryPoint32 {
            major: bytes[6],
            minor: bytes[7],
            table_length,
            table_address,
            structure_count,
        }))
    } else if n >= HEADER64_LEN
        && bytes[0] == 0x5f && bytes[1] == 0x53 && bytes[2] == 0x4d && bytes[3] == 0x33
        && bytes[4] == 0x5f
        && bytes[6] == 0x18
        && read_le32(bytes, 12) != 0
    {
        let table_length = read_le32(bytes, 12);
        let table_address = read_le64(bytes, 16);
        Ok(EntryPoint::Bits64(EntryPoint64 {
            major: bytes[7],
            minor: bytes[8],
            table_length,
            table_address,
        }))
    } else {
        Err(Error::InvalidEntryPoint)
    }
}

} // verus!
