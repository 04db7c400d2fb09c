//! The cartridge header reader and boot-code extractor: fixed-offset
//! big-endian field extraction from a ROM image's first 4096 bytes, with
//! each boot-code word run through the instruction decoder.

use vstd::prelude::*;
use vstd::slice::{slice_subrange, slice_to_vec};
use crate::instruction::{Instruction, UnknownOpcode, spec_decode};

verus! {

/// Number of 32-bit words in the boot-code block.
pub const BOOTCODE_WORDS: usize = 1008;

/// Byte length of the fixed cartridge header.
pub const HEADER_LEN: usize = 64;

/// Byte length of header plus boot code: the whole PIF boot block.
pub const BOOT_BLOCK_LEN: usize = 4096;

/// A failure that aborts the whole parse.
#[derive(Debug, Clone, Copy, PartialEq, Eq, Structural)]
pub enum RomError {
    /// The byte stream is shorter than the stage being read requires.
    InsufficientData,
    /// The image-name bytes are not valid text.
    InvalidText,
}

/// The big-endian 16-bit value held at `off` in `s`.
pub open spec fn spec_be_u16(s: Seq<u8>, off: int) -> u16 {
    (s[off] * 0x100 + s[off + 1]) as u16
}

/// The big-endian 32-bit value held at `off` in `s`.
pub open spec fn spec_be_u32(s: Seq<u8>, off: int) -> u32 {
    (s[off] * 0x1000000 + s[off + 1] * 0x10000 + s[off + 2] * 0x100 + s[off + 3]) as u32
}

/// The 20 image-name bytes of a ROM image.
pub open spec fn spec_name_bytes(s: Seq<u8>) -> Seq<u8> {
    s.subrange(0x20, 0x34)
}

/// What decoding a byte sequence as UTF-8 text yields: the character
/// sequence when the bytes are valid UTF-8, nothing otherwise.
pub uninterp spec fn utf8_decode(bytes: Seq<u8>) -> Option<Seq<char>>;

/// Relies on String::from_utf8: it succeeds exactly on valid UTF-8 input,
/// its result holds the decoded characters, and that result depends on the
/// bytes alone.
#[verifier::external_body]
fn decode_utf8(bytes: Vec<u8>) -> (r: Option<String>)
    ensures
        (match (r, utf8_decode(bytes@)) {
            (Some(s), Some(cs)) => s@ == cs,
            (None, None) => true,
            _ => false,
        }),
{
    match String::from_utf8(bytes) {
        Ok(s) => Some(s),
        Err(_) => None,
    }
}

/// Reads the big-endian 32-bit word at `off`.
fn read_be_u32(bytes: &[u8], off: usize) -> (r: u32)
    requires
        off + 4 <= bytes@.len(),
    ensures
        r == spec_be_u32(bytes@, off as int),
{
    let len: usize = bytes.len();
    assert(off + 4 <= len);
    let b0 = *vstd::slice::slice_index_get(bytes, off) as u32;
    let b1 = *vstd::slice::slice_index_get(bytes, off + 1) as u32;
    let b2 = *vstd::slice::slice_index_get(bytes, off + 2) as u32;
    let b3 = *vstd::slice::slice_index_get(bytes, off + 3) as u32;
    b0 * 0x1000000 + b1 * 0x10000 + b2 * 0x100 + b3
}

/// Reads the big-endian 16-bit value at `off`.
fn read_be_u16(bytes: &[u8], off: usize) -> (r: u16)
    requires
        off + 2 <= bytes@.len(),
    ensures
        r == spec_be_u16(bytes@, off as int),
{
    let len: usize = bytes.len();
    assert(off + 2 <= len);
    let b0 = *vstd::slice::slice_index_get(bytes, off) as u16;
    let b1 = *vstd::slice::slice_index_get(bytes, off + 1) as u16;
    b0 * 0x100 + b1
}

/// The fixed-layout cartridge header fields together with the decoded
/// boot-code block.
#[derive(Debug)]
pub struct Rom {
    pub clock_rate: u32,
    pub pc: u32,
    pub release: u32,
    pub crc_1: u32,
    pub crc_2: u32,
    pub image_name: String,
    pub manufacturer_id: u32,
    pub cartridge_id: u16,
    pub country_code: u16,
    /// One entry per boot-code word, in offset order: the decoded
    /// instruction, or the decode failure for that word. A failed word is
    /// kept, not dropped, so the caller can see which words failed and why.
    pub bootcode: Vec<Result<Instruction, UnknownOpcode>>,
}

/// The header fields of `v` match the bytes of `s` at the fixed offsets,
/// big-endian, and its boot code holds the decode result of each of the
/// 1008 words that follow the header.
pub open spec fn spec_rom_matches(v: Rom, s: Seq<u8>) -> bool {
    &&& v.clock_rate == spec_be_u32(s, 0x04)
    &&& v.pc == spec_be_u32(s, 0x08)
    &&& v.release == spec_be_u32(s, 0x0c)
    &&& v.crc_1 == spec_be_u32(s, 0x10)
    &&& v.crc_2 == spec_be_u32(s, 0x14)
    &&& utf8_decode(spec_name_bytes(s)) matches Some(cs) && v.image_name@ == cs
    &&& v.manufacturer_id == spec_be_u32(s, 0x38)
    &&& v.cartridge_id == spec_be_u16(s, 0x3c)
    &&& v.country_code == spec_be_u16(s, 0x3e)
    &&& v.bootcode@.len() == BOOTCODE_WORDS
    &&& forall|i: int|
        0 <= i < BOOTCODE_WORDS ==> v.bootcode@[i] == spec_decode(
            spec_be_u32(s, 0x40 + 4 * i),
        )
}

impl Rom {
    /// Parses the header and boot code out of the leading bytes of a ROM
    /// image. The stream must hold the whole 4096-byte boot block; a
    /// per-word decode failure inside the boot code is collected in the
    /// result rather than aborting the parse.
    pub fn from_rom(rom: &[u8]) -> (r: Result<Rom, RomError>)
        ensures
            r is Ok <==> rom@.len() >= BOOT_BLOCK_LEN && utf8_decode(
                spec_name_bytes(rom@),
            ) is Some,
            r matches Ok(v) ==> spec_rom_matches(v, rom@),
            r matches Err(e) ==> (match e {
                RomError::InsufficientData => rom@.len() < HEADER_LEN || (rom@.len()
                    < BOOT_BLOCK_LEN && utf8_decode(spec_name_bytes(rom@)) is Some),
                RomError::InvalidText => rom@.len() >= HEADER_LEN && utf8_decode(
                    spec_name_bytes(rom@),
                ) is None,
            }),
    {
        if rom.len() < HEADER_LEN {
            return Err(RomError::InsufficientData);
        }
        let name_bytes = slice_to_vec(slice_subrange(rom, 0x20, 0x34));
        let image_name = match decode_utf8(name_bytes) {
            Some(s) => s,
            None => {
                return Err(RomError::InvalidText);
            },
        };
        if rom.len() < BOOT_BLOCK_LEN {
            return Err(RomError::InsufficientData);
        }
        let clock_rate = read_be_u32(rom, 0x04);
        let pc = read_be_u32(rom, 0x08);
        let release = read_be_u32(rom, 0x0c);
        let crc_1 = read_be_u32(rom, 0x10);
        let crc_2 = read_be_u32(rom, 0x14);
        let manufacturer_id = read_be_u32(rom, 0x38);
        let cartridge_id = read_be_u16(rom, 0x3c);
        let country_code = read_be_u16(rom, 0x3e);
        let mut bootcode: Vec<Result<Instruction, UnknownOpcode>> = Vec::new();
        let mut i: usize = 0;
        while i < BOOTCODE_WORDS
            invariant
                0 <= i <= BOOTCODE_WORDS,
                rom@.len() >= BOOT_BLOCK_LEN,
                bootcode@.len() == i,
                forall|j: int|
                    0 <= j < i ==> bootcode@[j] == spec_decode(spec_be_u32(rom@, 0x40 + 4 * j)),
            decreases BOOTCODE_WORDS - i,
        {
            let word = read_be_u32(rom, 0x40 + 4 * i);
            bootcode.push(Instruction::from_word(word));
            i = i + 1;
        }
        Ok(
            Rom {
                clock_rate,
                pc,
                release,
                crc_1,
                crc_2,
                image_name,
                manufacturer_id,
                cartridge_id,
                country_code,
                bootcode,
            },
        )
    }
}

} // verus!
