//! Classifier for 32-bit MIPS R4300i-family machine words, together with a
//! reader for the fixed-layout cartridge header and the 1008-word boot-code
//! block that follows it.
//!
//! The decoder maps every possible word to exactly one mnemonic tag or to a
//! typed failure naming the dispatch table that rejected it; the header
//! reader extracts the fixed big-endian fields and runs each boot-code word
//! through the decoder, collecting per-word results.

pub mod instruction;
pub mod rom;
